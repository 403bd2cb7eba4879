use vstd::prelude::*;

verus! {

/// A slot number on the chain.
pub type BlockSlot = u64;

/// A 32-byte block hash.
pub type BlockHash = [u8; 32];

/// An exact position on the chain: a slot and the hash of the block there.
#[derive(Clone, Copy, Debug, PartialEq, Eq)]
pub struct ChainPoint(pub BlockSlot, pub BlockHash);

/// A point as the chain-sync protocol names it: the origin, or a slot and a block hash.
#[derive(Clone, Debug)]
pub enum Point {
    Origin,
    Specific(u64, Vec<u8>),
}

/// What following the chain yields: a new block, or a rollback to a point.
#[derive(Clone, Debug)]
pub enum ChainSyncEvent {
    RollForward(BlockSlot, BlockHash),
    Rollback(Point),
}

/// A transaction output: the hash of its transaction and its index there.
#[derive(Clone, Copy, Debug, PartialEq, Eq)]
pub struct TxoRef(pub [u8; 32], pub u32);

/// Whether two output references are the same.
pub fn same_txo(a: &TxoRef, b: &TxoRef) -> (r: bool)
    ensures
        r == (*a == *b),
{
    if a.1 != b.1 {
        return false;
    }
    let mut i: usize = 0;
    while i < 32
        invariant
            i <= 32,
            forall|j: int| 0 <= j < i ==> a.0@[j] == b.0@[j],
        decreases 32 - i,
    {
        if a.0[i] != b.0[i] {
            return false;
        }
        i = i + 1;
    }
    assert(a.0 =~= b.0);
    true
}

/// Whether a list of output references holds `t`.
pub fn holds_txo(refs: &Vec<TxoRef>, t: &TxoRef) -> (r: bool)
    ensures
        r == refs@.contains(*t),
{
    let mut i: usize = 0;
    while i < refs.len()
        invariant
            i <= refs.len(),
            forall|j: int| 0 <= j < i ==> refs@[j] != *t,
        decreases refs.len() - i,
    {
        if same_txo(&refs[i], t) {
            return true;
        }
        i = i + 1;
    }
    false
}

/// Whether two byte slices are equal.
pub fn same_bytes(a: &[u8], b: &[u8]) -> (r: bool)
    ensures
        r == (a@ == b@),
{
    if a.len() != b.len() {
        return false;
    }
    let mut i: usize = 0;
    while i < a.len()
        invariant
            i <= a@.len(),
            a@.len() == b@.len(),
            forall|j: int| 0 <= j < i ==> a@[j] == b@[j],
        decreases a@.len() - i,
    {
        if a[i] != b[i] {
            return false;
        }
        i = i + 1;
    }
    assert(a@ =~= b@);
    true
}

/// A copy of a byte string.
pub fn copy_bytes(v: &Vec<u8>) -> (r: Vec<u8>)
    ensures
        r@ == v@,
{
    let mut r: Vec<u8> = Vec::new();
    let mut i: usize = 0;
    while i < v.len()
        invariant
            i <= v.len(),
            r@ == v@.subrange(0, i as int),
        decreases v.len() - i,
    {
        r.push(v[i]);
        i = i + 1;
        assert(r@ =~= v@.subrange(0, i as int));
    }
    assert(v@.subrange(0, v.len() as int) =~= v@);
    r
}

/// A copy of a list of output references.
pub fn copy_refs(v: &Vec<TxoRef>) -> (r: Vec<TxoRef>)
    ensures
        r@ == v@,
{
    let mut r: Vec<TxoRef> = Vec::new();
    let mut i: usize = 0;
    while i < v.len()
        invariant
            i <= v.len(),
            r@ == v@.subrange(0, i as int),
        decreases v.len() - i,
    {
        r.push(v[i]);
        i = i + 1;
        assert(r@ =~= v@.subrange(0, i as int));
    }
    assert(v@.subrange(0, v.len() as int) =~= v@);
    r
}

} // verus!
