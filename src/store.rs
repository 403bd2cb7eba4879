use vstd::prelude::*;

use crate::model::{copy_bytes, copy_refs, holds_txo, same_bytes, BlockHash, BlockSlot, ChainPoint, TxoRef};

verus! {

/// The kinds of secondary index kept over unspent outputs.
#[derive(Clone, Copy, Debug, PartialEq, Eq, Structural)]
pub enum IndexKind {
    Address,
    Payment,
    Stake,
    Policy,
    Asset,
}

/// One secondary index key of an output, as its decoder derives it from the body.
#[derive(Clone, Debug)]
pub struct IndexKey {
    pub kind: IndexKind,
    pub key: Vec<u8>,
}

/// An era-tagged, encoded transaction output.
#[derive(Clone, Debug)]
pub struct UtxoBody {
    pub era: u16,
    pub cbor: Vec<u8>,
}

/// An output that a delta makes spendable, with the index keys of its body.
#[derive(Clone, Debug)]
pub struct ProducedUtxo {
    pub txo: TxoRef,
    pub body: UtxoBody,
    pub keys: Vec<IndexKey>,
}

/// An era-tagged, encoded protocol parameter snapshot.
#[derive(Clone, Debug)]
pub struct PParamsBody {
    pub era: u16,
    pub cbor: Vec<u8>,
}

/// The unit of mutation: the effects of applying or rolling back one block.
#[derive(Clone, Debug)]
pub struct LedgerDelta {
    pub new_position: Option<ChainPoint>,
    pub undone_position: Option<ChainPoint>,
    pub produced_utxo: Vec<ProducedUtxo>,
    pub consumed_utxo: Vec<TxoRef>,
    pub recovered_stxi: Vec<ProducedUtxo>,
    pub undone_utxo: Vec<TxoRef>,
    pub new_pparams: Option<PParamsBody>,
}

/// A request the store refuses.
#[derive(Clone, Copy, Debug, PartialEq, Eq, Structural)]
pub enum StoreError {
    /// A rollback names a slot for which no cursor entry is retained.
    ConfigMismatch { slot: u64 },
}

/// A cursor history entry: the block at a slot, and the outputs its delta spent.
#[derive(Clone, Debug)]
pub struct CursorEntry {
    pub slot: u64,
    pub hash: BlockHash,
    pub tombstones: Vec<TxoRef>,
}

/// A row of the output table; a spent output stays, marked, until compaction.
#[derive(Clone, Debug)]
pub struct UtxoEntry {
    pub txo: TxoRef,
    pub era: u16,
    pub cbor: Vec<u8>,
    pub spent: bool,
}

/// A row of the parameter log.
#[derive(Clone, Debug)]
pub struct PParamsEntry {
    pub slot: u64,
    pub era: u16,
    pub cbor: Vec<u8>,
}

/// A row of the secondary indexes.
#[derive(Clone, Debug)]
pub struct IndexEntry {
    pub kind: IndexKind,
    pub key: Vec<u8>,
    pub txo: TxoRef,
}

/// Contents of a cursor entry: slot, hash, spent outputs.
pub type CursorRow = (u64, BlockHash, Seq<TxoRef>);

/// Contents of an output row: reference, era, encoded body, spent marker.
pub type UtxoRow = (TxoRef, u16, Seq<u8>, bool);

/// Contents of a parameter log row: slot, era, encoded snapshot.
pub type PParamsRow = (u64, u16, Seq<u8>);

/// Contents of an index row: kind, key, output reference.
pub type IndexRow = (IndexKind, Seq<u8>, TxoRef);

/// The contents of the four tables.
pub struct LedgerView {
    pub cursor: Seq<CursorRow>,
    pub utxos: Seq<UtxoRow>,
    pub pparams: Seq<PParamsRow>,
    pub indexes: Seq<IndexRow>,
}

/// Contents of cursor entries.
pub open spec fn cursor_rows(v: Seq<CursorEntry>) -> Seq<CursorRow> {
    v.map_values(|e: CursorEntry| (e.slot, e.hash, e.tombstones@))
}

/// Contents of output table rows.
pub open spec fn utxo_rows(v: Seq<UtxoEntry>) -> Seq<UtxoRow> {
    v.map_values(|e: UtxoEntry| (e.txo, e.era, e.cbor@, e.spent))
}

/// Contents of parameter log rows.
pub open spec fn pparams_rows(v: Seq<PParamsEntry>) -> Seq<PParamsRow> {
    v.map_values(|e: PParamsEntry| (e.slot, e.era, e.cbor@))
}

/// Contents of index rows.
pub open spec fn index_rows(v: Seq<IndexEntry>) -> Seq<IndexRow> {
    v.map_values(|e: IndexEntry| (e.kind, e.key@, e.txo))
}

/// Slots of cursor rows, in table order.
pub open spec fn cursor_slots(c: Seq<CursorRow>) -> Seq<u64> {
    c.map_values(|r: CursorRow| r.0)
}

/// Slots of parameter log rows, in table order.
pub open spec fn pparams_slots(p: Seq<PParamsRow>) -> Seq<u64> {
    p.map_values(|r: PParamsRow| r.0)
}

/// The length of the longest prefix that ends in a slot below `s`: on a table ordered by
/// slot, the number of rows below `s`.
pub open spec fn prefix_below(slots: Seq<u64>, s: int) -> int
    decreases slots.len(),
{
    if slots.len() == 0 {
        0
    } else if (slots.last() as int) < s {
        slots.len() as int
    } else {
        prefix_below(slots.drop_last(), s)
    }
}

/// Rows of the outputs a delta produces or recovers: unspent.
pub open spec fn produced_rows(ps: Seq<ProducedUtxo>) -> Seq<UtxoRow> {
    ps.map_values(|p: ProducedUtxo| (p.txo, p.body.era, p.body.cbor@, false))
}

/// References of produced or recovered outputs.
pub open spec fn produced_refs(ps: Seq<ProducedUtxo>) -> Seq<TxoRef> {
    ps.map_values(|p: ProducedUtxo| p.txo)
}

/// Index rows of one output.
pub open spec fn key_rows(p: ProducedUtxo) -> Seq<IndexRow> {
    p.keys@.map_values(|k: IndexKey| (k.kind, k.key@, p.txo))
}

/// Index rows of a list of outputs, output by output.
pub open spec fn produced_index_rows(ps: Seq<ProducedUtxo>) -> Seq<IndexRow>
    decreases ps.len(),
{
    if ps.len() == 0 {
        Seq::empty()
    } else {
        produced_index_rows(ps.drop_last()) + key_rows(ps.last())
    }
}

/// Output rows without those of the given references.
pub open spec fn erase_utxos(u: Seq<UtxoRow>, refs: Seq<TxoRef>) -> Seq<UtxoRow> {
    u.filter(|r: UtxoRow| !refs.contains(r.0))
}

/// Output rows without the spent ones among the given references.
pub open spec fn erase_spent(u: Seq<UtxoRow>, refs: Seq<TxoRef>) -> Seq<UtxoRow> {
    u.filter(kept_by_compaction(refs))
}

/// Whether an output row survives compaction of the given tombstones: it is not both spent
/// and listed.
pub open spec fn kept_by_compaction(refs: Seq<TxoRef>) -> spec_fn(UtxoRow) -> bool {
    |r: UtxoRow| !(r.3 && refs.contains(r.0))
}

/// Whether an output row is unspent and among the given references.
pub open spec fn live_in(refs: Seq<TxoRef>) -> spec_fn(UtxoRow) -> bool {
    |r: UtxoRow| !r.3 && refs.contains(r.0)
}

/// Whether an index row belongs to none of the given references.
pub open spec fn unlisted(refs: Seq<TxoRef>) -> spec_fn(IndexRow) -> bool {
    |r: IndexRow| !refs.contains(r.2)
}

/// Output rows with the spent marker of the given references set to `spent`.
pub open spec fn mark_utxos(u: Seq<UtxoRow>, refs: Seq<TxoRef>, spent: bool) -> Seq<UtxoRow> {
    u.map_values(|r: UtxoRow| if refs.contains(r.0) { (r.0, r.1, r.2, spent) } else { r })
}

/// Index rows without those of the given references.
pub open spec fn erase_index(x: Seq<IndexRow>, refs: Seq<TxoRef>) -> Seq<IndexRow> {
    x.filter(unlisted(refs))
}

/// The tables after a rollback from point `p`: the cursor entry at its slot and every
/// later one go, and so do the parameter snapshots from that slot on. Refused when no
/// cursor entry at that slot is retained.
pub open spec fn rollback_spec(v: LedgerView, p: ChainPoint) -> Result<LedgerView, StoreError> {
    let k = prefix_below(cursor_slots(v.cursor), p.0 as int);
    if k < v.cursor.len() && v.cursor[k].0 == p.0 {
        Ok(LedgerView {
            cursor: v.cursor.subrange(0, k),
            pparams: v.pparams.subrange(0, prefix_below(pparams_slots(v.pparams), p.0 as int)),
            ..v
        })
    } else {
        Err(StoreError::ConfigMismatch { slot: p.0 })
    }
}

/// The tables after the forward effects of a delta. A new position replaces the cursor
/// entries (and parameter snapshots) at or after its slot and records the outputs the delta
/// spends; outputs are removed (undone), unmarked (recovered), added (produced) and marked
/// spent (consumed), and the indexes follow.
pub open spec fn forward_spec(w: LedgerView, d: LedgerDelta) -> LedgerView {
    let cursor = match d.new_position {
        Some(p) => w.cursor.subrange(0, prefix_below(cursor_slots(w.cursor), p.0 as int)).push(
            (p.0, p.1, d.consumed_utxo@),
        ),
        None => w.cursor,
    };
    let pparams = match d.new_position {
        Some(p) => {
            let kept = w.pparams.subrange(0, prefix_below(pparams_slots(w.pparams), p.0 as int));
            match d.new_pparams {
                Some(b) => kept.push((p.0, b.era, b.cbor@)),
                None => kept,
            }
        },
        None => w.pparams,
    };
    let utxos = mark_utxos(
        mark_utxos(erase_utxos(w.utxos, d.undone_utxo@), produced_refs(d.recovered_stxi@), false)
            + produced_rows(d.produced_utxo@),
        d.consumed_utxo@,
        true,
    );
    let indexes = erase_index(
        erase_index(w.indexes, d.undone_utxo@) + produced_index_rows(d.recovered_stxi@)
            + produced_index_rows(d.produced_utxo@),
        d.consumed_utxo@,
    );
    LedgerView { cursor, utxos, pparams, indexes }
}

/// The tables after one delta: its rollback, if any, then its forward effects.
pub open spec fn apply_delta_spec(v: LedgerView, d: LedgerDelta) -> Result<LedgerView, StoreError> {
    match d.undone_position {
        Some(p) => match rollback_spec(v, p) {
            Ok(w) => Ok(forward_spec(w, d)),
            Err(e) => Err(e),
        },
        None => Ok(forward_spec(v, d)),
    }
}

/// The tables after the first `n` deltas, in order, or the first refusal.
pub open spec fn apply_all_spec(v: LedgerView, ds: Seq<LedgerDelta>, n: int) -> Result<LedgerView, StoreError>
    decreases n,
{
    if n <= 0 {
        Ok(v)
    } else {
        match apply_all_spec(v, ds, n - 1) {
            Ok(w) => apply_delta_spec(w, ds[n - 1]),
            Err(e) => Err(e),
        }
    }
}

/// Spent outputs recorded by a list of cursor rows, row by row.
pub open spec fn tombstones_of(c: Seq<CursorRow>) -> Seq<TxoRef>
    decreases c.len(),
{
    if c.len() == 0 {
        Seq::empty()
    } else {
        tombstones_of(c.drop_last()) + c.last().2
    }
}

/// The tables after compaction up to `until`: cursor entries below it go, and so do the
/// output rows that their deltas spent and that are still marked spent.
pub open spec fn finalize_spec(v: LedgerView, until: u64) -> LedgerView {
    let k = prefix_below(cursor_slots(v.cursor), until as int);
    LedgerView {
        cursor: v.cursor.subrange(k, v.cursor.len() as int),
        utxos: erase_spent(v.utxos, tombstones_of(v.cursor.subrange(0, k))),
        ..v
    }
}

/// The unspent rows among the given references, in table order.
pub open spec fn sparse_spec(u: Seq<UtxoRow>, refs: Seq<TxoRef>) -> Seq<UtxoRow> {
    u.filter(live_in(refs))
}

/// References that an index of the given kind lists under `key`, in table order.
pub open spec fn lookup_spec(x: Seq<IndexRow>, kind: IndexKind, key: Seq<u8>) -> Seq<TxoRef> {
    x.filter(index_match(kind, key)).map_values(|r: IndexRow| r.2)
}

/// Whether an index row is of the given kind and key.
pub open spec fn index_match(kind: IndexKind, key: Seq<u8>) -> spec_fn(IndexRow) -> bool {
    |r: IndexRow| r.0 == kind && r.1 == key
}

/// The ledger store: cursor history, output set, parameter log and secondary indexes.
pub struct LedgerStore {
    cursor: Vec<CursorEntry>,
    utxos: Vec<UtxoEntry>,
    pparams: Vec<PParamsEntry>,
    indexes: Vec<IndexEntry>,
}

impl View for LedgerStore {
    type V = LedgerView;

    closed spec fn view(&self) -> LedgerView {
        LedgerView {
            cursor: cursor_rows(self.cursor@),
            utxos: utxo_rows(self.utxos@),
            pparams: pparams_rows(self.pparams@),
            indexes: index_rows(self.indexes@),
        }
    }
}


/// Number of leading cursor entries, counted back from the end, whose slot is below `s`.
fn cursor_prefix(rows: &Vec<CursorEntry>, s: u64) -> (k: usize)
    ensures
        k == prefix_below(cursor_slots(cursor_rows(rows@)), s as int),
        k <= rows@.len(),
{
    let ghost slots = cursor_slots(cursor_rows(rows@));
    let mut i: usize = rows.len();
    assert(slots.subrange(0, i as int) =~= slots);
    while i > 0 && rows[i - 1].slot >= s
        invariant
            i <= rows@.len(),
            slots == cursor_slots(cursor_rows(rows@)),
            prefix_below(slots, s as int) == prefix_below(slots.subrange(0, i as int), s as int),
        decreases i,
    {
        assert(slots.subrange(0, i as int).drop_last() =~= slots.subrange(0, i - 1));
        i = i - 1;
    }
    i
}

/// Number of leading parameter log rows, counted back from the end, whose slot is below
/// `s`, or at most `s` when `inclusive`.
fn pparams_prefix(rows: &Vec<PParamsEntry>, s: u64, inclusive: bool) -> (k: usize)
    ensures
        k == prefix_below(pparams_slots(pparams_rows(rows@)), if inclusive { s + 1 } else { s as int }),
        k <= rows@.len(),
{
    let ghost slots = pparams_slots(pparams_rows(rows@));
    let ghost bound: int = if inclusive { s + 1 } else { s as int };
    let mut i: usize = rows.len();
    assert(slots.subrange(0, i as int) =~= slots);
    while i > 0 && (rows[i - 1].slot > s || (!inclusive && rows[i - 1].slot == s))
        invariant
            i <= rows@.len(),
            slots == pparams_slots(pparams_rows(rows@)),
            bound == if inclusive { s + 1 } else { s as int },
            prefix_below(slots, bound) == prefix_below(slots.subrange(0, i as int), bound),
        decreases i,
    {
        assert(slots.subrange(0, i as int).drop_last() =~= slots.subrange(0, i - 1));
        i = i - 1;
    }
    i
}

/// A copy of an output row with the spent marker set to `spent`.
fn copy_utxo(e: &UtxoEntry, spent: bool) -> (r: UtxoEntry)
    ensures
        r.txo == e.txo,
        r.era == e.era,
        r.cbor@ == e.cbor@,
        r.spent == spent,
{
    UtxoEntry { txo: e.txo, era: e.era, cbor: copy_bytes(&e.cbor), spent }
}

/// A copy of an index row.
fn copy_index(e: &IndexEntry) -> (r: IndexEntry)
    ensures
        r.kind == e.kind,
        r.key@ == e.key@,
        r.txo == e.txo,
{
    IndexEntry { kind: e.kind, key: copy_bytes(&e.key), txo: e.txo }
}

/// Output rows without those of the given references.
fn erase_utxo_rows(rows: &Vec<UtxoEntry>, refs: &Vec<TxoRef>) -> (r: Vec<UtxoEntry>)
    ensures
        utxo_rows(r@) == erase_utxos(utxo_rows(rows@), refs@),
{
    let ghost all = utxo_rows(rows@);
    let ghost pred = |r: UtxoRow| !refs@.contains(r.0);
    let mut out: Vec<UtxoEntry> = Vec::new();
    let mut i: usize = 0;
    while i < rows.len()
        invariant
            i <= rows@.len(),
            all == utxo_rows(rows@),
            pred == (|r: UtxoRow| !refs@.contains(r.0)),
            utxo_rows(out@) == all.subrange(0, i as int).filter(pred),
        decreases rows@.len() - i,
    {
        let ghost s1 = all.subrange(0, i + 1);
        assert(s1 =~= all.subrange(0, i as int).push(all[i as int]));
        proof {
            all.subrange(0, i as int).lemma_filter_push(all[i as int], pred);
        }
        let keep = !holds_txo(refs, &rows[i].txo);
        assert(keep == pred(all[i as int]));
        if keep {
            let e = copy_utxo(&rows[i], rows[i].spent);
            let ghost prev = out@;
            out.push(e);
            assert(utxo_rows(out@).len() == out@.len());
            assert(utxo_rows(prev).len() == prev.len());
            assert(utxo_rows(out@) =~= utxo_rows(prev).push(all[i as int]));
        }
        assert(utxo_rows(out@) == s1.filter(pred));
        i = i + 1;
    }
    assert(all.subrange(0, rows@.len() as int) =~= all);
    out
}

/// Output rows without the spent ones among the given references.
fn erase_spent_rows(rows: &Vec<UtxoEntry>, refs: &Vec<TxoRef>) -> (r: Vec<UtxoEntry>)
    ensures
        utxo_rows(r@) == erase_spent(utxo_rows(rows@), refs@),
{
    let ghost all = utxo_rows(rows@);
    let ghost pred = kept_by_compaction(refs@);
    let mut out: Vec<UtxoEntry> = Vec::new();
    let mut i: usize = 0;
    while i < rows.len()
        invariant
            i <= rows@.len(),
            all == utxo_rows(rows@),
            pred == kept_by_compaction(refs@),
            utxo_rows(out@) == all.subrange(0, i as int).filter(pred),
        decreases rows@.len() - i,
    {
        let ghost s1 = all.subrange(0, i + 1);
        assert(s1 =~= all.subrange(0, i as int).push(all[i as int]));
        proof {
            all.subrange(0, i as int).lemma_filter_push(all[i as int], pred);
        }
        let keep = !(rows[i].spent && holds_txo(refs, &rows[i].txo));
        assert(keep == pred(all[i as int]));
        if keep {
            let e = copy_utxo(&rows[i], rows[i].spent);
            let ghost prev = out@;
            out.push(e);
            assert(utxo_rows(out@).len() == out@.len());
            assert(utxo_rows(prev).len() == prev.len());
            assert(utxo_rows(out@) =~= utxo_rows(prev).push(all[i as int]));
        }
        assert(utxo_rows(out@) == s1.filter(pred));
        i = i + 1;
    }
    assert(all.subrange(0, rows@.len() as int) =~= all);
    out
}

/// Output rows with the spent marker of the given references set to `spent`.
fn mark_utxo_rows(rows: &Vec<UtxoEntry>, refs: &Vec<TxoRef>, spent: bool) -> (r: Vec<UtxoEntry>)
    ensures
        utxo_rows(r@) == mark_utxos(utxo_rows(rows@), refs@, spent),
{
    let mut out: Vec<UtxoEntry> = Vec::new();
    let mut i: usize = 0;
    while i < rows.len()
        invariant
            i <= rows@.len(),
            out@.len() == i,
            forall|j: int| 0 <= j < i ==> utxo_rows(out@)[j] == mark_utxos(utxo_rows(rows@), refs@, spent)[j],
        decreases rows@.len() - i,
    {
        let flag = if holds_txo(refs, &rows[i].txo) { spent } else { rows[i].spent };
        let e = copy_utxo(&rows[i], flag);
        let ghost prev = out@;
        out.push(e);
        assert(utxo_rows(out@).len() == out@.len());
        assert(utxo_rows(prev).len() == prev.len());
        assert(forall|j: int| 0 <= j < prev.len() ==> utxo_rows(out@)[j] == utxo_rows(prev)[j]);
        assert(utxo_rows(rows@).len() == rows@.len());
        assert(mark_utxos(utxo_rows(rows@), refs@, spent)[i as int] == (e.txo, e.era, e.cbor@, e.spent));
        assert(utxo_rows(out@)[i as int] == (e.txo, e.era, e.cbor@, e.spent));
        assert forall|j: int| 0 <= j < i + 1 implies #[trigger] utxo_rows(out@)[j] == mark_utxos(utxo_rows(rows@), refs@, spent)[j] by {
            if j < i {
                assert(utxo_rows(prev)[j] == mark_utxos(utxo_rows(rows@), refs@, spent)[j]);
            }
        }
        i = i + 1;
    }
    assert(utxo_rows(out@) =~= mark_utxos(utxo_rows(rows@), refs@, spent));
    out
}

/// Appends unspent rows for the given outputs.
fn push_produced(rows: &mut Vec<UtxoEntry>, ps: &Vec<ProducedUtxo>)
    ensures
        utxo_rows(final(rows)@) == utxo_rows(old(rows)@) + produced_rows(ps@),
{
    let ghost start = utxo_rows(rows@);
    let mut i: usize = 0;
    while i < ps.len()
        invariant
            i <= ps@.len(),
            utxo_rows(rows@) == start + produced_rows(ps@).subrange(0, i as int),
        decreases ps@.len() - i,
    {
        let e = UtxoEntry { txo: ps[i].txo, era: ps[i].body.era, cbor: copy_bytes(&ps[i].body.cbor), spent: false };
        let ghost prev = rows@;
        rows.push(e);
        assert(rows@ == prev.push(e));
        assert(utxo_rows(rows@)[prev.len() as int] == (e.txo, e.era, e.cbor@, e.spent));
        assert(produced_rows(ps@)[i as int] == (e.txo, e.era, e.cbor@, e.spent));
        i = i + 1;
        let ghost goal = start + produced_rows(ps@).subrange(0, i as int);
        assert(utxo_rows(rows@).len() == rows@.len());
        assert(utxo_rows(prev).len() == prev.len());
        assert(rows@.len() == prev.len() + 1);
        assert(goal.len() == start.len() + i);
        assert(utxo_rows(prev).len() == start.len() + i - 1);
        assert(utxo_rows(rows@).len() == goal.len());
        assert forall|j: int| 0 <= j < goal.len() implies #[trigger] utxo_rows(rows@)[j] == goal[j] by {
            if j < prev.len() {
                assert(utxo_rows(rows@)[j] == utxo_rows(prev)[j]);
                assert(utxo_rows(prev)[j] == (start + produced_rows(ps@).subrange(0, i - 1))[j]);
            }
        }
        assert(utxo_rows(rows@) =~= goal);
    }
    assert(produced_rows(ps@).subrange(0, ps@.len() as int) =~= produced_rows(ps@));
}

/// Index rows without those of the given references.
fn erase_index_rows(rows: &Vec<IndexEntry>, refs: &Vec<TxoRef>) -> (r: Vec<IndexEntry>)
    ensures
        index_rows(r@) == erase_index(index_rows(rows@), refs@),
{
    let ghost all = index_rows(rows@);
    let ghost pred = unlisted(refs@);
    let mut out: Vec<IndexEntry> = Vec::new();
    let mut i: usize = 0;
    while i < rows.len()
        invariant
            i <= rows@.len(),
            all == index_rows(rows@),
            pred == unlisted(refs@),
            index_rows(out@) == all.subrange(0, i as int).filter(pred),
        decreases rows@.len() - i,
    {
        let ghost s1 = all.subrange(0, i + 1);
        assert(s1 =~= all.subrange(0, i as int).push(all[i as int]));
        proof {
            all.subrange(0, i as int).lemma_filter_push(all[i as int], pred);
        }
        let keep = !holds_txo(refs, &rows[i].txo);
        assert(keep == pred(all[i as int]));
        if keep {
            let e = copy_index(&rows[i]);
            let ghost prev = out@;
            out.push(e);
            assert(index_rows(out@).len() == out@.len());
            assert(index_rows(prev).len() == prev.len());
            assert(index_rows(out@) =~= index_rows(prev).push(all[i as int]));
        }
        assert(index_rows(out@) == s1.filter(pred));
        i = i + 1;
    }
    assert(all.subrange(0, rows@.len() as int) =~= all);
    out
}

/// Appends the index rows of the given outputs.
fn push_index(rows: &mut Vec<IndexEntry>, ps: &Vec<ProducedUtxo>)
    ensures
        index_rows(final(rows)@) == index_rows(old(rows)@) + produced_index_rows(ps@),
{
    let ghost start = index_rows(rows@);
    let mut i: usize = 0;
    while i < ps.len()
        invariant
            i <= ps@.len(),
            index_rows(rows@) == start + produced_index_rows(ps@.subrange(0, i as int)),
        decreases ps@.len() - i,
    {
        let ghost before = index_rows(rows@);
        let mut j: usize = 0;
        while j < ps[i].keys.len()
            invariant
                i < ps@.len(),
                j <= ps@[i as int].keys@.len(),
                index_rows(rows@) == before + key_rows(ps@[i as int]).subrange(0, j as int),
            decreases ps@[i as int].keys@.len() - j,
        {
            let e = IndexEntry { kind: ps[i].keys[j].kind, key: copy_bytes(&ps[i].keys[j].key), txo: ps[i].txo };
            let ghost prev = rows@;
            rows.push(e);
            assert(index_rows(rows@).len() == rows@.len());
            assert(index_rows(prev).len() == prev.len());
            assert(key_rows(ps@[i as int]).len() == ps@[i as int].keys@.len());
            assert(forall|k: int| 0 <= k < prev.len() ==> index_rows(rows@)[k] == index_rows(prev)[k]);
            assert(key_rows(ps@[i as int])[j as int] == (e.kind, e.key@, e.txo));
            assert(index_rows(rows@)[prev.len() as int] == (e.kind, e.key@, e.txo));
            j = j + 1;
            let ghost goal = before + key_rows(ps@[i as int]).subrange(0, j as int);
            assert(index_rows(rows@).len() == goal.len());
            assert forall|k: int| 0 <= k < goal.len() implies #[trigger] index_rows(rows@)[k] == goal[k] by {
                if k < prev.len() {
                    assert(index_rows(rows@)[k] == index_rows(prev)[k]);
                    assert(index_rows(prev)[k] == (before + key_rows(ps@[i as int]).subrange(0, j - 1))[k]);
                }
            }
            assert(index_rows(rows@) =~= goal);
        }
        assert(key_rows(ps@[i as int]).subrange(0, j as int) =~= key_rows(ps@[i as int]));
        assert(ps@.subrange(0, i + 1).drop_last() =~= ps@.subrange(0, i as int));
        i = i + 1;
        assert(index_rows(rows@) =~= start + produced_index_rows(ps@.subrange(0, i as int)));
    }
    assert(ps@.subrange(0, ps@.len() as int) =~= ps@);
}


/// Spent outputs recorded by the first `k` cursor entries.
fn collect_tombstones(rows: &Vec<CursorEntry>, k: usize) -> (r: Vec<TxoRef>)
    requires
        k <= rows@.len(),
    ensures
        r@ == tombstones_of(cursor_rows(rows@).subrange(0, k as int)),
{
    let ghost c = cursor_rows(rows@);
    let mut out: Vec<TxoRef> = Vec::new();
    let mut i: usize = 0;
    assert(c.subrange(0, 0) =~= Seq::<CursorRow>::empty());
    while i < k
        invariant
            i <= k,
            k <= rows@.len(),
            c == cursor_rows(rows@),
            out@ == tombstones_of(c.subrange(0, i as int)),
        decreases k - i,
    {
        let ghost before = out@;
        let mut j: usize = 0;
        while j < rows[i].tombstones.len()
            invariant
                i < rows@.len(),
                j <= rows@[i as int].tombstones@.len(),
                out@ == before + rows@[i as int].tombstones@.subrange(0, j as int),
            decreases rows@[i as int].tombstones@.len() - j,
        {
            out.push(rows[i].tombstones[j]);
            j = j + 1;
            assert(out@ =~= before + rows@[i as int].tombstones@.subrange(0, j as int));
        }
        assert(rows@[i as int].tombstones@.subrange(0, j as int) =~= rows@[i as int].tombstones@);
        assert(c.subrange(0, i + 1).drop_last() =~= c.subrange(0, i as int));
        assert(c.subrange(0, i + 1).last() == c[i as int]);
        assert(c[i as int].2 == rows@[i as int].tombstones@);
        i = i + 1;
    }
    out
}

/// References of produced or recovered outputs.
fn refs_of_produced(ps: &Vec<ProducedUtxo>) -> (r: Vec<TxoRef>)
    ensures
        r@ == produced_refs(ps@),
{
    let mut out: Vec<TxoRef> = Vec::new();
    let mut i: usize = 0;
    while i < ps.len()
        invariant
            i <= ps@.len(),
            out@ == produced_refs(ps@).subrange(0, i as int),
        decreases ps@.len() - i,
    {
        out.push(ps[i].txo);
        i = i + 1;
        assert(out@ =~= produced_refs(ps@).subrange(0, i as int));
    }
    assert(produced_refs(ps@).subrange(0, ps@.len() as int) =~= produced_refs(ps@));
    out
}

/// A copy of the cursor entries from index `from` on.
fn copy_cursor_from(rows: &Vec<CursorEntry>, from: usize) -> (r: Vec<CursorEntry>)
    requires
        from <= rows@.len(),
    ensures
        cursor_rows(r@) == cursor_rows(rows@).subrange(from as int, rows@.len() as int),
{
    let mut out: Vec<CursorEntry> = Vec::new();
    let mut i: usize = from;
    while i < rows.len()
        invariant
            from <= i <= rows@.len(),
            out@.len() == i - from,
            forall|j: int| 0 <= j < i - from ==> #[trigger] cursor_rows(out@)[j] == cursor_rows(rows@)[j + from],
        decreases rows@.len() - i,
    {
        let e = CursorEntry { slot: rows[i].slot, hash: rows[i].hash, tombstones: copy_refs(&rows[i].tombstones) };
        let ghost prev = out@;
        out.push(e);
        assert(cursor_rows(out@).len() == out@.len());
        assert(cursor_rows(prev).len() == prev.len());
        assert(cursor_rows(rows@).len() == rows@.len());
        assert forall|j: int| 0 <= j < i + 1 - from implies #[trigger] cursor_rows(out@)[j] == cursor_rows(rows@)[j + from] by {
            if j < i - from {
                assert(cursor_rows(prev)[j] == cursor_rows(rows@)[j + from]);
            }
        }
        i = i + 1;
    }
    assert(cursor_rows(out@) =~= cursor_rows(rows@).subrange(from as int, rows@.len() as int));
    out
}

/// A copy of the parameter log.
fn copy_pparams(rows: &Vec<PParamsEntry>) -> (r: Vec<PParamsEntry>)
    ensures
        pparams_rows(r@) == pparams_rows(rows@),
{
    let mut out: Vec<PParamsEntry> = Vec::new();
    let mut i: usize = 0;
    while i < rows.len()
        invariant
            i <= rows@.len(),
            out@.len() == i,
            forall|j: int| 0 <= j < i ==> #[trigger] pparams_rows(out@)[j] == pparams_rows(rows@)[j],
        decreases rows@.len() - i,
    {
        let e = PParamsEntry { slot: rows[i].slot, era: rows[i].era, cbor: copy_bytes(&rows[i].cbor) };
        let ghost prev = out@;
        out.push(e);
        assert(pparams_rows(out@).len() == out@.len());
        assert(pparams_rows(prev).len() == prev.len());
        assert(pparams_rows(rows@).len() == rows@.len());
        assert forall|j: int| 0 <= j < i + 1 implies #[trigger] pparams_rows(out@)[j] == pparams_rows(rows@)[j] by {
            if j < i {
                assert(pparams_rows(prev)[j] == pparams_rows(rows@)[j]);
            }
        }
        i = i + 1;
    }
    assert(pparams_rows(out@) =~= pparams_rows(rows@));
    out
}

/// A copy of the index rows.
fn copy_indexes(rows: &Vec<IndexEntry>) -> (r: Vec<IndexEntry>)
    ensures
        index_rows(r@) == index_rows(rows@),
{
    let mut out: Vec<IndexEntry> = Vec::new();
    let mut i: usize = 0;
    while i < rows.len()
        invariant
            i <= rows@.len(),
            out@.len() == i,
            forall|j: int| 0 <= j < i ==> #[trigger] index_rows(out@)[j] == index_rows(rows@)[j],
        decreases rows@.len() - i,
    {
        let e = copy_index(&rows[i]);
        let ghost prev = out@;
        out.push(e);
        assert(index_rows(out@).len() == out@.len());
        assert(index_rows(prev).len() == prev.len());
        assert(index_rows(rows@).len() == rows@.len());
        assert forall|j: int| 0 <= j < i + 1 implies #[trigger] index_rows(out@)[j] == index_rows(rows@)[j] by {
            if j < i {
                assert(index_rows(prev)[j] == index_rows(rows@)[j]);
            }
        }
        i = i + 1;
    }
    assert(index_rows(out@) =~= index_rows(rows@));
    out
}


/// The latest cursor entry as a chain point, if any.
pub open spec fn tip_of(c: Seq<CursorRow>) -> Option<ChainPoint> {
    if c.len() == 0 {
        None
    } else {
        Some(ChainPoint(c.last().0, c.last().1))
    }
}

/// Contents of looked-up outputs, as rows of the output table.
pub open spec fn fetched_rows(v: Seq<(TxoRef, UtxoBody)>) -> Seq<UtxoRow> {
    v.map_values(|p: (TxoRef, UtxoBody)| (p.0, p.1.era, p.1.cbor@, false))
}

/// The snapshots of the parameter log whose slot is at most `until`.
pub open spec fn pparams_until(p: Seq<PParamsRow>, until: u64) -> Seq<PParamsRow> {
    p.subrange(0, prefix_below(pparams_slots(p), until + 1))
}

/// Applying a batch that is refused at some delta is refused with the same error by
/// every longer prefix of the batch.
pub proof fn lemma_apply_error_persists(v: LedgerView, ds: Seq<LedgerDelta>, n: int, m: int)
    requires
        n <= m,
        apply_all_spec(v, ds, n) is Err,
    ensures
        apply_all_spec(v, ds, m) == apply_all_spec(v, ds, n),
    decreases m,
{
    if m > n {
        lemma_apply_error_persists(v, ds, n, m - 1);
    }
}

/// Slots in strictly increasing order.
pub open spec fn increasing(s: Seq<u64>) -> bool {
    forall|i: int, j: int| 0 <= i < j < s.len() ==> s[i] < s[j]
}

/// The tables are well formed: cursor entries and parameter snapshots are ordered by slot,
/// one per slot.
pub open spec fn wf(v: LedgerView) -> bool {
    increasing(cursor_slots(v.cursor)) && increasing(pparams_slots(v.pparams))
}

/// On slots in increasing order, the prefix below `s` holds exactly the slots below `s`.
pub proof fn lemma_prefix_below_splits(slots: Seq<u64>, s: int)
    requires
        increasing(slots),
    ensures
        0 <= prefix_below(slots, s) <= slots.len(),
        forall|i: int| 0 <= i < prefix_below(slots, s) ==> (slots[i] as int) < s,
        forall|i: int| prefix_below(slots, s) <= i < slots.len() ==> (slots[i] as int) >= s,
    decreases slots.len(),
{
    if slots.len() > 0 {
        let d = slots.drop_last();
        assert forall|i: int, j: int| 0 <= i < j < d.len() implies d[i] < d[j] by {
            assert(d[i] == slots[i] && d[j] == slots[j]);
        }
        lemma_prefix_below_splits(d, s);
        let n = slots.len() - 1;
        if (slots.last() as int) < s {
            assert forall|i: int| 0 <= i < slots.len() implies (slots[i] as int) < s by {
                if i < n {
                    assert(slots[i] < slots[n]);
                }
            }
        } else {
            assert forall|i: int| 0 <= i < prefix_below(d, s) implies (slots[i] as int) < s by {
                assert(slots[i] == d[i]);
            }
            assert forall|i: int| prefix_below(d, s) <= i < slots.len() implies (slots[i] as int) >= s by {
                if i < n {
                    assert(slots[i] == d[i]);
                }
            }
        }
    }
}

/// A delta that the store accepts keeps its tables well formed.
pub proof fn lemma_apply_delta_keeps_wf(v: LedgerView, d: LedgerDelta)
    requires
        wf(v),
        apply_delta_spec(v, d) is Ok,
    ensures
        wf(apply_delta_spec(v, d)->Ok_0),
{
    let w = match d.undone_position {
        Some(p) => rollback_spec(v, p)->Ok_0,
        None => v,
    };
    match d.undone_position {
        Some(p) => {
            lemma_prefix_below_splits(cursor_slots(v.cursor), p.0 as int);
            lemma_prefix_below_splits(pparams_slots(v.pparams), p.0 as int);
            let k = prefix_below(cursor_slots(v.cursor), p.0 as int);
            let kp = prefix_below(pparams_slots(v.pparams), p.0 as int);
            assert(cursor_slots(w.cursor) =~= cursor_slots(v.cursor).subrange(0, k));
            assert(pparams_slots(w.pparams) =~= pparams_slots(v.pparams).subrange(0, kp));
        },
        None => {},
    }
    assert(wf(w));
    let r = forward_spec(w, d);
    match d.new_position {
        Some(p) => {
            lemma_prefix_below_splits(cursor_slots(w.cursor), p.0 as int);
            lemma_prefix_below_splits(pparams_slots(w.pparams), p.0 as int);
            let k = prefix_below(cursor_slots(w.cursor), p.0 as int);
            let kp = prefix_below(pparams_slots(w.pparams), p.0 as int);
            assert(cursor_slots(r.cursor) =~= cursor_slots(w.cursor).subrange(0, k).push(p.0));
            let kept = pparams_slots(w.pparams).subrange(0, kp);
            match d.new_pparams {
                Some(b) => assert(pparams_slots(r.pparams) =~= kept.push(p.0)),
                None => assert(pparams_slots(r.pparams) =~= kept),
            }
        },
        None => {},
    }
}

/// A batch that the store accepts keeps its tables well formed.
pub proof fn lemma_apply_all_keeps_wf(v: LedgerView, ds: Seq<LedgerDelta>, n: int)
    requires
        wf(v),
        apply_all_spec(v, ds, n) is Ok,
    ensures
        wf(apply_all_spec(v, ds, n)->Ok_0),
    decreases n,
{
    if n > 0 {
        lemma_apply_all_keeps_wf(v, ds, n - 1);
        lemma_apply_delta_keeps_wf(apply_all_spec(v, ds, n - 1)->Ok_0, ds[n - 1]);
    }
}

/// Compaction keeps the tables well formed.
pub proof fn lemma_finalize_keeps_wf(v: LedgerView, until: u64)
    requires
        wf(v),
    ensures
        wf(finalize_spec(v, until)),
{
    lemma_prefix_below_splits(cursor_slots(v.cursor), until as int);
    let k = prefix_below(cursor_slots(v.cursor), until as int);
    assert(cursor_slots(finalize_spec(v, until).cursor) =~= cursor_slots(v.cursor).subrange(k, v.cursor.len() as int));
}

/// Once history is compacted up to `until`, a rollback to any point before `until` is
/// refused.
pub proof fn lemma_no_rollback_past_finalize(v: LedgerView, until: u64, p: ChainPoint)
    requires
        wf(v),
        p.0 < until,
    ensures
        rollback_spec(finalize_spec(v, until), p) == Err::<LedgerView, StoreError>(StoreError::ConfigMismatch { slot: p.0 }),
{
    lemma_prefix_below_splits(cursor_slots(v.cursor), until as int);
    let k = prefix_below(cursor_slots(v.cursor), until as int);
    let f = finalize_spec(v, until);
    assert(cursor_slots(f.cursor) =~= cursor_slots(v.cursor).subrange(k, v.cursor.len() as int));
    lemma_finalize_keeps_wf(v, until);
    lemma_prefix_below_splits(cursor_slots(f.cursor), p.0 as int);
    let k2 = prefix_below(cursor_slots(f.cursor), p.0 as int);
    if k2 < f.cursor.len() {
        assert(cursor_slots(f.cursor)[k2] == f.cursor[k2].0);
        assert(cursor_slots(v.cursor)[k2 + k] >= until);
    }
}

/// The latest cursor entry, the one that the tip reports, holds the greatest recorded slot.
pub proof fn lemma_tip_is_latest(v: LedgerView)
    requires
        wf(v),
        v.cursor.len() > 0,
    ensures
        forall|i: int| 0 <= i < v.cursor.len() ==> v.cursor[i].0 <= v.cursor.last().0,
{
    assert forall|i: int| 0 <= i < v.cursor.len() implies v.cursor[i].0 <= v.cursor.last().0 by {
        assert(cursor_slots(v.cursor)[i] == v.cursor[i].0);
        assert(cursor_slots(v.cursor)[v.cursor.len() - 1] == v.cursor.last().0);
    }
}

/// Live rows are the same whether or not compaction ran first.
proof fn lemma_live_after_compaction(s: Seq<UtxoRow>, tombs: Seq<TxoRef>, refs: Seq<TxoRef>)
    ensures
        s.filter(kept_by_compaction(tombs)).filter(live_in(refs)) == s.filter(live_in(refs)),
    decreases s.len(),
{
    if s.len() == 0 {
        s.lemma_filter_len(live_in(refs));
        s.lemma_filter_len(kept_by_compaction(tombs));
        s.filter(kept_by_compaction(tombs)).lemma_filter_len(live_in(refs));
        assert(s.filter(kept_by_compaction(tombs)).filter(live_in(refs)) =~= s.filter(live_in(refs)));
    } else {
        let d = s.drop_last();
        let x = s.last();
        lemma_live_after_compaction(d, tombs, refs);
        assert(s =~= d.push(x));
        d.lemma_filter_push(x, kept_by_compaction(tombs));
        d.lemma_filter_push(x, live_in(refs));
        d.filter(kept_by_compaction(tombs)).lemma_filter_push(x, live_in(refs));
    }
}

/// Compaction keeps every live output: sparse lookups give the same rows before and after,
/// and the indexes are untouched.
pub proof fn lemma_finalize_keeps_live(v: LedgerView, until: u64, refs: Seq<TxoRef>)
    ensures
        sparse_spec(finalize_spec(v, until).utxos, refs) == sparse_spec(v.utxos, refs),
        finalize_spec(v, until).indexes == v.indexes,
{
    let k = prefix_below(cursor_slots(v.cursor), until as int);
    lemma_live_after_compaction(v.utxos, tombstones_of(v.cursor.subrange(0, k)), refs);
}

/// Once a delta consumes an output, the tables it leaves list that output neither in a
/// sparse lookup nor under any index key.
pub proof fn lemma_consumed_output_gone(v: LedgerView, d: LedgerDelta, t: TxoRef, refs: Seq<TxoRef>, kind: IndexKind, key: Seq<u8>)
    requires
        apply_delta_spec(v, d) is Ok,
        d.consumed_utxo@.contains(t),
    ensures
        forall|i: int|
            0 <= i < sparse_spec(apply_delta_spec(v, d)->Ok_0.utxos, refs).len()
                ==> (#[trigger] sparse_spec(apply_delta_spec(v, d)->Ok_0.utxos, refs)[i]).0 != t,
        !lookup_spec(apply_delta_spec(v, d)->Ok_0.indexes, kind, key).contains(t),
{
    let w = apply_delta_spec(v, d)->Ok_0;
    let base = match d.undone_position {
        Some(p) => rollback_spec(v, p)->Ok_0,
        None => v,
    };
    let consumed = d.consumed_utxo@;
    let x = mark_utxos(erase_utxos(base.utxos, d.undone_utxo@), produced_refs(d.recovered_stxi@), false)
        + produced_rows(d.produced_utxo@);
    assert(w.utxos == mark_utxos(x, consumed, true));
    let sp = sparse_spec(w.utxos, refs);
    assert forall|i: int| 0 <= i < sp.len() implies (#[trigger] sp[i]).0 != t by {
        w.utxos.lemma_filter_pred(live_in(refs), i);
        let e = sp[i];
        assert(sp.contains(e));
        w.utxos.lemma_filter_contains_rev(live_in(refs), e);
        let j = choose|j: int| 0 <= j < w.utxos.len() && w.utxos[j] == e;
        assert(w.utxos[j].0 == x[j].0);
        if e.0 == t {
            assert(consumed.contains(x[j].0));
            assert(e.3);
        }
    }
    let y = erase_index(base.indexes, d.undone_utxo@) + produced_index_rows(d.recovered_stxi@)
        + produced_index_rows(d.produced_utxo@);
    assert(w.indexes == y.filter(unlisted(consumed)));
    let f = w.indexes.filter(index_match(kind, key));
    let l = lookup_spec(w.indexes, kind, key);
    if l.contains(t) {
        let i = choose|i: int| 0 <= i < l.len() && l[i] == t;
        assert(f[i].2 == t);
        assert(f.contains(f[i]));
        w.indexes.lemma_filter_contains_rev(index_match(kind, key), f[i]);
        let j = choose|j: int| 0 <= j < w.indexes.len() && w.indexes[j] == f[i];
        y.lemma_filter_pred(unlisted(consumed), j);
    }
}

impl LedgerStore {
    /// A store over an empty database.
    pub fn new() -> (r: Self)
        ensures
            r@.cursor.len() == 0,
            r@.utxos.len() == 0,
            r@.pparams.len() == 0,
            r@.indexes.len() == 0,
            wf(r@),
    {
        LedgerStore { cursor: Vec::new(), utxos: Vec::new(), pparams: Vec::new(), indexes: Vec::new() }
    }

    /// Makes `db` ready for use. The four tables are held in memory and always present, so
    /// every table keeps its contents and initializing again changes nothing.
    pub fn initialize(db: LedgerStore) -> (r: Result<Self, StoreError>)
        ensures
            r is Ok,
            r->Ok_0@ == db@,
    {
        Ok(db)
    }

    /// Whether no cursor entry is recorded.
    pub fn is_empty(&self) -> (r: Result<bool, StoreError>)
        ensures
            r == Ok::<bool, StoreError>(self@.cursor.len() == 0),
    {
        Ok(self.cursor.len() == 0)
    }

    /// The latest recorded chain point, if any.
    pub fn cursor(&self) -> (r: Result<Option<ChainPoint>, StoreError>)
        ensures
            r == Ok::<Option<ChainPoint>, StoreError>(tip_of(self@.cursor)),
    {
        let n = self.cursor.len();
        if n == 0 {
            Ok(None)
        } else {
            Ok(Some(ChainPoint(self.cursor[n - 1].slot, self.cursor[n - 1].hash)))
        }
    }

    /// A copy of the whole store.
    fn duplicate(&self) -> (r: Self)
        ensures
            r@ == self@,
    {
        let cursor = copy_cursor_from(&self.cursor, 0);
        let utxos = mark_utxo_rows(&self.utxos, &Vec::new(), false);
        assert(utxo_rows(utxos@) =~= utxo_rows(self.utxos@));
        let pparams = copy_pparams(&self.pparams);
        let indexes = copy_indexes(&self.indexes);
        assert(cursor_rows(self.cursor@).subrange(0, self.cursor@.len() as int) =~= cursor_rows(self.cursor@));
        LedgerStore { cursor, utxos, pparams, indexes }
    }

    /// Applies one delta in place.
    fn apply_delta(&mut self, d: &LedgerDelta) -> (r: Result<(), StoreError>)
        ensures
            match apply_delta_spec(old(self)@, *d) {
                Ok(v) => r is Ok && final(self)@ == v,
                Err(e) => r == Err::<(), StoreError>(e),
            },
    {
        let ghost v0 = self@;
        match d.undone_position {
            Some(p) => {
                let k = cursor_prefix(&self.cursor, p.0);
                if k < self.cursor.len() && self.cursor[k].slot == p.0 {
                    let ghost c0 = self.cursor@;
                    self.cursor.truncate(k);
                    assert(cursor_rows(self.cursor@) =~= cursor_rows(c0).subrange(0, k as int));
                    let ghost q0 = self.pparams@;
                    let kp = pparams_prefix(&self.pparams, p.0, false);
                    self.pparams.truncate(kp);
                    assert(pparams_rows(self.pparams@) =~= pparams_rows(q0).subrange(0, kp as int));
                } else {
                    return Err(StoreError::ConfigMismatch { slot: p.0 });
                }
            },
            None => {},
        }
        let ghost w = self@;
        match d.new_position {
            Some(p) => {
                let ghost c0 = self.cursor@;
                let k = cursor_prefix(&self.cursor, p.0);
                self.cursor.truncate(k);
                let ghost c1 = self.cursor@;
                let e = CursorEntry { slot: p.0, hash: p.1, tombstones: copy_refs(&d.consumed_utxo) };
                self.cursor.push(e);
                assert(cursor_rows(self.cursor@) =~= cursor_rows(c0).subrange(0, k as int).push((p.0, p.1, d.consumed_utxo@)));
                let ghost q0 = self.pparams@;
                let kp = pparams_prefix(&self.pparams, p.0, false);
                self.pparams.truncate(kp);
                assert(pparams_rows(self.pparams@) =~= pparams_rows(q0).subrange(0, kp as int));
                match &d.new_pparams {
                    Some(b) => {
                        let ghost q1 = self.pparams@;
                        let e = PParamsEntry { slot: p.0, era: b.era, cbor: copy_bytes(&b.cbor) };
                        self.pparams.push(e);
                        assert(pparams_rows(self.pparams@) =~= pparams_rows(q1).push((p.0, b.era, b.cbor@)));
                    },
                    None => {},
                }
            },
            None => {},
        }
        let recovered = refs_of_produced(&d.recovered_stxi);
        let u1 = erase_utxo_rows(&self.utxos, &d.undone_utxo);
        let mut u2 = mark_utxo_rows(&u1, &recovered, false);
        push_produced(&mut u2, &d.produced_utxo);
        let u3 = mark_utxo_rows(&u2, &d.consumed_utxo, true);
        self.utxos = u3;
        let mut x1 = erase_index_rows(&self.indexes, &d.undone_utxo);
        push_index(&mut x1, &d.recovered_stxi);
        push_index(&mut x1, &d.produced_utxo);
        let x2 = erase_index_rows(&x1, &d.consumed_utxo);
        self.indexes = x2;
        assert(self@ == forward_spec(w, *d));
        Ok(())
    }

    /// Applies a batch of deltas in order, all or nothing: when a delta is refused the store
    /// is left exactly as it was before the call. A rollback delta must name a slot with a
    /// retained cursor entry. A forward delta whose slot is at or below a retained one
    /// replaces the cursor entries and parameter snapshots from that slot on; it restores no
    /// outputs, which is the work of a rollback delta.
    pub fn apply(&mut self, deltas: &[LedgerDelta]) -> (r: Result<(), StoreError>)
        requires
            wf(old(self)@),
        ensures
            wf(final(self)@),
            match apply_all_spec(old(self)@, deltas@, deltas@.len() as int) {
                Ok(v) => r is Ok && final(self)@ == v,
                Err(e) => r == Err::<(), StoreError>(e) && final(self)@ == old(self)@,
            },
    {
        let mut work = self.duplicate();
        let mut i: usize = 0;
        while i < deltas.len()
            invariant
                i <= deltas@.len(),
                apply_all_spec(old(self)@, deltas@, i as int) == Ok::<LedgerView, StoreError>(work@),
                self@ == old(self)@,
                wf(old(self)@),
            decreases deltas@.len() - i,
        {
            match work.apply_delta(&deltas[i]) {
                Ok(()) => {},
                Err(e) => {
                    proof {
                        lemma_apply_error_persists(old(self)@, deltas@, i + 1, deltas@.len() as int);
                    }
                    return Err(e);
                },
            }
            i = i + 1;
        }
        proof {
            lemma_apply_all_keeps_wf(old(self)@, deltas@, deltas@.len() as int);
        }
        *self = work;
        Ok(())
    }

    /// Compacts history before `until`: cursor entries below it are dropped, and so are the
    /// output rows that their deltas spent and that are still marked spent; live outputs stay. Rollback to a point before `until` is then refused.
    pub fn finalize(&mut self, until: BlockSlot) -> (r: Result<(), StoreError>)
        requires
            wf(old(self)@),
        ensures
            wf(final(self)@),
            r is Ok,
            final(self)@ == finalize_spec(old(self)@, until),
    {
        let k = cursor_prefix(&self.cursor, until);
        let spent = collect_tombstones(&self.cursor, k);
        let cursor = copy_cursor_from(&self.cursor, k);
        let utxos = erase_spent_rows(&self.utxos, &spent);
        self.cursor = cursor;
        self.utxos = utxos;
        proof {
            lemma_finalize_keeps_wf(old(self)@, until);
        }
        Ok(())
    }

    /// The unspent outputs among `refs`, in table order; references that are missing or
    /// spent are left out. An empty request is answered at once.
    pub fn get_utxos(&self, refs: Vec<TxoRef>) -> (r: Result<Vec<(TxoRef, UtxoBody)>, StoreError>)
        ensures
            r is Ok,
            fetched_rows(r->Ok_0@) == sparse_spec(self@.utxos, refs@),
            refs@.len() == 0 ==> r->Ok_0@.len() == 0,
    {
        if refs.len() == 0 {
            let ghost all = self@.utxos;
            proof {
                all.lemma_all_neg_filter_empty(live_in(refs@));
            }
            let out: Vec<(TxoRef, UtxoBody)> = Vec::new();
            assert(fetched_rows(out@) =~= Seq::<UtxoRow>::empty());
            return Ok(out);
        }
        let ghost all = utxo_rows(self.utxos@);
        let ghost pred = live_in(refs@);
        let mut out: Vec<(TxoRef, UtxoBody)> = Vec::new();
        let mut i: usize = 0;
        while i < self.utxos.len()
            invariant
                i <= self.utxos@.len(),
                all == utxo_rows(self.utxos@),
                pred == live_in(refs@),
                fetched_rows(out@) == all.subrange(0, i as int).filter(pred),
            decreases self.utxos@.len() - i,
        {
            let ghost s1 = all.subrange(0, i + 1);
            assert(s1 =~= all.subrange(0, i as int).push(all[i as int]));
            proof {
                all.subrange(0, i as int).lemma_filter_push(all[i as int], pred);
            }
            let keep = !self.utxos[i].spent && holds_txo(&refs, &self.utxos[i].txo);
            assert(keep == pred(all[i as int]));
            if keep {
                let ghost prev = out@;
                let body = UtxoBody { era: self.utxos[i].era, cbor: copy_bytes(&self.utxos[i].cbor) };
                out.push((self.utxos[i].txo, body));
                assert(fetched_rows(out@).len() == out@.len());
                assert(fetched_rows(prev).len() == prev.len());
                assert(fetched_rows(out@) =~= fetched_rows(prev).push(all[i as int]));
            }
            assert(fetched_rows(out@) == s1.filter(pred));
            i = i + 1;
        }
        assert(all.subrange(0, self.utxos@.len() as int) =~= all);
        Ok(out)
    }

    /// The parameter snapshots recorded at slots up to `until`, each with the slot it takes
    /// effect at, in slot order.
    pub fn get_pparams(&self, until: BlockSlot) -> (r: Result<Vec<PParamsEntry>, StoreError>)
        ensures
            r is Ok,
            pparams_rows(r->Ok_0@) == pparams_until(self@.pparams, until),
    {
        let k = pparams_prefix(&self.pparams, until, true);
        let ghost rows = self@.pparams;
        let ghost goal = pparams_until(rows, until);
        let mut out: Vec<PParamsEntry> = Vec::new();
        let mut i: usize = 0;
        while i < k
            invariant
                k <= self.pparams@.len(),
                k == prefix_below(pparams_slots(rows), until + 1),
                rows == pparams_rows(self.pparams@),
                goal == pparams_until(rows, until),
                i <= k,
                out@.len() == i,
                forall|j: int| 0 <= j < i ==> #[trigger] pparams_rows(out@)[j] == goal[j],
            decreases k - i,
        {
            let b = PParamsEntry { slot: self.pparams[i].slot, era: self.pparams[i].era, cbor: copy_bytes(&self.pparams[i].cbor) };
            let ghost prev = out@;
            out.push(b);
            assert(pparams_rows(out@).len() == out@.len());
            assert(pparams_rows(prev).len() == prev.len());
            assert(rows.len() == self.pparams@.len());
            assert(goal[i as int] == rows[i as int]);
            assert forall|j: int| 0 <= j < i + 1 implies #[trigger] pparams_rows(out@)[j] == goal[j] by {
                if j < i {
                    assert(pparams_rows(prev)[j] == goal[j]);
                }
            }
            i = i + 1;
        }
        assert(pparams_rows(out@) =~= goal);
        Ok(out)
    }

    /// References listed by the index of `kind` under `key`, in table order.
    fn lookup(&self, kind: IndexKind, key: &[u8]) -> (r: Vec<TxoRef>)
        ensures
            r@ == lookup_spec(self@.indexes, kind, key@),
    {
        let ghost all = index_rows(self.indexes@);
        let ghost pred = index_match(kind, key@);
        let ghost f = |r: IndexRow| r.2;
        let mut out: Vec<TxoRef> = Vec::new();
        let mut i: usize = 0;
        while i < self.indexes.len()
            invariant
                i <= self.indexes@.len(),
                all == index_rows(self.indexes@),
                pred == index_match(kind, key@),
                f == (|r: IndexRow| r.2),
                out@ == all.subrange(0, i as int).filter(pred).map_values(f),
            decreases self.indexes@.len() - i,
        {
            let ghost s1 = all.subrange(0, i + 1);
            assert(s1 =~= all.subrange(0, i as int).push(all[i as int]));
            proof {
                all.subrange(0, i as int).lemma_filter_push(all[i as int], pred);
            }
            let keep = self.indexes[i].kind == kind && same_bytes(self.indexes[i].key.as_slice(), key);
            assert(keep == pred(all[i as int]));
            if keep {
                out.push(self.indexes[i].txo);
                assert(out@ =~= all.subrange(0, i as int).filter(pred).push(all[i as int]).map_values(f));
            }
            assert(out@ == s1.filter(pred).map_values(f));
            i = i + 1;
        }
        assert(all.subrange(0, self.indexes@.len() as int) =~= all);
        assert(out@ =~= lookup_spec(self@.indexes, kind, key@));
        out
    }

    /// Outputs held at an address.
    pub fn get_utxos_by_address(&self, address: &[u8]) -> (r: Result<Vec<TxoRef>, StoreError>)
        ensures
            r is Ok,
            r->Ok_0@ == lookup_spec(self@.indexes, IndexKind::Address, address@),
    {
        Ok(self.lookup(IndexKind::Address, address))
    }

    /// Outputs locked by a payment credential.
    pub fn get_utxos_by_payment(&self, payment: &[u8]) -> (r: Result<Vec<TxoRef>, StoreError>)
        ensures
            r is Ok,
            r->Ok_0@ == lookup_spec(self@.indexes, IndexKind::Payment, payment@),
    {
        Ok(self.lookup(IndexKind::Payment, payment))
    }

    /// Outputs delegated to a stake credential.
    pub fn get_utxos_by_stake(&self, stake: &[u8]) -> (r: Result<Vec<TxoRef>, StoreError>)
        ensures
            r is Ok,
            r->Ok_0@ == lookup_spec(self@.indexes, IndexKind::Stake, stake@),
    {
        Ok(self.lookup(IndexKind::Stake, stake))
    }

    /// Outputs holding tokens of a minting policy.
    pub fn get_utxos_by_policy(&self, policy: &[u8]) -> (r: Result<Vec<TxoRef>, StoreError>)
        ensures
            r is Ok,
            r->Ok_0@ == lookup_spec(self@.indexes, IndexKind::Policy, policy@),
    {
        Ok(self.lookup(IndexKind::Policy, policy))
    }

    /// Outputs holding a given asset.
    pub fn get_utxos_by_asset(&self, asset: &[u8]) -> (r: Result<Vec<TxoRef>, StoreError>)
        ensures
            r is Ok,
            r->Ok_0@ == lookup_spec(self@.indexes, IndexKind::Asset, asset@),
    {
        Ok(self.lookup(IndexKind::Asset, asset))
    }
}

} // verus!
