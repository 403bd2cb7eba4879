use dolos::model::{ChainPoint, TxoRef};
use dolos::store::{
    IndexKey, IndexKind, LedgerDelta, LedgerStore, PParamsBody, ProducedUtxo, StoreError, UtxoBody,
};

fn hash(b: u8) -> [u8; 32] {
    [b; 32]
}

fn forward(slot: u64) -> LedgerDelta {
    LedgerDelta {
        new_position: Some(ChainPoint(slot, hash(slot as u8))),
        undone_position: None,
        produced_utxo: vec![],
        consumed_utxo: vec![],
        recovered_stxi: vec![],
        undone_utxo: vec![],
        new_pparams: None,
    }
}

fn rollback(slot: u64) -> LedgerDelta {
    LedgerDelta {
        new_position: None,
        undone_position: Some(ChainPoint(slot, hash(slot as u8))),
        produced_utxo: vec![],
        consumed_utxo: vec![],
        recovered_stxi: vec![],
        undone_utxo: vec![],
        new_pparams: None,
    }
}

fn output(txo: TxoRef) -> ProducedUtxo {
    ProducedUtxo {
        txo,
        body: UtxoBody { era: 2, cbor: vec![0x82, 0x01, 0x02] },
        keys: vec![
            IndexKey { kind: IndexKind::Address, key: b"addr1".to_vec() },
            IndexKey { kind: IndexKind::Policy, key: b"policy1".to_vec() },
        ],
    }
}

fn fresh() -> LedgerStore {
    LedgerStore::initialize(LedgerStore::new()).unwrap()
}

#[test]
fn empty_until_cursor() {
    let mut store = fresh();
    assert!(store.is_empty().unwrap());

    let delta = LedgerDelta {
        new_position: Some(ChainPoint(1, b"01010101010101010101010101010101".to_owned())),
        undone_position: Default::default(),
        produced_utxo: Default::default(),
        consumed_utxo: Default::default(),
        recovered_stxi: Default::default(),
        undone_utxo: Default::default(),
        new_pparams: Default::default(),
    };

    store.apply(&[delta]).unwrap();
    assert!(!store.is_empty().unwrap());
}

#[test]
fn cursor_reports_applied_point() {
    let mut store = fresh();
    assert_eq!(store.cursor().unwrap(), None);
    let h = b"01010101010101010101010101010101".to_owned();
    let mut delta = forward(1);
    delta.new_position = Some(ChainPoint(1, h));
    store.apply(&[delta]).unwrap();
    assert!(!store.is_empty().unwrap());
    assert_eq!(store.cursor().unwrap(), Some(ChainPoint(1, h)));
}

#[test]
fn consumed_output_leaves_lookups_and_indexes() {
    let mut store = fresh();
    let t = TxoRef(hash(7), 0);
    let mut produce = forward(1);
    produce.produced_utxo = vec![output(t)];
    store.apply(&[produce]).unwrap();
    let found = store.get_utxos(vec![t]).unwrap();
    assert_eq!(found.len(), 1);
    assert_eq!(found[0].0, t);
    assert_eq!(found[0].1.cbor, vec![0x82, 0x01, 0x02]);
    assert_eq!(store.get_utxos_by_address(b"addr1").unwrap(), vec![t]);
    assert_eq!(store.get_utxos_by_policy(b"policy1").unwrap(), vec![t]);

    let mut consume = forward(2);
    consume.consumed_utxo = vec![t];
    store.apply(&[consume]).unwrap();
    assert!(store.get_utxos(vec![t]).unwrap().is_empty());
    assert!(store.get_utxos_by_address(b"addr1").unwrap().is_empty());
    assert!(store.get_utxos_by_policy(b"policy1").unwrap().is_empty());
}

#[test]
fn finalize_prunes_old_cursor_entries() {
    let mut store = fresh();
    store.apply(&[forward(50), forward(90), forward(150)]).unwrap();
    store.finalize(100).unwrap();
    assert_eq!(store.cursor().unwrap(), Some(ChainPoint(150, hash(150))));
    assert_eq!(store.apply(&[rollback(50)]), Err(StoreError::ConfigMismatch { slot: 50 }));
    assert_eq!(store.apply(&[rollback(90)]), Err(StoreError::ConfigMismatch { slot: 90 }));
    store.apply(&[rollback(150)]).unwrap();
    assert!(store.is_empty().unwrap());
}

#[test]
fn finalize_erases_spent_outputs() {
    let mut store = fresh();
    let t = TxoRef(hash(3), 1);
    let mut produce = forward(10);
    produce.produced_utxo = vec![output(t)];
    let mut consume = forward(20);
    consume.consumed_utxo = vec![t];
    store.apply(&[produce, consume]).unwrap();
    // a rollback of the spend recovers the output while history is retained
    let mut undo = rollback(20);
    undo.recovered_stxi = vec![output(t)];
    let mut probe = store.get_utxos(vec![t]).unwrap();
    assert!(probe.is_empty());
    store.apply(&[undo]).unwrap();
    probe = store.get_utxos(vec![t]).unwrap();
    assert_eq!(probe.len(), 1);
    assert_eq!(store.get_utxos_by_address(b"addr1").unwrap(), vec![t]);
    // spend it again and compact past the spend
    let mut consume = forward(30);
    consume.consumed_utxo = vec![t];
    store.apply(&[consume]).unwrap();
    store.finalize(31).unwrap();
    assert!(store.is_empty().unwrap());
    assert!(store.get_utxos(vec![t]).unwrap().is_empty());
}

#[test]
fn failed_batch_changes_nothing() {
    let mut store = fresh();
    store.apply(&[forward(5)]).unwrap();
    let before = store.cursor().unwrap();
    let t = TxoRef(hash(9), 4);
    let mut produce = forward(6);
    produce.produced_utxo = vec![output(t)];
    let result = store.apply(&[produce, rollback(99)]);
    assert_eq!(result, Err(StoreError::ConfigMismatch { slot: 99 }));
    assert_eq!(store.cursor().unwrap(), before);
    assert!(store.get_utxos(vec![t]).unwrap().is_empty());
    assert!(store.get_utxos_by_address(b"addr1").unwrap().is_empty());
}

#[test]
fn initialize_twice_changes_nothing() {
    let mut store = fresh();
    let t = TxoRef(hash(1), 0);
    let mut produce = forward(1);
    produce.produced_utxo = vec![output(t)];
    store.apply(&[produce]).unwrap();
    let again = LedgerStore::initialize(store).unwrap();
    assert_eq!(again.cursor().unwrap(), Some(ChainPoint(1, hash(1))));
    assert_eq!(again.get_utxos(vec![t]).unwrap().len(), 1);
    assert_eq!(again.get_utxos_by_address(b"addr1").unwrap(), vec![t]);
}

#[test]
fn sparse_get_of_nothing_is_empty() {
    let mut store = fresh();
    let t = TxoRef(hash(2), 0);
    let mut produce = forward(1);
    produce.produced_utxo = vec![output(t)];
    store.apply(&[produce]).unwrap();
    assert!(store.get_utxos(vec![]).unwrap().is_empty());
    assert!(store.get_utxos(vec![TxoRef(hash(2), 1)]).unwrap().is_empty());
}

#[test]
fn pparams_are_returned_up_to_slot() {
    let mut store = fresh();
    let mut a = forward(10);
    a.new_pparams = Some(PParamsBody { era: 1, cbor: vec![1] });
    let mut b = forward(20);
    b.new_pparams = Some(PParamsBody { era: 2, cbor: vec![2] });
    store.apply(&[a, b]).unwrap();
    assert!(store.get_pparams(9).unwrap().is_empty());
    let upto = store.get_pparams(10).unwrap();
    assert_eq!(upto.len(), 1);
    assert_eq!(upto[0].era, 1);
    assert_eq!(upto[0].slot, 10);
    assert_eq!(store.get_pparams(u64::MAX).unwrap().len(), 2);
    store.apply(&[rollback(20)]).unwrap();
    assert_eq!(store.get_pparams(u64::MAX).unwrap().len(), 1);
}

#[test]
fn stake_payment_and_asset_indexes() {
    let mut store = fresh();
    let t = TxoRef(hash(4), 2);
    let mut p = output(t);
    p.keys = vec![
        IndexKey { kind: IndexKind::Payment, key: vec![1, 2] },
        IndexKey { kind: IndexKind::Stake, key: vec![3] },
        IndexKey { kind: IndexKind::Asset, key: vec![4, 5, 6] },
    ];
    let mut produce = forward(1);
    produce.produced_utxo = vec![p];
    store.apply(&[produce]).unwrap();
    assert_eq!(store.get_utxos_by_payment(&[1, 2]).unwrap(), vec![t]);
    assert_eq!(store.get_utxos_by_stake(&[3]).unwrap(), vec![t]);
    assert_eq!(store.get_utxos_by_asset(&[4, 5, 6]).unwrap(), vec![t]);
    assert!(store.get_utxos_by_asset(&[4, 5]).unwrap().is_empty());
    assert!(store.get_utxos_by_address(&[1, 2]).unwrap().is_empty());
}

#[test]
fn forward_to_an_earlier_slot_replaces_later_entries() {
    let mut store = fresh();
    store.apply(&[forward(10), forward(20), forward(30)]).unwrap();
    store.apply(&[forward(15)]).unwrap();
    assert_eq!(store.cursor().unwrap(), Some(ChainPoint(15, hash(15))));
    assert_eq!(store.apply(&[rollback(20)]), Err(StoreError::ConfigMismatch { slot: 20 }));
    store.apply(&[rollback(15)]).unwrap();
    assert_eq!(store.cursor().unwrap(), Some(ChainPoint(10, hash(10))));
}

#[test]
fn finalize_keeps_outputs_recovered_after_their_spend() {
    let mut store = fresh();
    let t = TxoRef(hash(6), 0);
    let mut produce = forward(10);
    produce.produced_utxo = vec![output(t)];
    let mut consume = forward(20);
    consume.consumed_utxo = vec![t];
    let mut recover = forward(30);
    recover.recovered_stxi = vec![output(t)];
    store.apply(&[produce, consume, recover]).unwrap();
    assert_eq!(store.get_utxos(vec![t]).unwrap().len(), 1);
    store.finalize(25).unwrap();
    assert_eq!(store.get_utxos(vec![t]).unwrap().len(), 1);
    assert_eq!(store.get_utxos_by_address(b"addr1").unwrap(), vec![t]);
    assert_eq!(store.cursor().unwrap(), Some(ChainPoint(30, hash(30))));
}
