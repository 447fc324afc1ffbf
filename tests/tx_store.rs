use rift_core::geometry::{Frame, Point, Size};
use rift_core::tx_store::{TransactionId, WindowServerId, WindowTxStore};

fn rect(x: i32, y: i32, w: i32, h: i32) -> Frame {
    Frame::new(Point::new(x, y), Size::new(w, h))
}

#[test]
fn clear_target_keeps_last_txid() {
    let mut store = WindowTxStore::new();
    let wsid = WindowServerId::new(1);
    let txid = store.next_txid(wsid);
    let target = rect(1000, 2000, 3000, 4000);
    store.insert(wsid, txid, target);

    store.clear_target(&wsid);

    let record = store.get(&wsid).expect("tx record should exist");
    assert_eq!(record.txid, txid);
    assert_eq!(record.target, None);
}

#[test]
fn next_txid_advances_after_clearing_target() {
    let mut store = WindowTxStore::new();
    let wsid = WindowServerId::new(2);

    let txid_1 = store.next_txid(wsid);
    let target = rect(100, 200, 300, 400);
    store.insert(wsid, txid_1, target);
    store.clear_target(&wsid);

    let txid_2 = store.next_txid(wsid);
    assert_eq!(txid_2, txid_1.next());
}

#[test]
fn set_last_txid_clears_any_stale_target() {
    let mut store = WindowTxStore::new();
    let wsid = WindowServerId::new(3);
    let txid_1 = store.next_txid(wsid);
    let target = rect(500, 600, 700, 800);
    store.insert(wsid, txid_1, target);

    let txid_2 = txid_1.next();
    store.set_last_txid(wsid, txid_2);

    let record = store.get(&wsid).expect("tx record should exist");
    assert_eq!(record.txid, txid_2);
    assert_eq!(record.target, None);
}

#[test]
fn remove_purges_txid_state() {
    let mut store = WindowTxStore::new();
    let wsid = WindowServerId::new(7);
    let tx1 = store.next_txid(wsid);
    store.remove(&wsid);
    assert!(store.get(&wsid).is_none());

    let tx2 = store.next_txid(wsid);
    assert_eq!(tx2, TransactionId::default().next());
    assert_eq!(tx1, tx2);
}

#[test]
fn transaction_ids_strictly_increase_per_window() {
    let mut store = WindowTxStore::new();
    let a = WindowServerId::new(10);
    let b = WindowServerId::new(11);
    assert_eq!(store.last_txid(&a), TransactionId(0));
    let a1 = store.next_txid(a);
    let a2 = store.next_txid(a);
    let b1 = store.next_txid(b);
    assert_eq!(a1, TransactionId(1));
    assert_eq!(a2, TransactionId(2));
    assert_eq!(b1, TransactionId(1));
    assert_eq!(store.last_txid(&a), TransactionId(2));
    assert_eq!(store.target(&a), None);
}

#[test]
fn insert_records_target_and_creates_missing_record() {
    let mut store = WindowTxStore::new();
    let wsid = WindowServerId::new(4);
    let f = rect(1, 2, 3, 4);
    store.insert(wsid, TransactionId(9), f);
    assert_eq!(store.target(&wsid), Some(f));
    assert_eq!(store.last_txid(&wsid), TransactionId(9));
    store.clear_target(&wsid);
    assert_eq!(store.target(&wsid), None);
    assert_eq!(store.last_txid(&wsid), TransactionId(9));
}

#[test]
fn window_server_id_round_trips() {
    assert_eq!(WindowServerId::new(42).as_u32(), 42);
}
