//! Per-window transaction records, keyed by the window server's identifier.
//!
//! Every outbound frame request gets a transaction id that is strictly larger
//! than the previous one for the same window; a later frame notification that
//! carries the id tells whether it answers the latest request.
use dashmap::DashMap;
use crate::geometry::Frame;
use vstd::prelude::*;

verus! {

/// Identifier the window server gives a window.
#[derive(Clone, Copy, Debug, PartialEq, Eq, Hash, Structural)]
pub struct WindowServerId(pub u32);

impl WindowServerId {
    pub fn new(id: u32) -> (r: WindowServerId)
        ensures
            r.0 == id,
    {
        WindowServerId(id)
    }

    pub fn as_u32(&self) -> (r: u32)
        ensures
            r == self.0,
    {
        self.0
    }
}

/// Sequence number of an outbound frame request; zero means "none issued".
#[derive(Clone, Copy, Debug, PartialEq, Eq, Hash, Structural)]
pub struct TransactionId(pub u64);

impl TransactionId {
    pub fn default() -> (r: TransactionId)
        ensures
            r.0 == 0,
    {
        TransactionId(0)
    }

    /// The id that follows this one.
    pub fn next(&self) -> (r: TransactionId)
        requires
            self.0 < u64::MAX,
        ensures
            r.0 == self.0 + 1,
    {
        TransactionId(self.0 + 1)
    }
}

#[derive(Clone, Copy, Debug, PartialEq, Eq, Structural)]
pub struct TxRecord {
    pub txid: TransactionId,
    pub target: Option<Frame>,
}

#[verifier::external_type_specification]
#[verifier::external_body]
#[verifier::reject_recursive_types(K)]
#[verifier::reject_recursive_types(V)]
#[verifier::reject_recursive_types(S)]
pub struct ExDashMap<K, V, S>(DashMap<K, V, S>);

/// What the concurrent map holds.
pub uninterp spec fn tx_entries(m: DashMap<u32, TxRecord>) -> Map<u32, TxRecord>;

/// Relies on `DashMap::new`: a map with no entries.
#[verifier::external_body]
fn tx_map_new() -> (r: DashMap<u32, TxRecord>)
    ensures
        tx_entries(r) =~= Map::empty(),
{
    DashMap::new()
}

/// Relies on `DashMap::get`: the value stored under the key, if any.
#[verifier::external_body]
fn tx_map_get(m: &DashMap<u32, TxRecord>, k: u32) -> (r: Option<TxRecord>)
    ensures
        r is Some <==> tx_entries(*m).contains_key(k),
        r matches Some(v) ==> v == tx_entries(*m)[k],
{
    m.get(&k).map(|e| *e)
}

/// Relies on `DashMap::insert`: the key now maps to the value, the rest is kept.
#[verifier::external_body]
fn tx_map_insert(m: &mut DashMap<u32, TxRecord>, k: u32, v: TxRecord)
    ensures
        tx_entries(*final(m)) == tx_entries(*old(m)).insert(k, v),
{
    m.insert(k, v);
}

/// Relies on `DashMap::remove`: the key no longer has an entry, the rest is kept.
#[verifier::external_body]
fn tx_map_remove(m: &mut DashMap<u32, TxRecord>, k: u32)
    ensures
        tx_entries(*final(m)) == tx_entries(*old(m)).remove(k),
{
    m.remove(&k);
}

/// Transaction records of all windows, one per window server id.
pub struct WindowTxStore {
    map: DashMap<u32, TxRecord>,
}

/// The last transaction id recorded in `m` for `id`, or zero.
pub open spec fn last_txid_of(m: Map<u32, TxRecord>, id: u32) -> u64 {
    if m.contains_key(id) {
        m[id].txid.0
    } else {
        0
    }
}

/// The pending target recorded in `m` for `id`, if any.
pub open spec fn target_of(m: Map<u32, TxRecord>, id: u32) -> Option<Frame> {
    if m.contains_key(id) {
        m[id].target
    } else {
        None
    }
}

impl View for WindowTxStore {
    type V = Map<u32, TxRecord>;

    closed spec fn view(&self) -> Map<u32, TxRecord> {
        tx_entries(self.map)
    }
}

impl WindowTxStore {
    pub fn new() -> (r: WindowTxStore)
        ensures
            r@ == Map::<u32, TxRecord>::empty(),
    {
        WindowTxStore { map: tx_map_new() }
    }

    /// Records `target` as the pending frame of transaction `txid`,
    /// creating the record if the window had none.
    pub fn insert(&mut self, id: WindowServerId, txid: TransactionId, target: Frame)
        ensures
            final(self)@ == old(self)@.insert(id.0, TxRecord { txid, target: Some(target) }),
    {
        tx_map_insert(&mut self.map, id.0, TxRecord { txid, target: Some(target) });
    }

    pub fn get(&self, id: &WindowServerId) -> (r: Option<TxRecord>)
        ensures
            r is Some <==> self@.contains_key(id.0),
            r matches Some(v) ==> v == self@[id.0],
    {
        tx_map_get(&self.map, id.0)
    }

    /// The pending target of the window's latest transaction, if any.
    pub fn target(&self, id: &WindowServerId) -> (r: Option<Frame>)
        ensures
            r == target_of(self@, id.0),
    {
        match tx_map_get(&self.map, id.0) {
            Some(rec) => rec.target,
            None => None,
        }
    }

    /// Drops the pending target and keeps the transaction id.
    pub fn clear_target(&mut self, id: &WindowServerId)
        ensures
            old(self)@.contains_key(id.0) ==> final(self)@ == old(self)@.insert(
                id.0,
                TxRecord { txid: old(self)@[id.0].txid, target: None },
            ),
            !old(self)@.contains_key(id.0) ==> final(self)@ == old(self)@,
    {
        match tx_map_get(&self.map, id.0) {
            Some(rec) => {
                tx_map_insert(&mut self.map, id.0, TxRecord { txid: rec.txid, target: None });
            },
            None => {},
        }
    }

    /// Forgets everything about the window.
    pub fn remove(&mut self, id: &WindowServerId)
        ensures
            final(self)@ == old(self)@.remove(id.0),
    {
        tx_map_remove(&mut self.map, id.0);
    }

    /// Starts a new transaction for the window: the id one above the last,
    /// with no pending target.
    pub fn next_txid(&mut self, id: WindowServerId) -> (r: TransactionId)
        requires
            last_txid_of(old(self)@, id.0) < u64::MAX,
        ensures
            r.0 == last_txid_of(old(self)@, id.0) + 1,
            final(self)@ == old(self)@.insert(id.0, TxRecord { txid: r, target: None }),
    {
        let last = match tx_map_get(&self.map, id.0) {
            Some(rec) => rec.txid,
            None => TransactionId::default(),
        };
        let txid = last.next();
        tx_map_insert(&mut self.map, id.0, TxRecord { txid, target: None });
        txid
    }

    /// Forces the window's transaction counter to `txid` and drops any target.
    pub fn set_last_txid(&mut self, id: WindowServerId, txid: TransactionId)
        ensures
            final(self)@ == old(self)@.insert(id.0, TxRecord { txid, target: None }),
    {
        tx_map_insert(&mut self.map, id.0, TxRecord { txid, target: None });
    }

    /// The window's last transaction id, or the default when it has none.
    pub fn last_txid(&self, id: &WindowServerId) -> (r: TransactionId)
        ensures
            r.0 == last_txid_of(self@, id.0),
    {
        match tx_map_get(&self.map, id.0) {
            Some(rec) => rec.txid,
            None => TransactionId::default(),
        }
    }
}

} // verus!
