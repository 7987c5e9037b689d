//! The records of all sessions, by identifier.

use vstd::prelude::*;
use std::collections::HashMap;
use vstd::std_specs::hash::*;

verus! {

broadcast use group_hash_axioms;

/// For how many ledgers a record is kept at least, counted from its last
/// write: thirty days of one ledger every five seconds.
pub const GAME_TTL_LEDGERS: u32 = 518_400;

struct Stored<R> {
    record: R,
    retention: u32,
}

/// A store of session records. Identifiers are the caller's; the store
/// makes none up. Every write renews the record's retention. Nothing is
/// ever deleted: a record goes when the ledger lets its retention run out.
pub struct SessionStore<R> {
    records: HashMap<u32, Stored<R>>,
    floor: u32,
}

/// What a map holds under an identifier, if anything.
pub open spec fn lookup<V>(entries: Map<u32, V>, session_id: u32) -> Option<V> {
    if entries.contains_key(session_id) {
        Some(entries[session_id])
    } else {
        None
    }
}

impl<R: View> View for SessionStore<R> {
    type V = Map<u32, R::V>;

    closed spec fn view(&self) -> Map<u32, R::V> {
        Map::new(|id: u32| self.records@.contains_key(id), |id: u32| self.records@[id].record@)
    }
}

impl<R: View> SessionStore<R> {
    /// The retention that every write grants.
    pub closed spec fn floor(&self) -> u32 {
        self.floor
    }

    /// The retention that each record was granted when it was last
    /// written.
    pub closed spec fn retentions(&self) -> Map<u32, u32> {
        Map::new(|id: u32| self.records@.contains_key(id), |id: u32| self.records@[id].retention)
    }

    /// An empty store that keeps what is written to it for thirty days.
    pub fn new() -> (store: SessionStore<R>)
        ensures
            store@ == Map::<u32, R::V>::empty(),
            store.retentions() == Map::<u32, u32>::empty(),
            store.floor() == GAME_TTL_LEDGERS,
    {
        SessionStore::with_retention(GAME_TTL_LEDGERS)
    }

    /// An empty store that keeps what is written to it for `floor` ledgers.
    pub fn with_retention(floor: u32) -> (store: SessionStore<R>)
        ensures
            store@ == Map::<u32, R::V>::empty(),
            store.retentions() == Map::<u32, u32>::empty(),
            store.floor() == floor,
    {
        let store = SessionStore { records: HashMap::new(), floor };
        assert(store@ =~= Map::<u32, R::V>::empty());
        assert(store.retentions() =~= Map::<u32, u32>::empty());
        store
    }

    /// The retention that every write grants.
    pub fn retention_floor(&self) -> (floor: u32)
        ensures
            floor == self.floor(),
    {
        self.floor
    }

    /// Whether a record is stored under `session_id`.
    pub fn contains(&self, session_id: u32) -> (r: bool)
        ensures
            r == self@.contains_key(session_id),
            r == self.retentions().contains_key(session_id),
    {
        self.records.contains_key(&session_id)
    }

    /// The record under `session_id`, if there is one.
    pub fn get(&self, session_id: u32) -> (found: Option<&R>)
        ensures
            match found {
                Some(record) => lookup(self@, session_id) == Some(record@),
                None => lookup(self@, session_id) is None,
            },
    {
        match self.records.get(&session_id) {
            Some(stored) => Some(&stored.record),
            None => None,
        }
    }

    /// The retention that the record under `session_id` was last granted,
    /// if there is one.
    pub fn retention_of(&self, session_id: u32) -> (r: Option<u32>)
        ensures
            r == lookup(self.retentions(), session_id),
            r is Some <==> self@.contains_key(session_id),
    {
        match self.records.get(&session_id) {
            Some(stored) => Some(stored.retention),
            None => None,
        }
    }

    /// Writes `record` under `session_id`, over whatever was there, and
    /// renews its retention. No other record is touched.
    pub fn put(&mut self, session_id: u32, record: R)
        ensures
            final(self)@ == old(self)@.insert(session_id, record@),
            final(self).retentions() == old(self).retentions().insert(
                session_id,
                old(self).floor(),
            ),
            final(self).floor() == old(self).floor(),
    {
        let stored = Stored { record, retention: self.floor };
        self.records.insert(session_id, stored);
        assert(self@ =~= old(self)@.insert(session_id, record@));
        assert(self.retentions() =~= old(self).retentions().insert(session_id, old(self).floor()));
    }

    /// Writes `record` under `session_id` if nothing is stored there, and
    /// says whether it did. A record that is there stays as it is, and so
    /// does its retention.
    pub fn create(&mut self, session_id: u32, record: R) -> (created: bool)
        ensures
            created == !old(self)@.contains_key(session_id),
            created ==> final(self)@ == old(self)@.insert(session_id, record@),
            created ==> final(self).retentions() == old(self).retentions().insert(
                session_id,
                old(self).floor(),
            ),
            !created ==> final(self)@ == old(self)@,
            !created ==> final(self).retentions() == old(self).retentions(),
            final(self).floor() == old(self).floor(),
    {
        if self.records.contains_key(&session_id) {
            false
        } else {
            self.put(session_id, record);
            true
        }
    }
}

} // verus!
