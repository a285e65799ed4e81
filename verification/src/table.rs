//! The correlation table: for each request id whose response passed the
//! filters and has not finished loading, the metadata of that response.

use vstd::prelude::*;
use vstd::hash_map::StringHashMap;
use crate::event::{Metadata, PendingResponse};

verus! {

/// The records that wait for their completion, by request id. An id has at
/// most one record: a later one replaces an earlier one.
pub struct CorrelationTable {
    records: StringHashMap<PendingResponse>,
}

impl View for CorrelationTable {
    type V = Map<Seq<char>, Metadata>;

    closed spec fn view(&self) -> Map<Seq<char>, Metadata> {
        self.records@.map_values(|record: PendingResponse| record@)
    }
}

impl CorrelationTable {
    /// A table without records.
    pub fn new() -> (table: Self)
        ensures
            table@ == Map::<Seq<char>, Metadata>::empty(),
    {
        let table = CorrelationTable { records: StringHashMap::new() };
        assert(table@ =~= Map::<Seq<char>, Metadata>::empty());
        table
    }

    /// The number of records.
    pub fn len(&self) -> (n: usize)
        ensures
            n == self@.len(),
    {
        broadcast use vstd::hash_map::group_hash_map_axioms;

        assert(self@.dom() =~= self.records@.dom());
        self.records.len()
    }

    /// Whether `request_id` has a record.
    pub fn contains(&self, request_id: &str) -> (found: bool)
        ensures
            found == self@.contains_key(request_id@),
    {
        self.records.contains_key(request_id)
    }

    /// Keeps `record` for `request_id`, in place of any earlier record of
    /// that id.
    pub fn insert(&mut self, request_id: String, record: PendingResponse)
        ensures
            final(self)@ == old(self)@.insert(request_id@, record@),
    {
        self.records.insert(request_id, record);
        assert(self@ =~= old(self)@.insert(request_id@, record@));
    }

    /// Takes the record of `request_id` out of the table. Returns `None`,
    /// and leaves the table as it is, where the id has no record.
    pub fn remove(&mut self, request_id: &str) -> (taken: Option<PendingResponse>)
        ensures
            final(self)@ == old(self)@.remove(request_id@),
            match taken {
                Some(record) => old(self)@.contains_key(request_id@) && record@ == old(
                    self,
                )@[request_id@],
                None => !old(self)@.contains_key(request_id@),
            },
    {
        let taken = match self.records.get(request_id) {
            Some(record) => Some(record.clone()),
            None => None,
        };
        self.records.remove(request_id);
        assert(self@ =~= old(self)@.remove(request_id@));
        taken
    }
}

} // verus!
