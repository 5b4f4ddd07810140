//! The append-only request log. Callers share it behind a lock; every
//! operation here is one critical section.

use vstd::prelude::*;

use crate::record::{HttpRequest, RequestRecord};

verus! {

pub open spec fn records_view(v: Seq<HttpRequest>) -> Seq<RequestRecord> {
    v.map_values(|r: HttpRequest| r@)
}

/// Captured requests in the order in which they were appended; index 0 is the oldest.
pub struct RequestLog {
    records: Vec<HttpRequest>,
}

impl View for RequestLog {
    type V = Seq<RequestRecord>;

    closed spec fn view(&self) -> Seq<RequestRecord> {
        records_view(self.records@)
    }
}

impl RequestLog {
    /// An empty log.
    pub fn new() -> (r: RequestLog)
        ensures
            r@ == Seq::<RequestRecord>::empty(),
    {
        let r = RequestLog { records: Vec::new() };
        assert(r@ =~= Seq::<RequestRecord>::empty());
        r
    }

    /// Number of records.
    pub fn len(&self) -> (r: usize)
        ensures
            r == self@.len(),
    {
        self.records.len()
    }

    /// Adds a record at the end.
    pub fn append(&mut self, record: HttpRequest)
        ensures
            final(self)@ == old(self)@.push(record@),
    {
        let ghost before = self.records@;
        self.records.push(record);
        assert(records_view(self.records@) =~= records_view(before).push(record@));
    }

    /// The record at `index`, or `None` past the end.
    pub fn get(&self, index: usize) -> (r: Option<&HttpRequest>)
        ensures
            index < self@.len() ==> (r is Some && r->Some_0@ == self@[index as int]),
            index >= self@.len() ==> r is None,
    {
        if index < self.records.len() {
            Some(&self.records[index])
        } else {
            None
        }
    }

    /// An independent copy of every record, in order.
    pub fn snapshot(&self) -> (r: Vec<HttpRequest>)
        ensures
            records_view(r@) == self@,
    {
        let mut r: Vec<HttpRequest> = Vec::new();
        let mut i: usize = 0;
        while i < self.records.len()
            invariant
                i <= self.records@.len(),
                records_view(r@) == records_view(self.records@.subrange(0, i as int)),
            decreases self.records@.len() - i,
        {
            let c = self.records[i].duplicate();
            let ghost before = r@;
            r.push(c);
            proof {
                assert(self.records@.subrange(0, i + 1) =~= self.records@.subrange(0, i as int).push(
                    self.records@[i as int],
                ));
                assert(records_view(r@) =~= records_view(before).push(c@));
                assert(records_view(self.records@.subrange(0, i + 1)) =~= records_view(
                    self.records@.subrange(0, i as int),
                ).push(self.records@[i as int]@));
            }
            i = i + 1;
        }
        assert(self.records@.subrange(0, self.records@.len() as int) =~= self.records@);
        r
    }

    /// Removes every record at once.
    pub fn clear(&mut self)
        ensures
            final(self)@ == Seq::<RequestRecord>::empty(),
    {
        self.records = Vec::new();
        assert(records_view(self.records@) =~= Seq::<RequestRecord>::empty());
    }
}

} // verus!
