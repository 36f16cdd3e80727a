//! The queue descriptor table: hands out fresh descriptors and records their type.
use std::collections::HashMap;
use vstd::prelude::*;

use crate::types::{QDesc, QType};

verus! {

broadcast use vstd::std_specs::hash::group_hash_axioms;

/// Live queue descriptors and the type of each. Identifiers are handed out in
/// increasing order and never reused.
pub struct IoQueueTable {
    entries: HashMap<u32, QType>,
    next: u32,
}

impl IoQueueTable {
    /// The live descriptors, by identifier.
    pub closed spec fn entries(&self) -> Map<u32, QType> {
        self.entries@
    }

    /// The identifier that the next allocation hands out; every identifier
    /// below it has been handed out before.
    pub closed spec fn next_id(&self) -> nat {
        self.next as nat
    }

    /// Every live descriptor was handed out by this table.
    pub closed spec fn wf(&self) -> bool {
        forall|k: u32| #[trigger] self.entries@.contains_key(k) ==> k < self.next
    }

    /// Creates an empty table.
    pub fn new() -> (r: IoQueueTable)
        ensures
            r.wf(),
            r.entries() == Map::<u32, QType>::empty(),
            r.next_id() == 0,
    {
        IoQueueTable { entries: HashMap::new(), next: 0 }
    }

    /// Allocates a fresh descriptor of the given type. Fails only once all
    /// 32-bit identifiers have been handed out.
    pub fn allocate(&mut self, qtype: QType) -> (r: Option<QDesc>)
        requires
            old(self).wf(),
        ensures
            final(self).wf(),
            match r {
                Some(qd) => {
                    &&& qd.0 == old(self).next_id()
                    &&& old(self).next_id() < u32::MAX
                    &&& !old(self).entries().contains_key(qd.0)
                    &&& final(self).entries() == old(self).entries().insert(qd.0, qtype)
                    &&& final(self).next_id() == old(self).next_id() + 1
                },
                None => {
                    &&& old(self).next_id() == u32::MAX
                    &&& *final(self) == *old(self)
                },
            },
    {
        if self.next == u32::MAX {
            return None;
        }
        let id: u32 = self.next;
        self.entries.insert(id, qtype);
        self.next = id + 1;
        Some(QDesc(id))
    }

    /// Releases a descriptor; releasing one that is not live changes nothing.
    pub fn free(&mut self, qd: QDesc)
        requires
            old(self).wf(),
        ensures
            final(self).wf(),
            final(self).entries() == old(self).entries().remove(qd.0),
            final(self).next_id() == old(self).next_id(),
    {
        self.entries.remove(&qd.0);
    }
}

} // verus!
