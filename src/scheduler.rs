//! The table of scheduled operations. Each entry is reached through a handle
//! whose raw value is the token that callers hold.
use std::collections::HashMap;
use vstd::prelude::*;

verus! {

broadcast use vstd::std_specs::hash::group_hash_axioms;

/// A handle on one scheduled task.
#[derive(Clone, Copy, Debug, PartialEq, Eq, Structural)]
pub struct SchedulerHandle(pub u64);

impl SchedulerHandle {
    /// The raw value of the handle, which callers hold as a token.
    pub fn into_raw(self) -> (r: u64)
        ensures
            r == self.0,
    {
        self.0
    }
}

/// Scheduled tasks by key. Keys are handed out in increasing order and never
/// reused; at most `capacity` tasks are held at once.
pub struct Scheduler<T> {
    tasks: HashMap<u64, T>,
    next: u64,
    capacity: usize,
}

impl<T> Scheduler<T> {
    /// The scheduled tasks, by key.
    pub closed spec fn tasks(&self) -> Map<u64, T> {
        self.tasks@
    }

    /// The key that the next insertion hands out.
    pub closed spec fn next_key(&self) -> nat {
        self.next as nat
    }

    /// The largest number of tasks held at once.
    pub closed spec fn capacity(&self) -> nat {
        self.capacity as nat
    }

    /// Every key in use was handed out by this scheduler.
    pub closed spec fn wf(&self) -> bool {
        forall|k: u64| #[trigger] self.tasks@.contains_key(k) ==> k < self.next
    }

    /// Creates a scheduler that holds at most `capacity` tasks.
    pub fn new(capacity: usize) -> (r: Scheduler<T>)
        ensures
            r.wf(),
            r.tasks() == Map::<u64, T>::empty(),
            r.next_key() == 0,
            r.capacity() == capacity,
    {
        Scheduler { tasks: HashMap::new(), next: 0, capacity }
    }

    /// Schedules a task. Returns `None`, and changes nothing, when the
    /// scheduler is saturated.
    pub fn insert(&mut self, task: T) -> (r: Option<SchedulerHandle>)
        requires
            old(self).wf(),
        ensures
            final(self).wf(),
            final(self).capacity() == old(self).capacity(),
            match r {
                Some(h) => {
                    &&& h.0 == old(self).next_key()
                    &&& old(self).next_key() < u64::MAX
                    &&& old(self).tasks().len() < old(self).capacity()
                    &&& !old(self).tasks().contains_key(h.0)
                    &&& final(self).tasks() == old(self).tasks().insert(h.0, task)
                    &&& final(self).next_key() == old(self).next_key() + 1
                },
                None => {
                    &&& (old(self).tasks().len() >= old(self).capacity() || old(self).next_key()
                        == u64::MAX)
                    &&& *final(self) == *old(self)
                },
            },
    {
        if self.tasks.len() >= self.capacity || self.next == u64::MAX {
            return None;
        }
        let key: u64 = self.next;
        self.tasks.insert(key, task);
        self.next = key + 1;
        Some(SchedulerHandle(key))
    }

    /// Turns a raw value back into a handle, if it names a scheduled task.
    pub fn from_raw_handle(&self, raw: u64) -> (r: Option<SchedulerHandle>)
        ensures
            match r {
                Some(h) => h.0 == raw && self.tasks().contains_key(raw),
                None => !self.tasks().contains_key(raw),
            },
    {
        if self.tasks.contains_key(&raw) {
            Some(SchedulerHandle(raw))
        } else {
            None
        }
    }

    /// The task behind a handle, if it is scheduled.
    pub fn get(&self, h: SchedulerHandle) -> (r: Option<&T>)
        ensures
            match r {
                Some(t) => self.tasks().contains_key(h.0) && self.tasks()[h.0] == *t,
                None => !self.tasks().contains_key(h.0),
            },
    {
        self.tasks.get(&h.0)
    }

    /// Removes and returns a scheduled task.
    pub fn take(&mut self, h: SchedulerHandle) -> (r: T)
        requires
            old(self).wf(),
            old(self).tasks().contains_key(h.0),
        ensures
            final(self).wf(),
            r == old(self).tasks()[h.0],
            h.0 < old(self).next_key(),
            final(self).tasks() == old(self).tasks().remove(h.0),
            final(self).next_key() == old(self).next_key(),
            final(self).capacity() == old(self).capacity(),
    {
        self.tasks.remove(&h.0).unwrap()
    }

    /// Stores a task under a key that this scheduler handed out, such as one
    /// whose task was just taken.
    pub fn put(&mut self, h: SchedulerHandle, task: T)
        requires
            old(self).wf(),
            h.0 < old(self).next_key(),
        ensures
            final(self).wf(),
            final(self).tasks() == old(self).tasks().insert(h.0, task),
            final(self).next_key() == old(self).next_key(),
            final(self).capacity() == old(self).capacity(),
    {
        self.tasks.insert(h.0, task);
    }
}

} // verus!
