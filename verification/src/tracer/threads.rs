//! The names of the threads of a traced process, kept so that each is asked
//! for once only.
use std::collections::HashMap;
use vstd::prelude::*;
use vstd::std_specs::hash::*;

verus! {

broadcast use vstd::std_specs::hash::group_hash_axioms;

/// The names of the threads of a process, as far as they have been asked for.
/// A thread whose name could not be found is kept too, without a name.
pub struct ThreadCache {
    /// The id of the process.
    pub pid: u32,
    /// The names of the threads, by thread id.
    pub names: HashMap<u32, Option<String>>,
}

impl ThreadCache {
    /// Creates an empty cache for the threads of a process.
    pub fn new(pid: u32) -> (c: ThreadCache)
        ensures
            c.pid == pid,
            c.names@.len() == 0,
    {
        ThreadCache { pid, names: HashMap::new() }
    }

    /// Whether the thread has been asked for.
    pub open spec fn spec_knows(&self, tid: u32) -> bool {
        self.names@.contains_key(tid)
    }

    /// Returns whether the thread has been asked for, so that its name need
    /// not be looked up again.
    #[verifier::when_used_as_spec(spec_knows)]
    pub fn knows(&self, tid: u32) -> (b: bool)
        ensures
            b == self.spec_knows(tid),
    {
        self.names.contains_key(&tid)
    }

    /// Keeps what was found for a thread: its name, or that it has none. What
    /// was kept for the thread before is replaced.
    pub fn insert(&mut self, tid: u32, name: Option<String>)
        ensures
            final(self).pid == old(self).pid,
            final(self).names@ == old(self).names@.insert(tid, name),
    {
        self.names.insert(tid, name);
    }

    /// Gets what is kept for a thread: `None` where the thread has not been
    /// asked for, and otherwise its name or that it has none.
    pub fn get(&self, tid: u32) -> (r: Option<&Option<String>>)
        ensures
            r is Some <==> self.spec_knows(tid),
            r is Some ==> *r->Some_0 == self.names@[tid],
    {
        self.names.get(&tid)
    }
}

} // verus!
