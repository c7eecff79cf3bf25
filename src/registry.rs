use vstd::prelude::*;
use vstd::std_specs::hash::group_hash_axioms;

use std::collections::HashMap;

use crate::error::V8Error;

verus! {

broadcast use group_hash_axioms;

/// Message of the error returned when an identifier has no callback.
pub const NOT_FOUND_MESSAGE: &'static str = "native function not found";

/// Host callbacks that scripted code can reach through the native side,
/// each under an identifier that is handed out once and never again.
///
/// Identifiers start at 1 and grow by one with each registration; the
/// table holds only identifiers below the next one to be handed out.
pub struct Registry<F> {
    next_id: u64,
    entries: HashMap<u64, F>,
}

impl<F> View for Registry<F> {
    type V = Map<u64, F>;

    closed spec fn view(&self) -> Map<u64, F> {
        self.entries@
    }
}

impl<F> Registry<F> {
    /// The identifier that the next registration hands out.
    pub closed spec fn next_spec(&self) -> u64 {
        self.next_id
    }

    pub closed spec fn wf(&self) -> bool {
        &&& self.next_id >= 1
        &&& forall|id: u64| #[trigger] self.entries@.contains_key(id) ==> 1 <= id < self.next_id
    }

    pub fn new() -> (r: Registry<F>)
        ensures
            r.wf(),
            r@ == Map::<u64, F>::empty(),
            r.next_spec() == 1,
    {
        Registry { next_id: 1, entries: HashMap::new() }
    }

    /// Whether another identifier can still be handed out.
    pub fn can_register(&self) -> (r: bool)
        ensures
            r == (self.next_spec() < u64::MAX),
    {
        self.next_id < u64::MAX
    }

    /// Stores a callback under a fresh identifier and returns it.
    pub fn register(&mut self, callback: F) -> (id: u64)
        requires
            old(self).wf(),
            old(self).next_spec() < u64::MAX,
        ensures
            final(self).wf(),
            id == old(self).next_spec(),
            id >= 1,
            !old(self)@.contains_key(id),
            final(self)@ == old(self)@.insert(id, callback),
            final(self).next_spec() == id + 1,
    {
        let id = self.next_id;
        self.next_id = id + 1;
        self.entries.insert(id, callback);
        id
    }

    /// The callback stored under an identifier, or a "not found" error.
    pub fn lookup(&self, id: u64) -> (r: Result<&F, V8Error>)
        ensures
            match r {
                Ok(f) => self@.contains_key(id) && *f == self@[id],
                Err(e) => !self@.contains_key(id) && e@ == NOT_FOUND_MESSAGE@,
            },
    {
        match self.entries.get(&id) {
            Some(f) => Ok(f),
            None => Err(V8Error::new(NOT_FOUND_MESSAGE)),
        }
    }

    /// Removes the callback under an identifier; nothing happens when there
    /// is none.
    pub fn drop_function(&mut self, id: u64)
        requires
            old(self).wf(),
        ensures
            final(self).wf(),
            final(self)@ == old(self)@.remove(id),
            final(self).next_spec() == old(self).next_spec(),
    {
        self.entries.remove(&id);
    }

    /// Removes the callbacks under each of the identifiers.
    pub fn drop_many(&mut self, ids: &[u64])
        requires
            old(self).wf(),
        ensures
            final(self).wf(),
            final(self)@ == old(self)@.remove_keys(ids@.to_set()),
            final(self).next_spec() == old(self).next_spec(),
    {
        let mut i: usize = 0;
        while i < ids.len()
            invariant
                self.wf(),
                0 <= i <= ids@.len(),
                self@ == old(self)@.remove_keys(ids@.subrange(0, i as int).to_set()),
                self.next_spec() == old(self).next_spec(),
            decreases ids@.len() - i,
        {
            self.drop_function(ids[i]);
            proof {
                let done = ids@.subrange(0, i as int);
                let x = ids@[i as int];
                assert(ids@.subrange(0, i + 1) == done + seq![x]);
                Seq::<u64>::lemma_to_set_insert_commutes(done, x);
                assert(old(self)@.remove_keys(done.to_set()).remove(x) =~= old(self)@.remove_keys(
                    done.to_set().insert(x),
                ));
            }
            i = i + 1;
        }
        assert(ids@.subrange(0, i as int) == ids@);
    }

    /// How many callbacks are stored.
    pub fn len(&self) -> (r: usize)
        ensures
            r == self@.len(),
    {
        self.entries.len()
    }
}

} // verus!
