use vstd::prelude::*;

use crate::model::{first_match_index, is_first_match, no_match, Expectation, IncomingRequest};

verus! {

/// The expectations loaded so far, in the order they were added. The store
/// only grows: expectations are appended in whole batches and never removed
/// or changed.
pub struct State {
    expectations: Vec<Expectation>,
}

impl View for State {
    type V = Seq<Expectation>;

    closed spec fn view(&self) -> Seq<Expectation> {
        self.expectations@
    }
}

impl State {
    /// An empty store.
    pub fn new() -> (s: State)
        ensures
            s@ == Seq::<Expectation>::empty(),
    {
        State { expectations: Vec::new() }
    }

    /// Appends `batch`, in its order, after everything already stored.
    pub fn add_expectations(&mut self, batch: Vec<Expectation>)
        ensures
            final(self)@ == old(self)@ + batch@,
    {
        let mut batch = batch;
        self.expectations.append(&mut batch);
    }

    /// The whole sequence of expectations, as it stands.
    pub fn snapshot(&self) -> (r: &Vec<Expectation>)
        ensures
            r@ == self@,
    {
        &self.expectations
    }

    pub fn len(&self) -> (r: usize)
        ensures
            r == self@.len(),
    {
        self.expectations.len()
    }

    /// The first stored expectation that matches `req`.
    pub fn search_for_mock(&self, req: &IncomingRequest) -> (r: Option<&Expectation>)
        ensures
            match r {
                None => no_match(self@, req),
                Some(e) => exists|i: int| is_first_match(self@, req, i) && *e == self@[i],
            },
    {
        match first_match_index(&self.expectations, req) {
            None => None,
            Some(i) => {
                assert(is_first_match(self@, req, i as int) && self.expectations@[i as int] == self@[i as int]);
                Some(&self.expectations[i])
            },
        }
    }

    /// The position of the first stored expectation that matches `req`.
    pub fn first_match(&self, req: &IncomingRequest) -> (r: Option<usize>)
        ensures
            match r {
                None => no_match(self@, req),
                Some(i) => is_first_match(self@, req, i as int),
            },
    {
        first_match_index(&self.expectations, req)
    }
}

/// Appending a batch of `k` expectations makes the store `k` longer, keeps
/// what was there in front, and puts the batch behind it in its own order.
pub proof fn lemma_append_grows_by_batch(before: Seq<Expectation>, batch: Seq<Expectation>, after: Seq<Expectation>)
    requires
        after == before + batch,
    ensures
        after.len() == before.len() + batch.len(),
        after.subrange(0, before.len() as int) == before,
        after.subrange(before.len() as int, after.len() as int) == batch,
{
    assert(after.subrange(0, before.len() as int) =~= before);
    assert(after.subrange(before.len() as int, after.len() as int) =~= batch);
}

/// Two reads of a store with no append between them see the same sequence.
pub proof fn lemma_snapshot_stable(s: State, first: Seq<Expectation>, second: Seq<Expectation>)
    requires
        first == s@,
        second == s@,
    ensures
        first == second,
{
}

} // verus!
