//! The slot in which the first match of a run is recorded, shared by all
//! workers: first writer wins, later writers are turned away, and the flag
//! never goes back.
//!
//! The type is sequential; workers share it behind a lock, so any concurrent
//! run is one of the call sequences that the laws below speak of.
use vstd::prelude::*;

verus! {

/// The state of the slot: whether a match was signalled, and the candidate
/// held (until it is taken).
pub type OutcomeState = (bool, Option<Seq<u8>>);

/// The state after a worker signals `candidate`.
pub open spec fn signal(s: OutcomeState, candidate: Seq<u8>) -> OutcomeState {
    if s.0 {
        s
    } else {
        (true, Some(candidate))
    }
}

/// The state after the workers signal `cs`, in that order.
pub open spec fn signal_all(s: OutcomeState, cs: Seq<Seq<u8>>) -> OutcomeState
    decreases cs.len(),
{
    if cs.len() == 0 {
        s
    } else {
        signal(signal_all(s, cs.drop_last()), cs.last())
    }
}

/// How many of the calls that signal `cs` from `s` are told they won.
pub open spec fn winners(s: OutcomeState, cs: Seq<Seq<u8>>) -> nat
    decreases cs.len(),
{
    if cs.len() == 0 {
        0
    } else {
        winners(s, cs.drop_last()) + if signal_all(s, cs.drop_last()).0 {
            0nat
        } else {
            1nat
        }
    }
}

/// The state of a run that has not found anything.
pub open spec fn fresh() -> OutcomeState {
    (false, None)
}

/// Write-once record of the first match, with its stop flag.
pub struct SharedOutcome {
    found: bool,
    result: Option<Vec<u8>>,
}

impl View for SharedOutcome {
    type V = OutcomeState;

    closed spec fn view(&self) -> OutcomeState {
        (
            self.found,
            match self.result {
                Some(v) => Some(v@),
                None => None,
            },
        )
    }
}

impl SharedOutcome {
    /// An empty slot.
    pub fn new() -> (r: Self)
        ensures
            r@ == fresh(),
    {
        SharedOutcome { found: false, result: None }
    }

    /// Records `candidate` if no match was recorded before; returns whether
    /// this call was the first. A later candidate is dropped.
    pub fn signal_found(&mut self, candidate: Vec<u8>) -> (first: bool)
        ensures
            first == !old(self)@.0,
            final(self)@ == signal(old(self)@, candidate@),
    {
        if self.found {
            false
        } else {
            self.found = true;
            self.result = Some(candidate);
            true
        }
    }

    /// Whether a match was signalled.
    pub fn is_found(&self) -> (r: bool)
        ensures
            r == self@.0,
    {
        self.found
    }

    /// Hands out the recorded candidate, once all workers are done.
    pub fn take_result(&mut self) -> (r: Option<Vec<u8>>)
        ensures
            match r {
                Some(v) => old(self)@.1 == Some(v@),
                None => old(self)@.1 is None,
            },
            final(self)@ == (old(self)@.0, None::<Seq<u8>>),
    {
        let r = self.result.take();
        r
    }
}

/// At most one winner: whatever the order in which workers signal matches
/// `cs` on a fresh slot, exactly one call is told it won when `cs` is not
/// empty, and the slot then holds the candidate of that call, the first one.
pub proof fn lemma_one_winner(cs: Seq<Seq<u8>>)
    ensures
        cs.len() > 0 ==> signal_all(fresh(), cs) == (true, Some(cs[0])),
        cs.len() > 0 ==> winners(fresh(), cs) == 1,
        cs.len() == 0 ==> signal_all(fresh(), cs) == fresh() && winners(fresh(), cs) == 0,
    decreases cs.len(),
{
    if cs.len() > 0 {
        let prefix = cs.drop_last();
        lemma_one_winner(prefix);
        if prefix.len() == 0 {
            assert(cs[0] == cs.last());
        } else {
            assert(prefix[0] == cs[0]);
        }
    }
}

/// Once a match is signalled, the flag stays set and the recorded candidate
/// stays as it is, whatever other workers signal afterwards, and none of them
/// is told it won.
pub proof fn lemma_found_is_final(s: OutcomeState, cs: Seq<Seq<u8>>)
    requires
        s.0,
    ensures
        signal_all(s, cs) == s,
        winners(s, cs) == 0,
    decreases cs.len(),
{
    if cs.len() > 0 {
        lemma_found_is_final(s, cs.drop_last());
    }
}

} // verus!
