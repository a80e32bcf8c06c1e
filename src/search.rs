//! Testing candidates against a verifier, one worker's sequence at a time,
//! stopping early when another worker has found the match.
use crate::fingerprint::Verifier;
use crate::keyspace::{candidate_at, stride_index, Generator};
use crate::partition::{lines_in, read_shard};
use vstd::prelude::*;

verus! {

/// How a worker's pass over a list of candidates ended.
#[derive(Clone, Copy, Debug, PartialEq, Eq, Structural)]
pub enum SearchOutcome {
    /// The candidate at this position matches.
    Found(usize),
    /// No candidate matches.
    Exhausted,
    /// Another worker won before the candidate at this position was tested.
    Stopped(usize),
}

/// Tests `lines` in order. Before each candidate it polls `stop` (has another
/// worker found the match?) and stops if so; otherwise it checks the
/// candidate and stops at the first match.
pub fn crack_vector<F: Fn() -> bool>(lines: &Vec<Vec<u8>>, verifier: &Verifier, stop: F) -> (r:
    SearchOutcome)
    requires
        forall|u: ()| #[trigger] stop.requires(u),
    ensures
        match r {
            SearchOutcome::Found(i) => {
                &&& i < lines.len()
                &&& verifier.accepts(lines[i as int]@)
                &&& forall|j: int| 0 <= j < i ==> !verifier.accepts(#[trigger] lines[j]@)
            },
            SearchOutcome::Exhausted => forall|j: int|
                0 <= j < lines.len() ==> !verifier.accepts(#[trigger] lines[j]@),
            SearchOutcome::Stopped(k) => {
                &&& k < lines.len()
                &&& stop.ensures((), true)
                &&& forall|j: int| 0 <= j < k ==> !verifier.accepts(#[trigger] lines[j]@)
            },
        },
        lines.len() > 0 && (forall|b: bool| #[trigger] stop.ensures((), b) ==> b) ==> r
            == SearchOutcome::Stopped(0),
{
    let mut i: usize = 0;
    while i < lines.len()
        invariant
            i <= lines.len(),
            forall|u: ()| #[trigger] stop.requires(u),
            forall|j: int| 0 <= j < i ==> !verifier.accepts(#[trigger] lines[j]@),
            (forall|b: bool| #[trigger] stop.ensures((), b) ==> b) ==> i == 0,
        decreases lines.len() - i,
    {
        if stop() {
            return SearchOutcome::Stopped(i);
        }
        if verifier.verify(lines[i].as_slice()) {
            return SearchOutcome::Found(i);
        }
        i += 1;
    }
    SearchOutcome::Exhausted
}

/// Reads the lines of the shard `[start, end)` of `data` and tests them, as
/// `crack_vector` does.
pub fn crack_shard<F: Fn() -> bool>(
    data: &[u8],
    start: usize,
    end: usize,
    verifier: &Verifier,
    stop: F,
) -> (r: (Vec<Vec<u8>>, SearchOutcome))
    requires
        forall|u: ()| #[trigger] stop.requires(u),
    ensures
        r.0.len() == lines_in(data@, start as int, end as int).len(),
        forall|i: int| 0 <= i < r.0.len() ==> r.0[i]@ == lines_in(data@, start as int, end as int)[i],
        match r.1 {
            SearchOutcome::Found(i) => {
                &&& i < r.0.len()
                &&& verifier.accepts(r.0[i as int]@)
                &&& forall|j: int| 0 <= j < i ==> !verifier.accepts(#[trigger] r.0[j]@)
            },
            SearchOutcome::Exhausted => forall|j: int|
                0 <= j < r.0.len() ==> !verifier.accepts(#[trigger] r.0[j]@),
            SearchOutcome::Stopped(k) => {
                &&& k < r.0.len()
                &&& stop.ensures((), true)
                &&& forall|j: int| 0 <= j < k ==> !verifier.accepts(#[trigger] r.0[j]@)
            },
        },
{
    let lines = read_shard(data, start, end);
    let outcome = crack_vector(&lines, verifier, stop);
    (lines, outcome)
}

/// Tests every line of `data` in one pass; returns the first line that
/// matches.
pub fn crack_small_wordlist(data: &[u8], verifier: &Verifier) -> (r: Option<Vec<u8>>)
    ensures
        match r {
            Some(c) => exists|i: int|
                0 <= i < lines_in(data@, 0, data@.len() as int).len() && c@ == #[trigger] lines_in(
                    data@,
                    0,
                    data@.len() as int,
                )[i] && verifier.accepts(c@) && forall|j: int|
                    0 <= j < i ==> !verifier.accepts(
                        #[trigger] lines_in(data@, 0, data@.len() as int)[j],
                    ),
            None => forall|j: int|
                0 <= j < lines_in(data@, 0, data@.len() as int).len() ==> !verifier.accepts(
                    #[trigger] lines_in(data@, 0, data@.len() as int)[j],
                ),
        },
{
    let lines = read_shard(data, 0, data.len());
    let ghost all = lines_in(data@, 0, data@.len() as int);
    let mut i: usize = 0;
    while i < lines.len()
        invariant
            i <= lines.len() == all.len(),
            all == lines_in(data@, 0, data@.len() as int),
            forall|k: int| 0 <= k < lines.len() ==> lines[k]@ == all[k],
            forall|j: int| 0 <= j < i ==> !verifier.accepts(#[trigger] all[j]),
        decreases lines.len() - i,
    {
        if verifier.verify(lines[i].as_slice()) {
            let found = lines[i].clone();
            assert(found@ == all[i as int]);
            return Some(found);
        }
        i += 1;
    }
    None
}

/// How a worker's pass over its share of a keyspace ended.
#[derive(Clone, Debug, PartialEq, Eq)]
pub enum KeyspaceOutcome {
    /// This candidate matches.
    Found(Vec<u8>),
    /// The worker's share holds no match.
    Exhausted,
    /// Another worker won first.
    Stopped,
}

/// The candidates that `g` emitted at steps `[from, to)` do not match.
pub open spec fn none_accepted(verifier: &Verifier, g: &Generator, from: nat, to: nat) -> bool {
    forall|k: nat|
        from <= k < to ==> !verifier.accepts(
            #[trigger] candidate_at(
                g.alphabet(),
                g.length(),
                stride_index(g.worker_id(), g.worker_count(), k),
            ),
        )
}

/// Draws candidates from `g` and tests them, polling `stop` before each one,
/// until one matches, the share is exhausted, or another worker has won.
pub fn crack_generator<F: Fn() -> bool>(g: &mut Generator, verifier: &Verifier, stop: F) -> (r:
    KeyspaceOutcome)
    requires
        old(g).wf(),
        forall|u: ()| #[trigger] stop.requires(u),
    ensures
        final(g).wf(),
        final(g).alphabet() == old(g).alphabet(),
        final(g).length() == old(g).length(),
        final(g).worker_id() == old(g).worker_id(),
        final(g).worker_count() == old(g).worker_count(),
        old(g).emitted() <= final(g).emitted(),
        match r {
            KeyspaceOutcome::Found(c) => {
                &&& final(g).emitted() > old(g).emitted()
                &&& c@ == candidate_at(
                    final(g).alphabet(),
                    final(g).length(),
                    stride_index(final(g).worker_id(), final(g).worker_count(), (final(g).emitted() - 1) as nat),
                )
                &&& stride_index(final(g).worker_id(), final(g).worker_count(), (final(g).emitted() - 1) as nat) < final(g).space()
                &&& verifier.accepts(c@)
                &&& none_accepted(verifier, final(g), old(g).emitted(), (final(g).emitted() - 1) as nat)
            },
            KeyspaceOutcome::Exhausted => {
                &&& final(g).next_index() >= final(g).space()
                &&& none_accepted(verifier, final(g), old(g).emitted(), final(g).emitted())
            },
            KeyspaceOutcome::Stopped => {
                &&& stop.ensures((), true)
                &&& none_accepted(verifier, final(g), old(g).emitted(), final(g).emitted())
            },
        },
        (forall|b: bool| #[trigger] stop.ensures((), b) ==> b) ==> r == KeyspaceOutcome::Stopped
            && final(g).emitted() == old(g).emitted(),
{
    let ghost start = g.emitted();
    loop
        invariant
            g.wf(),
            g.alphabet() == old(g).alphabet(),
            g.length() == old(g).length(),
            g.worker_id() == old(g).worker_id(),
            g.worker_count() == old(g).worker_count(),
            start == old(g).emitted(),
            start <= g.emitted(),
            forall|u: ()| #[trigger] stop.requires(u),
            none_accepted(verifier, g, start, g.emitted()),
            (forall|b: bool| #[trigger] stop.ensures((), b) ==> b) ==> g.emitted() == start,
        decreases g.space() - g.emitted(),
    {
        proof {
            g.lemma_done_iff_past_end();
        }
        if stop() {
            return KeyspaceOutcome::Stopped;
        }
        let ghost before = *g;
        match g.next() {
            None => {
                return KeyspaceOutcome::Exhausted;
            },
            Some(candidate) => {
                proof {
                    before.lemma_done_iff_past_end();
                }
                if verifier.verify(candidate.as_slice()) {
                    return KeyspaceOutcome::Found(candidate);
                }
            },
        }
    }
}

} // verus!
