//! The batch importer: tracks the import of a contiguous identifier range
//! and records exactly one outcome per identifier. The transport performs
//! the fetches; the tracker and the drivers here decide and record.

use vstd::prelude::*;

use crate::dex;
use crate::moves::{
    execution_matches, transform_move, transform_move_fault, transformed_move_ok,
};
use crate::pokemon::{transform_pokemon, transform_pokemon_fault, transformed_pokemon_ok};
use crate::pokeapi::moves::Move;
use crate::pokeapi::pokemon::{Pokemon, PokemonSpecies};
use crate::{fault_matches, Error};

verus! {

/// Tracks the outcomes of one import run over the identifier range
/// `[1, n)`. The slot at index `k` belongs to identifier `k + 1`.
pub struct ImportTracker<T> {
    pub n: i16,
    pub outcomes: Vec<Option<Result<T, Error>>>,
}

impl<T> ImportTracker<T> {
    /// One slot per identifier of the range.
    pub open spec fn wf(&self) -> bool {
        1 <= self.n && self.outcomes@.len() == self.n - 1
    }

    /// The outcome recorded for an identifier of the range, if any.
    pub open spec fn outcome_of(&self, id: int) -> Option<Result<T, Error>> {
        self.outcomes@[id - 1]
    }

    /// A tracker for the range `[1, n)` with nothing recorded yet.
    pub fn new(n: i16) -> (r: ImportTracker<T>)
        requires
            1 <= n,
        ensures
            r.wf(),
            r.n == n,
            forall|id: int| 1 <= id < n ==> r.outcome_of(id) is None,
    {
        let mut outcomes: Vec<Option<Result<T, Error>>> = Vec::new();
        let mut k: i16 = 1;
        while k < n
            invariant
                1 <= k <= n,
                outcomes@.len() == k - 1,
                forall|j: int| 0 <= j < k - 1 ==> outcomes@[j] is None,
            decreases n - k,
        {
            outcomes.push(None);
            k = k + 1;
        }
        ImportTracker { n, outcomes }
    }

    /// Whether an identifier of the range has its outcome recorded.
    pub fn is_recorded(&self, id: i16) -> (r: bool)
        requires
            self.wf(),
            1 <= id < self.n,
        ensures
            r == (self.outcome_of(id as int) is Some),
    {
        self.outcomes[(id - 1) as usize].is_some()
    }

    /// Records the outcome of one identifier. Each identifier is recorded
    /// exactly once: recording requires that its slot is still empty, and
    /// fills that slot and no other.
    pub fn record(&mut self, id: i16, outcome: Result<T, Error>)
        requires
            old(self).wf(),
            1 <= id < old(self).n,
            old(self).outcome_of(id as int) is None,
        ensures
            final(self).wf(),
            final(self).n == old(self).n,
            final(self).outcome_of(id as int) == Some(outcome),
            forall|j: int|
                1 <= j < final(self).n && j != id ==> final(self).outcome_of(j) == old(
                    self,
                ).outcome_of(j),
    {
        let slot = (id - 1) as usize;
        self.outcomes.set(slot, Some(outcome));
    }

    /// The smallest identifier of the range with no outcome yet, or
    /// nothing when every identifier is recorded.
    pub fn next_pending(&self) -> (r: Option<i16>)
        requires
            self.wf(),
        ensures
            match r {
                Some(id) => 1 <= id < self.n && self.outcome_of(id as int) is None,
                None => forall|id: int| 1 <= id < self.n ==> self.outcome_of(id) is Some,
            },
    {
        let mut id: i16 = 1;
        while id < self.n
            invariant
                self.wf(),
                1 <= id <= self.n,
                forall|j: int| 1 <= j < id ==> self.outcome_of(j) is Some,
            decreases self.n - id,
        {
            if self.outcomes[(id - 1) as usize].is_none() {
                return Some(id);
            }
            id = id + 1;
        }
        None
    }

    /// Whether every identifier of the range has its outcome recorded.
    pub fn is_complete(&self) -> (r: bool)
        requires
            self.wf(),
        ensures
            r == (forall|id: int| 1 <= id < self.n ==> self.outcome_of(id) is Some),
    {
        match self.next_pending() {
            Some(_) => false,
            None => true,
        }
    }

    /// The final report of a complete run: one entry per identifier of the
    /// range, in order, carrying exactly the outcome that was recorded for
    /// it — never zero outcomes for an identifier, never two.
    pub fn report(self) -> (r: Vec<(i16, Result<T, Error>)>)
        requires
            self.wf(),
            forall|id: int| 1 <= id < self.n ==> self.outcome_of(id) is Some,
        ensures
            r@.len() == self.n - 1,
            forall|k: int|
                0 <= k < r@.len() ==> r@[k].0 == k + 1 && Some(r@[k].1) == self.outcome_of(k + 1),
    {
        let ghost orig = self;
        let mut outcomes = self.outcomes;
        let n = self.n;
        let mut report: Vec<(i16, Result<T, Error>)> = Vec::new();
        let mut id: i16 = 1;
        while id < n
            invariant
                1 <= id <= n,
                n == orig.n,
                orig.wf(),
                outcomes@ == orig.outcomes@.subrange(id - 1, orig.outcomes@.len() as int),
                forall|j: int| 1 <= j < n ==> orig.outcome_of(j) is Some,
                report@.len() == id - 1,
                forall|k: int|
                    0 <= k < report@.len() ==> report@[k].0 == k + 1 && Some(report@[k].1)
                        == orig.outcome_of(k + 1),
            decreases n - id,
        {
            let entry = outcomes.remove(0);
            match entry {
                Some(outcome) => {
                    report.push((id, outcome));
                },
                None => {
                    proof {
                        assert(orig.outcome_of(id as int) is Some);
                        assert(false);
                    }
                },
            }
            id = id + 1;
        }
        report
    }
}

/// For any identifier of the range, a complete report records exactly one
/// outcome: the entry at its own position carries it, and no other entry
/// names the identifier.
pub proof fn lemma_exactly_one_outcome<T>(report: Seq<(i16, Result<T, Error>)>, n: int, id: int)
    requires
        report.len() == n - 1,
        forall|k: int| 0 <= k < report.len() ==> #[trigger] report[k].0 == k + 1,
        1 <= id < n,
    ensures
        report[id - 1].0 == id,
        forall|k: int| 0 <= k < report.len() && #[trigger] report[k].0 == id ==> k == id - 1,
{
}

/// The successes among the first `i` report entries, in order.
pub open spec fn successes_upto<T>(report: Seq<(i16, Result<T, Error>)>, i: int) -> Seq<(i16, T)>
    decreases i,
{
    if i <= 0 {
        Seq::empty()
    } else {
        successes_upto(report, i - 1) + (match report[i - 1].1 {
            Ok(v) => seq![(report[i - 1].0, v)],
            Err(_) => Seq::empty(),
        })
    }
}

/// The failures among the first `i` report entries, in order.
pub open spec fn failures_upto<T>(report: Seq<(i16, Result<T, Error>)>, i: int) -> Seq<
    (i16, Error),
>
    decreases i,
{
    if i <= 0 {
        Seq::empty()
    } else {
        failures_upto(report, i - 1) + (match report[i - 1].1 {
            Ok(_) => Seq::empty(),
            Err(e) => seq![(report[i - 1].0, e)],
        })
    }
}

/// Splits a report into its two outputs: the successfully transformed
/// records, and the failures with their identifiers and error kinds — no
/// identifier is dropped.
pub fn split_outcomes<T>(report: Vec<(i16, Result<T, Error>)>) -> (r: (
    Vec<(i16, T)>,
    Vec<(i16, Error)>,
))
    ensures
        r.0@ =~= successes_upto(report@, report@.len() as int),
        r.1@ =~= failures_upto(report@, report@.len() as int),
        r.0@.len() + r.1@.len() == report@.len(),
{
    let ghost all = report@;
    let mut report = report;
    let mut successes: Vec<(i16, T)> = Vec::new();
    let mut failures: Vec<(i16, Error)> = Vec::new();
    let mut i: usize = 0;
    let n = report.len();
    while i < n
        invariant
            0 <= i <= n == all.len(),
            report@ == all.subrange(i as int, all.len() as int),
            successes@ =~= successes_upto(all, i as int),
            failures@ =~= failures_upto(all, i as int),
            successes@.len() + failures@.len() == i,
        decreases n - i,
    {
        let (id, outcome) = report.remove(0);
        match outcome {
            Ok(v) => {
                successes.push((id, v));
            },
            Err(e) => {
                failures.push((id, e));
            },
        }
        i = i + 1;
    }
    (successes, failures)
}

/// The outcome recorded for one fetched move resource: the fetch's own
/// error, or the result of the transformation.
pub open spec fn move_outcome_matches(
    resp: Result<Move, Error>,
    out: Result<(dex::Move, dex::MoveExecution), Error>,
) -> bool {
    match resp {
        Err(e) => out == Err::<(dex::Move, dex::MoveExecution), Error>(e),
        Ok(m) => match out {
            Ok(p) => transform_move_fault(m) is None && transformed_move_ok(m, p.0)
                && execution_matches(m, p.1),
            Err(e2) => (transform_move_fault(m) matches Some(f) && fault_matches(e2, f)),
        },
    }
}

/// Imports a batch of move resources: the response for identifier `k + 1`
/// stands at index `k`, and the report records exactly one outcome per
/// identifier — a fetch failure is recorded as it came, a fetched resource
/// is transformed.
pub fn import_moves(responses: Vec<Result<Move, Error>>) -> (r: Vec<
    (i16, Result<(dex::Move, dex::MoveExecution), Error>),
>)
    requires
        responses@.len() + 1 <= i16::MAX,
    ensures
        r@.len() == responses@.len(),
        forall|k: int|
            0 <= k < r@.len() ==> #[trigger] r@[k].0 == k + 1 && move_outcome_matches(
                responses@[k],
                r@[k].1,
            ),
{
    let ghost resps = responses@;
    let n: i16 = (responses.len() + 1) as i16;
    let mut tracker: ImportTracker<(dex::Move, dex::MoveExecution)> = ImportTracker::new(n);
    let mut responses = responses;
    let mut id: i16 = 1;
    while id < n
        invariant
            1 <= id <= n,
            n == resps.len() + 1,
            tracker.wf(),
            tracker.n == n,
            responses@ == resps.subrange(id - 1, resps.len() as int),
            forall|j: int|
                1 <= j < id ==> (#[trigger] tracker.outcome_of(j) matches Some(out)
                    && move_outcome_matches(resps[j - 1], out)),
            forall|j: int| id <= j < n ==> tracker.outcome_of(j) is None,
        decreases n - id,
    {
        let resp = responses.remove(0);
        let outcome = match resp {
            Ok(m) => transform_move(&m),
            Err(e) => Err(e),
        };
        tracker.record(id, outcome);
        id = id + 1;
    }
    let report = tracker.report();
    proof {
        assert forall|k: int| 0 <= k < report@.len() implies #[trigger] report@[k].0 == k + 1
            && move_outcome_matches(resps[k], report@[k].1) by {
            assert(Some(report@[k].1) == tracker.outcome_of(k + 1));
        }
    }
    report
}

/// The outcome recorded for one fetched creature resource and its species:
/// the fetch's own error, or the result of the transformation.
pub open spec fn pokemon_outcome_matches(
    resp: Result<(Pokemon, PokemonSpecies), Error>,
    out: Result<dex::Pokemon, Error>,
) -> bool {
    match resp {
        Err(e) => out == Err::<dex::Pokemon, Error>(e),
        Ok(pair) => match out {
            Ok(record) => transform_pokemon_fault(pair.0, pair.1) is None
                && transformed_pokemon_ok(pair.0, pair.1, record),
            Err(e2) => (transform_pokemon_fault(pair.0, pair.1) matches Some(f) && fault_matches(
                e2,
                f,
            )),
        },
    }
}

/// Imports a batch of creature resources with their species: the response
/// for identifier `k + 1` stands at index `k`, and the report records
/// exactly one outcome per identifier.
pub fn import_pokemon(responses: Vec<Result<(Pokemon, PokemonSpecies), Error>>) -> (r: Vec<
    (i16, Result<dex::Pokemon, Error>),
>)
    requires
        responses@.len() + 1 <= i16::MAX,
    ensures
        r@.len() == responses@.len(),
        forall|k: int|
            0 <= k < r@.len() ==> #[trigger] r@[k].0 == k + 1 && pokemon_outcome_matches(
                responses@[k],
                r@[k].1,
            ),
{
    let ghost resps = responses@;
    let n: i16 = (responses.len() + 1) as i16;
    let mut tracker: ImportTracker<dex::Pokemon> = ImportTracker::new(n);
    let mut responses = responses;
    let mut id: i16 = 1;
    while id < n
        invariant
            1 <= id <= n,
            n == resps.len() + 1,
            tracker.wf(),
            tracker.n == n,
            responses@ == resps.subrange(id - 1, resps.len() as int),
            forall|j: int|
                1 <= j < id ==> (#[trigger] tracker.outcome_of(j) matches Some(out)
                    && pokemon_outcome_matches(resps[j - 1], out)),
            forall|j: int| id <= j < n ==> tracker.outcome_of(j) is None,
        decreases n - id,
    {
        let resp = responses.remove(0);
        let outcome = match resp {
            Ok(pair) => transform_pokemon(&pair.0, &pair.1),
            Err(e) => Err(e),
        };
        tracker.record(id, outcome);
        id = id + 1;
    }
    let report = tracker.report();
    proof {
        assert forall|k: int| 0 <= k < report@.len() implies #[trigger] report@[k].0 == k + 1
            && pokemon_outcome_matches(resps[k], report@[k].1) by {
            assert(Some(report@[k].1) == tracker.outcome_of(k + 1));
        }
    }
    report
}

} // verus!
