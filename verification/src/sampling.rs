//! The control logic of sampling: how often a rejection sampler draws, and
//! how a Metropolis-Hastings chain moves. Drawing candidates and evaluating
//! densities is left to the caller; these functions decide what to do with
//! the results.

use vstd::prelude::*;
use crate::domain::{box_contains, box_clamp, bounds_valid, lemma_clamp_is_contained};
use crate::order::totally_ordered;

verus! {

/// Sampling strategy for the `sample` functions of the densities.
#[derive(Debug, Clone, Copy, PartialEq, Eq, Structural)]
pub enum SamplingMode {
    /// Draw once, and return the candidate if it is valid, or nothing if not.
    SingleAttempt,
    /// Draw until a valid candidate is found, or the maximum number of
    /// attempts is reached (nothing is returned then).
    UntilValid { max_attempts: usize },
    /// Draw until a valid candidate is found, or the maximum number of
    /// attempts is reached; then clamp the last candidate to the domain.
    UntilValidOrClamp { max_attempts: usize },
    /// Draw until a valid candidate is found, with no maximum number of attempts.
    UntilValidNoLimit,
}

/// What a rejection sampler does after checking a candidate.
#[derive(Debug, Clone, Copy, PartialEq, Eq, Structural)]
pub enum SamplingAction {
    /// Return the candidate.
    Accept,
    /// Draw another candidate.
    Retry,
    /// Return the candidate clamped to the domain.
    Clamp,
    /// Return nothing.
    GiveUp,
}

/// How a run of a rejection sampler ended, with the (zero-based) index of the
/// candidate that ended it.
#[derive(Debug, Clone, Copy, PartialEq, Eq, Structural)]
pub enum SamplingOutcome {
    /// The candidate was valid and returned.
    Accepted(usize),
    /// The budget was spent; the candidate was clamped and returned.
    Clamped(usize),
    /// The budget was spent; nothing was returned.
    Failed(usize),
}

impl SamplingOutcome {
    /// The index of the candidate that ended the run.
    pub open spec fn index(self) -> nat {
        match self {
            SamplingOutcome::Accepted(k) => k as nat,
            SamplingOutcome::Clamped(k) => k as nat,
            SamplingOutcome::Failed(k) => k as nat,
        }
    }
}

impl SamplingMode {
    /// The action after the `attempts`-th candidate (counting from one) was
    /// found `valid` or not.
    pub open spec fn action(self, attempts: nat, valid: bool) -> SamplingAction {
        if valid {
            SamplingAction::Accept
        } else {
            match self {
                SamplingMode::SingleAttempt => SamplingAction::GiveUp,
                SamplingMode::UntilValid { max_attempts } => if attempts < max_attempts {
                    SamplingAction::Retry
                } else {
                    SamplingAction::GiveUp
                },
                SamplingMode::UntilValidOrClamp { max_attempts } => if attempts < max_attempts {
                    SamplingAction::Retry
                } else {
                    SamplingAction::Clamp
                },
                SamplingMode::UntilValidNoLimit => SamplingAction::Retry,
            }
        }
    }

    /// The most candidates a run may draw; `None` for no limit. At least one
    /// candidate is always drawn.
    pub open spec fn budget(self) -> Option<nat> {
        match self {
            SamplingMode::SingleAttempt => Some(1),
            SamplingMode::UntilValid { max_attempts } => Some(
                if max_attempts == 0 {
                    1
                } else {
                    max_attempts as nat
                },
            ),
            SamplingMode::UntilValidOrClamp { max_attempts } => Some(
                if max_attempts == 0 {
                    1
                } else {
                    max_attempts as nat
                },
            ),
            SamplingMode::UntilValidNoLimit => None,
        }
    }

    /// The run of a sampler whose candidates, from the `i`-th on, are valid
    /// or not as `valid` says; `None` if `valid` ends before the run does.
    pub open spec fn run_from(self, valid: Seq<bool>, i: nat) -> Option<SamplingOutcome>
        decreases valid.len() - i,
    {
        if i >= valid.len() {
            None
        } else {
            match self.action(i + 1, valid[i as int]) {
                SamplingAction::Accept => Some(SamplingOutcome::Accepted(i as usize)),
                SamplingAction::Clamp => Some(SamplingOutcome::Clamped(i as usize)),
                SamplingAction::GiveUp => Some(SamplingOutcome::Failed(i as usize)),
                SamplingAction::Retry => self.run_from(valid, i + 1),
            }
        }
    }

    /// The run of a sampler whose successive candidates are valid or not as
    /// `valid` says; `None` if `valid` ends before the run does.
    pub open spec fn outcome(self, valid: Seq<bool>) -> Option<SamplingOutcome> {
        self.run_from(valid, 0)
    }

    /// Creates the mode that draws once.
    pub fn single_attempt() -> (r: Self)
        ensures
            r == SamplingMode::SingleAttempt,
    {
        SamplingMode::SingleAttempt
    }

    /// Creates the mode that draws until a valid candidate is found, at most
    /// `max_attempts` times.
    pub fn until_valid(max_attempts: usize) -> (r: Self)
        ensures
            r == (SamplingMode::UntilValid { max_attempts }),
    {
        SamplingMode::UntilValid { max_attempts }
    }

    /// Creates the mode that draws until a valid candidate is found, at most
    /// `max_attempts` times, and then clamps the last candidate.
    pub fn until_valid_or_clamp(max_attempts: usize) -> (r: Self)
        ensures
            r == (SamplingMode::UntilValidOrClamp { max_attempts }),
    {
        SamplingMode::UntilValidOrClamp { max_attempts }
    }

    /// Creates the mode that draws until a valid candidate is found.
    pub fn until_valid_no_limit() -> (r: Self)
        ensures
            r == SamplingMode::UntilValidNoLimit,
    {
        SamplingMode::UntilValidNoLimit
    }

    /// Decides what to do after the `attempts`-th candidate (counting from
    /// one) was checked: accept a valid candidate; otherwise draw again while
    /// the mode allows, and else clamp or give up.
    pub fn next_action(&self, attempts: usize, valid: bool) -> (r: SamplingAction)
        ensures
            r == self.action(attempts as nat, valid),
    {
        if valid {
            return SamplingAction::Accept;
        }
        match self {
            SamplingMode::SingleAttempt => SamplingAction::GiveUp,
            SamplingMode::UntilValid { max_attempts } => {
                if attempts < *max_attempts {
                    SamplingAction::Retry
                } else {
                    SamplingAction::GiveUp
                }
            },
            SamplingMode::UntilValidOrClamp { max_attempts } => {
                if attempts < *max_attempts {
                    SamplingAction::Retry
                } else {
                    SamplingAction::Clamp
                }
            },
            SamplingMode::UntilValidNoLimit => SamplingAction::Retry,
        }
    }

    /// Runs the decisions of a sampler over candidates whose validity is
    /// given in order; `None` if they run out before the sampler stops.
    pub fn resolve(&self, valid: &Vec<bool>) -> (r: Option<SamplingOutcome>)
        ensures
            r == self.outcome(valid@),
    {
        let mut i: usize = 0;
        while i < valid.len()
            invariant
                i <= valid@.len(),
                self.outcome(valid@) == self.run_from(valid@, i as nat),
            decreases valid.len() - i,
        {
            match self.next_action(i + 1, valid[i]) {
                SamplingAction::Accept => return Some(SamplingOutcome::Accepted(i)),
                SamplingAction::Clamp => return Some(SamplingOutcome::Clamped(i)),
                SamplingAction::GiveUp => return Some(SamplingOutcome::Failed(i)),
                SamplingAction::Retry => {},
            }
            i = i + 1;
        }
        None
    }

    /// Returns the name of the sampling mode.
    pub fn typename(&self) -> (r: &'static str)
        ensures
            self is SingleAttempt ==> r@ == "single_attempt"@,
            self is UntilValid ==> r@ == "until_valid"@,
            self is UntilValidOrClamp ==> r@ == "until_valid_or_clamp"@,
            self is UntilValidNoLimit ==> r@ == "until_valid_no_limit"@,
    {
        match self {
            SamplingMode::SingleAttempt => "single_attempt",
            SamplingMode::UntilValid { .. } => "until_valid",
            SamplingMode::UntilValidOrClamp { .. } => "until_valid_or_clamp",
            SamplingMode::UntilValidNoLimit => "until_valid_no_limit",
        }
    }
}

/// No candidate in `valid[from..to]` is valid.
pub open spec fn none_valid(valid: Seq<bool>, from: int, to: int) -> bool {
    forall|j: int| from <= j < to ==> !#[trigger] valid[j]
}

/// `k` lies below the budget of `mode` (always, when it has none).
pub open spec fn within_budget(mode: SamplingMode, k: nat) -> bool {
    mode.budget() matches Some(b) ==> k < b
}

/// What a run from the `i`-th candidate on is known to end with.
spec fn run_facts(mode: SamplingMode, valid: Seq<bool>, i: nat, r: Option<SamplingOutcome>) -> bool {
    match r {
        Some(SamplingOutcome::Accepted(k)) => {
            &&& i <= k < valid.len()
            &&& valid[k as int]
            &&& none_valid(valid, i as int, k as int)
            &&& within_budget(mode, k as nat)
        },
        Some(SamplingOutcome::Clamped(k)) => {
            &&& i <= k < valid.len()
            &&& none_valid(valid, i as int, k + 1)
            &&& mode is UntilValidOrClamp
            &&& mode.budget() == Some((k + 1) as nat)
        },
        Some(SamplingOutcome::Failed(k)) => {
            &&& i <= k < valid.len()
            &&& none_valid(valid, i as int, k + 1)
            &&& (mode is SingleAttempt || mode is UntilValid)
            &&& mode.budget() == Some((k + 1) as nat)
        },
        None => {
            &&& none_valid(valid, i as int, valid.len() as int)
            &&& within_budget(mode, valid.len())
        },
    }
}

proof fn lemma_run_from(mode: SamplingMode, valid: Seq<bool>, i: nat)
    requires
        i <= valid.len(),
        within_budget(mode, i),
        valid.len() <= usize::MAX,
    ensures
        run_facts(mode, valid, i, mode.run_from(valid, i)),
    decreases valid.len() - i,
{
    if i < valid.len() {
        if mode.action(i + 1, valid[i as int]) is Retry {
            lemma_run_from(mode, valid, i + 1);
        }
    }
}

/// A rejection sampler only ever accepts a valid candidate, the first one
/// drawn, and never draws more candidates than its mode allows. It clamps
/// only in `UntilValidOrClamp` mode and gives up only in `SingleAttempt` and
/// `UntilValid` modes, in both cases after exactly as many invalid candidates
/// as the mode allows. A run that has not ended has seen no valid candidate
/// and is still within the mode's budget.
pub proof fn lemma_outcome_sound(mode: SamplingMode, valid: Seq<bool>)
    requires
        valid.len() <= usize::MAX,
    ensures
        mode.outcome(valid) matches Some(SamplingOutcome::Accepted(k)) ==> {
            &&& k < valid.len()
            &&& valid[k as int]
            &&& none_valid(valid, 0, k as int)
            &&& within_budget(mode, k as nat)
        },
        mode.outcome(valid) matches Some(SamplingOutcome::Clamped(k)) ==> {
            &&& k < valid.len()
            &&& none_valid(valid, 0, k + 1)
            &&& mode is UntilValidOrClamp
            &&& mode.budget() == Some((k + 1) as nat)
        },
        mode.outcome(valid) matches Some(SamplingOutcome::Failed(k)) ==> {
            &&& k < valid.len()
            &&& none_valid(valid, 0, k + 1)
            &&& (mode is SingleAttempt || mode is UntilValid)
            &&& mode.budget() == Some((k + 1) as nat)
        },
        mode.outcome(valid) is None ==> none_valid(valid, 0, valid.len() as int) && within_budget(
            mode,
            valid.len(),
        ),
{
    lemma_run_from(mode, valid, 0);
}

/// The first valid candidate is accepted, provided the mode's budget allows
/// drawing it.
pub proof fn lemma_accepts_first_valid(mode: SamplingMode, valid: Seq<bool>, k: nat)
    requires
        valid.len() <= usize::MAX,
        k < valid.len(),
        valid[k as int],
        none_valid(valid, 0, k as int),
        within_budget(mode, k),
    ensures
        mode.outcome(valid) == Some(SamplingOutcome::Accepted(k as usize)),
{
    lemma_run_from(mode, valid, 0);
    match mode.outcome(valid) {
        Some(SamplingOutcome::Accepted(j)) => {
            if j < k {
                assert(valid[j as int]);
            } else if j > k {
                assert(!valid[k as int]);
            }
        },
        Some(SamplingOutcome::Clamped(j)) => {
            assert(!valid[k as int]);
        },
        Some(SamplingOutcome::Failed(j)) => {
            assert(!valid[k as int]);
        },
        None => {
            assert(!valid[k as int]);
        },
    }
}

/// A sampler in `UntilValidNoLimit` mode never gives up and never clamps.
pub proof fn lemma_no_limit_never_stops_early(valid: Seq<bool>)
    requires
        valid.len() <= usize::MAX,
    ensures
        SamplingMode::UntilValidNoLimit.outcome(valid) is None
            || SamplingMode::UntilValidNoLimit.outcome(valid)->0 is Accepted,
{
    lemma_outcome_sound(SamplingMode::UntilValidNoLimit, valid);
}

/// Once a run has ended, the candidates that would have come after do not
/// change how it ended.
pub proof fn lemma_outcome_ignores_later(mode: SamplingMode, valid: Seq<bool>, later: Seq<bool>)
    requires
        mode.outcome(valid) is Some,
    ensures
        mode.outcome(valid + later) == mode.outcome(valid),
{
    lemma_run_from_extend(mode, valid, later, 0);
}

proof fn lemma_run_from_extend(mode: SamplingMode, valid: Seq<bool>, later: Seq<bool>, i: nat)
    requires
        mode.run_from(valid, i) is Some,
    ensures
        mode.run_from(valid + later, i) == mode.run_from(valid, i),
    decreases valid.len() - i,
{
    if i < valid.len() {
        assert((valid + later)[i as int] == valid[i as int]);
        if mode.action(i + 1, valid[i as int]) is Retry {
            lemma_run_from_extend(mode, valid, later, i + 1);
        }
    }
}

/// Which state a Metropolis-Hastings chain moves to after a proposal.
#[derive(Debug, Clone, Copy, PartialEq, Eq, Structural)]
pub enum MhChoice {
    /// Stay at the current state.
    KeepCurrent,
    /// Move to the candidate.
    TakeCandidate,
}

/// The move of a Metropolis-Hastings chain: a candidate outside the domain
/// is rejected; from a current state outside the domain the chain takes the
/// first candidate inside it; otherwise it moves when the proposal is
/// accepted.
pub open spec fn mh_move(current_valid: bool, candidate_valid: bool, accepted: bool) -> MhChoice {
    if !candidate_valid {
        MhChoice::KeepCurrent
    } else if !current_valid {
        MhChoice::TakeCandidate
    } else if accepted {
        MhChoice::TakeCandidate
    } else {
        MhChoice::KeepCurrent
    }
}

/// Decides one Metropolis-Hastings step. `current_valid` and
/// `candidate_valid` tell whether the current state and the candidate have a
/// (log) density, i.e. lie in the domain; `accepted` is the outcome of the
/// acceptance test (a uniform draw below `min(1, exp(log f(candidate) - log
/// f(current)))`), consulted only when both have one.
pub fn mh_choice(current_valid: bool, candidate_valid: bool, accepted: bool) -> (r: MhChoice)
    ensures
        r == mh_move(current_valid, candidate_valid, accepted),
{
    if !candidate_valid {
        return MhChoice::KeepCurrent;
    }
    if !current_valid {
        return MhChoice::TakeCandidate;
    }
    if accepted {
        MhChoice::TakeCandidate
    } else {
        MhChoice::KeepCurrent
    }
}

/// Whether the state of a chain lies in the domain after the first `n`
/// steps, starting from a state that does (`start_valid`) or not, with the
/// candidates' validity and the acceptance tests' outcomes as given.
pub open spec fn mh_valid_after(
    start_valid: bool,
    candidates: Seq<bool>,
    accepted: Seq<bool>,
    n: nat,
) -> bool
    decreases n,
{
    if n == 0 {
        start_valid
    } else {
        let before = mh_valid_after(start_valid, candidates, accepted, (n - 1) as nat);
        match mh_move(before, candidates[n - 1], accepted[n - 1]) {
            MhChoice::TakeCandidate => candidates[n - 1],
            MhChoice::KeepCurrent => before,
        }
    }
}

/// A Metropolis-Hastings chain never leaves the domain once it is inside:
/// after any step on which the candidate lay in the domain (or from a start
/// inside the domain), every later state lies in the domain.
pub proof fn lemma_mh_stays_valid(
    start_valid: bool,
    candidates: Seq<bool>,
    accepted: Seq<bool>,
    j: int,
    n: nat,
)
    requires
        j < n <= candidates.len(),
        n <= accepted.len(),
        j == -1 ==> start_valid,
        0 <= j ==> candidates[j],
        -1 <= j,
    ensures
        mh_valid_after(start_valid, candidates, accepted, n),
    decreases n,
{
    if n > 0 && j < n - 1 {
        lemma_mh_stays_valid(start_valid, candidates, accepted, j, (n - 1) as nat);
    }
}

/// The sample a rejection sampler on the hypercube `bounds` returns after a
/// run that ended as `outcome`, with `candidates` the candidates it drew: the
/// accepted candidate, the last candidate clamped to the hypercube, or
/// nothing.
pub open spec fn returned_sample<T: PartialOrd>(
    outcome: SamplingOutcome,
    candidates: Seq<Seq<T>>,
    bounds: Seq<(Option<T>, Option<T>)>,
) -> Option<Seq<T>> {
    match outcome {
        SamplingOutcome::Accepted(k) => Some(candidates[k as int]),
        SamplingOutcome::Clamped(k) => Some(box_clamp(bounds, candidates[k as int])),
        SamplingOutcome::Failed(_) => None,
    }
}

/// A rejection sampler on a hypercube domain, whose candidates count as valid
/// when the domain contains them, only ever returns samples inside the
/// domain, whatever its mode (for consistent bounds and a totally ordered
/// `T`).
pub proof fn lemma_sample_in_domain<T: PartialOrd>(
    mode: SamplingMode,
    candidates: Seq<Seq<T>>,
    bounds: Seq<(Option<T>, Option<T>)>,
)
    requires
        totally_ordered::<T>(),
        bounds_valid(bounds),
        candidates.len() <= usize::MAX,
        forall|i: int| 0 <= i < candidates.len() ==> #[trigger] candidates[i].len() == bounds.len(),
    ensures
        ({
            let valid = candidates.map_values(|c: Seq<T>| box_contains(bounds, c));
            mode.outcome(valid) matches Some(o) ==> (returned_sample(o, candidates, bounds) matches Some(
                s,
            ) ==> box_contains(bounds, s))
        }),
{
    let valid = candidates.map_values(|c: Seq<T>| box_contains(bounds, c));
    lemma_outcome_sound(mode, valid);
    match mode.outcome(valid) {
        Some(SamplingOutcome::Clamped(k)) => {
            lemma_clamp_is_contained(bounds, candidates[k as int]);
        },
        _ => {},
    }
}

/// A Metropolis-Hastings chain started outside the domain lies inside it
/// after `n` steps exactly when one of the first `n` candidates lay inside
/// it: it never moves to a candidate outside the domain, and it takes the
/// first candidate inside.
pub proof fn lemma_mh_enters_domain(candidates: Seq<bool>, accepted: Seq<bool>, n: nat)
    requires
        n <= candidates.len(),
        n <= accepted.len(),
    ensures
        mh_valid_after(false, candidates, accepted, n) <==> exists|j: int|
            0 <= j < n && #[trigger] candidates[j],
    decreases n,
{
    if n > 0 {
        lemma_mh_enters_domain(candidates, accepted, (n - 1) as nat);
        if exists|j: int| 0 <= j < n && #[trigger] candidates[j] {
            let j = choose|j: int| 0 <= j < n && #[trigger] candidates[j];
            lemma_mh_stays_valid(false, candidates, accepted, j, n);
        } else {
            assert(!candidates[n - 1]);
        }
    }
}

} // verus!
