//! The lifecycle decisions: the handshake retry loop with its bounded
//! budget and kill-on-exhaustion duty, and the orchestrator's two-attempt
//! pipeline with one destructive retry. Both are driven step by step; the
//! unverified shell performs each action (a fetch, a spawn, a handshake
//! attempt) and feeds the outcome back in.
use vstd::prelude::*;

verus! {

/// The handshake retry loop's state: how many attempts were made, out of
/// how many allowed, and whether one produced a session.
pub struct HandshakeRetrier {
    pub max_attempts: usize,
    pub attempts_made: usize,
    pub connected: bool,
}

impl HandshakeRetrier {
    /// A fresh retrier with the given attempt budget.
    pub fn new(max_attempts: usize) -> (r: Self)
        ensures
            r.max_attempts == max_attempts,
            r.attempts_made == 0,
            !r.connected,
    {
        HandshakeRetrier { max_attempts, attempts_made: 0, connected: false }
    }

    /// Whether another handshake attempt should be made.
    pub fn should_attempt(&self) -> (r: bool)
        ensures
            r == (!self.connected && self.attempts_made < self.max_attempts),
    {
        !self.connected && self.attempts_made < self.max_attempts
    }

    /// Records one attempt's outcome. A fixed sleep follows each failed
    /// attempt before the next one.
    pub fn record(&mut self, success: bool)
        requires
            old(self).attempts_made < old(self).max_attempts,
            !old(self).connected,
        ensures
            final(self).max_attempts == old(self).max_attempts,
            final(self).attempts_made == old(self).attempts_made + 1,
            final(self).connected == success,
    {
        self.attempts_made = self.attempts_made + 1;
        self.connected = success;
    }

    /// Whether the spawned process must now be killed and waited on: the
    /// budget is exhausted without a session, and the caller must not leak
    /// the process.
    pub fn must_kill_process(&self) -> (r: bool)
        ensures
            r == (!self.connected && self.attempts_made >= self.max_attempts),
    {
        !self.connected && self.attempts_made >= self.max_attempts
    }
}

/// The first index below `max` at which the outcomes hold a success.
pub open spec fn first_success_before(outcomes: Seq<bool>, max: int) -> Option<int>
    decreases max,
{
    if max <= 0 {
        None
    } else {
        match first_success_before(outcomes, max - 1) {
            Some(i) => Some(i),
            None => if outcomes[max - 1] {
                Some(max - 1)
            } else {
                None
            },
        }
    }
}

proof fn lemma_first_success_extend(outcomes: Seq<bool>, m1: int, m2: int)
    requires
        m1 <= m2,
        first_success_before(outcomes, m1) is Some,
    ensures
        first_success_before(outcomes, m2) == first_success_before(outcomes, m1),
    decreases m2,
{
    if m1 < m2 {
        lemma_first_success_extend(outcomes, m1, m2 - 1);
    }
}

proof fn lemma_no_success_before(outcomes: Seq<bool>, m: int)
    requires
        forall|i: int| 0 <= i < m ==> !outcomes[i],
    ensures
        first_success_before(outcomes, m) is None,
    decreases m,
{
    if m > 0 {
        lemma_no_success_before(outcomes, m - 1);
    }
}

/// Retry law: against a stub that fails the first `n - 1` attempts and
/// succeeds on the `n`th, with `n` within budget, the first success is
/// attempt `n` — so `run_handshake` connects after exactly `n` attempts
/// and `n - 1` sleeps. Against a stub that fails every attempt in budget,
/// there is no success — so it stops exhausted after exactly
/// `max_attempts` attempts and kills the process.
pub proof fn lemma_handshake_retry(outcomes: Seq<bool>, n: int, max_attempts: int)
    ensures
        (0 < n <= max_attempts && outcomes[n - 1] && (forall|i: int| 0 <= i < n - 1 ==> !outcomes[i]))
            ==> first_success_before(outcomes, max_attempts) == Some(n - 1),
        (forall|i: int| 0 <= i < max_attempts ==> !outcomes[i]) ==> first_success_before(
            outcomes,
            max_attempts,
        ) is None,
{
    if 0 < n <= max_attempts && outcomes[n - 1] && (forall|i: int|
        0 <= i < n - 1 ==> !outcomes[i]) {
        lemma_no_success_before(outcomes, n - 1);
        assert(first_success_before(outcomes, n) == Some(n - 1));
        lemma_first_success_extend(outcomes, n, max_attempts);
    }
    if forall|i: int| 0 <= i < max_attempts ==> !outcomes[i] {
        lemma_no_success_before(outcomes, max_attempts);
    }
}

/// What one run of the handshake retry loop did.
pub struct HandshakeRun {
    pub attempts: usize,
    pub sleeps: usize,
    pub connected: bool,
    pub process_killed: bool,
}

/// Drives the handshake retry loop against a fixed schedule of attempt
/// outcomes, where `outcomes[i]` tells whether attempt `i + 1` reaches the
/// driver. With the first success at attempt `n <= max_attempts`, the loop
/// connects after exactly `n` attempts and `n - 1` sleeps, and the process
/// lives on. With no success in budget, it makes exactly `max_attempts`
/// attempts and kills the spawned process, so that this failure path never
/// leaks it.
pub fn run_handshake(outcomes: &Vec<bool>, max_attempts: usize) -> (r: HandshakeRun)
    requires
        outcomes@.len() >= max_attempts,
    ensures
        match first_success_before(outcomes@, max_attempts as int) {
            Some(i) => r.connected && r.attempts == i + 1 && r.sleeps == i && !r.process_killed,
            None => !r.connected && r.attempts == max_attempts && r.sleeps == max_attempts
                && r.process_killed,
        },
{
    let mut st = HandshakeRetrier::new(max_attempts);
    let mut sleeps: usize = 0;
    while st.should_attempt()
        invariant
            st.max_attempts == max_attempts,
            outcomes@.len() >= max_attempts,
            st.attempts_made <= max_attempts,
            st.connected ==> st.attempts_made >= 1,
            first_success_before(outcomes@, st.attempts_made as int) == (if st.connected {
                Some(st.attempts_made - 1)
            } else {
                None::<int>
            }),
            st.connected ==> sleeps == st.attempts_made - 1,
            !st.connected ==> sleeps == st.attempts_made,
        decreases max_attempts - st.attempts_made + (if st.connected {
            0int
        } else {
            1int
        }),
    {
        let outcome = outcomes[st.attempts_made];
        st.record(outcome);
        if !outcome {
            sleeps += 1;
        }
    }
    proof {
        if st.connected {
            lemma_first_success_extend(outcomes@, st.attempts_made as int, max_attempts as int);
        }
    }
    let killed = st.must_kill_process();
    HandshakeRun {
        attempts: st.attempts_made,
        sleeps,
        connected: st.connected,
        process_killed: killed,
    }
}

/// The cached state of the driver executables on disk, computed once per
/// acquisition from two existence checks.
#[derive(Clone, Copy, Debug, PartialEq, Eq, Structural)]
pub enum CacheState {
    /// No driver executable is cached: fetch, then patch.
    Missing,
    /// The raw executable is cached but not yet patched.
    Raw,
    /// The patched executable is cached and ready to spawn.
    Patched,
}

/// One externally performed action of the acquisition pipeline.
#[derive(Clone, Copy, Debug, PartialEq, Eq, Structural)]
pub enum PipelineStep {
    /// Download the archive and extract the raw executable.
    Fetch,
    /// Scrub the raw executable into the patched one.
    Patch,
    /// Set permissions and spawn the patched executable on a port.
    Spawn,
    /// Run the handshake retry loop against the spawned process.
    Handshake,
    /// Delete both cached executables (failures are ignored).
    DeleteCached,
}

/// The cache state two existence checks amount to.
pub open spec fn cache_state_of(raw_present: bool, patched_present: bool) -> CacheState {
    if patched_present {
        CacheState::Patched
    } else if raw_present {
        CacheState::Raw
    } else {
        CacheState::Missing
    }
}

/// Computes the cache state from the two existence checks.
pub fn cache_state(raw_present: bool, patched_present: bool) -> (r: CacheState)
    ensures
        r == cache_state_of(raw_present, patched_present),
{
    if patched_present {
        CacheState::Patched
    } else if raw_present {
        CacheState::Raw
    } else {
        CacheState::Missing
    }
}

/// The fallible steps one pipeline attempt runs, in order, given the cache
/// state it starts from.
pub open spec fn attempt_steps(cache: CacheState) -> Seq<PipelineStep> {
    match cache {
        CacheState::Missing => seq![
            PipelineStep::Fetch,
            PipelineStep::Patch,
            PipelineStep::Spawn,
            PipelineStep::Handshake,
        ],
        CacheState::Raw => seq![PipelineStep::Patch, PipelineStep::Spawn, PipelineStep::Handshake],
        CacheState::Patched => seq![PipelineStep::Spawn, PipelineStep::Handshake],
    }
}

/// The steps one attempt runs, as a vector.
pub fn steps_for(cache: CacheState) -> (r: Vec<PipelineStep>)
    ensures
        r@ == attempt_steps(cache),
{
    let mut v: Vec<PipelineStep> = Vec::new();
    match cache {
        CacheState::Missing => {
            v.push(PipelineStep::Fetch);
            v.push(PipelineStep::Patch);
            v.push(PipelineStep::Spawn);
            v.push(PipelineStep::Handshake);
        },
        CacheState::Raw => {
            v.push(PipelineStep::Patch);
            v.push(PipelineStep::Spawn);
            v.push(PipelineStep::Handshake);
        },
        CacheState::Patched => {
            v.push(PipelineStep::Spawn);
            v.push(PipelineStep::Handshake);
        },
    }
    assert(v@ =~= attempt_steps(cache));
    v
}

/// The first index below `max` at which the step results hold a failure.
pub open spec fn first_failure_before(results: Seq<bool>, max: int) -> Option<int>
    decreases max,
{
    if max <= 0 {
        None
    } else {
        match first_failure_before(results, max - 1) {
            Some(i) => Some(i),
            None => if !results[max - 1] {
                Some(max - 1)
            } else {
                None
            },
        }
    }
}

/// How many step results one attempt consumes: up to and including its
/// first failure, or all of its steps.
pub open spec fn attempt_used(cache: CacheState, results: Seq<bool>) -> int {
    match first_failure_before(results, attempt_steps(cache).len() as int) {
        Some(i) => i + 1,
        None => attempt_steps(cache).len() as int,
    }
}

/// Whether one attempt runs all of its steps without a failure.
pub open spec fn attempt_ok(cache: CacheState, results: Seq<bool>) -> bool {
    first_failure_before(results, attempt_steps(cache).len() as int) is None
}

/// The steps one attempt actually executes: it stops at the first failure.
pub open spec fn attempt_trace(cache: CacheState, results: Seq<bool>) -> Seq<PipelineStep> {
    attempt_steps(cache).take(attempt_used(cache, results))
}

proof fn lemma_first_failure_in_range(results: Seq<bool>, max: int)
    ensures
        first_failure_before(results, max) matches Some(i) ==> 0 <= i < max,
    decreases max,
{
    if max > 0 {
        lemma_first_failure_in_range(results, max - 1);
    }
}

/// An attempt consumes between zero and all of its steps.
pub proof fn lemma_attempt_used_bounds(cache: CacheState, results: Seq<bool>)
    ensures
        0 <= attempt_used(cache, results) <= attempt_steps(cache).len(),
{
    lemma_first_failure_in_range(results, attempt_steps(cache).len() as int);
}

/// Runs one pipeline attempt against a fixed schedule of step results,
/// starting at `results[start]`: each step in order, stopping at the first
/// failure.
fn run_attempt(cache: CacheState, results: &Vec<bool>, start: usize) -> (r: (
    Vec<PipelineStep>,
    usize,
    bool,
))
    requires
        results@.len() >= start + 4,
    ensures
        r.0@ == attempt_trace(cache, results@.skip(start as int)),
        r.1 == attempt_used(cache, results@.skip(start as int)),
        r.2 == attempt_ok(cache, results@.skip(start as int)),
        r.1 <= 4,
{
    let steps = steps_for(cache);
    let n = steps.len();
    let len = results.len();
    let ghost rs = results@.skip(start as int);
    let mut executed: Vec<PipelineStep> = Vec::new();
    let mut i: usize = 0;
    while i < n
        invariant
            i <= n == attempt_steps(cache).len(),
            n <= 4,
            steps@ == attempt_steps(cache),
            executed@ == attempt_steps(cache).take(i as int),
            first_failure_before(rs, i as int) is None,
            rs == results@.skip(start as int),
            len == results@.len(),
            len >= start + 4,
        decreases n - i,
    {
        let step = steps[i];
        executed.push(step);
        assert(executed@ =~= attempt_steps(cache).take(i + 1));
        let ok = results[start + i];
        assert(ok == rs[i as int]);
        if !ok {
            assert(first_failure_before(rs, i + 1) == Some(i as int));
            proof {
                lemma_first_failure_extend(rs, i + 1, n as int);
            }
            return (executed, i + 1, false);
        }
        i += 1;
    }
    (executed, n, true)
}

proof fn lemma_first_failure_extend(results: Seq<bool>, m1: int, m2: int)
    requires
        m1 <= m2,
        first_failure_before(results, m1) is Some,
    ensures
        first_failure_before(results, m2) == first_failure_before(results, m1),
    decreases m2,
{
    if m1 < m2 {
        lemma_first_failure_extend(results, m1, m2 - 1);
    }
}

/// What one acquisition did: the pipeline steps it executed, in order, and
/// whether it ended with a session.
pub struct AcquireTrace {
    pub steps: Vec<PipelineStep>,
    pub success: bool,
}

/// Whether acquisition succeeds against a fixed schedule of step results:
/// either the first attempt runs clean, or the retried-from-scratch second
/// one does.
pub open spec fn acquire_ok(cache: CacheState, results: Seq<bool>) -> bool {
    attempt_ok(cache, results) || attempt_ok(
        CacheState::Missing,
        results.skip(attempt_used(cache, results)),
    )
}

/// The steps an acquisition executes: the first attempt; then, only if it
/// failed, the deletion of both cached executables followed by a second
/// attempt from scratch. There is no third attempt.
pub open spec fn acquire_steps(cache: CacheState, results: Seq<bool>) -> Seq<PipelineStep> {
    if attempt_ok(cache, results) {
        attempt_trace(cache, results)
    } else {
        attempt_trace(cache, results) + seq![PipelineStep::DeleteCached] + attempt_trace(
            CacheState::Missing,
            results.skip(attempt_used(cache, results)),
        )
    }
}

/// Drives a whole acquisition against a fixed schedule of step results
/// (`results` holds one outcome per executed fallible step, in order): one
/// pipeline attempt from the given cache state; on its failure, one
/// destructive retry that deletes the cached executables before fetching
/// afresh; no further retries.
pub fn run_acquire(raw_present: bool, patched_present: bool, results: &Vec<bool>) -> (r:
    AcquireTrace)
    requires
        results@.len() >= 8,
    ensures
        r.success == acquire_ok(cache_state_of(raw_present, patched_present), results@),
        r.steps@ == acquire_steps(cache_state_of(raw_present, patched_present), results@),
{
    let cache = cache_state(raw_present, patched_present);
    proof {
        assert(results@.skip(0) =~= results@);
    }
    let (mut steps, used, ok1) = run_attempt(cache, results, 0);
    if ok1 {
        return AcquireTrace { steps, success: true };
    }
    steps.push(PipelineStep::DeleteCached);
    let (mut steps2, _used2, ok2) = run_attempt(CacheState::Missing, results, used);
    steps.append(&mut steps2);
    assert(steps@ =~= acquire_steps(cache_state_of(raw_present, patched_present), results@));
    AcquireTrace { steps, success: ok2 }
}

/// Destructive retry: when the first full pipeline attempt fails and the
/// retried pipeline succeeds, acquisition succeeds as a whole, and both
/// cached executables are deleted after the failed attempt and before the
/// second attempt's fresh fetch — never leaving two conflicting binaries
/// behind.
pub proof fn lemma_destructive_retry(cache: CacheState, results: Seq<bool>)
    requires
        !attempt_ok(cache, results),
        attempt_ok(CacheState::Missing, results.skip(attempt_used(cache, results))),
    ensures
        acquire_ok(cache, results),
        acquire_steps(cache, results) == attempt_trace(cache, results) + seq![
            PipelineStep::DeleteCached,
        ] + attempt_steps(CacheState::Missing),
        acquire_steps(cache, results)[attempt_trace(cache, results).len() as int]
            == PipelineStep::DeleteCached,
        acquire_steps(cache, results)[attempt_trace(cache, results).len() as int + 1]
            == PipelineStep::Fetch,
{
    let used = attempt_used(cache, results);
    let rest = results.skip(used);
    lemma_attempt_used_bounds(cache, results);
    assert(attempt_trace(CacheState::Missing, rest) =~= attempt_steps(CacheState::Missing));
    let t1 = attempt_trace(cache, results);
    let whole = acquire_steps(cache, results);
    assert(whole == t1 + seq![PipelineStep::DeleteCached] + attempt_steps(CacheState::Missing));
    assert(whole[t1.len() as int] == PipelineStep::DeleteCached);
    assert(whole[t1.len() as int + 1] == attempt_steps(CacheState::Missing)[0]);
}

} // verus!
