use vstd::prelude::*;

use crate::phase::{LoopStrategy, Phase};
use crate::types::HarnessConfig;

verus! {

/// Why a run stopped looping.
#[derive(Debug, Clone, Copy, PartialEq, Eq, Structural)]
pub enum StopReason {
    /// The global timeout of the run was reached
    GlobalTimeout,
    /// The iteration limit was reached
    MaxIterations,
    /// Every configured phase has run and the loop does not go round again
    PhasesDone,
    /// Under finish-first, the current phase failed as often as a phase may run
    PhaseAttemptsExhausted,
}

/// What the engine does next.
#[derive(Debug, Clone, Copy, PartialEq, Eq, Structural)]
pub enum LoopAction {
    /// Execute this phase, then report its outcome with `phase_finished`
    RunPhase(Phase),
    /// All phases have run under the finish-first strategy: ask whether the
    /// last result calls for another round, then report with `loop_back`
    DecideContinue,
    /// Stop the loop
    Stop(StopReason),
}

/// The state of the phase loop of a run.
pub struct LoopModel {
    pub strategy: LoopStrategy,
    pub phases: Seq<Phase>,
    /// The number of rounds a run may make
    pub max_iterations: nat,
    /// The number of times one phase may run in a row under finish-first
    pub max_attempts: nat,
    /// The position of the next phase in the phase list
    pub phase_idx: nat,
    /// The number of completed rounds that were followed by another
    pub iteration: nat,
    /// How often the current phase has failed in a row
    pub attempts: nat,
}

/// The iteration limit of a run: the count of a fixed-iterations strategy,
/// the configured maximum otherwise.
pub open spec fn iteration_limit(strategy: LoopStrategy, configured: u32) -> u32 {
    match strategy {
        LoopStrategy::FixedIterations(n) => n,
        _ => configured,
    }
}

/// How often one phase may run in a row: the configured maximum iterations
/// per phase, and no more than one run plus the agent's maximum retries.
pub open spec fn attempt_limit(configured: u32, max_retries: u32) -> nat {
    if (max_retries as nat) < (configured as nat) {
        (max_retries + 1) as nat
    } else {
        configured as nat
    }
}

/// The loop state a run starts in.
pub open spec fn initial_model(config: HarnessConfig, max_retries: u32) -> LoopModel {
    LoopModel {
        strategy: config.loop_strategy,
        phases: config.phases@,
        max_iterations: iteration_limit(config.loop_strategy, config.max_iterations) as nat,
        max_attempts: attempt_limit(config.max_iterations, max_retries),
        phase_idx: 0,
        iteration: 0,
        attempts: 0,
    }
}

/// The phase position never passes the end of the phase list, the iteration
/// count never passes the limit, and neither does the count of failures.
pub open spec fn loop_wf(m: LoopModel) -> bool {
    &&& m.phase_idx <= m.phases.len()
    &&& m.iteration <= m.max_iterations
    &&& m.attempts <= m.max_attempts
}

/// The next action in loop state `m`, given whether the global timeout has
/// been reached and whether any phase result has been recorded.
pub open spec fn action_of(m: LoopModel, timed_out: bool, has_last_result: bool) -> LoopAction {
    if timed_out {
        LoopAction::Stop(StopReason::GlobalTimeout)
    } else if m.iteration >= m.max_iterations {
        LoopAction::Stop(StopReason::MaxIterations)
    } else if m.phase_idx >= m.phases.len() {
        if m.strategy == LoopStrategy::FinishFirst && has_last_result {
            LoopAction::DecideContinue
        } else {
            LoopAction::Stop(StopReason::PhasesDone)
        }
    } else if m.strategy == LoopStrategy::FinishFirst && m.attempts >= m.max_attempts {
        LoopAction::Stop(StopReason::PhaseAttemptsExhausted)
    } else {
        LoopAction::RunPhase(m.phases[m.phase_idx as int])
    }
}

/// The strategy runs a fixed number of rounds.
pub open spec fn is_fixed(strategy: LoopStrategy) -> bool {
    strategy matches LoopStrategy::FixedIterations(_)
}

/// The loop state after the current phase finished. Under finish-first a
/// failed phase is run again, one failure more counted. Otherwise the loop
/// moves to the next phase; under a fixed number of iterations the end of
/// the phase list starts the next round at the first phase.
pub open spec fn after_phase(m: LoopModel, success: bool) -> LoopModel {
    if !success && m.strategy == LoopStrategy::FinishFirst {
        LoopModel { attempts: m.attempts + 1, ..m }
    } else if is_fixed(m.strategy) && m.phase_idx + 1 >= m.phases.len() {
        LoopModel { phase_idx: 0, iteration: m.iteration + 1, attempts: 0, ..m }
    } else {
        LoopModel { phase_idx: m.phase_idx + 1, attempts: 0, ..m }
    }
}

/// The loop state after deciding whether to go round again: a new round
/// starts at the first phase and counts one more iteration.
pub open spec fn after_decision(m: LoopModel, go_on: bool) -> LoopModel {
    if go_on {
        LoopModel { phase_idx: 0, iteration: m.iteration + 1, attempts: 0, ..m }
    } else {
        m
    }
}

/// The loop state after a run of phases with the given outcomes, none of
/// which reached a decision to go round again.
pub open spec fn after_phases(m: LoopModel, outcomes: Seq<bool>) -> LoopModel
    decreases outcomes.len(),
{
    if outcomes.len() == 0 {
        m
    } else {
        after_phase(after_phases(m, outcomes.drop_last()), outcomes.last())
    }
}

/// The decision state machine of a harness run: which phase to run next,
/// when to go round again, and when to stop.
pub struct RunLoop {
    strategy: LoopStrategy,
    phases: Vec<Phase>,
    max_iterations: u32,
    max_attempts: u32,
    phase_idx: usize,
    iteration: u32,
    attempts: u32,
}

impl View for RunLoop {
    type V = LoopModel;

    closed spec fn view(&self) -> LoopModel {
        LoopModel {
            strategy: self.strategy,
            phases: self.phases@,
            max_iterations: self.max_iterations as nat,
            max_attempts: self.max_attempts as nat,
            phase_idx: self.phase_idx as nat,
            iteration: self.iteration as nat,
            attempts: self.attempts as nat,
        }
    }
}

impl RunLoop {
    #[verifier::type_invariant]
    spec fn inv(self) -> bool {
        &&& self.phase_idx <= self.phases@.len()
        &&& self.iteration <= self.max_iterations
        &&& self.attempts <= self.max_attempts
    }

    /// The loop state at the start of a run with this configuration, for an
    /// agent that retries a failed phase at most `max_retries` times.
    pub fn new(config: &HarnessConfig, max_retries: u32) -> (r: Self)
        ensures
            r@ == initial_model(*config, max_retries),
    {
        let max_iterations = match config.loop_strategy {
            LoopStrategy::FixedIterations(n) => n,
            _ => config.max_iterations,
        };
        let max_attempts = if max_retries < config.max_iterations {
            max_retries + 1
        } else {
            config.max_iterations
        };
        let mut phases: Vec<Phase> = Vec::new();
        let mut i: usize = 0;
        while i < config.phases.len()
            invariant
                i <= config.phases@.len(),
                phases@ == config.phases@.take(i as int),
            decreases config.phases@.len() - i,
        {
            phases.push(config.phases[i]);
            i = i + 1;
            assert(phases@ =~= config.phases@.take(i as int));
        }
        assert(phases@ =~= config.phases@);
        RunLoop {
            strategy: config.loop_strategy,
            phases,
            max_iterations,
            max_attempts,
            phase_idx: 0,
            iteration: 0,
            attempts: 0,
        }
    }

    /// The position of the next phase in the phase list.
    pub fn phase_index(&self) -> (r: usize)
        ensures
            r == self@.phase_idx,
    {
        self.phase_idx
    }

    /// The number of completed rounds that were followed by another.
    pub fn iteration(&self) -> (r: u32)
        ensures
            r == self@.iteration,
    {
        self.iteration
    }

    /// The iteration limit of the run.
    pub fn max_iterations(&self) -> (r: u32)
        ensures
            r == self@.max_iterations,
    {
        self.max_iterations
    }

    /// How often the current phase has failed in a row.
    pub fn attempts(&self) -> (r: u32)
        ensures
            r == self@.attempts,
    {
        self.attempts
    }

    /// What to do next.
    pub fn next_action(&self, global_timeout_reached: bool, has_last_result: bool) -> (r:
        LoopAction)
        ensures
            r == action_of(self@, global_timeout_reached, has_last_result),
    {
        if global_timeout_reached {
            LoopAction::Stop(StopReason::GlobalTimeout)
        } else if self.iteration >= self.max_iterations {
            LoopAction::Stop(StopReason::MaxIterations)
        } else if self.phase_idx >= self.phases.len() {
            if self.strategy == LoopStrategy::FinishFirst && has_last_result {
                LoopAction::DecideContinue
            } else {
                LoopAction::Stop(StopReason::PhasesDone)
            }
        } else if self.strategy == LoopStrategy::FinishFirst && self.attempts >= self.max_attempts {
            LoopAction::Stop(StopReason::PhaseAttemptsExhausted)
        } else {
            LoopAction::RunPhase(self.phases[self.phase_idx])
        }
    }

    /// Whether a phase is due (the last action was `RunPhase`).
    pub fn has_pending_phase(&self) -> (r: bool)
        ensures
            r == (self@.phase_idx < self@.phases.len()),
    {
        self.phase_idx < self.phases.len()
    }

    /// Report the outcome of the phase that `RunPhase` named.
    pub fn phase_finished(&mut self, success: bool)
        requires
            action_of(old(self)@, false, true) is RunPhase,
        ensures
            final(self)@ == after_phase(old(self)@, success),
    {
        proof {
            use_type_invariant(&*self);
        }
        let n = self.phases.len();
        if !success && self.strategy == LoopStrategy::FinishFirst {
            self.attempts = self.attempts + 1;
        } else {
            let fixed = match self.strategy {
                LoopStrategy::FixedIterations(_) => true,
                _ => false,
            };
            if fixed && self.phase_idx + 1 >= n {
                self.phase_idx = 0;
                self.iteration = self.iteration + 1;
            } else {
                self.phase_idx = self.phase_idx + 1;
            }
            self.attempts = 0;
        }
    }

    /// Report whether the last result calls for another round, after
    /// `DecideContinue`; returns whether the loop goes on.
    pub fn loop_back(&mut self, should_continue: bool) -> (r: bool)
        requires
            action_of(old(self)@, false, true) == LoopAction::DecideContinue,
        ensures
            r == should_continue,
            final(self)@ == after_decision(old(self)@, should_continue),
    {
        proof {
            use_type_invariant(&*self);
        }
        if should_continue {
            self.phase_idx = 0;
            self.iteration = self.iteration + 1;
            self.attempts = 0;
        }
        should_continue
    }
}

/// Every step of the loop keeps it well formed: the phase position stays
/// within the phase list and the counts within their limits.
pub proof fn lemma_loop_stays_well_formed(
    m: LoopModel,
    timed_out: bool,
    has_last_result: bool,
    outcome: bool,
)
    requires
        loop_wf(m),
    ensures
        action_of(m, timed_out, has_last_result) is RunPhase ==> loop_wf(after_phase(m, outcome)),
        action_of(m, timed_out, has_last_result) is DecideContinue ==> loop_wf(
            after_decision(m, outcome),
        ),
{
}

/// The loop never goes past its bounds: it stops on the global timeout and
/// at the iteration limit, under finish-first it stops a phase that failed
/// as often as a phase may run, and it only runs a phase that the phase
/// list holds.
pub proof fn lemma_loop_respects_bounds(m: LoopModel, timed_out: bool, has_last_result: bool)
    requires
        loop_wf(m),
    ensures
        !timed_out && m.iteration >= m.max_iterations ==> action_of(m, timed_out, has_last_result)
            == LoopAction::Stop(StopReason::MaxIterations),
        timed_out ==> action_of(m, timed_out, has_last_result) == LoopAction::Stop(
            StopReason::GlobalTimeout,
        ),
        action_of(m, timed_out, has_last_result) matches LoopAction::RunPhase(p) ==> {
            &&& m.phase_idx < m.phases.len()
            &&& p == m.phases[m.phase_idx as int]
            &&& m.iteration < m.max_iterations
            &&& (m.strategy == LoopStrategy::FinishFirst ==> m.attempts < m.max_attempts)
        },
        action_of(m, timed_out, has_last_result) is DecideContinue ==> m.strategy
            == LoopStrategy::FinishFirst && m.iteration < m.max_iterations,
{
}

/// Each step makes progress: a finished phase (or, outside finish-first,
/// any phase) moves the position forward or starts the next round, and a
/// decision to go on raises the iteration count toward the limit. Under
/// finish-first a failed phase stays due, with one more failure counted.
pub proof fn lemma_loop_progress(m: LoopModel, timed_out: bool, has_last_result: bool)
    requires
        loop_wf(m),
    ensures
        action_of(m, timed_out, has_last_result) is RunPhase && !is_fixed(m.strategy) ==> {
            &&& after_phase(m, true).phase_idx == m.phase_idx + 1
            &&& after_phase(m, true).iteration == m.iteration
        },
        action_of(m, timed_out, has_last_result) is RunPhase && m.strategy
            != LoopStrategy::FinishFirst ==> after_phase(m, false) == after_phase(m, true),
        action_of(m, timed_out, has_last_result) is RunPhase && m.strategy
            == LoopStrategy::FinishFirst ==> after_phase(m, false) == (LoopModel {
            attempts: m.attempts + 1,
            ..m
        }),
        action_of(m, timed_out, has_last_result) is DecideContinue ==> {
            &&& after_decision(m, true).iteration == m.iteration + 1
            &&& after_decision(m, true).iteration <= m.max_iterations
            &&& after_decision(m, true).phase_idx == 0
            &&& after_decision(m, false) == m
        },
{
}

/// The loop state after `k` failures in a row of the current phase under
/// finish-first.
pub open spec fn failures(k: nat) -> Seq<bool> {
    Seq::new(k, |i: int| false)
}

proof fn lemma_after_failures(m: LoopModel, k: nat)
    requires
        m.strategy == LoopStrategy::FinishFirst,
    ensures
        after_phases(m, failures(k)) == (LoopModel { attempts: m.attempts + k, ..m }),
    decreases k,
{
    if k > 0 {
        assert(failures(k).drop_last() =~= failures((k - 1) as nat));
        lemma_after_failures(m, (k - 1) as nat);
    }
}

/// Under finish-first a failed phase is retried, but no phase runs more
/// often in a row than the attempt limit (the maximum iterations per phase,
/// and at most one run plus the maximum retries): after each failure the
/// same phase is due again until it has failed that many times, and then
/// the loop stops.
pub proof fn lemma_finish_first_retries_within_limit(m: LoopModel, has_last_result: bool, p: Phase, k: nat)
    requires
        loop_wf(m),
        m.strategy == LoopStrategy::FinishFirst,
        action_of(m, false, has_last_result) == LoopAction::RunPhase(p),
    ensures
        m.attempts + k < m.max_attempts ==> action_of(
            after_phases(m, failures(k)),
            false,
            has_last_result,
        ) == LoopAction::RunPhase(p),
        m.attempts + k == m.max_attempts ==> action_of(
            after_phases(m, failures(k)),
            false,
            has_last_result,
        ) == LoopAction::Stop(StopReason::PhaseAttemptsExhausted),
{
    lemma_after_failures(m, k);
}

/// A successful phase leaves no failure behind: the phase after it starts
/// with a failure count of zero. Under finish-first the next phase of the
/// round is then due, and it may run as often in a row as the attempt limit
/// allows whatever earlier phases did: after `k` failures of it the same
/// phase is due again as long as `k` is below the limit.
pub proof fn lemma_success_starts_next_phase_afresh(
    m: LoopModel,
    has_last_result: bool,
    k: nat,
)
    requires
        loop_wf(m),
        action_of(m, false, has_last_result) is RunPhase,
    ensures
        after_phase(m, true).attempts == 0,
        m.strategy == LoopStrategy::FinishFirst && m.phase_idx + 1 < m.phases.len() ==> action_of(
            after_phase(m, true),
            false,
            has_last_result,
        ) == LoopAction::RunPhase(m.phases[m.phase_idx + 1 as int]),
        m.strategy == LoopStrategy::FinishFirst && m.phase_idx + 1 < m.phases.len() && k
            < m.max_attempts ==> action_of(
            after_phases(after_phase(m, true), failures(k)),
            false,
            has_last_result,
        ) == LoopAction::RunPhase(m.phases[m.phase_idx + 1 as int]),
{
    if m.strategy == LoopStrategy::FinishFirst {
        lemma_after_failures(after_phase(m, true), k);
    }
}

/// With the default attempt limit a phase runs at most as often in a row as
/// the configured maximum iterations per phase, and at most one time more
/// than the agent's maximum retries.
pub proof fn lemma_attempt_limit_bounds(config: HarnessConfig, max_retries: u32)
    ensures
        initial_model(config, max_retries).max_attempts <= config.max_iterations,
        initial_model(config, max_retries).max_attempts <= max_retries + 1,
        config.loop_strategy == LoopStrategy::FinishFirst ==> initial_model(
            config,
            max_retries,
        ).max_attempts <= initial_model(config, max_retries).max_iterations,
        initial_model(config, max_retries).max_attempts == config.max_iterations
            || initial_model(config, max_retries).max_attempts == max_retries + 1,
        config.loop_strategy == LoopStrategy::FinishFirst ==> initial_model(
            config,
            max_retries,
        ).max_iterations == config.max_iterations,
        config.loop_strategy == LoopStrategy::SinglePass ==> initial_model(
            config,
            max_retries,
        ).max_iterations == config.max_iterations,
        initial_model(config, max_retries).phase_idx == 0,
        initial_model(config, max_retries).iteration == 0,
        initial_model(config, max_retries).attempts == 0,
        initial_model(config, max_retries).phases == config.phases@,
{
}

/// Under finish-first, once every phase of a round has run, the loop asks
/// whether to go on; going on starts a new round at the first phase.
pub proof fn lemma_finish_first_goes_round_again(m: LoopModel)
    requires
        loop_wf(m),
        m.strategy == LoopStrategy::FinishFirst,
        m.phase_idx == m.phases.len(),
        m.iteration < m.max_iterations,
        m.attempts == 0,
        m.max_attempts > 0,
    ensures
        action_of(m, false, true) == LoopAction::DecideContinue,
        action_of(m, false, false) == LoopAction::Stop(StopReason::PhasesDone),
        m.iteration + 1 < m.max_iterations && m.phases.len() > 0 ==> action_of(
            after_decision(m, true),
            false,
            true,
        ) == LoopAction::RunPhase(m.phases[0]),
        action_of(after_decision(m, false), false, true) == LoopAction::DecideContinue,
{
}

proof fn lemma_after_phases_single(m: LoopModel, outcomes: Seq<bool>)
    requires
        m.strategy == LoopStrategy::SinglePass,
    ensures
        after_phases(m, outcomes) == (LoopModel {
            phase_idx: m.phase_idx + outcomes.len(),
            attempts: if outcomes.len() == 0 { m.attempts } else { 0 },
            ..m
        }),
    decreases outcomes.len(),
{
    if outcomes.len() > 0 {
        lemma_after_phases_single(m, outcomes.drop_last());
    }
}

/// A single pass: with the single-pass strategy and an iteration limit above
/// zero, a run that does not time out executes the configured phases once
/// each, in their order, whatever their outcomes, and then stops because the
/// phases are done.
pub proof fn lemma_single_pass(
    config: HarnessConfig,
    max_retries: u32,
    outcomes: Seq<bool>,
    has_last_result: bool,
)
    requires
        config.loop_strategy == LoopStrategy::SinglePass,
        config.max_iterations > 0,
        outcomes.len() <= config.phases@.len(),
    ensures
        outcomes.len() < config.phases@.len() ==> action_of(
            after_phases(initial_model(config, max_retries), outcomes),
            false,
            has_last_result,
        ) == LoopAction::RunPhase(config.phases@[outcomes.len() as int]),
        outcomes.len() == config.phases@.len() ==> action_of(
            after_phases(initial_model(config, max_retries), outcomes),
            false,
            has_last_result,
        ) == LoopAction::Stop(StopReason::PhasesDone),
{
    lemma_after_phases_single(initial_model(config, max_retries), outcomes);
}

proof fn lemma_after_phases_fixed(m: LoopModel, outcomes: Seq<bool>)
    requires
        is_fixed(m.strategy),
        m.phases.len() > 0,
        m.phase_idx == 0,
        m.iteration == 0,
        m.attempts == 0,
    ensures
        after_phases(m, outcomes) == (LoopModel {
            phase_idx: outcomes.len() % m.phases.len(),
            iteration: outcomes.len() / m.phases.len(),
            attempts: 0,
            ..m
        }),
    decreases outcomes.len(),
{
    let len = m.phases.len() as int;
    let k = outcomes.len() as int;
    if k == 0 {
        vstd::arithmetic::div_mod::lemma_fundamental_div_mod_converse(0, len, 0, 0);
    } else {
        lemma_after_phases_fixed(m, outcomes.drop_last());
        let q = (k - 1) / len;
        let r = (k - 1) % len;
        vstd::arithmetic::div_mod::lemma_fundamental_div_mod(k - 1, len);
        assert(0 <= r < len) by {
            vstd::arithmetic::div_mod::lemma_mod_bound(k - 1, len);
        }
        assert(q >= 0) by {
            vstd::arithmetic::div_mod::lemma_div_pos_is_pos(k - 1, len);
        }
        assert(k - 1 == q * len + r) by (nonlinear_arith)
            requires
                k - 1 == len * q + r,
        ;
        if r + 1 >= len {
            assert(k == (q + 1) * len + 0) by (nonlinear_arith)
                requires
                    k - 1 == q * len + r,
                    r + 1 == len,
            ;
            vstd::arithmetic::div_mod::lemma_fundamental_div_mod_converse(k, len, q + 1, 0);
        } else {
            vstd::arithmetic::div_mod::lemma_fundamental_div_mod_converse(k, len, q, r + 1);
        }
    }
}

/// A fixed number of iterations: with `FixedIterations(n)` and a phase list
/// of `L` phases, a run that does not time out executes the phase list `n`
/// times, in order, whatever the outcomes: after `k < n * L` phases the
/// phase at position `k % L` of round `k / L` is due, and after `n * L`
/// phases the loop stops at the iteration limit.
pub proof fn lemma_fixed_iterations(
    config: HarnessConfig,
    max_retries: u32,
    n: u32,
    outcomes: Seq<bool>,
    has_last_result: bool,
)
    requires
        config.loop_strategy == LoopStrategy::FixedIterations(n),
        config.phases@.len() > 0,
        outcomes.len() <= n * config.phases@.len(),
    ensures
        outcomes.len() < n * config.phases@.len() ==> action_of(
            after_phases(initial_model(config, max_retries), outcomes),
            false,
            has_last_result,
        ) == LoopAction::RunPhase(config.phases@[(outcomes.len() % config.phases@.len()) as int]),
        outcomes.len() == n * config.phases@.len() ==> action_of(
            after_phases(initial_model(config, max_retries), outcomes),
            false,
            has_last_result,
        ) == LoopAction::Stop(StopReason::MaxIterations),
{
    let m = initial_model(config, max_retries);
    let len = config.phases@.len() as int;
    let k = outcomes.len() as int;
    lemma_after_phases_fixed(m, outcomes);
    vstd::arithmetic::div_mod::lemma_mod_bound(k, len);
    if k < n * len {
        vstd::arithmetic::div_mod::lemma_fundamental_div_mod(k, len);
        assert(k / len < n) by (nonlinear_arith)
            requires
                k == len * (k / len) + k % len,
                0 <= k % len,
                k < n * len,
                len > 0,
        ;
    } else {
        vstd::arithmetic::div_mod::lemma_fundamental_div_mod_converse(k, len, n as int, 0);
    }
}

} // verus!
