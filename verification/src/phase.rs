use vstd::prelude::*;

verus! {

/// Phase in the finish-first loop.
#[derive(Debug, Clone, Copy, PartialEq, Eq, Hash, Structural)]
pub enum Phase {
    /// Interrogate - understand the task and context
    Interrogate,
    /// Contract - define the success criteria and plan
    Contract,
    /// Execute - perform the work
    Execute,
    /// Finish - verify completion and deliver results
    Finish,
}

/// The phases in loop order.
pub open spec fn phase_order() -> Seq<Phase> {
    seq![Phase::Interrogate, Phase::Contract, Phase::Execute, Phase::Finish]
}

/// The position of a phase in the loop order.
pub open spec fn phase_index(p: Phase) -> int {
    match p {
        Phase::Interrogate => 0,
        Phase::Contract => 1,
        Phase::Execute => 2,
        Phase::Finish => 3,
    }
}

/// The phase that follows `p` in the loop, if any.
pub open spec fn next_phase(p: Phase) -> Option<Phase> {
    if phase_index(p) < 3 {
        Some(phase_order()[phase_index(p) + 1])
    } else {
        None
    }
}

/// The phase that precedes `p` in the loop, if any.
pub open spec fn previous_phase(p: Phase) -> Option<Phase> {
    if phase_index(p) > 0 {
        Some(phase_order()[phase_index(p) - 1])
    } else {
        None
    }
}

impl Phase {
    /// Get all phases in order.
    pub fn all() -> (r: &'static [Phase])
        ensures
            r@ == phase_order(),
    {
        let r: &'static [Phase] = &[Phase::Interrogate, Phase::Contract, Phase::Execute, Phase::Finish];
        r
    }

    /// Get the next phase.
    pub fn next(&self) -> (r: Option<Phase>)
        ensures
            r == next_phase(*self),
    {
        match self {
            Phase::Interrogate => Some(Phase::Contract),
            Phase::Contract => Some(Phase::Execute),
            Phase::Execute => Some(Phase::Finish),
            Phase::Finish => None,
        }
    }

    /// Get the previous phase.
    pub fn previous(&self) -> (r: Option<Phase>)
        ensures
            r == previous_phase(*self),
    {
        match self {
            Phase::Interrogate => None,
            Phase::Contract => Some(Phase::Interrogate),
            Phase::Execute => Some(Phase::Contract),
            Phase::Finish => Some(Phase::Execute),
        }
    }
}

/// The loop order lists each phase exactly once, at its own position.
pub proof fn lemma_phase_order_lists_each_phase_once(p: Phase)
    ensures
        phase_order().len() == 4,
        0 <= phase_index(p) < 4,
        phase_order()[phase_index(p)] == p,
        forall|i: int| 0 <= i < 4 && #[trigger] phase_order()[i] == p ==> i == phase_index(p),
{
}

/// Stepping forward then back, or back then forward, returns to the same
/// phase: `next` and `previous` are inverse wherever they are defined.
pub proof fn lemma_next_previous_inverse(p: Phase, q: Phase)
    ensures
        next_phase(p) == Some(q) <==> previous_phase(q) == Some(p),
{
}

/// `next` walks the loop order one position at a time: it starts at
/// Interrogate, only Finish has no successor, and only Interrogate has no
/// predecessor.
pub proof fn lemma_next_walks_the_order(i: int)
    requires
        0 <= i < 4,
    ensures
        i < 3 ==> next_phase(phase_order()[i]) == Some(phase_order()[i + 1]),
        i == 3 ==> next_phase(phase_order()[i]) is None,
        i > 0 ==> previous_phase(phase_order()[i]) == Some(phase_order()[i - 1]),
        i == 0 ==> previous_phase(phase_order()[i]) is None,
        phase_order()[0] == Phase::Interrogate,
        phase_order()[3] == Phase::Finish,
{
}

/// Status of a harness run.
#[derive(Debug, Clone, Copy, PartialEq, Eq, Structural)]
pub enum RunStatus {
    /// Run is pending
    Pending,
    /// Run is in progress
    Running,
    /// Run completed successfully
    Completed,
    /// Run failed
    Failed,
    /// Run was cancelled
    Cancelled,
}

/// Loop execution strategy.
#[derive(Debug, Clone, Copy, PartialEq, Eq, Structural)]
pub enum LoopStrategy {
    /// Finish-first: iterate until success criteria met
    FinishFirst,
    /// Single pass through all phases
    SinglePass,
    /// Fixed number of iterations
    FixedIterations(u32),
}

} // verus!
