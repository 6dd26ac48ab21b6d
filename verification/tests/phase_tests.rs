use mythos_harness::{LoopStrategy, Phase, RunStatus};

#[test]
fn phase_all_lists_phases_in_loop_order() {
    assert_eq!(
        Phase::all(),
        &[Phase::Interrogate, Phase::Contract, Phase::Execute, Phase::Finish]
    );
}

#[test]
fn phase_next_steps_forward() {
    assert_eq!(Phase::Interrogate.next(), Some(Phase::Contract));
    assert_eq!(Phase::Contract.next(), Some(Phase::Execute));
    assert_eq!(Phase::Execute.next(), Some(Phase::Finish));
    assert_eq!(Phase::Finish.next(), None);
}

#[test]
fn phase_previous_steps_back() {
    assert_eq!(Phase::Interrogate.previous(), None);
    assert_eq!(Phase::Contract.previous(), Some(Phase::Interrogate));
    assert_eq!(Phase::Execute.previous(), Some(Phase::Contract));
    assert_eq!(Phase::Finish.previous(), Some(Phase::Execute));
}

#[test]
fn phase_next_and_previous_are_inverse() {
    for p in Phase::all() {
        if let Some(q) = p.next() {
            assert_eq!(q.previous(), Some(*p));
        }
        if let Some(q) = p.previous() {
            assert_eq!(q.next(), Some(*p));
        }
    }
}

#[test]
fn phase_next_walks_all_in_order() {
    let mut walked = vec![Phase::Interrogate];
    let mut cur = Phase::Interrogate;
    while let Some(n) = cur.next() {
        walked.push(n);
        cur = n;
    }
    assert_eq!(walked.as_slice(), Phase::all());
}

#[test]
fn status_and_strategy_compare_by_value() {
    assert_eq!(RunStatus::Completed, RunStatus::Completed);
    assert_ne!(RunStatus::Completed, RunStatus::Failed);
    assert_eq!(LoopStrategy::FixedIterations(3), LoopStrategy::FixedIterations(3));
    assert_ne!(LoopStrategy::FixedIterations(3), LoopStrategy::FixedIterations(4));
}
