use mythos_harness::{HarnessConfig, LoopAction, LoopStrategy, Phase, RunLoop, StopReason};

fn config(strategy: LoopStrategy, max: u32) -> HarnessConfig {
    let mut c = HarnessConfig::default();
    c.loop_strategy = strategy;
    c.max_iterations = max;
    c
}

#[test]
fn single_pass_runs_each_phase_once_whatever_the_outcome() {
    let c = config(LoopStrategy::SinglePass, 10);
    let mut lp = RunLoop::new(&c, 3);
    let mut ran = Vec::new();
    let outcomes = [true, false, true, false];
    let mut k = 0;
    loop {
        match lp.next_action(false, k > 0) {
            LoopAction::RunPhase(p) => {
                ran.push(p);
                lp.phase_finished(outcomes[k]);
                k += 1;
            }
            LoopAction::Stop(reason) => {
                assert_eq!(reason, StopReason::PhasesDone);
                break;
            }
            LoopAction::DecideContinue => panic!("single pass never loops back"),
        }
    }
    assert_eq!(ran, c.phases);
}

#[test]
fn fixed_iterations_goes_round_the_given_number_of_times() {
    let c = config(LoopStrategy::FixedIterations(2), 10);
    let mut lp = RunLoop::new(&c, 3);
    assert_eq!(lp.max_iterations(), 2);
    let mut ran = Vec::new();
    let mut count = 0;
    while let LoopAction::RunPhase(p) = lp.next_action(false, count > 0) {
        ran.push(p);
        lp.phase_finished(count % 3 != 0);
        count += 1;
    }
    assert_eq!(count, 8);
    let mut twice = c.phases.clone();
    twice.extend(c.phases.iter().copied());
    assert_eq!(ran, twice);
    assert_eq!(lp.next_action(false, true), LoopAction::Stop(StopReason::MaxIterations));
}

#[test]
fn finish_first_stops_a_phase_at_the_iteration_limit_per_phase() {
    let c = config(LoopStrategy::FinishFirst, 1);
    let mut lp = RunLoop::new(&c, 3);
    assert_eq!(lp.next_action(false, false), LoopAction::RunPhase(Phase::Interrogate));
    lp.phase_finished(false);
    assert_eq!(lp.attempts(), 1);
    assert_eq!(
        lp.next_action(false, true),
        LoopAction::Stop(StopReason::PhaseAttemptsExhausted)
    );
}

#[test]
fn finish_first_retries_at_most_max_retries_times() {
    let c = config(LoopStrategy::FinishFirst, 10);
    let mut lp = RunLoop::new(&c, 3);
    let mut runs = 0;
    while let LoopAction::RunPhase(p) = lp.next_action(false, runs > 0) {
        assert_eq!(p, Phase::Interrogate);
        lp.phase_finished(false);
        runs += 1;
    }
    assert_eq!(runs, 4);
    assert_eq!(
        lp.next_action(false, true),
        LoopAction::Stop(StopReason::PhaseAttemptsExhausted)
    );
}

#[test]
fn fixed_zero_iterations_runs_nothing() {
    let c = config(LoopStrategy::FixedIterations(0), 10);
    let lp = RunLoop::new(&c, 3);
    assert_eq!(lp.next_action(false, false), LoopAction::Stop(StopReason::MaxIterations));
}

#[test]
fn finish_first_retries_a_failed_phase() {
    let c = config(LoopStrategy::FinishFirst, 10);
    let mut lp = RunLoop::new(&c, 3);
    assert_eq!(lp.next_action(false, false), LoopAction::RunPhase(Phase::Interrogate));
    lp.phase_finished(true);
    assert_eq!(lp.next_action(false, true), LoopAction::RunPhase(Phase::Contract));
    lp.phase_finished(false);
    assert_eq!(lp.next_action(false, true), LoopAction::RunPhase(Phase::Contract));
    assert_eq!(lp.phase_index(), 1);
}

#[test]
fn finish_first_goes_round_again_until_told_to_stop() {
    let c = config(LoopStrategy::FinishFirst, 10);
    let mut lp = RunLoop::new(&c, 3);
    for _ in 0..4 {
        lp.phase_finished(true);
    }
    assert_eq!(lp.next_action(false, true), LoopAction::DecideContinue);
    assert!(lp.loop_back(true));
    assert_eq!(lp.iteration(), 1);
    assert_eq!(lp.phase_index(), 0);
    assert_eq!(lp.next_action(false, true), LoopAction::RunPhase(Phase::Interrogate));
    for _ in 0..4 {
        lp.phase_finished(true);
    }
    assert!(!lp.loop_back(false));
    assert_eq!(lp.iteration(), 1);
}

#[test]
fn finish_first_stops_at_the_iteration_limit() {
    let c = config(LoopStrategy::FinishFirst, 1);
    let mut lp = RunLoop::new(&c, 3);
    for _ in 0..4 {
        lp.phase_finished(true);
    }
    assert!(lp.loop_back(true));
    assert_eq!(lp.next_action(false, true), LoopAction::Stop(StopReason::MaxIterations));
}

#[test]
fn finish_first_without_results_stops_when_phases_done() {
    let mut c = config(LoopStrategy::FinishFirst, 10);
    c.phases = vec![];
    let lp = RunLoop::new(&c, 3);
    assert_eq!(lp.next_action(false, false), LoopAction::Stop(StopReason::PhasesDone));
}

#[test]
fn global_timeout_stops_first() {
    let c = config(LoopStrategy::FinishFirst, 0);
    let lp = RunLoop::new(&c, 3);
    assert_eq!(lp.next_action(true, true), LoopAction::Stop(StopReason::GlobalTimeout));
    assert_eq!(lp.next_action(false, true), LoopAction::Stop(StopReason::MaxIterations));
}
