use gpu_oneshot::plan::DispatchGrid;
use gpu_oneshot::plan::JobPlan;
use gpu_oneshot::run::diagnostic;
use gpu_oneshot::run::step;
use gpu_oneshot::run::Action;
use gpu_oneshot::run::Event;
use gpu_oneshot::run::Failure;
use gpu_oneshot::run::Run;
use gpu_oneshot::run::Stage;
use gpu_oneshot::run::STEPS;

fn stages_in_order() -> Vec<Stage> {
    vec![
        Stage::Uninitialized,
        Stage::DeviceReady,
        Stage::BuffersAllocated,
        Stage::PipelineBuilt,
        Stage::Dispatched,
        Stage::Submitted,
        Stage::Completed,
        Stage::Read,
    ]
}

fn failures() -> Vec<Failure> {
    vec![Failure::NoAdapter, Failure::DeviceRefused, Failure::MapFailed]
}

#[test]
fn a_new_run_has_done_nothing() {
    let plan = JobPlan::for_elements(1028).unwrap();
    let run = Run::new(plan);
    assert_eq!(run.stage(), Stage::Uninitialized);
    assert_eq!(run.plan(), plan);
    assert!(!run.is_finished());
    assert_eq!(run.next_action(), Action::AcquireDevice);
}

#[test]
fn a_run_without_failures_goes_through_every_stage() {
    let plan = JobPlan::for_elements(1028).unwrap();
    let mut run = Run::new(plan);
    let expected = vec![
        Action::AcquireDevice,
        Action::AllocateBuffers { output_bytes: 4112 },
        Action::BuildPipeline,
        Action::EncodeDispatch { grid: DispatchGrid { x: 1028, y: 1, z: 1 } },
        Action::Submit,
        Action::AwaitMapping,
        Action::ReadOutput,
    ];
    assert_eq!(expected.len(), STEPS);
    let stages = stages_in_order();
    for (i, action) in expected.iter().enumerate() {
        assert_eq!(run.stage(), stages[i]);
        assert!(!run.is_finished());
        assert_eq!(run.next_action(), *action);
        run.advance(Event::Done);
    }
    assert_eq!(run.stage(), Stage::Read);
    assert!(run.is_finished());
    assert_eq!(run.next_action(), Action::Finish);
    assert_eq!(run.plan(), plan);
}

#[test]
fn no_adapter_aborts_the_run_with_a_diagnostic() {
    let mut run = Run::new(JobPlan::for_elements(5).unwrap());
    run.advance(Event::Failed(Failure::NoAdapter));
    assert_eq!(run.stage(), Stage::Aborted(Failure::NoAdapter));
    assert!(run.is_finished());
    assert_eq!(run.next_action(), Action::Abort(Failure::NoAdapter));
    assert_eq!(diagnostic(Failure::NoAdapter), "No GPU Found for referenced preference");
}

#[test]
fn a_refused_device_aborts_the_run() {
    let mut run = Run::new(JobPlan::for_elements(5).unwrap());
    run.advance(Event::Failed(Failure::DeviceRefused));
    assert_eq!(run.stage(), Stage::Aborted(Failure::DeviceRefused));
    assert_eq!(run.next_action(), Action::Abort(Failure::DeviceRefused));
}

#[test]
fn a_failed_mapping_aborts_the_run() {
    let mut run = Run::new(JobPlan::for_elements(5).unwrap());
    for _ in 0..5 {
        run.advance(Event::Done);
    }
    assert_eq!(run.stage(), Stage::Submitted);
    assert_eq!(run.next_action(), Action::AwaitMapping);
    run.advance(Event::Failed(Failure::MapFailed));
    assert_eq!(run.stage(), Stage::Aborted(Failure::MapFailed));
    assert_eq!(run.next_action(), Action::Abort(Failure::MapFailed));
}

#[test]
fn each_failure_has_its_own_diagnostic() {
    assert_eq!(diagnostic(Failure::NoAdapter), "No GPU Found for referenced preference");
    assert_eq!(diagnostic(Failure::DeviceRefused), "Could not create adapter for GPU device");
    assert_eq!(diagnostic(Failure::MapFailed), "failed to run compute on gpu!");
}

#[test]
fn a_failure_at_any_stage_before_the_end_aborts() {
    for stage in stages_in_order() {
        for failure in failures() {
            let next = step(stage, Event::Failed(failure));
            if stage == Stage::Read {
                assert_eq!(next, Stage::Read);
            } else {
                assert_eq!(next, Stage::Aborted(failure));
            }
        }
    }
}

#[test]
fn success_moves_one_stage_on() {
    let stages = stages_in_order();
    for i in 0..STEPS {
        assert_eq!(step(stages[i], Event::Done), stages[i + 1]);
    }
}

#[test]
fn an_ended_run_stays_as_it_is() {
    assert_eq!(step(Stage::Read, Event::Done), Stage::Read);
    for failure in failures() {
        let aborted = Stage::Aborted(failure);
        assert_eq!(step(aborted, Event::Done), aborted);
        for other in failures() {
            assert_eq!(step(aborted, Event::Failed(other)), aborted);
        }
    }
}

#[test]
fn every_run_ends_within_seven_events() {
    let outcomes = [Event::Done, Event::Failed(Failure::MapFailed)];
    for pattern in 0u32..(1 << STEPS) {
        let mut run = Run::new(JobPlan::for_elements(3).unwrap());
        let mut all_done = true;
        for k in 0..STEPS {
            let event = outcomes[((pattern >> k) & 1) as usize];
            all_done = all_done && event == Event::Done;
            run.advance(event);
        }
        assert!(run.is_finished());
        assert_eq!(run.stage() == Stage::Read, all_done);
    }
}

#[test]
fn the_first_failure_is_the_one_reported() {
    let mut run = Run::new(JobPlan::for_elements(3).unwrap());
    run.advance(Event::Done);
    run.advance(Event::Failed(Failure::DeviceRefused));
    run.advance(Event::Failed(Failure::MapFailed));
    run.advance(Event::Done);
    assert_eq!(run.stage(), Stage::Aborted(Failure::DeviceRefused));
}

#[test]
fn two_runs_fed_the_same_events_agree() {
    let plan = JobPlan::for_elements(1028).unwrap();
    let events = [Event::Done, Event::Done, Event::Done, Event::Failed(Failure::MapFailed)];
    let mut first = Run::new(plan);
    let mut second = Run::new(plan);
    for event in events {
        first.advance(event);
        second.advance(event);
        assert_eq!(first.stage(), second.stage());
        assert_eq!(first.next_action(), second.next_action());
    }
}

#[test]
fn a_run_over_no_elements_asks_for_an_empty_dispatch() {
    let mut run = Run::new(JobPlan::for_elements(0).unwrap());
    run.advance(Event::Done);
    assert_eq!(run.next_action(), Action::AllocateBuffers { output_bytes: 0 });
    run.advance(Event::Done);
    run.advance(Event::Done);
    assert_eq!(
        run.next_action(),
        Action::EncodeDispatch { grid: DispatchGrid { x: 0, y: 1, z: 1 } }
    );
}
