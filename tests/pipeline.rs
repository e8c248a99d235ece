use std::time::Duration;

use media_pipeline::control::ControlBroadcast;
use media_pipeline::error::{LaunchFailure, MediaError, RegisterError};
use media_pipeline::launch::{launch_start, launch_step, LaunchStep, Readiness};
use media_pipeline::race::{race_outcome, Completion, StageFailure};
use media_pipeline::registry::StageRegistry;
use media_pipeline::runner::{stage_report, StageExit};

fn names(list: &[&str]) -> Vec<String> {
    list.iter().map(|s| s.to_string()).collect()
}

fn drive(names: &Vec<String>, events: Vec<Readiness>) -> LaunchStep {
    let mut events = events.into_iter();
    let mut step = launch_start(names);
    while let LaunchStep::Await(index) = step {
        step = launch_step(names, index, events.next().unwrap());
    }
    step
}

#[test]
fn registry_keeps_registration_order() {
    let mut registry: StageRegistry<u32> = StageRegistry::new();
    assert!(registry.is_empty());
    assert!(registry.register("source".to_string(), 1).is_ok());
    assert!(registry.register("encoder".to_string(), 2).is_ok());
    assert!(registry.register("sink".to_string(), 3).is_ok());
    assert_eq!(registry.len(), 3);
    assert!(registry.contains("encoder"));
    assert!(!registry.contains("muxer"));
    assert_eq!(*registry.stage(1), 2);
    let (n, stages) = registry.into_parts();
    assert_eq!(n, names(&["source", "encoder", "sink"]));
    assert_eq!(stages, vec![1, 2, 3]);
}

#[test]
fn registry_refuses_duplicate_name_at_registration() {
    let mut registry: StageRegistry<u32> = StageRegistry::new();
    assert!(registry.register("camera".to_string(), 1).is_ok());
    match registry.register("camera".to_string(), 2) {
        Err(RegisterError::DuplicateName(n)) => assert_eq!(n, "camera"),
        Ok(()) => panic!("duplicate accepted"),
    }
    assert_eq!(registry.len(), 1);
    let (n, stages) = registry.into_parts();
    assert_eq!(n, names(&["camera"]));
    assert_eq!(stages, vec![1]);
}

#[test]
fn launch_with_all_stages_ready_goes_live() {
    for count in 1..5usize {
        let list: Vec<String> = (0..count).map(|i| format!("stage{i}")).collect();
        let events = (0..count).map(|_| Readiness::Ready).collect();
        assert!(matches!(drive(&list, events), LaunchStep::Live));
    }
}

#[test]
fn launch_awaits_stages_in_order() {
    let list = names(&["a", "b", "c"]);
    assert!(matches!(launch_start(&list), LaunchStep::Await(0)));
    assert!(matches!(launch_step(&list, 0, Readiness::Ready), LaunchStep::Await(1)));
    assert!(matches!(launch_step(&list, 1, Readiness::Ready), LaunchStep::Await(2)));
    assert!(matches!(launch_step(&list, 2, Readiness::Ready), LaunchStep::Live));
}

#[test]
fn launch_of_empty_pipeline_fails() {
    let list: Vec<String> = Vec::new();
    assert!(matches!(launch_start(&list), LaunchStep::Abort(MediaError::EmptyPipeline)));
    assert!(matches!(drive(&list, Vec::new()), LaunchStep::Abort(MediaError::EmptyPipeline)));
}

#[test]
fn launch_timeout_names_the_stalled_stage() {
    let list = names(&["src", "dec", "sink"]);
    let events = vec![Readiness::Ready, Readiness::TimedOut, Readiness::Ready];
    match drive(&list, events) {
        LaunchStep::Abort(MediaError::TaskLaunch { stage, failure: LaunchFailure::TimedOut }) => {
            assert_eq!(stage, "dec")
        }
        other => panic!("unexpected {other:?}"),
    }
    let events = vec![Readiness::Ready, Readiness::Ready, Readiness::TimedOut];
    match drive(&list, events) {
        LaunchStep::Abort(MediaError::TaskLaunch { stage, failure: LaunchFailure::TimedOut }) => {
            assert_eq!(stage, "sink")
        }
        other => panic!("unexpected {other:?}"),
    }
}

#[test]
fn launch_reported_failure_and_closed_signal() {
    let list = names(&["src", "sink"]);
    match launch_step(&list, 0, Readiness::Failed("no device".to_string())) {
        LaunchStep::Abort(e @ MediaError::TaskLaunch { .. }) => {
            assert_eq!(e.message(), "src build / no device")
        }
        other => panic!("unexpected {other:?}"),
    }
    match launch_step(&list, 1, Readiness::Closed) {
        LaunchStep::Abort(e @ MediaError::TaskLaunch { failure: LaunchFailure::Closed, .. }) => {
            assert_eq!(e.message(), "sink build / readiness signal closed")
        }
        other => panic!("unexpected {other:?}"),
    }
}

#[test]
fn media_error_messages() {
    assert_eq!(MediaError::EmptyPipeline.message(), "pipeline has no tasks");
    let e = MediaError::TaskLaunch { stage: "mic".to_string(), failure: LaunchFailure::TimedOut };
    assert_eq!(e.message(), "task timed out: 'mic'");
}

#[test]
fn stage_report_converts_panics() {
    assert_eq!(stage_report(StageExit::Returned(Ok(()))), Ok(()));
    assert_eq!(
        stage_report(StageExit::Returned(Err("eof".to_string()))),
        Err("eof".to_string())
    );
    assert_eq!(
        stage_report(StageExit::Panicked(Some("boom".to_string()))),
        Err("Panicked: boom".to_string())
    );
    assert_eq!(
        stage_report(StageExit::Panicked(None)),
        Err("Panicked: Unknown error".to_string())
    );
}

#[test]
fn panicking_stage_fails_pipeline_with_its_name() {
    let list = names(&["src", "enc", "sink"]);
    let report = stage_report(StageExit::Panicked(Some("index out of bounds".to_string())));
    match race_outcome(&list, 1, Completion::Reported(report)) {
        Err(f) => {
            assert_eq!(f.stage, "enc");
            assert_eq!(f.message(), "Task 'enc' failed: Panicked: index out of bounds");
        }
        Ok(()) => panic!("panic reported as success"),
    }
}

#[test]
fn race_outcome_follows_first_completion() {
    let list = names(&["a", "b"]);
    assert!(race_outcome(&list, 0, Completion::Reported(Ok(()))).is_ok());
    match race_outcome(&list, 1, Completion::Reported(Err("disk full".to_string()))) {
        Err(StageFailure { stage, reason }) => {
            assert_eq!(stage, "b");
            assert_eq!(reason, Some("disk full".to_string()));
        }
        Ok(()) => panic!("failure reported as success"),
    }
    match race_outcome(&list, 0, Completion::Dropped) {
        Err(f) => {
            assert_eq!(f.reason, None);
            assert_eq!(f.message(), "Task 'a' failed for unknown reason");
        }
        Ok(()) => panic!("dropped signal reported as success"),
    }
}

#[test]
fn first_stage_to_finish_decides_outcome() {
    let list = names(&["slow_ok", "fast_err", "slower_ok"]);
    let delays = [60u64, 5, 120];
    let outcomes = [Ok(()), Err("bad frame".to_string()), Ok(())];
    let runtime = tokio::runtime::Builder::new_current_thread()
        .enable_time()
        .build()
        .unwrap();
    let (winner, outcome) = runtime.block_on(async {
        let (tx, rx) = flume::unbounded();
        for (index, (delay, outcome)) in delays.iter().zip(outcomes.into_iter()).enumerate() {
            let tx = tx.clone();
            let delay = *delay;
            tokio::spawn(async move {
                tokio::time::sleep(Duration::from_millis(delay)).await;
                let _ = tx.send((index, outcome));
            });
        }
        rx.recv_async().await.unwrap()
    });
    match race_outcome(&list, winner, Completion::Reported(outcome)) {
        Err(f) => assert_eq!(f.message(), "Task 'fast_err' failed: bad frame"),
        Ok(()) => panic!("the first stage failed"),
    }
}

#[test]
fn control_broadcast_reaches_each_listener() {
    let mut control: ControlBroadcast<u32> = ControlBroadcast::new();
    let first = control.add_listener("src".to_string()).ok().unwrap();
    let second = control.add_listener("sink".to_string()).ok().unwrap();
    assert!(matches!(
        control.add_listener("src".to_string()),
        Err(RegisterError::DuplicateName(_))
    ));
    assert_eq!(control.len(), 2);
    assert_eq!(control.broadcast(7), 2);
    assert_eq!(first.try_recv().unwrap(), 7);
    assert_eq!(second.try_recv().unwrap(), 7);
    drop(second);
    assert_eq!(control.broadcast(8), 1);
    assert_eq!(first.try_recv().unwrap(), 8);
}

#[test]
fn bounded_queue_holds_at_most_its_capacity() {
    let (tx, rx) = flume::bounded::<u32>(2);
    assert!(tx.try_send(1).is_ok());
    assert!(tx.try_send(2).is_ok());
    assert!(matches!(tx.try_send(3), Err(flume::TrySendError::Full(3))));
    assert_eq!(rx.len(), 2);
    assert_eq!(rx.recv().unwrap(), 1);
    assert!(tx.try_send(3).is_ok());
    assert_eq!(rx.len(), 2);
    assert_eq!(rx.try_iter().collect::<Vec<_>>(), vec![2, 3]);
}
