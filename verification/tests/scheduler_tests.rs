use aw_watcher_win_vdesktop::bucket::{bucket_result, BucketError, BucketInfo, CreateReply};
use aw_watcher_win_vdesktop::collector::Collector;
use aw_watcher_win_vdesktop::event::Timestamp;
use aw_watcher_win_vdesktop::label::{DesktopLabel, SampleError};
use aw_watcher_win_vdesktop::report::{report_result, ClientFailure, ReportError};
use aw_watcher_win_vdesktop::scheduler::{
    Action, Exit, Input, LoopState, Phase, Sample, Scheduler, READ_BACK_LIMIT,
};

const SEC: i128 = 1_000_000_000;

fn started() -> Scheduler {
    let (scheduler, first) = Scheduler::start(Ok(())).expect("the bucket is ready");
    assert!(matches!(first, Action::Sample));
    scheduler
}

fn sample(label: &str, secs: i64) -> Input {
    Input::Sampled(Ok(Sample {
        label: DesktopLabel::normalize(label.to_string(), 0),
        at: Timestamp::from_secs(secs),
    }))
}

fn in_reporting() -> Scheduler {
    let mut scheduler = started();
    assert!(matches!(scheduler.step(sample("Desktop 1", 0)), Some(Action::Report(_, _))));
    scheduler
}

fn in_waiting() -> Scheduler {
    let mut scheduler = in_reporting();
    assert!(matches!(scheduler.step(Input::Reported(Ok(()))), Some(Action::Wait(_))));
    scheduler
}

#[test]
fn sample_takes_the_reading_of_the_clock() {
    let taken = Sample::at(DesktopLabel::from_index(0), 1_700_000_000, 999_999_999);
    let sample = taken.expect("within the second");
    assert_eq!(sample.label.as_str(), "Desktop 1");
    assert_eq!(sample.at.secs(), 1_700_000_000);
    assert_eq!(sample.at.subsec_nanos(), 999_999_999);
}

#[test]
fn sample_refuses_a_reading_with_a_second_of_nanos() {
    let taken = Sample::at(DesktopLabel::from_index(0), 1_700_000_000, 1_000_000_000);
    assert_eq!(taken.expect_err("a full second"), SampleError::Clock);
    let taken = Sample::at(DesktopLabel::from_index(0), 1_700_000_000, 1_999_999_999);
    assert_eq!(taken.expect_err("a leap second"), SampleError::Clock);
}

#[test]
fn loop_starts_by_sampling_once_the_bucket_is_ready() {
    let (scheduler, first) = Scheduler::start(Ok(())).expect("the bucket is ready");
    assert!(matches!(first, Action::Sample));
    assert_eq!(scheduler.phase(), Phase::Sampling);
    assert_eq!(scheduler.state(), LoopState::Running);
}

#[test]
fn loop_starts_after_either_good_answer_to_the_bucket_request() {
    assert!(Scheduler::start(bucket_result(CreateReply::Created)).is_ok());
    assert!(Scheduler::start(bucket_result(CreateReply::AlreadyExists)).is_ok());
}

#[test]
fn no_loop_without_a_bucket() {
    let error = BucketError { cause: ClientFailure::Connect };
    match Scheduler::start(Err(error)) {
        Ok(_) => panic!("the bucket was not ready"),
        Err(same) => assert_eq!(same, error),
    }
    let refused = bucket_result(CreateReply::Failed(ClientFailure::Status(400)));
    match Scheduler::start(refused) {
        Ok(_) => panic!("the bucket was not ready"),
        Err(same) => assert_eq!(same.cause, ClientFailure::Status(400)),
    }
}

#[test]
fn sample_is_built_into_an_event_and_reported() {
    let mut scheduler = started();
    let at = Timestamp::new(1_700_000_000, 5).expect("within the second");
    let input = Input::Sampled(Ok(Sample { label: DesktopLabel::from_index(2), at }));
    match scheduler.step(input) {
        Some(Action::Report(event, pulsetime_secs)) => {
            assert_eq!(event.label(), "Desktop 3");
            assert_eq!(event.timestamp(), at);
            assert_eq!(event.duration_secs(), 12);
            assert_eq!(pulsetime_secs, 10);
        },
        other => panic!("expected a report, got {:?}", other),
    }
    assert_eq!(scheduler.phase(), Phase::Reporting);
    assert_eq!(scheduler.state(), LoopState::Running);
}

#[test]
fn failed_sample_skips_the_report() {
    for error in [SampleError::Desktop, SampleError::Name, SampleError::Index, SampleError::Clock] {
        let mut scheduler = started();
        assert!(matches!(scheduler.step(Input::Sampled(Err(error))), Some(Action::Wait(8))));
        assert_eq!(scheduler.phase(), Phase::Waiting);
        assert_eq!(scheduler.state(), LoopState::Running);
        assert!(matches!(scheduler.step(Input::Elapsed), Some(Action::Sample)));
    }
}

#[test]
fn accepted_report_leads_to_the_wait() {
    let mut scheduler = in_reporting();
    assert!(matches!(scheduler.step(Input::Reported(Ok(()))), Some(Action::Wait(8))));
    assert_eq!(scheduler.phase(), Phase::Waiting);
}

#[test]
fn transient_failure_goes_on_to_the_next_tick_without_resending() {
    let mut scheduler = started();
    let first = match scheduler.step(sample("Desktop 1", 0)) {
        Some(Action::Report(event, _)) => event,
        other => panic!("expected a report, got {:?}", other),
    };
    let failed = report_result(Err(ClientFailure::Connect));
    assert_eq!(failed, Err(ReportError::Transient));

    assert!(matches!(scheduler.step(Input::Reported(failed)), Some(Action::Wait(8))));
    assert_eq!(scheduler.state(), LoopState::Running);
    assert!(matches!(scheduler.step(Input::Elapsed), Some(Action::Sample)));
    assert_eq!(scheduler.phase(), Phase::Sampling);

    match scheduler.step(sample("Desktop 2", 8)) {
        Some(Action::Report(second, _)) => {
            assert_eq!(second.label(), "Desktop 2");
            assert_eq!(second.timestamp(), Timestamp::from_secs(8));
            assert_ne!(second.timestamp(), first.timestamp());
        },
        other => panic!("expected a report, got {:?}", other),
    }
}

#[test]
fn fatal_failure_ends_the_loop() {
    let mut scheduler = in_reporting();
    let action = scheduler.step(Input::Reported(Err(ReportError::Fatal)));
    assert!(matches!(action, Some(Action::Stop(Exit::Fatal))));
    assert_eq!(scheduler.phase(), Phase::Stopped(Exit::Fatal));
    assert_eq!(scheduler.state(), LoopState::Terminating);
}

#[test]
fn wait_lasts_the_polling_interval() {
    let mut scheduler = in_reporting();
    match scheduler.step(Input::Reported(Ok(()))) {
        Some(Action::Wait(secs)) => assert_eq!(secs, 8),
        other => panic!("expected a wait, got {:?}", other),
    }
}

#[test]
fn cancellation_during_the_wait_ends_the_loop_at_once() {
    let mut scheduler = in_waiting();
    let action = scheduler.step(Input::Cancelled);
    assert!(matches!(action, Some(Action::Stop(Exit::Cancelled))));
    assert_eq!(scheduler.phase(), Phase::Stopped(Exit::Cancelled));
    assert_eq!(scheduler.state(), LoopState::Terminating);
}

#[test]
fn cancellation_is_taken_only_during_the_wait() {
    let mut sampling = started();
    assert!(sampling.step(Input::Cancelled).is_none());
    assert_eq!(sampling.phase(), Phase::Sampling);

    let mut reporting = in_reporting();
    assert!(reporting.step(Input::Cancelled).is_none());
    assert_eq!(reporting.phase(), Phase::Reporting);
    assert!(matches!(reporting.step(Input::Reported(Ok(()))), Some(Action::Wait(8))));
    assert!(matches!(reporting.step(Input::Cancelled), Some(Action::Stop(Exit::Cancelled))));
}

#[test]
fn input_that_the_phase_does_not_wait_for_is_turned_down() {
    let mut sampling = started();
    assert!(sampling.step(Input::Elapsed).is_none());
    assert!(sampling.step(Input::Reported(Ok(()))).is_none());
    assert_eq!(sampling.phase(), Phase::Sampling);

    let mut reporting = in_reporting();
    assert!(reporting.step(Input::Elapsed).is_none());
    assert!(reporting.step(sample("Desktop 1", 8)).is_none());
    assert_eq!(reporting.phase(), Phase::Reporting);

    let mut waiting = in_waiting();
    assert!(waiting.step(Input::Reported(Ok(()))).is_none());
    assert!(waiting.step(sample("Desktop 1", 8)).is_none());
    assert_eq!(waiting.phase(), Phase::Waiting);
}

#[test]
fn ended_loop_takes_no_further_step() {
    let mut scheduler = in_waiting();
    scheduler.step(Input::Cancelled);
    assert!(scheduler.step(Input::Elapsed).is_none());
    assert!(scheduler.step(Input::Cancelled).is_none());
    assert!(scheduler.step(Input::Reported(Ok(()))).is_none());
    assert!(scheduler.step(sample("Desktop 1", 8)).is_none());
    assert_eq!(scheduler.phase(), Phase::Stopped(Exit::Cancelled));
}

#[test]
fn exit_codes() {
    assert_eq!(Exit::Cancelled.exit_code(), 0);
    assert_eq!(Exit::Fatal.exit_code(), 1);
}

#[test]
fn events_are_read_back_after_a_cancellation_only() {
    assert_eq!(Exit::Cancelled.read_back(), Some(1));
    assert_eq!(Exit::Cancelled.read_back(), Some(READ_BACK_LIMIT));
    assert_eq!(Exit::Fatal.read_back(), None);
}

/// Runs the loop against the collector model: one sample per tick, eight
/// seconds apart, then a cancellation. A `None` among the samples is a tick
/// on which the collector cannot be reached.
fn run(collector: &mut Collector, bucket_id: &str, ticks: &[(&str, bool)]) -> (Exit, u32) {
    let (mut scheduler, mut action) =
        Scheduler::start(collector.ensure_bucket(BucketInfo::describe("laptop")))
            .expect("the bucket is ready");
    let mut tick: usize = 0;
    let mut sent: u32 = 0;
    loop {
        let input = match action {
            Action::Sample => sample(ticks[tick].0, 8 * tick as i64),
            Action::Report(event, pulsetime_secs) => {
                sent += 1;
                if ticks[tick].1 {
                    Input::Reported(collector.report(bucket_id, &event, pulsetime_secs))
                } else {
                    Input::Reported(report_result(Err(ClientFailure::Timeout)))
                }
            },
            Action::Wait(secs) => {
                assert_eq!(secs, 8);
                tick += 1;
                if tick < ticks.len() {
                    Input::Elapsed
                } else {
                    Input::Cancelled
                }
            },
            Action::Stop(exit) => return (exit, sent),
        };
        action = scheduler.step(input).expect("the input answers the action");
    }
}

#[test]
fn steady_desktop_is_one_event_and_a_change_begins_a_second() {
    let mut collector = Collector::new();
    let id = "aw-watcher-win-vdesktop_laptop";
    let ticks = [("Desktop 1", true), ("Desktop 1", true), ("Desktop 1", true)];
    let (exit, sent) = run(&mut collector, id, &ticks);
    assert_eq!(exit, Exit::Cancelled);
    assert_eq!(sent, 3);
    let events = collector.events(id).expect("made");
    assert_eq!(events.len(), 1);
    assert_eq!(events.get(0).expect("one event").label(), "Desktop 1");
    assert_eq!(events.get(0).expect("one event").duration_nanos(), 28 * SEC);

    let mut collector = Collector::new();
    let ticks =
        [("Desktop 1", true), ("Desktop 1", true), ("Desktop 1", true), ("Desktop 2", true)];
    let (exit, sent) = run(&mut collector, id, &ticks);
    assert_eq!(exit, Exit::Cancelled);
    assert_eq!(sent, 4);
    let events = collector.events(id).expect("made");
    assert_eq!(events.len(), 2);
    assert_eq!(events.get(0).expect("first").label(), "Desktop 1");
    assert_eq!(events.get(0).expect("first").start_nanos(), 0);
    assert_eq!(events.get(0).expect("first").duration_nanos(), 28 * SEC);
    assert_eq!(events.get(1).expect("second").label(), "Desktop 2");
    assert_eq!(events.get(1).expect("second").start_nanos(), 24 * SEC);
}

#[test]
fn missed_report_is_not_made_up_for() {
    let mut collector = Collector::new();
    let id = "aw-watcher-win-vdesktop_laptop";
    let ticks = [("Desktop 1", true), ("Desktop 1", false), ("Desktop 1", true)];
    let (exit, sent) = run(&mut collector, id, &ticks);
    assert_eq!(exit, Exit::Cancelled);
    assert_eq!(sent, 3);
    let events = collector.events(id).expect("made");
    assert_eq!(events.len(), 1);
    assert_eq!(events.get(0).expect("one event").start_nanos(), 0);
    assert_eq!(events.get(0).expect("one event").end_nanos(), 28 * SEC);
}

#[test]
fn report_to_a_missing_bucket_ends_the_loop() {
    let mut collector = Collector::new();
    let ticks = [("Desktop 1", true), ("Desktop 1", true)];
    let (exit, sent) = run(&mut collector, "nowhere", &ticks);
    assert_eq!(exit, Exit::Fatal);
    assert_eq!(sent, 1);
    assert_eq!(exit.exit_code(), 1);
}
