use std::cell::Cell;
use vid_compress::invoker::InvokerOutcome;
use vid_compress::invoker::LaunchCause;
use vid_compress::job::EncodingJob;
use vid_compress::policy::EncodingAttempt;
use vid_compress::policy::JobOutcome;
use vid_compress::policy::Policy;
use vid_compress::policy::PolicyAction;
use vid_compress::policy::PolicyEvent;
use vid_compress::policy::PolicyState;

const MIB: u64 = 1024 * 1024;

/// Drives a policy to its end as a program would: each action is performed by
/// the closures given, which stand for the encoder and the file system.
fn drive(
    policy: &mut Policy,
    input: Option<u64>,
    encode: &dyn Fn(u32) -> InvokerOutcome,
    measure: &dyn Fn() -> Option<u64>,
) -> Vec<EncodingAttempt> {
    let mut records: Vec<EncodingAttempt> = Vec::new();
    loop {
        let event = match policy.action() {
            PolicyAction::CheckInput => PolicyEvent::InputChecked(input),
            PolicyAction::Encode { level } => PolicyEvent::Invoked(encode(level)),
            PolicyAction::Measure => PolicyEvent::Measured(measure()),
            PolicyAction::Stop => return records,
        };
        if let Some(record) = policy.handle(event) {
            records.push(record);
        }
    }
}

#[test]
fn the_encoder_is_called_once_per_attempt_with_the_level() {
    let calls: Cell<u32> = Cell::new(0);
    let last_level: Cell<u32> = Cell::new(0);
    let mut policy = Policy::new(EncodingJob::standard("clip.mov").unwrap());
    let records = drive(
        &mut policy,
        Some(50 * MIB),
        &|level| {
            calls.set(calls.get() + 1);
            last_level.set(level);
            InvokerOutcome::Completed
        },
        &|| Some(if last_level.get() >= 32 { 9 * MIB } else { 15 * MIB }),
    );
    assert_eq!(calls.get(), 3);
    assert_eq!(records.len(), 3);
    assert_eq!(records[2], EncodingAttempt { ordinal: 2, level: 32, size: Some(9 * MIB) });
    assert_eq!(
        policy.outcome(),
        Some(JobOutcome::Succeeded { level: 32, size: 9 * MIB, input_size: 50 * MIB })
    );
}

#[test]
fn a_missing_input_calls_neither_encoder_nor_measurement() {
    let calls: Cell<u32> = Cell::new(0);
    let mut policy = Policy::new(EncodingJob::standard("clip.mov").unwrap());
    let records = drive(
        &mut policy,
        None,
        &|_| {
            calls.set(calls.get() + 1);
            InvokerOutcome::Completed
        },
        &|| {
            calls.set(calls.get() + 1);
            Some(0)
        },
    );
    assert_eq!(calls.get(), 0);
    assert!(records.is_empty());
    assert_eq!(policy.outcome(), Some(JobOutcome::MissingInput));
}

#[test]
fn a_failing_encoder_is_called_exactly_once() {
    let calls: Cell<u32> = Cell::new(0);
    let measured: Cell<u32> = Cell::new(0);
    let mut policy = Policy::new(EncodingJob::standard("clip.mov").unwrap());
    let records = drive(
        &mut policy,
        Some(50 * MIB),
        &|_| {
            calls.set(calls.get() + 1);
            InvokerOutcome::ToolFailed { code: Some(1) }
        },
        &|| {
            measured.set(measured.get() + 1);
            Some(0)
        },
    );
    assert_eq!(calls.get(), 1);
    assert_eq!(measured.get(), 0);
    assert_eq!(records, vec![EncodingAttempt { ordinal: 0, level: 28, size: None }]);
    assert_eq!(policy.outcome(), Some(JobOutcome::ToolFailed { code: Some(1) }));
}

#[test]
fn an_encoder_that_never_fits_is_called_seven_times() {
    let calls: Cell<u32> = Cell::new(0);
    let mut policy = Policy::new(EncodingJob::standard("clip.mov").unwrap());
    let records = drive(
        &mut policy,
        Some(50 * MIB),
        &|_| {
            calls.set(calls.get() + 1);
            InvokerOutcome::Completed
        },
        &|| Some(11 * MIB),
    );
    assert_eq!(calls.get(), 7);
    assert_eq!(records.len(), 7);
    assert_eq!(policy.outcome(), Some(JobOutcome::Exhausted { level: 40, size: 11 * MIB }));
}

#[test]
fn the_states_follow_one_another() {
    let mut policy = Policy::new(EncodingJob::standard("clip.mov").unwrap());
    assert_eq!(policy.state(), PolicyState::Pending);
    assert_eq!(policy.outcome(), None);
    assert_eq!(policy.job().input(), "clip.mov");

    assert_eq!(policy.handle(PolicyEvent::InputChecked(Some(77))), None);
    assert_eq!(policy.state(), PolicyState::Attempting { attempt: 0, input_size: 77 });
    assert_eq!(policy.action(), PolicyAction::Encode { level: 28 });

    assert_eq!(policy.handle(PolicyEvent::Invoked(InvokerOutcome::Completed)), None);
    assert_eq!(policy.state(), PolicyState::Measuring { attempt: 0, input_size: 77 });
    assert_eq!(policy.action(), PolicyAction::Measure);

    assert_eq!(
        policy.handle(PolicyEvent::Measured(Some(11 * MIB))),
        Some(EncodingAttempt { ordinal: 0, level: 28, size: Some(11 * MIB) })
    );
    assert_eq!(policy.state(), PolicyState::Attempting { attempt: 1, input_size: 77 });
    assert_eq!(policy.action(), PolicyAction::Encode { level: 30 });

    assert_eq!(
        policy.handle(PolicyEvent::Invoked(InvokerOutcome::LaunchFailed {
            cause: LaunchCause::PermissionDenied
        })),
        Some(EncodingAttempt { ordinal: 1, level: 30, size: None })
    );
    assert_eq!(
        policy.state(),
        PolicyState::Finished(JobOutcome::LaunchFailed { cause: LaunchCause::PermissionDenied })
    );
    assert_eq!(policy.action(), PolicyAction::Stop);
}

#[test]
fn an_event_out_of_turn_changes_nothing() {
    let mut policy = Policy::new(EncodingJob::standard("clip.mov").unwrap());
    assert_eq!(policy.handle(PolicyEvent::Measured(Some(1))), None);
    assert_eq!(policy.handle(PolicyEvent::Invoked(InvokerOutcome::Completed)), None);
    assert_eq!(policy.state(), PolicyState::Pending);

    policy.handle(PolicyEvent::InputChecked(Some(5)));
    assert_eq!(policy.handle(PolicyEvent::Measured(Some(1))), None);
    assert_eq!(policy.handle(PolicyEvent::InputChecked(None)), None);
    assert_eq!(policy.state(), PolicyState::Attempting { attempt: 0, input_size: 5 });

    policy.handle(PolicyEvent::Invoked(InvokerOutcome::Completed));
    assert_eq!(policy.handle(PolicyEvent::Invoked(InvokerOutcome::ToolFailed { code: None })), None);
    assert_eq!(policy.state(), PolicyState::Measuring { attempt: 0, input_size: 5 });
}

#[test]
fn a_finished_run_stays_finished() {
    let mut policy = Policy::new(EncodingJob::standard("clip.mov").unwrap());
    policy.handle(PolicyEvent::InputChecked(Some(5)));
    policy.handle(PolicyEvent::Invoked(InvokerOutcome::Completed));
    policy.handle(PolicyEvent::Measured(Some(4)));
    let done = PolicyState::Finished(JobOutcome::Succeeded { level: 28, size: 4, input_size: 5 });
    assert_eq!(policy.state(), done);
    for event in [
        PolicyEvent::InputChecked(None),
        PolicyEvent::InputChecked(Some(9)),
        PolicyEvent::Invoked(InvokerOutcome::Completed),
        PolicyEvent::Invoked(InvokerOutcome::ToolFailed { code: Some(3) }),
        PolicyEvent::Measured(None),
        PolicyEvent::Measured(Some(99 * MIB)),
    ] {
        assert_eq!(policy.handle(event), None);
        assert_eq!(policy.state(), done);
        assert_eq!(policy.action(), PolicyAction::Stop);
    }
}

#[test]
fn measurement_failure_is_recorded_without_a_size() {
    let mut policy = Policy::new(EncodingJob::standard("clip.mov").unwrap());
    policy.handle(PolicyEvent::InputChecked(Some(5)));
    policy.handle(PolicyEvent::Invoked(InvokerOutcome::Completed));
    assert_eq!(
        policy.handle(PolicyEvent::Measured(None)),
        Some(EncodingAttempt { ordinal: 0, level: 28, size: None })
    );
    assert_eq!(policy.outcome(), Some(JobOutcome::MeasurementFailed));
}

#[test]
fn only_success_counts_as_success() {
    assert!(JobOutcome::Succeeded { level: 28, size: 1, input_size: 2 }.is_success());
    assert!(!JobOutcome::Exhausted { level: 40, size: 11 * MIB }.is_success());
    assert!(!JobOutcome::MissingInput.is_success());
    assert!(!JobOutcome::LaunchFailed { cause: LaunchCause::Other }.is_success());
    assert!(!JobOutcome::ToolFailed { code: Some(0) }.is_success());
    assert!(!JobOutcome::MeasurementFailed.is_success());
}

#[test]
fn every_attempt_writes_to_the_same_output() {
    let mut policy = Policy::new(EncodingJob::standard("dir/clip.mov").unwrap());
    assert_eq!(policy.encoder_call(), None);
    policy.handle(PolicyEvent::InputChecked(Some(50 * MIB)));
    let mut levels: Vec<String> = Vec::new();
    while let Some(args) = policy.encoder_call() {
        assert_eq!(args.len(), 16);
        assert_eq!(args[1], "dir/clip.mov");
        assert_eq!(args[14], "-y");
        assert_eq!(args[15], "dir/clip_discord.mp4");
        levels.push(args[5].clone());
        policy.handle(PolicyEvent::Invoked(InvokerOutcome::Completed));
        assert_eq!(policy.encoder_call(), None);
        policy.handle(PolicyEvent::Measured(Some(11 * MIB)));
    }
    assert_eq!(levels, vec!["28", "30", "32", "34", "36", "38", "40"]);
    assert_eq!(policy.action(), PolicyAction::Stop);
}
