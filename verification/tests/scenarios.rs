use vid_compress::invoker::InvokerOutcome;
use vid_compress::invoker::LaunchCause;
use vid_compress::job::EncodingJob;
use vid_compress::policy::EncodingAttempt;
use vid_compress::policy::JobOutcome;
use vid_compress::policy::Policy;
use vid_compress::policy::PolicyAction;
use vid_compress::policy::PolicyEvent;
use vid_compress::policy::PolicyState;
use vid_compress::run::run_scripted;
use vid_compress::run::JobReport;
use vid_compress::run::ScriptedAttempt;

const MIB: u64 = 1024 * 1024;

fn produces(size: u64) -> ScriptedAttempt {
    ScriptedAttempt { invoked: InvokerOutcome::Completed, measured: Some(size) }
}

fn standard_job(input: &str) -> EncodingJob {
    EncodingJob::standard(input).expect("the input has a file name")
}

fn levels_of(report: &JobReport) -> Vec<u32> {
    report.attempts.iter().map(|a| a.level).collect()
}

#[test]
fn shrinking_artifacts_succeed_at_the_third_level() {
    let job = standard_job("clip.mov");
    assert_eq!(job.output(), "clip_discord.mp4");
    let script = vec![produces(15 * MIB), produces(12 * MIB), produces(9 * MIB)];
    let report = run_scripted(job, Some(50 * MIB), &script).expect("the script is long enough");
    assert_eq!(
        report.attempts,
        vec![
            EncodingAttempt { ordinal: 0, level: 28, size: Some(15 * MIB) },
            EncodingAttempt { ordinal: 1, level: 30, size: Some(12 * MIB) },
            EncodingAttempt { ordinal: 2, level: 32, size: Some(9 * MIB) },
        ]
    );
    assert_eq!(
        report.outcome,
        JobOutcome::Succeeded { level: 32, size: 9 * MIB, input_size: 50 * MIB }
    );
    assert!(report.outcome.is_success());
}

#[test]
fn missing_input_is_reported_at_once() {
    let script = vec![produces(MIB)];
    let report = run_scripted(standard_job("gone.mov"), None, &script).unwrap();
    assert!(report.attempts.is_empty());
    assert_eq!(report.outcome, JobOutcome::MissingInput);
    assert!(!report.outcome.is_success());
}

#[test]
fn missing_input_never_asks_for_the_encoder() {
    let mut policy = Policy::new(standard_job("gone.mov"));
    assert_eq!(policy.action(), PolicyAction::CheckInput);
    assert_eq!(policy.handle(PolicyEvent::InputChecked(None)), None);
    assert_eq!(policy.state(), PolicyState::Finished(JobOutcome::MissingInput));
    assert_eq!(policy.action(), PolicyAction::Stop);
    assert_eq!(policy.outcome(), Some(JobOutcome::MissingInput));
}

#[test]
fn always_oversized_exhausts_the_seven_levels() {
    let script = vec![produces(11 * MIB); 7];
    let report = run_scripted(standard_job("clip.mov"), Some(50 * MIB), &script).unwrap();
    assert_eq!(report.attempts.len(), 7);
    assert_eq!(levels_of(&report), vec![28, 30, 32, 34, 36, 38, 40]);
    for (i, attempt) in report.attempts.iter().enumerate() {
        assert_eq!(attempt.ordinal, i);
        assert_eq!(attempt.size, Some(11 * MIB));
    }
    assert_eq!(report.outcome, JobOutcome::Exhausted { level: 40, size: 11 * MIB });
    assert!(!report.outcome.is_success());
}

#[test]
fn exhaustion_needs_no_eighth_answer() {
    let script = vec![produces(11 * MIB); 9];
    let report = run_scripted(standard_job("clip.mov"), Some(50 * MIB), &script).unwrap();
    assert_eq!(report.attempts.len(), 7);
    assert_eq!(report.outcome, JobOutcome::Exhausted { level: 40, size: 11 * MIB });
}

#[test]
fn tool_failure_at_the_first_attempt_ends_the_job() {
    let script = vec![
        ScriptedAttempt { invoked: InvokerOutcome::ToolFailed { code: Some(1) }, measured: None },
        produces(MIB),
    ];
    let report = run_scripted(standard_job("clip.mov"), Some(50 * MIB), &script).unwrap();
    assert_eq!(report.attempts, vec![EncodingAttempt { ordinal: 0, level: 28, size: None }]);
    assert_eq!(report.outcome, JobOutcome::ToolFailed { code: Some(1) });
    assert!(!levels_of(&report).contains(&30));
}

#[test]
fn launch_failure_at_the_first_attempt_ends_the_job() {
    let script = vec![
        ScriptedAttempt {
            invoked: InvokerOutcome::LaunchFailed { cause: LaunchCause::MissingBinary },
            measured: Some(MIB),
        },
        produces(MIB),
    ];
    let report = run_scripted(standard_job("clip.mov"), Some(50 * MIB), &script).unwrap();
    assert_eq!(report.attempts, vec![EncodingAttempt { ordinal: 0, level: 28, size: None }]);
    assert_eq!(report.outcome, JobOutcome::LaunchFailed { cause: LaunchCause::MissingBinary });
}

#[test]
fn tool_failure_after_oversized_attempts_is_not_retried() {
    let script = vec![
        produces(20 * MIB),
        produces(15 * MIB),
        ScriptedAttempt { invoked: InvokerOutcome::ToolFailed { code: None }, measured: None },
        produces(MIB),
    ];
    let report = run_scripted(standard_job("clip.mov"), Some(50 * MIB), &script).unwrap();
    assert_eq!(levels_of(&report), vec![28, 30, 32]);
    assert_eq!(report.attempts[2].size, None);
    assert_eq!(report.outcome, JobOutcome::ToolFailed { code: None });
}

#[test]
fn unmeasurable_artifact_ends_the_job() {
    let script = vec![
        produces(20 * MIB),
        ScriptedAttempt { invoked: InvokerOutcome::Completed, measured: None },
        produces(MIB),
    ];
    let report = run_scripted(standard_job("clip.mov"), Some(50 * MIB), &script).unwrap();
    assert_eq!(
        report.attempts,
        vec![
            EncodingAttempt { ordinal: 0, level: 28, size: Some(20 * MIB) },
            EncodingAttempt { ordinal: 1, level: 30, size: None },
        ]
    );
    assert_eq!(report.outcome, JobOutcome::MeasurementFailed);
}

#[test]
fn fitting_at_the_first_level_takes_one_attempt() {
    let script = vec![produces(3 * MIB), produces(2 * MIB)];
    let report = run_scripted(standard_job("clip.mov"), Some(4 * MIB), &script).unwrap();
    assert_eq!(report.attempts, vec![EncodingAttempt { ordinal: 0, level: 28, size: Some(3 * MIB) }]);
    assert_eq!(
        report.outcome,
        JobOutcome::Succeeded { level: 28, size: 3 * MIB, input_size: 4 * MIB }
    );
}

#[test]
fn an_artifact_of_exactly_the_budget_is_accepted() {
    let script = vec![produces(10 * MIB + 1), produces(10 * MIB)];
    let report = run_scripted(standard_job("clip.mov"), Some(50 * MIB), &script).unwrap();
    assert_eq!(levels_of(&report), vec![28, 30]);
    assert_eq!(
        report.outcome,
        JobOutcome::Succeeded { level: 30, size: 10485760, input_size: 50 * MIB }
    );
}

#[test]
fn success_at_the_last_level_is_no_exhaustion() {
    let mut script = vec![produces(11 * MIB); 6];
    script.push(produces(10 * MIB));
    let report = run_scripted(standard_job("clip.mov"), Some(50 * MIB), &script).unwrap();
    assert_eq!(report.attempts.len(), 7);
    assert_eq!(
        report.outcome,
        JobOutcome::Succeeded { level: 40, size: 10 * MIB, input_size: 50 * MIB }
    );
}

#[test]
fn a_script_that_ends_too_early_gives_no_report() {
    let script = vec![produces(11 * MIB), produces(11 * MIB)];
    assert_eq!(run_scripted(standard_job("clip.mov"), Some(50 * MIB), &script), None);
    let empty: Vec<ScriptedAttempt> = Vec::new();
    assert_eq!(run_scripted(standard_job("clip.mov"), Some(50 * MIB), &empty), None);
    let report = run_scripted(standard_job("clip.mov"), None, &empty).unwrap();
    assert_eq!(report.outcome, JobOutcome::MissingInput);
}

#[test]
fn running_twice_gives_the_same_report() {
    let script = vec![produces(15 * MIB), produces(12 * MIB), produces(9 * MIB)];
    let first = run_scripted(standard_job("clip.mov"), Some(50 * MIB), &script).unwrap();
    let second = run_scripted(standard_job("clip.mov"), Some(50 * MIB), &script).unwrap();
    assert_eq!(first, second);
    let mut longer = script.clone();
    longer.push(produces(MIB));
    longer.push(ScriptedAttempt { invoked: InvokerOutcome::ToolFailed { code: Some(2) }, measured: None });
    let third = run_scripted(standard_job("clip.mov"), Some(50 * MIB), &longer).unwrap();
    assert_eq!(first, third);
}

#[test]
fn levels_tried_rise_by_the_step_of_the_schedule() {
    let script = vec![produces(14 * MIB), produces(13 * MIB), produces(12 * MIB), produces(11 * MIB), produces(MIB)];
    let report = run_scripted(standard_job("clip.mov"), Some(50 * MIB), &script).unwrap();
    let levels = levels_of(&report);
    assert_eq!(levels, vec![28, 30, 32, 34, 36]);
    for pair in levels.windows(2) {
        assert!(pair[0] < pair[1]);
        assert_eq!(pair[1] - pair[0], 2);
    }
}

#[test]
fn no_run_makes_more_than_seven_attempts() {
    let sizes: [u64; 4] = [0, 10 * MIB, 10 * MIB + 1, u64::MAX];
    for first in sizes {
        for rest in sizes {
            let mut script = vec![produces(first)];
            script.extend(vec![produces(rest); 20]);
            let report = run_scripted(standard_job("clip.mov"), Some(50 * MIB), &script).unwrap();
            assert!(report.attempts.len() <= 7);
            assert!(!report.attempts.is_empty());
        }
    }
}

#[test]
fn a_job_of_its_own_levels_and_budget() {
    let job = EncodingJob::new("in.mkv".to_string(), "out.mp4".to_string(), 100, vec![10, 20]).unwrap();
    let script = vec![produces(101), produces(101)];
    let report = run_scripted(job, Some(1000), &script).unwrap();
    assert_eq!(levels_of(&report), vec![10, 20]);
    assert_eq!(report.outcome, JobOutcome::Exhausted { level: 20, size: 101 });
}
