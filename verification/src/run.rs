//! A whole run of the policy against an encoder whose behaviour is written
//! down beforehand.
//!
//! A script says, for each attempt in order, how the encoder ends and how
//! large its artifact is. Running the policy on a script needs no process and
//! no file: it shows what the policy would do with such an encoder.

use vstd::prelude::*;
use crate::invoker::InvokerOutcome;
use crate::job::EncodingJob;
use crate::job::JobView;
use crate::job::lemma_valid_levels_bounded;
use crate::job::standard_job;
use crate::quality::law_levels_rise;
use crate::quality::law_standard_levels;
use crate::quality::standard_schedule;
use crate::policy::EncodingAttempt;
use crate::policy::JobOutcome;
use crate::policy::Policy;
use crate::policy::PolicyAction;
use crate::policy::PolicyEvent;
use crate::policy::PolicyState;
use crate::policy::PolicyView;

verus! {

/// What the scripted encoder does at one attempt.
#[derive(Clone, Copy, Debug, PartialEq, Eq)]
pub struct ScriptedAttempt {
    /// How the call of the encoder ends.
    pub invoked: InvokerOutcome,
    /// What measuring the artifact gives, if the call completed.
    pub measured: Option<u64>,
}

impl ScriptedAttempt {
    /// The attempt leaves an artifact that is larger than `budget`. This is
    /// the one case in which the policy goes on to another level.
    pub open spec fn oversized(self, budget: u64) -> bool {
        &&& self.invoked is Completed
        &&& self.measured matches Some(size)
        &&& size > budget
    }

    /// The size that the record of the attempt holds.
    pub open spec fn recorded_size(self) -> Option<u64> {
        if self.invoked is Completed {
            self.measured
        } else {
            None
        }
    }

    /// The outcome of a run whose last attempt this is, made at `level`.
    pub open spec fn closing(self, budget: u64, level: u32, input_size: u64) -> JobOutcome {
        match self.invoked {
            InvokerOutcome::LaunchFailed { cause } => JobOutcome::LaunchFailed { cause },
            InvokerOutcome::ToolFailed { code } => JobOutcome::ToolFailed { code },
            InvokerOutcome::Completed => match self.measured {
                None => JobOutcome::MeasurementFailed,
                Some(size) => if size <= budget {
                    JobOutcome::Succeeded { level, size, input_size }
                } else {
                    JobOutcome::Exhausted { level, size }
                },
            },
        }
    }
}

/// What a finished run reports, as plain values.
pub struct ReportView {
    /// The records of the attempts made, in order.
    pub attempts: Seq<EncodingAttempt>,
    /// How the run ended.
    pub outcome: JobOutcome,
}

/// What a finished run reports.
#[derive(Debug, PartialEq, Eq)]
pub struct JobReport {
    /// The records of the attempts made, in order.
    pub attempts: Vec<EncodingAttempt>,
    /// How the run ended.
    pub outcome: JobOutcome,
}

impl View for JobReport {
    type V = ReportView;

    open spec fn view(&self) -> ReportView {
        ReportView { attempts: self.attempts@, outcome: self.outcome }
    }
}

/// The first index at or after `from` that is `limit`, the end of the script,
/// or an attempt that is not oversized.
pub open spec fn oversized_until(
    budget: u64,
    script: Seq<ScriptedAttempt>,
    limit: int,
    from: int,
) -> int
    decreases limit - from,
{
    if 0 <= from < limit && from < script.len() && script[from].oversized(budget) {
        oversized_until(budget, script, limit, from + 1)
    } else {
        from
    }
}

/// The ordinal of the attempt that ends a run of `job` on `script`: the
/// first attempt that is not oversized, and the attempt at the last level if
/// all before it are. It is the length of the script if the script ends
/// before that.
pub open spec fn last_attempt(job: JobView, script: Seq<ScriptedAttempt>) -> int {
    oversized_until(job.budget, script, job.levels.len() - 1, 0)
}

/// The record of attempt `i` of a run of `job` on `script`.
pub open spec fn record_at(job: JobView, script: Seq<ScriptedAttempt>, i: int) -> EncodingAttempt {
    EncodingAttempt { ordinal: i as usize, level: job.levels[i], size: script[i].recorded_size() }
}

/// What a run of `job` reports when the input has the size `input` (`None`:
/// there is no input) and the encoder behaves as `script` says. `None` if the
/// script ends while the run still goes on.
pub open spec fn run(job: JobView, input: Option<u64>, script: Seq<ScriptedAttempt>) -> Option<
    ReportView,
> {
    match input {
        None => Some(ReportView { attempts: Seq::empty(), outcome: JobOutcome::MissingInput }),
        Some(input_size) => {
            let last = last_attempt(job, script);
            if last < script.len() {
                Some(
                    ReportView {
                        attempts: Seq::new((last + 1) as nat, |i: int| record_at(job, script, i)),
                        outcome: script[last].closing(job.budget, job.levels[last], input_size),
                    },
                )
            } else {
                None
            }
        },
    }
}

/// Runs the policy on `job`, answering its actions from `input` and
/// `script`, until it stops.
pub fn run_scripted(job: EncodingJob, input: Option<u64>, script: &Vec<ScriptedAttempt>) -> (r:
    Option<JobReport>)
    ensures
        match r {
            Some(report) => run(job@, input, script@) == Some(report@),
            None => run(job@, input, script@) is None,
        },
{
    let ghost j = job@;
    let ghost last = last_attempt(j, script@);
    let mut policy = Policy::new(job);
    let mut attempts: Vec<EncodingAttempt> = Vec::new();
    policy.handle(PolicyEvent::InputChecked(input));
    loop
        invariant
            j == job@,
            policy@.job == j,
            last == last_attempt(j, script@),
            match policy@.state {
                PolicyState::Attempting { attempt, input_size } => {
                    &&& input == Some(input_size)
                    &&& attempt == attempts@.len()
                    &&& last == oversized_until(j.budget, script@, j.levels.len() - 1, attempt as int)
                    &&& forall|i: int|
                        0 <= i < attempts@.len() ==> attempts@[i] == record_at(j, script@, i)
                },
                PolicyState::Finished(outcome) => run(j, input, script@) == Some(
                    ReportView { attempts: attempts@, outcome },
                ),
                _ => false,
            },
        decreases j.levels.len() - attempts@.len(),
    {
        proof {
            use_type_invariant(&policy);
        }
        match policy.action() {
            PolicyAction::Encode { .. } => {
                let i: usize = attempts.len();
                if i >= script.len() {
                    return None;
                }
                let scripted: ScriptedAttempt = script[i];
                let mut record: Option<EncodingAttempt> = policy.handle(
                    PolicyEvent::Invoked(scripted.invoked),
                );
                match policy.action() {
                    PolicyAction::Measure => {
                        record = policy.handle(PolicyEvent::Measured(scripted.measured));
                    },
                    _ => {},
                }
                match record {
                    Some(done) => {
                        attempts.push(done);
                    },
                    None => {},
                }
                proof {
                    if policy@.state is Finished {
                        assert(last == i);
                        assert(attempts@ =~= Seq::new(
                            (last + 1) as nat,
                            |k: int| record_at(j, script@, k),
                        ));
                    }
                }
            },
            _ => {
                return match policy.outcome() {
                    Some(outcome) => Some(JobReport { attempts, outcome }),
                    None => None,
                };
            },
        }
    }
}

/// Where `oversized_until` stops: within its bounds, after oversized attempts
/// only, and at an attempt that is not oversized unless a bound is reached.
pub proof fn lemma_oversized_until(
    budget: u64,
    script: Seq<ScriptedAttempt>,
    limit: int,
    from: int,
)
    requires
        0 <= from <= limit,
    ensures
        from <= oversized_until(budget, script, limit, from) <= limit,
        from <= script.len() ==> oversized_until(budget, script, limit, from) <= script.len(),
        forall|i: int|
            from <= i < oversized_until(budget, script, limit, from) ==> script[i].oversized(
                budget,
            ),
        ({
            let stop = oversized_until(budget, script, limit, from);
            stop < limit && stop < script.len() ==> !script[stop].oversized(budget)
        }),
    decreases limit - from,
{
    if from < limit && from < script.len() && script[from].oversized(budget) {
        lemma_oversized_until(budget, script, limit, from + 1);
    }
}

/// Two scripts that agree up to the place where `oversized_until` stops on
/// the first make it stop at the same place.
pub proof fn lemma_oversized_until_agrees(
    budget: u64,
    first: Seq<ScriptedAttempt>,
    second: Seq<ScriptedAttempt>,
    limit: int,
    from: int,
)
    requires
        0 <= from <= limit,
        oversized_until(budget, first, limit, from) < first.len(),
        oversized_until(budget, first, limit, from) < second.len(),
        forall|i: int|
            from <= i <= oversized_until(budget, first, limit, from) ==> first[i] == second[i],
    ensures
        oversized_until(budget, second, limit, from) == oversized_until(
            budget,
            first,
            limit,
            from,
        ),
    decreases limit - from,
{
    lemma_oversized_until(budget, first, limit, from);
    if from < limit && from < first.len() && first[from].oversized(budget) {
        lemma_oversized_until(budget, first, limit, from + 1);
        lemma_oversized_until_agrees(budget, first, second, limit, from + 1);
    }
}

/// An input that fits the budget at the first level is done in one attempt:
/// the run ends with success at that level.
pub proof fn law_fitting_first_attempt_succeeds(
    job: JobView,
    input_size: u64,
    script: Seq<ScriptedAttempt>,
    size: u64,
)
    requires
        job.wf(),
        script.len() > 0,
        script[0].invoked is Completed,
        script[0].measured == Some(size),
        size <= job.budget,
    ensures
        run(job, Some(input_size), script) matches Some(report) && report.attempts.len() == 1
            && report.attempts[0] == (EncodingAttempt {
            ordinal: 0,
            level: job.levels[0],
            size: Some(size),
        }) && report.outcome == (JobOutcome::Succeeded {
            level: job.levels[0],
            size,
            input_size,
        }),
{
}

/// The levels tried follow the job's schedule: attempt `i` is made at the
/// `i`-th level, so the levels tried rise strictly, and every attempt but the
/// last left an artifact over the budget.
pub proof fn law_attempts_follow_schedule(
    job: JobView,
    input: Option<u64>,
    script: Seq<ScriptedAttempt>,
    report: ReportView,
)
    requires
        job.wf(),
        run(job, input, script) == Some(report),
    ensures
        report.attempts.len() <= job.levels.len(),
        report.attempts.len() <= script.len(),
        forall|i: int|
            0 <= i < report.attempts.len() ==> (#[trigger] report.attempts[i]).ordinal == i
                && report.attempts[i].level == job.levels[i],
        forall|i: int, j: int|
            0 <= i < j < report.attempts.len() ==> (#[trigger] report.attempts[i]).level < (
            #[trigger] report.attempts[j]).level,
        forall|i: int|
            0 <= i < report.attempts.len() - 1 ==> (#[trigger] script[i]).oversized(job.budget),
{
    if input is Some {
        lemma_oversized_until(job.budget, script, job.levels.len() - 1, 0);
        assert forall|i: int| 0 <= i < report.attempts.len() implies (
        #[trigger] report.attempts[i]).ordinal == i by {
            lemma_valid_levels_bounded(job.levels, i);
        }
    }
}

/// No run makes more attempts than the job has levels.
pub proof fn law_attempts_bounded(
    job: JobView,
    input: Option<u64>,
    script: Seq<ScriptedAttempt>,
    report: ReportView,
)
    requires
        job.wf(),
        run(job, input, script) == Some(report),
    ensures
        report.attempts.len() <= job.levels.len(),
{
    law_attempts_follow_schedule(job, input, script, report);
}

/// A run of the standard job makes at most seven attempts, at the levels 28,
/// 30, and so on up to 40.
pub proof fn law_standard_job_attempts(
    input_path: Seq<char>,
    input: Option<u64>,
    script: Seq<ScriptedAttempt>,
    report: ReportView,
)
    requires
        run(standard_job(input_path), input, script) == Some(report),
    ensures
        report.attempts.len() <= 7,
        forall|i: int|
            0 <= i < report.attempts.len() ==> (#[trigger] report.attempts[i]).level == 28 + 2 * i,
{
    law_standard_levels();
    law_levels_rise(standard_schedule());
    law_attempts_follow_schedule(standard_job(input_path), input, script, report);
}

/// A run starts from the first level whatever ran before, and depends on the
/// encoder only through the attempts it makes: against an encoder that
/// behaves the same at those attempts, a second run of the job reports the
/// same attempts and the same outcome.
pub proof fn law_rerun_reports_the_same(
    job: JobView,
    input: Option<u64>,
    first: Seq<ScriptedAttempt>,
    second: Seq<ScriptedAttempt>,
    report: ReportView,
)
    requires
        job.wf(),
        run(job, input, first) == Some(report),
        second.len() >= report.attempts.len(),
        forall|i: int| 0 <= i < report.attempts.len() ==> first[i] == second[i],
    ensures
        run(job, input, second) == Some(report),
{
    if input is Some {
        let limit = job.levels.len() - 1;
        lemma_oversized_until(job.budget, first, limit, 0);
        lemma_oversized_until_agrees(job.budget, first, second, limit, 0);
        let last = last_attempt(job, first);
        assert(Seq::new((last + 1) as nat, |i: int| record_at(job, first, i)) =~= Seq::new(
            (last + 1) as nat,
            |i: int| record_at(job, second, i),
        ));
    }
}

/// Without an input nothing is attempted, whatever the encoder would do.
pub proof fn law_missing_input_makes_no_attempt(job: JobView, script: Seq<ScriptedAttempt>)
    ensures
        run(job, None, script) == Some(
            ReportView { attempts: Seq::empty(), outcome: JobOutcome::MissingInput },
        ),
{
}

/// An encoder that cannot be started, or that fails, at the first attempt
/// ends the run there: one attempt is made and its failure is the outcome.
pub proof fn law_encoder_failure_is_not_retried(
    job: JobView,
    input_size: u64,
    script: Seq<ScriptedAttempt>,
)
    requires
        job.wf(),
        script.len() > 0,
        !(script[0].invoked is Completed),
    ensures
        run(job, Some(input_size), script) matches Some(report) && report.attempts.len() == 1
            && report.attempts[0] == (EncodingAttempt {
            ordinal: 0,
            level: job.levels[0],
            size: None,
        }) && report.outcome == match script[0].invoked {
            InvokerOutcome::LaunchFailed { cause } => JobOutcome::LaunchFailed { cause },
            InvokerOutcome::ToolFailed { code } => JobOutcome::ToolFailed { code },
            InvokerOutcome::Completed => JobOutcome::MeasurementFailed,
        },
{
}

/// Only the last attempt of a run can be one whose encoder call failed or
/// whose artifact could not be measured: no attempt follows such a one.
pub proof fn law_failure_ends_run(
    job: JobView,
    input: Option<u64>,
    script: Seq<ScriptedAttempt>,
    report: ReportView,
    i: int,
)
    requires
        job.wf(),
        run(job, input, script) == Some(report),
        0 <= i < report.attempts.len(),
        report.attempts[i].size is None,
    ensures
        i == report.attempts.len() - 1,
        !report.outcome.succeeded(),
        !(report.outcome is Exhausted),
{
    law_attempts_follow_schedule(job, input, script, report);
    lemma_oversized_until(job.budget, script, job.levels.len() - 1, 0);
    assert(report.attempts[i] == record_at(job, script, i));
}

/// A run that is over stays over: no event changes a finished state, and the
/// policy asks for nothing more.
pub proof fn law_finished_is_final(policy: PolicyView, event: PolicyEvent)
    requires
        policy.state is Finished,
    ensures
        policy.after(event) == policy,
        policy.action() == PolicyAction::Stop,
        policy.recorded(event) is None,
{
}

} // verus!
