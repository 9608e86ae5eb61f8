//! The size-constrained encoding policy, as a state machine.
//!
//! The policy never runs anything itself. It says which action it is waiting
//! for; the caller performs that action and hands back what happened as an
//! event, and the policy moves on. Each attempt's outcome decides whether and
//! how the next attempt happens, so an attempt is never asked for while
//! another one is under way.

use vstd::prelude::*;
use crate::invoker::encoder_args;
use crate::invoker::encoder_arguments;
use crate::invoker::InvokerOutcome;
use crate::invoker::LaunchCause;
use crate::job::EncodingJob;
use crate::job::JobView;
use crate::job::lemma_valid_levels_bounded;
use crate::quality::QualityLevel;

verus! {

/// The record of one attempt.
#[derive(Clone, Copy, Debug, PartialEq, Eq)]
pub struct EncodingAttempt {
    /// Position of the attempt in the run, counted from 0.
    pub ordinal: usize,
    /// Quality level that the encoder was given.
    pub level: QualityLevel,
    /// Size of the artifact in bytes; absent if the attempt produced none
    /// that could be measured.
    pub size: Option<u64>,
}

/// How a job ends.
#[derive(Clone, Copy, Debug, PartialEq, Eq)]
pub enum JobOutcome {
    /// The artifact at the output path fits the budget.
    Succeeded {
        /// Quality level of the accepted artifact.
        level: QualityLevel,
        /// Its size in bytes.
        size: u64,
        /// Size of the input in bytes.
        input_size: u64,
    },
    /// Every level was tried and none met the budget. The artifact of the
    /// last attempt stays at the output path.
    Exhausted {
        /// Quality level of the last attempt.
        level: QualityLevel,
        /// Size of its artifact in bytes.
        size: u64,
    },
    /// The input could not be found or read; nothing was attempted.
    MissingInput,
    /// The encoder could not be started.
    LaunchFailed {
        /// Why it could not.
        cause: LaunchCause,
    },
    /// The encoder ran and reported a failure.
    ToolFailed {
        /// Its exit code, if it exited on its own.
        code: Option<i32>,
    },
    /// The encoder reported success, but its artifact could not be measured.
    MeasurementFailed,
}

impl JobOutcome {
    /// Whether the job ended with an artifact that fits the budget.
    pub open spec fn succeeded(self) -> bool {
        self is Succeeded
    }

    /// Whether the job ended with an artifact that fits the budget. A caller
    /// that is a program exits with a zero status exactly then.
    pub fn is_success(&self) -> (b: bool)
        ensures
            b == self.succeeded(),
    {
        match self {
            JobOutcome::Succeeded { .. } => true,
            _ => false,
        }
    }
}

/// Where a run of the policy stands.
#[derive(Clone, Copy, Debug, PartialEq, Eq)]
pub enum PolicyState {
    /// Nothing has happened yet.
    Pending,
    /// The encoder is to be run at the level with index `attempt`.
    Attempting {
        /// Index of the level, which is the ordinal of the attempt.
        attempt: usize,
        /// Size of the input in bytes.
        input_size: u64,
    },
    /// The encoder has completed attempt `attempt`; its artifact is to be
    /// measured.
    Measuring {
        /// Ordinal of the attempt.
        attempt: usize,
        /// Size of the input in bytes.
        input_size: u64,
    },
    /// The run is over.
    Finished(JobOutcome),
}

/// What the policy asks its caller to do next.
#[derive(Clone, Copy, Debug, PartialEq, Eq)]
pub enum PolicyAction {
    /// Look up the input and report its size.
    CheckInput,
    /// Run the encoder from the job's input to its output.
    Encode {
        /// Quality level to run it at.
        level: QualityLevel,
    },
    /// Report the size of the artifact at the job's output path.
    Measure,
    /// Nothing: the run is over.
    Stop,
}

/// What the caller reports back.
#[derive(Clone, Copy, Debug, PartialEq, Eq)]
pub enum PolicyEvent {
    /// Answer to [`PolicyAction::CheckInput`]: the size of the input in
    /// bytes, or `None` if it does not exist or cannot be read.
    InputChecked(Option<u64>),
    /// Answer to [`PolicyAction::Encode`].
    Invoked(InvokerOutcome),
    /// Answer to [`PolicyAction::Measure`]: the size of the artifact in
    /// bytes, or `None` if it could not be measured.
    Measured(Option<u64>),
}

/// A policy as plain values: the job it works on and where it stands.
pub struct PolicyView {
    /// The job.
    pub job: JobView,
    /// The state of the run.
    pub state: PolicyState,
}

impl PolicyView {
    /// The job is well formed, and an attempt under way is one of its levels.
    pub open spec fn wf(self) -> bool {
        &&& self.job.wf()
        &&& match self.state {
            PolicyState::Attempting { attempt, .. } => attempt < self.job.levels.len(),
            PolicyState::Measuring { attempt, .. } => attempt < self.job.levels.len(),
            _ => true,
        }
    }

    /// The action that the state waits for.
    pub open spec fn action(self) -> PolicyAction {
        match self.state {
            PolicyState::Pending => PolicyAction::CheckInput,
            PolicyState::Attempting { attempt, .. } => PolicyAction::Encode {
                level: self.job.levels[attempt as int],
            },
            PolicyState::Measuring { .. } => PolicyAction::Measure,
            PolicyState::Finished(_) => PolicyAction::Stop,
        }
    }

    /// The arguments of the encoder call that the state waits for, if it
    /// waits for one: from the job's input to the job's output, which is the
    /// same path at every attempt, at the level of the attempt.
    pub open spec fn encoder_call(self) -> Option<Seq<Seq<char>>> {
        match self.action() {
            PolicyAction::Encode { level } => Some(
                encoder_arguments(self.job.input, self.job.output, level),
            ),
            _ => None,
        }
    }

    /// The state that follows when `event` is reported.
    ///
    /// - A missing input ends the run before any attempt.
    /// - A failure to launch or run the encoder ends the run: it is not
    ///   retried at another level.
    /// - A failure to measure the artifact ends the run.
    /// - An artifact within the budget ends the run with success.
    /// - A larger one leads to the next level, or ends the run as exhausted
    ///   when there is none.
    /// - An event that does not answer the action the state waits for
    ///   changes nothing.
    pub open spec fn next_state(self, event: PolicyEvent) -> PolicyState {
        match (self.state, event) {
            (PolicyState::Pending, PolicyEvent::InputChecked(None)) => PolicyState::Finished(
                JobOutcome::MissingInput,
            ),
            (PolicyState::Pending, PolicyEvent::InputChecked(Some(size))) => {
                PolicyState::Attempting { attempt: 0, input_size: size }
            },
            (
                PolicyState::Attempting { attempt, input_size },
                PolicyEvent::Invoked(InvokerOutcome::Completed),
            ) => PolicyState::Measuring { attempt, input_size },
            (
                PolicyState::Attempting { .. },
                PolicyEvent::Invoked(InvokerOutcome::ToolFailed { code }),
            ) => PolicyState::Finished(JobOutcome::ToolFailed { code }),
            (
                PolicyState::Attempting { .. },
                PolicyEvent::Invoked(InvokerOutcome::LaunchFailed { cause }),
            ) => PolicyState::Finished(JobOutcome::LaunchFailed { cause }),
            (PolicyState::Measuring { .. }, PolicyEvent::Measured(None)) => PolicyState::Finished(
                JobOutcome::MeasurementFailed,
            ),
            (
                PolicyState::Measuring { attempt, input_size },
                PolicyEvent::Measured(Some(size)),
            ) => {
                if size <= self.job.budget {
                    PolicyState::Finished(
                        JobOutcome::Succeeded {
                            level: self.job.levels[attempt as int],
                            size,
                            input_size,
                        },
                    )
                } else if attempt + 1 < self.job.levels.len() {
                    PolicyState::Attempting { attempt: (attempt + 1) as usize, input_size }
                } else {
                    PolicyState::Finished(
                        JobOutcome::Exhausted { level: self.job.levels[attempt as int], size },
                    )
                }
            },
            (state, _) => state,
        }
    }

    /// The policy after `event`: the same job in the next state.
    pub open spec fn after(self, event: PolicyEvent) -> PolicyView {
        PolicyView { job: self.job, state: self.next_state(event) }
    }

    /// Whether `event` starts an attempt: it leads to a state that waits
    /// for the encoder, from a state that is another.
    pub open spec fn starts_attempt(self, event: PolicyEvent) -> bool {
        self.next_state(event) is Attempting && self.next_state(event) != self.state
    }

    /// How many attempts are started when `events` are reported one after
    /// the other.
    pub open spec fn attempts_started(self, events: Seq<PolicyEvent>) -> nat
        decreases events.len(),
    {
        if events.len() == 0 {
            0
        } else {
            let first: nat = if self.starts_attempt(events[0]) {
                1
            } else {
                0
            };
            first + self.after(events[0]).attempts_started(events.skip(1))
        }
    }

    /// How many attempts can still be started: all of the job's levels
    /// before the run starts, the levels after the present one while an
    /// attempt is under way, and none once the run is over.
    pub open spec fn attempts_left(self) -> nat {
        match self.state {
            PolicyState::Pending => self.job.levels.len(),
            PolicyState::Attempting { attempt, .. } => (self.job.levels.len() - attempt - 1) as nat,
            PolicyState::Measuring { attempt, .. } => (self.job.levels.len() - attempt - 1) as nat,
            PolicyState::Finished(_) => 0,
        }
    }

    /// The record that `event` completes, if it ends an attempt.
    pub open spec fn recorded(self, event: PolicyEvent) -> Option<EncodingAttempt> {
        match (self.state, event) {
            (
                PolicyState::Attempting { attempt, .. },
                PolicyEvent::Invoked(InvokerOutcome::ToolFailed { .. }),
            ) => Some(
                EncodingAttempt { ordinal: attempt, level: self.job.levels[attempt as int], size: None },
            ),
            (
                PolicyState::Attempting { attempt, .. },
                PolicyEvent::Invoked(InvokerOutcome::LaunchFailed { .. }),
            ) => Some(
                EncodingAttempt { ordinal: attempt, level: self.job.levels[attempt as int], size: None },
            ),
            (PolicyState::Measuring { attempt, .. }, PolicyEvent::Measured(size)) => Some(
                EncodingAttempt { ordinal: attempt, level: self.job.levels[attempt as int], size },
            ),
            _ => None,
        }
    }
}

/// A run of the policy on one job, which it owns until the run is over.
///
/// Every value of this type is well formed.
#[derive(Debug)]
pub struct Policy {
    job: EncodingJob,
    state: PolicyState,
}

impl View for Policy {
    type V = PolicyView;

    closed spec fn view(&self) -> PolicyView {
        PolicyView { job: self.job@, state: self.state }
    }
}

impl Policy {
    /// Holds of every policy.
    #[verifier::type_invariant]
    pub open spec fn wf(&self) -> bool {
        self@.wf()
    }

    /// A run of `job` that has not started.
    pub fn new(job: EncodingJob) -> (p: Policy)
        ensures
            p@ == (PolicyView { job: job@, state: PolicyState::Pending }),
    {
        proof {
            use_type_invariant(&job);
        }
        Policy { job, state: PolicyState::Pending }
    }

    /// The action that the policy waits for.
    pub fn action(&self) -> (a: PolicyAction)
        ensures
            a == self@.action(),
    {
        proof {
            use_type_invariant(self);
        }
        match self.state {
            PolicyState::Pending => PolicyAction::CheckInput,
            PolicyState::Attempting { attempt, .. } => PolicyAction::Encode {
                level: self.job.levels()[attempt],
            },
            PolicyState::Measuring { .. } => PolicyAction::Measure,
            PolicyState::Finished(_) => PolicyAction::Stop,
        }
    }

    /// The arguments to call the encoder with, if the policy waits for a call
    /// of the encoder.
    pub fn encoder_call(&self) -> (args: Option<Vec<String>>)
        ensures
            match args {
                Some(list) => self@.encoder_call() == Some(list.deep_view()),
                None => self@.encoder_call() is None,
            },
    {
        match self.action() {
            PolicyAction::Encode { level } => Some(
                encoder_args(self.job.input(), self.job.output(), level),
            ),
            _ => None,
        }
    }

    /// Takes in what the caller reports and moves to the next state. Returns
    /// the record of the attempt that the event completes, if it does.
    pub fn handle(&mut self, event: PolicyEvent) -> (record: Option<EncodingAttempt>)
        ensures
            final(self)@ == old(self)@.after(event),
            record == old(self)@.recorded(event),
    {
        proof {
            use_type_invariant(&*self);
        }
        let mut record: Option<EncodingAttempt> = None;
        let next: PolicyState = match (self.state, event) {
            (PolicyState::Pending, PolicyEvent::InputChecked(None)) => PolicyState::Finished(
                JobOutcome::MissingInput,
            ),
            (PolicyState::Pending, PolicyEvent::InputChecked(Some(size))) => {
                PolicyState::Attempting { attempt: 0, input_size: size }
            },
            (
                PolicyState::Attempting { attempt, input_size },
                PolicyEvent::Invoked(outcome),
            ) => {
                let level: u32 = self.job.levels()[attempt];
                match outcome {
                    InvokerOutcome::Completed => PolicyState::Measuring { attempt, input_size },
                    InvokerOutcome::ToolFailed { code } => {
                        record = Some(EncodingAttempt { ordinal: attempt, level, size: None });
                        PolicyState::Finished(JobOutcome::ToolFailed { code })
                    },
                    InvokerOutcome::LaunchFailed { cause } => {
                        record = Some(EncodingAttempt { ordinal: attempt, level, size: None });
                        PolicyState::Finished(JobOutcome::LaunchFailed { cause })
                    },
                }
            },
            (PolicyState::Measuring { attempt, input_size }, PolicyEvent::Measured(measured)) => {
                let level: u32 = self.job.levels()[attempt];
                let count: usize = self.job.levels().len();
                record = Some(EncodingAttempt { ordinal: attempt, level, size: measured });
                match measured {
                    None => PolicyState::Finished(JobOutcome::MeasurementFailed),
                    Some(size) => {
                        if size <= self.job.budget() {
                            PolicyState::Finished(
                                JobOutcome::Succeeded { level, size, input_size },
                            )
                        } else if attempt + 1 < count {
                            PolicyState::Attempting { attempt: attempt + 1, input_size }
                        } else {
                            PolicyState::Finished(JobOutcome::Exhausted { level, size })
                        }
                    },
                }
            },
            (state, _) => state,
        };
        self.state = next;
        record
    }

    /// Where the run stands.
    pub fn state(&self) -> (s: PolicyState)
        ensures
            s == self@.state,
    {
        self.state
    }

    /// The job that the policy works on.
    pub fn job(&self) -> (j: &EncodingJob)
        ensures
            j@ == self@.job,
    {
        &self.job
    }

    /// How the run ended, once it has.
    pub fn outcome(&self) -> (o: Option<JobOutcome>)
        ensures
            o == match self@.state {
                PolicyState::Finished(outcome) => Some(outcome),
                _ => None,
            },
    {
        match self.state {
            PolicyState::Finished(outcome) => Some(outcome),
            _ => None,
        }
    }
}

/// Every event leaves a well-formed policy well formed.
pub proof fn law_policy_stays_well_formed(policy: PolicyView, event: PolicyEvent)
    requires
        policy.wf(),
    ensures
        policy.after(event).wf(),
        policy.after(event).job == policy.job,
{
}

/// Whatever is reported, and in whatever order, no more attempts are started
/// than can still be: over a whole run no more than the job has levels, and
/// none after the run is over.
pub proof fn law_attempts_never_exceed_levels(policy: PolicyView, events: Seq<PolicyEvent>)
    requires
        policy.wf(),
    ensures
        policy.attempts_started(events) <= policy.attempts_left(),
        policy.attempts_left() <= policy.job.levels.len(),
    decreases events.len(),
{
    if events.len() > 0 {
        let next = policy.after(events[0]);
        if let PolicyState::Measuring { attempt, .. } = policy.state {
            if attempt + 1 < policy.job.levels.len() {
                lemma_valid_levels_bounded(policy.job.levels, attempt + 1);
            }
        }
        law_attempts_never_exceed_levels(next, events.skip(1));
    }
}

/// Attempts follow one another: while the encoder is to be run, nothing but
/// its outcome moves the policy, and the next attempt is asked for only
/// after the artifact of this one was measured and found too large.
pub proof fn law_attempts_are_sequential(policy: PolicyView, event: PolicyEvent)
    requires
        policy.wf(),
        policy.after(event).state matches PolicyState::Attempting { attempt, .. } && attempt > 0,
        policy.after(event).state != policy.state,
    ensures
        policy.state matches PolicyState::Measuring { attempt, .. } && policy.after(event).state
            matches PolicyState::Attempting { attempt: next, .. } && next == attempt + 1,
        event matches PolicyEvent::Measured(Some(size)) && size > policy.job.budget,
{
    if let PolicyState::Measuring { attempt, .. } = policy.state {
        if attempt + 1 < policy.job.levels.len() {
            lemma_valid_levels_bounded(policy.job.levels, attempt + 1);
        }
    }
}

} // verus!
