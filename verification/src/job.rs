//! The request that one run of the policy works on.

use vstd::prelude::*;
use vstd::string::StringExecFns;
use crate::output_path::output_path;
use crate::output_path::output_path_for;
use crate::paths::path_file_stem;
use crate::quality::law_levels_rise;
use crate::quality::law_standard_levels;
use crate::quality::standard_schedule;
use crate::quality::Schedule;
use crate::quality::MAX_SIZE_BYTES;
use crate::quality::QualityLevel;

verus! {

/// Whether `levels` can be the schedule of a job: there is a first level, and
/// each level is above the one before it.
pub open spec fn valid_levels(levels: Seq<u32>) -> bool {
    &&& levels.len() > 0
    &&& forall|i: int, j: int| 0 <= i < j < levels.len() ==> levels[i] < levels[j]
}

/// In a valid schedule the level at index `i` is at least `i`, so there are no
/// more levels than a `u32` has values.
pub proof fn lemma_valid_levels_bounded(levels: Seq<u32>, i: int)
    requires
        valid_levels(levels),
        0 <= i < levels.len(),
    ensures
        levels[i] >= i,
        i <= u32::MAX,
    decreases i,
{
    if i > 0 {
        lemma_valid_levels_bounded(levels, i - 1);
    }
}

/// What an [`EncodingJob`] holds, as plain values.
pub struct JobView {
    /// Path of the video to compress.
    pub input: Seq<char>,
    /// Path that every attempt writes to.
    pub output: Seq<char>,
    /// Largest acceptable size of the result, in bytes.
    pub budget: u64,
    /// The quality levels to try, in order.
    pub levels: Seq<u32>,
}

impl JobView {
    /// A job is well formed when its levels are a valid schedule.
    pub open spec fn wf(self) -> bool {
        valid_levels(self.levels)
    }
}

/// The standard job for the input path `input`: the output beside the input,
/// a budget of 10 MiB and the levels of the standard schedule.
pub open spec fn standard_job(input: Seq<char>) -> JobView
    recommends
        path_file_stem(input) is Some,
{
    JobView {
        input: input,
        output: output_path(input),
        budget: MAX_SIZE_BYTES,
        levels: standard_schedule().levels(),
    }
}

/// One request: compress `input` into `output` until it is no larger than
/// `budget`, trying `levels` in order.
///
/// Every value of this type is well formed.
#[derive(Debug)]
pub struct EncodingJob {
    input: String,
    output: String,
    budget: u64,
    levels: Vec<QualityLevel>,
}

impl View for EncodingJob {
    type V = JobView;

    closed spec fn view(&self) -> JobView {
        JobView {
            input: self.input@,
            output: self.output@,
            budget: self.budget,
            levels: self.levels@,
        }
    }
}

impl EncodingJob {
    /// Holds of every job.
    #[verifier::type_invariant]
    pub open spec fn wf(&self) -> bool {
        self@.wf()
    }

    /// Makes a job of the four values, unless `levels` is no valid schedule.
    pub fn new(
        input: String,
        output: String,
        budget: u64,
        levels: Vec<QualityLevel>,
    ) -> (r: Option<
        EncodingJob,
    >)
        ensures
            r is Some <==> valid_levels(levels@),
            r matches Some(job) ==> job@ == (JobView {
                input: input@,
                output: output@,
                budget: budget,
                levels: levels@,
            }),
    {
        if levels.len() == 0 {
            return None;
        }
        let mut i: usize = 1;
        while i < levels.len()
            invariant
                1 <= i <= levels@.len(),
                forall|a: int, b: int| 0 <= a < b < i ==> levels@[a] < levels@[b],
            decreases levels@.len() - i,
        {
            if levels[i - 1] >= levels[i] {
                return None;
            }
            i = i + 1;
        }
        Some(EncodingJob { input, output, budget, levels })
    }

    /// The standard job for `input`, or `None` if `input` has no file name.
    pub fn standard(input: &str) -> (r: Option<EncodingJob>)
        ensures
            match r {
                Some(job) => path_file_stem(input@) is Some && job@ == standard_job(input@),
                None => path_file_stem(input@) is None,
            },
    {
        match output_path_for(input) {
            None => None,
            Some(output) => {
                let levels: Vec<QualityLevel> = Schedule::standard().to_levels();
                proof {
                    law_standard_levels();
                    law_levels_rise(standard_schedule());
                }
                EncodingJob::new(String::from_str(input), output, MAX_SIZE_BYTES, levels)
            },
        }
    }

    /// Path of the video to compress.
    pub fn input(&self) -> (s: &str)
        ensures
            s@ == self@.input,
    {
        self.input.as_str()
    }

    /// Path that every attempt writes to.
    pub fn output(&self) -> (s: &str)
        ensures
            s@ == self@.output,
    {
        self.output.as_str()
    }

    /// Largest acceptable size of the result, in bytes.
    pub fn budget(&self) -> (b: u64)
        ensures
            b == self@.budget,
    {
        self.budget
    }

    /// The quality levels to try, in order.
    pub fn levels(&self) -> (v: &Vec<QualityLevel>)
        ensures
            v@ == self@.levels,
    {
        &self.levels
    }
}

} // verus!
