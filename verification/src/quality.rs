//! Quality levels and the schedule in which they are tried.
//!
//! A level trades encoded size against perceived quality: a lower level keeps
//! more quality and gives a larger file, a higher level gives a smaller one.

use vstd::prelude::*;
use vstd::arithmetic::div_mod::lemma_fundamental_div_mod;
use vstd::arithmetic::div_mod::lemma_mod_bound;

verus! {

/// A quality level of the encoder. A job tries its levels in rising order,
/// so each retry gives up quality for size.
pub type QualityLevel = u32;

/// Size budget of the standard job: 10 MiB.
pub const MAX_SIZE_BYTES: u64 = 10485760;

/// An arithmetic progression of quality levels, cut off by a limit on the
/// level and by a limit on the number of attempts.
#[derive(Clone, Copy, Debug, PartialEq, Eq)]
pub struct Schedule {
    /// Level of the first attempt.
    pub initial: QualityLevel,
    /// Added to the level on each retry.
    pub step: u32,
    /// No level above this one is tried.
    pub max_level: QualityLevel,
    /// No more attempts than this are made.
    pub max_attempts: usize,
}

impl Schedule {
    /// The level of the attempt with ordinal `i`, were it made.
    pub open spec fn term(self, i: int) -> int {
        self.initial + i * self.step
    }

    /// The number of levels in the schedule.
    pub open spec fn count(self) -> nat {
        if self.initial > self.max_level {
            0
        } else if self.step == 0 {
            self.max_attempts as nat
        } else {
            let within = (self.max_level - self.initial) / (self.step as int) + 1;
            if self.max_attempts <= within {
                self.max_attempts as nat
            } else {
                within as nat
            }
        }
    }

    /// The levels of the schedule, in the order in which they are tried.
    pub open spec fn levels(self) -> Seq<u32> {
        Seq::new(self.count(), |i: int| self.term(i) as u32)
    }

    /// Start at 28, add 2 on each retry, never go above 40, and make at most
    /// 7 attempts.
    pub fn standard() -> (s: Schedule)
        ensures
            s == standard_schedule(),
    {
        Schedule { initial: 28, step: 2, max_level: 40, max_attempts: 7 }
    }

    /// Writes the schedule out as the list of its levels.
    pub fn to_levels(&self) -> (v: Vec<QualityLevel>)
        ensures
            v@ == self.levels(),
    {
        let mut v: Vec<u32> = Vec::new();
        let mut level: u32 = self.initial;
        let mut more: bool = self.max_attempts > 0 && level <= self.max_level;
        proof {
            if self.initial <= self.max_level && self.step > 0 {
                lemma_term_within_span(self.step as int, 0, self.max_level - self.initial);
            }
        }
        while more
            invariant
                v@.len() <= self.max_attempts,
                v@.len() <= self.count(),
                forall|k: int| 0 <= k < v@.len() ==> v@[k] == self.term(k),
                more ==> level == self.term(v@.len() as int),
                more <==> v@.len() < self.count(),
            decreases self.count() - v@.len(),
        {
            v.push(level);
            let ghost n: int = v@.len() as int;
            proof {
                assert(n * self.step == (n - 1) * self.step + self.step) by (nonlinear_arith);
                if self.step > 0 {
                    lemma_term_within_span(self.step as int, n, self.max_level - self.initial);
                }
            }
            if v.len() < self.max_attempts {
                match level.checked_add(self.step) {
                    Some(next) => {
                        level = next;
                        more = level <= self.max_level;
                    },
                    None => {
                        more = false;
                    },
                }
            } else {
                more = false;
            }
        }
        assert(v@ =~= self.levels());
        v
    }
}

/// With a positive step, `i` steps stay within `span` exactly when `i` is at
/// most the quotient of `span` by the step.
proof fn lemma_term_within_span(step: int, i: int, span: int)
    requires
        step > 0,
        i >= 0,
        span >= 0,
    ensures
        i * step <= span <==> i <= span / step,
{
    lemma_fundamental_div_mod(span, step);
    lemma_mod_bound(span, step);
    let q = span / step;
    let r = span % step;
    if i <= q {
        assert(i * step <= q * step) by (nonlinear_arith)
            requires
                i <= q,
                step > 0,
        ;
        assert(step * q == q * step) by (nonlinear_arith);
    } else {
        assert(i * step >= (q + 1) * step) by (nonlinear_arith)
            requires
                i >= q + 1,
                step > 0,
        ;
        assert((q + 1) * step == step * q + step) by (nonlinear_arith);
    }
}

/// The schedule that [`Schedule::standard`] returns.
pub open spec fn standard_schedule() -> Schedule {
    Schedule { initial: 28, step: 2, max_level: 40, max_attempts: 7 }
}

/// A schedule's levels are the terms of its progression, none above the
/// limit on the level and no more of them than attempts are allowed. The
/// schedule ends only where the attempts are used up or the next term would
/// be above the limit.
pub proof fn law_levels_within_limits(schedule: Schedule)
    ensures
        schedule.levels().len() == schedule.count(),
        schedule.count() <= schedule.max_attempts,
        forall|i: int|
            0 <= i < schedule.count() ==> (#[trigger] schedule.levels()[i]) == schedule.term(i)
                && schedule.levels()[i] <= schedule.max_level,
        schedule.count() < schedule.max_attempts ==> schedule.term(schedule.count() as int)
            > schedule.max_level,
{
    let span = schedule.max_level - schedule.initial;
    let step = schedule.step as int;
    if schedule.initial <= schedule.max_level && schedule.step > 0 {
        lemma_term_within_span(step, schedule.count() as int, span);
        assert forall|i: int| 0 <= i < schedule.count() implies (
        #[trigger] schedule.levels()[i]) == schedule.term(i) && schedule.levels()[i]
            <= schedule.max_level by {
            lemma_term_within_span(step, i, span);
        }
    }
}

/// With a positive step the levels rise strictly.
pub proof fn law_levels_rise(schedule: Schedule)
    requires
        schedule.step > 0,
    ensures
        forall|i: int, j: int|
            0 <= i < j < schedule.count() ==> (#[trigger] schedule.levels()[i]) < (
            #[trigger] schedule.levels()[j]),
{
    law_levels_within_limits(schedule);
    assert forall|i: int, j: int| 0 <= i < j < schedule.count() implies (
    #[trigger] schedule.levels()[i]) < (#[trigger] schedule.levels()[j]) by {
        assert(i * schedule.step < j * schedule.step) by (nonlinear_arith)
            requires
                0 <= i < j,
                schedule.step > 0,
        ;
    }
}

/// The standard schedule is 28, 30, 32, 34, 36, 38, 40: seven levels, two
/// apart.
pub proof fn law_standard_levels()
    ensures
        standard_schedule().levels() == seq![28u32, 30u32, 32u32, 34u32, 36u32, 38u32, 40u32],
        standard_schedule().count() == 7,
        forall|i: int| 0 <= i < 7 ==> (#[trigger] standard_schedule().levels()[i]) == 28 + 2 * i,
{
    assert(standard_schedule().levels() =~= seq![
        28u32,
        30u32,
        32u32,
        34u32,
        36u32,
        38u32,
        40u32,
    ]);
}

} // verus!
