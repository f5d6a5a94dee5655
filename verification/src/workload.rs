//! How long things take: random delays for working, helping and backing off.
//!
//! The office itself never waits. Its steps return actions, and the workload
//! says how many milliseconds the caller should spend on each of them.
use crate::model::{StudentAction, TaAction};
use rand::Rng;
use vstd::prelude::*;

verus! {

/// A half-open range of milliseconds, `low..high`.
#[derive(Clone, Copy, Debug)]
pub struct DelayRange {
    low: u64,
    high: u64,
}

/// The two ends of a range.
pub ghost struct RangeView {
    /// The least delay of the range.
    pub low: int,
    /// The least delay above the range.
    pub high: int,
}

impl RangeView {
    /// Whether the delay lies in the range.
    pub open spec fn contains(self, ms: int) -> bool {
        self.low <= ms < self.high
    }
}

impl View for DelayRange {
    type V = RangeView;

    closed spec fn view(&self) -> RangeView {
        RangeView { low: self.low as int, high: self.high as int }
    }
}

impl DelayRange {
    /// A range holds at least one delay.
    pub open spec fn wf(&self) -> bool {
        0 <= self@.low < self@.high <= u64::MAX
    }

    /// The range `low..high`, if it is not empty.
    pub fn new(low: u64, high: u64) -> (range: Option<Self>)
        ensures
            range is Some <==> low < high,
            range is Some ==> range.unwrap().wf() && range.unwrap()@ == (RangeView {
                low: low as int,
                high: high as int,
            }),
    {
        if low < high {
            Some(DelayRange { low, high })
        } else {
            None
        }
    }

    /// The least delay of the range.
    pub fn low(&self) -> (low: u64)
        ensures
            low == self@.low,
    {
        self.low
    }

    /// The least delay above the range.
    pub fn high(&self) -> (high: u64)
        ensures
            high == self@.high,
    {
        self.high
    }

    /// Whether the delay lies in the range.
    pub fn contains(&self, ms: u64) -> (inside: bool)
        ensures
            inside == self@.contains(ms as int),
    {
        self.low <= ms && ms < self.high
    }

    /// A random delay from the range. Two calls may differ; each result lies
    /// in the range.
    pub fn sample(&self) -> (ms: u64)
        requires
            self.wf(),
        ensures
            self@.contains(ms as int),
    {
        random_below(self.low, self.high)
    }
}

/// Calls `rand::Rng::gen_range` on the thread's generator, `rand::thread_rng`,
/// with the half-open range `low..high`. The range must not be empty, as
/// `gen_range` panics on an empty one. The result is some value of the range:
/// nothing is said of which, and two calls may differ.
#[verifier::external_body]
fn random_below(low: u64, high: u64) -> (ms: u64)
    requires
        low < high,
    ensures
        low <= ms < high,
{
    rand::thread_rng().gen_range(low..high)
}

/// The delay ranges of a run.
#[derive(Clone, Copy, Debug)]
pub struct Workload {
    programming: DelayRange,
    help: DelayRange,
    retry: DelayRange,
}

impl Workload {
    /// All three ranges hold at least one delay.
    pub closed spec fn wf(&self) -> bool {
        self.programming.wf() && self.help.wf() && self.retry.wf()
    }

    /// The range of a student's working time.
    pub closed spec fn programming_range(&self) -> RangeView {
        self.programming@
    }

    /// The range of a help session's length.
    pub closed spec fn help_range(&self) -> RangeView {
        self.help@
    }

    /// The range of the time a student backs off after being turned away.
    pub closed spec fn retry_range(&self) -> RangeView {
        self.retry@
    }

    /// The default workload: students program for two to five seconds, and a
    /// help session and a back-off each take one to three.
    pub fn new() -> (workload: Self)
        ensures
            workload.wf(),
            workload.programming_range() == (RangeView { low: 2000, high: 5000 }),
            workload.help_range() == (RangeView { low: 1000, high: 3000 }),
            workload.retry_range() == (RangeView { low: 1000, high: 3000 }),
    {
        Workload {
            programming: DelayRange { low: 2000, high: 5000 },
            help: DelayRange { low: 1000, high: 3000 },
            retry: DelayRange { low: 1000, high: 3000 },
        }
    }

    /// A workload with the given ranges.
    pub fn with_ranges(programming: DelayRange, help: DelayRange, retry: DelayRange) -> (workload:
        Self)
        requires
            programming.wf(),
            help.wf(),
            retry.wf(),
        ensures
            workload.wf(),
            workload.programming_range() == programming@,
            workload.help_range() == help@,
            workload.retry_range() == retry@,
    {
        Workload { programming, help, retry }
    }

    /// How long the TA's caller spends on the action: the length of a help
    /// session when one has started, and no time otherwise.
    pub fn ta_delay(&self, action: TaAction) -> (delay: Option<u64>)
        requires
            self.wf(),
        ensures
            delay is Some <==> action is Help,
            delay is Some ==> self.help_range().contains(delay.unwrap() as int),
    {
        match action {
            TaAction::Help(_) => Some(self.help.sample()),
            _ => None,
        }
    }

    /// How long a student's caller spends on the action before the student's
    /// next step: working time before seeking help again, back-off time after
    /// being turned away (the student then works before it tries again), and
    /// no time otherwise.
    pub fn student_delay(&self, action: StudentAction) -> (delay: Option<u64>)
        requires
            self.wf(),
        ensures
            delay is Some <==> action == StudentAction::Work || action == StudentAction::Backoff,
            action == StudentAction::Work ==> self.programming_range().contains(
                delay.unwrap() as int,
            ),
            action == StudentAction::Backoff ==> self.retry_range().contains(delay.unwrap() as int),
    {
        match action {
            StudentAction::Work => Some(self.programming.sample()),
            StudentAction::Backoff => Some(self.retry.sample()),
            _ => None,
        }
    }
}

} // verus!
