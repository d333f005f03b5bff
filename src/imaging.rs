use vstd::prelude::*;

verus! {

/// How a memory-imaging attempt ended.
#[derive(Clone, Copy, Debug, PartialEq, Eq, Structural)]
pub enum ImagingOutcome {
    /// The imaging process exited successfully within the wait.
    Completed,
    /// The imaging process exited with a failure within the wait.
    Failed,
    /// The wait elapsed before the imaging process exited.
    TimedOut,
}

/// The outcome of an imaging attempt: `finished` tells whether the process
/// exited within the wait, `exit_ok` whether it reported success.
pub open spec fn spec_imaging_outcome(finished: bool, exit_ok: bool) -> ImagingOutcome {
    if !finished {
        ImagingOutcome::TimedOut
    } else if exit_ok {
        ImagingOutcome::Completed
    } else {
        ImagingOutcome::Failed
    }
}

/// Classifies an imaging attempt.
pub fn imaging_outcome(finished: bool, exit_ok: bool) -> (r: ImagingOutcome)
    ensures
        r == spec_imaging_outcome(finished, exit_ok),
{
    if !finished {
        ImagingOutcome::TimedOut
    } else if exit_ok {
        ImagingOutcome::Completed
    } else {
        ImagingOutcome::Failed
    }
}

impl ImagingOutcome {
    /// Only a completed image counts as a success; a timed-out one is a failure.
    pub fn is_success(&self) -> (r: bool)
        ensures
            r == (*self == ImagingOutcome::Completed),
    {
        *self == ImagingOutcome::Completed
    }
}

/// The wait of an imaging attempt in seconds, for a wait of `minutes`; `None`
/// where that number of seconds does not fit in 64 bits.
pub fn wait_timeout_secs(minutes: u64) -> (r: Option<u64>)
    ensures
        r.is_some() == (60 * minutes <= u64::MAX),
        r matches Some(s) ==> s == 60 * minutes,
{
    minutes.checked_mul(60)
}

} // verus!
