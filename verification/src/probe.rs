//! The readiness prober: bounded polling of a file's existence and size,
//! used when the write that produces the file is not synchronously
//! observable by the consumer.
//!
//! The shell performs the waiting and the looking; the decisions — when an
//! observation counts as ready, when to retry and when to give up — live
//! here. `await_ready_outcome` states what the whole bounded protocol
//! returns for any schedule of observations.

use vstd::prelude::*;
use crate::slot::FileProbe;
use crate::slot::file_ready;
use crate::slot::probe_ready;

verus! {

/// The probe exhausted its attempts without seeing a complete file.
#[derive(Debug, Clone, PartialEq, Eq)]
pub struct NotReadyError;

/// Attempts the default policy makes before giving up.
pub const DEFAULT_PROBE_ATTEMPTS: usize = 5;

/// Milliseconds the default policy sleeps between attempts; the interval is
/// tunable but must stay bounded.
pub const DEFAULT_PROBE_INTERVAL_MS: u64 = 100;

/// What one probe iteration decides after looking at the file.
#[derive(Debug, Clone, Copy, PartialEq, Eq)]
pub enum ProbeStep {
    /// The file exists with non-zero size: ready, stop probing.
    Ready,
    /// Not ready yet and attempts remain: sleep one interval and look again.
    Retry,
    /// Not ready and this was the last allowed attempt.
    Exhausted,
}

/// One iteration of the probe loop: `observed` is what the file system
/// showed on attempt number `attempts_used + 1` of `max_attempts`.
pub fn probe_step(observed: &FileProbe, attempts_used: usize, max_attempts: usize) -> (r: ProbeStep)
    requires
        attempts_used < max_attempts,
    ensures
        r == ProbeStep::Ready <==> probe_ready(*observed),
        r == ProbeStep::Retry <==> !probe_ready(*observed) && attempts_used + 1 < max_attempts,
        r == ProbeStep::Exhausted <==> !probe_ready(*observed) && attempts_used + 1
            == max_attempts,
{
    if file_ready(observed) {
        ProbeStep::Ready
    } else if attempts_used + 1 < max_attempts {
        ProbeStep::Retry
    } else {
        ProbeStep::Exhausted
    }
}

/// The protocol's result for a given schedule of observations:
/// `observations[i]` is what the file system would show on attempt `i`. The
/// probe succeeds on the first ready observation, reporting how many
/// attempts it used, and fails only after all `max_attempts` attempts saw an
/// incomplete file.
pub fn await_ready_outcome(observations: &Vec<FileProbe>, max_attempts: usize) -> (r: Result<
    usize,
    NotReadyError,
>)
    requires
        observations@.len() >= max_attempts,
    ensures
        r matches Ok(used) ==> 1 <= used <= max_attempts && probe_ready(
            observations@[used - 1],
        ) && forall|j: int| 0 <= j < used - 1 ==> !probe_ready(observations@[j]),
        r is Err <==> forall|j: int| 0 <= j < max_attempts ==> !probe_ready(observations@[j]),
{
    let mut attempts_used: usize = 0;
    while attempts_used < max_attempts
        invariant
            attempts_used <= max_attempts <= observations@.len(),
            forall|j: int| 0 <= j < attempts_used ==> !probe_ready(observations@[j]),
        decreases max_attempts - attempts_used,
    {
        if file_ready(&observations[attempts_used]) {
            return Ok(attempts_used + 1);
        }
        attempts_used += 1;
    }
    Err(NotReadyError)
}

} // verus!
