//! Engine status as the application polls it: the status flags, the
//! reason a recording has to stop, and resource percentages.

use vstd::prelude::*;

verus! {

/// Engine status for the polling loop: no strings, no allocation.
#[derive(Debug, Clone, Copy, PartialEq, Eq, Structural)]
pub struct StatusFlags {
    /// Samples lost to write errors or ring-buffer overflow.
    pub write_errors: u64,
    /// Sample rate of the active stream; 0 when idle.
    pub sample_rate: u32,
    pub is_recording: bool,
    /// The silence gate has closed its files and waits for signal.
    pub gate_idle: bool,
    /// Free disk space fell below the configured minimum.
    pub disk_space_low: bool,
    /// The audio stream reported an error (device disconnected?).
    pub stream_error: bool,
    /// The device's sample rate changed since recording started.
    pub sample_rate_changed: bool,
    /// Recording stopped because writing to disk kept failing.
    pub write_failed: bool,
}

impl StatusFlags {
    /// The status of an idle engine: nothing recorded, nothing failed.
    pub fn idle() -> (r: StatusFlags)
        ensures
            r == (StatusFlags {
                write_errors: 0,
                sample_rate: 0,
                is_recording: false,
                gate_idle: false,
                disk_space_low: false,
                stream_error: false,
                sample_rate_changed: false,
                write_failed: false,
            }),
    {
        StatusFlags {
            write_errors: 0,
            sample_rate: 0,
            is_recording: false,
            gate_idle: false,
            disk_space_low: false,
            stream_error: false,
            sample_rate_changed: false,
            write_failed: false,
        }
    }
}

/// Why recording stopped when writes kept failing.
pub const WRITE_FAILED_REASON: &'static str =
    "writing to disk kept failing (disk full or output directory unwritable)";

/// Why recording stopped when disk space ran low.
pub const DISK_SPACE_LOW_REASON: &'static str = "free disk space fell below min_disk_space_mb";

/// Why recording stopped when the stream failed.
pub const STREAM_ERROR_REASON: &'static str =
    "the audio stream reported an error (device disconnected?)";

/// Why the engine can no longer record, if it can't: a persistent write
/// failure first, then low disk space, then a stream error; `None` when
/// none of them holds.
pub fn engine_failure(write_failed: bool, disk_space_low: bool, stream_error: bool) -> (r: Option<
    &'static str,
>)
    ensures
        r is None <==> !write_failed && !disk_space_low && !stream_error,
        r matches Some(reason) ==> reason@ == if write_failed {
            WRITE_FAILED_REASON@
        } else if disk_space_low {
            DISK_SPACE_LOW_REASON@
        } else {
            STREAM_ERROR_REASON@
        },
{
    if write_failed {
        Some(WRITE_FAILED_REASON)
    } else if disk_space_low {
        Some(DISK_SPACE_LOW_REASON)
    } else if stream_error {
        Some(STREAM_ERROR_REASON)
    } else {
        None
    }
}

/// `part` as a share of `whole` in basis points (hundredths of a percent),
/// rounded to nearest and capped at 10 000; 0 when `whole` is 0.
pub open spec fn spec_percent_basis_points(part: u64, whole: u64) -> int {
    if whole == 0 {
        0
    } else {
        let bp = (part * 10000 + whole / 2) / (whole as int);
        if bp > 10000 {
            10000
        } else {
            bp
        }
    }
}

/// `part` as a share of `whole` in basis points, rounded to nearest and
/// capped at 10 000 (100%); 0 when `whole` is 0. Exact for every `u64`:
/// the arithmetic is done in `u128`.
pub fn percent_basis_points(part: u64, whole: u64) -> (r: u16)
    ensures
        r == spec_percent_basis_points(part, whole),
        r <= 10000,
{
    if whole == 0 {
        return 0;
    }
    let w = whole as u128;
    assert((part as int) * 10000 <= 184467440737095516150000) by (nonlinear_arith)
        requires
            part <= 18446744073709551615,
    ;
    let num: u128 = (part as u128) * 10000 + w / 2;
    let bp = num / w;
    if bp > 10000 {
        10000
    } else {
        bp as u16
    }
}

/// How many peak levels fit a buffer of `capacity` slots when `channels`
/// are metered.
pub fn peak_count(channels: usize, capacity: usize) -> (r: usize)
    ensures
        r == if channels < capacity {
            channels
        } else {
            capacity
        },
{
    if channels < capacity {
        channels
    } else {
        capacity
    }
}

/// What the recording loop does next, once per second while it runs.
#[derive(Debug)]
pub enum RunStep {
    /// Leave the loop, reporting this failure (`None` for a clean stop).
    Stop(Option<&'static str>),
    /// Sleep one second and check again.
    Tick,
}

/// The recording loop's decision while it is still running: a reported
/// engine failure ends it at once and is returned; otherwise it ends cleanly
/// once `elapsed` seconds reach a nonzero `duration_secs` (0 runs until a
/// signal), and ticks on before that.
pub fn run_step(failure: Option<&'static str>, duration_secs: u64, elapsed: u64) -> (r: RunStep)
    ensures
        failure is Some ==> r == RunStep::Stop(failure),
        failure is None ==> r == if duration_secs > 0 && elapsed >= duration_secs {
            RunStep::Stop(None)
        } else {
            RunStep::Tick
        },
{
    match failure {
        Some(reason) => RunStep::Stop(Some(reason)),
        None => {
            if duration_secs > 0 && elapsed >= duration_secs {
                RunStep::Stop(None)
            } else {
                RunStep::Tick
            }
        },
    }
}

/// The seconds left to announce after a tick: announced every five seconds
/// while some remain, never at zero.
pub fn remaining_to_announce(duration_secs: u64, elapsed: u64) -> (r: Option<u64>)
    ensures
        r == if duration_secs > elapsed && (duration_secs - elapsed) % 5 == 0 {
            Some((duration_secs - elapsed) as u64)
        } else {
            None::<u64>
        },
{
    if duration_secs > elapsed {
        let remaining = duration_secs - elapsed;
        if remaining % 5 == 0 {
            return Some(remaining);
        }
    }
    None
}

} // verus!
