//! Compile-time defaults and tunables of the recording engine, and the
//! output-mode enum threaded through the engine.

use vstd::prelude::*;

verus! {

/// Channel list recorded when none is configured.
pub const DEFAULT_CHANNELS: &'static str = "0";
/// Whether extra debug logging is on by default.
pub const DEFAULT_DEBUG: bool = false;
/// Recording length in seconds when none is configured.
pub const DEFAULT_DURATION: u64 = 30;
/// Output mode when none is configured.
pub const DEFAULT_OUTPUT_MODE: &'static str = "single";
/// Bit pattern of the default silence threshold, the `f32` 0.01 (1% of
/// full scale).
pub const DEFAULT_SILENCE_THRESHOLD_BITS: u32 = 0x3C23D70A;
/// The default silence threshold as configuration files write it.
pub const DEFAULT_SILENCE_THRESHOLD_TEXT: &'static str = "0.01";
/// Most channels recorded at once (the meter buffer's size).
pub const MAX_CHANNELS: usize = 255;
/// Whether continuous (rotating) recording is on by default.
pub const DEFAULT_CONTINUOUS_MODE: bool = false;
/// Rotation cadence in seconds when none is configured (5 minutes).
pub const DEFAULT_RECORDING_CADENCE: u64 = 300;
/// Longest accepted rotation cadence in seconds (about 195 days):
/// `u64::MAX / (u32::MAX * MAX_CHANNELS)`, the largest cadence for which the
/// rotation threshold `sample_rate * channels * cadence` cannot overflow a
/// `u64` for any `u32` rate and up to `MAX_CHANNELS` channels.
pub const MAX_RECORDING_CADENCE: u64 = 16843009;
/// Output directory when none is configured.
pub const DEFAULT_OUTPUT_DIR: &'static str = "recordings";
/// Whether performance logging is on by default.
pub const DEFAULT_PERFORMANCE_LOGGING: bool = false;
/// WAV bit depth when none (or an unsupported one) is configured.
pub const DEFAULT_BITS_PER_SAMPLE: u16 = 24;
/// Free-space floor in MB below which recording stops.
pub const DEFAULT_MIN_DISK_SPACE_MB: u64 = 500;
/// Whether the silence gate is on by default.
pub const DEFAULT_SILENCE_GATE_ENABLED: bool = true;
/// Seconds of silence before the silence gate closes, when none (or 0) is configured.
pub const DEFAULT_SILENCE_GATE_TIMEOUT_SECS: u64 = 300;
/// How many seconds of audio the ring buffer holds (at sample rate times channels).
pub const RING_BUFFER_SECONDS: usize = 5;
/// How many samples the writer thread reads per iteration.
pub const WRITER_THREAD_READ_CHUNK: usize = 16384;

/// `MAX_RECORDING_CADENCE` is `u64::MAX / (u32::MAX * MAX_CHANNELS)`.
pub proof fn lemma_max_recording_cadence()
    ensures
        MAX_RECORDING_CADENCE as int == (u64::MAX as int) / ((u32::MAX as int) * (MAX_CHANNELS as int)),
{
    assert(18446744073709551615int / (4294967295int * 255) == 16843009) by (nonlinear_arith);
}

/// Output mode for recording.
#[derive(Debug, Clone, Copy, PartialEq, Eq, Structural)]
pub enum OutputMode {
    /// Single file: mono/stereo for up to two channels, interleaved multichannel above.
    Single,
    /// One WAV file per channel.
    Split,
}

/// The config-file spelling of each mode.
pub open spec fn spec_mode_text(mode: OutputMode) -> Seq<char> {
    match mode {
        OutputMode::Single => seq!['s', 'i', 'n', 'g', 'l', 'e'],
        OutputMode::Split => seq!['s', 'p', 'l', 'i', 't'],
    }
}

impl OutputMode {
    /// Parse from a config string. Returns `None` for invalid values.
    pub fn parse(s: &str) -> (res: Option<OutputMode>)
        ensures
            res == (if s@ == spec_mode_text(OutputMode::Single) {
                Some(OutputMode::Single)
            } else if s@ == spec_mode_text(OutputMode::Split) {
                Some(OutputMode::Split)
            } else {
                None::<OutputMode>
            }),
    {
        proof {
            reveal_strlit("single");
            reveal_strlit("split");
            assert("single"@ =~= spec_mode_text(OutputMode::Single));
            assert("split"@ =~= spec_mode_text(OutputMode::Split));
        }
        if crate::text::str_equals(s, "single") {
            Some(OutputMode::Single)
        } else if crate::text::str_equals(s, "split") {
            Some(OutputMode::Split)
        } else {
            None
        }
    }
}

impl OutputMode {
    /// The config-file spelling of this mode; the inverse of [`parse`](Self::parse).
    pub fn as_str(self) -> (r: &'static str)
        ensures
            r@ == spec_mode_text(self),
    {
        proof {
            reveal_strlit("single");
            reveal_strlit("split");
            assert("single"@ =~= spec_mode_text(OutputMode::Single));
            assert("split"@ =~= spec_mode_text(OutputMode::Split));
        }
        match self {
            OutputMode::Single => "single",
            OutputMode::Split => "split",
        }
    }
}

impl Default for OutputMode {
    /// The default output mode, `Single`.
    fn default() -> (r: OutputMode)
        ensures
            r == OutputMode::Single,
    {
        OutputMode::Single
    }
}

/// Parsing a mode's config-file spelling gives the mode back, and the two
/// spellings differ.
pub proof fn lemma_mode_text_roundtrip(mode: OutputMode)
    ensures
        (if spec_mode_text(mode) == spec_mode_text(OutputMode::Single) {
            Some(OutputMode::Single)
        } else if spec_mode_text(mode) == spec_mode_text(OutputMode::Split) {
            Some(OutputMode::Split)
        } else {
            None::<OutputMode>
        }) == Some(mode),
{
    assert(spec_mode_text(OutputMode::Single).len() != spec_mode_text(OutputMode::Split).len());
}

} // verus!
