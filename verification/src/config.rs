//! Configuration resolution and validation.
//!
//! Precedence: environment variables override the configuration file, the
//! file overrides the defaults. Within the environment, each setting's
//! `BLACKBOX_*` variable wins over its legacy unprefixed name, and a value
//! that does not parse falls through to the legacy one.
//!
//! Validation is forgiving: the getters replace an out-of-range value with
//! the default rather than fail, so the recorder always runs with whatever
//! it can use. The silence threshold is carried as the bit pattern of the
//! `f32` it stands for.

use vstd::prelude::*;

use crate::constants::{
    spec_mode_text, OutputMode, DEFAULT_BITS_PER_SAMPLE, DEFAULT_CHANNELS, DEFAULT_CONTINUOUS_MODE,
    DEFAULT_DEBUG, DEFAULT_DURATION, DEFAULT_MIN_DISK_SPACE_MB, DEFAULT_OUTPUT_DIR,
    DEFAULT_OUTPUT_MODE, DEFAULT_PERFORMANCE_LOGGING, DEFAULT_RECORDING_CADENCE,
    DEFAULT_SILENCE_GATE_ENABLED, DEFAULT_SILENCE_GATE_TIMEOUT_SECS,
    DEFAULT_SILENCE_THRESHOLD_BITS, MAX_RECORDING_CADENCE,
};
use crate::text::{chars_of, lower_equals, lower_equals_str, parse_unsigned, spec_parse_unsigned, spec_split, split};

verus! {

/// All settings of the recorder. `None` means "not set here": the getters
/// fall back to the defaults, and merging keeps the other side's value.
#[derive(Debug)]
pub struct AppConfig {
    /// Channels to record, as a channel list (`"0"`, `"0,2-4,7"`).
    pub audio_channels: Option<String>,
    /// Extra debug logging.
    pub debug: Option<bool>,
    /// Recording length in seconds; 0 is unlimited.
    pub duration: Option<u64>,
    /// `"single"` (one multichannel file) or `"split"` (a file per channel).
    pub output_mode: Option<String>,
    /// Silence threshold as the bit pattern of an `f32` normalized amplitude
    /// in `[0.0, 1.0]`; 0.0 disables silence detection.
    pub silence_threshold: Option<u32>,
    /// Continuous recording, rotating files every `recording_cadence` seconds.
    pub continuous_mode: Option<bool>,
    /// File-rotation cadence in seconds, from 1 to `MAX_RECORDING_CADENCE`.
    pub recording_cadence: Option<u64>,
    /// Directory the recordings go to.
    pub output_dir: Option<String>,
    /// Performance-metric collection.
    pub performance_logging: Option<bool>,
    /// Input device name; `None` is the system default.
    pub input_device: Option<String>,
    /// Free-space floor in MB below which recording stops; 0 disables it.
    pub min_disk_space_mb: Option<u64>,
    /// WAV bit depth: 16, 24 or 32.
    pub bits_per_sample: Option<u16>,
    /// Whether the silence gate closes files during long silence.
    pub silence_gate_enabled: Option<bool>,
    /// Seconds of silence after which the silence gate shuts; at least 1.
    pub silence_gate_timeout_secs: Option<u64>,
}

/// The characters of an optional string.
pub open spec fn opt_chars(o: Option<String>) -> Option<Seq<char>> {
    match o {
        Some(s) => Some(s@),
        None => None,
    }
}

/// `top` when it is set, else `base`.
pub open spec fn overlay<T>(base: Option<T>, top: Option<T>) -> Option<T> {
    if top is Some {
        top
    } else {
        base
    }
}

/// A configuration with no setting set.
pub open spec fn spec_unset() -> AppConfig {
    AppConfig {
        audio_channels: None,
        debug: None,
        duration: None,
        output_mode: None,
        silence_threshold: None,
        continuous_mode: None,
        recording_cadence: None,
        output_dir: None,
        performance_logging: None,
        input_device: None,
        min_disk_space_mb: None,
        bits_per_sample: None,
        silence_gate_enabled: None,
        silence_gate_timeout_secs: None,
    }
}

/// `base` with every setting that `top` sets taken from `top`.
pub open spec fn spec_merge(base: AppConfig, top: AppConfig) -> AppConfig {
    AppConfig {
        audio_channels: overlay(base.audio_channels, top.audio_channels),
        debug: overlay(base.debug, top.debug),
        duration: overlay(base.duration, top.duration),
        output_mode: overlay(base.output_mode, top.output_mode),
        silence_threshold: overlay(base.silence_threshold, top.silence_threshold),
        continuous_mode: overlay(base.continuous_mode, top.continuous_mode),
        recording_cadence: overlay(base.recording_cadence, top.recording_cadence),
        output_dir: overlay(base.output_dir, top.output_dir),
        performance_logging: overlay(base.performance_logging, top.performance_logging),
        input_device: overlay(base.input_device, top.input_device),
        min_disk_space_mb: overlay(base.min_disk_space_mb, top.min_disk_space_mb),
        bits_per_sample: overlay(base.bits_per_sample, top.bits_per_sample),
        silence_gate_enabled: overlay(base.silence_gate_enabled, top.silence_gate_enabled),
        silence_gate_timeout_secs: overlay(
            base.silence_gate_timeout_secs,
            top.silence_gate_timeout_secs,
        ),
    }
}

/// Whether every setting of `c` is set.
pub open spec fn all_set(c: AppConfig) -> bool {
    &&& c.audio_channels is Some
    &&& c.debug is Some
    &&& c.duration is Some
    &&& c.output_mode is Some
    &&& c.silence_threshold is Some
    &&& c.continuous_mode is Some
    &&& c.recording_cadence is Some
    &&& c.output_dir is Some
    &&& c.performance_logging is Some
    &&& c.min_disk_space_mb is Some
    &&& c.bits_per_sample is Some
    &&& c.silence_gate_enabled is Some
    &&& c.silence_gate_timeout_secs is Some
}

/// Whether a silence threshold bit pattern is a finite `f32` in
/// `[0.0, 1.0]`: the patterns of +0.0 through 1.0 (`0x0000_0000` to
/// `0x3F80_0000`; non-negative `f32`s order like their bits) and -0.0
/// (`0x8000_0000`). NaN, infinities, negatives and values above 1.0 are
/// all outside.
pub open spec fn threshold_bits_valid(bits: u32) -> bool {
    bits <= 0x3F80_0000 || bits == 0x8000_0000
}

/// Whether an output directory has a `..` component.
pub open spec fn has_parent_component(dir: Seq<char>) -> bool {
    spec_split(dir, '/').contains(seq!['.', '.'])
}

// ---------------------------------------------------------------------------
// Construction, merging, getters
// ---------------------------------------------------------------------------

impl AppConfig {
    /// Whether `c` is the default configuration: every setting set to its
    /// default, the input device unset.
    pub open spec fn is_default(c: AppConfig) -> bool {
        &&& opt_chars(c.audio_channels) == Some(DEFAULT_CHANNELS@)
        &&& opt_chars(c.output_mode) == Some(DEFAULT_OUTPUT_MODE@)
        &&& opt_chars(c.output_dir) == Some(DEFAULT_OUTPUT_DIR@)
        &&& c.debug == Some(DEFAULT_DEBUG)
        &&& c.duration == Some(DEFAULT_DURATION)
        &&& c.silence_threshold == Some(DEFAULT_SILENCE_THRESHOLD_BITS)
        &&& c.continuous_mode == Some(DEFAULT_CONTINUOUS_MODE)
        &&& c.recording_cadence == Some(DEFAULT_RECORDING_CADENCE)
        &&& c.performance_logging == Some(DEFAULT_PERFORMANCE_LOGGING)
        &&& c.input_device is None
        &&& c.min_disk_space_mb == Some(DEFAULT_MIN_DISK_SPACE_MB)
        &&& c.bits_per_sample == Some(DEFAULT_BITS_PER_SAMPLE)
        &&& c.silence_gate_enabled == Some(DEFAULT_SILENCE_GATE_ENABLED)
        &&& c.silence_gate_timeout_secs == Some(DEFAULT_SILENCE_GATE_TIMEOUT_SECS)
    }

    /// A configuration with every setting at its default.
    pub fn new() -> (c: AppConfig)
        ensures
            Self::is_default(c),
    {
        Self::default()
    }

    /// A configuration with no setting set.
    pub fn unset() -> (c: AppConfig)
        ensures
            c == spec_unset(),
    {
        AppConfig {
            audio_channels: None,
            debug: None,
            duration: None,
            output_mode: None,
            silence_threshold: None,
            continuous_mode: None,
            recording_cadence: None,
            output_dir: None,
            performance_logging: None,
            input_device: None,
            min_disk_space_mb: None,
            bits_per_sample: None,
            silence_gate_enabled: None,
            silence_gate_timeout_secs: None,
        }
    }

    /// Take every setting that `other` sets; keep the rest.
    pub fn merge(&mut self, other: AppConfig)
        ensures
            *final(self) == spec_merge(*old(self), other),
    {
        if other.audio_channels.is_some() {
            self.audio_channels = other.audio_channels;
        }
        if other.debug.is_some() {
            self.debug = other.debug;
        }
        if other.duration.is_some() {
            self.duration = other.duration;
        }
        if other.output_mode.is_some() {
            self.output_mode = other.output_mode;
        }
        if other.silence_threshold.is_some() {
            self.silence_threshold = other.silence_threshold;
        }
        if other.continuous_mode.is_some() {
            self.continuous_mode = other.continuous_mode;
        }
        if other.recording_cadence.is_some() {
            self.recording_cadence = other.recording_cadence;
        }
        if other.output_dir.is_some() {
            self.output_dir = other.output_dir;
        }
        if other.performance_logging.is_some() {
            self.performance_logging = other.performance_logging;
        }
        if other.input_device.is_some() {
            self.input_device = other.input_device;
        }
        if other.min_disk_space_mb.is_some() {
            self.min_disk_space_mb = other.min_disk_space_mb;
        }
        if other.bits_per_sample.is_some() {
            self.bits_per_sample = other.bits_per_sample;
        }
        if other.silence_gate_enabled.is_some() {
            self.silence_gate_enabled = other.silence_gate_enabled;
        }
        if other.silence_gate_timeout_secs.is_some() {
            self.silence_gate_timeout_secs = other.silence_gate_timeout_secs;
        }
    }

    /// The channel list; `"0"` when unset.
    pub fn get_audio_channels(&self) -> (r: String)
        ensures
            r@ == match opt_chars(self.audio_channels) {
                Some(s) => s,
                None => DEFAULT_CHANNELS@,
            },
    {
        match &self.audio_channels {
            Some(s) => s.clone(),
            None => String::from_str(DEFAULT_CHANNELS),
        }
    }

    /// Whether verbose debug logging is on.
    pub fn get_debug(&self) -> (r: bool)
        ensures
            r == match self.debug {
                Some(v) => v,
                None => DEFAULT_DEBUG,
            },
    {
        match self.debug {
            Some(v) => v,
            None => DEFAULT_DEBUG,
        }
    }

    /// Recording length in seconds, 0 meaning unlimited.
    pub fn get_duration(&self) -> (r: u64)
        ensures
            r == match self.duration {
                Some(v) => v,
                None => DEFAULT_DURATION,
            },
    {
        match self.duration {
            Some(v) => v,
            None => DEFAULT_DURATION,
        }
    }

    /// The raw output mode string; `"single"` when unset.
    pub fn get_output_mode(&self) -> (r: String)
        ensures
            r@ == match opt_chars(self.output_mode) {
                Some(s) => s,
                None => DEFAULT_OUTPUT_MODE@,
            },
    {
        match &self.output_mode {
            Some(s) => s.clone(),
            None => String::from_str(DEFAULT_OUTPUT_MODE),
        }
    }

    /// The output mode; `Single` when the setting is unset or is neither
    /// `"single"` nor `"split"`.
    pub fn output_mode_parsed(&self) -> (r: OutputMode)
        ensures
            r == match opt_chars(self.output_mode) {
                Some(s) => if s == spec_mode_text(OutputMode::Split) {
                    OutputMode::Split
                } else {
                    OutputMode::Single
                },
                None => OutputMode::Single,
            },
    {
        match &self.output_mode {
            Some(s) => match OutputMode::parse(s.as_str()) {
                Some(m) => m,
                None => OutputMode::Single,
            },
            None => OutputMode::Single,
        }
    }

    /// The silence threshold's `f32` bit pattern: the configured one when it
    /// is a finite value in `[0.0, 1.0]` (see [`threshold_bits_valid`]),
    /// else the default's (0.01).
    pub fn get_silence_threshold(&self) -> (r: u32)
        ensures
            ({
                let raw = match self.silence_threshold {
                    Some(v) => v,
                    None => DEFAULT_SILENCE_THRESHOLD_BITS,
                };
                r == if threshold_bits_valid(raw) {
                    raw
                } else {
                    DEFAULT_SILENCE_THRESHOLD_BITS
                }
            }),
            threshold_bits_valid(r),
    {
        let raw = match self.silence_threshold {
            Some(v) => v,
            None => DEFAULT_SILENCE_THRESHOLD_BITS,
        };
        if raw <= 0x3F80_0000 || raw == 0x8000_0000 {
            raw
        } else {
            DEFAULT_SILENCE_THRESHOLD_BITS
        }
    }

    /// Whether files rotate indefinitely.
    pub fn get_continuous_mode(&self) -> (r: bool)
        ensures
            r == match self.continuous_mode {
                Some(v) => v,
                None => DEFAULT_CONTINUOUS_MODE,
            },
    {
        match self.continuous_mode {
            Some(v) => v,
            None => DEFAULT_CONTINUOUS_MODE,
        }
    }

    /// Seconds between rotations: the configured cadence when it is from 1
    /// to `MAX_RECORDING_CADENCE`, else the default. A zero cadence would
    /// rotate on every callback and a larger one would overflow the
    /// rotation threshold.
    pub fn get_recording_cadence(&self) -> (r: u64)
        ensures
            ({
                let raw = match self.recording_cadence {
                    Some(v) => v,
                    None => DEFAULT_RECORDING_CADENCE,
                };
                r == if 1 <= raw && raw <= MAX_RECORDING_CADENCE {
                    raw
                } else {
                    DEFAULT_RECORDING_CADENCE
                }
            }),
            1 <= r <= MAX_RECORDING_CADENCE,
    {
        let cadence = match self.recording_cadence {
            Some(v) => v,
            None => DEFAULT_RECORDING_CADENCE,
        };
        if 1 <= cadence && cadence <= MAX_RECORDING_CADENCE {
            cadence
        } else {
            DEFAULT_RECORDING_CADENCE
        }
    }

    /// The directory recordings go to; the default (`"recordings"`) when
    /// unset or when the path has a `..` component.
    pub fn get_output_dir(&self) -> (r: String)
        ensures
            ({
                let dir = match opt_chars(self.output_dir) {
                    Some(s) => s,
                    None => DEFAULT_OUTPUT_DIR@,
                };
                r@ == if has_parent_component(dir) {
                    DEFAULT_OUTPUT_DIR@
                } else {
                    dir
                }
            }),
    {
        let dir = match &self.output_dir {
            Some(s) => s.clone(),
            None => String::from_str(DEFAULT_OUTPUT_DIR),
        };
        if has_parent_dir(dir.as_str()) {
            String::from_str(DEFAULT_OUTPUT_DIR)
        } else {
            dir
        }
    }

    /// Whether performance metrics are collected.
    pub fn get_performance_logging(&self) -> (r: bool)
        ensures
            r == match self.performance_logging {
                Some(v) => v,
                None => DEFAULT_PERFORMANCE_LOGGING,
            },
    {
        match self.performance_logging {
            Some(v) => v,
            None => DEFAULT_PERFORMANCE_LOGGING,
        }
    }

    /// The input device name; `None` is the system default.
    pub fn get_input_device(&self) -> (r: Option<String>)
        ensures
            r == self.input_device,
    {
        match &self.input_device {
            Some(s) => Some(s.clone()),
            None => None,
        }
    }

    /// Free-space floor in MB; 0 disables the check.
    pub fn get_min_disk_space_mb(&self) -> (r: u64)
        ensures
            r == match self.min_disk_space_mb {
                Some(v) => v,
                None => DEFAULT_MIN_DISK_SPACE_MB,
            },
    {
        match self.min_disk_space_mb {
            Some(v) => v,
            None => DEFAULT_MIN_DISK_SPACE_MB,
        }
    }

    /// WAV bit depth: the configured one when it is 16, 24 or 32, else the
    /// default (24).
    pub fn get_bits_per_sample(&self) -> (r: u16)
        ensures
            ({
                let raw = match self.bits_per_sample {
                    Some(v) => v,
                    None => DEFAULT_BITS_PER_SAMPLE,
                };
                r == if raw == 16 || raw == 24 || raw == 32 {
                    raw
                } else {
                    DEFAULT_BITS_PER_SAMPLE
                }
            }),
            r == 16 || r == 24 || r == 32,
    {
        let raw = match self.bits_per_sample {
            Some(v) => v,
            None => DEFAULT_BITS_PER_SAMPLE,
        };
        match raw {
            16 | 24 | 32 => raw,
            _ => DEFAULT_BITS_PER_SAMPLE,
        }
    }

    /// Whether the silence gate closes files while input is silent.
    pub fn get_silence_gate_enabled(&self) -> (r: bool)
        ensures
            r == match self.silence_gate_enabled {
                Some(v) => v,
                None => DEFAULT_SILENCE_GATE_ENABLED,
            },
    {
        match self.silence_gate_enabled {
            Some(v) => v,
            None => DEFAULT_SILENCE_GATE_ENABLED,
        }
    }

    /// Seconds of silence before the silence gate closes: the configured value
    /// unless it is 0, which falls back to the default.
    pub fn get_silence_gate_timeout_secs(&self) -> (r: u64)
        ensures
            ({
                let raw = match self.silence_gate_timeout_secs {
                    Some(v) => v,
                    None => DEFAULT_SILENCE_GATE_TIMEOUT_SECS,
                };
                r == if raw == 0 {
                    DEFAULT_SILENCE_GATE_TIMEOUT_SECS
                } else {
                    raw
                }
            }),
            r >= 1,
    {
        match self.silence_gate_timeout_secs {
            Some(0) => DEFAULT_SILENCE_GATE_TIMEOUT_SECS,
            Some(v) => v,
            None => DEFAULT_SILENCE_GATE_TIMEOUT_SECS,
        }
    }
}

impl Default for AppConfig {
    fn default() -> (c: AppConfig)
        ensures
            AppConfig::is_default(c),
    {
        AppConfig {
            audio_channels: Some(String::from_str(DEFAULT_CHANNELS)),
            debug: Some(DEFAULT_DEBUG),
            duration: Some(DEFAULT_DURATION),
            output_mode: Some(String::from_str(DEFAULT_OUTPUT_MODE)),
            silence_threshold: Some(DEFAULT_SILENCE_THRESHOLD_BITS),
            continuous_mode: Some(DEFAULT_CONTINUOUS_MODE),
            recording_cadence: Some(DEFAULT_RECORDING_CADENCE),
            output_dir: Some(String::from_str(DEFAULT_OUTPUT_DIR)),
            performance_logging: Some(DEFAULT_PERFORMANCE_LOGGING),
            input_device: None,
            min_disk_space_mb: Some(DEFAULT_MIN_DISK_SPACE_MB),
            bits_per_sample: Some(DEFAULT_BITS_PER_SAMPLE),
            silence_gate_enabled: Some(DEFAULT_SILENCE_GATE_ENABLED),
            silence_gate_timeout_secs: Some(DEFAULT_SILENCE_GATE_TIMEOUT_SECS),
        }
    }
}

/// Whether the path `dir` has a `..` component.
pub fn has_parent_dir(dir: &str) -> (r: bool)
    ensures
        r == has_parent_component(dir@),
{
    let chars = chars_of(dir);
    let parts = split(&chars, '/');
    let mut i: usize = 0;
    while i < parts.len()
        invariant
            chars@ == dir@,
            parts.len() == spec_split(dir@, '/').len(),
            forall|k: int| 0 <= k < parts.len() ==> #[trigger] parts[k]@ == spec_split(dir@, '/')[k],
            i <= parts.len(),
            forall|k: int| 0 <= k < i ==> spec_split(dir@, '/')[k] != seq!['.', '.'],
        decreases parts.len() - i,
    {
        let p = &parts[i];
        if p.len() == 2 && p[0] == '.' && p[1] == '.' {
            proof {
                assert(p@ =~= seq!['.', '.']);
                assert(spec_split(dir@, '/')[i as int] == seq!['.', '.']);
            }
            return true;
        }
        proof {
            assert(p@ != seq!['.', '.']) by {
                if p@ == seq!['.', '.'] {
                    assert(p@.len() == 2 && p@[0] == '.' && p@[1] == '.');
                }
            }
        }
        i = i + 1;
    }
    false
}

// ---------------------------------------------------------------------------
// Parsing setting values
// ---------------------------------------------------------------------------

/// A boolean setting value, ASCII case-insensitively: `true`, `1`, `yes`,
/// `on` are true; `false`, `0`, `no`, `off` are false; anything else is
/// not a boolean.
pub open spec fn spec_parse_bool(s: Seq<char>) -> Option<bool> {
    if lower_equals(s, seq!['t', 'r', 'u', 'e']) || lower_equals(s, seq!['1']) || lower_equals(
        s,
        seq!['y', 'e', 's'],
    ) || lower_equals(s, seq!['o', 'n']) {
        Some(true)
    } else if lower_equals(s, seq!['f', 'a', 'l', 's', 'e']) || lower_equals(s, seq!['0'])
        || lower_equals(s, seq!['n', 'o']) || lower_equals(s, seq!['o', 'f', 'f']) {
        Some(false)
    } else {
        None
    }
}

impl AppConfig {
    /// Parse a boolean setting value (see [`spec_parse_bool`]).
    pub fn parse_bool(val: &str) -> (r: Option<bool>)
        ensures
            r == spec_parse_bool(val@),
    {
        proof {
            reveal_strlit("true");
            reveal_strlit("1");
            reveal_strlit("yes");
            reveal_strlit("on");
            reveal_strlit("false");
            reveal_strlit("0");
            reveal_strlit("no");
            reveal_strlit("off");
            assert("true"@ =~= seq!['t', 'r', 'u', 'e']);
            assert("1"@ =~= seq!['1']);
            assert("yes"@ =~= seq!['y', 'e', 's']);
            assert("on"@ =~= seq!['o', 'n']);
            assert("false"@ =~= seq!['f', 'a', 'l', 's', 'e']);
            assert("0"@ =~= seq!['0']);
            assert("no"@ =~= seq!['n', 'o']);
            assert("off"@ =~= seq!['o', 'f', 'f']);
        }
        let chars = chars_of(val);
        if lower_equals_str(&chars, "true") || lower_equals_str(&chars, "1") || lower_equals_str(
            &chars,
            "yes",
        ) || lower_equals_str(&chars, "on") {
            Some(true)
        } else if lower_equals_str(&chars, "false") || lower_equals_str(&chars, "0")
            || lower_equals_str(&chars, "no") || lower_equals_str(&chars, "off") {
            Some(false)
        } else {
            None
        }
    }
}

// ---------------------------------------------------------------------------
// Environment overrides
// ---------------------------------------------------------------------------

/// The values of one setting's two environment variables: the
/// `BLACKBOX_*` name and the legacy unprefixed name (`None` when unset).
#[derive(Debug)]
pub struct EnvPair<T> {
    pub primary: Option<T>,
    pub legacy: Option<T>,
}

/// The environment variables that can override settings. The silence
/// threshold's variables arrive already read as `f32` bit patterns (`None`
/// when unset or not a number).
#[derive(Debug)]
pub struct EnvOverrides {
    /// `BLACKBOX_AUDIO_CHANNELS`, `AUDIO_CHANNELS`
    pub audio_channels: EnvPair<String>,
    /// `BLACKBOX_DEBUG`, `DEBUG`
    pub debug: EnvPair<String>,
    /// `BLACKBOX_DURATION`, `RECORD_DURATION`
    pub duration: EnvPair<String>,
    /// `BLACKBOX_OUTPUT_MODE`, `OUTPUT_MODE`
    pub output_mode: EnvPair<String>,
    /// `BLACKBOX_SILENCE_THRESHOLD`, `SILENCE_THRESHOLD`, as bit patterns
    pub silence_threshold: EnvPair<u32>,
    /// `BLACKBOX_CONTINUOUS_MODE`, `CONTINUOUS_MODE`
    pub continuous_mode: EnvPair<String>,
    /// `BLACKBOX_RECORDING_CADENCE`, `RECORDING_CADENCE`
    pub recording_cadence: EnvPair<String>,
    /// `BLACKBOX_OUTPUT_DIR`, `OUTPUT_DIR`
    pub output_dir: EnvPair<String>,
    /// `BLACKBOX_PERFORMANCE_LOGGING`, `PERFORMANCE_LOGGING`
    pub performance_logging: EnvPair<String>,
    /// `BLACKBOX_INPUT_DEVICE`, `INPUT_DEVICE`
    pub input_device: EnvPair<String>,
    /// `BLACKBOX_MIN_DISK_SPACE_MB`, `MIN_DISK_SPACE_MB`
    pub min_disk_space_mb: EnvPair<String>,
    /// `BLACKBOX_BITS_PER_SAMPLE`, `BITS_PER_SAMPLE`
    pub bits_per_sample: EnvPair<String>,
    /// `BLACKBOX_SILENCE_GATE_ENABLED`, `SILENCE_GATE_ENABLED`
    pub silence_gate_enabled: EnvPair<String>,
    /// `BLACKBOX_SILENCE_GATE_TIMEOUT_SECS`, `SILENCE_GATE_TIMEOUT_SECS`
    pub silence_gate_timeout_secs: EnvPair<String>,
}

impl EnvOverrides {
    /// No override variable set.
    pub fn unset() -> (r: EnvOverrides)
        ensures
            spec_env_config(r) == spec_unset(),
            forall|c: AppConfig| spec_apply_env(c, r) == c,
    {
        EnvOverrides {
            audio_channels: EnvPair { primary: None, legacy: None },
            debug: EnvPair { primary: None, legacy: None },
            duration: EnvPair { primary: None, legacy: None },
            output_mode: EnvPair { primary: None, legacy: None },
            silence_threshold: EnvPair { primary: None, legacy: None },
            continuous_mode: EnvPair { primary: None, legacy: None },
            recording_cadence: EnvPair { primary: None, legacy: None },
            output_dir: EnvPair { primary: None, legacy: None },
            performance_logging: EnvPair { primary: None, legacy: None },
            input_device: EnvPair { primary: None, legacy: None },
            min_disk_space_mb: EnvPair { primary: None, legacy: None },
            bits_per_sample: EnvPair { primary: None, legacy: None },
            silence_gate_enabled: EnvPair { primary: None, legacy: None },
            silence_gate_timeout_secs: EnvPair { primary: None, legacy: None },
        }
    }
}

/// The first of two parsed values that is set.
pub open spec fn first_set<T>(primary: Option<T>, legacy: Option<T>) -> Option<T> {
    if primary is Some {
        primary
    } else {
        legacy
    }
}

/// A text setting's override: the primary variable if set, else the legacy one.
pub open spec fn spec_text_override(p: EnvPair<String>) -> Option<String> {
    first_set(p.primary, p.legacy)
}

/// A boolean setting's override: the primary variable if it is a boolean,
/// else the legacy one if it is.
pub open spec fn spec_flag_override(p: EnvPair<String>) -> Option<bool> {
    first_set(
        match p.primary {
            Some(s) => spec_parse_bool(s@),
            None => None,
        },
        match p.legacy {
            Some(s) => spec_parse_bool(s@),
            None => None,
        },
    )
}

/// A numeric setting's override: the primary variable if it is a number no
/// larger than `max`, else the legacy one if it is.
pub open spec fn spec_number_override(p: EnvPair<String>, max: nat) -> Option<nat> {
    first_set(
        match p.primary {
            Some(s) => spec_parse_unsigned(s@, max),
            None => None,
        },
        match p.legacy {
            Some(s) => spec_parse_unsigned(s@, max),
            None => None,
        },
    )
}

/// `slot` overwritten by a set value.
pub open spec fn spec_set_if_some<T>(slot: Option<T>, value: Option<T>) -> Option<T> {
    overlay(slot, value)
}

/// An optional `nat` as a `u64`.
pub open spec fn as_u64(v: Option<nat>) -> Option<u64> {
    match v {
        Some(n) => Some(n as u64),
        None => None,
    }
}

/// An optional `nat` as a `u16`.
pub open spec fn as_u16(v: Option<nat>) -> Option<u16> {
    match v {
        Some(n) => Some(n as u16),
        None => None,
    }
}

/// `c` with every setting the environment overrides replaced.
pub open spec fn spec_apply_env(c: AppConfig, env: EnvOverrides) -> AppConfig {
    AppConfig {
        audio_channels: overlay(c.audio_channels, spec_text_override(env.audio_channels)),
        debug: overlay(c.debug, spec_flag_override(env.debug)),
        duration: overlay(c.duration, as_u64(spec_number_override(env.duration, u64::MAX as nat))),
        output_mode: overlay(c.output_mode, spec_text_override(env.output_mode)),
        silence_threshold: overlay(
            c.silence_threshold,
            first_set(env.silence_threshold.primary, env.silence_threshold.legacy),
        ),
        continuous_mode: overlay(c.continuous_mode, spec_flag_override(env.continuous_mode)),
        recording_cadence: overlay(
            c.recording_cadence,
            as_u64(spec_number_override(env.recording_cadence, u64::MAX as nat)),
        ),
        output_dir: overlay(c.output_dir, spec_text_override(env.output_dir)),
        performance_logging: overlay(
            c.performance_logging,
            spec_flag_override(env.performance_logging),
        ),
        input_device: overlay(c.input_device, spec_text_override(env.input_device)),
        min_disk_space_mb: overlay(
            c.min_disk_space_mb,
            as_u64(spec_number_override(env.min_disk_space_mb, u64::MAX as nat)),
        ),
        bits_per_sample: overlay(
            c.bits_per_sample,
            as_u16(spec_number_override(env.bits_per_sample, u16::MAX as nat)),
        ),
        silence_gate_enabled: overlay(
            c.silence_gate_enabled,
            spec_flag_override(env.silence_gate_enabled),
        ),
        silence_gate_timeout_secs: overlay(
            c.silence_gate_timeout_secs,
            as_u64(spec_number_override(env.silence_gate_timeout_secs, u64::MAX as nat)),
        ),
    }
}

fn text_override(p: &EnvPair<String>) -> (r: Option<String>)
    ensures
        r == spec_text_override(*p),
{
    match &p.primary {
        Some(s) => Some(s.clone()),
        None => match &p.legacy {
            Some(s) => Some(s.clone()),
            None => None,
        },
    }
}

fn flag_override(p: &EnvPair<String>) -> (r: Option<bool>)
    ensures
        r == spec_flag_override(*p),
{
    let primary = match &p.primary {
        Some(s) => AppConfig::parse_bool(s.as_str()),
        None => None,
    };
    if primary.is_some() {
        return primary;
    }
    match &p.legacy {
        Some(s) => AppConfig::parse_bool(s.as_str()),
        None => None,
    }
}

fn number_override(p: &EnvPair<String>, max: u64) -> (r: Option<u64>)
    ensures
        as_u64(spec_number_override(*p, max as nat)) == r,
        r matches Some(v) ==> v <= max,
{
    let primary = match &p.primary {
        Some(s) => parse_unsigned(s.as_str(), max),
        None => None,
    };
    if primary.is_some() {
        return primary;
    }
    match &p.legacy {
        Some(s) => parse_unsigned(s.as_str(), max),
        None => None,
    }
}

/// Overwrite `slot` only when `value` is set.
pub fn set_if_some<T>(slot: &mut Option<T>, value: Option<T>)
    ensures
        *final(slot) == spec_set_if_some(*old(slot), value),
{
    if value.is_some() {
        *slot = value;
    }
}

impl AppConfig {
    /// Apply the environment overrides: each setting takes its `BLACKBOX_*`
    /// variable when that is set and parses, else its legacy variable when
    /// that does; otherwise it keeps its value.
    pub fn apply_env_vars(&mut self, env: &EnvOverrides)
        ensures
            *final(self) == spec_apply_env(*old(self), *env),
    {
        set_if_some(&mut self.audio_channels, text_override(&env.audio_channels));
        set_if_some(&mut self.debug, flag_override(&env.debug));
        set_if_some(&mut self.duration, number_override(&env.duration, u64::MAX));
        set_if_some(&mut self.output_mode, text_override(&env.output_mode));
        let threshold = match env.silence_threshold.primary {
            Some(v) => Some(v),
            None => env.silence_threshold.legacy,
        };
        set_if_some(&mut self.silence_threshold, threshold);
        set_if_some(&mut self.continuous_mode, flag_override(&env.continuous_mode));
        set_if_some(&mut self.recording_cadence, number_override(&env.recording_cadence, u64::MAX));
        set_if_some(&mut self.output_dir, text_override(&env.output_dir));
        set_if_some(&mut self.performance_logging, flag_override(&env.performance_logging));
        set_if_some(&mut self.input_device, text_override(&env.input_device));
        set_if_some(&mut self.min_disk_space_mb, number_override(&env.min_disk_space_mb, u64::MAX));
        let bits = match number_override(&env.bits_per_sample, 65535) {
            Some(v) => Some(v as u16),
            None => None,
        };
        set_if_some(&mut self.bits_per_sample, bits);
        set_if_some(&mut self.silence_gate_enabled, flag_override(&env.silence_gate_enabled));
        set_if_some(
            &mut self.silence_gate_timeout_secs,
            number_override(&env.silence_gate_timeout_secs, u64::MAX),
        );
    }

    /// The configuration the recorder runs with: the defaults, overridden by
    /// the settings of the configuration file (`None` when there is no
    /// readable file), overridden by the environment.
    pub fn resolve(file: Option<AppConfig>, env: &EnvOverrides) -> (c: AppConfig)
        ensures
            exists|d: AppConfig|
                Self::is_default(d) && c == spec_apply_env(
                    match file {
                        Some(f) => spec_merge(d, f),
                        None => d,
                    },
                    *env,
                ),
            opt_chars(c.audio_channels) == layered(opt_chars(spec_text_override(env.audio_channels)), opt_chars((match file { Some(x) => x.audio_channels, None => None })), Some(DEFAULT_CHANNELS@)),
            c.debug == layered(spec_flag_override(env.debug), (match file { Some(x) => x.debug, None => None }), Some(DEFAULT_DEBUG)),
            c.duration == layered(as_u64(spec_number_override(env.duration, u64::MAX as nat)), (match file { Some(x) => x.duration, None => None }), Some(DEFAULT_DURATION)),
            opt_chars(c.output_mode) == layered(opt_chars(spec_text_override(env.output_mode)), opt_chars((match file { Some(x) => x.output_mode, None => None })), Some(DEFAULT_OUTPUT_MODE@)),
            c.silence_threshold == layered(first_set(env.silence_threshold.primary, env.silence_threshold.legacy), (match file { Some(x) => x.silence_threshold, None => None }), Some(DEFAULT_SILENCE_THRESHOLD_BITS)),
            c.continuous_mode == layered(spec_flag_override(env.continuous_mode), (match file { Some(x) => x.continuous_mode, None => None }), Some(DEFAULT_CONTINUOUS_MODE)),
            c.recording_cadence == layered(as_u64(spec_number_override(env.recording_cadence, u64::MAX as nat)), (match file { Some(x) => x.recording_cadence, None => None }), Some(DEFAULT_RECORDING_CADENCE)),
            opt_chars(c.output_dir) == layered(opt_chars(spec_text_override(env.output_dir)), opt_chars((match file { Some(x) => x.output_dir, None => None })), Some(DEFAULT_OUTPUT_DIR@)),
            c.performance_logging == layered(spec_flag_override(env.performance_logging), (match file { Some(x) => x.performance_logging, None => None }), Some(DEFAULT_PERFORMANCE_LOGGING)),
            c.input_device == layered(spec_text_override(env.input_device), (match file { Some(x) => x.input_device, None => None }), None),
            c.min_disk_space_mb == layered(as_u64(spec_number_override(env.min_disk_space_mb, u64::MAX as nat)), (match file { Some(x) => x.min_disk_space_mb, None => None }), Some(DEFAULT_MIN_DISK_SPACE_MB)),
            c.bits_per_sample == layered(as_u16(spec_number_override(env.bits_per_sample, u16::MAX as nat)), (match file { Some(x) => x.bits_per_sample, None => None }), Some(DEFAULT_BITS_PER_SAMPLE)),
            c.silence_gate_enabled == layered(spec_flag_override(env.silence_gate_enabled), (match file { Some(x) => x.silence_gate_enabled, None => None }), Some(DEFAULT_SILENCE_GATE_ENABLED)),
            c.silence_gate_timeout_secs == layered(as_u64(spec_number_override(env.silence_gate_timeout_secs, u64::MAX as nat)), (match file { Some(x) => x.silence_gate_timeout_secs, None => None }), Some(DEFAULT_SILENCE_GATE_TIMEOUT_SECS)),
    {
        let mut config = Self::default();
        let ghost d = config;
        let ghost file_spec = file;
        match file {
            Some(f) => config.merge(f),
            None => {},
        }
        config.apply_env_vars(env);
        proof {
            match file_spec {
                Some(f) => lemma_resolve_each_setting(d, f, *env),
                None => lemma_env_each_setting(d, *env),
            }
        }
        config
    }
}

// ---------------------------------------------------------------------------
// Laws
// ---------------------------------------------------------------------------

/// The settings the environment sets, as a configuration.
pub open spec fn spec_env_config(env: EnvOverrides) -> AppConfig {
    spec_apply_env(spec_unset(), env)
}

/// Merging in a configuration that sets nothing changes nothing.
pub proof fn lemma_merge_unset_is_identity(c: AppConfig)
    ensures
        spec_merge(c, spec_unset()) == c,
{
}

/// Merging into a configuration that sets nothing gives the merged one.
pub proof fn lemma_merge_into_unset(c: AppConfig)
    ensures
        spec_merge(spec_unset(), c) == c,
{
}

/// Merging is associative: applying two layers one after the other is the
/// same as applying their merge.
pub proof fn lemma_merge_associative(a: AppConfig, b: AppConfig, c: AppConfig)
    ensures
        spec_merge(spec_merge(a, b), c) == spec_merge(a, spec_merge(b, c)),
{
}

/// Merging a configuration into itself changes nothing.
pub proof fn lemma_merge_idempotent(c: AppConfig)
    ensures
        spec_merge(c, c) == c,
{
}

/// A layer that sets a setting decides it, whatever lies below.
pub proof fn lemma_merge_top_wins(base: AppConfig, top: AppConfig)
    ensures
        top.duration is Some ==> spec_merge(base, top).duration == top.duration,
        top.audio_channels is Some ==> spec_merge(base, top).audio_channels == top.audio_channels,
        top.output_dir is Some ==> spec_merge(base, top).output_dir == top.output_dir,
        top.bits_per_sample is Some ==> spec_merge(base, top).bits_per_sample
            == top.bits_per_sample,
        top.recording_cadence is Some ==> spec_merge(base, top).recording_cadence
            == top.recording_cadence,
        top.silence_threshold is Some ==> spec_merge(base, top).silence_threshold
            == top.silence_threshold,
        all_set(top) ==> spec_merge(base, top).input_device == overlay(
            base.input_device,
            top.input_device,
        ) && spec_merge(base, top).debug == top.debug,
{
}

/// Applying the environment is merging in the settings it sets.
pub proof fn lemma_apply_env_is_merge(c: AppConfig, env: EnvOverrides)
    ensures
        spec_apply_env(c, env) == spec_merge(c, spec_env_config(env)),
{
}

/// Precedence: the resolved configuration is the defaults overlaid with the
/// file's settings overlaid with the environment's, so the environment
/// wins over the file and the file over the defaults.
pub proof fn lemma_resolve_precedence(d: AppConfig, file: AppConfig, env: EnvOverrides)
    ensures
        spec_apply_env(spec_merge(d, file), env) == spec_merge(
            d,
            spec_merge(file, spec_env_config(env)),
        ),
        spec_env_config(env).duration is Some ==> spec_apply_env(spec_merge(d, file), env).duration
            == spec_env_config(env).duration,
        spec_env_config(env).duration is None && file.duration is Some ==> spec_apply_env(
            spec_merge(d, file),
            env,
        ).duration == file.duration,
{
    lemma_apply_env_is_merge(spec_merge(d, file), env);
    lemma_merge_associative(d, file, spec_env_config(env));
}

/// The first of three layers that sets a value: the environment's, else
/// the file's, else the default's.
pub open spec fn layered<T>(env: Option<T>, file: Option<T>, default: Option<T>) -> Option<T> {
    if env is Some {
        env
    } else if file is Some {
        file
    } else {
        default
    }
}

/// Every setting, not only some: a layer that sets a value decides it, and
/// a layer that leaves it unset keeps the value below.
pub proof fn lemma_merge_each_setting(base: AppConfig, top: AppConfig)
    ensures
        top.audio_channels is Some ==> spec_merge(base, top).audio_channels == top.audio_channels,
        top.audio_channels is None ==> spec_merge(base, top).audio_channels == base.audio_channels,
        top.debug is Some ==> spec_merge(base, top).debug == top.debug,
        top.debug is None ==> spec_merge(base, top).debug == base.debug,
        top.duration is Some ==> spec_merge(base, top).duration == top.duration,
        top.duration is None ==> spec_merge(base, top).duration == base.duration,
        top.output_mode is Some ==> spec_merge(base, top).output_mode == top.output_mode,
        top.output_mode is None ==> spec_merge(base, top).output_mode == base.output_mode,
        top.silence_threshold is Some ==> spec_merge(base, top).silence_threshold == top.silence_threshold,
        top.silence_threshold is None ==> spec_merge(base, top).silence_threshold == base.silence_threshold,
        top.continuous_mode is Some ==> spec_merge(base, top).continuous_mode == top.continuous_mode,
        top.continuous_mode is None ==> spec_merge(base, top).continuous_mode == base.continuous_mode,
        top.recording_cadence is Some ==> spec_merge(base, top).recording_cadence == top.recording_cadence,
        top.recording_cadence is None ==> spec_merge(base, top).recording_cadence == base.recording_cadence,
        top.output_dir is Some ==> spec_merge(base, top).output_dir == top.output_dir,
        top.output_dir is None ==> spec_merge(base, top).output_dir == base.output_dir,
        top.performance_logging is Some ==> spec_merge(base, top).performance_logging == top.performance_logging,
        top.performance_logging is None ==> spec_merge(base, top).performance_logging == base.performance_logging,
        top.input_device is Some ==> spec_merge(base, top).input_device == top.input_device,
        top.input_device is None ==> spec_merge(base, top).input_device == base.input_device,
        top.min_disk_space_mb is Some ==> spec_merge(base, top).min_disk_space_mb == top.min_disk_space_mb,
        top.min_disk_space_mb is None ==> spec_merge(base, top).min_disk_space_mb == base.min_disk_space_mb,
        top.bits_per_sample is Some ==> spec_merge(base, top).bits_per_sample == top.bits_per_sample,
        top.bits_per_sample is None ==> spec_merge(base, top).bits_per_sample == base.bits_per_sample,
        top.silence_gate_enabled is Some ==> spec_merge(base, top).silence_gate_enabled == top.silence_gate_enabled,
        top.silence_gate_enabled is None ==> spec_merge(base, top).silence_gate_enabled == base.silence_gate_enabled,
        top.silence_gate_timeout_secs is Some ==> spec_merge(base, top).silence_gate_timeout_secs == top.silence_gate_timeout_secs,
        top.silence_gate_timeout_secs is None ==> spec_merge(base, top).silence_gate_timeout_secs == base.silence_gate_timeout_secs,
{
}

/// Every setting: a variable that is set and parses decides the value;
/// otherwise the configuration's value stays.
pub proof fn lemma_env_each_setting(c: AppConfig, env: EnvOverrides)
    ensures
        spec_apply_env(c, env).audio_channels == layered(spec_text_override(env.audio_channels), c.audio_channels, None),
        spec_apply_env(c, env).debug == layered(spec_flag_override(env.debug), c.debug, None),
        spec_apply_env(c, env).duration == layered(as_u64(spec_number_override(env.duration, u64::MAX as nat)), c.duration, None),
        spec_apply_env(c, env).output_mode == layered(spec_text_override(env.output_mode), c.output_mode, None),
        spec_apply_env(c, env).silence_threshold == layered(first_set(env.silence_threshold.primary, env.silence_threshold.legacy), c.silence_threshold, None),
        spec_apply_env(c, env).continuous_mode == layered(spec_flag_override(env.continuous_mode), c.continuous_mode, None),
        spec_apply_env(c, env).recording_cadence == layered(as_u64(spec_number_override(env.recording_cadence, u64::MAX as nat)), c.recording_cadence, None),
        spec_apply_env(c, env).output_dir == layered(spec_text_override(env.output_dir), c.output_dir, None),
        spec_apply_env(c, env).performance_logging == layered(spec_flag_override(env.performance_logging), c.performance_logging, None),
        spec_apply_env(c, env).input_device == layered(spec_text_override(env.input_device), c.input_device, None),
        spec_apply_env(c, env).min_disk_space_mb == layered(as_u64(spec_number_override(env.min_disk_space_mb, u64::MAX as nat)), c.min_disk_space_mb, None),
        spec_apply_env(c, env).bits_per_sample == layered(as_u16(spec_number_override(env.bits_per_sample, u16::MAX as nat)), c.bits_per_sample, None),
        spec_apply_env(c, env).silence_gate_enabled == layered(spec_flag_override(env.silence_gate_enabled), c.silence_gate_enabled, None),
        spec_apply_env(c, env).silence_gate_timeout_secs == layered(as_u64(spec_number_override(env.silence_gate_timeout_secs, u64::MAX as nat)), c.silence_gate_timeout_secs, None),
{
}

/// Resolution, setting by setting: each resolved value is the
/// environment's when set, else the configuration file's when set, else
/// the default. So a file with `continuous_mode = true`, or
/// `BLACKBOX_CONTINUOUS_MODE=true`, switches continuous mode on.
pub proof fn lemma_resolve_each_setting(d: AppConfig, file: AppConfig, env: EnvOverrides)
    ensures
        spec_apply_env(spec_merge(d, file), env).audio_channels == layered(spec_text_override(env.audio_channels), file.audio_channels, d.audio_channels),
        spec_apply_env(spec_merge(d, file), env).debug == layered(spec_flag_override(env.debug), file.debug, d.debug),
        spec_apply_env(spec_merge(d, file), env).duration == layered(as_u64(spec_number_override(env.duration, u64::MAX as nat)), file.duration, d.duration),
        spec_apply_env(spec_merge(d, file), env).output_mode == layered(spec_text_override(env.output_mode), file.output_mode, d.output_mode),
        spec_apply_env(spec_merge(d, file), env).silence_threshold == layered(first_set(env.silence_threshold.primary, env.silence_threshold.legacy), file.silence_threshold, d.silence_threshold),
        spec_apply_env(spec_merge(d, file), env).continuous_mode == layered(spec_flag_override(env.continuous_mode), file.continuous_mode, d.continuous_mode),
        spec_apply_env(spec_merge(d, file), env).recording_cadence == layered(as_u64(spec_number_override(env.recording_cadence, u64::MAX as nat)), file.recording_cadence, d.recording_cadence),
        spec_apply_env(spec_merge(d, file), env).output_dir == layered(spec_text_override(env.output_dir), file.output_dir, d.output_dir),
        spec_apply_env(spec_merge(d, file), env).performance_logging == layered(spec_flag_override(env.performance_logging), file.performance_logging, d.performance_logging),
        spec_apply_env(spec_merge(d, file), env).input_device == layered(spec_text_override(env.input_device), file.input_device, d.input_device),
        spec_apply_env(spec_merge(d, file), env).min_disk_space_mb == layered(as_u64(spec_number_override(env.min_disk_space_mb, u64::MAX as nat)), file.min_disk_space_mb, d.min_disk_space_mb),
        spec_apply_env(spec_merge(d, file), env).bits_per_sample == layered(as_u16(spec_number_override(env.bits_per_sample, u16::MAX as nat)), file.bits_per_sample, d.bits_per_sample),
        spec_apply_env(spec_merge(d, file), env).silence_gate_enabled == layered(spec_flag_override(env.silence_gate_enabled), file.silence_gate_enabled, d.silence_gate_enabled),
        spec_apply_env(spec_merge(d, file), env).silence_gate_timeout_secs == layered(as_u64(spec_number_override(env.silence_gate_timeout_secs, u64::MAX as nat)), file.silence_gate_timeout_secs, d.silence_gate_timeout_secs),
{
    lemma_merge_each_setting(d, file);
    lemma_env_each_setting(spec_merge(d, file), env);
}

} // verus!
