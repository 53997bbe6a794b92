//! The configuration file: which keys it may set, how a file whose keys were
//! parsed one by one becomes a configuration (forgivingly: a bad or unknown
//! key is skipped and reported, the rest still apply), and the commented
//! sample file the recorder writes.
//!
//! Reading the TOML document and deserializing each key's value is done by
//! the caller; this module decides what the parsed keys amount to.

use vstd::prelude::*;

use crate::config::{opt_chars, spec_merge, spec_unset, AppConfig};
use crate::constants::{
    DEFAULT_BITS_PER_SAMPLE, DEFAULT_CHANNELS, DEFAULT_CONTINUOUS_MODE, DEFAULT_DEBUG,
    DEFAULT_DURATION, DEFAULT_OUTPUT_DIR, DEFAULT_OUTPUT_MODE, DEFAULT_PERFORMANCE_LOGGING,
    DEFAULT_RECORDING_CADENCE, DEFAULT_SILENCE_GATE_ENABLED, DEFAULT_SILENCE_GATE_TIMEOUT_SECS,
    DEFAULT_SILENCE_THRESHOLD_TEXT, MAX_RECORDING_CADENCE,
};
use crate::text::{push_decimal, push_str, spec_decimal, str_equals, string_push};

verus! {

/// The keys a configuration file can set, as listed in messages.
pub const CONFIG_KEY_LIST: &'static str =
    "audio_channels, debug, duration, output_mode, silence_threshold, continuous_mode, recording_cadence, output_dir, performance_logging, input_device, min_disk_space_mb, bits_per_sample, silence_gate_enabled, silence_gate_timeout_secs";

/// Whether `key` is one of the settings of [`AppConfig`].
pub open spec fn spec_is_config_key(key: Seq<char>) -> bool {
    ||| key == "audio_channels"@
    ||| key == "debug"@
    ||| key == "duration"@
    ||| key == "output_mode"@
    ||| key == "silence_threshold"@
    ||| key == "continuous_mode"@
    ||| key == "recording_cadence"@
    ||| key == "output_dir"@
    ||| key == "performance_logging"@
    ||| key == "input_device"@
    ||| key == "min_disk_space_mb"@
    ||| key == "bits_per_sample"@
    ||| key == "silence_gate_enabled"@
    ||| key == "silence_gate_timeout_secs"@
}

/// Whether a configuration file may set `key`.
pub fn is_config_key(key: &str) -> (r: bool)
    ensures
        r == spec_is_config_key(key@),
{
    str_equals(key, "audio_channels") || str_equals(key, "debug") || str_equals(key, "duration")
        || str_equals(key, "output_mode") || str_equals(key, "silence_threshold") || str_equals(
        key,
        "continuous_mode",
    ) || str_equals(key, "recording_cadence") || str_equals(key, "output_dir") || str_equals(
        key,
        "performance_logging",
    ) || str_equals(key, "input_device") || str_equals(key, "min_disk_space_mb") || str_equals(
        key,
        "bits_per_sample",
    ) || str_equals(key, "silence_gate_enabled") || str_equals(key, "silence_gate_timeout_secs")
}

/// What one key's value of a configuration file parsed to.
#[derive(Debug)]
pub enum ConfigEntry {
    /// The value parsed: a configuration setting just that key.
    Parsed(AppConfig),
    /// The value has the wrong type or range for the key; the parser's reason.
    Invalid(String),
}

/// The warning for a key that is no setting.
pub open spec fn spec_unknown_key_message(key: Seq<char>) -> Seq<char> {
    "unknown key `"@ + key + "` ignored (misspelled?); known keys: "@ + CONFIG_KEY_LIST@
}

/// The warning for a key whose value is invalid.
pub open spec fn spec_invalid_value_message(key: Seq<char>, reason: Seq<char>) -> Seq<char> {
    "`"@ + key + "` ignored, its value is invalid ("@ + reason + "); using the default"@
}

/// What is reported about one parsed key, if anything: an unknown key is
/// reported whatever its value, a known key only when its value is invalid.
pub open spec fn spec_entry_problem(entry: (String, ConfigEntry)) -> Option<Seq<char>> {
    if !spec_is_config_key(entry.0@) {
        Some(spec_unknown_key_message(entry.0@))
    } else {
        match entry.1 {
            ConfigEntry::Parsed(_) => None,
            ConfigEntry::Invalid(reason) => Some(spec_invalid_value_message(entry.0@, reason@)),
        }
    }
}

/// The configuration the parsed keys set, in order: each known key whose
/// value parsed is merged over the ones before it.
pub open spec fn spec_entries_config(entries: Seq<(String, ConfigEntry)>) -> AppConfig
    decreases entries.len(),
{
    if entries.len() == 0 {
        spec_unset()
    } else {
        let before = spec_entries_config(entries.drop_last());
        let last = entries.last();
        match last.1 {
            ConfigEntry::Parsed(c) => if spec_is_config_key(last.0@) {
                spec_merge(before, c)
            } else {
                before
            },
            ConfigEntry::Invalid(_) => before,
        }
    }
}

/// The warnings about the parsed keys, in order.
pub open spec fn spec_entries_problems(entries: Seq<(String, ConfigEntry)>) -> Seq<Seq<char>>
    decreases entries.len(),
{
    if entries.len() == 0 {
        seq![]
    } else {
        let before = spec_entries_problems(entries.drop_last());
        match spec_entry_problem(entries.last()) {
            Some(m) => before.push(m),
            None => before,
        }
    }
}

/// The characters of each string.
pub open spec fn string_views(v: Seq<String>) -> Seq<Seq<char>> {
    v.map_values(|s: String| s@)
}

fn unknown_key_message(key: &str) -> (r: String)
    ensures
        r@ == spec_unknown_key_message(key@),
{
    let mut m = String::new();
    push_str(&mut m, "unknown key `");
    push_str(&mut m, key);
    push_str(&mut m, "` ignored (misspelled?); known keys: ");
    push_str(&mut m, CONFIG_KEY_LIST);
    m
}

fn invalid_value_message(key: &str, reason: &str) -> (r: String)
    ensures
        r@ == spec_invalid_value_message(key@, reason@),
{
    let mut m = String::new();
    push_str(&mut m, "`");
    push_str(&mut m, key);
    push_str(&mut m, "` ignored, its value is invalid (");
    push_str(&mut m, reason);
    push_str(&mut m, "); using the default");
    m
}

impl AppConfig {
    /// The configuration a file sets, from its keys in file order, each with
    /// what its value parsed to, and the warnings to log: keys that are no
    /// setting (usually typos) and values of the wrong type or range are
    /// skipped, every other key applies. A file is never rejected over one
    /// bad key.
    pub fn from_parsed_entries(entries: Vec<(String, ConfigEntry)>) -> (r: (AppConfig, Vec<String>))
        ensures
            r.0 == spec_entries_config(entries@),
            string_views(r.1@) == spec_entries_problems(entries@),
    {
        let ghost all = entries@;
        let mut rest = entries;
        let mut config = AppConfig::unset();
        let mut problems: Vec<String> = Vec::new();
        let total: usize = rest.len();
        assert(all.len() == total);
        let mut i: usize = 0;
        while rest.len() > 0
            invariant
                i + rest@.len() == all.len(),
                all.len() <= usize::MAX,
                rest@ == all.subrange(i as int, all.len() as int),
                config == spec_entries_config(all.subrange(0, i as int)),
                string_views(problems@) == spec_entries_problems(all.subrange(0, i as int)),
            decreases rest@.len(),
        {
            let ghost done = all.subrange(0, i as int);
            let ghost next = all.subrange(0, i + 1);
            assert(next.drop_last() =~= done);
            assert(next.last() == rest@[0]);
            let (key, entry) = rest.remove(0);
            let known = is_config_key(key.as_str());
            if !known {
                let m = unknown_key_message(key.as_str());
                problems.push(m);
            } else {
                match entry {
                    ConfigEntry::Parsed(one) => {
                        config.merge(one);
                    },
                    ConfigEntry::Invalid(reason) => {
                        let m = invalid_value_message(key.as_str(), reason.as_str());
                        problems.push(m);
                    },
                }
            }
            assert(string_views(problems@) =~= spec_entries_problems(next));
            i = i + 1;
            assert(rest@ =~= all.subrange(i as int, all.len() as int));
        }
        assert(all.subrange(0, i as int) =~= all);
        (config, problems)
    }
}

// ---------------------------------------------------------------------------
// The sample configuration file
// ---------------------------------------------------------------------------

/// `true` or `false`.
pub open spec fn spec_bool_text(b: bool) -> Seq<char> {
    if b {
        "true"@
    } else {
        "false"@
    }
}

/// One commented setting of the sample file: its explanation, its default,
/// and the line that sets it to the default (quoted for strings), followed
/// by a blank line.
pub open spec fn spec_sample_entry(note: Seq<char>, key: Seq<char>, value: Seq<char>, quoted: bool) -> Seq<
    char,
> {
    let shown = if quoted {
        "\""@ + value + "\""@
    } else {
        value
    };
    note + "# Default: "@ + value + "\n"@ + key + " = "@ + shown + "\n\n"@
}

/// The opening comment of the sample file.
pub const SAMPLE_HEAD: &'static str =
    "# Blackbox Audio Recorder Configuration\n# This file configures the behavior of the audio recorder.\n# Values set here can be overridden by environment variables.\n\n";

/// The closing comment of the sample file, about the input device.
pub const SAMPLE_TAIL: &'static str =
    "# Input device name (leave commented out for system default). The CLI exits\n# with an error if the named device isn't present.\n# input_device = \"MacBook Pro Microphone\"\n";

/// The explanation of the cadence setting, around its upper limit.
pub open spec fn spec_cadence_note() -> Seq<char> {
    "# Recording cadence in seconds (how often to rotate files in continuous mode).\n# Must be 1 to "@
        + spec_decimal(MAX_RECORDING_CADENCE as nat) + "; other values fall back to the default.\n"@
}

/// The sample configuration file: every setting a file may hold, commented,
/// at its default value, except the input device, which is left commented
/// out so the system default applies.
pub open spec fn spec_sample_config() -> Seq<char> {
    SAMPLE_HEAD@ + spec_sample_entry(
        "# Audio channels to record (comma-separated list or ranges like 0-2)\n"@,
        "audio_channels"@,
        DEFAULT_CHANNELS@,
        true,
    ) + spec_sample_entry(
        "# Enable debug output (true/false)\n"@,
        "debug"@,
        spec_bool_text(DEFAULT_DEBUG),
        false,
    ) + spec_sample_entry(
        "# Recording duration in seconds (0 for unlimited)\n"@,
        "duration"@,
        spec_decimal(DEFAULT_DURATION as nat),
        false,
    ) + spec_sample_entry(
        "# Output mode: \"single\" (one file), \"split\" (one file per channel)\n"@,
        "output_mode"@,
        DEFAULT_OUTPUT_MODE@,
        true,
    ) + spec_sample_entry(
        "# Silence threshold: normalized amplitude 0.0-1.0 (0.01 = 1% of full scale).\n# 0 disables silence detection. Out-of-range values fall back to the default.\n"@,
        "silence_threshold"@,
        DEFAULT_SILENCE_THRESHOLD_TEXT@,
        false,
    ) + spec_sample_entry(
        "# Continuous recording mode (true/false)\n"@,
        "continuous_mode"@,
        spec_bool_text(DEFAULT_CONTINUOUS_MODE),
        false,
    ) + spec_sample_entry(
        spec_cadence_note(),
        "recording_cadence"@,
        spec_decimal(DEFAULT_RECORDING_CADENCE as nat),
        false,
    ) + spec_sample_entry(
        "# Output directory for recordings\n"@,
        "output_dir"@,
        DEFAULT_OUTPUT_DIR@,
        true,
    ) + spec_sample_entry(
        "# Enable performance logging (true/false)\n"@,
        "performance_logging"@,
        spec_bool_text(DEFAULT_PERFORMANCE_LOGGING),
        false,
    ) + spec_sample_entry(
        "# Bits per sample for WAV output (16, 24, or 32)\n"@,
        "bits_per_sample"@,
        spec_decimal(DEFAULT_BITS_PER_SAMPLE as nat),
        false,
    ) + spec_sample_entry(
        "# Silence gate: auto-split on silence (finalize the current file and open a\n# new one on next signal) (true/false)\n"@,
        "silence_gate_enabled"@,
        spec_bool_text(DEFAULT_SILENCE_GATE_ENABLED),
        false,
    ) + spec_sample_entry(
        "# Seconds of silence before the silence gate closes and finalizes files.\n# Must be >= 1; 0 falls back to the default.\n"@,
        "silence_gate_timeout_secs"@,
        spec_decimal(DEFAULT_SILENCE_GATE_TIMEOUT_SECS as nat),
        false,
    ) + SAMPLE_TAIL@
}

/// Whether `part` occurs somewhere in `text`.
pub open spec fn spec_contains(text: Seq<char>, part: Seq<char>) -> bool {
    exists|i: int| 0 <= i && i + part.len() <= text.len() && #[trigger] text.subrange(i, i + part.len()) == part
}

/// The line of a TOML file that sets `key` to the TOML text `value`.
pub open spec fn spec_setting_line(key: Seq<char>, value: Seq<char>) -> Seq<char> {
    seq!['\n'] + key + seq![' ', '=', ' '] + value + seq!['\n']
}

proof fn lemma_contains_concat(x: Seq<char>, y: Seq<char>, part: Seq<char>)
    ensures
        spec_contains(x, part) || spec_contains(y, part) ==> spec_contains(x + y, part),
{
    if spec_contains(x, part) {
        let i = choose|i: int| 0 <= i && i + part.len() <= x.len() && #[trigger] x.subrange(i, i + part.len()) == part;
        assert((x + y).subrange(i, i + part.len()) =~= x.subrange(i, i + part.len()));
    } else if spec_contains(y, part) {
        let i = choose|i: int| 0 <= i && i + part.len() <= y.len() && #[trigger] y.subrange(i, i + part.len()) == part;
        let j = x.len() + i;
        assert((x + y).subrange(j, j + part.len()) =~= y.subrange(i, i + part.len()));
    }
}

proof fn lemma_entry_sets(note: Seq<char>, key: Seq<char>, value: Seq<char>, quoted: bool)
    ensures
        spec_contains(
            spec_sample_entry(note, key, value, quoted),
            spec_setting_line(
                key,
                if quoted {
                    "\""@ + value + "\""@
                } else {
                    value
                },
            ),
        ),
{
    reveal_strlit("\n");
    reveal_strlit("\n\n");
    reveal_strlit(" = ");
    let shown = if quoted {
        "\""@ + value + "\""@
    } else {
        value
    };
    let e = spec_sample_entry(note, key, value, quoted);
    let part = spec_setting_line(key, shown);
    let i: int = (note.len() + "# Default: "@.len() + value.len()) as int;
    assert(e == note + "# Default: "@ + value + "\n"@ + key + " = "@ + shown + "\n\n"@);
    assert(e.subrange(i, i + part.len()) =~= part);
}

/// The sample file sets every setting it lists to its default: for the
/// default configuration `d`, each `key = value` line of the sample holds
/// `d`'s value (strings quoted), so loading the sample changes nothing.
pub proof fn lemma_sample_sets_defaults(d: AppConfig)
    requires
        AppConfig::is_default(d),
    ensures
        spec_contains(spec_sample_config(), spec_setting_line("audio_channels"@, "\""@ + opt_chars(d.audio_channels)->0 + "\""@)),
        spec_contains(spec_sample_config(), spec_setting_line("debug"@, (if d.debug->0 { "true"@ } else { "false"@ }))),
        spec_contains(spec_sample_config(), spec_setting_line("duration"@, spec_decimal(d.duration->0 as nat))),
        spec_contains(spec_sample_config(), spec_setting_line("output_mode"@, "\""@ + opt_chars(d.output_mode)->0 + "\""@)),
        spec_contains(spec_sample_config(), spec_setting_line("continuous_mode"@, (if d.continuous_mode->0 { "true"@ } else { "false"@ }))),
        spec_contains(spec_sample_config(), spec_setting_line("recording_cadence"@, spec_decimal(d.recording_cadence->0 as nat))),
        spec_contains(spec_sample_config(), spec_setting_line("output_dir"@, "\""@ + opt_chars(d.output_dir)->0 + "\""@)),
        spec_contains(spec_sample_config(), spec_setting_line("performance_logging"@, (if d.performance_logging->0 { "true"@ } else { "false"@ }))),
        spec_contains(spec_sample_config(), spec_setting_line("bits_per_sample"@, spec_decimal(d.bits_per_sample->0 as nat))),
        spec_contains(spec_sample_config(), spec_setting_line("silence_gate_enabled"@, (if d.silence_gate_enabled->0 { "true"@ } else { "false"@ }))),
        spec_contains(spec_sample_config(), spec_setting_line("silence_gate_timeout_secs"@, spec_decimal(d.silence_gate_timeout_secs->0 as nat))),
        spec_contains(spec_sample_config(), spec_setting_line("silence_threshold"@, DEFAULT_SILENCE_THRESHOLD_TEXT@)),
{
    assert forall|x: Seq<char>, y: Seq<char>, p: Seq<char>|
        spec_contains(x, p) || spec_contains(y, p) implies #[trigger] spec_contains(x + y, p) by {
        lemma_contains_concat(x, y, p);
    }
    reveal_strlit("true");
    reveal_strlit("false");
    lemma_entry_sets("# Audio channels to record (comma-separated list or ranges like 0-2)\n"@, "audio_channels"@, DEFAULT_CHANNELS@, true);
    lemma_entry_sets("# Enable debug output (true/false)\n"@, "debug"@, spec_bool_text(DEFAULT_DEBUG), false);
    lemma_entry_sets("# Recording duration in seconds (0 for unlimited)\n"@, "duration"@, spec_decimal(DEFAULT_DURATION as nat), false);
    lemma_entry_sets("# Output mode: \"single\" (one file), \"split\" (one file per channel)\n"@, "output_mode"@, DEFAULT_OUTPUT_MODE@, true);
    lemma_entry_sets("# Silence threshold: normalized amplitude 0.0-1.0 (0.01 = 1% of full scale).\n# 0 disables silence detection. Out-of-range values fall back to the default.\n"@, "silence_threshold"@, DEFAULT_SILENCE_THRESHOLD_TEXT@, false);
    lemma_entry_sets("# Continuous recording mode (true/false)\n"@, "continuous_mode"@, spec_bool_text(DEFAULT_CONTINUOUS_MODE), false);
    lemma_entry_sets(spec_cadence_note(), "recording_cadence"@, spec_decimal(DEFAULT_RECORDING_CADENCE as nat), false);
    lemma_entry_sets("# Output directory for recordings\n"@, "output_dir"@, DEFAULT_OUTPUT_DIR@, true);
    lemma_entry_sets("# Enable performance logging (true/false)\n"@, "performance_logging"@, spec_bool_text(DEFAULT_PERFORMANCE_LOGGING), false);
    lemma_entry_sets("# Bits per sample for WAV output (16, 24, or 32)\n"@, "bits_per_sample"@, spec_decimal(DEFAULT_BITS_PER_SAMPLE as nat), false);
    lemma_entry_sets("# Silence gate: auto-split on silence (finalize the current file and open a\n# new one on next signal) (true/false)\n"@, "silence_gate_enabled"@, spec_bool_text(DEFAULT_SILENCE_GATE_ENABLED), false);
    lemma_entry_sets("# Seconds of silence before the silence gate closes and finalizes files.\n# Must be >= 1; 0 falls back to the default.\n"@, "silence_gate_timeout_secs"@, spec_decimal(DEFAULT_SILENCE_GATE_TIMEOUT_SECS as nat), false);
}

fn bool_text(b: bool) -> (r: &'static str)
    ensures
        r@ == spec_bool_text(b),
{
    if b {
        "true"
    } else {
        "false"
    }
}

fn decimal_text(n: u64) -> (r: String)
    ensures
        r@ == spec_decimal(n as nat),
{
    let mut s = String::new();
    push_decimal(&mut s, n);
    assert(s@ =~= spec_decimal(n as nat));
    s
}

fn push_sample_entry(s: &mut String, note: &str, key: &str, value: &str, quoted: bool)
    ensures
        final(s)@ == old(s)@ + spec_sample_entry(note@, key@, value@, quoted),
{
    push_str(s, note);
    push_str(s, "# Default: ");
    push_str(s, value);
    push_str(s, "\n");
    push_str(s, key);
    push_str(s, " = ");
    if quoted {
        push_str(s, "\"");
        push_str(s, value);
        push_str(s, "\"");
    } else {
        push_str(s, value);
    }
    push_str(s, "\n\n");
    assert(final(s)@ =~= old(s)@ + spec_sample_entry(note@, key@, value@, quoted));
}

impl AppConfig {
    /// The text of a sample configuration file with comments: every
    /// setting at its default (see [`spec_sample_config`]).
    pub fn generate_sample_config() -> (r: String)
        ensures
            r@ == spec_sample_config(),
    {
        let mut s = String::new();
        push_str(&mut s, SAMPLE_HEAD);
        push_sample_entry(
            &mut s,
            "# Audio channels to record (comma-separated list or ranges like 0-2)\n",
            "audio_channels",
            DEFAULT_CHANNELS,
            true,
        );
        push_sample_entry(
            &mut s,
            "# Enable debug output (true/false)\n",
            "debug",
            bool_text(DEFAULT_DEBUG),
            false,
        );
        let duration = decimal_text(DEFAULT_DURATION);
        push_sample_entry(
            &mut s,
            "# Recording duration in seconds (0 for unlimited)\n",
            "duration",
            duration.as_str(),
            false,
        );
        push_sample_entry(
            &mut s,
            "# Output mode: \"single\" (one file), \"split\" (one file per channel)\n",
            "output_mode",
            DEFAULT_OUTPUT_MODE,
            true,
        );
        push_sample_entry(
            &mut s,
            "# Silence threshold: normalized amplitude 0.0-1.0 (0.01 = 1% of full scale).\n# 0 disables silence detection. Out-of-range values fall back to the default.\n",
            "silence_threshold",
            DEFAULT_SILENCE_THRESHOLD_TEXT,
            false,
        );
        push_sample_entry(
            &mut s,
            "# Continuous recording mode (true/false)\n",
            "continuous_mode",
            bool_text(DEFAULT_CONTINUOUS_MODE),
            false,
        );
        let mut cadence_note = String::new();
        push_str(
            &mut cadence_note,
            "# Recording cadence in seconds (how often to rotate files in continuous mode).\n# Must be 1 to ",
        );
        push_decimal(&mut cadence_note, MAX_RECORDING_CADENCE);
        push_str(&mut cadence_note, "; other values fall back to the default.\n");
        let cadence = decimal_text(DEFAULT_RECORDING_CADENCE);
        push_sample_entry(
            &mut s,
            cadence_note.as_str(),
            "recording_cadence",
            cadence.as_str(),
            false,
        );
        push_sample_entry(
            &mut s,
            "# Output directory for recordings\n",
            "output_dir",
            DEFAULT_OUTPUT_DIR,
            true,
        );
        push_sample_entry(
            &mut s,
            "# Enable performance logging (true/false)\n",
            "performance_logging",
            bool_text(DEFAULT_PERFORMANCE_LOGGING),
            false,
        );
        let bits = decimal_text(DEFAULT_BITS_PER_SAMPLE as u64);
        push_sample_entry(
            &mut s,
            "# Bits per sample for WAV output (16, 24, or 32)\n",
            "bits_per_sample",
            bits.as_str(),
            false,
        );
        push_sample_entry(
            &mut s,
            "# Silence gate: auto-split on silence (finalize the current file and open a\n# new one on next signal) (true/false)\n",
            "silence_gate_enabled",
            bool_text(DEFAULT_SILENCE_GATE_ENABLED),
            false,
        );
        let timeout = decimal_text(DEFAULT_SILENCE_GATE_TIMEOUT_SECS);
        push_sample_entry(
            &mut s,
            "# Seconds of silence before the silence gate closes and finalizes files.\n# Must be >= 1; 0 falls back to the default.\n",
            "silence_gate_timeout_secs",
            timeout.as_str(),
            false,
        );
        push_str(&mut s, SAMPLE_TAIL);
        s
    }
}

// ---------------------------------------------------------------------------
// Where the configuration file is looked for
// ---------------------------------------------------------------------------

/// `rel` (a relative path) under the directory `dir`, joined as paths join:
/// a separator is added unless `dir` is empty or already ends with one.
pub open spec fn spec_join(dir: Seq<char>, rel: Seq<char>) -> Seq<char> {
    if dir.len() == 0 {
        rel
    } else if dir.last() == '/' {
        dir + rel
    } else {
        dir + seq!['/'] + rel
    }
}

/// The files a configuration is read from, in the order they are tried:
/// the file `BLACKBOX_CONFIG` names (unless it is empty), `blackbox.toml` in
/// the working directory, `.config/blackbox/config.toml` under `HOME`,
/// `blackbox/config.toml` under `XDG_CONFIG_HOME`, and the system-wide
/// `/etc/blackbox/config.toml`. Unset variables contribute no file.
pub open spec fn spec_config_candidates(
    explicit: Option<Seq<char>>,
    home: Option<Seq<char>>,
    xdg_config_home: Option<Seq<char>>,
) -> Seq<Seq<char>> {
    let first = match explicit {
        Some(p) => if p.len() > 0 {
            seq![p]
        } else {
            seq![]
        },
        None => seq![],
    };
    let in_home = match home {
        Some(h) => seq![spec_join(h, ".config/blackbox/config.toml"@)],
        None => seq![],
    };
    let in_xdg = match xdg_config_home {
        Some(x) => seq![spec_join(x, "blackbox/config.toml"@)],
        None => seq![],
    };
    first + seq!["blackbox.toml"@] + in_home + in_xdg + seq!["/etc/blackbox/config.toml"@]
}

fn join_path(dir: &str, rel: &str) -> (r: String)
    ensures
        r@ == spec_join(dir@, rel@),
{
    let mut s = String::new();
    push_str(&mut s, dir);
    let n = dir.unicode_len();
    if n > 0 && dir.get_char(n - 1) != '/' {
        string_push(&mut s, '/');
    }
    push_str(&mut s, rel);
    proof {
        if dir@.len() > 0 && dir@.last() != '/' {
            assert(s@ =~= dir@ + seq!['/'] + rel@);
        }
    }
    s
}

/// The configuration files to try, in order (see
/// [`spec_config_candidates`]); the first that exists is read. Each
/// argument is its environment variable's value, `None` when it is unset or
/// not Unicode.
pub fn config_file_candidates(
    explicit: Option<String>,
    home: Option<String>,
    xdg_config_home: Option<String>,
) -> (r: Vec<String>)
    ensures
        string_views(r@) == spec_config_candidates(
            opt_chars(explicit),
            opt_chars(home),
            opt_chars(xdg_config_home),
        ),
{
    let mut r: Vec<String> = Vec::new();
    match explicit {
        Some(p) => {
            if p.unicode_len() > 0 {
                r.push(p);
            }
        },
        None => {},
    }
    r.push("blackbox.toml".to_string());
    match home {
        Some(h) => {
            let p = join_path(h.as_str(), ".config/blackbox/config.toml");
            r.push(p);
        },
        None => {},
    }
    match xdg_config_home {
        Some(x) => {
            let p = join_path(x.as_str(), "blackbox/config.toml");
            r.push(p);
        },
        None => {},
    }
    r.push("/etc/blackbox/config.toml".to_string());
    assert(string_views(r@) =~= spec_config_candidates(
        opt_chars(explicit),
        opt_chars(home),
        opt_chars(xdg_config_home),
    ));
    r
}

} // verus!
