use blackbox::config::{AppConfig, EnvOverrides, EnvPair};
use blackbox::config_file::{config_file_candidates, is_config_key, ConfigEntry, CONFIG_KEY_LIST};
use blackbox::constants::{
    DEFAULT_BITS_PER_SAMPLE, DEFAULT_CHANNELS, DEFAULT_DEBUG, DEFAULT_DURATION,
    DEFAULT_OUTPUT_DIR, DEFAULT_RECORDING_CADENCE, DEFAULT_SILENCE_GATE_TIMEOUT_SECS,
    DEFAULT_SILENCE_THRESHOLD_BITS, DEFAULT_SILENCE_THRESHOLD_TEXT, MAX_RECORDING_CADENCE,
};
use blackbox::OutputMode;

fn unset_config() -> AppConfig {
    AppConfig {
        audio_channels: None,
        debug: None,
        duration: None,
        output_mode: None,
        silence_threshold: None,
        continuous_mode: None,
        recording_cadence: None,
        output_dir: None,
        performance_logging: None,
        input_device: None,
        min_disk_space_mb: None,
        bits_per_sample: None,
        silence_gate_enabled: None,
        silence_gate_timeout_secs: None,
    }
}

fn pair(primary: Option<&str>, legacy: Option<&str>) -> EnvPair<String> {
    EnvPair {
        primary: primary.map(str::to_owned),
        legacy: legacy.map(str::to_owned),
    }
}

#[test]
fn test_default_config() {
    let config = AppConfig::default();
    assert_eq!(config.audio_channels, Some(DEFAULT_CHANNELS.to_owned()));
    assert_eq!(config.debug, Some(DEFAULT_DEBUG));
}

#[test]
fn test_env_vars_override() {
    let mut config = AppConfig {
        audio_channels: Some(DEFAULT_CHANNELS.to_owned()),
        debug: Some(false),
        ..unset_config()
    };
    let mut env = EnvOverrides::unset();
    env.audio_channels = pair(None, Some("0,2,3"));
    env.debug = pair(None, Some("true"));

    config.apply_env_vars(&env);

    assert_eq!(config.audio_channels, Some("0,2,3".to_owned()));
    assert!(config.get_debug());
    assert_eq!(config.get_audio_channels(), "0,2,3");
    assert!(config.get_debug());
}

#[test]
fn test_parse_bool_variants() {
    assert_eq!(AppConfig::parse_bool("true"), Some(true));
    assert_eq!(AppConfig::parse_bool("TRUE"), Some(true));
    assert_eq!(AppConfig::parse_bool("True"), Some(true));
    assert_eq!(AppConfig::parse_bool("1"), Some(true));
    assert_eq!(AppConfig::parse_bool("yes"), Some(true));
    assert_eq!(AppConfig::parse_bool("YES"), Some(true));
    assert_eq!(AppConfig::parse_bool("on"), Some(true));
    assert_eq!(AppConfig::parse_bool("ON"), Some(true));

    assert_eq!(AppConfig::parse_bool("false"), Some(false));
    assert_eq!(AppConfig::parse_bool("FALSE"), Some(false));
    assert_eq!(AppConfig::parse_bool("0"), Some(false));
    assert_eq!(AppConfig::parse_bool("no"), Some(false));
    assert_eq!(AppConfig::parse_bool("off"), Some(false));

    assert_eq!(AppConfig::parse_bool("invalid"), None);
    assert_eq!(AppConfig::parse_bool(""), None);
    assert_eq!(AppConfig::parse_bool("maybe"), None);
    assert_eq!(AppConfig::parse_bool("2"), None);
}

#[test]
fn test_generate_sample_config_is_valid_toml() {
    let sample = AppConfig::generate_sample_config();

    assert!(sample.contains("audio_channels"));
    assert!(sample.contains("debug"));
    assert!(sample.contains("duration"));
    assert!(sample.contains("output_mode"));
    assert!(sample.contains("silence_threshold"));
    assert!(sample.contains("continuous_mode"));
    assert!(sample.contains("recording_cadence"));
    assert!(sample.contains("output_dir"));
    assert!(sample.contains("performance_logging"));

    let parsed: Result<toml::Table, _> = toml::from_str(&sample);
    assert!(
        parsed.is_ok(),
        "Generated sample config should be valid TOML: {:?}",
        parsed.err()
    );
    let table = parsed.unwrap();
    for key in table.keys() {
        assert!(is_config_key(key), "sample sets unknown key {key}");
    }
}

#[test]
fn test_config_new_equals_default() {
    let new_config = AppConfig::new();
    let default_config = AppConfig::default();

    assert_eq!(new_config.audio_channels, default_config.audio_channels);
    assert_eq!(new_config.debug, default_config.debug);
    assert_eq!(new_config.duration, default_config.duration);
    assert_eq!(new_config.output_mode, default_config.output_mode);
}

#[test]
fn test_config_malformed_toml_falls_back_to_defaults() {
    // A file that is not TOML contributes no settings.
    assert!("this is not valid toml [[[".parse::<toml::Table>().is_err());
    let config = AppConfig::resolve(None, &EnvOverrides::unset());
    assert_eq!(config.get_audio_channels(), DEFAULT_CHANNELS);
    assert_eq!(config.get_debug(), DEFAULT_DEBUG);
}

#[test]
fn test_output_dir_rejects_path_traversal() {
    let leading_traversal = AppConfig {
        output_dir: Some("../../../etc/passwd".to_owned()),
        ..AppConfig::default()
    };
    assert_eq!(leading_traversal.get_output_dir(), DEFAULT_OUTPUT_DIR);

    let embedded_traversal = AppConfig {
        output_dir: Some("recordings/../../../tmp".to_owned()),
        ..AppConfig::default()
    };
    assert_eq!(embedded_traversal.get_output_dir(), DEFAULT_OUTPUT_DIR);

    let relative_dir = AppConfig {
        output_dir: Some("my/recordings".to_owned()),
        ..AppConfig::default()
    };
    assert_eq!(relative_dir.get_output_dir(), "my/recordings");

    let absolute_dir = AppConfig {
        output_dir: Some("/absolute/path/recordings".to_owned()),
        ..AppConfig::default()
    };
    assert_eq!(absolute_dir.get_output_dir(), "/absolute/path/recordings");
}

#[test]
fn test_merge_configs() {
    let mut base_config = AppConfig {
        audio_channels: Some("0,1".to_owned()),
        debug: Some(false),
        duration: Some(10),
        output_mode: Some("single".to_owned()),
        silence_threshold: Some(0.0_f32.to_bits()),
        continuous_mode: Some(false),
        recording_cadence: Some(300),
        output_dir: Some("./recordings".to_owned()),
        performance_logging: Some(false),
        input_device: None,
        min_disk_space_mb: Some(500),
        bits_per_sample: Some(24),
        silence_gate_enabled: Some(false),
        silence_gate_timeout_secs: Some(300),
    };

    let override_config = AppConfig {
        audio_channels: Some("2,3".to_owned()),
        debug: Some(true),
        duration: None,
        output_mode: Some("split".to_owned()),
        silence_threshold: None,
        continuous_mode: None,
        recording_cadence: None,
        output_dir: None,
        performance_logging: None,
        input_device: None,
        min_disk_space_mb: None,
        bits_per_sample: None,
        silence_gate_enabled: None,
        silence_gate_timeout_secs: None,
    };

    base_config.merge(override_config);

    assert_eq!(base_config.audio_channels, Some("2,3".to_owned()));
    assert!(base_config.get_debug());
    assert_eq!(base_config.duration, Some(10));
    assert_eq!(base_config.output_mode, Some("split".to_owned()));
    assert_eq!(base_config.silence_threshold, Some(0.0_f32.to_bits()));
    assert_eq!(base_config.continuous_mode, Some(false));
    assert_eq!(base_config.recording_cadence, Some(300));
    assert_eq!(base_config.output_dir, Some("./recordings".to_owned()));
    assert_eq!(base_config.performance_logging, Some(false));
}

#[test]
fn test_silence_threshold_rejects_out_of_range() {
    for bad in [
        f32::NAN,
        f32::INFINITY,
        f32::NEG_INFINITY,
        -0.1,
        -1.0,
        1.000_1,
        2.0,
        100.0,
    ] {
        let config = AppConfig {
            silence_threshold: Some(bad.to_bits()),
            ..AppConfig::default()
        };
        assert_eq!(
            config.get_silence_threshold(),
            DEFAULT_SILENCE_THRESHOLD_BITS,
            "silence_threshold = {bad} should fall back to default"
        );
    }

    for good in [0.0_f32, 0.001, 0.5, 1.0] {
        let config = AppConfig {
            silence_threshold: Some(good.to_bits()),
            ..AppConfig::default()
        };
        assert_eq!(f32::from_bits(config.get_silence_threshold()), good);
    }
}

#[test]
fn test_recording_cadence_rejects_zero() {
    let zero_cadence = AppConfig {
        recording_cadence: Some(0),
        ..AppConfig::default()
    };
    assert_eq!(
        zero_cadence.get_recording_cadence(),
        DEFAULT_RECORDING_CADENCE
    );

    for good in [1, 60, 300, 86_400] {
        let good_cadence = AppConfig {
            recording_cadence: Some(good),
            ..AppConfig::default()
        };
        assert_eq!(good_cadence.get_recording_cadence(), good);
    }

    let unset_cadence = AppConfig {
        recording_cadence: None,
        ..AppConfig::default()
    };
    assert_eq!(
        unset_cadence.get_recording_cadence(),
        DEFAULT_RECORDING_CADENCE
    );
}

#[test]
fn test_recording_cadence_zero_from_env_rejected() {
    let mut env = EnvOverrides::unset();
    env.recording_cadence = pair(Some("0"), None);
    let mut config = AppConfig::default();
    config.apply_env_vars(&env);
    assert_eq!(config.recording_cadence, Some(0), "env value lands raw");
    assert_eq!(
        config.get_recording_cadence(),
        DEFAULT_RECORDING_CADENCE,
        "getter must reject the zero cadence"
    );
}

#[test]
fn test_bits_per_sample_validation() {
    for valid in [16, 24, 32] {
        let config = AppConfig {
            bits_per_sample: Some(valid),
            ..AppConfig::default()
        };
        assert_eq!(config.get_bits_per_sample(), valid);
    }

    for invalid in [0, 8, 12, 48, 64, 128] {
        let config = AppConfig {
            bits_per_sample: Some(invalid),
            ..AppConfig::default()
        };
        assert_eq!(config.get_bits_per_sample(), DEFAULT_BITS_PER_SAMPLE);
    }

    let config = AppConfig {
        bits_per_sample: None,
        ..AppConfig::default()
    };
    assert_eq!(config.get_bits_per_sample(), DEFAULT_BITS_PER_SAMPLE);
}

// ---------------------------------------------------------------------------
// Precedence and environment overrides
// ---------------------------------------------------------------------------

#[test]
fn environment_wins_over_file_and_file_over_defaults() {
    let file = AppConfig {
        duration: Some(90),
        output_dir: Some("from_file".to_owned()),
        ..unset_config()
    };
    let mut env = EnvOverrides::unset();
    env.duration = pair(Some("120"), None);
    let config = AppConfig::resolve(Some(file), &env);
    assert_eq!(config.get_duration(), 120);
    assert_eq!(config.get_output_dir(), "from_file");
    assert_eq!(config.get_recording_cadence(), DEFAULT_RECORDING_CADENCE);
}

#[test]
fn prefixed_variable_wins_and_unparsable_one_falls_through() {
    let mut env = EnvOverrides::unset();
    env.duration = pair(Some("45"), Some("60"));
    env.debug = pair(Some("perhaps"), Some("yes"));
    env.bits_per_sample = pair(Some("70000"), Some("16"));
    let config = AppConfig::resolve(None, &env);
    assert_eq!(config.get_duration(), 45);
    assert!(config.get_debug());
    assert_eq!(config.get_bits_per_sample(), 16);
}

#[test]
fn merging_unset_changes_nothing() {
    let mut config = AppConfig {
        duration: Some(7),
        ..unset_config()
    };
    config.merge(AppConfig::unset());
    assert_eq!(config.duration, Some(7));
    assert_eq!(config.debug, None);
}

#[test]
fn getters_fall_back_on_invalid_values() {
    let config = AppConfig {
        output_mode: Some("stereo".to_owned()),
        silence_gate_timeout_secs: Some(0),
        recording_cadence: Some(MAX_RECORDING_CADENCE + 1),
        ..unset_config()
    };
    assert_eq!(config.output_mode_parsed(), OutputMode::Single);
    assert_eq!(
        config.get_silence_gate_timeout_secs(),
        DEFAULT_SILENCE_GATE_TIMEOUT_SECS
    );
    assert_eq!(config.get_recording_cadence(), DEFAULT_RECORDING_CADENCE);
    assert_eq!(config.get_duration(), DEFAULT_DURATION);
    let split = AppConfig {
        output_mode: Some("split".to_owned()),
        ..unset_config()
    };
    assert_eq!(split.output_mode_parsed(), OutputMode::Split);
}

// ---------------------------------------------------------------------------
// Configuration files
// ---------------------------------------------------------------------------

#[test]
fn known_keys_are_exactly_the_listed_ones() {
    let keys: Vec<&str> = CONFIG_KEY_LIST.split(", ").collect();
    assert_eq!(keys.len(), 14);
    for key in &keys {
        assert!(is_config_key(key), "{key}");
    }
    assert!(!is_config_key("audio_channel"));
    assert!(!is_config_key(""));
}

#[test]
fn forgiving_entries_skip_bad_and_unknown_keys() {
    let entries = vec![
        (
            "duration".to_owned(),
            ConfigEntry::Parsed(AppConfig {
                duration: Some(60),
                ..unset_config()
            }),
        ),
        (
            "recording_cadence".to_owned(),
            ConfigEntry::Invalid("invalid value: integer `-1`".to_owned()),
        ),
        (
            "debgu".to_owned(),
            ConfigEntry::Parsed(unset_config()),
        ),
        (
            "output_dir".to_owned(),
            ConfigEntry::Parsed(AppConfig {
                output_dir: Some("rec".to_owned()),
                ..unset_config()
            }),
        ),
    ];
    let (config, problems) = AppConfig::from_parsed_entries(entries);
    assert_eq!(config.duration, Some(60));
    assert_eq!(config.output_dir, Some("rec".to_owned()));
    assert_eq!(config.recording_cadence, None);
    assert_eq!(config.debug, None);
    assert_eq!(problems.len(), 2);
    assert_eq!(
        problems[0],
        "`recording_cadence` ignored, its value is invalid (invalid value: integer `-1`); using the default"
    );
    assert_eq!(
        problems[1],
        format!("unknown key `debgu` ignored (misspelled?); known keys: {CONFIG_KEY_LIST}")
    );
}

#[test]
fn sample_config_sets_every_default() {
    let sample = AppConfig::generate_sample_config();
    let table: toml::Table = toml::from_str(&sample).unwrap();
    assert_eq!(table["audio_channels"].as_str(), Some(DEFAULT_CHANNELS));
    assert_eq!(table["duration"].as_integer(), Some(30));
    assert_eq!(table["recording_cadence"].as_integer(), Some(300));
    assert_eq!(table["bits_per_sample"].as_integer(), Some(24));
    assert_eq!(table["silence_gate_enabled"].as_bool(), Some(true));
    assert_eq!(table["output_dir"].as_str(), Some(DEFAULT_OUTPUT_DIR));
    assert!(!table.contains_key("input_device"));
    let threshold = table["silence_threshold"].as_float().unwrap() as f32;
    assert_eq!(threshold.to_bits(), DEFAULT_SILENCE_THRESHOLD_BITS);
    assert_eq!(
        f32::from_bits(DEFAULT_SILENCE_THRESHOLD_BITS).to_string(),
        DEFAULT_SILENCE_THRESHOLD_TEXT
    );
    assert!(sample.contains(&format!("Must be 1 to {MAX_RECORDING_CADENCE};")));
}

#[test]
fn config_files_are_searched_in_order() {
    assert_eq!(
        config_file_candidates(
            Some("/srv/bb.toml".to_owned()),
            Some("/home/ana".to_owned()),
            Some("/home/ana/.xdg/".to_owned())
        ),
        vec![
            "/srv/bb.toml",
            "blackbox.toml",
            "/home/ana/.config/blackbox/config.toml",
            "/home/ana/.xdg/blackbox/config.toml",
            "/etc/blackbox/config.toml",
        ]
    );
    assert_eq!(
        config_file_candidates(Some(String::new()), None, None),
        vec!["blackbox.toml", "/etc/blackbox/config.toml"]
    );
    let joined = std::path::Path::new("/home/ana").join(".config/blackbox/config.toml");
    assert_eq!(
        config_file_candidates(None, Some("/home/ana".to_owned()), None)[1],
        joined.to_str().unwrap()
    );
}
