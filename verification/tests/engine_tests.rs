use std::sync::atomic::{AtomicU64, Ordering};

use blackbox::channels::{available_channels, parse_channel_string, recording_channels};
use blackbox::constants::{DEFAULT_DURATION, MAX_CHANNELS};
use blackbox::error::{
    error_code, BlackboxError, BLACKBOX_ERR_AUDIO_DEVICE, BLACKBOX_ERR_CONFIG,
    BLACKBOX_ERR_DISK_SPACE_LOW, BLACKBOX_ERR_IO,
};
use blackbox::config::AppConfig;
use blackbox::pending::PendingBatches;
use blackbox::recorder::{channels_text, AudioProcessor, AudioRecorder};
use blackbox::rotation::{
    accepted_samples, advance_rotation_counter, push_samples_with_overflow_count,
    rotation_threshold_samples,
};
use blackbox::status::{
    engine_failure, peak_count, percent_basis_points, remaining_to_announce, run_step, RunStep,
    StatusFlags, DISK_SPACE_LOW_REASON, STREAM_ERROR_REASON, WRITE_FAILED_REASON,
};
use blackbox::ui::{can_run_gui_tests, format_duration, AppToUiMessage, CocoaError, UiToAppMessage};
use blackbox::OutputMode;

// ---------------------------------------------------------------------------
// Rotation
// ---------------------------------------------------------------------------

#[test]
fn threshold_scales_with_channel_count_and_cadence() {
    assert_eq!(rotation_threshold_samples(48_000, 1, 300), 14_400_000);
    assert_eq!(rotation_threshold_samples(48_000, 4, 300), 57_600_000);
    assert_eq!(rotation_threshold_samples(44_100, 2, 60), 5_292_000);
}

#[test]
fn counter_accumulates_fires_and_carries_overshoot() {
    let threshold = 1_000_u64;
    let mut counter = 0_u64;

    assert!(!advance_rotation_counter(&mut counter, 400, threshold));
    assert!(!advance_rotation_counter(&mut counter, 400, threshold));
    assert_eq!(counter, 800);

    assert!(
        advance_rotation_counter(&mut counter, 400, threshold),
        "crossing the threshold must signal a rotation"
    );
    assert_eq!(counter, 200, "the 200-sample overshoot must carry over");

    assert!(!advance_rotation_counter(&mut counter, 799, threshold));
    assert!(advance_rotation_counter(&mut counter, 1, threshold));
    assert_eq!(counter, 0, "landing exactly on the threshold carries 0");
}

#[test]
fn rotation_boundaries_do_not_drift() {
    let threshold = 1_000_u64;
    let batch = 300_usize;
    let mut counter = 0_u64;
    let mut consumed = 0_u64;
    let mut rotations = 0_u64;
    while rotations < 100 {
        consumed += batch as u64;
        if advance_rotation_counter(&mut counter, batch, threshold) {
            rotations += 1;
            let ideal = rotations * threshold;
            assert!(
                consumed >= ideal && consumed - ideal < batch as u64,
                "rotation {rotations} fired after {consumed} samples, \
                 more than one callback past {ideal}"
            );
        }
    }
}

#[test]
fn oversized_batch_fires_once_and_keeps_phase() {
    let mut counter = 0_u64;
    assert!(advance_rotation_counter(&mut counter, 2_500, 1_000));
    assert_eq!(counter, 500);
    assert!(!advance_rotation_counter(&mut counter, 400, 1_000));
}

#[test]
fn rotation_fires_at_same_wall_clock_across_channel_counts() {
    let sample_rate = 48_000_u32;
    let cadence_secs = 10_u64;
    let frames_per_callback = 480_usize;

    let callbacks_to_fire = |channels: usize| -> u32 {
        let threshold = rotation_threshold_samples(sample_rate, channels, cadence_secs);
        let batch = frames_per_callback * channels;
        let mut counter = 0_u64;
        let mut n = 0_u32;
        loop {
            n += 1;
            if advance_rotation_counter(&mut counter, batch, threshold) {
                return n;
            }
        }
    };

    let mono = callbacks_to_fire(1);
    let quad = callbacks_to_fire(4);
    assert_eq!(
        mono, quad,
        "rotation must fire after the same elapsed time regardless of channel count"
    );
    assert_eq!(mono, 1_000);
}

#[test]
fn zero_cadence_fires_every_batch() {
    let threshold = rotation_threshold_samples(48_000, 2, 0);
    assert_eq!(threshold, 0);
    let mut counter = 0_u64;
    assert!(advance_rotation_counter(&mut counter, 512, threshold));
    assert!(advance_rotation_counter(&mut counter, 512, threshold));
    assert_eq!(counter, 0, "a zero threshold must not accumulate");
}

#[test]
fn rotation_counter_saturates() {
    let mut counter = u64::MAX - 1;
    assert!(advance_rotation_counter(&mut counter, 10, u64::MAX));
    assert_eq!(counter, 0);
    let mut counter = u64::MAX - 1;
    assert!(!advance_rotation_counter(&mut counter, 0, u64::MAX));
    assert_eq!(counter, u64::MAX - 1);
}

// ---------------------------------------------------------------------------
// Ring-buffer admission
// ---------------------------------------------------------------------------

#[test]
fn push_samples_counts_rejected_suffix() {
    let (mut producer, mut consumer) = rtrb::RingBuffer::<f32>::new(16);
    let write_errors = AtomicU64::new(0);

    let small = vec![0.0_f32; 8];
    push_samples_with_overflow_count(&mut producer, &small, 1, &write_errors);
    assert_eq!(
        write_errors.load(Ordering::Relaxed),
        0,
        "no overflow expected when pushing within capacity"
    );

    let fill = vec![0.0_f32; 8];
    push_samples_with_overflow_count(&mut producer, &fill, 1, &write_errors);
    assert_eq!(
        write_errors.load(Ordering::Relaxed),
        0,
        "no overflow when filling to exact capacity"
    );

    let overflow = vec![0.0_f32; 100];
    push_samples_with_overflow_count(&mut producer, &overflow, 1, &write_errors);
    assert_eq!(
        write_errors.load(Ordering::Relaxed),
        100,
        "all 100 samples should have been rejected when ring is full"
    );

    if let Ok(chunk) = consumer.read_chunk(4) {
        chunk.commit_all();
    }
    let asymmetric = vec![0.0_f32; 10];
    push_samples_with_overflow_count(&mut producer, &asymmetric, 1, &write_errors);
    assert_eq!(
        write_errors.load(Ordering::Relaxed),
        106,
        "expected 100 + 6 rejected samples after asymmetric push"
    );
}

#[test]
fn overflow_push_keeps_frames_aligned() {
    let (mut producer, mut consumer) = rtrb::RingBuffer::<f32>::new(16);
    let write_errors = AtomicU64::new(0);

    push_samples_with_overflow_count(&mut producer, &[0.0_f32; 11], 1, &write_errors);
    assert_eq!(producer.slots(), 5);

    let batch: Vec<f32> = [1.0_f32, -1.0].repeat(4);
    push_samples_with_overflow_count(&mut producer, &batch, 2, &write_errors);
    assert_eq!(
        write_errors.load(Ordering::Relaxed),
        4,
        "2 whole frames fit; the partial frame and the last frame are rejected"
    );
    assert_eq!(producer.slots(), 1, "exactly 2 frames were pushed");

    consumer.read_chunk(11).unwrap().commit_all();
    let pushed: Vec<f32> = std::iter::from_fn(|| consumer.pop().ok()).collect();
    assert_eq!(pushed.len(), 4);
    for frame in pushed.chunks(2) {
        let (left, right) = (frame[0], frame[1]);
        assert!(
            left > 0.0 && right < 0.0,
            "frame must stay L/R: [{left}, {right}]"
        );
    }
}

#[test]
fn push_returns_the_rejected_count() {
    let (mut producer, _consumer) = rtrb::RingBuffer::<i32>::new(4);
    let write_errors = AtomicU64::new(0);
    assert_eq!(
        push_samples_with_overflow_count(&mut producer, &[1, 2, 3], 3, &write_errors),
        0
    );
    assert_eq!(
        push_samples_with_overflow_count(&mut producer, &[4, 5, 6], 3, &write_errors),
        3
    );
    assert_eq!(write_errors.load(Ordering::Relaxed), 3);
}

#[test]
fn accepted_samples_keep_whole_frames() {
    assert_eq!(accepted_samples(8, 16, 2), 8);
    assert_eq!(accepted_samples(8, 5, 2), 4);
    assert_eq!(accepted_samples(8, 5, 0), 5);
    assert_eq!(accepted_samples(9, 8, 3), 6);
}

// ---------------------------------------------------------------------------
// Channels
// ---------------------------------------------------------------------------

#[test]
fn test_channel_parsing() {
    assert_eq!(parse_channel_string("0,1,2").unwrap(), vec![0, 1, 2]);
    assert_eq!(parse_channel_string("0-3").unwrap(), vec![0, 1, 2, 3]);
    assert_eq!(
        parse_channel_string("0,2-4,6").unwrap(),
        vec![0, 2, 3, 4, 6]
    );
    assert_eq!(parse_channel_string("0,0,1,1").unwrap(), vec![0, 1]);
    assert!(parse_channel_string("invalid").is_err());

    let too_many = (0..=MAX_CHANNELS)
        .collect::<Vec<_>>()
        .iter()
        .map(ToString::to_string)
        .collect::<Vec<_>>()
        .join(",");
    assert!(parse_channel_string(&too_many).is_err());
}

#[test]
fn test_environment_variable_handling() {
    assert_eq!(parse_channel_string("0,1").unwrap(), vec![0, 1]);
    assert_eq!(parse_channel_string("0-3").unwrap(), vec![0, 1, 2, 3]);
    assert_eq!(
        parse_channel_string("0,2-4,7").unwrap(),
        vec![0, 2, 3, 4, 7]
    );

    assert!("true".parse::<bool>().unwrap_or(false));
    assert!(!"false".parse::<bool>().unwrap_or(false));

    assert_eq!("20".parse::<u64>().unwrap_or(DEFAULT_DURATION), 20);
}

#[test]
fn channel_lists_trim_sort_and_reject() {
    assert_eq!(parse_channel_string(" 3 , 1-2 ").unwrap(), vec![1, 2, 3]);
    assert!(matches!(
        parse_channel_string("5-2"),
        Err(BlackboxError::ChannelParse(_))
    ));
    assert!(parse_channel_string("").is_err());
    assert!(parse_channel_string("1,,2").is_err());
    assert!(parse_channel_string("-1").is_err());
    assert_eq!(
        parse_channel_string("0-254").unwrap().len(),
        MAX_CHANNELS
    );
}

#[test]
fn channels_outside_the_device_are_dropped() {
    assert_eq!(available_channels(&vec![0, 2, 5], 4), Some(vec![0, 2]));
    assert_eq!(available_channels(&vec![4, 5], 4), None);
    assert_eq!(recording_channels(&vec![1, 7], 2), vec![1]);
    assert_eq!(recording_channels(&vec![7], 3), vec![0, 1, 2]);
}

// ---------------------------------------------------------------------------
// Status and errors
// ---------------------------------------------------------------------------

#[test]
fn engine_failure_reports_each_flag() {
    assert_eq!(engine_failure(false, false, false), None);
    for (write_failed, disk_space_low, stream_error) in
        [(true, false, false), (false, true, false), (false, false, true)]
    {
        assert!(engine_failure(write_failed, disk_space_low, stream_error).is_some());
    }
}

#[test]
fn engine_failure_prefers_write_failure() {
    assert_eq!(engine_failure(true, true, true), Some(WRITE_FAILED_REASON));
    assert_eq!(engine_failure(false, true, true), Some(DISK_SPACE_LOW_REASON));
    assert_eq!(engine_failure(false, false, true), Some(STREAM_ERROR_REASON));
}

#[test]
fn percent_of_rounds_to_basis_points_and_clamps() {
    assert_eq!(percent_basis_points(1, 3), 3333, "1/3 rounds down to 33.33%");
    assert_eq!(percent_basis_points(2, 3), 6667, "2/3 rounds up to 66.67%");
    assert_eq!(percent_basis_points(5, 0), 0, "a zero whole reports 0%");
    assert_eq!(percent_basis_points(10, 5), 10_000, "over 100% clamps to 100%");
    assert_eq!(
        percent_basis_points(u64::MAX, u64::MAX),
        10_000,
        "exact for the largest u64 values"
    );
}

#[test]
fn run_loop_steps() {
    assert!(matches!(
        run_step(Some("disk full"), 0, 0),
        RunStep::Stop(Some("disk full"))
    ));
    assert!(matches!(run_step(None, 0, 1_000), RunStep::Tick));
    assert!(matches!(run_step(None, 3, 2), RunStep::Tick));
    assert!(matches!(run_step(None, 3, 3), RunStep::Stop(None)));
    assert_eq!(remaining_to_announce(30, 20), Some(10));
    assert_eq!(remaining_to_announce(30, 21), None);
    assert_eq!(remaining_to_announce(30, 30), None);
    assert_eq!(remaining_to_announce(0, 5), None);
}

#[test]
fn idle_status_and_peak_counts() {
    let idle = StatusFlags::idle();
    assert_eq!(idle.write_errors, 0);
    assert!(!idle.is_recording && !idle.write_failed);
    assert_eq!(peak_count(4, 255), 4);
    assert_eq!(peak_count(300, 255), 255);
}

#[test]
fn pending_batches_count_down_to_idle() {
    let mut pending = PendingBatches::new();
    assert!(pending.is_idle());
    pending.add();
    pending.add();
    pending.finish();
    assert_eq!(pending.count(), 1);
    assert!(!pending.is_idle());
    pending.finish();
    pending.finish();
    assert_eq!(pending.count(), 0);
    assert!(pending.is_idle());
}

#[test]
fn error_codes_and_messages() {
    let parse = BlackboxError::ChannelParse("5-2".to_owned());
    assert_eq!(error_code(&parse), BLACKBOX_ERR_CONFIG);
    assert_eq!(parse.message(), "Channel parse error: 5-2");
    let disk = BlackboxError::InsufficientDiskSpace {
        available_mb: 120,
        required_mb: 500,
    };
    assert_eq!(error_code(&disk), BLACKBOX_ERR_DISK_SPACE_LOW);
    assert_eq!(
        disk.message(),
        "Insufficient disk space: 120 MB available, 500 MB required"
    );
    let device = BlackboxError::AudioDeviceSource {
        context: "no input config".to_owned(),
        source: "device gone".to_owned(),
    };
    assert_eq!(error_code(&device), BLACKBOX_ERR_AUDIO_DEVICE);
    assert_eq!(device.message(), "Audio device error: no input config");
    assert_eq!(error_code(&BlackboxError::Io("x".to_owned())), BLACKBOX_ERR_IO);
}

// ---------------------------------------------------------------------------
// UI-facing helpers
// ---------------------------------------------------------------------------

#[test]
fn test_errors() {
    let error = CocoaError::NilInstance(());
    assert!(format!("{error:?}").contains("NilInstance"));

    let error = CocoaError::ExceptionThrown(());
    assert!(format!("{error:?}").contains("ExceptionThrown"));
}

#[test]
fn test_format_duration() {
    assert_eq!(format_duration(0), "0:00");
    assert_eq!(format_duration(30), "0:30");
    assert_eq!(format_duration(60), "1:00");
    assert_eq!(format_duration(65), "1:05");
    assert_eq!(format_duration(3600), "1:00:00");
    assert_eq!(format_duration(3665), "1:01:05");
}

#[test]
fn gui_tests_never_run_here() {
    assert!(!can_run_gui_tests());
    let to_app = UiToAppMessage::UpdateOutputDir("rec".to_owned());
    assert!(format!("{to_app:?}").contains("rec"));
    let to_ui = AppToUiMessage::TimeUpdate("0:05".to_owned());
    assert!(format!("{to_ui:?}").contains("0:05"));
}

#[test]
fn output_modes_round_trip() {
    for mode in [OutputMode::Single, OutputMode::Split] {
        assert_eq!(OutputMode::parse(mode.as_str()), Some(mode));
    }
    assert_eq!(OutputMode::parse("SPLIT"), None);
    assert_eq!(OutputMode::default(), OutputMode::Single);
}

// ---------------------------------------------------------------------------
// The recorder driving a processor
// ---------------------------------------------------------------------------

#[derive(Debug, Default)]
struct Mock {
    channels: Vec<usize>,
    output_mode: Option<OutputMode>,
    debug: bool,
    started: u32,
    fail: bool,
}

impl AudioProcessor for Mock {
    fn process_audio(
        &mut self,
        channels: &[usize],
        output_mode: OutputMode,
        debug: bool,
        _config: &AppConfig,
    ) -> Result<(), BlackboxError> {
        if self.fail {
            return Err(BlackboxError::AudioDevice("no input device".to_owned()));
        }
        self.channels = channels.to_vec();
        self.output_mode = Some(output_mode);
        self.debug = debug;
        self.started += 1;
        Ok(())
    }
    fn finalize(&mut self) -> Result<(), BlackboxError> {
        Ok(())
    }
    fn start_recording(&mut self, _config: &AppConfig) -> Result<(), BlackboxError> {
        Ok(())
    }
    fn stop_recording(&mut self) -> Result<(), BlackboxError> {
        Ok(())
    }
    fn is_recording(&self) -> bool {
        self.started > 0
    }
}

#[test]
fn recorder_starts_the_processor_with_parsed_channels() {
    let config = AppConfig {
        audio_channels: Some("3,0-1".to_owned()),
        output_mode: Some("split".to_owned()),
        debug: Some(true),
        ..AppConfig::default()
    };
    let mut recorder = AudioRecorder::with_config(Mock::default(), config);
    let msg = recorder.start_recording().unwrap();
    assert_eq!(msg, "Recording started with channels [0, 1, 3]");
    let mock = recorder.get_processor();
    assert_eq!(mock.channels, vec![0, 1, 3]);
    assert_eq!(mock.output_mode, Some(OutputMode::Split));
    assert!(mock.debug);
    assert!(mock.is_recording());
    assert!(!mock.write_failed() && !mock.gate_idle());
    assert_eq!(recorder.config().get_audio_channels(), "3,0-1");
}

#[test]
fn recorder_refuses_a_bad_channel_list_before_starting() {
    let config = AppConfig {
        audio_channels: Some("2-1".to_owned()),
        ..AppConfig::default()
    };
    let mut recorder = AudioRecorder::with_config(Mock::default(), config);
    assert!(matches!(
        recorder.start_recording(),
        Err(BlackboxError::ChannelParse(_))
    ));
    assert_eq!(recorder.get_processor().started, 0);
}

#[test]
fn recorder_passes_on_the_processor_error() {
    let mock = Mock {
        fail: true,
        ..Mock::default()
    };
    let mut recorder = AudioRecorder::with_config(mock, AppConfig::default());
    assert!(matches!(
        recorder.start_recording(),
        Err(BlackboxError::AudioDevice(_))
    ));
    recorder.processor_mut().fail = false;
    assert!(recorder.start_recording().is_ok());
    assert!(recorder.start_monitoring().is_ok());
}

#[test]
fn channel_lists_are_shown_like_vectors() {
    assert_eq!(channels_text(&vec![]), "[]");
    assert_eq!(channels_text(&vec![7]), "[7]");
    assert_eq!(channels_text(&vec![0, 2, 10]), format!("{:?}", vec![0, 2, 10]));
}

#[test]
fn refused_channel_lists_say_why() {
    match parse_channel_string("1,x") {
        Err(BlackboxError::ChannelParse(m)) => assert_eq!(
            m,
            "invalid channel list `1,x` (expected channel numbers and ranges like 0,2-4,7, at most 255 channels)"
        ),
        other => panic!("expected a channel parse error, got {other:?}"),
    }
}

#[derive(Debug, Default)]
struct Bare;

impl AudioProcessor for Bare {
    fn process_audio(
        &mut self,
        _channels: &[usize],
        _output_mode: OutputMode,
        _debug: bool,
        _config: &AppConfig,
    ) -> Result<(), BlackboxError> {
        Ok(())
    }
    fn finalize(&mut self) -> Result<(), BlackboxError> {
        Ok(())
    }
    fn start_recording(&mut self, _config: &AppConfig) -> Result<(), BlackboxError> {
        Ok(())
    }
    fn stop_recording(&mut self) -> Result<(), BlackboxError> {
        Ok(())
    }
    fn is_recording(&self) -> bool {
        false
    }
}

#[test]
fn processor_defaults_report_nothing_wrong() {
    let mut p = Bare;
    assert_eq!(p.write_error_count(), 0);
    assert!(!p.write_failed() && !p.disk_space_low() && !p.stream_error());
    assert!(!p.sample_rate_changed() && !p.is_monitoring() && !p.gate_idle());
    assert_eq!(p.sample_rate(), 0);
    assert!(p.start_monitoring(&AppConfig::default()).is_ok());
    assert!(p.stop_monitoring().is_ok());
}
