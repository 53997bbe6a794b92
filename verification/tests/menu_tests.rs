use blackbox::config::AppConfig;
use blackbox::error::BlackboxError;
use blackbox::menu::{
    channel_label, channels_from_menu_title, duration_label, duration_seconds, indicator,
    item_checked, menu_step, output_dir_text, status_refresh_needed, status_text, toggle_title,
    MenuAction, MenuEvent, MenuState, CHANNEL_ITEMS, DURATION_ITEMS,
};
use blackbox::recorder::recording_request;
use blackbox::rotation::rejected_count;
use blackbox::OutputMode;

#[test]
fn status_line_texts() {
    assert_eq!(status_text(false, 30, Some(5)), "Not recording");
    assert_eq!(status_text(true, 30, None), "Recording...");
    assert_eq!(status_text(true, 90, Some(25)), "Recording: 1:05 remaining");
    assert_eq!(status_text(true, 30, Some(45)), "Recording: 0:00 remaining");
    assert_eq!(status_text(true, 0, Some(3665)), "Recording: 1:01:05 elapsed");
    assert_eq!(output_dir_text("./recordings"), "Output: ./recordings");
}

#[test]
fn channel_items_select_the_list_before_the_space() {
    assert_eq!(channels_from_menu_title(channel_label(0)), "0");
    assert_eq!(channels_from_menu_title(channel_label(1)), "0,1");
    assert_eq!(channels_from_menu_title(channel_label(2)), "All");
    assert_eq!(channels_from_menu_title("2-5"), "2-5");
    assert_eq!(channels_from_menu_title(" x"), "");
    assert_eq!(CHANNEL_ITEMS, 3);
}

#[test]
fn duration_items() {
    let expected = [
        (30, "30 seconds"),
        (60, "1 minute"),
        (300, "5 minutes"),
        (1800, "30 minutes"),
        (3600, "1 hour"),
        (0, "Continuous"),
    ];
    assert_eq!(DURATION_ITEMS, expected.len());
    for (i, (secs, label)) in expected.iter().enumerate() {
        assert_eq!(duration_seconds(i), *secs);
        assert_eq!(duration_label(i), *label);
    }
}

#[test]
fn the_menu_toggles_only_on_a_started_recording() {
    let idle = MenuState::initial();
    assert_eq!(
        idle,
        MenuState {
            recording: false,
            duration_item: None,
            channel_item: None,
        }
    );
    let (s, a) = menu_step(idle, MenuEvent::ToggleClicked);
    assert_eq!((s, a), (idle, MenuAction::StartRecording));
    assert_eq!(toggle_title(s.recording), "Start Recording");
    let (s, a) = menu_step(s, MenuEvent::StartSucceeded);
    assert!(s.recording && a == MenuAction::Nothing);
    assert_eq!(toggle_title(s.recording), "Stop Recording");
    assert_eq!(indicator(s.recording), "🔴");
    assert!(status_refresh_needed(s));
    let (s, a) = menu_step(s, MenuEvent::QuitClicked);
    assert_eq!(a, MenuAction::Quit { stop_recording: true });
    let (s, a) = menu_step(s, MenuEvent::ToggleClicked);
    assert!(!s.recording && a == MenuAction::StopRecording);
    assert_eq!(indicator(s.recording), "●");
    assert!(!status_refresh_needed(s));
}

#[test]
fn radio_items_keep_one_checkmark() {
    let idle = MenuState {
        recording: false,
        duration_item: Some(0),
        channel_item: None,
    };
    let (s, a) = menu_step(idle, MenuEvent::DurationClicked(5));
    assert_eq!(a, MenuAction::SetDuration(0));
    assert_eq!(s.duration_item, Some(5));
    assert!((0..DURATION_ITEMS).all(|j| item_checked(s.duration_item, j) == (j == 5)));
    let (s, a) = menu_step(s, MenuEvent::ChannelClicked(1));
    assert_eq!(a, MenuAction::SetChannels(1));
    assert_eq!(s.channel_item, Some(1));
    let (s2, a) = menu_step(s, MenuEvent::ChannelClicked(9));
    assert_eq!((s2, a), (s, MenuAction::Nothing));
}

#[test]
fn recording_requests_follow_the_configuration() {
    let config = AppConfig {
        audio_channels: Some("0,2-4,6".to_owned()),
        output_mode: Some("split".to_owned()),
        debug: Some(true),
        ..AppConfig::default()
    };
    let req = recording_request(&config).unwrap();
    assert_eq!(req.channels, vec![0, 2, 3, 4, 6]);
    assert_eq!(req.output_mode, OutputMode::Split);
    assert!(req.debug);
    let bad = AppConfig {
        audio_channels: Some("invalid".to_owned()),
        ..AppConfig::default()
    };
    assert!(matches!(
        recording_request(&bad),
        Err(BlackboxError::ChannelParse(_))
    ));
}

#[test]
fn rejected_counts_add_the_refused_and_unpushed_samples() {
    assert_eq!(rejected_count(100, 0, 0), 100);
    assert_eq!(rejected_count(10, 4, 0), 6);
    assert_eq!(rejected_count(8, 4, 1), 5);
}
