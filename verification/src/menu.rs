//! The decisions of the menu-bar interface: what the status line says,
//! what the start/stop item is titled, which duration and channel items
//! are checked, and what each click asks the recorder to do. The menu
//! itself (creating items, reading clicks, setting titles) is the
//! interface's own work; it hands each click here as a [`MenuEvent`] and
//! carries out the [`MenuAction`] that comes back.

use vstd::prelude::*;

use crate::text::{push_str, string_push};
use crate::ui::{format_duration, spec_format_duration};

verus! {

/// How often the status line is refreshed while recording, in milliseconds.
pub const STATUS_REFRESH_MS: u64 = 500;

/// Number of items in the duration menu.
pub const DURATION_ITEMS: usize = 6;

/// Number of items in the channel menu.
pub const CHANNEL_ITEMS: usize = 3;

/// The recording length, in seconds, of duration item `i` (0 is
/// continuous): 30 seconds, 1 minute, 5 minutes, 30 minutes, 1 hour,
/// continuous.
pub open spec fn spec_duration_seconds(i: int) -> u64 {
    if i == 0 {
        30
    } else if i == 1 {
        60
    } else if i == 2 {
        300
    } else if i == 3 {
        1800
    } else if i == 4 {
        3600
    } else {
        0
    }
}

/// The recording length, in seconds, of duration item `i`.
pub fn duration_seconds(i: usize) -> (r: u64)
    requires
        i < DURATION_ITEMS,
    ensures
        r == spec_duration_seconds(i as int),
{
    if i == 0 {
        30
    } else if i == 1 {
        60
    } else if i == 2 {
        300
    } else if i == 3 {
        1800
    } else if i == 4 {
        3600
    } else {
        0
    }
}

/// The title of duration item `i`.
pub fn duration_label(i: usize) -> (r: &'static str)
    requires
        i < DURATION_ITEMS,
    ensures
        r@ == (if i == 0 {
            "30 seconds"@
        } else if i == 1 {
            "1 minute"@
        } else if i == 2 {
            "5 minutes"@
        } else if i == 3 {
            "30 minutes"@
        } else if i == 4 {
            "1 hour"@
        } else {
            "Continuous"@
        }),
{
    if i == 0 {
        "30 seconds"
    } else if i == 1 {
        "1 minute"
    } else if i == 2 {
        "5 minutes"
    } else if i == 3 {
        "30 minutes"
    } else if i == 4 {
        "1 hour"
    } else {
        "Continuous"
    }
}

/// The title of channel item `i`: the channel list it selects, then a
/// description after a space.
pub fn channel_label(i: usize) -> (r: &'static str)
    requires
        i < CHANNEL_ITEMS,
    ensures
        r@ == (if i == 0 {
            "0 (Default)"@
        } else if i == 1 {
            "0,1 (Stereo)"@
        } else {
            "All Available"@
        }),
        r@ == spec_channel_label(i as int),
{
    if i == 0 {
        "0 (Default)"
    } else if i == 1 {
        "0,1 (Stereo)"
    } else {
        "All Available"
    }
}

/// The status line: `Not recording`; `Recording...` before the start time
/// is known; then the time left of a fixed-length recording (0 once it is
/// over) or the time elapsed of a continuous one.
pub open spec fn spec_status_text(recording: bool, duration_secs: u64, elapsed: Option<u64>) -> Seq<
    char,
> {
    if !recording {
        "Not recording"@
    } else {
        match elapsed {
            None => "Recording..."@,
            Some(e) => if duration_secs > 0 {
                "Recording: "@ + spec_format_duration(
                    (if duration_secs > e {
                        duration_secs - e
                    } else {
                        0
                    }) as nat,
                ) + " remaining"@
            } else {
                "Recording: "@ + spec_format_duration(e as nat) + " elapsed"@
            },
        }
    }
}

/// The status line for a recording of `duration_secs` seconds (0 is
/// continuous) that has run `elapsed` seconds (`None` before it started).
pub fn status_text(recording: bool, duration_secs: u64, elapsed: Option<u64>) -> (r: String)
    ensures
        r@ == spec_status_text(recording, duration_secs, elapsed),
{
    let mut s = String::new();
    if !recording {
        push_str(&mut s, "Not recording");
        return s;
    }
    match elapsed {
        None => {
            push_str(&mut s, "Recording...");
        },
        Some(e) => {
            push_str(&mut s, "Recording: ");
            if duration_secs > 0 {
                let remaining = if duration_secs > e {
                    duration_secs - e
                } else {
                    0
                };
                let t = format_duration(remaining);
                push_str(&mut s, t.as_str());
                push_str(&mut s, " remaining");
            } else {
                let t = format_duration(e);
                push_str(&mut s, t.as_str());
                push_str(&mut s, " elapsed");
            }
        },
    }
    s
}

/// The line showing where recordings go: `Output: <dir>`.
pub fn output_dir_text(dir: &str) -> (r: String)
    ensures
        r@ == "Output: "@ + dir@,
{
    let mut s = String::new();
    push_str(&mut s, "Output: ");
    push_str(&mut s, dir);
    s
}

/// The channel list a channel item selects: its title up to the first
/// space (all of it when there is none).
pub fn channels_from_menu_title(title: &str) -> (r: String)
    ensures
        r@.len() <= title@.len(),
        r@ == title@.take(r@.len() as int),
        forall|i: int| 0 <= i < r@.len() ==> r@[i] != ' ',
        r@.len() == title@.len() || title@[r@.len() as int] == ' ',
{
    let n = title.unicode_len();
    let mut s = String::new();
    let mut i: usize = 0;
    while i < n
        invariant
            n == title@.len(),
            i <= n,
            s@ == title@.take(i as int),
            forall|j: int| 0 <= j < i ==> title@[j] != ' ',
        decreases n - i,
    {
        let c = title.get_char(i);
        if c == ' ' {
            return s;
        }
        string_push(&mut s, c);
        i = i + 1;
        assert(s@ =~= title@.take(i as int));
    }
    s
}

/// The start/stop item's title.
pub fn toggle_title(recording: bool) -> (r: &'static str)
    ensures
        r@ == (if recording {
            "Stop Recording"@
        } else {
            "Start Recording"@
        }),
{
    if recording {
        "Stop Recording"
    } else {
        "Start Recording"
    }
}

/// The menu-bar indicator: a red dot while recording, a plain dot otherwise.
pub fn indicator(recording: bool) -> (r: &'static str)
    ensures
        r@ == (if recording {
            "🔴"@
        } else {
            "●"@
        }),
{
    if recording {
        "🔴"
    } else {
        "●"
    }
}

/// What the menu shows.
#[derive(Debug, Clone, Copy, PartialEq, Eq, Structural)]
pub struct MenuState {
    /// Whether a recording is running.
    pub recording: bool,
    /// The checked duration item, if any.
    pub duration_item: Option<usize>,
    /// The checked channel item, if any.
    pub channel_item: Option<usize>,
}

impl MenuState {
    /// The menu as it first appears: not recording, no duration or channel
    /// item checked.
    pub fn initial() -> (r: MenuState)
        ensures
            r == (MenuState { recording: false, duration_item: None, channel_item: None }),
    {
        MenuState { recording: false, duration_item: None, channel_item: None }
    }
}

/// A click in the menu, or the outcome of a start the menu asked for.
#[derive(Debug, Clone, Copy, PartialEq, Eq, Structural)]
pub enum MenuEvent {
    /// The start/stop item was clicked.
    ToggleClicked,
    /// The recording the menu asked to start did start.
    StartSucceeded,
    /// Duration item `i` was clicked.
    DurationClicked(usize),
    /// Channel item `i` was clicked.
    ChannelClicked(usize),
    /// The quit item was clicked.
    QuitClicked,
}

/// What the menu asks of the recorder.
#[derive(Debug, Clone, Copy, PartialEq, Eq, Structural)]
pub enum MenuAction {
    Nothing,
    /// Start a recording with the current settings; report
    /// [`MenuEvent::StartSucceeded`] if it starts.
    StartRecording,
    /// Stop the running recording.
    StopRecording,
    /// Record for this many seconds from now on (0 is continuous).
    SetDuration(u64),
    /// Record the channel list of this channel item's title (see
    /// [`channels_from_menu_title`]).
    SetChannels(usize),
    /// Quit, stopping the recording first when one runs.
    Quit { stop_recording: bool },
}

/// The menu's next state and action for an event. The start/stop item
/// stops a running recording at once, and asks to start one otherwise (the
/// menu shows it as running only once it started). A duration or channel
/// item becomes the one checked item of its menu and changes the setting.
pub open spec fn spec_menu_step(state: MenuState, event: MenuEvent) -> (MenuState, MenuAction) {
    match event {
        MenuEvent::ToggleClicked => if state.recording {
            (MenuState { recording: false, ..state }, MenuAction::StopRecording)
        } else {
            (state, MenuAction::StartRecording)
        },
        MenuEvent::StartSucceeded => (MenuState { recording: true, ..state }, MenuAction::Nothing),
        MenuEvent::DurationClicked(i) => if i < DURATION_ITEMS {
            (
                MenuState { duration_item: Some(i), ..state },
                MenuAction::SetDuration(spec_duration_seconds(i as int)),
            )
        } else {
            (state, MenuAction::Nothing)
        },
        MenuEvent::ChannelClicked(i) => if i < CHANNEL_ITEMS {
            (MenuState { channel_item: Some(i), ..state }, MenuAction::SetChannels(i))
        } else {
            (state, MenuAction::Nothing)
        },
        MenuEvent::QuitClicked => (state, MenuAction::Quit { stop_recording: state.recording }),
    }
}

/// The menu's next state and action for `event` (see [`spec_menu_step`]).
pub fn menu_step(state: MenuState, event: MenuEvent) -> (r: (MenuState, MenuAction))
    ensures
        r == spec_menu_step(state, event),
{
    match event {
        MenuEvent::ToggleClicked => {
            if state.recording {
                (MenuState { recording: false, ..state }, MenuAction::StopRecording)
            } else {
                (state, MenuAction::StartRecording)
            }
        },
        MenuEvent::StartSucceeded => (MenuState { recording: true, ..state }, MenuAction::Nothing),
        MenuEvent::DurationClicked(i) => {
            if i < DURATION_ITEMS {
                (
                    MenuState { duration_item: Some(i), ..state },
                    MenuAction::SetDuration(duration_seconds(i)),
                )
            } else {
                (state, MenuAction::Nothing)
            }
        },
        MenuEvent::ChannelClicked(i) => {
            if i < CHANNEL_ITEMS {
                (MenuState { channel_item: Some(i), ..state }, MenuAction::SetChannels(i))
            } else {
                (state, MenuAction::Nothing)
            }
        },
        MenuEvent::QuitClicked => (state, MenuAction::Quit { stop_recording: state.recording }),
    }
}

/// Whether item `j` of a menu whose checked item is `checked` shows a
/// checkmark: exactly the checked one does.
pub fn item_checked(checked: Option<usize>, j: usize) -> (r: bool)
    ensures
        r == (checked == Some(j)),
{
    match checked {
        Some(i) => i == j,
        None => false,
    }
}

/// Whether the status line needs refreshing every [`STATUS_REFRESH_MS`]:
/// only while recording.
pub fn status_refresh_needed(state: MenuState) -> (r: bool)
    ensures
        r == state.recording,
{
    state.recording
}

/// The menu never shows a recording it did not see start: a stopped menu
/// shows recording again only after [`MenuEvent::StartSucceeded`], and a
/// click on a checked-item menu leaves exactly the clicked item checked.
pub proof fn lemma_menu_only_shows_started_recordings(state: MenuState, event: MenuEvent)
    requires
        !state.recording,
    ensures
        spec_menu_step(state, event).0.recording <==> event == MenuEvent::StartSucceeded,
        forall|i: usize|
            i < DURATION_ITEMS && event == MenuEvent::DurationClicked(i) ==> (#[trigger] spec_menu_step(
                state,
                MenuEvent::DurationClicked(i),
            )).0.duration_item == Some(i),
{
}

/// The title of channel item `i`.
pub open spec fn spec_channel_label(i: int) -> Seq<char> {
    if i == 0 {
        "0 (Default)"@
    } else if i == 1 {
        "0,1 (Stereo)"@
    } else {
        "All Available"@
    }
}

/// A click on a channel item, whatever the menu shows: the item clicked is
/// the one checked afterwards, it is the item whose title gives the
/// channels recorded, nothing else in the menu changes, and the recording
/// keeps running or stays stopped. A click outside the menu changes
/// nothing. The same holds for duration items, whose action records that
/// item's length.
pub proof fn lemma_clicked_item_is_the_one_used(state: MenuState, i: usize)
    ensures
        i < CHANNEL_ITEMS ==> spec_menu_step(state, MenuEvent::ChannelClicked(i)) == (
            MenuState { recording: state.recording, duration_item: state.duration_item, channel_item: Some(i) },
            MenuAction::SetChannels(i),
        ),
        i >= CHANNEL_ITEMS ==> spec_menu_step(state, MenuEvent::ChannelClicked(i)) == (
            state,
            MenuAction::Nothing,
        ),
        i < DURATION_ITEMS ==> spec_menu_step(state, MenuEvent::DurationClicked(i)) == (
            MenuState { recording: state.recording, duration_item: Some(i), channel_item: state.channel_item },
            MenuAction::SetDuration(spec_duration_seconds(i as int)),
        ),
        i >= DURATION_ITEMS ==> spec_menu_step(state, MenuEvent::DurationClicked(i)) == (
            state,
            MenuAction::Nothing,
        ),
{
}

/// The start/stop item toggles: stopping a running recording shows it
/// stopped, and asking to start changes nothing until the start succeeded;
/// a successful start shows it running. Quitting stops exactly a running
/// recording.
pub proof fn lemma_toggle(state: MenuState)
    ensures
        state.recording ==> spec_menu_step(state, MenuEvent::ToggleClicked) == (
            MenuState { recording: false, ..state },
            MenuAction::StopRecording,
        ),
        !state.recording ==> spec_menu_step(state, MenuEvent::ToggleClicked) == (
            state,
            MenuAction::StartRecording,
        ),
        spec_menu_step(state, MenuEvent::StartSucceeded).0 == (MenuState { recording: true, ..state }),
        spec_menu_step(state, MenuEvent::QuitClicked).1 == (MenuAction::Quit {
            stop_recording: state.recording,
        }),
{
}

} // verus!
