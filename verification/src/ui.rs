//! Types shared with the menu-bar user interface, and the elapsed-time
//! text it shows.

use vstd::prelude::*;

use crate::text::{push_decimal, push_two_digits, spec_decimal, spec_two_digits, string_push};

verus! {

/// An error from a Cocoa/AppKit operation.
#[derive(Debug)]
pub enum CocoaError {
    /// An AppKit constructor returned nil.
    NilInstance(()),
    /// An Objective-C exception was thrown.
    ExceptionThrown(()),
    /// A named resource (such as a system image) was not found.
    ResourceNotFound(()),
}

/// Messages from the menu-bar UI thread to the recorder thread.
#[derive(Debug)]
pub enum UiToAppMessage {
    StartRecording,
    StopRecording,
    UpdateOutputDir(String),
    Quit,
}

/// Messages from the recorder thread to the menu-bar UI thread.
#[derive(Debug)]
pub enum AppToUiMessage {
    RecordingStarted,
    RecordingStopped,
    StatusUpdate(String),
    TimeUpdate(String),
    UpdateOutputDir(String),
    Quit,
}

/// Whether GUI tests can run here. They never do: creating AppKit objects
/// outside the main thread of a GUI session crashes the test process.
pub fn can_run_gui_tests() -> (r: bool)
    ensures
        !r,
{
    false
}

/// The elapsed-time text for `seconds`: `h:mm:ss` from one hour on,
/// `m:ss` below.
pub open spec fn spec_format_duration(seconds: nat) -> Seq<char> {
    let hours = seconds / 3600;
    let minutes = (seconds % 3600) / 60;
    let secs = seconds % 60;
    if hours > 0 {
        spec_decimal(hours) + seq![':'] + spec_two_digits(minutes) + seq![':'] + spec_two_digits(
            secs,
        )
    } else {
        spec_decimal(minutes) + seq![':'] + spec_two_digits(secs)
    }
}

/// Format an elapsed time as `h:mm:ss`, or `m:ss` under an hour
/// (`65` is `1:05`, `3665` is `1:01:05`).
pub fn format_duration(seconds: u64) -> (r: String)
    ensures
        r@ == spec_format_duration(seconds as nat),
{
    let hours = seconds / 3600;
    let minutes = (seconds % 3600) / 60;
    let secs = seconds % 60;
    let mut out = String::new();
    if hours > 0 {
        push_decimal(&mut out, hours);
        string_push(&mut out, ':');
        push_two_digits(&mut out, minutes);
        string_push(&mut out, ':');
        push_two_digits(&mut out, secs);
    } else {
        push_decimal(&mut out, minutes);
        string_push(&mut out, ':');
        push_two_digits(&mut out, secs);
    }
    assert(out@ =~= spec_format_duration(seconds as nat));
    out
}

/// The elapsed-time text reads back as the time it shows: for every number
/// of seconds there are hours, minutes (below 60) and seconds (below 60)
/// that make up exactly that many seconds and that the text spells, hours
/// unbounded (`25:00:00` for 90 000 seconds), minutes alone under an hour.
pub proof fn lemma_format_duration_reads_back(seconds: nat)
    ensures
        exists|h: nat, m: nat, s: nat|
            #![trigger spec_decimal(h), spec_two_digits(m), spec_two_digits(s)]
            m < 60 && s < 60 && h * 3600 + m * 60 + s == seconds && spec_format_duration(seconds)
                == if h > 0 {
                spec_decimal(h) + seq![':'] + spec_two_digits(m) + seq![':'] + spec_two_digits(s)
            } else {
                spec_decimal(m) + seq![':'] + spec_two_digits(s)
            },
{
    let h = seconds / 3600;
    let m = (seconds % 3600) / 60;
    let s = seconds % 60;
    assert(h * 3600 + m * 60 + s == seconds) by (nonlinear_arith)
        requires
            h == seconds / 3600,
            m == (seconds % 3600) / 60,
            s == seconds % 60,
    ;
    assert(m < 60 && s < 60) by (nonlinear_arith)
        requires
            m == (seconds % 3600) / 60,
            s == seconds % 60,
    ;
    let _ = spec_decimal(h);
    let _ = spec_two_digits(m);
    let _ = spec_two_digits(s);
}

} // verus!
