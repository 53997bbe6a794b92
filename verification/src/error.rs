//! Typed errors of the recording engine and their C-interface codes.
//!
//! Variants that wrap an underlying error (`AudioDeviceSource`,
//! `WavSource`, `Io`) carry that error's message here; the application
//! layer keeps the error object itself for `source()` chains.

use vstd::prelude::*;

use crate::text::{push_decimal, push_str, spec_decimal};

verus! {

/// Error of the blackbox audio recorder.
#[derive(Debug, PartialEq, Eq)]
pub enum BlackboxError {
    /// Audio-device-layer error with no underlying error to wrap.
    AudioDevice(String),
    /// Audio-device-layer error wrapping an underlying error, whose message
    /// is `source`.
    AudioDeviceSource { context: String, source: String },
    /// Filesystem-layer error (WAV-file I/O, directory creation, disk-space
    /// queries), with the underlying error's message.
    Io(String),
    /// Channel-spec parse failure; the string describes the offending input.
    ChannelParse(String),
    /// WAV-layer error with no underlying error to wrap.
    Wav(String),
    /// WAV-layer error wrapping an underlying error, whose message is `source`.
    WavSource { context: String, source: String },
    /// Free disk space fell below the configured minimum.
    InsufficientDiskSpace { available_mb: u64, required_mb: u64 },
}

/// Success.
pub const BLACKBOX_OK: i32 = 0;
/// The handle is null or was destroyed.
pub const BLACKBOX_ERR_INVALID_HANDLE: i32 = -1;
/// The audio device failed.
pub const BLACKBOX_ERR_AUDIO_DEVICE: i32 = -2;
/// The configuration is invalid.
pub const BLACKBOX_ERR_CONFIG: i32 = -3;
/// A file operation failed.
pub const BLACKBOX_ERR_IO: i32 = -4;
/// An internal lock was poisoned by an earlier panic.
pub const BLACKBOX_ERR_LOCK_POISONED: i32 = -5;
/// Reserved; no operation returns it.
pub const BLACKBOX_ERR_INTERNAL: i32 = -6;
/// Free disk space is below the configured minimum.
pub const BLACKBOX_ERR_DISK_SPACE_LOW: i32 = -7;
/// A null or otherwise invalid argument other than the handle.
pub const BLACKBOX_ERR_INVALID_ARG: i32 = -8;

/// The C-interface code reported for `err`.
pub open spec fn spec_error_code(err: BlackboxError) -> i32 {
    match err {
        BlackboxError::AudioDevice(_) => BLACKBOX_ERR_AUDIO_DEVICE,
        BlackboxError::AudioDeviceSource { .. } => BLACKBOX_ERR_AUDIO_DEVICE,
        BlackboxError::ChannelParse(_) => BLACKBOX_ERR_CONFIG,
        BlackboxError::Io(_) => BLACKBOX_ERR_IO,
        BlackboxError::Wav(_) => BLACKBOX_ERR_IO,
        BlackboxError::WavSource { .. } => BLACKBOX_ERR_IO,
        BlackboxError::InsufficientDiskSpace { .. } => BLACKBOX_ERR_DISK_SPACE_LOW,
    }
}

/// The C-interface code reported for `err`: device errors, configuration
/// (channel list) errors, file and WAV errors, and low disk space each map
/// to their own negative code.
pub fn error_code(err: &BlackboxError) -> (r: i32)
    ensures
        r == spec_error_code(*err),
        r < 0,
{
    match err {
        BlackboxError::AudioDevice(_) => BLACKBOX_ERR_AUDIO_DEVICE,
        BlackboxError::AudioDeviceSource { .. } => BLACKBOX_ERR_AUDIO_DEVICE,
        BlackboxError::ChannelParse(_) => BLACKBOX_ERR_CONFIG,
        BlackboxError::Io(_) => BLACKBOX_ERR_IO,
        BlackboxError::Wav(_) => BLACKBOX_ERR_IO,
        BlackboxError::WavSource { .. } => BLACKBOX_ERR_IO,
        BlackboxError::InsufficientDiskSpace { .. } => BLACKBOX_ERR_DISK_SPACE_LOW,
    }
}

/// The text an error is shown with.
pub open spec fn spec_error_message(err: BlackboxError) -> Seq<char> {
    match err {
        BlackboxError::AudioDevice(m) => "Audio device error: "@ + m@,
        BlackboxError::AudioDeviceSource { context, .. } => "Audio device error: "@ + context@,
        BlackboxError::Io(m) => "I/O error: "@ + m@,
        BlackboxError::ChannelParse(m) => "Channel parse error: "@ + m@,
        BlackboxError::Wav(m) => "WAV error: "@ + m@,
        BlackboxError::WavSource { context, .. } => "WAV error: "@ + context@,
        BlackboxError::InsufficientDiskSpace { available_mb, required_mb } => "Insufficient disk space: "@
            + spec_decimal(available_mb as nat) + " MB available, "@ + spec_decimal(
            required_mb as nat,
        ) + " MB required"@,
    }
}

impl BlackboxError {
    /// The text the error is shown with (see [`spec_error_message`]). A
    /// wrapped error's own message is its source, not part of this text.
    pub fn message(&self) -> (r: String)
        ensures
            r@ == spec_error_message(*self),
    {
        let mut s = String::new();
        match self {
            BlackboxError::AudioDevice(m) => {
                push_str(&mut s, "Audio device error: ");
                push_str(&mut s, m.as_str());
            },
            BlackboxError::AudioDeviceSource { context, .. } => {
                push_str(&mut s, "Audio device error: ");
                push_str(&mut s, context.as_str());
            },
            BlackboxError::Io(m) => {
                push_str(&mut s, "I/O error: ");
                push_str(&mut s, m.as_str());
            },
            BlackboxError::ChannelParse(m) => {
                push_str(&mut s, "Channel parse error: ");
                push_str(&mut s, m.as_str());
            },
            BlackboxError::Wav(m) => {
                push_str(&mut s, "WAV error: ");
                push_str(&mut s, m.as_str());
            },
            BlackboxError::WavSource { context, .. } => {
                push_str(&mut s, "WAV error: ");
                push_str(&mut s, context.as_str());
            },
            BlackboxError::InsufficientDiskSpace { available_mb, required_mb } => {
                push_str(&mut s, "Insufficient disk space: ");
                push_decimal(&mut s, *available_mb);
                push_str(&mut s, " MB available, ");
                push_decimal(&mut s, *required_mb);
                push_str(&mut s, " MB required");
            },
        }
        assert(s@ =~= spec_error_message(*self));
        s
    }
}

} // verus!
