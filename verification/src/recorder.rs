//! The recording driver: a configuration and the audio processor it starts.
//!
//! The processor is whatever implements [`AudioProcessor`]: the real one
//! captures from an input device and writes WAV files; a test double can
//! record what it was asked to do.

use vstd::prelude::*;

use crate::channels::{
    parse_channel_string, spec_channel_error_message, spec_channel_list_valid, spec_channel_set,
    strictly_increasing,
};
use crate::config::{opt_chars, AppConfig};
use crate::constants::{spec_mode_text, OutputMode, DEFAULT_CHANNELS, DEFAULT_DEBUG, MAX_CHANNELS};
use crate::error::BlackboxError;
use crate::text::{push_decimal, push_str, spec_decimal};

verus! {

/// An audio pipeline the recorder drives.
pub trait AudioProcessor {
    /// Whether this processor keeps a record of what it was started with.
    /// Only a verified implementation can say so; any other keeps none.
    open spec fn spec_records_starts(&self) -> bool {
        false
    }

    /// What the processor was last started with: channels, output mode and
    /// debug flag (meaningful when it keeps that record).
    open spec fn spec_started_with(&self) -> Option<(Seq<usize>, OutputMode, bool)> {
        None
    }

    /// Build the pipeline for `channels` in `output_mode` and start
    /// capturing into output files. A processor that keeps a record of its
    /// starts records these arguments when it succeeds.
    fn process_audio(
        &mut self,
        channels: &[usize],
        output_mode: OutputMode,
        debug: bool,
        config: &AppConfig,
    ) -> (r: Result<(), BlackboxError>)
        ensures
            old(self).spec_records_starts() && r is Ok ==> final(self).spec_started_with() == Some(
                (channels@, output_mode, debug),
            ),
    ;

    /// Stop capturing, finish the output files and tear the pipeline down.
    fn finalize(&mut self) -> Result<(), BlackboxError>;

    /// Start capturing with `config`.
    fn start_recording(&mut self, config: &AppConfig) -> Result<(), BlackboxError>;

    /// Stop capturing.
    fn stop_recording(&mut self) -> Result<(), BlackboxError>;

    /// Whether the pipeline is capturing.
    fn is_recording(&self) -> bool;

    /// Samples lost to write errors or ring-buffer overflow.
    fn write_error_count(&self) -> (r: u64)
        default_ensures
            r == 0,
    {
        0
    }

    /// Whether writing to disk kept failing and recording stopped.
    fn write_failed(&self) -> (r: bool)
        default_ensures
            !r,
    {
        false
    }

    /// Whether free disk space fell below the configured minimum.
    fn disk_space_low(&self) -> (r: bool)
        default_ensures
            !r,
    {
        false
    }

    /// Whether the audio stream reported an error.
    fn stream_error(&self) -> (r: bool)
        default_ensures
            !r,
    {
        false
    }

    /// Whether the device's sample rate changed since recording started.
    fn sample_rate_changed(&self) -> (r: bool)
        default_ensures
            !r,
    {
        false
    }

    /// The sample rate of the active stream; 0 when unknown.
    fn sample_rate(&self) -> (r: u32)
        default_ensures
            r == 0,
    {
        0
    }

    /// Start metering input levels without recording.
    fn start_monitoring(&mut self, config: &AppConfig) -> (r: Result<(), BlackboxError>)
        default_ensures
            r is Ok,
    {
        Ok(())
    }

    /// Stop metering input levels.
    fn stop_monitoring(&mut self) -> (r: Result<(), BlackboxError>)
        default_ensures
            r is Ok,
    {
        Ok(())
    }

    /// Whether input levels are being metered.
    fn is_monitoring(&self) -> (r: bool)
        default_ensures
            !r,
    {
        false
    }

    /// Whether the silence gate has closed its files and waits for signal.
    fn gate_idle(&self) -> (r: bool)
        default_ensures
            !r,
    {
        false
    }
}

/// The numbers of `s` separated by `, `.
pub open spec fn spec_number_items(s: Seq<usize>) -> Seq<char>
    decreases s.len(),
{
    if s.len() == 0 {
        seq![]
    } else if s.len() == 1 {
        spec_decimal(s[0] as nat)
    } else {
        spec_number_items(s.drop_last()) + ", "@ + spec_decimal(s.last() as nat)
    }
}

/// A channel list as it is shown: `[0, 2, 3]`.
pub open spec fn spec_channels_text(s: Seq<usize>) -> Seq<char> {
    "["@ + spec_number_items(s) + "]"@
}

/// The text of a channel list, such as `[0, 2, 3]`.
pub fn channels_text(channels: &Vec<usize>) -> (r: String)
    ensures
        r@ == spec_channels_text(channels@),
{
    let mut s = String::new();
    push_str(&mut s, "[");
    let mut i: usize = 0;
    while i < channels.len()
        invariant
            i <= channels.len(),
            s@ == "["@ + spec_number_items(channels@.subrange(0, i as int)),
        decreases channels.len() - i,
    {
        let ghost before = s@;
        if i > 0 {
            push_str(&mut s, ", ");
        }
        push_decimal(&mut s, channels[i] as u64);
        let ghost next = channels@.subrange(0, i + 1);
        assert(next.drop_last() =~= channels@.subrange(0, i as int));
        i = i + 1;
        assert(s@ =~= "["@ + spec_number_items(next));
    }
    assert(channels@.subrange(0, channels.len() as int) =~= channels@);
    push_str(&mut s, "]");
    s
}

/// The channel list a configuration records.
pub open spec fn spec_configured_channels(c: AppConfig) -> Seq<char> {
    match opt_chars(c.audio_channels) {
        Some(s) => s,
        None => DEFAULT_CHANNELS@,
    }
}

/// Whether a configuration's channel list parses (see
/// [`parse_channel_string`]).
pub open spec fn spec_channels_accepted(c: AppConfig) -> bool {
    spec_channel_list_valid(spec_configured_channels(c)) && spec_channel_set(
        spec_configured_channels(c),
    ).len() <= MAX_CHANNELS
}

/// The output mode a configuration records in: `Split` only for the
/// setting `"split"`.
pub open spec fn spec_configured_mode(c: AppConfig) -> OutputMode {
    match opt_chars(c.output_mode) {
        Some(s) => if s == spec_mode_text(OutputMode::Split) {
            OutputMode::Split
        } else {
            OutputMode::Single
        },
        None => OutputMode::Single,
    }
}

/// Whether a configuration asks for debug output.
pub open spec fn spec_configured_debug(c: AppConfig) -> bool {
    match c.debug {
        Some(v) => v,
        None => DEFAULT_DEBUG,
    }
}

/// What starting a recording hands to the processor.
#[derive(Debug)]
pub struct RecordingRequest {
    /// The channels to record, sorted, without repeats.
    pub channels: Vec<usize>,
    pub output_mode: OutputMode,
    pub debug: bool,
}

/// What a configuration asks the processor to record: its channel list
/// parsed, its output mode and its debug flag; the channel list's error
/// when it does not parse.
pub fn recording_request(config: &AppConfig) -> (r: Result<RecordingRequest, BlackboxError>)
    ensures
        r is Ok <==> spec_channels_accepted(*config),
        r matches Ok(req) ==> strictly_increasing(req.channels@) && req.channels@.to_set()
            == spec_channel_set(spec_configured_channels(*config)) && req.output_mode
            == spec_configured_mode(*config) && req.debug == spec_configured_debug(*config),
        r matches Err(e) ==> (e matches BlackboxError::ChannelParse(m) && m@
            == spec_channel_error_message(spec_configured_channels(*config))),
{
    let requested = config.get_audio_channels();
    match parse_channel_string(requested.as_str()) {
        Ok(channels) => Ok(
            RecordingRequest {
                channels,
                output_mode: config.output_mode_parsed(),
                debug: config.get_debug(),
            },
        ),
        Err(e) => Err(e),
    }
}

/// Coordinates one recording: the configuration it runs with and the
/// processor that captures and writes.
pub struct AudioRecorder<P: AudioProcessor> {
    processor: P,
    config: AppConfig,
}

impl<P: AudioProcessor> AudioRecorder<P> {
    /// The processor the recorder drives.
    pub closed spec fn spec_processor(&self) -> P {
        self.processor
    }

    /// The configuration the recorder runs with.
    pub closed spec fn spec_config(&self) -> AppConfig {
        self.config
    }

    /// A recorder for `processor` running with `config`.
    pub fn with_config(processor: P, config: AppConfig) -> (r: Self)
        ensures
            r.spec_processor() == processor,
            r.spec_config() == config,
    {
        AudioRecorder { processor, config }
    }

    /// The processor.
    pub fn get_processor(&self) -> (r: &P)
        ensures
            *r == self.spec_processor(),
    {
        &self.processor
    }

    /// The processor, to change; the configuration stays as it is.
    pub fn processor_mut(&mut self) -> (r: &mut P)
        ensures
            *r == old(self).spec_processor(),
            final(self).spec_processor() == *final(r),
            final(self).spec_config() == old(self).spec_config(),
    {
        &mut self.processor
    }

    /// The configuration.
    pub fn config(&self) -> (r: &AppConfig)
        ensures
            *r == self.spec_config(),
    {
        &self.config
    }

    /// Start recording as the configuration says: hand the
    /// [`recording_request`] of its configuration (parsed channels, output
    /// mode, debug flag) and the configuration itself to the processor. Fails with [`BlackboxError::ChannelParse`] when the
    /// channel list is invalid (the processor is then not started), and
    /// otherwise with the processor's error. On success, says which channels
    /// are recorded.
    pub fn start_recording(&mut self) -> (r: Result<String, BlackboxError>)
        ensures
            final(self).spec_config() == old(self).spec_config(),
            !spec_channels_accepted(old(self).spec_config()) ==> (r matches Err(
                BlackboxError::ChannelParse(m),
            ) && m@ == spec_channel_error_message(spec_configured_channels(old(self).spec_config()))),
            !spec_channels_accepted(old(self).spec_config()) ==> final(self).spec_processor()
                == old(self).spec_processor(),
            old(self).spec_processor().spec_records_starts() && r is Ok ==> ({
                let c = old(self).spec_config();
                &&& final(self).spec_processor().spec_started_with() matches Some((ch, mode, debug))
                &&& strictly_increasing(ch)
                &&& ch.to_set() == spec_channel_set(spec_configured_channels(c))
                &&& mode == spec_configured_mode(c)
                &&& debug == spec_configured_debug(c)
            }),
            r matches Ok(msg) ==> exists|ch: Seq<usize>|
                strictly_increasing(ch) && ch.to_set() == spec_channel_set(
                    spec_configured_channels(old(self).spec_config()),
                ) && msg@ == "Recording started with channels "@ + #[trigger] spec_channels_text(
                    ch,
                ),
    {
        let request = match recording_request(&self.config) {
            Ok(req) => req,
            Err(e) => return Err(e),
        };
        match self.processor.process_audio(
            request.channels.as_slice(),
            request.output_mode,
            request.debug,
            &self.config,
        ) {
            Ok(()) => {},
            Err(e) => return Err(e),
        }
        let mut msg = String::new();
        push_str(&mut msg, "Recording started with channels ");
        let listed = channels_text(&request.channels);
        push_str(&mut msg, listed.as_str());
        assert(msg@ == "Recording started with channels "@ + spec_channels_text(request.channels@));
        Ok(msg)
    }

    /// Start metering input levels with the recorder's configuration.
    pub fn start_monitoring(&mut self) -> (r: Result<(), BlackboxError>)
        ensures
            final(self).spec_config() == old(self).spec_config(),
    {
        self.processor.start_monitoring(&self.config)
    }
}

/// A processor that captures nothing and writes nothing: it records what it
/// was asked to do, for driving the recorder without an audio device.
#[derive(Debug)]
pub struct MockAudioProcessor {
    /// The channels of the last start.
    pub channels: Vec<usize>,
    /// The output mode of the last start.
    pub output_mode: OutputMode,
    /// The debug flag of the last start.
    pub debug: bool,
    /// Set by a start; cleared again by `stop_recording`.
    pub audio_processed: bool,
    /// Set once `finalize` has been called.
    pub finalized: bool,
    /// When set, `finalize` fails.
    pub should_fail_finalize: bool,
}

impl MockAudioProcessor {
    /// A mock that has not been started, with every flag off.
    pub fn new() -> (r: MockAudioProcessor)
        ensures
            r.channels@ == Seq::<usize>::empty(),
            r.output_mode == OutputMode::Single,
            !r.debug && !r.audio_processed && !r.finalized && !r.should_fail_finalize,
    {
        MockAudioProcessor {
            channels: Vec::new(),
            output_mode: OutputMode::Single,
            debug: false,
            audio_processed: false,
            finalized: false,
            should_fail_finalize: false,
        }
    }
}

impl AudioProcessor for MockAudioProcessor {
    open spec fn spec_records_starts(&self) -> bool {
        true
    }

    open spec fn spec_started_with(&self) -> Option<(Seq<usize>, OutputMode, bool)> {
        if self.audio_processed {
            Some((self.channels@, self.output_mode, self.debug))
        } else {
            None
        }
    }

    fn process_audio(
        &mut self,
        channels: &[usize],
        output_mode: OutputMode,
        debug: bool,
        config: &AppConfig,
    ) -> (r: Result<(), BlackboxError>)
        ensures
            r is Ok,
            final(self).channels@ == channels@,
            final(self).output_mode == output_mode,
            final(self).debug == debug,
            final(self).audio_processed,
            final(self).finalized == old(self).finalized,
            final(self).should_fail_finalize == old(self).should_fail_finalize,
    {
        let mut kept: Vec<usize> = Vec::new();
        let mut i: usize = 0;
        while i < channels.len()
            invariant
                i <= channels@.len(),
                kept@ == channels@.subrange(0, i as int),
            decreases channels@.len() - i,
        {
            kept.push(channels[i]);
            i = i + 1;
            assert(kept@ =~= channels@.subrange(0, i as int));
        }
        assert(kept@ =~= channels@);
        self.channels = kept;
        self.output_mode = output_mode;
        self.debug = debug;
        self.audio_processed = true;
        Ok(())
    }

    fn finalize(&mut self) -> (r: Result<(), BlackboxError>)
        ensures
            r is Err <==> old(self).should_fail_finalize,
            r matches Err(e) ==> e is Wav,
            final(self).finalized,
            final(self).channels@ == old(self).channels@,
            final(self).output_mode == old(self).output_mode,
            final(self).debug == old(self).debug,
            final(self).audio_processed == old(self).audio_processed,
            final(self).should_fail_finalize == old(self).should_fail_finalize,
    {
        self.finalized = true;
        if self.should_fail_finalize {
            return Err(BlackboxError::Wav(String::from_str("Simulated finalize failure")));
        }
        Ok(())
    }

    fn start_recording(&mut self, config: &AppConfig) -> (r: Result<(), BlackboxError>)
        ensures
            r is Ok,
            final(self).audio_processed,
            final(self).channels@ == old(self).channels@,
            final(self).output_mode == old(self).output_mode,
            final(self).debug == old(self).debug,
            final(self).finalized == old(self).finalized,
            final(self).should_fail_finalize == old(self).should_fail_finalize,
    {
        let channels = self.channels.clone();
        let output_mode = self.output_mode;
        let debug = self.debug;
        self.process_audio(channels.as_slice(), output_mode, debug, config)
    }

    fn stop_recording(&mut self) -> (r: Result<(), BlackboxError>)
        ensures
            r is Ok,
            !final(self).audio_processed,
            final(self).channels@ == old(self).channels@,
            final(self).output_mode == old(self).output_mode,
            final(self).debug == old(self).debug,
            final(self).finalized == old(self).finalized,
            final(self).should_fail_finalize == old(self).should_fail_finalize,
    {
        self.audio_processed = false;
        Ok(())
    }

    fn is_recording(&self) -> (r: bool)
        ensures
            r == (self.audio_processed && !self.finalized),
    {
        self.audio_processed && !self.finalized
    }
}

} // verus!
