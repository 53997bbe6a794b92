use blackbox::recovery::{
    final_name_for, numbered_name, recovery_plan, RecoveryPlan, HEADER_PROBE_LEN,
};
use blackbox::wav::{
    channel_mask, create_header, header_sizes, parse_wav_layout, recovered_sizes,
    salvaged_data_len, WavLayout, WavSpec, EXTENSIBLE_HEADER_LEN, MAX_WAV_DATA_BYTES,
    PCM_HEADER_LEN,
};
use blackbox::writer::{encode_frame, push_sample, WavWriterState, ZERO_CHUNK_LEN};

const SUBTYPE_PCM: [u8; 16] = [
    0x01, 0x00, 0x00, 0x00, 0x00, 0x00, 0x10, 0x00, 0x80, 0x00, 0x00, 0xAA, 0x00, 0x38, 0x9B, 0x71,
];

fn u16_at(b: &[u8], at: usize) -> u16 {
    u16::from_le_bytes(b[at..at + 2].try_into().unwrap())
}

fn u32_at(b: &[u8], at: usize) -> u32 {
    u32::from_le_bytes(b[at..at + 4].try_into().unwrap())
}

/// An in-memory file being written the way the recorder writes one: the
/// header, then encoded frames, with the size fields patched on flush and
/// finalize.
struct MemFile {
    state: WavWriterState,
    bytes: Vec<u8>,
}

impl MemFile {
    fn create(spec: WavSpec) -> Self {
        let (state, header) = WavWriterState::create(spec).expect("supported spec");
        Self {
            state,
            bytes: header,
        }
    }

    fn write_sample(&mut self, sample: i32) {
        let mut encoded = Vec::new();
        push_sample(&mut encoded, sample, self.state.byte_width());
        self.bytes.extend_from_slice(&encoded);
        self.state.record_written(encoded.len());
    }

    fn patch_sizes(&mut self, riff: u32, data: u32) {
        self.bytes[4..8].copy_from_slice(&riff.to_le_bytes());
        let at = usize::try_from(self.state.header_len()).unwrap() - 4;
        self.bytes[at..at + 4].copy_from_slice(&data.to_le_bytes());
    }

    fn flush(&mut self) {
        let (riff, data) = self.state.flush_sizes();
        self.patch_sizes(riff, data);
    }

    fn finalize(mut self) -> Vec<u8> {
        let (pad, riff, data) = self.state.finalize_plan();
        if pad {
            self.bytes.push(0);
        }
        self.patch_sizes(riff, data);
        self.bytes
    }
}

fn read_size_fields(bytes: &[u8]) -> (u32, u32) {
    let riff_size = u32_at(bytes, 4);
    let at = usize::try_from(parse_wav_layout(bytes).unwrap().data_size_offset).unwrap();
    (riff_size, u32_at(bytes, at))
}

fn read_back(bytes: &[u8]) -> hound::WavReader<std::io::Cursor<Vec<u8>>> {
    hound::WavReader::new(std::io::Cursor::new(bytes.to_vec())).unwrap()
}

#[test]
fn create_rejects_unsupported_bit_depths() {
    for bits in [0_u16, 4, 12, 20, 40] {
        let spec = WavSpec {
            channels: 1,
            sample_rate: 48_000,
            bits_per_sample: bits,
        };
        assert!(
            WavWriterState::create(spec).is_none(),
            "{bits}-bit spec should be rejected"
        );
        assert!(create_header(spec).is_none(), "{bits}-bit spec");
    }
}

#[test]
fn test_header_byte_rate_normal_spec() {
    let spec = WavSpec {
        channels: 2,
        sample_rate: 44100,
        bits_per_sample: 16,
    };
    let (header, _) = create_header(spec).unwrap();
    assert_eq!(u32_at(&header, 28), 44100 * 2 * 2);
    assert_eq!(u16_at(&header, 32), 2 * 2);
}

#[test]
fn test_header_byte_rate_extreme_spec_does_not_wrap() {
    let spec = WavSpec {
        channels: 255,
        sample_rate: 384_000,
        bits_per_sample: 32,
    };
    let (header, _) = create_header(spec).unwrap();
    assert_eq!(u32_at(&header, 28), 384_000_u32 * 255 * 4);
    assert_eq!(u16_at(&header, 32), 255 * 4);
}

#[test]
fn header_byte_rate_saturates() {
    let spec = WavSpec {
        channels: 65_535,
        sample_rate: u32::MAX,
        bits_per_sample: 32,
    };
    let (header, bw) = create_header(spec).unwrap();
    assert_eq!(bw, 4);
    assert_eq!(u32_at(&header, 28), u32::MAX);
    assert_eq!(u16_at(&header, 32), u16::MAX);
}

#[test]
fn format_tag_follows_depth_and_channel_count() {
    let header = |channels: u16, bits: u16| -> Vec<u8> {
        let spec = WavSpec {
            channels,
            sample_rate: 48_000,
            bits_per_sample: bits,
        };
        create_header(spec).unwrap().0
    };

    let pcm = header(2, 16);
    assert_eq!(pcm.len(), 44);
    assert_eq!(u32_at(&pcm, 16), 16, "fmt chunk size");
    assert_eq!(u16_at(&pcm, 20), 1, "WAVE_FORMAT_PCM");
    assert_eq!(&pcm[36..40], b"data");

    for (name, channels, bits, mask) in [
        ("mono24.wav", 1_u16, 24_u16, 0x4_u32),
        ("stereo32.wav", 2, 32, 0x3),
        ("quad16.wav", 4, 16, 0),
    ] {
        let ext = header(channels, bits);
        assert_eq!(ext.len(), 68, "{name}: header length");
        assert_eq!(u32_at(&ext, 16), 40, "{name}: fmt chunk size");
        assert_eq!(u16_at(&ext, 20), 0xFFFE, "{name}: WAVE_FORMAT_EXTENSIBLE");
        assert_eq!(u16_at(&ext, 22), channels, "{name}: channels");
        let block_align = channels * bits / 8;
        assert_eq!(u16_at(&ext, 32), block_align, "{name}: block align");
        assert_eq!(u16_at(&ext, 34), bits, "{name}: container bits");
        assert_eq!(u16_at(&ext, 36), 22, "{name}: cbSize");
        assert_eq!(u16_at(&ext, 38), bits, "{name}: valid bits");
        assert_eq!(u32_at(&ext, 40), mask, "{name}: channel mask");
        assert_eq!(ext[44..60], SUBTYPE_PCM, "{name}: PCM subformat GUID");
        assert_eq!(&ext[60..64], b"data", "{name}: data chunk");
    }
    assert_eq!(channel_mask(1), 0x4);
    assert_eq!(channel_mask(2), 0x3);
    assert_eq!(channel_mask(3), 0);
}

#[test]
fn extensible_file_reads_back() {
    let spec = WavSpec {
        channels: 4,
        sample_rate: 96_000,
        bits_per_sample: 24,
    };
    let mut w = MemFile::create(spec);
    for i in 0..400 {
        w.write_sample(i * 1_000 - 200_000);
    }
    w.flush();
    assert_eq!(read_size_fields(&w.bytes), (60 + 1_200, 1_200), "flush");
    let bytes = w.finalize();
    assert_eq!(read_size_fields(&bytes), (60 + 1_200, 1_200), "finalize");

    let reader = read_back(&bytes);
    assert_eq!(reader.spec().channels, 4);
    assert_eq!(reader.spec().sample_rate, 96_000);
    assert_eq!(reader.spec().bits_per_sample, 24);
    let samples: Vec<i32> = reader.into_samples::<i32>().map(Result::unwrap).collect();
    assert_eq!(samples.len(), 400);
    assert_eq!(samples[399], 399 * 1_000 - 200_000);
}

#[test]
fn test_header_sizes_after_writes() {
    let spec = WavSpec {
        channels: 1,
        sample_rate: 48_000,
        bits_per_sample: 16,
    };
    let mut w = MemFile::create(spec);
    let n = 100_u32;
    for i in 0..n {
        w.write_sample(i32::try_from(i).unwrap());
    }
    let bytes = w.finalize();

    let (riff_size, data_size) = read_size_fields(&bytes);
    let byte_width = 2;
    assert_eq!(data_size, n * byte_width, "data chunk size");
    assert_eq!(riff_size, n * byte_width + 36, "RIFF size = data + 36");
}

#[test]
fn test_header_caps_at_4gib_instead_of_wrapping() {
    let spec = WavSpec {
        channels: 1,
        sample_rate: 48_000,
        bits_per_sample: 24,
    };
    let (mut state, _) = WavWriterState::create(spec).unwrap();
    state.record_written(usize::try_from(u64::from(u32::MAX) + 100).unwrap());
    let (_, riff_size, data_size) = state.finalize_plan();
    assert_eq!(data_size, u32::MAX, "data size must cap at u32::MAX, not wrap");
    assert_eq!(
        riff_size,
        u32::MAX,
        "RIFF size must saturate at u32::MAX, not wrap to a tiny value"
    );
}

#[test]
fn test_odd_length_data_chunk_gets_word_align_pad() {
    let spec = WavSpec {
        channels: 1,
        sample_rate: 48_000,
        bits_per_sample: 24,
    };
    let mut w = MemFile::create(spec);
    for i in 0..5 {
        w.write_sample(i * 1000);
    }
    let bytes = w.finalize();
    assert_eq!(bytes.len() % 2, 0, "file must end on an even (word) boundary");
    assert_eq!(bytes.len(), 68 + 15 + 1, "68 header + 15 data + 1 pad");

    let (riff_size, data_size) = read_size_fields(&bytes);
    assert_eq!(data_size, 15, "data-chunk size is unpadded");
    assert_eq!(riff_size, 15 + 61, "RIFF size counts the pad byte");
}

#[test]
fn test_even_length_data_chunk_has_no_pad() {
    let spec = WavSpec {
        channels: 1,
        sample_rate: 48_000,
        bits_per_sample: 16,
    };
    let mut w = MemFile::create(spec);
    for i in 0_i16..5 {
        w.write_sample(i32::from(i));
    }
    let bytes = w.finalize();
    assert_eq!(bytes.len(), 44 + 10, "no pad byte after an even data chunk");
    let (riff_size, data_size) = read_size_fields(&bytes);
    assert_eq!(data_size, 10);
    assert_eq!(riff_size, 10 + 36);
}

#[test]
fn salvaged_length_is_whole_frames_on_disk() {
    assert_eq!(salvaged_data_len(20, 60, 6), 18);
    assert_eq!(salvaged_data_len(100, 60, 6), 60);
    assert_eq!(salvaged_data_len(0, 60, 6), 0);
}

#[test]
fn salvage_header_covers_audio_on_disk() {
    let spec = WavSpec {
        channels: 2,
        sample_rate: 48_000,
        bits_per_sample: 16,
    };
    let mut w = MemFile::create(spec);
    for i in 0..10 {
        w.write_sample(i);
    }
    // The ten samples reached the file; one more frame stays buffered.
    let on_disk = w.bytes.clone();
    w.write_sample(1);
    w.write_sample(2);
    assert_eq!(read_size_fields(&on_disk), (0, 0), "placeholder header");

    let (riff, data) = w.state.salvage_sizes(on_disk.len() as u64);
    let mut salvaged = on_disk;
    salvaged[4..8].copy_from_slice(&riff.to_le_bytes());
    salvaged[40..44].copy_from_slice(&data.to_le_bytes());

    let (riff_size, data_size) = read_size_fields(&salvaged);
    assert_eq!(data_size, 20, "the 5 frames on disk, not the buffered one");
    assert_eq!(riff_size, 20 + 36);
    let reader = read_back(&salvaged);
    assert_eq!(reader.len(), 10);
}

#[test]
fn header_sizes_count_the_preamble_and_pad() {
    assert_eq!(header_sizes(10, false, PCM_HEADER_LEN), (46, 10));
    assert_eq!(header_sizes(15, true, EXTENSIBLE_HEADER_LEN), (76, 15));
    assert_eq!(
        header_sizes(u64::from(u32::MAX) - 10, false, EXTENSIBLE_HEADER_LEN),
        (u32::MAX, u32::MAX - 10)
    );
    assert!(MAX_WAV_DATA_BYTES + 60 + 1 < u64::from(u32::MAX));
}

// ---------------------------------------------------------------------------
// Writing in step (split mode)
// ---------------------------------------------------------------------------

#[test]
fn owed_frames_are_paid_as_silence() {
    let spec = WavSpec {
        channels: 1,
        sample_rate: 48_000,
        bits_per_sample: 24,
    };
    let (mut state, _) = WavWriterState::create(spec).unwrap();
    assert_eq!(state.next_zero_chunk(), None);
    for _ in 0..500 {
        state.record_frame_failed();
    }
    assert_eq!(state.owed_frames(), 500);
    // 1020 zero bytes pay 340 three-byte frames, then the rest.
    assert_eq!(state.next_zero_chunk(), Some(ZERO_CHUNK_LEN));
    state.record_zero_chunk_written();
    assert_eq!(state.owed_frames(), 160);
    assert_eq!(state.data_bytes(), 1020);
    assert_eq!(state.next_zero_chunk(), Some(480));
    state.record_zero_chunk_written();
    assert_eq!(state.owed_frames(), 0);
    assert_eq!(state.data_bytes(), 1500);
    assert_eq!(state.next_zero_chunk(), None);
}

#[test]
fn sample_bytes_are_low_little_endian_bytes() {
    let mut frame = Vec::new();
    push_sample(&mut frame, 0x0012_3456, 3);
    push_sample(&mut frame, -2, 2);
    push_sample(&mut frame, 0x0102_0304, 4);
    push_sample(&mut frame, 0x7f, 1);
    assert_eq!(
        frame,
        vec![0x56, 0x34, 0x12, 0xfe, 0xff, 0x04, 0x03, 0x02, 0x01, 0x7f]
    );
}

// ---------------------------------------------------------------------------
// Reading layouts back and recovering after a crash
// ---------------------------------------------------------------------------

#[test]
fn layout_of_written_headers() {
    for (channels, bits, header_len, block_align) in
        [(2_u16, 16_u16, 44_u64, 4_u16), (4, 24, 68, 12)]
    {
        let spec = WavSpec {
            channels,
            sample_rate: 44_100,
            bits_per_sample: bits,
        };
        let (header, _) = create_header(spec).unwrap();
        assert_eq!(
            parse_wav_layout(&header),
            Some(WavLayout {
                block_align,
                data_size_offset: header_len - 4,
                data_offset: header_len,
            })
        );
    }
    assert_eq!(parse_wav_layout(b"RIFX\0\0\0\0WAVE"), None);
    assert_eq!(parse_wav_layout(b"RIFF\0\0\0\0WAVEdata\0\0\0\0"), None, "no fmt chunk");
}

#[test]
fn layout_skips_foreign_chunks_with_pad() {
    let spec = WavSpec {
        channels: 1,
        sample_rate: 8_000,
        bits_per_sample: 16,
    };
    let (header, _) = create_header(spec).unwrap();
    // Insert a 3-byte LIST chunk (plus pad byte) before the data chunk.
    let mut bytes = header[..36].to_vec();
    bytes.extend_from_slice(b"LIST\x03\0\0\0abc\0");
    bytes.extend_from_slice(&header[36..]);
    let layout = parse_wav_layout(&bytes).unwrap();
    assert_eq!(layout.data_offset, 44 + 12);
    assert_eq!(layout.block_align, 2);
}

#[test]
fn recovered_sizes_round_down_to_frames() {
    let layout = WavLayout {
        block_align: 6,
        data_size_offset: 64,
        data_offset: 68,
    };
    assert_eq!(recovered_sizes(68 + 20, layout), (18, 60 + 18, 18));
    assert_eq!(recovered_sizes(60, layout), (0, 60, 0));
    let mono24 = WavLayout {
        block_align: 3,
        data_size_offset: 64,
        data_offset: 68,
    };
    assert_eq!(recovered_sizes(68 + 16, mono24), (15, 60 + 15 + 1, 15));
}

#[test]
fn recovery_repairs_a_crashed_file() {
    let spec = WavSpec {
        channels: 2,
        sample_rate: 48_000,
        bits_per_sample: 24,
    };
    let mut w = MemFile::create(spec);
    for i in 0..7 {
        w.write_sample(i);
    }
    // Crash: the header still holds the placeholders and the last frame is torn.
    let bytes = w.bytes.clone();
    assert_eq!(bytes.len(), 68 + 21);
    let head_len = bytes.len().min(usize::try_from(HEADER_PROBE_LEN).unwrap());
    let plan = recovery_plan(bytes.len() as u64, &bytes[..head_len]);
    assert_eq!(
        plan,
        RecoveryPlan::Repair {
            riff_size: 60 + 18,
            data_size: 18,
            data_size_offset: 64,
            cut_to: Some(68 + 18),
            pad: false,
        }
    );
}

#[test]
fn recovery_pads_an_odd_data_chunk() {
    let spec = WavSpec {
        channels: 1,
        sample_rate: 48_000,
        bits_per_sample: 24,
    };
    let mut w = MemFile::create(spec);
    for i in 0..5 {
        w.write_sample(i);
    }
    let mut bytes = w.bytes.clone();
    bytes.push(0x7f); // a torn sample
    let plan = recovery_plan(bytes.len() as u64, &bytes);
    assert_eq!(
        plan,
        RecoveryPlan::Repair {
            riff_size: 60 + 15 + 1,
            data_size: 15,
            data_size_offset: 64,
            cut_to: Some(68 + 15),
            pad: true,
        }
    );
}

#[test]
fn recovery_leaves_foreign_and_empty_files() {
    assert_eq!(recovery_plan(5, b"hello"), RecoveryPlan::NotWav);
    let spec = WavSpec {
        channels: 1,
        sample_rate: 48_000,
        bits_per_sample: 16,
    };
    let (header, _) = create_header(spec).unwrap();
    assert_eq!(recovery_plan(44 + 1, &header), RecoveryPlan::Empty);
}

#[test]
fn final_names_of_temporary_recordings() {
    assert_eq!(
        final_name_for("take_01.recording.wav"),
        Some("take_01.wav".to_owned())
    );
    assert_eq!(final_name_for(".recording.wav"), None);
    assert_eq!(final_name_for("take_01.wav"), None);
    assert_eq!(final_name_for("a.recording.wav.bak"), None);
}

#[test]
fn recovered_files_never_replace_existing_ones() {
    assert_eq!(numbered_name("rec/take.wav", 0), "rec/take.wav");
    assert_eq!(numbered_name("rec/take.wav", 1), "rec/take-1.wav");
    assert_eq!(numbered_name("rec/take.wav", 12), "rec/take-12.wav");
    assert_eq!(numbered_name("notes", 2), "notes-2");
}

#[test]
fn frames_pick_the_recorded_channels() {
    let samples = [10, 20, 30, 40, 50, 60, 70, 80];
    // Second device frame of a 4-channel stream, channels 3 and 1, 16-bit.
    assert_eq!(
        encode_frame(&samples, 4, &vec![3, 1], 2),
        vec![80, 0, 60, 0]
    );
    assert_eq!(encode_frame(&samples, 0, &vec![], 3), Vec::<u8>::new());
}
