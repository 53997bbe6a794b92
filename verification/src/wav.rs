//! The RIFF/WAVE layout this recorder writes and reads back.
//!
//! The header is a plain `WAVE_FORMAT_PCM` header (44 bytes) for 8/16-bit
//! audio with one or two channels, and a `WAVE_FORMAT_EXTENSIBLE` header
//! (68 bytes) otherwise. Sizes are written as placeholders at creation and
//! rewritten from the audio length when a file is flushed, finalized,
//! salvaged after a failed flush, or recovered after a crash.

use vstd::prelude::*;

verus! {

/// Header length for plain `WAVE_FORMAT_PCM` (16-byte `fmt ` chunk).
pub const PCM_HEADER_LEN: u64 = 44;

/// Header length for `WAVE_FORMAT_EXTENSIBLE` (40-byte `fmt ` chunk).
pub const EXTENSIBLE_HEADER_LEN: u64 = 68;

/// Audio bytes after which a new file is started, so that the `u32` RIFF
/// size field can hold the data, the header and a pad byte with a margin.
pub const MAX_WAV_DATA_BYTES: u64 = 4294967295 - 1048576;

/// `WAVE_FORMAT_EXTENSIBLE` format tag.
pub const FORMAT_EXTENSIBLE: u16 = 0xFFFE;

/// Format of the audio a file holds: the subset of a WAV `fmt ` chunk
/// that the recorder chooses.
#[derive(Debug, Clone, Copy, PartialEq, Eq, Structural)]
pub struct WavSpec {
    pub channels: u16,
    pub sample_rate: u32,
    pub bits_per_sample: u16,
}

// ---------------------------------------------------------------------------
// Byte-level model
// ---------------------------------------------------------------------------

/// Little-endian bytes of a `u16`.
pub open spec fn le16(v: u16) -> Seq<u8> {
    seq![(v & 0xff) as u8, ((v >> 8u16) & 0xff) as u8]
}

/// Little-endian bytes of a `u32`.
pub open spec fn le32(v: u32) -> Seq<u8> {
    seq![
        (v & 0xff) as u8,
        ((v >> 8u32) & 0xff) as u8,
        ((v >> 16u32) & 0xff) as u8,
        ((v >> 24u32) & 0xff) as u8,
    ]
}

/// The `u16` whose little-endian bytes are `b0, b1`.
pub open spec fn u16_from_le(b0: u8, b1: u8) -> u16 {
    (b0 as u16) | ((b1 as u16) << 8u16)
}

/// The `u32` whose little-endian bytes are `b0 .. b3`.
pub open spec fn u32_from_le(b0: u8, b1: u8, b2: u8, b3: u8) -> u32 {
    (b0 as u32) | ((b1 as u32) << 8u32) | ((b2 as u32) << 16u32) | ((b3 as u32) << 24u32)
}

/// The little-endian `u16` stored at `at` in `b`.
pub open spec fn u16_at(b: Seq<u8>, at: int) -> u16 {
    u16_from_le(b[at], b[at + 1])
}

/// The little-endian `u32` stored at `at` in `b`.
pub open spec fn u32_at(b: Seq<u8>, at: int) -> u32 {
    u32_from_le(b[at], b[at + 1], b[at + 2], b[at + 3])
}

/// Reading back the little-endian bytes of a `u16` gives the `u16`.
pub proof fn lemma_le16_roundtrip(v: u16)
    ensures
        u16_from_le(le16(v)[0], le16(v)[1]) == v,
{
    let b0 = (v & 0xff) as u8;
    let b1 = ((v >> 8u16) & 0xff) as u8;
    assert(((b0 as u16) | ((b1 as u16) << 8u16)) == v) by (bit_vector)
        requires
            b0 == (v & 0xff) as u8,
            b1 == ((v >> 8u16) & 0xff) as u8,
    ;
}

/// Reading back the little-endian bytes of a `u32` gives the `u32`.
pub proof fn lemma_le32_roundtrip(v: u32)
    ensures
        u32_from_le(le32(v)[0], le32(v)[1], le32(v)[2], le32(v)[3]) == v,
{
    let b0 = (v & 0xff) as u8;
    let b1 = ((v >> 8u32) & 0xff) as u8;
    let b2 = ((v >> 16u32) & 0xff) as u8;
    let b3 = ((v >> 24u32) & 0xff) as u8;
    assert(((b0 as u32) | ((b1 as u32) << 8u32) | ((b2 as u32) << 16u32) | ((b3 as u32)
        << 24u32)) == v) by (bit_vector)
        requires
            b0 == (v & 0xff) as u8,
            b1 == ((v >> 8u32) & 0xff) as u8,
            b2 == ((v >> 16u32) & 0xff) as u8,
            b3 == ((v >> 24u32) & 0xff) as u8,
    ;
}

/// `RIFF`
pub open spec fn riff_tag() -> Seq<u8> {
    seq![0x52u8, 0x49u8, 0x46u8, 0x46u8]
}

/// `WAVE`
pub open spec fn wave_tag() -> Seq<u8> {
    seq![0x57u8, 0x41u8, 0x56u8, 0x45u8]
}

/// `fmt `
pub open spec fn fmt_tag() -> Seq<u8> {
    seq![0x66u8, 0x6du8, 0x74u8, 0x20u8]
}

/// `data`
pub open spec fn data_tag() -> Seq<u8> {
    seq![0x64u8, 0x61u8, 0x74u8, 0x61u8]
}

/// `KSDATAFORMAT_SUBTYPE_PCM` (`00000001-0000-0010-8000-00AA00389B71`) as
/// stored on disk: the first three GUID fields little-endian.
pub open spec fn subtype_pcm() -> Seq<u8> {
    seq![
        0x01u8, 0x00u8, 0x00u8, 0x00u8, 0x00u8, 0x00u8, 0x10u8, 0x00u8,
        0x80u8, 0x00u8, 0x00u8, 0xAAu8, 0x00u8, 0x38u8, 0x9Bu8, 0x71u8,
    ]
}

// ---------------------------------------------------------------------------
// Format decisions
// ---------------------------------------------------------------------------

/// Whether `spec` needs `WAVE_FORMAT_EXTENSIBLE`: plain `WAVE_FORMAT_PCM`
/// only covers 8- or 16-bit samples and one or two channels.
pub fn needs_extensible(spec: WavSpec) -> (r: bool)
    ensures
        r == (spec.bits_per_sample > 16 || spec.channels > 2),
{
    spec.bits_per_sample > 16 || spec.channels > 2
}

/// `dwChannelMask` for `channels`: front center for mono, front left and
/// right for stereo, and no speaker positions above that.
pub open spec fn spec_channel_mask(channels: u16) -> u32 {
    if channels == 1 {
        0x4
    } else if channels == 2 {
        0x3
    } else {
        0
    }
}

/// `dwChannelMask` for `channels`.
pub fn channel_mask(channels: u16) -> (r: u32)
    ensures
        r == spec_channel_mask(channels),
{
    match channels {
        1 => 0x4,
        2 => 0x3,
        _ => 0,
    }
}

/// Bytes per sample for a bit depth the writer can emit, if it is one.
pub open spec fn spec_byte_width(bits_per_sample: u16) -> Option<u8> {
    if bits_per_sample == 8 {
        Some(1u8)
    } else if bits_per_sample == 16 {
        Some(2u8)
    } else if bits_per_sample == 24 {
        Some(3u8)
    } else if bits_per_sample == 32 {
        Some(4u8)
    } else {
        None
    }
}

/// Bytes per sample: 1, 2, 3 or 4 for 8, 16, 24 or 32 bits; `None` for any
/// other depth, which the writer refuses before creating a file.
pub fn byte_width(bits_per_sample: u16) -> (r: Option<u8>)
    ensures
        r == spec_byte_width(bits_per_sample),
{
    match bits_per_sample {
        8 => Some(1),
        16 => Some(2),
        24 => Some(3),
        32 => Some(4),
        _ => None,
    }
}

/// `a * b`, or `u32::MAX` when the product does not fit.
pub open spec fn sat_mul_u32(a: int, b: int) -> u32 {
    if a * b > u32::MAX {
        u32::MAX
    } else {
        (a * b) as u32
    }
}

/// The header's byte rate: `sample_rate * channels * byte_width`, each
/// multiplication saturating at `u32::MAX`.
pub open spec fn spec_byte_rate(spec: WavSpec, bw: u8) -> u32 {
    sat_mul_u32(sat_mul_u32(spec.sample_rate as int, spec.channels as int) as int, bw as int)
}

/// The header's block align: bytes per frame, capped at `u16::MAX`.
pub open spec fn spec_block_align(spec: WavSpec, bw: u8) -> u16 {
    if spec.channels * bw > u16::MAX {
        u16::MAX
    } else {
        (spec.channels * bw) as u16
    }
}

/// Length of the header written for `spec`.
pub open spec fn spec_header_len(spec: WavSpec) -> u64 {
    if spec.bits_per_sample > 16 || spec.channels > 2 {
        EXTENSIBLE_HEADER_LEN
    } else {
        PCM_HEADER_LEN
    }
}

/// The header of a file with `spec`, whose RIFF size field holds
/// `riff_size` and whose data-chunk size field holds `data_size`.
#[verifier::opaque]
pub open spec fn spec_header_sized(spec: WavSpec, bw: u8, riff_size: u32, data_size: u32) -> Seq<
    u8,
> {
    let extensible = spec.bits_per_sample > 16 || spec.channels > 2;
    let fmt_head = if extensible {
        le32(40) + le16(FORMAT_EXTENSIBLE)
    } else {
        le32(16) + le16(1)
    };
    let fmt_tail = if extensible {
        le16(22) + le16(spec.bits_per_sample) + le32(spec_channel_mask(spec.channels))
            + subtype_pcm()
    } else {
        Seq::<u8>::empty()
    };
    riff_tag() + le32(riff_size) + wave_tag() + fmt_tag() + fmt_head + le16(spec.channels) + le32(
        spec.sample_rate,
    ) + le32(spec_byte_rate(spec, bw)) + le16(spec_block_align(spec, bw)) + le16(
        spec.bits_per_sample,
    ) + fmt_tail + data_tag() + le32(data_size)
}

/// The header bytes written when a file is created, with placeholder (zero)
/// RIFF and data sizes.
pub open spec fn spec_header(spec: WavSpec, bw: u8) -> Seq<u8> {
    spec_header_sized(spec, bw, 0, 0)
}

// ---------------------------------------------------------------------------
// Writing the header
// ---------------------------------------------------------------------------

fn push_le16(out: &mut Vec<u8>, v: u16)
    ensures
        final(out)@ == old(out)@ + le16(v),
{
    out.push((v & 0xff) as u8);
    out.push(((v >> 8u16) & 0xff) as u8);
    assert(final(out)@ =~= old(out)@ + le16(v));
}

fn push_le32(out: &mut Vec<u8>, v: u32)
    ensures
        final(out)@ == old(out)@ + le32(v),
{
    out.push((v & 0xff) as u8);
    out.push(((v >> 8u32) & 0xff) as u8);
    out.push(((v >> 16u32) & 0xff) as u8);
    out.push(((v >> 24u32) & 0xff) as u8);
    assert(final(out)@ =~= old(out)@ + le32(v));
}

fn push_bytes4(out: &mut Vec<u8>, a: u8, b: u8, c: u8, d: u8)
    ensures
        final(out)@ == old(out)@ + seq![a, b, c, d],
{
    out.push(a);
    out.push(b);
    out.push(c);
    out.push(d);
    assert(final(out)@ =~= old(out)@ + seq![a, b, c, d]);
}

/// `a * b` saturating at `u32::MAX`.
fn saturating_mul_u32(a: u32, b: u32) -> (r: u32)
    ensures
        r == sat_mul_u32(a as int, b as int),
{
    match a.checked_mul(b) {
        Some(p) => p,
        None => u32::MAX,
    }
}

/// The byte rate written into the header of a file with `spec`.
pub fn header_byte_rate(spec: WavSpec, bw: u8) -> (r: u32)
    ensures
        r == spec_byte_rate(spec, bw),
{
    saturating_mul_u32(saturating_mul_u32(spec.sample_rate, spec.channels as u32), bw as u32)
}

/// The block align written into the header of a file with `spec`.
pub fn header_block_align(spec: WavSpec, bw: u8) -> (r: u16)
    ensures
        r == spec_block_align(spec, bw),
{
    assert((spec.channels as int) * (bw as int) <= 65535 * 255) by (nonlinear_arith)
        requires
            spec.channels <= 65535,
            bw <= 255,
    ;
    let frame: u32 = (spec.channels as u32) * (bw as u32);
    if frame > 65535 {
        u16::MAX
    } else {
        frame as u16
    }
}

/// The header a new file for `spec` starts with, and the sample width, or
/// `None` when the bit depth is not one the writer can emit (8, 16, 24 or
/// 32 bits).
pub fn create_header(spec: WavSpec) -> (r: Option<(Vec<u8>, u8)>)
    ensures
        r is None <==> spec_byte_width(spec.bits_per_sample) is None,
        r matches Some((bytes, bw)) ==> {
            &&& Some(bw) == spec_byte_width(spec.bits_per_sample)
            &&& bytes@ == spec_header(spec, bw)
            &&& bytes@.len() == spec_header_len(spec)
        },
{
    let bw = match byte_width(spec.bits_per_sample) {
        Some(w) => w,
        None => return None,
    };
    let byte_rate = header_byte_rate(spec, bw);
    let block_align = header_block_align(spec, bw);
    let extensible = needs_extensible(spec);
    let mut out: Vec<u8> = Vec::new();
    push_bytes4(&mut out, 0x52, 0x49, 0x46, 0x46);
    push_le32(&mut out, 0);
    push_bytes4(&mut out, 0x57, 0x41, 0x56, 0x45);
    push_bytes4(&mut out, 0x66, 0x6d, 0x74, 0x20);
    if extensible {
        push_le32(&mut out, 40);
        push_le16(&mut out, FORMAT_EXTENSIBLE);
    } else {
        push_le32(&mut out, 16);
        push_le16(&mut out, 1);
    }
    push_le16(&mut out, spec.channels);
    push_le32(&mut out, spec.sample_rate);
    push_le32(&mut out, byte_rate);
    push_le16(&mut out, block_align);
    push_le16(&mut out, spec.bits_per_sample);
    if extensible {
        push_le16(&mut out, 22);
        push_le16(&mut out, spec.bits_per_sample);
        push_le32(&mut out, channel_mask(spec.channels));
        push_bytes4(&mut out, 0x01, 0x00, 0x00, 0x00);
        push_bytes4(&mut out, 0x00, 0x00, 0x10, 0x00);
        push_bytes4(&mut out, 0x80, 0x00, 0x00, 0xAA);
        push_bytes4(&mut out, 0x00, 0x38, 0x9B, 0x71);
    }
    push_bytes4(&mut out, 0x64, 0x61, 0x74, 0x61);
    push_le32(&mut out, 0);
    proof {
        reveal(spec_header_sized);
    }
    assert(out@ =~= spec_header(spec, bw));
    Some((out, bw))
}

// ---------------------------------------------------------------------------
// Header size fields
// ---------------------------------------------------------------------------

/// `v` capped at `u32::MAX`.
pub open spec fn cap_u32(v: int) -> u32 {
    if v > u32::MAX {
        u32::MAX
    } else {
        v as u32
    }
}

/// The RIFF and data-chunk size fields for `data_bytes` of audio behind a
/// `header_len`-byte header: the data size capped at `u32::MAX`, and the
/// RIFF size counting the header after its 8-byte preamble, the data and a
/// trailing pad byte when there is one, saturating at `u32::MAX`.
pub open spec fn spec_header_sizes(data_bytes: u64, pad: bool, header_len: u64) -> (u32, u32) {
    let data_size = cap_u32(data_bytes as int);
    let file_size = cap_u32(
        data_size + cap_u32(header_len - 8) + (if pad {
            1int
        } else {
            0int
        }),
    );
    (file_size, data_size)
}

/// The RIFF and data-chunk size fields for `data_bytes` of audio behind a
/// `header_len`-byte header; `pad` when a word-alignment byte follows the
/// data chunk.
pub fn header_sizes(data_bytes: u64, pad: bool, header_len: u64) -> (r: (u32, u32))
    requires
        header_len >= 8,
    ensures
        r == spec_header_sizes(data_bytes, pad, header_len),
{
    let data_size: u32 = if data_bytes > 4294967295 {
        u32::MAX
    } else {
        data_bytes as u32
    };
    let after: u32 = if header_len - 8 > 4294967295 {
        u32::MAX
    } else {
        (header_len - 8) as u32
    };
    let total: u64 = data_size as u64 + after as u64 + if pad {
        1u64
    } else {
        0u64
    };
    let file_size: u32 = if total > 4294967295 {
        u32::MAX
    } else {
        total as u32
    };
    (file_size, data_size)
}

/// How many data bytes a header rewritten after a failed flush can claim:
/// no more than reached the file (`on_disk`) or were written (`counted`),
/// rounded down to whole frames of `block_align` bytes (a `block_align`
/// of 0 counts as 1).
pub fn salvaged_data_len(on_disk: u64, counted: u64, block_align: u16) -> (r: u64)
    ensures
        ({
            let m = if on_disk < counted {
                on_disk
            } else {
                counted
            };
            let a = if block_align == 0 {
                1u16
            } else {
                block_align
            };
            r == m - m % (a as u64)
        }),
        r <= on_disk,
        r <= counted,
        block_align > 0 ==> r % (block_align as u64) == 0,
{
    let bytes = if on_disk < counted {
        on_disk
    } else {
        counted
    };
    let align: u64 = if block_align == 0 {
        1
    } else {
        block_align as u64
    };
    proof {
        lemma_round_down(bytes, align);
    }
    bytes - bytes % align
}

/// `x - x % a` lies in `[0, x]` and is a multiple of `a`.
pub proof fn lemma_round_down(x: u64, a: u64)
    requires
        a > 0,
    ensures
        x % a <= x,
        ((x - x % a) as u64) % a == 0,
{
    assert(x % a <= x) by (nonlinear_arith)
        requires
            a > 0,
    ;
    assert(((x - x % a) as u64) % a == 0) by (nonlinear_arith)
        requires
            a > 0,
    ;
}

// ---------------------------------------------------------------------------
// Reading the layout back
// ---------------------------------------------------------------------------

/// Where the parts of a RIFF/WAVE file's header sit, found by walking its
/// chunks rather than assuming a fixed layout.
#[derive(Debug, Clone, Copy, PartialEq, Eq, Structural)]
pub struct WavLayout {
    /// Bytes per frame, from the `fmt ` chunk.
    pub block_align: u16,
    /// Offset of the `data` chunk's size field.
    pub data_size_offset: u64,
    /// Offset of the first audio byte (the `data` chunk body).
    pub data_offset: u64,
}

/// Walk the chunks of `b` from `pos`, remembering the block align of the
/// last `fmt ` chunk seen: the layout at the first `data` chunk, or `None`
/// when the bytes end first or no usable `fmt ` chunk came before it.
pub open spec fn spec_walk(b: Seq<u8>, pos: int, block_align: Option<u16>) -> Option<WavLayout>
    decreases b.len() - pos,
{
    if pos < 0 || pos + 8 > b.len() {
        None
    } else if b.subrange(pos, pos + 4) == data_tag() {
        match block_align {
            Some(ba) => Some(
                WavLayout {
                    block_align: ba,
                    data_size_offset: (pos + 4) as u64,
                    data_offset: (pos + 8) as u64,
                },
            ),
            None => None,
        }
    } else {
        let size = u32_at(b, pos + 4) as int;
        let next = pos + 8 + size + size % 2;
        if next > b.len() {
            None
        } else if b.subrange(pos, pos + 4) == fmt_tag() {
            if pos + 22 > b.len() {
                None
            } else {
                let ba = u16_at(b, pos + 20);
                spec_walk(
                    b,
                    next,
                    if ba > 0 {
                        Some(ba)
                    } else {
                        None
                    },
                )
            }
        } else {
            spec_walk(b, next, block_align)
        }
    }
}

/// The layout of the WAV file starting with `b`: `None` unless `b` starts
/// with `RIFF`, has `WAVE` at offset 8, and reaches a `data` chunk after a
/// `fmt ` chunk with a nonzero block align.
pub open spec fn spec_parse_wav_layout(b: Seq<u8>) -> Option<WavLayout> {
    if b.len() < 12 || b.subrange(0, 4) != riff_tag() || b.subrange(8, 12) != wave_tag() {
        None
    } else {
        spec_walk(b, 12, None)
    }
}

fn tag_at(bytes: &[u8], at: usize, t0: u8, t1: u8, t2: u8, t3: u8) -> (r: bool)
    requires
        at + 4 <= bytes@.len(),
    ensures
        r == (bytes@.subrange(at as int, at + 4) == seq![t0, t1, t2, t3]),
{
    let r = bytes[at] == t0 && bytes[at + 1] == t1 && bytes[at + 2] == t2 && bytes[at + 3] == t3;
    assert(r ==> bytes@.subrange(at as int, at + 4) =~= seq![t0, t1, t2, t3]);
    assert(bytes@.subrange(at as int, at + 4) =~= seq![t0, t1, t2, t3] ==> {
        &&& bytes@.subrange(at as int, at + 4)[0] == t0
        &&& bytes@.subrange(at as int, at + 4)[1] == t1
        &&& bytes@.subrange(at as int, at + 4)[2] == t2
        &&& bytes@.subrange(at as int, at + 4)[3] == t3
    });
    r
}

fn read_u32(bytes: &[u8], at: usize) -> (r: u32)
    requires
        at + 4 <= bytes@.len(),
    ensures
        r == u32_at(bytes@, at as int),
{
    (bytes[at] as u32) | ((bytes[at + 1] as u32) << 8u32) | ((bytes[at + 2] as u32) << 16u32) | ((
    bytes[at + 3] as u32) << 24u32)
}

fn read_u16(bytes: &[u8], at: usize) -> (r: u16)
    requires
        at + 2 <= bytes@.len(),
    ensures
        r == u16_at(bytes@, at as int),
{
    (bytes[at] as u16) | ((bytes[at + 1] as u16) << 8u16)
}

/// Parse the chunk layout from the start of a WAV file. `bytes` must reach
/// at least the `data` chunk header; returns `None` when it is not a
/// RIFF/WAVE file, has no `fmt ` chunk before `data`, or ends first.
pub fn parse_wav_layout(bytes: &[u8]) -> (r: Option<WavLayout>)
    ensures
        r == spec_parse_wav_layout(bytes@),
{
    let len = bytes.len();
    if len < 12 {
        return None;
    }
    if !tag_at(bytes, 0, 0x52, 0x49, 0x46, 0x46) || !tag_at(bytes, 8, 0x57, 0x41, 0x56, 0x45) {
        return None;
    }
    let mut block_align: Option<u16> = None;
    let mut pos: usize = 12;
    while pos <= len
        invariant
            len == bytes@.len(),
            spec_parse_wav_layout(bytes@) == spec_walk(bytes@, pos as int, block_align),
        decreases len - pos,
    {
        if len < 8 || pos > len - 8 {
            return None;
        }
        if tag_at(bytes, pos, 0x64, 0x61, 0x74, 0x61) {
            return match block_align {
                Some(ba) => Some(
                    WavLayout {
                        block_align: ba,
                        data_size_offset: (pos + 4) as u64,
                        data_offset: (pos + 8) as u64,
                    },
                ),
                None => None,
            };
        }
        let size = read_u32(bytes, pos + 4);
        let is_fmt = tag_at(bytes, pos, 0x66, 0x6d, 0x74, 0x20);
        if is_fmt {
            if len < 22 || pos > len - 22 {
                return None;
            }
            let ba = read_u16(bytes, pos + 20);
            block_align = if ba > 0 {
                Some(ba)
            } else {
                None
            };
        }
        // Chunks are word-aligned: an odd-sized body is followed by a pad byte.
        let step: u64 = 8u64 + size as u64 + (size % 2) as u64;
        if step > (len - pos) as u64 {
            return None;
        }
        pos = pos + step as usize;
    }
    None
}

// ---------------------------------------------------------------------------
// Laws
// ---------------------------------------------------------------------------

/// The layout of a file written for `spec`: the block align of its
/// header, and its audio right after the header.
pub open spec fn spec_written_layout(spec: WavSpec, bw: u8) -> WavLayout {
    WavLayout {
        block_align: spec_block_align(spec, bw),
        data_size_offset: (spec_header_len(spec) - 4) as u64,
        data_offset: spec_header_len(spec),
    }
}

/// The header of a file with `spec` is 44 bytes for plain PCM and 68 for
/// `WAVE_FORMAT_EXTENSIBLE`, whatever its size fields hold.
pub proof fn lemma_header_len(spec: WavSpec, bw: u8, riff_size: u32, data_size: u32)
    ensures
        spec_header_sized(spec, bw, riff_size, data_size).len() == spec_header_len(spec),
{
    reveal(spec_header_sized);
}

/// The first 36 header bytes: everything up to the end of the common part
/// of the `fmt ` chunk.
#[verifier::opaque]
pub open spec fn spec_header_prefix(spec: WavSpec, bw: u8, riff_size: u32) -> Seq<u8> {
    let extensible = spec.bits_per_sample > 16 || spec.channels > 2;
    let fmt_head = if extensible {
        le32(40) + le16(FORMAT_EXTENSIBLE)
    } else {
        le32(16) + le16(1)
    };
    riff_tag() + le32(riff_size) + wave_tag() + fmt_tag() + fmt_head + le16(spec.channels) + le32(
        spec.sample_rate,
    ) + le32(spec_byte_rate(spec, bw)) + le16(spec_block_align(spec, bw)) + le16(
        spec.bits_per_sample,
    )
}

proof fn lemma_header_split(spec: WavSpec, bw: u8, riff_size: u32, data_size: u32)
    ensures
        spec_header_sized(spec, bw, riff_size, data_size) == spec_header_prefix(
            spec,
            bw,
            riff_size,
        ) + spec_header_rest(spec, data_size),
{
    reveal(spec_header_sized);
    reveal(spec_header_prefix);
    reveal(spec_header_rest);
    assert(spec_header_sized(spec, bw, riff_size, data_size) =~= spec_header_prefix(
        spec,
        bw,
        riff_size,
    ) + spec_header_rest(spec, data_size));
}

#[verifier::rlimit(50)]
proof fn lemma_header_prefix_fields(spec: WavSpec, bw: u8, riff_size: u32)
    ensures
        ({
            let p = spec_header_prefix(spec, bw, riff_size);
            let extensible = spec.bits_per_sample > 16 || spec.channels > 2;
            &&& p.len() == 36
            &&& p.subrange(0, 4) == riff_tag()
            &&& p.subrange(8, 12) == wave_tag()
            &&& p.subrange(12, 16) == fmt_tag()
            &&& p.subrange(16, 20) == le32(
                if extensible {
                    40u32
                } else {
                    16u32
                },
            )
            &&& p.subrange(32, 34) == le16(spec_block_align(spec, bw))
        }),
{
    reveal(spec_header_prefix);
    let p = spec_header_prefix(spec, bw, riff_size);
    let extensible = spec.bits_per_sample > 16 || spec.channels > 2;
    assert(p.subrange(0, 4) =~= riff_tag());
    assert(p.subrange(8, 12) =~= wave_tag());
    assert(p.subrange(12, 16) =~= fmt_tag());
    assert(p.subrange(16, 20) =~= le32(
        if extensible {
            40u32
        } else {
            16u32
        },
    ));
    assert(p.subrange(32, 34) =~= le16(spec_block_align(spec, bw)));
}

/// The chunk walk over bytes laid out like a header this writer produced.
proof fn lemma_walk_written_shape(b: Seq<u8>, hl: int, ba: u16, size: u32)
    requires
        hl == 28 + size,
        size == 16 || size == 40,
        b.len() >= hl,
        ba > 0,
        b.subrange(0, 4) == riff_tag(),
        b.subrange(8, 12) == wave_tag(),
        b.subrange(12, 16) == fmt_tag(),
        u32_at(b, 16) == size,
        u16_at(b, 32) == ba,
        b.subrange(hl - 8, hl - 4) == data_tag(),
    ensures
        spec_parse_wav_layout(b) == Some(
            WavLayout { block_align: ba, data_size_offset: (hl - 4) as u64, data_offset: hl as u64 },
        ),
{
    assert(b.subrange(12, 16)[0] != data_tag()[0]);
    assert(b.subrange(12, 16) != data_tag());
    assert(size % 2 == 0);
    assert(12 + 8 + size + size % 2 == hl - 8);
    assert(u16_at(b, 12int + 20) == ba);
    assert(spec_walk(b, hl - 8, Some(ba)) == Some(
        WavLayout { block_align: ba, data_size_offset: (hl - 4) as u64, data_offset: hl as u64 },
    ));
    assert(spec_walk(b, 12, None) == spec_walk(b, hl - 8, Some(ba)));
}

/// The header bytes after the common `fmt ` prefix: the extensible part
/// of the `fmt ` chunk when there is one, then the `data` chunk header.
#[verifier::opaque]
pub open spec fn spec_header_rest(spec: WavSpec, data_size: u32) -> Seq<u8> {
    let extensible = spec.bits_per_sample > 16 || spec.channels > 2;
    let fmt_tail = if extensible {
        le16(22) + le16(spec.bits_per_sample) + le32(spec_channel_mask(spec.channels))
            + subtype_pcm()
    } else {
        Seq::<u8>::empty()
    };
    fmt_tail + data_tag() + le32(data_size)
}

proof fn lemma_header_rest_fields(spec: WavSpec, data_size: u32)
    ensures
        ({
            let t = spec_header_rest(spec, data_size);
            &&& t.len() == spec_header_len(spec) - 36
            &&& t.subrange(t.len() - 8, t.len() - 4) == data_tag()
        }),
{
    reveal(spec_header_rest);
    let t = spec_header_rest(spec, data_size);
    assert(t.subrange(t.len() - 8, t.len() - 4) =~= data_tag());
}

/// The fields of a written header that the chunk walk reads.
proof fn lemma_written_file_fields(
    spec: WavSpec,
    bw: u8,
    riff_size: u32,
    data_size: u32,
    audio: Seq<u8>,
)
    ensures
        ({
            let b = spec_header_sized(spec, bw, riff_size, data_size) + audio;
            let hl = spec_header_len(spec) as int;
            let size: u32 = if spec.bits_per_sample > 16 || spec.channels > 2 {
                40
            } else {
                16
            };
            &&& hl == 28 + size
            &&& b.len() >= hl
            &&& b.subrange(0, 4) == riff_tag()
            &&& b.subrange(8, 12) == wave_tag()
            &&& b.subrange(12, 16) == fmt_tag()
            &&& b.subrange(16, 20) == le32(size)
            &&& b.subrange(32, 34) == le16(spec_block_align(spec, bw))
            &&& b.subrange(hl - 8, hl - 4) == data_tag()
        }),
{
    let p = spec_header_prefix(spec, bw, riff_size);
    let t = spec_header_rest(spec, data_size);
    lemma_header_split(spec, bw, riff_size, data_size);
    lemma_header_prefix_fields(spec, bw, riff_size);
    lemma_header_rest_fields(spec, data_size);
    let b = spec_header_sized(spec, bw, riff_size, data_size) + audio;
    assert(b =~= p + (t + audio));
    lemma_concat_prefix_subrange(p, t + audio, 0, 4);
    lemma_concat_prefix_subrange(p, t + audio, 8, 12);
    lemma_concat_prefix_subrange(p, t + audio, 12, 16);
    lemma_concat_prefix_subrange(p, t + audio, 16, 20);
    lemma_concat_prefix_subrange(p, t + audio, 32, 34);
    let hl = spec_header_len(spec) as int;
    lemma_concat_prefix_subrange(t, audio, t.len() - 8, t.len() - 4);
    assert(b.subrange(hl - 8, hl - 4) =~= (t + audio).subrange(t.len() - 8, t.len() - 4));
}

/// A subrange that lies within the first part of a concatenation.
proof fn lemma_concat_prefix_subrange(a: Seq<u8>, c: Seq<u8>, i: int, j: int)
    requires
        0 <= i <= j <= a.len(),
    ensures
        (a + c).subrange(i, j) == a.subrange(i, j),
{
    assert((a + c).subrange(i, j) =~= a.subrange(i, j));
}

/// Reading back a file this writer produced finds its audio where the
/// writer put it: whatever the size fields hold (placeholders at creation,
/// or the sizes written by a flush, finalize or salvage) and whatever audio
/// follows the header, the layout parsed from the file is the header's
/// block align with the data right after the header. Holds for every bit
/// depth the writer accepts and every spec with at least one channel.
pub proof fn lemma_layout_of_written_file(
    spec: WavSpec,
    bw: u8,
    riff_size: u32,
    data_size: u32,
    audio: Seq<u8>,
)
    requires
        spec_byte_width(spec.bits_per_sample) == Some(bw),
        spec.channels >= 1,
    ensures
        spec_parse_wav_layout(spec_header_sized(spec, bw, riff_size, data_size) + audio) == Some(
            spec_written_layout(spec, bw),
        ),
{
    let b = spec_header_sized(spec, bw, riff_size, data_size) + audio;
    let hl = spec_header_len(spec) as int;
    let ba = spec_block_align(spec, bw);
    let size: u32 = if spec.bits_per_sample > 16 || spec.channels > 2 {
        40
    } else {
        16
    };
    lemma_written_file_fields(spec, bw, riff_size, data_size, audio);
    assert(ba > 0) by (nonlinear_arith)
        requires
            spec.channels >= 1,
            bw >= 1,
            ba == spec_block_align(spec, bw),
    ;
    lemma_le32_roundtrip(size);
    assert(b[16] == b.subrange(16, 20)[0]);
    assert(b[17] == b.subrange(16, 20)[1]);
    assert(b[18] == b.subrange(16, 20)[2]);
    assert(b[19] == b.subrange(16, 20)[3]);
    lemma_le16_roundtrip(ba);
    assert(b[32] == b.subrange(32, 34)[0]);
    assert(b[33] == b.subrange(32, 34)[1]);
    lemma_walk_written_shape(b, hl, ba, size);
}

// ---------------------------------------------------------------------------
// Sizes after a crash
// ---------------------------------------------------------------------------

/// Largest data length that recovery writes into a header whose data chunk
/// starts at `data_offset`: the RIFF size (header after the preamble, data
/// and a pad byte) must still fit its `u32` field.
pub open spec fn spec_recovery_cap(data_offset: u64) -> int {
    u32::MAX - (data_offset - 8) - 1
}

/// The audio length, RIFF size and data size recovery writes into a file of
/// `file_len` bytes with `layout`: everything after the data chunk header,
/// capped, then rounded down to whole frames.
pub open spec fn spec_recovered_sizes(file_len: u64, layout: WavLayout) -> (u64, u32, u32) {
    let align: int = if layout.block_align == 0 {
        1
    } else {
        layout.block_align as int
    };
    let after = if file_len >= layout.data_offset {
        file_len - layout.data_offset
    } else {
        0
    };
    let cap = spec_recovery_cap(layout.data_offset);
    let raw = if after < cap {
        after
    } else {
        cap
    };
    let data = raw - raw % align;
    let pad = data % 2;
    (data as u64, ((layout.data_offset - 8) + data + pad) as u32, data as u32)
}

/// Whether `layout` describes a header recovery can rewrite: its data chunk
/// starts after the 8-byte preamble and early enough that the RIFF size can
/// count it.
pub open spec fn recoverable_layout(layout: WavLayout) -> bool {
    8 <= layout.data_offset && layout.data_offset - 8 < u32::MAX
}

/// The audio length, RIFF size field and data size field to write into a
/// file of `file_len` bytes with `layout`, recovering it after a crash.
pub fn recovered_sizes(file_len: u64, layout: WavLayout) -> (r: (u64, u32, u32))
    requires
        recoverable_layout(layout),
    ensures
        r == spec_recovered_sizes(file_len, layout),
        r.0 + layout.data_offset <= file_len || r.0 == 0,
        layout.block_align > 0 ==> r.0 % (layout.block_align as u64) == 0,
        r.1 as int == (layout.data_offset - 8) + r.0 + r.0 % 2,
        r.2 as int == r.0,
{
    let align: u64 = if layout.block_align == 0 {
        1
    } else {
        layout.block_align as u64
    };
    let header_after_preamble = layout.data_offset - 8;
    let cap: u64 = 4294967295u64 - header_after_preamble - 1;
    let after: u64 = if file_len >= layout.data_offset {
        file_len - layout.data_offset
    } else {
        0
    };
    let raw = if after < cap {
        after
    } else {
        cap
    };
    proof {
        lemma_round_down(raw, align);
    }
    let data_bytes = raw - raw % align;
    let pad = data_bytes % 2;
    let riff: u32 = (header_after_preamble + data_bytes + pad) as u32;
    let data: u32 = data_bytes as u32;
    (data_bytes, riff, data)
}

} // verus!
