//! Launch-time recovery of recordings a crash left under their temporary
//! `.recording.wav` names.
//!
//! The writer refreshes each open file's header periodically, so after a
//! crash a file can hold more audio than its header describes and still
//! carry its temporary name. Recovery points the header at every whole frame
//! in the file, cuts a torn trailing frame, and renames the file to its
//! final `.wav` name. This module decides what to do with one file; the
//! caller reads the file's length and first bytes and carries out the plan.

use vstd::prelude::*;

use crate::text::{
    chars_of, lemma_decimal_injective, lemma_decimal_len, push_decimal, push_str, spec_decimal,
    string_from_chars,
};
use crate::wav::{
    parse_wav_layout, recovered_sizes, spec_parse_wav_layout, spec_recovered_sizes, WavLayout,
};

verus! {

/// Header bytes read to find the `data` chunk. Written headers are 44 or
/// 68 bytes; the margin allows a foreign chunk or two before `data`.
pub const HEADER_PROBE_LEN: u64 = 4096;

/// The suffix of a file the writer still has open (or had open when it died).
pub open spec fn tmp_suffix() -> Seq<char> {
    seq!['.', 'r', 'e', 'c', 'o', 'r', 'd', 'i', 'n', 'g', '.', 'w', 'a', 'v']
}

/// The suffix of a finished recording.
pub open spec fn wav_suffix() -> Seq<char> {
    seq!['.', 'w', 'a', 'v']
}

/// `<stem>.wav` for a file named `<stem>.recording.wav` with a nonempty
/// stem; `None` for any other name.
pub open spec fn spec_final_name_for(name: Seq<char>) -> Option<Seq<char>> {
    if name.len() > tmp_suffix().len() && name.subrange(
        name.len() - tmp_suffix().len(),
        name.len() as int,
    ) == tmp_suffix() {
        Some(name.subrange(0, name.len() - tmp_suffix().len()) + wav_suffix())
    } else {
        None
    }
}

/// The final name of a recording the writer left under the temporary name
/// `name`: `<stem>.wav` for `<stem>.recording.wav` (with a nonempty stem),
/// `None` for any other file name.
pub fn final_name_for(name: &str) -> (r: Option<String>)
    ensures
        r is Some <==> spec_final_name_for(name@) is Some,
        r matches Some(s) ==> s@ == spec_final_name_for(name@)->0,
{
    let chars = chars_of(name);
    let suffix = chars_of(".recording.wav");
    proof {
        reveal_strlit(".recording.wav");
        assert(suffix@ =~= tmp_suffix());
    }
    if chars.len() <= suffix.len() {
        return None;
    }
    let start = chars.len() - suffix.len();
    let mut i: usize = 0;
    while i < suffix.len()
        invariant
            chars@ == name@,
            suffix@ == tmp_suffix(),
            start == chars.len() - suffix.len(),
            i <= suffix.len(),
            forall|j: int| 0 <= j < i ==> chars@[start + j] == suffix@[j],
        decreases suffix.len() - i,
    {
        if chars[start + i] != suffix[i] {
            proof {
                assert(name@.subrange(start as int, name@.len() as int)[i as int] != tmp_suffix()[i as int]);
            }
            return None;
        }
        i = i + 1;
    }
    assert(name@.subrange(start as int, name@.len() as int) =~= tmp_suffix());
    let mut out: Vec<char> = Vec::new();
    let mut k: usize = 0;
    while k < start
        invariant
            chars@ == name@,
            start < chars.len(),
            k <= start,
            out@ == name@.subrange(0, k as int),
        decreases start - k,
    {
        out.push(chars[k]);
        k = k + 1;
        assert(out@ =~= name@.subrange(0, k as int));
    }
    out.push('.');
    out.push('w');
    out.push('a');
    out.push('v');
    assert(out@ =~= name@.subrange(0, start as int) + wav_suffix());
    Some(string_from_chars(&out))
}

/// The `n`-th name tried for a file meant to be `path`: `path` itself
/// first, then `<stem>-1.wav`, `<stem>-2.wav` and so on for a `.wav` path
/// (`<path>-n` for any other), so an existing file is never replaced.
pub open spec fn spec_numbered_name(path: Seq<char>, n: nat) -> Seq<char> {
    if n == 0 {
        path
    } else if path.len() >= wav_suffix().len() && path.subrange(
        path.len() - wav_suffix().len(),
        path.len() as int,
    ) == wav_suffix() {
        path.subrange(0, path.len() - wav_suffix().len()) + seq!['-'] + spec_decimal(n)
            + wav_suffix()
    } else {
        path + seq!['-'] + spec_decimal(n)
    }
}

/// Different attempts give different names, so trying names in turn never
/// asks for the same one twice.
pub proof fn lemma_numbered_names_distinct(path: Seq<char>, n: nat, m: nat)
    requires
        n != m,
    ensures
        spec_numbered_name(path, n) != spec_numbered_name(path, m),
{
    lemma_decimal_len(n);
    lemma_decimal_len(m);
    let a = spec_numbered_name(path, n);
    let b = spec_numbered_name(path, m);
    if n == 0 || m == 0 {
        assert(a.len() != b.len());
    } else if a == b {
        if path.len() >= wav_suffix().len() && path.subrange(
            path.len() - wav_suffix().len(),
            path.len() as int,
        ) == wav_suffix() {
            let stem = path.subrange(0, path.len() - 4);
            assert(a == stem + seq!['-'] + spec_decimal(n) + wav_suffix());
            assert(b == stem + seq!['-'] + spec_decimal(m) + wav_suffix());
            assert(spec_decimal(n).len() == spec_decimal(m).len());
            assert(a.subrange(stem.len() as int + 1, a.len() - 4) =~= spec_decimal(n));
            assert(b.subrange(stem.len() as int + 1, b.len() - 4) =~= spec_decimal(m));
        } else {
            assert(a == path + seq!['-'] + spec_decimal(n));
            assert(b == path + seq!['-'] + spec_decimal(m));
            assert(a.subrange(path.len() as int + 1, a.len() as int) =~= spec_decimal(n));
            assert(b.subrange(path.len() as int + 1, b.len() as int) =~= spec_decimal(m));
        }
        lemma_decimal_injective(n, m);
    }
}

/// The `n`-th candidate name for a file meant to be `path` (see
/// [`spec_numbered_name`]).
pub fn numbered_name(path: &str, n: u64) -> (r: String)
    ensures
        r@ == spec_numbered_name(path@, n as nat),
{
    let chars = chars_of(path);
    if n == 0 {
        return string_from_chars(&chars);
    }
    let len = chars.len();
    let is_wav = len >= 4 && chars[len - 4] == '.' && chars[len - 3] == 'w' && chars[len - 2]
        == 'a' && chars[len - 1] == 'v';
    let stem_len = if is_wav {
        len - 4
    } else {
        len
    };
    proof {
        if len >= 4 {
            let tail = path@.subrange(len - 4, len as int);
            assert(is_wav ==> tail =~= wav_suffix());
            assert(tail == wav_suffix() ==> tail[0] == '.' && tail[1] == 'w' && tail[2] == 'a'
                && tail[3] == 'v');
        }
    }
    let mut out: Vec<char> = Vec::new();
    let mut k: usize = 0;
    while k < stem_len
        invariant
            chars@ == path@,
            stem_len <= chars.len(),
            k <= stem_len,
            out@ == path@.subrange(0, k as int),
        decreases stem_len - k,
    {
        out.push(chars[k]);
        k = k + 1;
        assert(out@ =~= path@.subrange(0, k as int));
    }
    out.push('-');
    let mut s = string_from_chars(&out);
    push_decimal(&mut s, n);
    if is_wav {
        push_str(&mut s, ".wav");
        proof {
            reveal_strlit(".wav");
            assert(".wav"@ =~= wav_suffix());
        }
    }
    assert(s@ =~= spec_numbered_name(path@, n as nat));
    s
}

/// What recovery does with one `.recording.wav` file.
#[derive(Debug, Clone, Copy, PartialEq, Eq, Structural)]
pub enum RecoveryPlan {
    /// The file isn't a WAV this engine could have written: leave it alone.
    NotWav,
    /// The file holds no whole frame after its header: delete it.
    Empty,
    /// Write `riff_size` at offset 4 and `data_size` at `data_size_offset`;
    /// when `cut_to` is set, cut the file to that length, the end of its
    /// whole frames (dropping a torn trailing frame), and then, when `pad`
    /// is set, append one zero byte after the odd-length data chunk; then
    /// rename it to its final name.
    Repair { riff_size: u32, data_size: u32, data_size_offset: u64, cut_to: Option<u64>, pad: bool },
}

/// The plan for a file of `file_len` bytes whose first bytes are `head`.
pub open spec fn spec_recovery_plan(file_len: u64, head: Seq<u8>) -> RecoveryPlan {
    match spec_parse_wav_layout(head) {
        None => RecoveryPlan::NotWav,
        Some(layout) => {
            let (data_bytes, riff_size, data_size) = spec_recovered_sizes(file_len, layout);
            let data_end = layout.data_offset + data_bytes;
            if data_bytes == 0 {
                RecoveryPlan::Empty
            } else {
                RecoveryPlan::Repair {
                    riff_size,
                    data_size,
                    data_size_offset: layout.data_size_offset,
                    cut_to: if file_len - data_end < layout.block_align {
                        Some(data_end as u64)
                    } else {
                        None
                    },
                    pad: file_len - data_end < layout.block_align && data_bytes % 2 == 1,
                }
            }
        },
    }
}

/// Decide how to recover a file of `file_len` bytes whose first
/// `min(file_len, HEADER_PROBE_LEN)` bytes are `head`.
///
/// The sizes cover the whole frames after the header, capped so the RIFF
/// size fits its field. When less than a frame follows those frames (a torn
/// frame), the file is cut back to them, plus one zero pad byte when the
/// data length is odd. More audio than a header can describe is kept.
pub fn recovery_plan(file_len: u64, head: &[u8]) -> (r: RecoveryPlan)
    requires
        head@.len() <= HEADER_PROBE_LEN,
    ensures
        r == spec_recovery_plan(file_len, head@),
{
    let layout = match parse_wav_layout(head) {
        None => return RecoveryPlan::NotWav,
        Some(l) => l,
    };
    proof {
        lemma_parsed_layout_in_head(head@);
    }
    let (data_bytes, riff_size, data_size) = recovered_sizes(file_len, layout);
    if data_bytes == 0 {
        return RecoveryPlan::Empty;
    }
    let data_end = layout.data_offset + data_bytes;
    let torn = file_len - data_end < layout.block_align as u64;
    let cut_to = if torn {
        Some(data_end)
    } else {
        None
    };
    RecoveryPlan::Repair {
        riff_size,
        data_size,
        data_size_offset: layout.data_size_offset,
        cut_to,
        pad: torn && data_bytes % 2 == 1,
    }
}

/// A layout parsed from some bytes has its data chunk header within them.
proof fn lemma_walk_in_bounds(b: Seq<u8>, pos: int, ba: Option<u16>)
    requires
        spec_walk_some(b, pos, ba),
        b.len() <= HEADER_PROBE_LEN,
    ensures
        8 <= crate::wav::spec_walk(b, pos, ba)->0.data_offset <= b.len(),
        crate::wav::spec_walk(b, pos, ba)->0.data_offset >= pos + 8,
    decreases b.len() - pos,
{
    let size = crate::wav::u32_at(b, pos + 4) as int;
    let next = pos + 8 + size + size % 2;
    if b.subrange(pos, pos + 4) == crate::wav::data_tag() {
    } else if b.subrange(pos, pos + 4) == crate::wav::fmt_tag() {
        let v = crate::wav::u16_at(b, pos + 20);
        lemma_walk_in_bounds(
            b,
            next,
            if v > 0 {
                Some(v)
            } else {
                None
            },
        );
    } else {
        lemma_walk_in_bounds(b, next, ba);
    }
}

/// Whether the chunk walk from `pos` finds a layout.
pub open spec fn spec_walk_some(b: Seq<u8>, pos: int, ba: Option<u16>) -> bool {
    crate::wav::spec_walk(b, pos, ba) is Some
}

proof fn lemma_parsed_layout_in_head(head: Seq<u8>)
    requires
        spec_parse_wav_layout(head) is Some,
        head.len() <= HEADER_PROBE_LEN,
    ensures
        crate::wav::recoverable_layout(spec_parse_wav_layout(head)->0),
        spec_parse_wav_layout(head)->0.data_offset <= head.len(),
{
    lemma_walk_in_bounds(head, 12, None);
}

/// Recovery of a file this writer produced, whose header (with any size
/// fields) is followed by `audio`, points the header at every whole frame
/// of that audio, up to the most the `u32` size fields can describe: the
/// data size is the audio length (capped) rounded down to whole frames, the
/// RIFF size counts the header after its preamble, that data and a pad byte
/// for odd data. A torn trailing frame is cut off; a file without a whole
/// frame is deleted.
pub proof fn lemma_recovery_of_written_file(
    spec: crate::wav::WavSpec,
    bw: u8,
    riff_size: u32,
    data_size: u32,
    audio: Seq<u8>,
)
    requires
        crate::wav::spec_byte_width(spec.bits_per_sample) == Some(bw),
        spec.channels >= 1,
        crate::wav::spec_header_len(spec) + audio.len() <= u64::MAX,
    ensures
        ({
            let file = crate::wav::spec_header_sized(spec, bw, riff_size, data_size) + audio;
            let file_len = file.len();
            let head = file.take(
                if file_len < HEADER_PROBE_LEN {
                    file_len as int
                } else {
                    HEADER_PROBE_LEN as int
                },
            );
            let hl = crate::wav::spec_header_len(spec) as int;
            let ba = crate::wav::spec_block_align(spec, bw) as int;
            let n = audio.len() as int;
            let cap = u32::MAX - (hl - 8) - 1;
            let raw = if n < cap {
                n
            } else {
                cap
            };
            let frames = raw - raw % ba;
            spec_recovery_plan(file_len as u64, head) == if frames == 0 {
                RecoveryPlan::Empty
            } else {
                RecoveryPlan::Repair {
                    riff_size: (hl - 8 + frames + frames % 2) as u32,
                    data_size: frames as u32,
                    data_size_offset: (hl - 4) as u64,
                    cut_to: if n - frames < ba {
                        Some((hl + frames) as u64)
                    } else {
                        None
                    },
                    pad: n - frames < ba && frames % 2 == 1,
                }
            }
        }),
{
    let header = crate::wav::spec_header_sized(spec, bw, riff_size, data_size);
    crate::wav::lemma_header_len(spec, bw, riff_size, data_size);
    let file = header + audio;
    let file_len = file.len();
    let k: int = if file_len < HEADER_PROBE_LEN {
        file_len as int
    } else {
        HEADER_PROBE_LEN as int
    };
    let head = file.take(k);
    let hl = crate::wav::spec_header_len(spec) as int;
    assert(head =~= header + audio.take(k - hl));
    crate::wav::lemma_layout_of_written_file(spec, bw, riff_size, data_size, audio.take(k - hl));
    let ba = crate::wav::spec_block_align(spec, bw);
    assert(ba > 0) by (nonlinear_arith)
        requires
            spec.channels >= 1,
            bw >= 1,
            ba == crate::wav::spec_block_align(spec, bw),
    ;
    let layout = crate::wav::spec_written_layout(spec, bw);
    assert(spec_parse_wav_layout(head) == Some(layout));
    let n = audio.len() as int;
    let cap = u32::MAX - (hl - 8) - 1;
    let raw = if n < cap {
        n
    } else {
        cap
    };
    assert(0 <= raw % (ba as int) <= raw) by (nonlinear_arith)
        requires
            ba > 0,
            raw >= 0,
    ;
    let frames = raw - raw % (ba as int);
    assert(file_len - layout.data_offset == n);
    assert(spec_recovered_sizes(file_len as u64, layout) == (
        frames as u64,
        (hl - 8 + frames + frames % 2) as u32,
        frames as u32,
    ));
}

} // verus!
