//! Bookkeeping of a WAV file being written: how much audio it holds, which
//! frames it still owes, and what its header must say when it is flushed,
//! finalized or salvaged. The file I/O itself is done by the caller, which
//! reports each write's outcome here.
//!
//! Frames are written whole. In split mode each channel has its own file; a
//! frame that fails on one file is owed and written as silence once that
//! file accepts writes again, so every channel file keeps the same length
//! and sample `n` of each is the same instant.

use vstd::prelude::*;

use crate::wav::{
    create_header, header_sizes, le32, salvaged_data_len, spec_block_align, spec_byte_width,
    spec_header, spec_header_len, spec_header_sizes, WavSpec, EXTENSIBLE_HEADER_LEN,
    PCM_HEADER_LEN,
};

verus! {

/// Zero bytes owed frames are paid from at a time. 1020 is a multiple of
/// every sample width (1 to 4 bytes) and the longest frame (255 channels of
/// 32-bit samples).
pub const ZERO_CHUNK_LEN: usize = 1020;

/// The bytes a sample occupies in a file `byte_width` bytes per sample: the
/// low bytes of its little-endian form (all four for 32-bit, the low three
/// for 24-bit, two for 16-bit, one for 8-bit).
pub open spec fn spec_sample_bytes(sample: i32, byte_width: u8) -> Seq<u8> {
    le32(sample as u32).subrange(0, byte_width as int)
}

/// Appends the file bytes of `sample` to a frame being encoded.
pub fn push_sample(frame: &mut Vec<u8>, sample: i32, byte_width: u8)
    requires
        1 <= byte_width <= 4,
    ensures
        final(frame)@ == old(frame)@ + spec_sample_bytes(sample, byte_width),
{
    let v = sample as u32;
    frame.push((v & 0xff) as u8);
    if byte_width >= 2 {
        frame.push(((v >> 8u32) & 0xff) as u8);
    }
    if byte_width >= 3 {
        frame.push(((v >> 16u32) & 0xff) as u8);
    }
    if byte_width >= 4 {
        frame.push(((v >> 24u32) & 0xff) as u8);
    }
    assert(final(frame)@ =~= old(frame)@ + spec_sample_bytes(sample, byte_width));
}

/// The file bytes of the frame that picks `channels` (in that order) out
/// of the interleaved device frame starting at `start` in `samples`.
pub open spec fn spec_frame_bytes(samples: Seq<i32>, start: int, channels: Seq<usize>, byte_width: u8) -> Seq<u8>
    decreases channels.len(),
{
    if channels.len() == 0 {
        seq![]
    } else {
        spec_frame_bytes(samples, start, channels.drop_last(), byte_width) + spec_sample_bytes(
            samples[start + channels.last()],
            byte_width,
        )
    }
}

/// Encode one output frame: the samples of `channels`, in that order, out
/// of the interleaved device frame starting at `start`. In split mode each
/// file gets a one-channel frame.
pub fn encode_frame(samples: &[i32], start: usize, channels: &Vec<usize>, byte_width: u8) -> (r: Vec<u8>)
    requires
        1 <= byte_width <= 4,
        forall|i: int| 0 <= i < channels.len() ==> start + #[trigger] channels[i] < samples.len(),
    ensures
        r@ == spec_frame_bytes(samples@, start as int, channels@, byte_width),
        r@.len() == channels.len() * byte_width,
{
    let mut frame: Vec<u8> = Vec::new();
    let mut i: usize = 0;
    while i < channels.len()
        invariant
            1 <= byte_width <= 4,
            i <= channels.len(),
            forall|j: int| 0 <= j < channels.len() ==> start + #[trigger] channels[j] < samples.len(),
            frame@ == spec_frame_bytes(samples@, start as int, channels@.subrange(0, i as int), byte_width),
            frame@.len() == i * byte_width,
        decreases channels.len() - i,
    {
        let ch = channels[i];
        assert(start + channels[i as int] < samples.len());
        push_sample(&mut frame, samples[start + ch], byte_width);
        let ghost next = channels@.subrange(0, i + 1);
        assert(next.drop_last() =~= channels@.subrange(0, i as int));
        i = i + 1;
        assert(frame@.len() == i * byte_width) by (nonlinear_arith)
            requires
                frame@.len() == (i - 1) * byte_width + byte_width,
        ;
    }
    assert(channels@.subrange(0, channels.len() as int) =~= channels@);
    frame
}

/// The accounting of one WAV file being written.
pub struct WavWriterState {
    data_bytes_written: u64,
    byte_width: u8,
    block_align: u16,
    header_len: u64,
    owed_frames: u64,
}

/// The abstract state of a file being written.
pub struct WavWriterView {
    /// Audio bytes written so far (excluding the header).
    pub data_bytes: u64,
    /// Bytes per sample.
    pub byte_width: u8,
    /// Bytes per frame.
    pub block_align: u16,
    /// Length of the header the file starts with.
    pub header_len: u64,
    /// Frames that failed to write and are still owed as silence.
    pub owed_frames: u64,
}

impl View for WavWriterState {
    type V = WavWriterView;

    closed spec fn view(&self) -> WavWriterView {
        WavWriterView {
            data_bytes: self.data_bytes_written,
            byte_width: self.byte_width,
            block_align: self.block_align,
            header_len: self.header_len,
            owed_frames: self.owed_frames,
        }
    }
}

/// Bytes per frame, counting a zero block align as 1.
pub open spec fn frame_len(v: WavWriterView) -> int {
    if v.block_align == 0 {
        1
    } else {
        v.block_align as int
    }
}

/// Whole frames paid by one zero chunk: as many as fit the chunk, at least one.
pub open spec fn frames_per_chunk(v: WavWriterView) -> int {
    let per = (ZERO_CHUNK_LEN as int) / frame_len(v);
    if per < 1 {
        1
    } else {
        per
    }
}

/// The owed frames the next zero chunk pays.
pub open spec fn next_chunk_frames(v: WavWriterView) -> int {
    if v.owed_frames < frames_per_chunk(v) {
        v.owed_frames as int
    } else {
        frames_per_chunk(v)
    }
}

/// The length in bytes of the next zero chunk.
pub open spec fn next_chunk_len(v: WavWriterView) -> int {
    let len = next_chunk_frames(v) * frame_len(v);
    if len < ZERO_CHUNK_LEN {
        len
    } else {
        ZERO_CHUNK_LEN as int
    }
}

impl WavWriterState {
    /// Whether the state describes a file this writer created.
    pub open spec fn wf(&self) -> bool {
        &&& 1 <= self@.byte_width <= 4
        &&& (self@.header_len == PCM_HEADER_LEN || self@.header_len == EXTENSIBLE_HEADER_LEN)
    }

    /// Start a file with `spec`: the header bytes to write and the state of
    /// an empty file, or `None` when the bit depth is not 8, 16, 24 or 32.
    pub fn create(spec: WavSpec) -> (r: Option<(WavWriterState, Vec<u8>)>)
        ensures
            r is None <==> spec_byte_width(spec.bits_per_sample) is None,
            r matches Some((st, header)) ==> {
                &&& st.wf()
                &&& Some(st@.byte_width) == spec_byte_width(spec.bits_per_sample)
                &&& header@ == spec_header(spec, st@.byte_width)
                &&& st@.data_bytes == 0
                &&& st@.owed_frames == 0
                &&& st@.block_align == spec_block_align(spec, st@.byte_width)
                &&& st@.header_len == spec_header_len(spec)
                &&& header@.len() == st@.header_len
            },
    {
        match create_header(spec) {
            None => None,
            Some((header, bw)) => {
                let header_len: u64 = if spec.bits_per_sample > 16 || spec.channels > 2 {
                    EXTENSIBLE_HEADER_LEN
                } else {
                    PCM_HEADER_LEN
                };
                let st = WavWriterState {
                    data_bytes_written: 0,
                    byte_width: bw,
                    block_align: crate::wav::header_block_align(spec, bw),
                    header_len,
                    owed_frames: 0,
                };
                Some((st, header))
            },
        }
    }

    /// Audio bytes written so far (excluding the header).
    pub fn data_bytes(&self) -> (r: u64)
        ensures
            r == self@.data_bytes,
    {
        self.data_bytes_written
    }

    /// Bytes per sample: 1, 2, 3 or 4.
    pub fn byte_width(&self) -> (r: u8)
        ensures
            r == self@.byte_width,
    {
        self.byte_width
    }

    /// Bytes per frame.
    pub fn block_align(&self) -> (r: u16)
        ensures
            r == self@.block_align,
    {
        self.block_align
    }

    /// Length of the header the file starts with; the audio follows it.
    pub fn header_len(&self) -> (r: u64)
        ensures
            r == self@.header_len,
    {
        self.header_len
    }

    /// Frames still owed as silence.
    pub fn owed_frames(&self) -> (r: u64)
        ensures
            r == self@.owed_frames,
    {
        self.owed_frames
    }

    /// Record that `len` audio bytes reached the file.
    pub fn record_written(&mut self, len: usize)
        requires
            old(self)@.data_bytes + len <= u64::MAX,
        ensures
            final(self)@ == (WavWriterView { data_bytes: (old(self)@.data_bytes + len) as u64, ..old(self)@ }),
            final(self).wf() == old(self).wf(),
    {
        self.data_bytes_written = self.data_bytes_written + len as u64;
    }

    /// Record that a frame written in step with sibling files failed: it is
    /// owed as silence (the count saturates).
    pub fn record_frame_failed(&mut self)
        ensures
            final(self)@ == (WavWriterView {
                owed_frames: if old(self)@.owed_frames == u64::MAX {
                    u64::MAX
                } else {
                    (old(self)@.owed_frames + 1) as u64
                },
                ..old(self)@
            }),
            final(self).wf() == old(self).wf(),
    {
        if self.owed_frames < u64::MAX {
            self.owed_frames = self.owed_frames + 1;
        }
    }

    /// The length of the zero chunk that pays the next owed frames, or
    /// `None` when nothing is owed.
    pub fn next_zero_chunk(&self) -> (r: Option<usize>)
        ensures
            r is None <==> self@.owed_frames == 0,
            r matches Some(len) ==> len == next_chunk_len(self@) && 0 < len <= ZERO_CHUNK_LEN,
    {
        if self.owed_frames == 0 {
            return None;
        }
        let (_frames, len) = self.chunk_plan();
        Some(len)
    }

    fn chunk_plan(&self) -> (r: (u64, usize))
        requires
            self@.owed_frames > 0,
        ensures
            r.0 == next_chunk_frames(self@),
            r.1 == next_chunk_len(self@),
            0 < r.0 <= self@.owed_frames,
            0 < r.1 <= ZERO_CHUNK_LEN,
    {
        let frame: usize = if self.block_align == 0 {
            1
        } else {
            self.block_align as usize
        };
        let per: usize = if ZERO_CHUNK_LEN / frame < 1 {
            1
        } else {
            ZERO_CHUNK_LEN / frame
        };
        let frames: u64 = if self.owed_frames < per as u64 {
            self.owed_frames
        } else {
            per as u64
        };
        assert(frames * frame <= per * frame) by (nonlinear_arith)
            requires
                frames <= per,
                frame > 0,
        ;
        assert(per * frame <= 1020 || per == 1) by (nonlinear_arith)
            requires
                frame > 0,
                per == (if 1020usize / frame < 1 {
                    1
                } else {
                    1020usize / frame
                }),
        ;
        assert(frames * frame <= 65535 * 1020) by (nonlinear_arith)
            requires
                frames <= per,
                per * frame <= 1020 || per == 1,
                frame <= 65535,
        ;
        let product: usize = (frames as usize) * frame;
        let len: usize = if product < ZERO_CHUNK_LEN {
            product
        } else {
            ZERO_CHUNK_LEN
        };
        assert(product > 0) by (nonlinear_arith)
            requires
                frames > 0,
                frame > 0,
                product == frames * frame,
        ;
        (frames, len)
    }

    /// Record that the next zero chunk reached the file: its bytes count as
    /// audio and the frames it pays are no longer owed.
    pub fn record_zero_chunk_written(&mut self)
        requires
            old(self)@.owed_frames > 0,
            old(self)@.data_bytes + ZERO_CHUNK_LEN <= u64::MAX,
        ensures
            final(self)@ == (WavWriterView {
                data_bytes: (old(self)@.data_bytes + next_chunk_len(old(self)@)) as u64,
                owed_frames: (old(self)@.owed_frames - next_chunk_frames(old(self)@)) as u64,
                ..old(self)@
            }),
            final(self).wf() == old(self).wf(),
    {
        let (frames, len) = self.chunk_plan();
        self.data_bytes_written = self.data_bytes_written + len as u64;
        self.owed_frames = self.owed_frames - frames;
    }

    /// The RIFF and data sizes a flush writes: no pad byte, since more audio
    /// may follow.
    pub fn flush_sizes(&self) -> (r: (u32, u32))
        requires
            self.wf(),
        ensures
            r == spec_header_sizes(self@.data_bytes, false, self@.header_len),
    {
        header_sizes(self.data_bytes_written, false, self.header_len)
    }

    /// What finalizing writes: whether a zero pad byte follows an
    /// odd-length data chunk, and the RIFF and data sizes (the RIFF size
    /// counts the pad byte, the data size does not).
    pub fn finalize_plan(&self) -> (r: (bool, u32, u32))
        requires
            self.wf(),
        ensures
            r.0 == (self@.data_bytes % 2 == 1),
            (r.1, r.2) == spec_header_sizes(self@.data_bytes, r.0, self@.header_len),
    {
        let pad = self.data_bytes_written % 2 == 1;
        let (riff, data) = header_sizes(self.data_bytes_written, pad, self.header_len);
        (pad, riff, data)
    }

    /// The RIFF and data sizes written after a failed flush, for a file that
    /// is `file_len` bytes long on disk: only whole frames that both reached
    /// the file and were counted.
    pub fn salvage_sizes(&self, file_len: u64) -> (r: (u32, u32))
        requires
            self.wf(),
        ensures
            ({
                let on_disk = if file_len >= self@.header_len {
                    file_len - self@.header_len
                } else {
                    0
                };
                let m = if on_disk < self@.data_bytes {
                    on_disk
                } else {
                    self@.data_bytes as int
                };
                let a = if self@.block_align == 0 {
                    1u16
                } else {
                    self@.block_align
                };
                r == spec_header_sizes((m - m % (a as int)) as u64, false, self@.header_len)
            }),
    {
        let on_disk = if file_len >= self.header_len {
            file_len - self.header_len
        } else {
            0
        };
        let data = salvaged_data_len(on_disk, self.data_bytes_written, self.block_align);
        header_sizes(data, false, self.header_len)
    }
}

// ---------------------------------------------------------------------------
// Laws
// ---------------------------------------------------------------------------

/// Frames written in step stay in step: if a file's audio plus its owed
/// frames equal `n` frames, then after writing one more frame (`ok`), or
/// failing to (`!ok`), they equal `n + 1` frames; and paying owed frames
/// as silence keeps them equal. So once a file owes nothing it holds exactly
/// the frames attempted, like its sibling files. (Frames are at most
/// `ZERO_CHUNK_LEN` bytes and the counts stay below the `u64` limits.)
pub proof fn lemma_in_step_accounting(v: WavWriterView, n: int, ok: bool)
    requires
        1 <= v.block_align <= ZERO_CHUNK_LEN,
        v.data_bytes + v.owed_frames * v.block_align == n * v.block_align,
        v.data_bytes + v.block_align <= u64::MAX,
        v.owed_frames < u64::MAX,
    ensures
        ok ==> (v.data_bytes + v.block_align) + v.owed_frames * v.block_align == (n + 1)
            * v.block_align,
        !ok ==> v.data_bytes + (v.owed_frames + 1) * v.block_align == (n + 1) * v.block_align,
        v.owed_frames > 0 ==> (v.data_bytes + next_chunk_len(v)) + (v.owed_frames
            - next_chunk_frames(v)) * v.block_align == n * v.block_align,
{
    assert((n + 1) * v.block_align == n * v.block_align + v.block_align) by (nonlinear_arith);
    assert((v.owed_frames + 1) * v.block_align == v.owed_frames * v.block_align + v.block_align)
        by (nonlinear_arith);
    if v.owed_frames > 0 {
        let fl = v.block_align as int;
        let per = frames_per_chunk(v);
        let frames = next_chunk_frames(v);
        assert(per * fl <= ZERO_CHUNK_LEN) by (nonlinear_arith)
            requires
                1 <= fl <= 1020,
                per == (if 1020int / fl < 1 {
                    1
                } else {
                    1020int / fl
                }),
        ;
        assert(frames * fl <= per * fl) by (nonlinear_arith)
            requires
                frames <= per,
                fl >= 1,
        ;
        assert(next_chunk_len(v) == frames * fl);
        assert((v.owed_frames - frames) * fl == v.owed_frames * fl - frames * fl) by (
        nonlinear_arith);
    }
}

/// A finalized file ends on a word boundary: the header, the audio and the
/// pad byte that `finalize_plan` adds after odd-length audio have an even
/// total length, as RIFF requires.
pub proof fn lemma_finalized_file_is_word_aligned(v: WavWriterView)
    requires
        v.header_len == PCM_HEADER_LEN || v.header_len == EXTENSIBLE_HEADER_LEN,
    ensures
        (v.header_len + v.data_bytes + (if v.data_bytes % 2 == 1 {
            1int
        } else {
            0int
        })) % 2 == 0,
{
}

/// The state after the next zero chunk paid owed frames (see
/// [`WavWriterState::record_zero_chunk_written`]).
pub open spec fn spec_after_zero_chunk(v: WavWriterView) -> WavWriterView {
    WavWriterView {
        data_bytes: (v.data_bytes + next_chunk_len(v)) as u64,
        owed_frames: (v.owed_frames - next_chunk_frames(v)) as u64,
        ..v
    }
}

/// The state after up to `j` zero chunks, stopping once nothing is owed.
pub open spec fn spec_after_zero_chunks(v: WavWriterView, j: nat) -> WavWriterView
    decreases j,
{
    if j == 0 || v.owed_frames == 0 {
        v
    } else {
        spec_after_zero_chunks(spec_after_zero_chunk(v), (j - 1) as nat)
    }
}

/// The state after one frame written in step with sibling files:
/// `None` when the call succeeded (every owed frame was paid, then the
/// frame written, see [`WavWriterState::record_written`]); `Some(j)` when
/// it failed after paying `j` zero chunks (the frame is then owed, see
/// [`WavWriterState::record_frame_failed`]).
pub open spec fn spec_after_in_step(v: WavWriterView, outcome: Option<nat>) -> WavWriterView {
    match outcome {
        None => {
            let paid = spec_after_zero_chunks(v, v.owed_frames as nat);
            WavWriterView { data_bytes: (paid.data_bytes + v.block_align) as u64, ..paid }
        },
        Some(j) => {
            let paid = spec_after_zero_chunks(v, j);
            WavWriterView {
                owed_frames: if paid.owed_frames == u64::MAX {
                    u64::MAX
                } else {
                    (paid.owed_frames + 1) as u64
                },
                ..paid
            }
        },
    }
}

/// The state after a run of in-step frame writes, in order.
pub open spec fn spec_after_in_steps(v: WavWriterView, outcomes: Seq<Option<nat>>) -> WavWriterView
    decreases outcomes.len(),
{
    if outcomes.len() == 0 {
        v
    } else {
        spec_after_in_step(spec_after_in_steps(v, outcomes.drop_last()), outcomes.last())
    }
}

proof fn lemma_zero_chunks_keep_accounting(v: WavWriterView, n: int, j: nat)
    requires
        1 <= v.block_align <= ZERO_CHUNK_LEN,
        v.data_bytes + v.owed_frames * v.block_align == n * v.block_align,
        n * v.block_align <= u64::MAX,
        v.owed_frames < u64::MAX,
    ensures
        ({
            let w = spec_after_zero_chunks(v, j);
            &&& w.data_bytes + w.owed_frames * w.block_align == n * v.block_align
            &&& w.block_align == v.block_align
            &&& w.owed_frames <= v.owed_frames
            &&& (j >= v.owed_frames ==> w.owed_frames == 0)
        }),
    decreases j,
{
    if j > 0 && v.owed_frames > 0 {
        let b = v.block_align as int;
        assert(v.owed_frames * b >= b) by (nonlinear_arith)
            requires
                v.owed_frames >= 1,
                b >= 1,
        ;
        lemma_in_step_accounting(v, n, true);
        let per = frames_per_chunk(v);
        assert(per >= 1);
        assert(next_chunk_frames(v) >= 1);
        let w = spec_after_zero_chunk(v);
        assert(w.data_bytes == v.data_bytes + next_chunk_len(v));
        assert(w.owed_frames == v.owed_frames - next_chunk_frames(v));
        lemma_zero_chunks_keep_accounting(w, n, (j - 1) as nat);
    }
}

/// Files written in step stay in step over any run of frames: if a file's
/// audio plus its owed frames make `n` frames before the run, then after
/// `k` in-step writes, each succeeding or failing (after paying some owed
/// frames), they make `n + k` frames, and after a write that succeeded
/// nothing is owed. So every channel file of a split recording has the
/// same length once its writes succeed again. (Frames are at most
/// `ZERO_CHUNK_LEN` bytes, and the counts stay within their `u64` fields.)
pub proof fn lemma_in_step_run(v: WavWriterView, n: int, outcomes: Seq<Option<nat>>)
    requires
        1 <= v.block_align <= ZERO_CHUNK_LEN,
        n >= 0,
        v.data_bytes + v.owed_frames * v.block_align == n * v.block_align,
        (n + outcomes.len()) * v.block_align <= u64::MAX,
        v.owed_frames + outcomes.len() < u64::MAX,
    ensures
        ({
            let w = spec_after_in_steps(v, outcomes);
            &&& w.data_bytes + w.owed_frames * w.block_align == (n + outcomes.len())
                * v.block_align
            &&& w.block_align == v.block_align
            &&& w.owed_frames <= v.owed_frames + outcomes.len()
            &&& (outcomes.len() > 0 && outcomes.last() is None ==> w.owed_frames == 0)
        }),
    decreases outcomes.len(),
{
    if outcomes.len() > 0 {
        let k = outcomes.len() - 1;
        let before = outcomes.drop_last();
        let b = v.block_align as int;
        assert((n + k) * b <= (n + outcomes.len()) * b) by (nonlinear_arith)
            requires
                b >= 1,
                k == outcomes.len() - 1,
        ;
        lemma_in_step_run(v, n, before);
        let u = spec_after_in_steps(v, before);
        assert((n + k) * b >= 0) by (nonlinear_arith)
            requires
                b >= 1,
                n >= 0,
                k >= 0,
        ;
        assert((n + outcomes.len()) * b == (n + k) * b + b) by (nonlinear_arith)
            requires
                k == outcomes.len() - 1,
        ;
        match outcomes.last() {
            None => {
                lemma_zero_chunks_keep_accounting(u, n + k, u.owed_frames as nat);
            },
            Some(j) => {
                lemma_zero_chunks_keep_accounting(u, n + k, j);
                let p = spec_after_zero_chunks(u, j);
                assert((p.owed_frames + 1) * b == p.owed_frames * b + b) by (nonlinear_arith);
            },
        }
    }
}

} // verus!
