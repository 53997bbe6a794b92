//! File-rotation timing and ring-buffer admission for the capture callback.
//!
//! In continuous mode the capture callback counts interleaved samples and
//! flags a rotation each time a cadence period of samples has arrived. The
//! counter carries the overshoot past each boundary, so rotation `n` lands
//! within one callback of `n * cadence`. The callback then pushes its batch
//! into the ring buffer the writer thread drains, whole frames only.

use vstd::arithmetic::div_mod::{lemma_fundamental_div_mod, lemma_fundamental_div_mod_converse};
use vstd::prelude::*;

verus! {

/// Rotation threshold in interleaved samples for one cadence period.
pub open spec fn spec_rotation_threshold(
    sample_rate: u32,
    total_channels: usize,
    recording_cadence_secs: u64,
) -> int {
    sample_rate * total_channels * recording_cadence_secs
}

/// Rotation threshold in interleaved samples for one cadence period:
/// `sample_rate * total_channels * recording_cadence_secs`. The channel
/// factor keeps rotation on the same wall clock whatever the device's
/// channel count, since the callback counts samples across all channels.
pub fn rotation_threshold_samples(
    sample_rate: u32,
    total_channels: usize,
    recording_cadence_secs: u64,
) -> (r: u64)
    requires
        sample_rate * total_channels <= u64::MAX,
        spec_rotation_threshold(sample_rate, total_channels, recording_cadence_secs) <= u64::MAX,
    ensures
        r == spec_rotation_threshold(sample_rate, total_channels, recording_cadence_secs),
{
    (sample_rate as u64) * (total_channels as u64) * recording_cadence_secs
}

/// The counter after one batch, and whether a rotation is due.
pub open spec fn spec_advance(counter: u64, batch_len: usize, threshold: u64) -> (u64, bool) {
    let sum = if counter + batch_len > u64::MAX {
        u64::MAX as int
    } else {
        counter + batch_len
    };
    if sum >= threshold {
        (
            if threshold == 0 {
                0u64
            } else {
                (sum % (threshold as int)) as u64
            },
            true,
        )
    } else {
        (sum as u64, false)
    }
}

/// Advance the rotation counter by one callback batch of `batch_len`
/// interleaved samples; returns true when the counter reached `threshold`
/// (a rotation is due). The overshoot past `threshold` is carried into the
/// next period, modulo `threshold`, so a batch longer than a whole period
/// flags one rotation instead of a backlog; a zero threshold fires on every
/// batch and leaves the counter at 0. The addition saturates.
pub fn advance_rotation_counter(counter: &mut u64, batch_len: usize, threshold: u64) -> (r: bool)
    ensures
        (*final(counter), r) == spec_advance(*old(counter), batch_len, threshold),
{
    let batch = batch_len as u64;
    let sum: u64 = if *counter > u64::MAX - batch {
        u64::MAX
    } else {
        *counter + batch
    };
    if sum >= threshold {
        *counter = if threshold == 0 {
            0
        } else {
            sum % threshold
        };
        true
    } else {
        *counter = sum;
        false
    }
}

/// Rotation boundaries do not drift: if the counter holds the samples seen
/// so far modulo the threshold, then after a batch it holds the new total
/// modulo the threshold, and the batch flags a rotation exactly when the
/// total crossed a multiple of the threshold. So rotation `n` fires on the
/// batch during which sample `n * threshold` arrived, however many periods
/// have passed. (A batch that crosses several boundaries flags once.)
pub proof fn lemma_rotation_tracks_total(consumed: int, counter: u64, batch_len: usize, threshold: u64)
    requires
        consumed >= 0,
        threshold > 0,
        counter == consumed % (threshold as int),
        counter + batch_len <= u64::MAX,
    ensures
        spec_advance(counter, batch_len, threshold).0 == (consumed + batch_len) % (
        threshold as int),
        spec_advance(counter, batch_len, threshold).1 == ((consumed + batch_len) / (
        threshold as int) > consumed / (threshold as int)),
{
    let t = threshold as int;
    let q = consumed / t;
    lemma_fundamental_div_mod(consumed, t);
    let total: int = consumed + batch_len;
    let sum: int = counter + batch_len;
    if sum >= t {
        // total = q * t + sum, with t <= sum; sum % t is the remainder.
        lemma_fundamental_div_mod(sum, t);
        let q2 = sum / t;
        let r2 = sum % t;
        assert(0 <= r2 < t) by {
            vstd::arithmetic::div_mod::lemma_mod_bound(sum, t);
        }
        assert(total == (q + q2) * t + r2) by (nonlinear_arith)
            requires
                total == q * t + counter + batch_len,
                sum == counter + batch_len,
                sum == t * q2 + r2,
        ;
        lemma_fundamental_div_mod_converse(total, t, q + q2, r2);
        assert(q2 >= 1) by (nonlinear_arith)
            requires
                sum >= t,
                sum == t * q2 + r2,
                r2 < t,
                t > 0,
        ;
    } else {
        assert(total == q * t + sum) by (nonlinear_arith)
            requires
                consumed == t * q + counter,
                total == consumed + batch_len,
                sum == counter + batch_len,
        ;
        lemma_fundamental_div_mod_converse(total, t, q, sum);
    }
}

/// The counter after `k` batches of `batch_len` samples, starting from 0,
/// and how many of those batches flagged a rotation.
pub open spec fn spec_run(batch_len: usize, threshold: u64, k: nat) -> (u64, nat)
    decreases k,
{
    if k == 0 {
        (0u64, 0nat)
    } else {
        let (counter, fired) = spec_run(batch_len, threshold, (k - 1) as nat);
        let (next, now) = spec_advance(counter, batch_len, threshold);
        (next, if now {
            fired + 1
        } else {
            fired
        })
    }
}

/// Whether the `k`-th batch (counting from 1) flags a rotation.
pub open spec fn spec_fires_on(batch_len: usize, threshold: u64, k: nat) -> bool {
    spec_advance(spec_run(batch_len, threshold, (k - 1) as nat).0, batch_len, threshold).1
}

proof fn lemma_one_boundary_per_batch(x: int, b: int, t: int)
    requires
        x >= 0,
        0 < b <= t,
    ensures
        x / t <= (x + b) / t <= x / t + 1,
{
    lemma_fundamental_div_mod(x, t);
    lemma_fundamental_div_mod(x + b, t);
    vstd::arithmetic::div_mod::lemma_mod_bound(x, t);
    vstd::arithmetic::div_mod::lemma_mod_bound(x + b, t);
    let q1 = x / t;
    let q2 = (x + b) / t;
    assert(q1 <= q2 <= q1 + 1) by (nonlinear_arith)
        requires
            x == t * q1 + x % t,
            x + b == t * q2 + (x + b) % t,
            0 <= x % t < t,
            0 <= (x + b) % t < t,
            0 < b <= t,
    ;
}

/// Rotation boundaries do not drift over a whole session: with batches of
/// `batch_len` samples (at most one period each) and a counter starting at
/// 0, after `k` batches the counter is the `k * batch_len` samples seen
/// modulo the threshold and exactly `k * batch_len / threshold` rotations
/// have been flagged; and when the `k`-th batch flags rotation `n`, that
/// batch is the one during which sample `n * threshold` arrived:
/// `n * threshold <= k * batch_len < n * threshold + batch_len`.
pub proof fn lemma_rotation_no_drift(batch_len: usize, threshold: u64, k: nat)
    requires
        0 < batch_len <= threshold,
        threshold + batch_len <= u64::MAX,
    ensures
        spec_run(batch_len, threshold, k).0 == (k * batch_len) % (threshold as int),
        spec_run(batch_len, threshold, k).1 == (k * batch_len) / (threshold as int),
        k >= 1 && spec_fires_on(batch_len, threshold, k) ==> ({
            let n = spec_run(batch_len, threshold, k).1;
            n * threshold <= k * batch_len < n * threshold + batch_len
        }),
    decreases k,
{
    let t = threshold as int;
    let b = batch_len as int;
    if k > 0 {
        let j = (k - 1) as nat;
        lemma_rotation_no_drift(batch_len, threshold, j);
        let consumed = j * b;
        assert(consumed >= 0) by (nonlinear_arith)
            requires
                b > 0,
                j >= 0,
                consumed == j * b,
        ;
        assert(k * b == consumed + b) by (nonlinear_arith)
            requires
                consumed == j * b,
                k == j + 1,
        ;
        let counter = spec_run(batch_len, threshold, j).0;
        vstd::arithmetic::div_mod::lemma_mod_bound(consumed, t);
        lemma_rotation_tracks_total(consumed, counter, batch_len, threshold);
        lemma_one_boundary_per_batch(consumed, b, t);
        let n = (k * b) / t;
        lemma_fundamental_div_mod(k * b, t);
        lemma_fundamental_div_mod(consumed, t);
        vstd::arithmetic::div_mod::lemma_mod_bound(k * b, t);
        if spec_fires_on(batch_len, threshold, k) {
            assert(n * t <= k * b < n * t + b) by (nonlinear_arith)
                requires
                    k * b == t * n + (k * b) % t,
                    0 <= (k * b) % t < t,
                    consumed == t * (consumed / t) + consumed % t,
                    0 <= consumed % t,
                    consumed / t == n - 1,
                    k * b == consumed + b,
            ;
        }
    }
}

/// A zero threshold (a zero cadence) fires on every batch and never
/// accumulates.
pub proof fn lemma_zero_threshold_fires_every_batch(counter: u64, batch_len: usize)
    ensures
        spec_advance(counter, batch_len, 0) == (0u64, true),
{
}

/// Wall-clock equivalence across channel counts: counting interleaved
/// samples of `channels` channels against a threshold scaled by the same
/// channel count fires on exactly the same batches as counting frames
/// against the unscaled threshold.
pub proof fn lemma_rotation_channel_invariant(
    frames_seen: nat,
    batch_frames: nat,
    frame_threshold: nat,
    channels: nat,
)
    requires
        frame_threshold > 0,
        channels > 0,
    ensures
        ((frames_seen + batch_frames) * channels) / (frame_threshold * channels) > (frames_seen
            * channels) / (frame_threshold * channels) <==> (frames_seen + batch_frames)
            / frame_threshold > frames_seen / frame_threshold,
{
    lemma_scaled_div(frames_seen + batch_frames, frame_threshold, channels);
    lemma_scaled_div(frames_seen, frame_threshold, channels);
}

proof fn lemma_scaled_div(x: nat, d: nat, c: nat)
    requires
        d > 0,
        c > 0,
    ensures
        (x * c) / (d * c) == x / d,
{
    let q = x / d;
    let r = x % d;
    lemma_fundamental_div_mod(x as int, d as int);
    vstd::arithmetic::div_mod::lemma_mod_bound(x as int, d as int);
    assert(x * c == q * (d * c) + r * c) by (nonlinear_arith)
        requires
            x == d * q + r,
    ;
    assert(0 <= r * c < d * c) by (nonlinear_arith)
        requires
            0 <= r < d,
            c > 0,
    ;
    lemma_fundamental_div_mod_converse((x * c) as int, (d * c) as int, q as int, (r * c) as int);
}

/// Longest accepted rotation cadence in seconds: the largest for which
/// `sample_rate * channels * cadence` fits a `u64` for every `u32` rate
/// and up to `MAX_CHANNELS` channels.
pub proof fn lemma_threshold_fits(sample_rate: u32, total_channels: usize, cadence: u64)
    requires
        total_channels <= crate::constants::MAX_CHANNELS,
        cadence <= crate::constants::MAX_RECORDING_CADENCE,
    ensures
        sample_rate * total_channels <= u64::MAX,
        spec_rotation_threshold(sample_rate, total_channels, cadence) <= u64::MAX,
{
    assert(sample_rate * total_channels <= 4294967295 * 255) by (nonlinear_arith)
        requires
            sample_rate <= 4294967295,
            total_channels <= 255,
    ;
    assert(sample_rate * total_channels * cadence <= 4294967295 * 255 * 16843009) by (
    nonlinear_arith)
        requires
            sample_rate * total_channels <= 4294967295 * 255,
            sample_rate * total_channels >= 0,
            cadence <= 16843009,
    ;
}

// ---------------------------------------------------------------------------
// Ring-buffer admission
// ---------------------------------------------------------------------------

/// How many samples of a `data_len`-sample batch go into a ring with
/// `slots` free slots: all of them if they fit, else the most whole frames
/// of `frame_size` samples (0 counts as 1) that fit.
pub open spec fn spec_accepted_samples(data_len: usize, slots: usize, frame_size: usize) -> int {
    let f = if frame_size == 0 {
        1
    } else {
        frame_size as int
    };
    if data_len <= slots {
        data_len as int
    } else {
        (slots as int) - (slots as int) % f
    }
}

/// How many samples of a `data_len`-sample batch to push into a ring with
/// `slots` free slots. Only whole frames are accepted on overflow, so the
/// interleaved stream stays aligned on a frame boundary.
pub fn accepted_samples(data_len: usize, slots: usize, frame_size: usize) -> (r: usize)
    ensures
        r == spec_accepted_samples(data_len, slots, frame_size),
        r <= data_len,
        r <= slots,
        data_len > slots && frame_size > 0 ==> r % frame_size == 0 && slots - r < frame_size,
{
    let f: usize = if frame_size == 0 {
        1
    } else {
        frame_size
    };
    if data_len <= slots {
        data_len
    } else {
        assert(slots % f <= slots && ((slots - slots % f) as usize) % f == 0 && slots % f < f) by (
        nonlinear_arith)
            requires
                f > 0,
        ;
        slots - slots % f
    }
}

#[verifier::external_type_specification]
#[verifier::external_body]
#[verifier::reject_recursive_types(T)]
pub struct ExProducer<T>(rtrb::Producer<T>);

/// The free slots of the ring, from `rtrb::Producer::slots`.
///
/// The consumer frees slots concurrently on another thread, so nothing is
/// stated of the result.
#[verifier::external_body]
fn ring_slots<T>(producer: &rtrb::Producer<T>) -> usize {
    producer.slots()
}

/// Push as much of `samples` as fits, with
/// `rtrb::Producer::push_partial_slice`, and return how many samples were
/// not pushed. That function splits `samples` at the number of free slots
/// (at most `samples.len()`) and pushes the first part, so the unpushed
/// count is at most `samples.len()`.
#[verifier::external_body]
fn ring_push_partial<T: Copy>(producer: &mut rtrb::Producer<T>, samples: &[T]) -> (unpushed: usize)
    ensures
        unpushed <= samples@.len(),
{
    let (_, rest) = producer.push_partial_slice(samples);
    rest.len()
}

/// Adds `n` to a shared counter (relaxed: only the total matters).
fn add_to_counter(counter: &std::sync::atomic::AtomicU64, n: u64) {
    counter.fetch_add(n, std::sync::atomic::Ordering::Relaxed);
}

/// The rejected samples of a `len`-sample batch pushed into a ring that
/// reported `slots` free slots and left `unpushed` of the accepted ones.
pub open spec fn spec_rejected_by(len: nat, slots: usize, frame_size: usize, unpushed: usize) -> int {
    len - spec_accepted_samples(len as usize, slots, frame_size) + unpushed
}

/// The samples of a batch of `data_len` that the ring did not take: those
/// refused before the push (`data_len - accepted`) and those of the
/// `accepted` prefix the ring left unpushed.
pub fn rejected_count(data_len: usize, accepted: usize, unpushed: usize) -> (r: u64)
    requires
        unpushed <= accepted <= data_len,
    ensures
        r == data_len - accepted + unpushed,
{
    (data_len - accepted + unpushed) as u64
}

/// Push a batch of interleaved samples into the ring and count the
/// rejected suffix in `write_errors`; returns that count: the samples
/// [`accepted_samples`] refused for the free slots the ring reported, plus
/// any of the accepted ones the ring did not take, for some count of free
/// slots the ring reported. That count changes as the consumer drains the
/// ring concurrently, so it is not fixed by the arguments; the atomic
/// counter is not modelled.
///
/// Only whole frames of `frame_size` samples are accepted on overflow
/// (see [`accepted_samples`]), so the stream stays frame-aligned; the whole
/// rejected tail, partial frame included, is counted. At most one atomic
/// add, so this is safe on the real-time capture thread.
pub fn push_samples_with_overflow_count<T: Copy>(
    producer: &mut rtrb::Producer<T>,
    data: &[T],
    frame_size: usize,
    write_errors: &std::sync::atomic::AtomicU64,
) -> (rejected: u64)
    ensures
        rejected <= data@.len(),
        exists|slots: usize, unpushed: usize|
            unpushed <= spec_accepted_samples(data@.len() as usize, slots, frame_size)
                && rejected == #[trigger] spec_rejected_by(data@.len(), slots, frame_size, unpushed),
{
    let slots = ring_slots(producer);
    let accepted = accepted_samples(data.len(), slots, frame_size);
    let (head, _) = data.split_at(accepted);
    let unpushed = ring_push_partial(producer, head);
    let rejected = rejected_count(data.len(), accepted, unpushed);
    assert(rejected == spec_rejected_by(data@.len(), slots, frame_size, unpushed));
    if rejected > 0 {
        add_to_counter(write_errors, rejected);
    }
    rejected
}

} // verus!
