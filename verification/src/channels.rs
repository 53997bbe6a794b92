//! Channel selection: parsing the configured channel list and matching it
//! against the channels an input device has.
//!
//! A channel list is a comma-separated list of 0-based channel numbers and
//! inclusive ranges, such as `0,2-4,7`. Surrounding ASCII whitespace of
//! each item is ignored. The result is the set of listed channels, sorted
//! and without repeats.

use vstd::prelude::*;

use crate::constants::MAX_CHANNELS;
use crate::error::BlackboxError;
use crate::text::{
    chars_of, parse_decimal, push_str, spec_parse_decimal, spec_split, spec_trim, split, trim,
};

verus! {

/// A channel number: decimal digits (after trimming) that fit a `usize`.
pub open spec fn spec_channel_number(s: Seq<char>) -> Option<nat> {
    spec_parse_decimal(spec_trim(s), usize::MAX as nat)
}

/// The inclusive range one list item names: `n` names `n..=n`, `a-b` names
/// `a..=b` and needs `a <= b`; anything else is invalid.
pub open spec fn spec_parse_item(item: Seq<char>) -> Option<(nat, nat)> {
    let pieces = spec_split(spec_trim(item), '-');
    if pieces.len() == 1 {
        match spec_channel_number(pieces[0]) {
            Some(n) => Some((n, n)),
            None => None,
        }
    } else if pieces.len() == 2 {
        match (spec_channel_number(pieces[0]), spec_channel_number(pieces[1])) {
            (Some(a), Some(b)) => if a <= b {
                Some((a, b))
            } else {
                None
            },
            _ => None,
        }
    } else {
        None
    }
}

/// The channels in `lo..=hi`.
pub open spec fn spec_range_set(lo: nat, hi: nat) -> Set<usize> {
    Set::new(|n: usize| lo <= n && n <= hi)
}

/// The channels the items name, together.
pub open spec fn spec_items_set(items: Seq<Seq<char>>) -> Set<usize>
    decreases items.len(),
{
    if items.len() == 0 {
        Set::empty()
    } else {
        spec_items_set(items.drop_last()) + match spec_parse_item(items.last()) {
            Some((lo, hi)) => spec_range_set(lo, hi),
            None => Set::empty(),
        }
    }
}

/// Whether every item of the list is valid.
pub open spec fn spec_items_valid(items: Seq<Seq<char>>) -> bool {
    forall|k: int| 0 <= k < items.len() ==> (#[trigger] spec_parse_item(items[k])) is Some
}

/// The channels a channel list names.
pub open spec fn spec_channel_set(s: Seq<char>) -> Set<usize> {
    spec_items_set(spec_split(s, ','))
}

/// Whether a channel list is well formed.
pub open spec fn spec_channel_list_valid(s: Seq<char>) -> bool {
    spec_items_valid(spec_split(s, ','))
}

/// Whether a sequence is in strictly increasing order.
pub open spec fn strictly_increasing(s: Seq<usize>) -> bool {
    forall|i: int, j: int| 0 <= i < j < s.len() ==> s[i] < s[j]
}

/// The channels in `lo..hi`.
pub open spec fn spec_range_below(lo: nat, hi: nat) -> Set<usize> {
    Set::new(|n: usize| lo <= n && n < hi)
}

// ---------------------------------------------------------------------------
// Set facts
// ---------------------------------------------------------------------------

proof fn lemma_increasing_no_duplicates(s: Seq<usize>)
    requires
        strictly_increasing(s),
    ensures
        s.no_duplicates(),
{
    assert forall|i: int, j: int| 0 <= i < s.len() && 0 <= j < s.len() && i != j implies s[i]
        != s[j] by {
        if i < j {
        } else {
        }
    }
}

proof fn lemma_range_finite(lo: nat, hi: nat)
    ensures
        spec_range_set(lo, hi).finite(),
    decreases hi,
{
    if hi == 0 || hi < lo {
        if lo > hi {
            assert(spec_range_set(lo, hi) =~= Set::empty());
        } else {
            assert(spec_range_set(lo, hi) =~= Set::empty().insert(0usize));
        }
    } else {
        lemma_range_finite(lo, (hi - 1) as nat);
        if hi <= usize::MAX {
            assert(spec_range_set(lo, hi) =~= spec_range_set(lo, (hi - 1) as nat).insert(
                hi as usize,
            ));
        } else {
            assert(spec_range_set(lo, hi) =~= spec_range_set(lo, (hi - 1) as nat).union(
                spec_range_set(lo, hi),
            ));
            lemma_range_over_max_finite(lo, hi);
        }
    }
}

proof fn lemma_range_over_max_finite(lo: nat, hi: nat)
    requires
        hi > usize::MAX,
    ensures
        spec_range_set(lo, hi).finite(),
{
    lemma_range_finite_upto(lo, usize::MAX as nat);
    assert(spec_range_set(lo, hi) =~= spec_range_set(lo, usize::MAX as nat));
}

proof fn lemma_range_finite_upto(lo: nat, hi: nat)
    requires
        hi <= usize::MAX,
    ensures
        spec_range_set(lo, hi).finite(),
    decreases hi,
{
    if hi == 0 || hi < lo {
        if lo > hi {
            assert(spec_range_set(lo, hi) =~= Set::empty());
        } else {
            assert(spec_range_set(lo, hi) =~= Set::empty().insert(0usize));
        }
    } else {
        lemma_range_finite_upto(lo, (hi - 1) as nat);
        assert(spec_range_set(lo, hi) =~= spec_range_set(lo, (hi - 1) as nat).insert(hi as usize));
    }
}

proof fn lemma_items_set_finite(items: Seq<Seq<char>>)
    ensures
        spec_items_set(items).finite(),
    decreases items.len(),
{
    if items.len() > 0 {
        lemma_items_set_finite(items.drop_last());
        match spec_parse_item(items.last()) {
            Some((lo, hi)) => {
                lemma_range_finite(lo, hi);
            },
            None => {},
        }
    }
}

proof fn lemma_items_set_prefix(items: Seq<Seq<char>>, k: int)
    requires
        0 <= k <= items.len(),
    ensures
        spec_items_set(items.subrange(0, k)).subset_of(spec_items_set(items)),
    decreases items.len() - k,
{
    if k < items.len() {
        assert(items.drop_last() =~= items.subrange(0, items.len() - 1));
        lemma_items_set_prefix(items.drop_last(), k);
        assert(items.drop_last().subrange(0, k) =~= items.subrange(0, k));
    } else {
        assert(items.subrange(0, k) =~= items);
    }
}

// ---------------------------------------------------------------------------
// Parsing
// ---------------------------------------------------------------------------

fn parse_channel_number(s: &Vec<char>) -> (r: Option<usize>)
    ensures
        r is Some <==> spec_channel_number(s@) is Some,
        r matches Some(n) ==> n == spec_channel_number(s@)->0,
{
    let t = trim(s);
    match parse_decimal(&t, usize::MAX as u64) {
        Some(v) => Some(v as usize),
        None => None,
    }
}

fn parse_item(item: &Vec<char>) -> (r: Option<(usize, usize)>)
    ensures
        r is Some <==> spec_parse_item(item@) is Some,
        r matches Some((a, b)) ==> (a as nat, b as nat) == spec_parse_item(item@)->0,
{
    let t = trim(item);
    let pieces = split(&t, '-');
    if pieces.len() == 1 {
        match parse_channel_number(&pieces[0]) {
            Some(n) => Some((n, n)),
            None => None,
        }
    } else if pieces.len() == 2 {
        let a = parse_channel_number(&pieces[0]);
        let b = parse_channel_number(&pieces[1]);
        match (a, b) {
            (Some(a), Some(b)) => if a <= b {
                Some((a, b))
            } else {
                None
            },
            _ => None,
        }
    } else {
        None
    }
}

/// Insert `x` into the strictly increasing `v`, unless it is there already.
fn insert_sorted(v: &mut Vec<usize>, x: usize)
    requires
        strictly_increasing(old(v)@),
    ensures
        strictly_increasing(final(v)@),
        final(v)@.to_set() == old(v)@.to_set().insert(x),
        final(v)@.len() <= old(v)@.len() + 1,
{
    let mut i: usize = 0;
    while i < v.len() && v[i] < x
        invariant
            i <= v.len(),
            v@ == old(v)@,
            forall|j: int| 0 <= j < i ==> v@[j] < x,
        decreases v.len() - i,
    {
        i = i + 1;
    }
    if i < v.len() && v[i] == x {
        assert(v@.to_set() =~= old(v)@.to_set().insert(x)) by {
            assert(v@.contains(x)) by {
                assert(v@[i as int] == x);
            }
        }
        return;
    }
    let ghost before = v@;
    v.insert(i, x);
    assert(v@ =~= before.subrange(0, i as int).push(x) + before.subrange(i as int, before.len() as int));
    assert forall|a: int, b: int| 0 <= a < b < v@.len() implies v@[a] < v@[b] by {
        if b < i {
        } else if b == i {
        } else if a < i {
            assert(before[b - 1] > x || before[b - 1] == x || before[b - 1] < x);
            if i < before.len() {
                assert(before[i as int] > x);
                if b - 1 > i {
                    assert(before[i as int] < before[b - 1]);
                }
            }
        } else if a == i {
            assert(before[i as int] > x);
            if b - 1 > i {
                assert(before[i as int] < before[b - 1]);
            }
        } else {
        }
    }
    assert forall|y: usize| #[trigger] v@.contains(y) <==> (before.contains(y) || y == x) by {
        if v@.contains(y) {
            let k = choose|k: int| 0 <= k < v@.len() && v@[k] == y;
            if k < i {
                assert(before[k] == y);
            } else if k > i {
                assert(before[k - 1] == y);
            }
        }
        if before.contains(y) {
            let k = choose|k: int| 0 <= k < before.len() && before[k] == y;
            if k < i {
                assert(v@[k] == y);
            } else {
                assert(v@[k + 1] == y);
            }
        }
        if y == x {
            assert(v@[i as int] == x);
        }
    }
    assert(v@.to_set() =~= before.to_set().insert(x));
}

/// The message of the error a channel list `s` is refused with.
pub open spec fn spec_channel_error_message(s: Seq<char>) -> Seq<char> {
    "invalid channel list `"@ + s
        + "` (expected channel numbers and ranges like 0,2-4,7, at most 255 channels)"@
}

fn channel_parse_error(s: &str) -> (e: BlackboxError)
    ensures
        e matches BlackboxError::ChannelParse(m) && m@ == spec_channel_error_message(s@),
{
    let mut msg = String::new();
    push_str(&mut msg, "invalid channel list `");
    push_str(&mut msg, s);
    push_str(&mut msg, "` (expected channel numbers and ranges like 0,2-4,7, at most 255 channels)");
    assert(msg@ =~= spec_channel_error_message(s@));
    BlackboxError::ChannelParse(msg)
}

/// Parse a channel list such as `0,2-4,7` into its channels, sorted and
/// without repeats.
///
/// Fails with [`BlackboxError::ChannelParse`] when an item is not a number
/// or a range `a-b` with `a <= b`, or when the list names more than
/// `MAX_CHANNELS` channels.
pub fn parse_channel_string(s: &str) -> (r: Result<Vec<usize>, BlackboxError>)
    ensures
        r is Ok <==> spec_channel_list_valid(s@) && spec_channel_set(s@).len() <= MAX_CHANNELS,
        r matches Ok(v) ==> strictly_increasing(v@) && v@.to_set() == spec_channel_set(s@),
        r matches Err(e) ==> (e matches BlackboxError::ChannelParse(m) && m@
            == spec_channel_error_message(s@)),
{
    let chars = chars_of(s);
    let items = split(&chars, ',');
    let ghost all = spec_split(s@, ',');
    proof {
        lemma_items_set_finite(all);
    }
    let mut v: Vec<usize> = Vec::new();
    let mut k: usize = 0;
    while k < items.len()
        invariant
            chars@ == s@,
            all == spec_split(s@, ','),
            items.len() == all.len(),
            forall|j: int| 0 <= j < items.len() ==> #[trigger] items[j]@ == all[j],
            spec_items_set(all).finite(),
            k <= items.len(),
            spec_items_valid(all.subrange(0, k as int)),
            strictly_increasing(v@),
            v@.to_set() == spec_items_set(all.subrange(0, k as int)),
            v@.len() <= MAX_CHANNELS,
        decreases items.len() - k,
    {
        let ghost prefix = all.subrange(0, k as int);
        let ghost next = all.subrange(0, k + 1);
        assert(next.drop_last() =~= prefix);
        let (a, b) = match parse_item(&items[k]) {
            Some(range) => range,
            None => {
                proof {
                    assert(spec_parse_item(all[k as int]) is None);
                }
                return Err(channel_parse_error(s));
            },
        };
        let mut n: usize = a;
        loop
            invariant_except_break
                n <= b,
                v@.to_set() == spec_items_set(prefix) + spec_range_below(a as nat, n as nat),
            invariant
                all == spec_split(s@, ','),
                spec_items_set(all).finite(),
                k < items.len(),
                items.len() == all.len(),
                next == all.subrange(0, k + 1),
                prefix == all.subrange(0, k as int),
                next.drop_last() == prefix,
                spec_parse_item(next.last()) == Some((a as nat, b as nat)),
                a <= n,
                strictly_increasing(v@),
                v@.len() <= MAX_CHANNELS,
            ensures
                v@.to_set() == spec_items_set(next),
            decreases b - n,
        {
            insert_sorted(&mut v, n);
            proof {
                assert(v@.to_set() =~= spec_items_set(prefix) + spec_range_below(
                    a as nat,
                    n as nat + 1,
                ));
            }
            if v.len() > MAX_CHANNELS {
                proof {
                    assert(spec_range_below(a as nat, n as nat + 1).subset_of(
                        spec_range_set(a as nat, b as nat),
                    ));
                    assert(spec_items_set(next) == spec_items_set(prefix) + spec_range_set(
                        a as nat,
                        b as nat,
                    ));
                    assert(v@.to_set().subset_of(spec_items_set(next)));
                    lemma_items_set_prefix(all, k + 1);
                    lemma_increasing_no_duplicates(v@);
                    v@.unique_seq_to_set();
                    vstd::set_lib::lemma_len_subset(v@.to_set(), spec_items_set(all));
                }
                return Err(channel_parse_error(s));
            }
            if n == b {
                proof {
                    assert(spec_range_below(a as nat, n as nat + 1) =~= spec_range_set(
                        a as nat,
                        b as nat,
                    ));
                    assert(spec_items_set(next) == spec_items_set(prefix) + spec_range_set(
                        a as nat,
                        b as nat,
                    ));
                    assert(v@.to_set() =~= spec_items_set(next));
                }
                break;
            }
            n = n + 1;
        }
        k = k + 1;
        proof {
            assert(spec_items_valid(all.subrange(0, k as int)));
        }
    }
    proof {
        assert(all.subrange(0, k as int) =~= all);
        lemma_increasing_no_duplicates(v@);
        v@.unique_seq_to_set();
    }
    Ok(v)
}

// ---------------------------------------------------------------------------
// Matching against the device
// ---------------------------------------------------------------------------

/// The requested channels a device with `total_channels` inputs has, in
/// the requested order.
pub open spec fn spec_available(requested: Seq<usize>, total_channels: usize) -> Seq<usize> {
    requested.filter(|ch: usize| ch < total_channels)
}

/// The requested channels that exist on a device with `total_channels`
/// inputs, in order, or `None` when none of them do.
pub fn available_channels(requested: &Vec<usize>, total_channels: usize) -> (r: Option<Vec<usize>>)
    ensures
        r is None <==> spec_available(requested@, total_channels).len() == 0,
        r matches Some(v) ==> v@ == spec_available(requested@, total_channels),
{
    let mut kept: Vec<usize> = Vec::new();
    let mut i: usize = 0;
    while i < requested.len()
        invariant
            i <= requested.len(),
            kept@ == spec_available(requested@.subrange(0, i as int), total_channels),
        decreases requested.len() - i,
    {
        let ghost prev = requested@.subrange(0, i as int);
        assert(requested@.subrange(0, i + 1).drop_last() =~= prev);
        if requested[i] < total_channels {
            kept.push(requested[i]);
        }
        i = i + 1;
        proof {
            reveal(Seq::filter);
        }
    }
    assert(requested@.subrange(0, requested.len() as int) =~= requested@);
    if kept.len() == 0 {
        None
    } else {
        Some(kept)
    }
}

/// The channels `0..total_channels`.
pub open spec fn spec_all_channels(total_channels: usize) -> Seq<usize> {
    Seq::new(total_channels as nat, |i: int| i as usize)
}

/// The channels to record: the requested ones the device has, or all of its
/// channels when it has none of them.
pub fn recording_channels(requested: &Vec<usize>, total_channels: usize) -> (r: Vec<usize>)
    ensures
        r@ == if spec_available(requested@, total_channels).len() == 0 {
            spec_all_channels(total_channels)
        } else {
            spec_available(requested@, total_channels)
        },
{
    match available_channels(requested, total_channels) {
        Some(v) => v,
        None => {
            let mut all: Vec<usize> = Vec::new();
            let mut ch: usize = 0;
            while ch < total_channels
                invariant
                    ch <= total_channels,
                    all@ == spec_all_channels(ch),
                decreases total_channels - ch,
            {
                all.push(ch);
                ch = ch + 1;
                assert(all@ =~= spec_all_channels(ch));
            }
            all
        },
    }
}

} // verus!
