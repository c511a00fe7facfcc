//! Playback times as text: padded clock readings and the now-playing progress bar.
use vstd::prelude::*;
use crate::text::decimal;

verus! {

/// Number of segments that the progress bar divides a track into.
pub const BAR_SEGMENTS: u64 = 13;

/// `n` in decimal, with a leading zero when it has a single digit.
pub open spec fn two_digits(n: nat) -> Seq<char> {
    if n < 10 {
        seq!['0'] + decimal(n)
    } else {
        decimal(n)
    }
}

/// `secs` as hours, minutes and seconds, each at least two digits wide,
/// separated by colons (`3600` reads `01:00:00`).
pub open spec fn padded_clock(secs: nat) -> Seq<char> {
    two_digits(secs / 3600) + seq![':'] + two_digits((secs / 60) % 60) + seq![':'] + two_digits(
        secs % 60,
    )
}

/// Relies on hrtime::from_sec_padded, which formats whole hours, minutes and
/// seconds as `{:0>2}` each, separated by colons.
#[verifier::external_body]
fn clock_text(secs: u64) -> (r: String)
    ensures
        r@ == padded_clock(secs as nat),
{
    hrtime::from_sec_padded(secs)
}

/// The clock reading of a number of seconds.
pub fn clock(secs: u64) -> (r: String)
    ensures
        r@ == padded_clock(secs as nat),
{
    clock_text(secs)
}

/// `[position/length]`, both as clock readings.
pub open spec fn duration_label_text(position: nat, length: nat) -> Seq<char> {
    seq!['['] + padded_clock(position) + seq!['/'] + padded_clock(length) + seq![']']
}

/// The position of a track against its length, as `[00:01:05/00:03:20]`.
pub fn duration_label(position_secs: u64, length_secs: u64) -> (r: String)
    ensures
        r@ == duration_label_text(position_secs as nat, length_secs as nat),
{
    let mut r = String::from_str("[");
    r.append(clock_text(position_secs).as_str());
    r.append("/");
    r.append(clock_text(length_secs).as_str());
    r.append("]");
    proof {
        reveal_strlit("[");
        reveal_strlit("/");
        reveal_strlit("]");
    }
    assert(r@ =~= duration_label_text(position_secs as nat, length_secs as nat));
    r
}

/// The segment of the bar that holds the play head: the share of the track
/// played, in thirteenths, rounded up and capped at the last segment. A track
/// of unknown (zero) length has its head at the start.
pub open spec fn bar_pointer(position: nat, length: nat) -> nat {
    if length == 0 {
        0
    } else if position >= length {
        BAR_SEGMENTS as nat
    } else {
        ((BAR_SEGMENTS * position + length - 1) / length as int) as nat
    }
}

/// `k` copies of the bar's segment character.
pub open spec fn segments(k: nat) -> Seq<char> {
    Seq::new(k, |i: int| '▬')
}

/// The now-playing bar: the segments before the head (at least one), the
/// head, the segments after it (at least one), then the speaker mark.
pub open spec fn progress_bar_text(position: nat, length: nat) -> Seq<char> {
    let p = bar_pointer(position, length);
    let before: nat = if p == 0 {
        1
    } else {
        p
    };
    let after: nat = (BAR_SEGMENTS + 1 - p) as nat;
    ":arrow_forward: "@ + segments(before) + ":radio_button:"@ + segments(after) + " :loud_sound:"@
}

/// Appends `k` segments to `s`.
fn push_segments(s: &mut String, k: u64)
    ensures
        final(s)@ == old(s)@ + segments(k as nat),
{
    let mut i: u64 = 0;
    while i < k
        invariant
            i <= k,
            s@ == old(s)@ + segments(i as nat),
        decreases k - i,
    {
        s.append("▬");
        proof {
            reveal_strlit("▬");
        }
        assert(segments((i + 1) as nat) =~= segments(i as nat) + "▬"@);
        i = i + 1;
    }
}

/// The head's segment for a position and a length, both in milliseconds.
pub fn progress_pointer(position_ms: u64, length_ms: u64) -> (r: u64)
    ensures
        r as nat == bar_pointer(position_ms as nat, length_ms as nat),
        r <= BAR_SEGMENTS,
{
    if length_ms == 0 {
        0
    } else if position_ms >= length_ms {
        BAR_SEGMENTS
    } else {
        assert(13 * (position_ms as int) <= 13 * (u64::MAX as int)) by (nonlinear_arith)
            requires
                position_ms <= u64::MAX,
        {
        }
        let num: u128 = (BAR_SEGMENTS as u128) * (position_ms as u128) + (length_ms as u128) - 1;
        let q: u128 = num / (length_ms as u128);
        proof {
            vstd::arithmetic::div_mod::lemma_fundamental_div_mod(num as int, length_ms as int);
            vstd::arithmetic::div_mod::lemma_mod_pos_bound(num as int, length_ms as int);
        }
        assert(q <= BAR_SEGMENTS) by (nonlinear_arith)
            requires
                (length_ms as int) * (q as int) <= num,
                num < 14 * length_ms,
                length_ms > 0,
        {
        }
        q as u64
    }
}

/// The now-playing bar for a position and a length, both in milliseconds.
pub fn progress_bar(position_ms: u64, length_ms: u64) -> (r: String)
    ensures
        r@ == progress_bar_text(position_ms as nat, length_ms as nat),
{
    let p = progress_pointer(position_ms, length_ms);
    let before: u64 = if p == 0 {
        1
    } else {
        p
    };
    let mut r = String::from_str(":arrow_forward: ");
    push_segments(&mut r, before);
    r.append(":radio_button:");
    push_segments(&mut r, BAR_SEGMENTS + 1 - p);
    r.append(" :loud_sound:");
    assert(r@ =~= progress_bar_text(position_ms as nat, length_ms as nat));
    r
}

} // verus!
