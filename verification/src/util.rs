//! Duration formatting.
use vstd::prelude::*;

use crate::text::{decimal, push_char, push_decimal, push_two_digits, two_digits};

verus! {

/// `h:mm:ss` when `seconds` spans at least an hour, else `m:ss`.
pub open spec fn hms_string(seconds: nat) -> Seq<char> {
    let hours = seconds / 3600;
    let minutes = (seconds % 3600) / 60;
    let secs = seconds % 60;
    if hours > 0 {
        decimal(hours) + seq![':'] + two_digits(minutes) + seq![':'] + two_digits(secs)
    } else {
        decimal(minutes) + seq![':'] + two_digits(secs)
    }
}

/// Convert a number of seconds to a string in the format "H:MM:SS".
/// If the number of hours is 0, it is omitted ("M:SS").
pub fn seconds_to_hms_string(seconds: u32) -> (s: String)
    ensures
        s@ == hms_string(seconds as nat),
{
    let hours = seconds / 3600;
    let minutes = (seconds % 3600) / 60;
    let secs = seconds % 60;
    let mut s = String::new();
    if hours > 0 {
        push_decimal(&mut s, hours as u64);
        push_char(&mut s, ':');
        push_two_digits(&mut s, minutes as u64);
        push_char(&mut s, ':');
        push_two_digits(&mut s, secs as u64);
    } else {
        push_decimal(&mut s, minutes as u64);
        push_char(&mut s, ':');
        push_two_digits(&mut s, secs as u64);
    }
    assert(s@ =~= hms_string(seconds as nat));
    s
}

// ── Reading a duration back ──────────────────────────────────────────────

/// The value of a decimal digit character.
pub open spec fn digit_value(c: char) -> int {
    (c as int) - ('0' as int)
}

/// Reading clock text left to right: the total of the fields already closed
/// by a `:` (each closing multiplies by 60), and the field being read, in
/// decimal.
pub open spec fn clock_state(s: Seq<char>) -> (int, int)
    decreases s.len(),
{
    if s.len() == 0 {
        (0, 0)
    } else {
        let p = clock_state(s.drop_last());
        if s.last() == ':' { ((p.0 + p.1) * 60, 0) } else { (p.0, p.1 * 10 + digit_value(s.last())) }
    }
}

/// The number of seconds clock text such as `1:02:03` or `12:34` stands
/// for: its `:`-separated decimal fields read in base 60.
pub open spec fn read_clock(s: Seq<char>) -> int {
    clock_state(s).0 + clock_state(s).1
}

proof fn lemma_digit_value(d: nat)
    requires
        d < 10,
    ensures
        digit_value(crate::text::digit_char(d)) == d,
{
}

/// Reading the decimal text of `n` after a closed field gives `n`.
proof fn lemma_read_decimal(p: Seq<char>, n: nat)
    requires
        clock_state(p).1 == 0,
    ensures
        clock_state(p + decimal(n)) == (clock_state(p).0, n as int),
    decreases n,
{
    if n < 10 {
        let q = p + decimal(n);
        assert(q.drop_last() =~= p);
        lemma_digit_value(n);
    } else {
        lemma_read_decimal(p, n / 10);
        let q = p + decimal(n);
        assert(q =~= (p + decimal(n / 10)).push(crate::text::digit_char(n % 10)));
        assert(q.drop_last() =~= p + decimal(n / 10));
        lemma_digit_value(n % 10);
    }
}

/// Reading the two-digit text of `n` after a closed field gives `n`.
proof fn lemma_read_two_digits(p: Seq<char>, n: nat)
    requires
        clock_state(p).1 == 0,
    ensures
        clock_state(p + two_digits(n)) == (clock_state(p).0, n as int),
{
    if n < 10 {
        let q = p + two_digits(n);
        let q0 = p.push('0');
        assert(q0.drop_last() =~= p);
        assert(q0.last() == '0');
        assert(clock_state(q0) == (clock_state(p).0, 0int));
        assert(q.drop_last() =~= q0);
        assert(q.last() == crate::text::digit_char(n));
        lemma_digit_value(n);
        assert(crate::text::digit_char(n) != ':');
    } else {
        lemma_read_decimal(p, n);
    }
}

/// A `:` closes the field being read.
proof fn lemma_read_colon(p: Seq<char>)
    ensures
        clock_state(p + seq![':']) == ((clock_state(p).0 + clock_state(p).1) * 60, 0int),
{
    assert((p + seq![':']).drop_last() =~= p);
}

/// A duration's text reads back as the duration: its fields, read in base
/// 60, give the number of seconds formatted. So below an hour the text is
/// the minutes and the two-digit seconds, and from an hour on the hours,
/// minutes and seconds.
pub proof fn lemma_hms_reads_back(seconds: nat)
    ensures
        read_clock(hms_string(seconds)) == seconds,
{
    let hours = seconds / 3600;
    let minutes = (seconds % 3600) / 60;
    let secs = seconds % 60;
    let e = Seq::<char>::empty();
    assert(e + decimal(hours) =~= decimal(hours));
    assert(e + decimal(minutes) =~= decimal(minutes));
    if hours > 0 {
        lemma_read_decimal(e, hours);
        let a = decimal(hours);
        lemma_read_colon(a);
        let b = a + seq![':'];
        lemma_read_two_digits(b, minutes);
        let c = b + two_digits(minutes);
        lemma_read_colon(c);
        let d = c + seq![':'];
        lemma_read_two_digits(d, secs);
        assert(d + two_digits(secs) =~= hms_string(seconds));
        assert(seconds == hours * 3600 + minutes * 60 + secs) by (nonlinear_arith)
            requires hours == seconds / 3600, minutes == (seconds % 3600) / 60, secs == seconds % 60;
        assert((hours * 60 + minutes) * 60 == hours * 3600 + minutes * 60) by (nonlinear_arith);
    } else {
        lemma_read_decimal(e, minutes);
        let a = decimal(minutes);
        lemma_read_colon(a);
        let b = a + seq![':'];
        lemma_read_two_digits(b, secs);
        assert(b + two_digits(secs) =~= hms_string(seconds));
        assert(seconds == minutes * 60 + secs) by (nonlinear_arith)
            requires hours == seconds / 3600, hours == 0, minutes == (seconds % 3600) / 60, secs == seconds % 60;
    }
}

/// Below an hour the text is the minutes, a `:` and two digits of seconds:
/// the part before the `:` reads back as the whole minutes.
pub proof fn lemma_short_hms_minutes(seconds: nat)
    requires
        seconds < 3600,
    ensures
        hms_string(seconds) == decimal(seconds / 60) + seq![':'] + two_digits(seconds % 60),
        read_clock(decimal(seconds / 60)) == seconds / 60,
{
    let e = Seq::<char>::empty();
    assert(e + decimal(seconds / 60) =~= decimal(seconds / 60));
    lemma_read_decimal(e, seconds / 60);
}

} // verus!
