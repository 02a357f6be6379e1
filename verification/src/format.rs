//! The time formatter: fixed-layout clock texts for a count of seconds.

use vstd::prelude::*;
use vstd::string::*;
use crate::text::{
    all_digits, decimal_value, lemma_two_digits, lemma_zero_padded, push_zero_padded, zero_padded,
};

verus! {

/// `HH:MM:SS` for `t` seconds: hours in at least two digits and never
/// wrapped at a day, minutes and seconds in exactly two.
pub open spec fn hms_text(t: nat) -> Seq<char> {
    zero_padded(t / 3600, 2) + seq![':'] + zero_padded((t % 3600) / 60, 2) + seq![':']
        + zero_padded(t % 60, 2)
}

/// `HH:MM:SS.mmm` for `t` seconds and `millis` milliseconds.
pub open spec fn hms_millis_text(t: nat, millis: nat) -> Seq<char> {
    hms_text(t) + seq!['.'] + zero_padded(millis, 3)
}

/// `MM:SS` for `t` seconds: minutes in at least two digits and never wrapped
/// at an hour, seconds in exactly two.
pub open spec fn mins_secs_text(t: nat) -> Seq<char> {
    zero_padded(t / 60, 2) + seq![':'] + zero_padded(t % 60, 2)
}

/// The seconds that a text of the shape `H..H:MM:SS` stands for: the last two
/// fields are two digits each and below sixty, the first is two digits or more.
/// `None` for a text of any other shape.
pub open spec fn hms_value(s: Seq<char>) -> Option<nat> {
    let n = s.len() as int;
    if n < 8 {
        None
    } else {
        let hours = s.subrange(0, n - 6);
        let minutes = s.subrange(n - 5, n - 3);
        let seconds = s.subrange(n - 2, n);
        if s[n - 6] == ':' && s[n - 3] == ':' && all_digits(hours) && all_digits(minutes)
            && all_digits(seconds) && decimal_value(minutes) < 60 && decimal_value(seconds) < 60 {
            Some(decimal_value(hours) * 3600 + decimal_value(minutes) * 60 + decimal_value(seconds))
        } else {
            None
        }
    }
}

/// Formats a count of seconds as `HH:MM:SS`.
pub fn format_hms(secs: u64) -> (r: String)
    ensures
        r@ == hms_text(secs as nat),
{
    let mut s = String::new();
    proof {
        reveal_strlit(":");
        assert(":"@ =~= seq![':']);
    }
    push_zero_padded(&mut s, secs / 3600, 2);
    s.append(":");
    push_zero_padded(&mut s, (secs % 3600) / 60, 2);
    s.append(":");
    push_zero_padded(&mut s, secs % 60, 2);
    assert(s@ =~= hms_text(secs as nat));
    s
}

/// Formats a count of seconds and the milliseconds beyond them as
/// `HH:MM:SS.mmm`.
pub fn format_hms_millis(secs: u64, millis: u32) -> (r: String)
    ensures
        r@ == hms_millis_text(secs as nat, millis as nat),
{
    let mut s = format_hms(secs);
    proof {
        reveal_strlit(".");
        assert("."@ =~= seq!['.']);
    }
    s.append(".");
    push_zero_padded(&mut s, millis as u64, 3);
    s
}

/// Formats a count of seconds as `MM:SS`.
pub fn format_mins_secs(secs: u64) -> (r: String)
    ensures
        r@ == mins_secs_text(secs as nat),
{
    let mut s = String::new();
    proof {
        reveal_strlit(":");
        assert(":"@ =~= seq![':']);
    }
    push_zero_padded(&mut s, secs / 60, 2);
    s.append(":");
    push_zero_padded(&mut s, secs % 60, 2);
    s
}

/// The layout of `hms_text`: the hours field takes all but the last six
/// characters, and the two colons sit right before the two-digit fields.
pub proof fn lemma_hms_layout(t: nat)
    ensures
        hms_text(t).len() == zero_padded(t / 3600, 2).len() + 6,
        hms_text(t).len() >= 8,
        hms_text(t).subrange(0, hms_text(t).len() - 6) == zero_padded(t / 3600, 2),
        hms_text(t)[hms_text(t).len() - 6] == ':',
        hms_text(t).subrange(hms_text(t).len() - 5, hms_text(t).len() - 3) == zero_padded(
            (t % 3600) / 60,
            2,
        ),
        hms_text(t)[hms_text(t).len() - 3] == ':',
        hms_text(t).subrange(hms_text(t).len() - 2, hms_text(t).len() as int) == zero_padded(
            t % 60,
            2,
        ),
{
    let h = zero_padded(t / 3600, 2);
    let m = zero_padded((t % 3600) / 60, 2);
    let s = zero_padded(t % 60, 2);
    lemma_zero_padded(t / 3600, 2);
    lemma_two_digits((t % 3600) / 60);
    lemma_two_digits(t % 60);
    let text = hms_text(t);
    let n = text.len() as int;
    assert(n == h.len() + 6);
    assert(text.subrange(0, n - 6) =~= h);
    assert(text.subrange(n - 5, n - 3) =~= m);
    assert(text.subrange(n - 2, n) =~= s);
}

/// Hours, minutes and seconds of a count add up to the count again.
proof fn lemma_hms_fields(t: nat)
    ensures
        t == (t / 3600) * 3600 + ((t % 3600) / 60) * 60 + t % 60,
        (t % 3600) / 60 < 60,
        t % 60 < 60,
{
    let r = t % 3600;
    assert(t == (t / 3600) * 3600 + r);
    assert(r == (r / 60) * 60 + r % 60);
    assert(r % 60 == t % 60) by {
        vstd::arithmetic::div_mod::lemma_mod_mod(t as int, 60, 60);
    }
}

/// Reading a formatted time gives back exactly the seconds that were
/// formatted: hours times 3600, plus minutes times 60, plus seconds.
pub proof fn lemma_hms_round_trip(t: nat)
    ensures
        hms_value(hms_text(t)) == Some(t),
{
    let text = hms_text(t);
    let n = text.len() as int;
    let hours = text.subrange(0, n - 6);
    let minutes = text.subrange(n - 5, n - 3);
    let seconds = text.subrange(n - 2, n);
    lemma_hms_layout(t);
    lemma_zero_padded(t / 3600, 2);
    lemma_zero_padded((t % 3600) / 60, 2);
    lemma_zero_padded(t % 60, 2);
    lemma_hms_fields(t);
    assert(decimal_value(hours) == t / 3600);
    assert(decimal_value(minutes) == (t % 3600) / 60);
    assert(decimal_value(seconds) == t % 60);
}

/// Equal counts of seconds give equal texts, and different counts give
/// different texts: the text depends on the count alone.
pub proof fn lemma_hms_text_determined(a: nat, b: nat)
    ensures
        a == b <==> hms_text(a) == hms_text(b),
{
    lemma_hms_round_trip(a);
    lemma_hms_round_trip(b);
}

} // verus!
