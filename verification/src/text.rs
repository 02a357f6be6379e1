//! Decimal text: writing unsigned numbers into a string and reading them back.

use vstd::prelude::*;
use vstd::string::*;

verus! {

/// The character that writes the digit `d`, for `d` below ten.
pub open spec fn digit_char(d: nat) -> char {
    (('0' as nat) + d) as char
}

/// Whether `c` is one of the ten decimal digits.
pub open spec fn is_digit(c: char) -> bool {
    '0' <= c <= '9'
}

/// The number that the digit `c` stands for.
pub open spec fn digit_value(c: char) -> nat {
    ((c as nat) - ('0' as nat)) as nat
}

/// Whether every character of `s` is a decimal digit.
pub open spec fn all_digits(s: Seq<char>) -> bool {
    forall|i: int| 0 <= i < s.len() ==> is_digit(#[trigger] s[i])
}

/// The shortest decimal writing of `n`: no leading zero but for zero itself.
pub open spec fn decimal(n: nat) -> Seq<char>
    decreases n,
{
    if n < 10 {
        seq![digit_char(n)]
    } else {
        decimal(n / 10).push(digit_char(n % 10))
    }
}

/// `k` zero digits.
pub open spec fn zeros(k: nat) -> Seq<char> {
    Seq::new(k, |i: int| '0')
}

/// The decimal writing of `n`, filled up with zeros on the left to at least
/// `width` characters.
pub open spec fn zero_padded(n: nat, width: nat) -> Seq<char> {
    if decimal(n).len() >= width {
        decimal(n)
    } else {
        zeros((width - decimal(n).len()) as nat) + decimal(n)
    }
}

/// The number that a sequence of digits writes, most significant digit first.
/// The empty sequence writes zero.
pub open spec fn decimal_value(s: Seq<char>) -> nat
    decreases s.len(),
{
    if s.len() == 0 {
        0
    } else {
        decimal_value(s.drop_last()) * 10 + digit_value(s.last())
    }
}

/// What a text means as an unsigned number no larger than `max`: an optional
/// `+`, then at least one digit and nothing else. `None` for any other text
/// and for a number above `max`.
pub open spec fn unsigned_value(s: Seq<char>, max: nat) -> Option<nat> {
    let body = if s.len() > 0 && s[0] == '+' {
        s.skip(1)
    } else {
        s
    };
    if body.len() > 0 && all_digits(body) && decimal_value(body) <= max {
        Some(decimal_value(body))
    } else {
        None
    }
}

/// Whether two texts hold the same characters.
pub fn same_text(a: &str, b: &str) -> (r: bool)
    ensures
        r == (a@ == b@),
{
    a.to_owned() == b.to_owned()
}

/// The one-character text that writes the digit `d`.
pub(crate) fn digit_text(d: u8) -> (t: &'static str)
    requires
        d < 10,
    ensures
        t@ == seq![digit_char(d as nat)],
{
    proof {
        reveal_strlit("0");
        reveal_strlit("1");
        reveal_strlit("2");
        reveal_strlit("3");
        reveal_strlit("4");
        reveal_strlit("5");
        reveal_strlit("6");
        reveal_strlit("7");
        reveal_strlit("8");
        reveal_strlit("9");
    }
    let t: &'static str = match d {
        0 => "0",
        1 => "1",
        2 => "2",
        3 => "3",
        4 => "4",
        5 => "5",
        6 => "6",
        7 => "7",
        8 => "8",
        _ => "9",
    };
    assert(t@ =~= seq![digit_char(d as nat)]);
    t
}

/// Appends the shortest decimal writing of `n`.
pub fn push_decimal(s: &mut String, n: u64)
    ensures
        final(s)@ == old(s)@ + decimal(n as nat),
    decreases n,
{
    if n >= 10 {
        push_decimal(s, n / 10);
    }
    s.append(digit_text((n % 10) as u8));
    assert(s@ =~= old(s)@ + decimal(n as nat));
}

/// Appends the decimal writing of `n`, zero-filled to at least `width`
/// characters.
pub fn push_zero_padded(s: &mut String, n: u64, width: usize)
    ensures
        final(s)@ == old(s)@ + zero_padded(n as nat, width as nat),
    decreases n,
{
    if n >= 10 {
        let rest: usize = if width > 0 {
            width - 1
        } else {
            0
        };
        push_zero_padded(s, n / 10, rest);
        s.append(digit_text((n % 10) as u8));
        assert(s@ =~= old(s)@ + zero_padded(n as nat, width as nat));
    } else {
        let mut i: usize = 1;
        while i < width
            invariant
                1 <= i,
                i <= width || i == 1,
                s@ == old(s)@ + zeros((i - 1) as nat),
            decreases width - i,
        {
            s.append(digit_text(0));
            i = i + 1;
            assert(s@ =~= old(s)@ + zeros((i - 1) as nat));
        }
        s.append(digit_text(n as u8));
        assert(s@ =~= old(s)@ + zero_padded(n as nat, width as nat));
    }
}

/// Every character of a decimal writing is a digit, and there is at least one.
pub proof fn lemma_decimal_digits(n: nat)
    ensures
        all_digits(decimal(n)),
        decimal(n).len() >= 1,
    decreases n,
{
    if n >= 10 {
        lemma_decimal_digits(n / 10);
    }
}

/// Reading a decimal writing gives the number back.
pub proof fn lemma_decimal_value(n: nat)
    ensures
        decimal_value(decimal(n)) == n,
    decreases n,
{
    if n < 10 {
        assert(decimal(n).drop_last() =~= Seq::<char>::empty());
        assert(decimal_value(decimal(n).drop_last()) == 0);
    } else {
        lemma_decimal_value(n / 10);
        assert(decimal(n).drop_last() =~= decimal(n / 10));
    }
}

/// Zeros in front of a digit sequence do not change the number it writes.
pub proof fn lemma_leading_zeros(k: nat, t: Seq<char>)
    ensures
        decimal_value(zeros(k) + t) == decimal_value(t),
    decreases t.len(), k,
{
    if t.len() > 0 {
        lemma_leading_zeros(k, t.drop_last());
        assert((zeros(k) + t).drop_last() =~= zeros(k) + t.drop_last());
    } else if k > 0 {
        lemma_leading_zeros((k - 1) as nat, t);
        assert(zeros(k) + t =~= zeros(k));
        assert(zeros((k - 1) as nat) + t =~= zeros((k - 1) as nat));
        assert(zeros(k).drop_last() =~= zeros((k - 1) as nat));
    } else {
        assert(zeros(k) + t =~= t);
    }
}

/// A zero-filled writing is all digits, at least `width` and at least one
/// character long, and reads back as the number written.
pub proof fn lemma_zero_padded(n: nat, width: nat)
    ensures
        all_digits(zero_padded(n, width)),
        zero_padded(n, width).len() >= width,
        zero_padded(n, width).len() >= 1,
        decimal_value(zero_padded(n, width)) == n,
{
    lemma_decimal_digits(n);
    lemma_decimal_value(n);
    if decimal(n).len() < width {
        lemma_leading_zeros((width - decimal(n).len()) as nat, decimal(n));
    }
}

/// What is written is read back: the decimal writing of a number within the
/// limit, zero-filled or not, means that number.
pub proof fn lemma_written_number_reads_back(n: nat, width: nat, max: nat)
    requires
        n <= max,
    ensures
        unsigned_value(decimal(n), max) == Some(n),
        unsigned_value(zero_padded(n, width), max) == Some(n),
{
    lemma_decimal_digits(n);
    lemma_decimal_value(n);
    lemma_zero_padded(n, width);
    assert(is_digit(decimal(n)[0]));
    assert(is_digit(zero_padded(n, width)[0]));
}

/// A number below one hundred, zero-filled to width two, takes exactly two
/// characters: its tens and its units.
pub proof fn lemma_two_digits(n: nat)
    requires
        n < 100,
    ensures
        zero_padded(n, 2).len() == 2,
        zero_padded(n, 2) == seq![digit_char(n / 10), digit_char(n % 10)],
{
    reveal_with_fuel(decimal, 2);
    if n < 10 {
        assert(zero_padded(n, 2) =~= seq![digit_char(n / 10), digit_char(n % 10)]);
    } else {
        assert(decimal(n / 10) =~= seq![digit_char(n / 10)]);
        assert(zero_padded(n, 2) =~= seq![digit_char(n / 10), digit_char(n % 10)]);
    }
}

/// A digit sequence writes at least as much as any of its beginnings.
proof fn lemma_prefix_value(s: Seq<char>, k: int)
    requires
        0 <= k <= s.len(),
        all_digits(s),
    ensures
        decimal_value(s.subrange(0, k)) <= decimal_value(s),
    decreases s.len() - k,
{
    if k == s.len() {
        assert(s.subrange(0, k) =~= s);
    } else {
        lemma_prefix_value(s.drop_last(), k);
        assert(s.drop_last().subrange(0, k) =~= s.subrange(0, k));
    }
}

/// Reads the characters of `s` from `from` up to `to` as an unsigned number
/// no larger than `max`.
pub(crate) fn parse_unsigned_in(s: &str, from: usize, to: usize, max: u64) -> (r: Option<u64>)
    requires
        s.is_ascii(),
        from <= to <= s@.len(),
    ensures
        match r {
            Some(v) => unsigned_value(s@.subrange(from as int, to as int), max as nat) == Some(
                v as nat,
            ),
            None => unsigned_value(s@.subrange(from as int, to as int), max as nat) is None,
        },
{
    let ghost text = s@.subrange(from as int, to as int);
    let mut start: usize = from;
    if from < to && s.get_ascii(from) == 43u8 {
        start = from + 1;
    }
    let ghost body = s@.subrange(start as int, to as int);
    assert(body =~= if text.len() > 0 && text[0] == '+' {
        text.skip(1)
    } else {
        text
    });
    if start == to {
        return None;
    }
    let mut i: usize = start;
    let mut acc: u64 = 0;
    while i < to
        invariant
            s.is_ascii(),
            start <= i <= to <= s@.len(),
            text == s@.subrange(from as int, to as int),
            body == s@.subrange(start as int, to as int),
            body.len() > 0,
            body == if text.len() > 0 && text[0] == '+' {
                text.skip(1)
            } else {
                text
            },
            all_digits(body.subrange(0, i - start)),
            acc == decimal_value(body.subrange(0, i - start)),
            acc <= max,
        decreases to - i,
    {
        let b: u8 = s.get_ascii(i);
        let ghost next = body.subrange(0, i + 1 - start);
        assert(next.drop_last() =~= body.subrange(0, i - start));
        assert(next.last() == s@[i as int]);
        if b < 48u8 || b > 57u8 {
            assert(!is_digit(body[i - start]));
            return None;
        }
        let d: u64 = (b - 48u8) as u64;
        assert(is_digit(s@[i as int]));
        assert(d == digit_value(s@[i as int]));
        assert(all_digits(next));
        if d > max || acc > (max - d) / 10 {
            proof {
                assert(decimal_value(next) > max);
                if all_digits(body) {
                    lemma_prefix_value(body, i + 1 - start);
                }
            }
            return None;
        }
        acc = acc * 10 + d;
        i = i + 1;
    }
    assert(body.subrange(0, i - start) =~= body);
    Some(acc)
}

/// Reads a whole text as an unsigned number no larger than `max`: an optional
/// `+`, then digits only.
pub fn parse_unsigned(s: &str, max: u64) -> (r: Option<u64>)
    ensures
        match r {
            Some(v) => unsigned_value(s@, max as nat) == Some(v as nat),
            None => unsigned_value(s@, max as nat) is None,
        },
{
    if !s.is_ascii() {
        proof {
            lemma_not_ascii_not_number(s@, max as nat);
        }
        return None;
    }
    let n: usize = ascii_len(s);
    assert(s@.subrange(0, n as int) =~= s@);
    parse_unsigned_in(s, 0, n, max)
}

/// The number of characters of a text made of ASCII only.
pub(crate) fn ascii_len(s: &str) -> (n: usize)
    requires
        s.is_ascii(),
    ensures
        n == s@.len(),
{
    proof {
        is_ascii_spec_bytes(s);
    }
    s.as_bytes().len()
}

/// A text with a character outside ASCII is no unsigned number.
pub(crate) proof fn lemma_not_ascii_not_number(s: Seq<char>, max: nat)
    requires
        !vstd::utf8::is_ascii_chars(s),
    ensures
        unsigned_value(s, max) is None,
{
    let i = choose|i: int| 0 <= i < s.len() && !('\0' <= #[trigger] s[i] <= '\u{7f}');
    if s[0] == '+' {
        assert(i >= 1);
        assert(s.skip(1)[i - 1] == s[i]);
    }
}

} // verus!
