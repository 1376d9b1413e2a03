//! Small text tools: whole numbers in decimal, and replacing every
//! occurrence of a pattern.

use vstd::prelude::*;
use vstd::string::*;

verus! {

/// The character of a single decimal digit.
pub open spec fn digit_char(d: int) -> char {
    if d == 0 {
        '0'
    } else if d == 1 {
        '1'
    } else if d == 2 {
        '2'
    } else if d == 3 {
        '3'
    } else if d == 4 {
        '4'
    } else if d == 5 {
        '5'
    } else if d == 6 {
        '6'
    } else if d == 7 {
        '7'
    } else if d == 8 {
        '8'
    } else {
        '9'
    }
}

/// A natural number in decimal, most significant digit first, without
/// leading zeros.
pub open spec fn decimal_text(n: nat) -> Seq<char>
    decreases n,
{
    if n < 10 {
        seq![digit_char(n as int)]
    } else {
        decimal_text(n / 10).push(digit_char((n % 10) as int))
    }
}

/// Whether `c` is a decimal digit.
pub open spec fn is_digit(c: char) -> bool {
    exists|d: int| 0 <= d < 10 && c == digit_char(d)
}

/// A number in decimal is at least one character long and holds digits only.
pub proof fn lemma_decimal_digits(n: nat)
    ensures
        decimal_text(n).len() >= 1,
        n >= 10 ==> decimal_text(n).len() >= 2,
        forall|i: int| 0 <= i < decimal_text(n).len() ==> is_digit(#[trigger] decimal_text(n)[i]),
    decreases n,
{
    if n < 10 {
        assert(is_digit(digit_char(n as int)));
    } else {
        lemma_decimal_digits(n / 10);
        assert(is_digit(digit_char((n % 10) as int)));
    }
}

/// Two numbers that read the same in decimal are the same number.
pub proof fn lemma_decimal_injective(a: nat, b: nat)
    requires
        decimal_text(a) == decimal_text(b),
    ensures
        a == b,
    decreases a,
{
    lemma_decimal_digits(a);
    lemma_decimal_digits(b);
    if a < 10 || b < 10 {
        // One digit on one side means one digit on the other.
        assert(decimal_text(a).len() == 1);
        assert(a < 10 && b < 10);
        assert(decimal_text(a)[0] == digit_char(a as int));
        assert(decimal_text(b)[0] == digit_char(b as int));
    } else {
        // The digits before the last agree, and so do the last.
        assert(decimal_text(a / 10) == decimal_text(a).drop_last());
        assert(decimal_text(b / 10) == decimal_text(b).drop_last());
        lemma_decimal_injective(a / 10, b / 10);
        assert(decimal_text(a).last() == digit_char((a % 10) as int));
        assert(decimal_text(b).last() == digit_char((b % 10) as int));
        assert(a % 10 == b % 10);
    }
}

fn digit_str(d: u8) -> (r: &'static str)
    requires
        d < 10,
    ensures
        r@ == seq![digit_char(d as int)],
{
    proof {
        reveal_strlit("0");
        reveal_strlit("1");
        reveal_strlit("2");
        reveal_strlit("3");
        reveal_strlit("4");
        reveal_strlit("5");
        reveal_strlit("6");
        reveal_strlit("7");
        reveal_strlit("8");
        reveal_strlit("9");
    }
    let r = if d == 0 {
        "0"
    } else if d == 1 {
        "1"
    } else if d == 2 {
        "2"
    } else if d == 3 {
        "3"
    } else if d == 4 {
        "4"
    } else if d == 5 {
        "5"
    } else if d == 6 {
        "6"
    } else if d == 7 {
        "7"
    } else if d == 8 {
        "8"
    } else {
        "9"
    };
    assert(r@ =~= seq![digit_char(d as int)]);
    r
}

/// `n` in decimal.
pub fn decimal(n: u128) -> (r: String)
    ensures
        r@ == decimal_text(n as nat),
    decreases n,
{
    if n < 10 {
        String::from_str(digit_str(n as u8))
    } else {
        let mut text = decimal(n / 10);
        text.append(digit_str((n % 10) as u8));
        text
    }
}

/// Whether `pattern` stands in `text` at position `at`.
pub open spec fn occurs_at(text: Seq<char>, at: int, pattern: Seq<char>) -> bool {
    &&& 0 <= at
    &&& at + pattern.len() <= text.len()
    &&& text.subrange(at, at + pattern.len()) == pattern
}

/// `text` with every occurrence of `from` replaced by `to`, found from the
/// left and not overlapping. An empty `from` occurs nowhere.
pub open spec fn replaced(text: Seq<char>, from: Seq<char>, to: Seq<char>) -> Seq<char>
    decreases text.len(),
{
    if from.len() == 0 || text.len() == 0 {
        text
    } else if occurs_at(text, 0, from) {
        to + replaced(text.skip(from.len() as int), from, to)
    } else {
        seq![text[0]] + replaced(text.skip(1), from, to)
    }
}

fn stands_at(text: &str, text_len: usize, at: usize, pattern: &str, pattern_len: usize) -> (r:
    bool)
    requires
        text_len == text@.len(),
        pattern_len == pattern@.len(),
        at <= text_len,
    ensures
        r == occurs_at(text@, at as int, pattern@),
{
    if pattern_len > text_len - at {
        return false;
    }
    let mut k: usize = 0;
    while k < pattern_len
        invariant
            k <= pattern_len,
            text_len == text@.len(),
            pattern_len == pattern@.len(),
            at + pattern_len <= text_len,
            forall|j: int| 0 <= j < k ==> text@[at + j] == pattern@[j],
        decreases pattern_len - k,
    {
        if text.get_char(at + k) != pattern.get_char(k) {
            assert(text@.subrange(at as int, at + pattern_len)[k as int] != pattern@[k as int]);
            return false;
        }
        k += 1;
    }
    assert(text@.subrange(at as int, at + pattern_len) =~= pattern@);
    true
}

/// `text` with every occurrence of `from` replaced by `to`.
pub fn replace_all(text: &str, from: &str, to: &str) -> (r: String)
    ensures
        r@ == replaced(text@, from@, to@),
{
    let text_len = text.unicode_len();
    let from_len = from.unicode_len();
    if from_len == 0 {
        return String::from_str(text);
    }
    let mut out = String::new();
    let mut at: usize = 0;
    assert(text@.skip(0) == text@);
    while at < text_len
        invariant
            at <= text_len,
            text_len == text@.len(),
            from_len == from@.len(),
            from_len > 0,
            out@ + replaced(text@.skip(at as int), from@, to@) == replaced(text@, from@, to@),
        decreases text_len - at,
    {
        let ghost rest = text@.skip(at as int);
        if stands_at(text, text_len, at, from, from_len) {
            assert(rest.subrange(0, from_len as int) == text@.subrange(
                at as int,
                at + from_len,
            ));
            assert(rest.skip(from_len as int) == text@.skip(at + from_len));
            assert(out@ + (to@ + replaced(rest.skip(from_len as int), from@, to@)) == (out@ + to@)
                + replaced(rest.skip(from_len as int), from@, to@));
            out.append(to);
            at += from_len;
        } else {
            assert(rest.subrange(0, from_len as int) == text@.subrange(
                at as int,
                at + from_len,
            ) || at + from_len > text_len);
            assert(rest.skip(1) == text@.skip(at + 1));
            let one = text.substring_char(at, at + 1);
            assert(one@ == seq![rest[0]]);
            assert(out@ + (seq![rest[0]] + replaced(rest.skip(1), from@, to@)) == (out@ + one@)
                + replaced(rest.skip(1), from@, to@));
            out.append(one);
            at += 1;
        }
    }
    assert(text@.skip(text_len as int) == Seq::<char>::empty());
    assert(out@ + Seq::<char>::empty() == out@);
    out
}

} // verus!
