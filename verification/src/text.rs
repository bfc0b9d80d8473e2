//! Text helpers: comparison, concatenation, literal replacement and the
//! reading of numbers, stated over the characters of a text.

use vstd::prelude::*;

verus! {

/// `str`'s `==`: two string slices are equal exactly when they hold the same
/// characters.
pub assume_specification[ <str as PartialEq>::eq ](a: &str, b: &str) -> (r: bool)
    ensures
        r == (a@ == b@),
;

/// `String::push`: appends one character to the end of the string.
pub assume_specification[ String::push ](s: &mut String, c: char)
    ensures
        final(s)@ == old(s)@.push(c),
;

/// The characters of `s`, one by one.
pub fn chars_of(s: &str) -> (r: Vec<char>)
    ensures
        r@ == s@,
{
    let mut out: Vec<char> = Vec::new();
    let n: usize = s.unicode_len();
    let mut i: usize = 0;
    while i < n
        invariant
            n == s@.len(),
            i <= n,
            out@ == s@.subrange(0, i as int),
        decreases n - i,
    {
        out.push(s.get_char(i));
        i += 1;
    }
    out
}

/// The string made of the characters `chars[from..to]`.
pub fn string_of(chars: &Vec<char>, from: usize, to: usize) -> (r: String)
    requires
        from <= to <= chars@.len(),
    ensures
        r@ == chars@.subrange(from as int, to as int),
{
    let mut out = String::new();
    let mut i: usize = from;
    while i < to
        invariant
            from <= i <= to <= chars@.len(),
            out@ == chars@.subrange(from as int, i as int),
        decreases to - i,
    {
        out.push(chars[i]);
        i += 1;
    }
    out
}

/// `a` followed by `b`.
pub fn joined(a: &str, b: &str) -> (r: String)
    ensures
        r@ == a@ + b@,
{
    let mut out = a.to_string();
    out.append(b);
    out
}

/// Whether `pat` stands in `s` at position `at`.
pub open spec fn occurs_at(s: Seq<char>, pat: Seq<char>, at: int) -> bool {
    0 <= at && at + pat.len() <= s.len() && s.subrange(at, at + pat.len()) == pat
}

/// The text `s` from position `at` on, with every occurrence of `pat`
/// replaced by `to`: occurrences are found from left to right and do not
/// overlap. An empty `pat` occurs nowhere.
pub open spec fn replaced_from(s: Seq<char>, pat: Seq<char>, to: Seq<char>, at: int) -> Seq<char>
    decreases s.len() - at,
{
    if at < 0 || at >= s.len() {
        Seq::empty()
    } else if pat.len() > 0 && occurs_at(s, pat, at) {
        to + replaced_from(s, pat, to, at + pat.len())
    } else {
        seq![s[at]] + replaced_from(s, pat, to, at + 1)
    }
}

/// The text `s` with every occurrence of `pat` replaced by `to`.
pub open spec fn replaced(s: Seq<char>, pat: Seq<char>, to: Seq<char>) -> Seq<char> {
    replaced_from(s, pat, to, 0)
}

/// Whether `pat` stands in `s` at position `at`.
pub fn matches_at(s: &Vec<char>, pat: &Vec<char>, at: usize) -> (r: bool)
    requires
        at <= s@.len(),
    ensures
        r == occurs_at(s@, pat@, at as int),
{
    if pat.len() > s.len() - at {
        return false;
    }
    let mut j: usize = 0;
    while j < pat.len()
        invariant
            at + pat@.len() <= s@.len() <= usize::MAX,
            j <= pat@.len(),
            s@.subrange(at as int, at + j) == pat@.subrange(0, j as int),
        decreases pat@.len() - j,
    {
        if s[at + j] != pat[j] {
            assert(s@.subrange(at as int, at + pat@.len())[j as int] != pat@[j as int]);
            return false;
        }
        assert(s@.subrange(at as int, at + j + 1) =~= s@.subrange(at as int, at + j).push(
            s@[at + j],
        ));
        assert(pat@.subrange(0, j + 1) =~= pat@.subrange(0, j as int).push(pat@[j as int]));
        j += 1;
    }
    assert(pat@.subrange(0, pat@.len() as int) =~= pat@);
    true
}

/// `s` with every occurrence of `pat` replaced by `to`.
pub fn replace_all(s: &str, pat: &str, to: &str) -> (r: String)
    ensures
        r@ == replaced(s@, pat@, to@),
{
    let sc = chars_of(s);
    let pc = chars_of(pat);
    let mut out = String::new();
    let mut i: usize = 0;
    while i < sc.len()
        invariant
            i <= sc@.len(),
            sc@ == s@,
            pc@ == pat@,
            replaced(s@, pat@, to@) == out@ + replaced_from(s@, pat@, to@, i as int),
        decreases sc@.len() - i,
    {
        let ghost before = out@;
        if pc.len() > 0 && matches_at(&sc, &pc, i) {
            out.append(to);
            assert(before + (to@ + replaced_from(s@, pat@, to@, i + pat@.len())) =~= (before
                + to@) + replaced_from(s@, pat@, to@, i + pat@.len()));
            i += pc.len();
        } else {
            out.push(sc[i]);
            assert(before + (seq![s@[i as int]] + replaced_from(s@, pat@, to@, i + 1))
                =~= before.push(s@[i as int]) + replaced_from(s@, pat@, to@, i + 1));
            i += 1;
        }
    }
    assert(out@ + Seq::<char>::empty() =~= out@);
    out
}

/// Whether a character is one of the ten decimal digits.
pub open spec fn is_digit(c: char) -> bool {
    48 <= c as u32 <= 57
}

/// The number that the first `n` characters spell, all of them digits.
pub open spec fn digits_value(digits: Seq<char>, n: int) -> nat
    decreases n,
{
    if n <= 0 || n > digits.len() {
        0
    } else {
        (10 * digits_value(digits, n - 1) + (digits[n - 1] as u32 - 48)) as nat
    }
}

/// A text without the plus sign that may stand before its digits.
pub open spec fn unsigned_part(text: Seq<char>) -> Seq<char> {
    if text.len() > 0 && text[0] == '+' {
        text.subrange(1, text.len() as int)
    } else {
        text
    }
}

/// The number that a text spells in decimal digits, with or without a plus
/// sign before them; `None` for any other text and for a number above
/// 2^64 - 1.
pub open spec fn decimal_u64(text: Seq<char>) -> Option<u64> {
    let digits = unsigned_part(text);
    if digits.len() > 0 && (forall|i: int| 0 <= i < digits.len() ==> is_digit(#[trigger] digits[i]))
        && digits_value(digits, digits.len() as int) <= u64::MAX {
        Some(digits_value(digits, digits.len() as int) as u64)
    } else {
        None
    }
}

/// A longer run of digits spells no smaller number.
pub proof fn lemma_digits_value_grows(digits: Seq<char>, i: int, n: int)
    requires
        0 <= i <= n <= digits.len(),
        forall|j: int| 0 <= j < digits.len() ==> is_digit(#[trigger] digits[j]),
    ensures
        digits_value(digits, i) <= digits_value(digits, n),
    decreases n - i,
{
    if i < n {
        lemma_digits_value_grows(digits, i, n - 1);
    }
}

/// Reads a number from its decimal digits.
pub fn parse_u64(text: &str) -> (r: Option<u64>)
    ensures
        r == decimal_u64(text@),
{
    let chars = chars_of(text);
    let start: usize = if chars.len() > 0 && chars[0] == '+' {
        1
    } else {
        0
    };
    let ghost digits = unsigned_part(text@);
    assert(digits =~= chars@.subrange(start as int, chars@.len() as int));
    if chars.len() == start {
        return None;
    }
    let mut value: u64 = 0;
    let mut i: usize = start;
    while i < chars.len()
        invariant
            start <= i <= chars@.len(),
            start <= 1,
            digits == unsigned_part(text@),
            digits == chars@.subrange(start as int, chars@.len() as int),
            forall|j: int| 0 <= j < i - start ==> is_digit(#[trigger] digits[j]),
            value == digits_value(digits, i - start),
        decreases chars@.len() - i,
    {
        let n = chars[i] as u32;
        assert(digits[i - start] == chars@[i as int]);
        if n < 48 || n > 57 {
            assert(!is_digit(digits[i - start]));
            return None;
        }
        let d = (n - 48) as u64;
        if value > (u64::MAX - d) / 10 {
            proof {
                assert(digits_value(digits, i - start + 1) > u64::MAX);
                if forall|j: int| 0 <= j < digits.len() ==> is_digit(#[trigger] digits[j]) {
                    lemma_digits_value_grows(digits, i - start + 1, digits.len() as int);
                }
            }
            return None;
        }
        value = value * 10 + d;
        i += 1;
    }
    Some(value)
}

/// The text that `str::to_lowercase` makes of a text.
pub uninterp spec fn lowercase(s: Seq<char>) -> Seq<char>;

/// `str::to_lowercase`: the lowercase equivalent of the text, as a new
/// string.
pub assume_specification[ str::to_lowercase ](s: &str) -> (r: String)
    ensures
        r@ == lowercase(s@),
;

} // verus!
