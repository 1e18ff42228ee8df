//! Character-level helpers for the request text: whitespace, splitting at a
//! delimiter, and decimal numbers.

use vstd::prelude::*;
use vstd::utf8::{valid_utf8, decode_utf8, encode_utf8_decode_utf8};
use vstd::string::StringSliceAdditionalSpecFns;
use vstd::std_specs::iter::IteratorSpec;

verus! {

broadcast use vstd::string::group_string_axioms;

/// The characters Unicode gives the `White_Space` property, which is what
/// `char::is_whitespace` tests for.
pub open spec fn is_whitespace(c: char) -> bool {
    let v = c as u32;
    ||| 0x09 <= v <= 0x0D
    ||| v == 0x20
    ||| v == 0x85
    ||| v == 0xA0
    ||| v == 0x1680
    ||| 0x2000 <= v <= 0x200A
    ||| v == 0x2028
    ||| v == 0x2029
    ||| v == 0x202F
    ||| v == 0x205F
    ||| v == 0x3000
}

/// Whether `c` is Unicode whitespace.
pub fn whitespace(c: char) -> (result: bool)
    ensures
        result == is_whitespace(c),
{
    let v = c as u32;
    (0x09 <= v && v <= 0x0D) || v == 0x20 || v == 0x85 || v == 0xA0 || v == 0x1680 || (0x2000 <= v
        && v <= 0x200A) || v == 0x2028 || v == 0x2029 || v == 0x202F || v == 0x205F || v == 0x3000
}

/// Number of whitespace characters `s` starts with.
pub open spec fn leading_whitespace(s: Seq<char>) -> nat
    decreases s.len(),
{
    if s.len() > 0 && is_whitespace(s[0]) {
        1 + leading_whitespace(s.drop_first())
    } else {
        0
    }
}

/// Number of non-whitespace characters `s` starts with.
pub open spec fn leading_word(s: Seq<char>) -> nat
    decreases s.len(),
{
    if s.len() > 0 && !is_whitespace(s[0]) {
        1 + leading_word(s.drop_first())
    } else {
        0
    }
}

/// The first whitespace-separated token of `s`, or nothing if there is none.
pub open spec fn first_token(s: Seq<char>) -> Seq<char> {
    let rest = s.skip(leading_whitespace(s) as int);
    rest.take(leading_word(rest) as int)
}

/// What follows the first whitespace-separated token of `s`.
pub open spec fn after_first_token(s: Seq<char>) -> Seq<char> {
    let rest = s.skip(leading_whitespace(s) as int);
    rest.skip(leading_word(rest) as int)
}

/// Index of the first `c` in `s`, or the length of `s` if there is none.
pub open spec fn first_index(s: Seq<char>, c: char) -> nat
    decreases s.len(),
{
    if s.len() == 0 {
        0
    } else if s[0] == c {
        0
    } else {
        1 + first_index(s.drop_first(), c)
    }
}

proof fn lemma_leading_whitespace_bound(s: Seq<char>)
    ensures
        leading_whitespace(s) <= s.len(),
    decreases s.len(),
{
    if s.len() > 0 && is_whitespace(s[0]) {
        lemma_leading_whitespace_bound(s.drop_first());
    }
}

proof fn lemma_leading_word_bound(s: Seq<char>)
    ensures
        leading_word(s) <= s.len(),
    decreases s.len(),
{
    if s.len() > 0 && !is_whitespace(s[0]) {
        lemma_leading_word_bound(s.drop_first());
    }
}

/// `first_index` is the index of the first occurrence, as every index before
/// it holds something else.
pub proof fn lemma_first_index(s: Seq<char>, c: char)
    ensures
        first_index(s, c) <= s.len(),
        forall|j: int| 0 <= j < first_index(s, c) ==> s[j] != c,
        first_index(s, c) < s.len() ==> s[first_index(s, c) as int] == c,
    decreases s.len(),
{
    if s.len() > 0 && s[0] != c {
        lemma_first_index(s.drop_first(), c);
        assert forall|j: int| 0 <= j < first_index(s, c) implies s[j] != c by {
            if j > 0 {
                assert(s[j] == s.drop_first()[j - 1]);
            }
        }
    }
}

/// Position just past the whitespace that starts at `start`.
pub fn skip_whitespace(s: &Vec<char>, start: usize) -> (end: usize)
    requires
        start <= s.len(),
    ensures
        end == start + leading_whitespace(s@.skip(start as int)),
        end <= s.len(),
{
    let mut i = start;
    proof {
        lemma_leading_whitespace_bound(s@.skip(start as int));
    }
    while i < s.len() && whitespace(s[i])
        invariant
            start <= i <= s.len(),
            i - start + leading_whitespace(s@.skip(i as int)) == leading_whitespace(s@.skip(start as int)),
        decreases s.len() - i,
    {
        assert(s@.skip(i as int).drop_first() =~= s@.skip(i as int + 1));
        i = i + 1;
    }
    i
}

/// Position just past the run of non-whitespace that starts at `start`.
pub fn skip_word(s: &Vec<char>, start: usize) -> (end: usize)
    requires
        start <= s.len(),
    ensures
        end == start + leading_word(s@.skip(start as int)),
        end <= s.len(),
{
    let mut i = start;
    proof {
        lemma_leading_word_bound(s@.skip(start as int));
    }
    while i < s.len() && !whitespace(s[i])
        invariant
            start <= i <= s.len(),
            i - start + leading_word(s@.skip(i as int)) == leading_word(s@.skip(start as int)),
        decreases s.len() - i,
    {
        assert(s@.skip(i as int).drop_first() =~= s@.skip(i as int + 1));
        i = i + 1;
    }
    i
}

/// Position of the first `c` at or after `start`, and before `end`; `end` if
/// there is none.
pub fn find_char(s: &[char], start: usize, end: usize, c: char) -> (found: usize)
    requires
        start <= end <= s.len(),
    ensures
        found == start + first_index(s@.subrange(start as int, end as int), c),
        found <= end,
{
    let mut i = start;
    proof {
        lemma_first_index(s@.subrange(start as int, end as int), c);
    }
    while i < end && s[i] != c
        invariant
            start <= i <= end,
            end <= s.len(),
            i - start + first_index(s@.subrange(i as int, end as int), c) == first_index(
                s@.subrange(start as int, end as int),
                c,
            ),
        decreases end - i,
    {
        assert(s@.subrange(i as int, end as int).drop_first() =~= s@.subrange(i as int + 1, end as int));
        i = i + 1;
    }
    i
}

/// Whether `s[start..end]` spells out `word`.
pub fn range_equals(s: &[char], start: usize, end: usize, word: &[char]) -> (equal: bool)
    requires
        start <= end <= s.len(),
    ensures
        equal == (s@.subrange(start as int, end as int) == word@),
{
    if end - start != word.len() {
        assert(s@.subrange(start as int, end as int).len() != word@.len());
        return false;
    }
    let mut i: usize = 0;
    while i < word.len()
        invariant
            end - start == word.len(),
            start <= end <= s.len(),
            i <= word.len(),
            forall|j: int| 0 <= j < i ==> s@[start + j] == word@[j],
        decreases word.len() - i,
    {
        if s[start + i] != word[i] {
            assert(s@.subrange(start as int, end as int)[i as int] != word@[i as int]);
            return false;
        }
        i = i + 1;
    }
    assert(s@.subrange(start as int, end as int) =~= word@);
    true
}

/// The characters of `text`, in order.
pub fn chars_of(text: &str) -> (chars: Vec<char>)
    ensures
        chars@ == text@,
{
    let mut chars: Vec<char> = Vec::new();
    for c in it: text.chars()
        invariant
            chars@ == it.seq().take(it.index() as int),
    {
        chars.push(c);
        assert(it.seq().take(it.index() as int + 1) =~= it.seq().take(it.index() as int).push(c));
    }
    assert(chars@ =~= text@);
    chars
}

/// `core::str::from_utf8`: the text `bytes` encode, if they are valid UTF-8.
///
/// The standard library documents that it succeeds exactly on valid UTF-8
/// and then returns a string slice over the very same bytes.
#[verifier::external_body]
fn utf8_text(bytes: &[u8]) -> (text: Option<&str>)
    ensures
        text is Some <==> valid_utf8(bytes@),
        text matches Some(t) ==> t.spec_bytes() == bytes@,
{
    core::str::from_utf8(bytes).ok()
}

/// The characters `bytes` encode as UTF-8, or no characters at all if they
/// are not valid UTF-8.
pub fn decode_text(bytes: &[u8]) -> (chars: Vec<char>)
    ensures
        chars@ == if valid_utf8(bytes@) {
            decode_utf8(bytes@)
        } else {
            Seq::<char>::empty()
        },
{
    match utf8_text(bytes) {
        Some(text) => {
            proof {
                encode_utf8_decode_utf8(text@);
            }
            chars_of(text)
        },
        None => Vec::new(),
    }
}

/// Whether `c` is an ASCII decimal digit.
pub open spec fn is_digit(c: char) -> bool {
    '0' <= c <= '9'
}

/// Value of a run of decimal digits.
pub open spec fn digits_value(s: Seq<char>) -> nat
    decreases s.len(),
{
    if s.len() == 0 {
        0
    } else {
        digits_value(s.drop_last()) * 10 + (s.last() as nat - '0' as nat) as nat
    }
}

/// Whether every character of `s` is a decimal digit.
pub open spec fn all_digits(s: Seq<char>) -> bool {
    forall|i: int| 0 <= i < s.len() ==> is_digit(#[trigger] s[i])
}

/// The digits of an unsigned number as `str::parse` reads them: an optional
/// leading `+` followed by at least one decimal digit.
pub open spec fn unsigned_digits(s: Seq<char>) -> Option<Seq<char>> {
    let digits = if s.len() > 0 && s[0] == '+' {
        s.drop_first()
    } else {
        s
    };
    if digits.len() > 0 && all_digits(digits) {
        Some(digits)
    } else {
        None
    }
}

/// The value `str::parse` gives an unsigned integer no larger than `max`.
pub open spec fn parse_unsigned(s: Seq<char>, max: nat) -> Option<nat> {
    match unsigned_digits(s) {
        Some(digits) => if digits_value(digits) <= max {
            Some(digits_value(digits))
        } else {
            None
        },
        None => None,
    }
}

/// Parse a decimal number the way `str::parse::<u64>` does; `None` on
/// anything else or on overflow.
pub fn parse_u64(s: &[char]) -> (value: Option<u64>)
    ensures
        value == match parse_unsigned(s@, u64::MAX as nat) {
            Some(v) => Some(v as u64),
            None => None::<u64>,
        },
{
    let start: usize = if s.len() > 0 && s[0] == '+' { 1 } else { 0 };
    let ghost digits = if s@.len() > 0 && s@[0] == '+' { s@.drop_first() } else { s@ };
    assert(digits =~= s@.subrange(start as int, s@.len() as int));
    if start == s.len() {
        return None;
    }
    let mut value: u64 = 0;
    let mut overflow = false;
    let mut i = start;
    while i < s.len()
        invariant
            start <= i <= s.len(),
            digits == s@.subrange(start as int, s@.len() as int),
            digits == (if s@.len() > 0 && s@[0] == '+' { s@.drop_first() } else { s@ }),
            forall|j: int| start <= j < i ==> is_digit(#[trigger] s@[j]),
            !overflow ==> value == digits_value(s@.subrange(start as int, i as int)),
            overflow ==> digits_value(s@.subrange(start as int, i as int)) > u64::MAX,
        decreases s.len() - i,
    {
        let c = s[i];
        if !('0' <= c && c <= '9') {
            proof {
                let k = i - start;
                assert(digits[k] == c);
                assert(!is_digit(digits[k]));
                assert(!all_digits(digits));
                assert(unsigned_digits(s@) is None);
            }
            return None;
        }
        let digit = (c as u32 - '0' as u32) as u64;
        let ghost before = s@.subrange(start as int, i as int);
        assert(s@.subrange(start as int, i as int + 1).drop_last() =~= before);
        proof {
            let d = digits_value(before);
            assert(digits_value(s@.subrange(start as int, i as int + 1)) == d * 10 + digit);
            if overflow {
                assert(d * 10 + digit > u64::MAX) by (nonlinear_arith)
                    requires d > u64::MAX, digit >= 0;
            }
        }
        if !overflow {
            if value > (u64::MAX - digit) / 10 {
                overflow = true;
                proof {
                    let d = value as int;
                    assert(d * 10 + digit > u64::MAX) by (nonlinear_arith)
                        requires d > (u64::MAX - digit) / 10, 0 <= digit <= 9;
                }
            } else {
                proof {
                    let d = value as int;
                    assert(d * 10 + digit <= u64::MAX) by (nonlinear_arith)
                        requires d <= (u64::MAX - digit) / 10, 0 <= digit <= 9;
                }
                value = value * 10 + digit;
            }
        }
        i = i + 1;
    }
    assert(s@.subrange(start as int, s@.len() as int) =~= digits);
    if overflow {
        None
    } else {
        Some(value)
    }
}

} // verus!
