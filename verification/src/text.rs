//! Text handling: trimming of raw bytes, and the string operations of the
//! standard library that the protocol and the commands rely on.

use vstd::prelude::*;
use vstd::slice::{slice_subrange, slice_to_vec};
use vstd::utf8::{decode_utf8, valid_utf8};

verus! {

/// ASCII whitespace: space, tab, line feed, form feed, carriage return.
pub open spec fn is_space(b: u8) -> bool {
    b == 32 || b == 9 || b == 10 || b == 12 || b == 13
}

/// `s` without the whitespace at its front.
pub open spec fn trim_front(s: Seq<u8>) -> Seq<u8>
    decreases s.len(),
{
    if s.len() > 0 && is_space(s[0]) {
        trim_front(s.drop_first())
    } else {
        s
    }
}

/// `s` without the whitespace at its end.
pub open spec fn trim_back(s: Seq<u8>) -> Seq<u8>
    decreases s.len(),
{
    if s.len() > 0 && is_space(s.last()) {
        trim_back(s.drop_last())
    } else {
        s
    }
}

/// `s` without the whitespace at either end.
pub open spec fn trimmed(s: Seq<u8>) -> Seq<u8> {
    trim_back(trim_front(s))
}

/// Tells whether `b` is ASCII whitespace.
pub fn byte_is_space(b: u8) -> (r: bool)
    ensures
        r == is_space(b),
{
    b == 32 || b == 9 || b == 10 || b == 12 || b == 13
}

/// Copies `bytes` without the ASCII whitespace at either end.
pub fn trim_bytes(bytes: &[u8]) -> (out: Vec<u8>)
    ensures
        out@ == trimmed(bytes@),
{
    let len: usize = bytes.len();
    let mut start: usize = 0;
    assert(bytes@.subrange(0, len as int) =~= bytes@);
    while start < len && byte_is_space(bytes[start])
        invariant
            len == bytes@.len(),
            0 <= start <= len,
            trim_front(bytes@) == trim_front(bytes@.subrange(start as int, len as int)),
        decreases len - start,
    {
        assert(bytes@.subrange(start as int, len as int).drop_first() =~= bytes@.subrange(
            start as int + 1,
            len as int,
        ));
        start += 1;
    }
    let ghost front = bytes@.subrange(start as int, len as int);
    assert(trim_front(bytes@) == front);
    let mut end: usize = len;
    while end > start && byte_is_space(bytes[end - 1])
        invariant
            len == bytes@.len(),
            start <= end <= len,
            front == bytes@.subrange(start as int, len as int),
            trim_back(front) == trim_back(bytes@.subrange(start as int, end as int)),
        decreases end - start,
    {
        assert(bytes@.subrange(start as int, end as int).drop_last() =~= bytes@.subrange(
            start as int,
            end as int - 1,
        ));
        end -= 1;
    }
    slice_to_vec(slice_subrange(bytes, start, end))
}

/// The name of what `str::to_uppercase` gives for a text.
pub uninterp spec fn uppercased(s: Seq<char>) -> Seq<char>;

/// `String::from_utf8`: succeeds on well-formed UTF-8, and on nothing else, and
/// gives the text that the bytes encode.
#[verifier::external_body]
pub(crate) fn text_of_bytes(bytes: Vec<u8>) -> (r: Option<String>)
    ensures
        r is Some <==> valid_utf8(bytes@),
        r is Some ==> r->0@ == decode_utf8(bytes@),
{
    match String::from_utf8(bytes) {
        Ok(s) => Some(s),
        Err(_) => None,
    }
}

/// `str::to_uppercase`.
#[verifier::external_body]
pub(crate) fn upper(s: &str) -> (r: String)
    ensures
        r@ == uppercased(s@),
{
    s.to_uppercase()
}

/// The first index at or after `from` that holds `c`, or the length of `s`
/// where there is none.
pub open spec fn first_char(s: Seq<char>, c: char, from: int) -> int
    decreases s.len() - from,
{
    if from >= s.len() || s[from] == c {
        from
    } else {
        first_char(s, c, from + 1)
    }
}

/// A text splits at the first `c`: none stands before the index that
/// `first_char` gives, and one stands there unless the index is the length.
pub proof fn lemma_first_char(s: Seq<char>, c: char, from: int)
    requires
        0 <= from <= s.len(),
    ensures
        from <= first_char(s, c, from) <= s.len(),
        forall|i: int| from <= i < first_char(s, c, from) ==> s[i] != c,
        first_char(s, c, from) < s.len() ==> s[first_char(s, c, from)] == c,
    decreases s.len() - from,
{
    if from < s.len() && s[from] != c {
        lemma_first_char(s, c, from + 1);
    }
}

/// `str::split_once` with a character as delimiter: `None` where the text
/// does not hold it, else the parts before and after the first one.
#[verifier::external_body]
pub(crate) fn split_once_at<'a>(s: &'a str, delimiter: char) -> (r: Option<(&'a str, &'a str)>)
    ensures
        r is None <==> !s@.contains(delimiter),
        r is Some ==> {
            let (head, tail) = r->0;
            head@ + seq![delimiter] + tail@ == s@ && !head@.contains(delimiter)
        },
{
    s.split_once(delimiter)
}

/// Splits a text at the first `delimiter`: the parts before and after it, or
/// `None` where the text does not hold it.
pub fn split_first<'a>(s: &'a str, delimiter: char) -> (r: Option<(&'a str, &'a str)>)
    ensures
        r is Some <==> first_char(s@, delimiter, 0) < s@.len(),
        r is Some ==> {
            let at = first_char(s@, delimiter, 0);
            let (head, tail) = r->0;
            head@ == s@.take(at) && tail@ == s@.skip(at + 1)
        },
{
    proof {
        lemma_first_char(s@, delimiter, 0);
    }
    let r = split_once_at(s, delimiter);
    proof {
        let at = first_char(s@, delimiter, 0);
        match r {
            Some((head, tail)) => {
                assert((head@ + seq![delimiter] + tail@)[head@.len() as int] == delimiter);
                if at < head@.len() {
                    assert((head@ + seq![delimiter] + tail@)[at] == head@[at]);
                    assert(head@.contains(delimiter));
                }
                assert(at == head@.len());
                assert(s@.take(at) =~= head@);
                assert(s@.skip(at + 1) =~= tail@);
            },
            None => {
                if at < s@.len() {
                    assert(s@.contains(delimiter));
                }
            },
        }
    }
    r
}

/// The characters that Unicode gives the property `White_Space`.
pub open spec fn is_whitespace(c: char) -> bool {
    let n = c as u32;
    ||| 0x09 <= n <= 0x0D
    ||| n == 0x20
    ||| n == 0x85
    ||| n == 0xA0
    ||| n == 0x1680
    ||| 0x2000 <= n <= 0x200A
    ||| n == 0x2028
    ||| n == 0x2029
    ||| n == 0x202F
    ||| n == 0x205F
    ||| n == 0x3000
}

/// A text without the white space at its front.
pub open spec fn text_trim_front(s: Seq<char>) -> Seq<char>
    decreases s.len(),
{
    if s.len() > 0 && is_whitespace(s[0]) {
        text_trim_front(s.drop_first())
    } else {
        s
    }
}

/// A text without the white space at its end.
pub open spec fn text_trim_back(s: Seq<char>) -> Seq<char>
    decreases s.len(),
{
    if s.len() > 0 && is_whitespace(s.last()) {
        text_trim_back(s.drop_last())
    } else {
        s
    }
}

/// A text without the white space at either end.
pub open spec fn text_trimmed(s: Seq<char>) -> Seq<char> {
    text_trim_back(text_trim_front(s))
}

/// `str::trim`: the text without its leading and trailing white space, which
/// is what Unicode gives the property `White_Space`.
#[verifier::external_body]
pub(crate) fn trim_text<'a>(s: &'a str) -> (r: &'a str)
    ensures
        r@ == text_trimmed(s@),
{
    s.trim()
}

/// `str::strip_prefix` with a text as pattern: `None` where `s` does not start
/// with `prefix`, else what follows it.
#[verifier::external_body]
pub(crate) fn after_prefix<'a>(s: &'a str, prefix: &str) -> (r: Option<&'a str>)
    ensures
        r is Some <==> prefix@.is_prefix_of(s@),
        r is Some ==> prefix@ + r->0@ == s@,
{
    s.strip_prefix(prefix)
}

/// `str::starts_with` with a text as pattern.
#[verifier::external_body]
pub(crate) fn begins_with(s: &str, prefix: &str) -> (r: bool)
    ensures
        r == prefix@.is_prefix_of(s@),
{
    s.starts_with(prefix)
}

/// `str::ends_with` with a text as pattern.
#[verifier::external_body]
pub(crate) fn finishes_with(s: &str, suffix: &str) -> (r: bool)
    ensures
        r == suffix@.is_suffix_of(s@),
{
    s.ends_with(suffix)
}

/// The ASCII digits.
pub open spec fn is_digit(c: char) -> bool {
    48 <= c as u32 <= 57
}

/// The number that a run of digits is read as, the last digit counting least.
pub open spec fn digits_value(s: Seq<char>) -> nat
    decreases s.len(),
{
    if s.len() == 0 {
        0
    } else {
        digits_value(s.drop_last()) * 10 + (s.last() as u32 - 48) as nat
    }
}

/// The number that a text denotes: an optional `+`, then one digit or more and
/// nothing else. `None` for any other text.
pub open spec fn decimal(s: Seq<char>) -> Option<nat> {
    let body = if s.len() > 0 && s[0] == '+' {
        s.drop_first()
    } else {
        s
    };
    if body.len() > 0 && (forall|i: int| 0 <= i < body.len() ==> is_digit(#[trigger] body[i])) {
        Some(digits_value(body))
    } else {
        None
    }
}

/// What parsing a text as a `usize` gives: its number, where it denotes one
/// that fits.
pub open spec fn parsed(s: Seq<char>) -> Option<usize> {
    match decimal(s) {
        Some(n) => if n <= usize::MAX {
            Some(n as usize)
        } else {
            None
        },
        None => None,
    }
}

/// `str::parse` to a `usize`: the text is an optional `+` and decimal digits,
/// and the call fails on any other text and on a number that does not fit.
#[verifier::external_body]
pub(crate) fn parse_number(s: &str) -> (r: Option<usize>)
    ensures
        r == parsed(s@),
{
    match s.parse::<usize>() {
        Ok(n) => Some(n),
        Err(_) => None,
    }
}

/// Tells whether two texts are the same.
pub fn same_text(a: &str, b: &str) -> (r: bool)
    ensures
        r == (a@ == b@),
{
    let x: String = a.to_owned();
    let y: String = b.to_owned();
    x == y
}

} // verus!
