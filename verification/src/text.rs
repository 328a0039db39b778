//! Comparisons and small queries on strings, by their characters.

use vstd::prelude::*;
use vstd::string::StrSliceExecFns;
use vstd::string::StringExecFns;
use vstd::string::StringSliceAdditionalSpecFns;
use vstd::utf8::encode_utf8_decode_utf8;

verus! {

/// The values of a list of strings.
pub open spec fn string_views(strings: Seq<String>) -> Seq<Seq<char>> {
    Seq::new(strings.len(), |i: int| strings[i]@)
}

/// Whether `left` and `right` hold the same characters.
pub fn str_eq(left: &str, right: &str) -> (equal: bool)
    ensures
        equal == (left@ == right@),
{
    let a = left.as_bytes();
    let b = right.as_bytes();
    if a.len() != b.len() {
        return false;
    }
    let mut i: usize = 0;
    while i < a.len()
        invariant
            i <= a.len(),
            a@.len() == b@.len(),
            a@ == left.spec_bytes(),
            b@ == right.spec_bytes(),
            forall|k: int| 0 <= k < i ==> a@[k] == b@[k],
        decreases a.len() - i,
    {
        if a[i] != b[i] {
            return false;
        }
        i += 1;
    }
    proof {
        assert(a@ =~= b@);
        encode_utf8_decode_utf8(left@);
        encode_utf8_decode_utf8(right@);
    }
    true
}

/// The only character of `text`, if it has exactly one.
pub fn single_char(text: &str) -> (only: Option<char>)
    ensures
        only == (if text@.len() == 1 {
            Some(text@[0])
        } else {
            None
        }),
{
    if text.unicode_len() == 1 {
        Some(text.get_char(0))
    } else {
        None
    }
}

/// The first character of `text`, if it has any.
pub fn first_char(text: &str) -> (first: Option<char>)
    ensures
        first == (if text@.len() > 0 {
            Some(text@[0])
        } else {
            None
        }),
{
    if text.unicode_len() > 0 {
        Some(text.get_char(0))
    } else {
        None
    }
}

/// The upper case form of an ASCII letter; any other character itself.
pub open spec fn ascii_upper(c: char) -> char {
    if 'a' <= c <= 'z' {
        ((c as u32) - 32) as char
    } else {
        c
    }
}

/// `text` with each ASCII letter in upper case.
pub open spec fn ascii_uppercase(text: Seq<char>) -> Seq<char> {
    Seq::new(text.len(), |i: int| ascii_upper(text[i]))
}

/// `text` with every occurrence of `from` replaced by `to`, the
/// occurrences taken from the left and not overlapping. The empty string
/// occurs nowhere.
pub open spec fn replaced(text: Seq<char>, from: Seq<char>, to: Seq<char>) -> Seq<char>
    decreases text.len(),
{
    if from.len() == 0 || text.len() < from.len() {
        text
    } else if text.take(from.len() as int) == from {
        to + replaced(text.skip(from.len() as int), from, to)
    } else {
        seq![text[0]] + replaced(text.skip(1), from, to)
    }
}

/// `String::push`: appends one character to the text.
#[verifier::external_body]
pub(crate) fn push_char(text: &mut String, c: char)
    ensures
        final(text)@ == old(text)@.push(c),
{
    text.push(c)
}

/// A copy of `text` in which the ASCII letters `a` to `z` are `A` to `Z`
/// and every other character is unchanged.
pub fn to_ascii_uppercase(text: &str) -> (upper: String)
    ensures
        upper@ == ascii_uppercase(text@),
{
    let len = text.unicode_len();
    let mut upper = String::new();
    let mut i: usize = 0;
    while i < len
        invariant
            i <= len,
            len == text@.len(),
            upper@ == ascii_uppercase(text@).take(i as int),
        decreases len - i,
    {
        let c = text.get_char(i);
        let raised = if 'a' <= c && c <= 'z' {
            ((c as u8) - 32) as char
        } else {
            c
        };
        push_char(&mut upper, raised);
        i += 1;
    }
    upper
}

/// A copy of `text` in which every occurrence of `from` is replaced by
/// `to`. Nothing is replaced where `from` is empty.
pub fn replace(text: &str, from: &str, to: &str) -> (result: String)
    ensures
        result@ == replaced(text@, from@, to@),
{
    let len = text.unicode_len();
    let width = from.unicode_len();
    if width == 0 {
        return text.to_owned();
    }
    let mut result = String::new();
    let mut i: usize = 0;
    assert(text@.skip(0) =~= text@);
    while i < len
        invariant
            i <= len,
            len == text@.len(),
            width == from@.len(),
            width > 0,
            result@ + replaced(text@.skip(i as int), from@, to@) == replaced(text@, from@, to@),
        decreases len - i,
    {
        let ghost rest = text@.skip(i as int);
        if len - i < width {
            result.append(text.substring_char(i, len));
            i = len;
        } else if str_eq(text.substring_char(i, i + width), from) {
            result.append(to);
            assert(text@.subrange(i as int, i + width) =~= rest.take(width as int));
            assert(rest.skip(width as int) =~= text@.skip(i + width));
            i += width;
        } else {
            result.append(text.substring_char(i, i + 1));
            assert(text@.subrange(i as int, i + width) =~= rest.take(width as int));
            assert(rest.skip(1) =~= text@.skip(i + 1));
            i += 1;
        }
    }
    result
}

} // verus!
