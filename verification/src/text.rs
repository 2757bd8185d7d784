//! Text as it crosses the native boundary: C strings on the way in, bytes that
//! may or may not be UTF-8 on the way out, and the renderings of values.
use vstd::prelude::*;
use vstd::slice::slice_to_vec;
use vstd::string::StringSliceAdditionalSpecFns;
use vstd::utf8::{decode_utf8, valid_utf8};

verus! {

/// Why a string cannot be handed over as a C string: it holds a nul byte.
#[derive(Debug, PartialEq, Eq)]
pub struct NulError {
    /// Where the first nul byte stands.
    pub position: usize,
    /// The bytes of the string that was refused.
    pub bytes: Vec<u8>,
}

/// The index of the first nul byte of `bytes`, or its length where it has none.
pub open spec fn first_nul(bytes: Seq<u8>) -> int
    decreases bytes.len(),
{
    if bytes.len() == 0 || bytes[0] == 0 {
        0
    } else {
        1 + first_nul(bytes.drop_first())
    }
}

/// Whether `bytes` can stand before a terminating nul.
pub open spec fn nul_free(bytes: Seq<u8>) -> bool {
    forall|i: int| 0 <= i < bytes.len() ==> bytes[i] != 0
}

/// `first_nul` finds the least index that holds a nul byte.
pub proof fn first_nul_is_least(bytes: Seq<u8>)
    ensures
        0 <= first_nul(bytes) <= bytes.len(),
        forall|i: int| 0 <= i < first_nul(bytes) ==> bytes[i] != 0,
        first_nul(bytes) < bytes.len() ==> bytes[first_nul(bytes)] == 0,
        nul_free(bytes) <==> first_nul(bytes) == bytes.len(),
    decreases bytes.len(),
{
    if bytes.len() != 0 && bytes[0] != 0 {
        let rest = bytes.drop_first();
        first_nul_is_least(rest);
        assert forall|i: int| 0 <= i < first_nul(bytes) implies bytes[i] != 0 by {
            if i > 0 {
                assert(bytes[i] == rest[i - 1]);
            }
        }
        if first_nul(rest) < rest.len() {
            assert(bytes[first_nul(bytes)] == rest[first_nul(rest)]);
        }
    }
}

/// The index `p` holds the first nul byte of `bytes`.
pub proof fn first_nul_at(bytes: Seq<u8>, p: int)
    requires
        0 <= p < bytes.len(),
        bytes[p] == 0,
        forall|i: int| 0 <= i < p ==> bytes[i] != 0,
    ensures
        first_nul(bytes) == p,
        !nul_free(bytes),
{
    first_nul_is_least(bytes);
}

/// The bytes of `s`, ready to be followed by a terminating nul, or the place
/// of the first nul byte that `s` holds.
pub fn to_c_string(s: &str) -> (r: Result<Vec<u8>, NulError>)
    ensures
        match r {
            Ok(bytes) => nul_free(s.spec_bytes()) && bytes@ == s.spec_bytes(),
            Err(e) => !nul_free(s.spec_bytes()) && e.position == first_nul(s.spec_bytes())
                && e.bytes@ == s.spec_bytes(),
        },
{
    let bytes = s.as_bytes();
    let mut i: usize = 0;
    while i < bytes.len()
        invariant
            i <= bytes.len(),
            bytes@ == s.spec_bytes(),
            forall|j: int| 0 <= j < i ==> bytes@[j] != 0,
        decreases bytes.len() - i,
    {
        if bytes[i] == 0 {
            proof {
                first_nul_at(bytes@, i as int);
            }
            return Err(NulError { position: i, bytes: slice_to_vec(bytes) });
        }
        i += 1;
    }
    Ok(slice_to_vec(bytes))
}

/// `String::from_utf8`: the text that valid UTF-8 spells, and nothing for
/// bytes that are not valid UTF-8.
#[verifier::external_body]
pub(crate) fn decode(bytes: Vec<u8>) -> (r: Option<String>)
    ensures
        r is Some <==> valid_utf8(bytes@),
        r matches Some(s) ==> s@ == decode_utf8(bytes@),
{
    String::from_utf8(bytes).ok()
}

/// What `String::from_utf8_lossy` makes of `bytes`.
pub uninterp spec fn lossy_text(bytes: Seq<u8>) -> Seq<char>;

/// `String::from_utf8_lossy`: the text of `bytes` with each invalid sequence
/// replaced; valid UTF-8 comes out as the text it spells.
#[verifier::external_body]
pub(crate) fn decode_lossy(bytes: &Vec<u8>) -> (s: String)
    ensures
        s@ == lossy_text(bytes@),
        valid_utf8(bytes@) ==> s@ == decode_utf8(bytes@),
{
    String::from_utf8_lossy(bytes).into_owned()
}

/// `String::push`: appends one character.
#[verifier::external_body]
pub(crate) fn push_char(s: &mut String, c: char)
    ensures
        final(s)@ == old(s)@.push(c),
{
    s.push(c)
}

/// The decimal digit for `d`.
pub open spec fn digit(d: nat) -> char {
    if d == 0 {
        '0'
    } else if d == 1 {
        '1'
    } else if d == 2 {
        '2'
    } else if d == 3 {
        '3'
    } else if d == 4 {
        '4'
    } else if d == 5 {
        '5'
    } else if d == 6 {
        '6'
    } else if d == 7 {
        '7'
    } else if d == 8 {
        '8'
    } else {
        '9'
    }
}

/// The decimal digits of `n`, most significant first, without leading zeros.
pub open spec fn digits(n: nat) -> Seq<char>
    decreases n,
{
    if n < 10 {
        seq![digit(n)]
    } else {
        digits(n / 10).push(digit(n % 10))
    }
}

/// The decimal rendering of `n`: a minus sign for a negative number, then its digits.
pub open spec fn decimal(n: int) -> Seq<char> {
    if n < 0 {
        seq!['-'] + digits((-n) as nat)
    } else {
        digits(n as nat)
    }
}

fn digit_char(d: u8) -> (c: char)
    requires
        d < 10,
    ensures
        c == digit(d as nat),
{
    if d == 0 {
        '0'
    } else if d == 1 {
        '1'
    } else if d == 2 {
        '2'
    } else if d == 3 {
        '3'
    } else if d == 4 {
        '4'
    } else if d == 5 {
        '5'
    } else if d == 6 {
        '6'
    } else if d == 7 {
        '7'
    } else if d == 8 {
        '8'
    } else {
        '9'
    }
}

fn push_digits(out: &mut String, n: u64)
    ensures
        final(out)@ == old(out)@ + digits(n as nat),
    decreases n,
{
    if n >= 10 {
        push_digits(out, n / 10);
    }
    push_char(out, digit_char((n % 10) as u8));
}

/// Renders an unsigned number in decimal.
pub fn decimal_u64(n: u64) -> (s: String)
    ensures
        s@ == decimal(n as int),
{
    let mut s = String::new();
    push_digits(&mut s, n);
    s
}

/// Renders a signed number in decimal.
pub fn decimal_i64(n: i64) -> (s: String)
    ensures
        s@ == decimal(n as int),
{
    let mut s = String::new();
    if n < 0 {
        push_char(&mut s, '-');
        let magnitude: u64 = (-(n as i128)) as u64;
        push_digits(&mut s, magnitude);
    } else {
        push_digits(&mut s, n as u64);
    }
    s
}

/// `text` with a backslash put before each double quote.
pub open spec fn escaped(text: Seq<char>) -> Seq<char>
    decreases text.len(),
{
    if text.len() == 0 {
        seq![]
    } else if text.last() == '"' {
        escaped(text.drop_last()).push('\\').push('"')
    } else {
        escaped(text.drop_last()).push(text.last())
    }
}

/// In escaped text every double quote stands behind a backslash.
pub proof fn escaped_quotes_follow_backslash(text: Seq<char>)
    ensures
        forall|i: int|
            0 <= i < escaped(text).len() && #[trigger] escaped(text)[i] == '"' ==> i > 0
                && escaped(text)[i - 1] == '\\',
    decreases text.len(),
{
    if text.len() > 0 {
        let rest = escaped(text.drop_last());
        escaped_quotes_follow_backslash(text.drop_last());
        assert forall|i: int|
            0 <= i < escaped(text).len() && #[trigger] escaped(text)[i] == '"' implies i > 0
            && escaped(text)[i - 1] == '\\' by {
            if i < rest.len() {
                assert(escaped(text)[i] == rest[i]);
                assert(escaped(text)[i - 1] == rest[i - 1]);
            }
        }
    }
}

/// `text` as a string literal: between double quotes, its own quotes escaped.
pub open spec fn quoted(text: Seq<char>) -> Seq<char> {
    seq!['"'] + escaped(text) + seq!['"']
}

/// Renders `text` as a string literal.
pub fn quote(text: &str) -> (s: String)
    ensures
        s@ == quoted(text@),
{
    let mut s = String::new();
    push_char(&mut s, '"');
    for c in it: text.chars()
        invariant
            it.seq() == text@,
            s@ == seq!['"'] + escaped(text@.take(it.index())),
    {
        proof {
            let k = it.index();
            assert(text@.take(k + 1).drop_last() == text@.take(k));
            assert(text@.take(k + 1).last() == c);
        }
        if c == '"' {
            push_char(&mut s, '\\');
        }
        push_char(&mut s, c);
    }
    proof {
        assert(text@.take(text@.len() as int) == text@);
    }
    push_char(&mut s, '"');
    s
}

/// How the `Debug` formatting of `str` writes `text`.
pub uninterp spec fn debug_text(text: Seq<char>) -> Seq<char>;

/// The `Debug` formatting of `str`: the text between double quotes, with the
/// escapes of a Rust string literal.
#[verifier::external_body]
pub(crate) fn debug_quote(text: &str) -> (s: String)
    ensures
        s@ == debug_text(text@),
{
    format!("{:?}", text)
}

} // verus!
