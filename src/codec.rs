use vstd::prelude::*;

use crate::error::{chain_text, has_context, SdkError};

verus! {

/// The lowercase hex digits, by value.
pub open spec fn hex_digits() -> Seq<char> {
    seq!['0', '1', '2', '3', '4', '5', '6', '7', '8', '9', 'a', 'b', 'c', 'd', 'e', 'f']
}

/// The value of a hex digit of either case, or -1 for any other character.
pub open spec fn digit_value(c: char) -> int {
    if c == '0' { 0 }
    else if c == '1' { 1 }
    else if c == '2' { 2 }
    else if c == '3' { 3 }
    else if c == '4' { 4 }
    else if c == '5' { 5 }
    else if c == '6' { 6 }
    else if c == '7' { 7 }
    else if c == '8' { 8 }
    else if c == '9' { 9 }
    else if c == 'a' || c == 'A' { 10 }
    else if c == 'b' || c == 'B' { 11 }
    else if c == 'c' || c == 'C' { 12 }
    else if c == 'd' || c == 'D' { 13 }
    else if c == 'e' || c == 'E' { 14 }
    else if c == 'f' || c == 'F' { 15 }
    else { -1 }
}

pub open spec fn is_hex_digit(c: char) -> bool {
    digit_value(c) >= 0
}

/// A hex digit in lowercase; any other character unchanged.
pub open spec fn lower_hex(c: char) -> char {
    if c == 'A' { 'a' }
    else if c == 'B' { 'b' }
    else if c == 'C' { 'c' }
    else if c == 'D' { 'd' }
    else if c == 'E' { 'e' }
    else if c == 'F' { 'f' }
    else { c }
}

/// A string that decodes: an even number of hex digits, of either case.
pub open spec fn is_hex(s: Seq<char>) -> bool {
    s.len() % 2 == 0 && forall|i: int| 0 <= i < s.len() ==> #[trigger] is_hex_digit(s[i])
}

/// The byte written by the digits `hi` and `lo`.
pub open spec fn byte_of(hi: char, lo: char) -> u8 {
    (16 * digit_value(hi) + digit_value(lo)) as u8
}

/// The bytes that a valid hex string stands for, two digits to a byte, high
/// nibble first.
pub open spec fn bytes_of_hex(s: Seq<char>) -> Seq<u8> {
    Seq::new(s.len() / 2, |i: int| byte_of(s[2 * i], s[2 * i + 1]))
}

/// Lowercase hex text of `b`: two digits for each byte, high nibble first.
pub open spec fn hex_of(b: Seq<u8>) -> Seq<char> {
    Seq::new(
        2 * b.len(),
        |i: int|
            if i % 2 == 0 {
                hex_digits()[(b[i / 2] / 16) as int]
            } else {
                hex_digits()[(b[i / 2] % 16) as int]
            },
    )
}

/// Relies on hex::encode: lowercase digits, two for each byte, high nibble
/// first.
#[verifier::external_body]
pub(crate) fn encode_hex(bytes: &[u8]) -> (r: String)
    ensures
        r@ == hex_of(bytes@),
{
    hex::encode(bytes)
}

/// Relies on hex::decode: it accepts exactly the strings with an even number
/// of digits of either case, and reads each pair high nibble first.  The
/// error is rendered by its `Display`.
#[verifier::external_body]
fn decode_hex(s: &str) -> (r: Result<Vec<u8>, String>)
    ensures
        r is Ok <==> is_hex(s@),
        r is Ok ==> r->Ok_0@ == bytes_of_hex(s@),
{
    match hex::decode(s) {
        Ok(v) => Ok(v),
        Err(e) => Err(e.to_string()),
    }
}

/// Decodes a hex field of a request.  An invalid value is an
/// `InvalidArgument` error whose message starts with `context`.
pub fn decode_hex_field(value: &str, context: &str) -> (r: Result<Vec<u8>, SdkError>)
    ensures
        is_hex(value@) ==> r is Ok && r->Ok_0@ == bytes_of_hex(value@),
        !is_hex(value@) ==> r is Err && r->Err_0.is_invalid_argument() && has_context(
            r->Err_0.message(),
            context@,
        ),
{
    match decode_hex(value) {
        Ok(v) => Ok(v),
        Err(cause) => {
            let e = SdkError::invalid_arg(context, cause.as_str());
            assert(e.message() == chain_text(context@, cause@));
            Err(e)
        },
    }
}

/// Decodes an optional hex field of a request: `None` stays `None`.
pub fn decode_optional_hex_field(value: &Option<String>, context: &str) -> (r: Result<
    Option<Vec<u8>>,
    SdkError,
>)
    ensures
        value is None ==> r == Ok::<Option<Vec<u8>>, SdkError>(None),
        value is Some && is_hex(value->Some_0@) ==> r is Ok && r->Ok_0 is Some
            && r->Ok_0->Some_0@ == bytes_of_hex(value->Some_0@),
        value is Some && !is_hex(value->Some_0@) ==> r is Err
            && r->Err_0.is_invalid_argument() && has_context(r->Err_0.message(), context@),
{
    match value {
        None => Ok(None),
        Some(s) => match decode_hex_field(s.as_str(), context) {
            Ok(v) => Ok(Some(v)),
            Err(e) => Err(e),
        },
    }
}

/// Encodes an optional byte field of a response: `None` stays `None`.
pub fn encode_optional_hex(value: &Option<Vec<u8>>) -> (r: Option<String>)
    ensures
        value is None ==> r is None,
        value is Some ==> r is Some && r->Some_0@ == hex_of(value->Some_0@),
{
    match value {
        None => None,
        Some(b) => Some(encode_hex(b.as_slice())),
    }
}

proof fn lemma_digit_round_trip(c: char)
    requires
        is_hex_digit(c),
    ensures
        0 <= digit_value(c) < 16,
        hex_digits()[digit_value(c)] == lower_hex(c),
{
}

proof fn lemma_value_round_trip(v: int)
    requires
        0 <= v < 16,
    ensures
        digit_value(hex_digits()[v]) == v,
{
}

/// Decoding a valid hex string and encoding the bytes again gives the
/// original string up to the case of its letters.
pub proof fn lemma_hex_round_trip(s: Seq<char>)
    requires
        is_hex(s),
    ensures
        hex_of(bytes_of_hex(s)) == s.map_values(|c: char| lower_hex(c)),
{
    let b = bytes_of_hex(s);
    let r = hex_of(b);
    let t = s.map_values(|c: char| lower_hex(c));
    assert forall|i: int| 0 <= i < s.len() implies r[i] == t[i] by {
        let k = i / 2;
        let hi = s[2 * k];
        let lo = s[2 * k + 1];
        assert(is_hex_digit(hi));
        assert(is_hex_digit(lo));
        lemma_digit_round_trip(hi);
        lemma_digit_round_trip(lo);
        let h = digit_value(hi);
        let l = digit_value(lo);
        assert(b[k] == byte_of(hi, lo));
        assert(b[k] / 16 == h && b[k] % 16 == l) by (nonlinear_arith)
            requires
                0 <= h < 16,
                0 <= l < 16,
                b[k] == (16 * h + l) as u8,
        ;
    }
    assert(r =~= t);
}

/// Encoding bytes and decoding the text again gives the same bytes.
pub proof fn lemma_bytes_round_trip(b: Seq<u8>)
    ensures
        is_hex(hex_of(b)),
        bytes_of_hex(hex_of(b)) == b,
{
    let s = hex_of(b);
    assert forall|i: int| 0 <= i < s.len() implies #[trigger] is_hex_digit(s[i]) by {
        let k = i / 2;
        if i % 2 == 0 {
            lemma_value_round_trip((b[k] / 16) as int);
        } else {
            lemma_value_round_trip((b[k] % 16) as int);
        }
    }
    assert forall|k: int| 0 <= k < b.len() implies #[trigger] bytes_of_hex(s)[k] == b[k] by {
        let h = (b[k] / 16) as int;
        let l = (b[k] % 16) as int;
        assert(s[2 * k] == hex_digits()[h]);
        assert(s[2 * k + 1] == hex_digits()[l]);
        lemma_value_round_trip(h);
        lemma_value_round_trip(l);
        assert(16 * h + l == b[k]);
    }
    assert(bytes_of_hex(s) =~= b);
}

} // verus!
