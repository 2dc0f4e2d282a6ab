//! Decoding of the percent-encoded request path.
//!
//! The raw request target is a byte string that may contain `%XY` escapes.
//! Decoding replaces each well-formed escape by its byte and then reads the
//! bytes as UTF-8; byte sequences that are not valid UTF-8 degrade to
//! replacement characters instead of failing the request.

use vstd::prelude::*;
use vstd::string::StringSliceAdditionalSpecFns;
use vstd::utf8::decode_utf8;
use vstd::utf8::is_ascii_chars;
use vstd::utf8::is_ascii_chars_encode_utf8;
use vstd::utf8::encode_utf8_valid_utf8;
use vstd::utf8::encode_utf8_decode_utf8;
use vstd::utf8::valid_utf8;

verus! {

/// An ASCII hexadecimal digit, as accepted inside a `%XY` escape.
pub open spec fn is_hex_digit(b: u8) -> bool {
    (48 <= b <= 57) || (65 <= b <= 70) || (97 <= b <= 102)
}

/// The numeric value of an ASCII hexadecimal digit.
pub open spec fn hex_digit_value(b: u8) -> u8
    recommends
        is_hex_digit(b),
{
    if 48 <= b <= 57 {
        (b - 48) as u8
    } else if 65 <= b <= 70 {
        (b - 55) as u8
    } else {
        (b - 87) as u8
    }
}

/// Percent-decoding of a byte string: each `%` that is followed by two
/// hexadecimal digits becomes the byte those digits spell, and every other
/// byte (including a `%` without two hexadecimal digits after it) passes
/// through unchanged.
pub open spec fn percent_decoded(s: Seq<u8>) -> Seq<u8>
    decreases s.len(),
{
    if s.len() == 0 {
        Seq::empty()
    } else if s[0] == 37 && s.len() >= 3 && is_hex_digit(s[1]) && is_hex_digit(s[2]) {
        seq![(hex_digit_value(s[1]) * 16 + hex_digit_value(s[2])) as u8] + percent_decoded(
            s.skip(3),
        )
    } else {
        seq![s[0]] + percent_decoded(s.skip(1))
    }
}

/// The characters that a lossy UTF-8 read of the given bytes produces:
/// valid sequences decode as usual and invalid ones become replacement
/// characters. Left without a definition; the exact replacement positions
/// are pinned down only where callers need them (valid UTF-8 input).
pub uninterp spec fn lossy_utf8(bytes: Seq<u8>) -> Seq<char>;

/// Decode the raw request-target path.
///
/// Relies on `percent_encoding::percent_decode` and
/// `PercentDecode::decode_utf8_lossy`: each `%XY` escape with two
/// hexadecimal digits becomes the byte `0xXY`, every other byte passes
/// through, and the decoded bytes are then read as UTF-8, lossily; bytes
/// that form valid UTF-8 are kept verbatim.
#[verifier::external_body]
pub fn decode_path(raw: &str) -> (r: String)
    ensures
        r@ == lossy_utf8(percent_decoded(raw.spec_bytes())),
        valid_utf8(percent_decoded(raw.spec_bytes())) ==> r@ == decode_utf8(
            percent_decoded(raw.spec_bytes()),
        ),
{
    percent_encoding::percent_decode(raw.as_bytes()).decode_utf8_lossy().into_owned()
}

/// A percent-encoded path decodes before it is resolved: the escape `%20`
/// in `/a%20b/` stands for the space character, so the decoded path names
/// the entry `a b` under the root.
pub proof fn lemma_percent_escape_decodes()
    ensures
        valid_utf8(percent_decoded("/a%20b/".spec_bytes())),
        decode_utf8(percent_decoded("/a%20b/".spec_bytes())) == "/a b/"@,
{
    reveal_strlit("/a%20b/");
    reveal_strlit("/a b/");
    let raw = "/a%20b/"@;
    let plain = "/a b/"@;
    assert(is_ascii_chars(raw));
    assert(is_ascii_chars(plain));
    is_ascii_chars_encode_utf8(raw);
    is_ascii_chars_encode_utf8(plain);
    let raw_bytes = "/a%20b/".spec_bytes();
    let plain_bytes = "/a b/".spec_bytes();
    assert(raw_bytes =~= seq![47u8, 97u8, 37u8, 50u8, 48u8, 98u8, 47u8]);
    assert(plain_bytes =~= seq![47u8, 97u8, 32u8, 98u8, 47u8]);
    let t0: Seq<u8> = seq![47u8, 97u8, 37u8, 50u8, 48u8, 98u8, 47u8];
    let t1: Seq<u8> = seq![97u8, 37u8, 50u8, 48u8, 98u8, 47u8];
    let t2: Seq<u8> = seq![37u8, 50u8, 48u8, 98u8, 47u8];
    let t3: Seq<u8> = seq![98u8, 47u8];
    let t4: Seq<u8> = seq![47u8];
    let t5: Seq<u8> = Seq::empty();
    assert(t0.skip(1) =~= t1);
    assert(t1.skip(1) =~= t2);
    assert(t2.skip(3) =~= t3);
    assert(t3.skip(1) =~= t4);
    assert(t4.skip(1) =~= t5);
    assert(percent_decoded(t5) =~= Seq::<u8>::empty());
    assert(percent_decoded(t4) =~= seq![47u8]);
    assert(percent_decoded(t3) =~= seq![98u8, 47u8]);
    assert(percent_decoded(t2) =~= seq![32u8, 98u8, 47u8]);
    assert(percent_decoded(t1) =~= seq![97u8, 32u8, 98u8, 47u8]);
    assert(percent_decoded(t0) =~= seq![47u8, 97u8, 32u8, 98u8, 47u8]);
    assert(percent_decoded(raw_bytes) =~= plain_bytes);
    encode_utf8_valid_utf8(plain);
    encode_utf8_decode_utf8(plain);
}

} // verus!
