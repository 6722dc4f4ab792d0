//! Extracting the claims from a compact bearer token.
//!
//! A token is three segments separated by dots. The second holds the
//! claims as base64url text that may lack its padding: it is padded with
//! `=` to a multiple of four bytes, brought to the standard alphabet and
//! decoded; the bytes must be UTF-8 and the text a JSON document of the
//! fixed shape. Nothing is verified of the token: no signature, no expiry.

use vstd::prelude::*;
use vstd::string::*;
use vstd::slice::slice_subrange;
use vstd::utf8::{decode_utf8, valid_utf8};
use base64::Engine;
use crate::claims::{claims_of_payload, payload_of, JwtPayload, JwtPayloadRaw, JwtPayloadView};
use crate::json::{json_document, read_document};

verus! {

/// The byte that separates the segments of a token.
pub const DOT: u8 = 0x2e;

/// The byte that pads base64 text.
pub const PAD: u8 = 0x3d;

/// Why a token did not yield its payload.
#[derive(Clone, Copy, PartialEq, Eq, Debug, Structural)]
pub enum DecodeFault {
    /// The claim segment is not base64 text.
    Base64,
    /// The decoded bytes are not UTF-8.
    Utf8,
}

/// Why no claims were read.
#[derive(Clone, Copy, PartialEq, Eq, Debug, Structural)]
pub enum TokenError {
    /// There is no token.
    Missing,
    /// The token does not have exactly three segments.
    Malformed,
    /// The claim segment cannot be decoded.
    Decode(DecodeFault),
    /// The decoded text is not a JSON document of the fixed shape.
    Claims,
}

#[verifier::external_type_specification]
#[verifier::external_body]
pub struct ExBase64DecodeError(base64::DecodeError);

/// The bytes that the standard base64 engine of the `base64` crate decodes
/// `input` to; `None` where it reports an error.
pub uninterp spec fn standard_base64_decoding(input: Seq<u8>) -> Option<Seq<u8>>;

/// Calls `base64::engine::general_purpose::STANDARD.decode`. Trusted: the
/// result is a function of the input bytes alone.
#[verifier::external_body]
fn decode_standard_base64(input: &[u8]) -> (r: Result<Vec<u8>, base64::DecodeError>)
    ensures
        match r {
            Ok(bytes) => standard_base64_decoding(input@) == Some(bytes@),
            Err(_) => standard_base64_decoding(input@) is None,
        },
{
    base64::engine::general_purpose::STANDARD.decode(input)
}

/// Calls `String::from_utf8`. Trusted: it accepts exactly the byte
/// sequences that are UTF-8, and the string then holds the characters
/// that they encode.
#[verifier::external_body]
fn string_from_utf8(bytes: Vec<u8>) -> (r: Option<String>)
    ensures
        r is Some <==> valid_utf8(bytes@),
        r matches Some(text) ==> text@ == decode_utf8(bytes@),
{
    String::from_utf8(bytes).ok()
}

/// The segments of a token: the pieces between its dots. A token
/// without a dot is one segment, and a segment may be empty.
pub open spec fn segments(token: Seq<u8>) -> Seq<Seq<u8>>
    decreases token.len(),
{
    if token.len() == 0 {
        seq![Seq::<u8>::empty()]
    } else {
        let before = segments(token.drop_last());
        if token.last() == DOT {
            before.push(Seq::<u8>::empty())
        } else {
            before.update(before.len() - 1, before.last().push(token.last()))
        }
    }
}

/// The number of `=` that bring a text of `len` bytes to a multiple of four.
pub open spec fn padding_for(len: nat) -> nat {
    ((4 - len % 4) % 4) as nat
}

/// A base64url byte in the standard alphabet: `-` becomes `+`, `_`
/// becomes `/`, every other byte stays.
pub open spec fn to_standard(byte: u8) -> u8 {
    if byte == 0x2d {
        0x2b
    } else if byte == 0x5f {
        0x2f
    } else {
        byte
    }
}

/// A claim segment as padded text of the standard alphabet.
pub open spec fn standard_text(segment: Seq<u8>) -> Seq<u8> {
    segment.map_values(|byte: u8| to_standard(byte)) + Seq::new(
        padding_for(segment.len()),
        |i: int| PAD,
    )
}

/// The text of the claims in a token, or the reason why there is none.
pub open spec fn claims_text_of(token: Seq<u8>) -> Result<Seq<char>, TokenError> {
    let parts = segments(token);
    if parts.len() != 3 {
        Err(TokenError::Malformed)
    } else {
        match standard_base64_decoding(standard_text(parts[1])) {
            None => Err(TokenError::Decode(DecodeFault::Base64)),
            Some(bytes) => if valid_utf8(bytes) {
                Ok(decode_utf8(bytes))
            } else {
                Err(TokenError::Decode(DecodeFault::Utf8))
            },
        }
    }
}

/// The claims that a text holds, or the reason why it holds none.
pub open spec fn claims_of_text(text: Seq<char>) -> Result<JwtPayloadView, TokenError> {
    match json_document(text) {
        Some(document) => match payload_of(document) {
            Some(raw) => Ok(claims_of_payload(raw)),
            None => Err(TokenError::Claims),
        },
        None => Err(TokenError::Claims),
    }
}

/// The claims of a token, or the reason why it has none.
pub open spec fn claims_of(token: Seq<u8>) -> Result<JwtPayloadView, TokenError> {
    match claims_text_of(token) {
        Ok(text) => claims_of_text(text),
        Err(error) => Err(error),
    }
}

/// Where the claim segment of a token lies.
pub struct ClaimSpan {
    /// Position of the first byte of the segment.
    pub start: usize,
    /// Position just after its last byte.
    pub end: usize,
}

/// The span lies between the first dot of the token and its second.
pub open spec fn between_first_dots(token: Seq<u8>, span: ClaimSpan) -> bool {
    &&& 1 <= span.start <= span.end < token.len()
    &&& token[span.start - 1] == DOT
    &&& token[span.end as int] == DOT
    &&& forall|i: int| 0 <= i < span.start - 1 ==> token[i] != DOT
    &&& forall|i: int| span.start <= i < span.end ==> token[i] != DOT
}

/// Finds the claim segment of a token; `None` unless the token has
/// exactly three segments.
pub fn claim_span(token: &[u8]) -> (r: Option<ClaimSpan>)
    ensures
        r is Some <==> segments(token@).len() == 3,
        r matches Some(span) ==> between_first_dots(token@, span) && segments(token@)[1]
            == token@.subrange(span.start as int, span.end as int),
{
    let mut dots: usize = 0;
    let mut start: usize = 0;
    let mut end: usize = 0;
    let mut at: usize = 0;
    while at < token.len()
        invariant
            at <= token@.len(),
            dots <= at,
            segments(token@.take(at as int)).len() == dots + 1,
            dots == 0 ==> forall|i: int| 0 <= i < at ==> token@[i] != DOT,
            dots >= 1 ==> 1 <= start <= at && token@[start - 1] == DOT && forall|i: int|
                0 <= i < start - 1 ==> token@[i] != DOT,
            dots == 1 ==> forall|i: int| start <= i < at ==> token@[i] != DOT,
            dots >= 2 ==> end < at && token@[end as int] == DOT && forall|i: int|
                start <= i < end ==> token@[i] != DOT,
            dots == 1 ==> segments(token@.take(at as int))[1] == token@.subrange(
                start as int,
                at as int,
            ),
            dots >= 2 ==> start <= end <= at && segments(token@.take(at as int))[1]
                == token@.subrange(start as int, end as int),
        decreases token@.len() - at,
    {
        proof {
            let before = token@.take(at as int);
            let after = token@.take(at + 1);
            assert(after.drop_last() =~= before);
            assert(after.last() == token@[at as int]);
            if token@[at as int] == DOT {
                if dots == 0 {
                    assert(token@.subrange(at + 1, at + 1) =~= Seq::<u8>::empty());
                }
            } else if dots == 1 {
                assert(token@.subrange(start as int, at as int).push(token@[at as int])
                    =~= token@.subrange(start as int, at + 1));
            }
        }
        if token[at] == DOT {
            if dots == 0 {
                start = at + 1;
            } else if dots == 1 {
                end = at;
            }
            dots = dots + 1;
        }
        at = at + 1;
    }
    proof {
        assert(token@.take(token@.len() as int) =~= token@);
    }
    if dots == 2 {
        Some(ClaimSpan { start, end })
    } else {
        None
    }
}

/// Pads a claim segment and brings it to the standard alphabet.
pub fn to_standard_text(segment: &[u8]) -> (text: Vec<u8>)
    ensures
        text@ == standard_text(segment@),
{
    let mut text: Vec<u8> = Vec::new();
    let mut at: usize = 0;
    while at < segment.len()
        invariant
            at <= segment@.len(),
            text@ == segment@.take(at as int).map_values(|byte: u8| to_standard(byte)),
        decreases segment@.len() - at,
    {
        let byte = segment[at];
        let mapped: u8 = if byte == 0x2d {
            0x2b
        } else if byte == 0x5f {
            0x2f
        } else {
            byte
        };
        text.push(mapped);
        proof {
            assert(text@ =~= segment@.take(at + 1).map_values(|byte: u8| to_standard(byte)));
        }
        at = at + 1;
    }
    proof {
        assert(segment@.take(segment@.len() as int) =~= segment@);
    }
    let padding: usize = (4 - segment.len() % 4) % 4;
    let ghost body = text@;
    let mut added: usize = 0;
    while added < padding
        invariant
            added <= padding,
            text@ == body + Seq::new(added as nat, |i: int| PAD),
        decreases padding - added,
    {
        text.push(PAD);
        proof {
            assert(text@ =~= body + Seq::new((added + 1) as nat, |i: int| PAD));
        }
        added = added + 1;
    }
    text
}

/// Decodes the claim segment of a token to its text.
pub fn decode_claims_text(token: &str) -> (r: Result<String, TokenError>)
    ensures
        match claims_text_of(token.spec_bytes()) {
            Ok(text) => r matches Ok(decoded) && decoded@ == text,
            Err(error) => r == Err::<String, TokenError>(error),
        },
{
    let bytes = token.as_bytes();
    let span = match claim_span(bytes) {
        Some(span) => span,
        None => {
            return Err(TokenError::Malformed);
        },
    };
    let segment = slice_subrange(bytes, span.start, span.end);
    let text = to_standard_text(segment);
    let decoded = match decode_standard_base64(text.as_slice()) {
        Ok(decoded) => decoded,
        Err(_) => {
            return Err(TokenError::Decode(DecodeFault::Base64));
        },
    };
    match string_from_utf8(decoded) {
        Some(claims) => Ok(claims),
        None => Err(TokenError::Decode(DecodeFault::Utf8)),
    }
}

/// Reads the claims from the text of a token's payload.
pub fn parse_claims_text(text: &str) -> (r: Result<JwtPayload, TokenError>)
    ensures
        match claims_of_text(text@) {
            Ok(claims) => r matches Ok(parsed) && parsed@ == claims,
            Err(error) => r matches Err(e) && e == error,
        },
{
    let document = match read_document(text) {
        Ok(document) => document,
        Err(_) => {
            return Err(TokenError::Claims);
        },
    };
    match JwtPayloadRaw::from_document(&document) {
        Some(raw) => Ok(JwtPayload::from_raw(raw)),
        None => Err(TokenError::Claims),
    }
}

/// Reads the user and the tenant from a bearer token.
///
/// The token is `Malformed` unless it has three segments; the claim
/// segment fails to `Decode` when it is not base64 text or not UTF-8; the
/// text fails with `Claims` when it is no JSON document of the fixed shape.
pub fn parse_jwt_token(token: &str) -> (r: Result<JwtPayload, TokenError>)
    ensures
        match claims_of(token.spec_bytes()) {
            Ok(claims) => r matches Ok(parsed) && parsed@ == claims,
            Err(error) => r matches Err(e) && e == error,
        },
{
    match decode_claims_text(token) {
        Ok(text) => parse_claims_text(text.as_str()),
        Err(error) => Err(error),
    }
}

/// Padded text has a length that is a multiple of four; it is the
/// segment in the standard alphabet, followed by fewer than four `=`.
pub proof fn lemma_standard_text_is_padded(segment: Seq<u8>)
    ensures
        standard_text(segment).len() % 4 == 0,
        standard_text(segment).len() == segment.len() + padding_for(segment.len()),
        padding_for(segment.len()) < 4,
        forall|i: int|
            0 <= i < segment.len() ==> #[trigger] standard_text(segment)[i] == to_standard(
                segment[i],
            ),
        forall|i: int|
            segment.len() <= i < standard_text(segment).len() ==> #[trigger] standard_text(
                segment,
            )[i] == PAD,
{
}

/// A token with no dot has one segment.
pub proof fn lemma_segments_without_dot(token: Seq<u8>)
    requires
        forall|i: int| 0 <= i < token.len() ==> token[i] != DOT,
    ensures
        segments(token).len() == 1,
    decreases token.len(),
{
    if token.len() > 0 {
        lemma_segments_without_dot(token.drop_last());
    }
}

/// A token has one segment more than it has dots.
pub proof fn lemma_segment_count(token: Seq<u8>)
    ensures
        segments(token).len() == token.filter(|byte: u8| byte == DOT).len() + 1,
    decreases token.len(),
{
    reveal(Seq::filter);
    if token.len() > 0 {
        lemma_segment_count(token.drop_last());
    }
}

/// A token that does not have exactly three segments is malformed, and
/// only such a token is: one segment or four fail alike.
pub proof fn lemma_malformed_iff_not_three_segments(token: Seq<u8>)
    ensures
        claims_of(token) == Err::<JwtPayloadView, TokenError>(TokenError::Malformed) <==> segments(
            token,
        ).len() != 3,
{
}

} // verus!
