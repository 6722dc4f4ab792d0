use base64::Engine;
use trae_accounts::claims::{JwtData, JwtPayload, JwtPayloadRaw};
use trae_accounts::client::TraeApiClient;
use trae_accounts::json::{integer_member, text_member};
use trae_accounts::token::{
    claim_span, decode_claims_text, parse_claims_text, parse_jwt_token, to_standard_text,
    DecodeFault, TokenError,
};

fn payload_text(user_id: &str, tenant_id: &str) -> String {
    format!(
        "{{\"data\":{{\"id\":\"{}\",\"source\":\"s\",\"source_id\":\"sid\",\"tenant_id\":\"{}\",\"type\":\"user\"}},\"exp\":1900000000,\"iat\":1700000000}}",
        user_id, tenant_id
    )
}

fn token_for(payload: &str) -> String {
    let segment = base64::engine::general_purpose::URL_SAFE_NO_PAD.encode(payload.as_bytes());
    format!("eyJhbGciOiJIUzI1NiJ9.{}.c2lnbmF0dXJl", segment)
}

fn token_with_padding(padding: usize) -> (String, String, String) {
    let tenant = "tenant-1";
    let mut user = String::from("u");
    loop {
        let payload = payload_text(&user, tenant);
        let segment = base64::engine::general_purpose::URL_SAFE_NO_PAD.encode(payload.as_bytes());
        if (4 - segment.len() % 4) % 4 == padding {
            return (token_for(&payload), user, tenant.to_string());
        }
        user.push('x');
    }
}

#[test]
fn claims_recovered_without_padding() {
    let (token, user, tenant) = token_with_padding(0);
    let claims = parse_jwt_token(&token).unwrap();
    assert_eq!(claims.user_id, user);
    assert_eq!(claims.tenant_id, tenant);
}

#[test]
fn claims_recovered_with_one_padding_character() {
    let (token, user, tenant) = token_with_padding(1);
    let claims = parse_jwt_token(&token).unwrap();
    assert_eq!(claims.user_id, user);
    assert_eq!(claims.tenant_id, tenant);
}

#[test]
fn claims_recovered_with_two_padding_characters() {
    let (token, user, tenant) = token_with_padding(2);
    let claims = parse_jwt_token(&token).unwrap();
    assert_eq!(claims.user_id, user);
    assert_eq!(claims.tenant_id, tenant);
}

#[test]
fn segment_that_needs_three_padding_characters_is_not_base64() {
    // No base64 text has a length of one more than a multiple of four.
    assert_eq!(parse_jwt_token("h.abcde.s").unwrap_err(), TokenError::Decode(DecodeFault::Base64));
    assert_eq!(to_standard_text(b"abcde"), b"abcde===".to_vec());
}

#[test]
fn url_safe_characters_reach_the_standard_alphabet() {
    // The payload is chosen so that its encoding holds `-` and `_`.
    let payload = "{\"data\":{\"id\":\"\u{3ff}>>??\",\"source\":\"~~~\",\"source_id\":\"\",\"tenant_id\":\"t\",\"type\":\"\"},\"exp\":1,\"iat\":2}";
    let segment = base64::engine::general_purpose::URL_SAFE_NO_PAD.encode(payload.as_bytes());
    assert!(segment.contains('-') || segment.contains('_'));
    let token = format!("h.{}.s", segment);
    let claims = parse_jwt_token(&token).unwrap();
    assert_eq!(claims.user_id, "\u{3ff}>>??");
    assert_eq!(claims.tenant_id, "t");
    assert_eq!(decode_claims_text(&token).unwrap(), payload);
}

#[test]
fn standard_text_is_padded_and_in_the_standard_alphabet() {
    assert_eq!(to_standard_text(b""), b"".to_vec());
    assert_eq!(to_standard_text(b"ab"), b"ab==".to_vec());
    assert_eq!(to_standard_text(b"abc"), b"abc=".to_vec());
    assert_eq!(to_standard_text(b"abcd"), b"abcd".to_vec());
    assert_eq!(to_standard_text(b"a-b_"), b"a+b/".to_vec());
    assert_eq!(to_standard_text(b"-_-_-_"), b"+/+/+/==".to_vec());
}

#[test]
fn token_with_one_segment_is_malformed() {
    assert_eq!(parse_jwt_token("abcdef").unwrap_err(), TokenError::Malformed);
    assert_eq!(parse_jwt_token("").unwrap_err(), TokenError::Malformed);
}

#[test]
fn token_with_two_segments_is_malformed() {
    assert_eq!(parse_jwt_token("abc.def").unwrap_err(), TokenError::Malformed);
}

#[test]
fn token_with_four_segments_is_malformed() {
    let payload = payload_text("u", "t");
    let token = format!("{}.extra", token_for(&payload));
    assert_eq!(parse_jwt_token(&token).unwrap_err(), TokenError::Malformed);
    assert_eq!(parse_jwt_token("...").unwrap_err(), TokenError::Malformed);
}

#[test]
fn claim_span_is_the_second_segment() {
    let span = claim_span(b"ab.cde.f").unwrap();
    assert_eq!((span.start, span.end), (3, 6));
    let span = claim_span(b"..").unwrap();
    assert_eq!((span.start, span.end), (1, 1));
    let span = claim_span(b".x.").unwrap();
    assert_eq!((span.start, span.end), (1, 2));
    assert!(claim_span(b"").is_none());
    assert!(claim_span(b"a.b").is_none());
    assert!(claim_span(b"a.b.c.d").is_none());
}

#[test]
fn empty_claim_segment_decodes_to_empty_text() {
    assert_eq!(decode_claims_text("a..b").unwrap(), "");
    assert_eq!(parse_jwt_token("a..b").unwrap_err(), TokenError::Claims);
}

#[test]
fn segment_outside_the_alphabet_is_not_base64() {
    assert_eq!(parse_jwt_token("a.!!!!.b").unwrap_err(), TokenError::Decode(DecodeFault::Base64));
    assert_eq!(parse_jwt_token("a.ab=c.b").unwrap_err(), TokenError::Decode(DecodeFault::Base64));
    assert_eq!(parse_jwt_token("a.é.b").unwrap_err(), TokenError::Decode(DecodeFault::Base64));
}

#[test]
fn decoded_bytes_that_are_not_utf8_fail() {
    let segment = base64::engine::general_purpose::URL_SAFE_NO_PAD.encode([0xffu8, 0xfe, 0x41]);
    let token = format!("a.{}.b", segment);
    assert_eq!(parse_jwt_token(&token).unwrap_err(), TokenError::Decode(DecodeFault::Utf8));
    assert_eq!(decode_claims_text(&token).unwrap_err(), TokenError::Decode(DecodeFault::Utf8));
}

#[test]
fn decoded_text_is_the_payload_not_the_segment() {
    let payload = payload_text("user-7", "tenant-9");
    let token = token_for(&payload);
    let text = decode_claims_text(&token).unwrap();
    assert_eq!(text, payload);
    let segment = token.split('.').nth(1).unwrap();
    assert_ne!(text, segment);
}

#[test]
fn text_that_is_not_json_gives_no_claims() {
    assert_eq!(parse_claims_text("not json").unwrap_err(), TokenError::Claims);
    assert_eq!(parse_claims_text("").unwrap_err(), TokenError::Claims);
    assert_eq!(parse_claims_text("{\"data\":").unwrap_err(), TokenError::Claims);
    assert_eq!(parse_jwt_token(&token_for("not json")).unwrap_err(), TokenError::Claims);
}

#[test]
fn payload_of_another_shape_gives_no_claims() {
    assert_eq!(parse_claims_text("[]").unwrap_err(), TokenError::Claims);
    assert_eq!(parse_claims_text("{}").unwrap_err(), TokenError::Claims);
    // no tenant
    let text = "{\"data\":{\"id\":\"u\",\"source\":\"s\",\"source_id\":\"i\",\"type\":\"t\"},\"exp\":1,\"iat\":2}";
    assert_eq!(parse_claims_text(text).unwrap_err(), TokenError::Claims);
    // the id is a number
    let text = "{\"data\":{\"id\":7,\"source\":\"s\",\"source_id\":\"i\",\"tenant_id\":\"t\",\"type\":\"t\"},\"exp\":1,\"iat\":2}";
    assert_eq!(parse_claims_text(text).unwrap_err(), TokenError::Claims);
    // no expiry
    let text = "{\"data\":{\"id\":\"u\",\"source\":\"s\",\"source_id\":\"i\",\"tenant_id\":\"t\",\"type\":\"t\"},\"iat\":2}";
    assert_eq!(parse_claims_text(text).unwrap_err(), TokenError::Claims);
    // the issue time is a string
    let text = "{\"data\":{\"id\":\"u\",\"source\":\"s\",\"source_id\":\"i\",\"tenant_id\":\"t\",\"type\":\"t\"},\"exp\":1,\"iat\":\"2\"}";
    assert_eq!(parse_claims_text(text).unwrap_err(), TokenError::Claims);
    // the expiry is a fraction
    let text = "{\"data\":{\"id\":\"u\",\"source\":\"s\",\"source_id\":\"i\",\"tenant_id\":\"t\",\"type\":\"t\"},\"exp\":1.5,\"iat\":2}";
    assert_eq!(parse_claims_text(text).unwrap_err(), TokenError::Claims);
}

#[test]
fn members_beyond_the_shape_are_ignored() {
    let text = "{\"extra\":[1,2],\"data\":{\"id\":\"u1\",\"source\":\"s\",\"source_id\":\"i\",\"tenant_id\":\"t1\",\"type\":\"t\",\"more\":null},\"exp\":-5,\"iat\":0}";
    let claims = parse_claims_text(text).unwrap();
    assert_eq!(claims.user_id, "u1");
    assert_eq!(claims.tenant_id, "t1");
}

#[test]
fn expired_token_still_gives_its_claims() {
    let text = "{\"data\":{\"id\":\"old\",\"source\":\"s\",\"source_id\":\"i\",\"tenant_id\":\"t\",\"type\":\"t\"},\"exp\":1,\"iat\":0}";
    let claims = parse_jwt_token(&token_for(text)).unwrap();
    assert_eq!(claims.user_id, "old");
}

#[test]
fn raw_payload_is_read_field_by_field() {
    let text = "{\"data\":{\"id\":\"a\",\"source\":\"b\",\"source_id\":\"c\",\"tenant_id\":\"d\",\"type\":\"e\"},\"exp\":11,\"iat\":12}";
    let document: serde_json::Value = serde_json::from_str(text).unwrap();
    let raw = JwtPayloadRaw::from_document(&document).unwrap();
    assert_eq!(raw.data.id, "a");
    assert_eq!(raw.data.source, "b");
    assert_eq!(raw.data.source_id, "c");
    assert_eq!(raw.data.tenant_id, "d");
    assert_eq!(raw.data.data_type, "e");
    assert_eq!(raw.exp, 11);
    assert_eq!(raw.iat, 12);
    let data = JwtData::from_document(document.get("data").unwrap()).unwrap();
    assert_eq!(data.tenant_id, "d");
    assert!(JwtData::from_document(&document).is_none());
    let claims = JwtPayload::from_raw(raw);
    assert_eq!(claims.user_id, "a");
    assert_eq!(claims.tenant_id, "d");
}

#[test]
fn members_are_found_by_name_and_kind() {
    let document: serde_json::Value =
        serde_json::from_str("{\"s\":\"text\",\"n\":-42,\"big\":18446744073709551615,\"f\":1.0,\"o\":{}}")
            .unwrap();
    assert_eq!(text_member(&document, "s"), Some("text".to_string()));
    assert_eq!(text_member(&document, "n"), None);
    assert_eq!(text_member(&document, "missing"), None);
    assert_eq!(integer_member(&document, "n"), Some(-42));
    assert_eq!(integer_member(&document, "s"), None);
    assert_eq!(integer_member(&document, "big"), None);
    assert_eq!(integer_member(&document, "f"), None);
    assert_eq!(integer_member(&document, "missing"), None);
    let text: serde_json::Value = serde_json::from_str("\"s\"").unwrap();
    assert_eq!(text_member(&text, "s"), None);
}

#[test]
fn client_parses_like_the_free_function() {
    let payload = payload_text("u-client", "t-client");
    let claims = TraeApiClient::parse_jwt_token(&token_for(&payload)).unwrap();
    assert_eq!(claims.user_id, "u-client");
    assert_eq!(claims.tenant_id, "t-client");
    assert_eq!(TraeApiClient::parse_jwt_token("x").unwrap_err(), TokenError::Malformed);
}
