use trae_accounts::client::TraeApiClient;
use trae_accounts::headers::{
    build, Header, HeaderError, HeaderField, ACCEPT_ANY, AUTH_SCHEME, BROWSER_AGENT,
    CONTENT_TYPE_JSON, WEB_ORIGIN, WEB_REFERER,
};

fn fields(headers: &[Header]) -> Vec<HeaderField> {
    headers.iter().map(|header| header.field).collect()
}

fn value_of(headers: &[Header], field: HeaderField) -> Option<Vec<u8>> {
    headers.iter().find(|header| header.field == field).map(|header| header.value.clone())
}

#[test]
fn cookie_profile_without_token_has_six_headers() {
    let headers = build(Some("sid=abc"), None).unwrap();
    assert_eq!(
        fields(&headers),
        vec![
            HeaderField::ContentType,
            HeaderField::Accept,
            HeaderField::Cookie,
            HeaderField::Origin,
            HeaderField::Referer,
            HeaderField::UserAgent,
        ]
    );
    assert_eq!(value_of(&headers, HeaderField::ContentType).unwrap(), b"application/json".to_vec());
    assert_eq!(
        value_of(&headers, HeaderField::Accept).unwrap(),
        b"application/json, text/plain, */*".to_vec()
    );
    assert_eq!(value_of(&headers, HeaderField::Cookie).unwrap(), b"sid=abc".to_vec());
    assert_eq!(value_of(&headers, HeaderField::Origin).unwrap(), b"https://www.trae.ai".to_vec());
    assert_eq!(value_of(&headers, HeaderField::Referer).unwrap(), b"https://www.trae.ai/".to_vec());
    assert_eq!(
        value_of(&headers, HeaderField::UserAgent).unwrap(),
        b"Mozilla/5.0 (Windows NT 10.0; Win64; x64) AppleWebKit/537.36".to_vec()
    );
}

#[test]
fn cookie_profile_with_token_adds_authorization_last() {
    let headers = build(Some("sid=abc"), Some("tok.en.x")).unwrap();
    assert_eq!(headers.len(), 7);
    assert_eq!(headers[6].field, HeaderField::Authorization);
    assert_eq!(headers[6].value, b"Cloud-IDE-JWT tok.en.x".to_vec());
    assert_eq!(headers[2].field, HeaderField::Cookie);
}

#[test]
fn token_profile_has_no_cookie() {
    let headers = build(None, Some("t")).unwrap();
    assert_eq!(
        fields(&headers),
        vec![
            HeaderField::ContentType,
            HeaderField::Accept,
            HeaderField::Origin,
            HeaderField::Referer,
            HeaderField::UserAgent,
            HeaderField::Authorization,
        ]
    );
    assert_eq!(value_of(&headers, HeaderField::Authorization).unwrap(), b"Cloud-IDE-JWT t".to_vec());
    assert!(value_of(&headers, HeaderField::Cookie).is_none());
}

#[test]
fn neither_credential_gives_the_five_fixed_headers() {
    let headers = build(None, None).unwrap();
    assert_eq!(headers.len(), 5);
    assert!(value_of(&headers, HeaderField::Authorization).is_none());
    assert!(value_of(&headers, HeaderField::Cookie).is_none());
}

#[test]
fn cookie_with_control_character_is_refused() {
    assert_eq!(build(Some("a=1\nb=2"), None).unwrap_err(), HeaderError::Cookie);
    assert_eq!(build(Some("a=\u{0}"), None).unwrap_err(), HeaderError::Cookie);
    assert_eq!(build(Some("a=\u{7f}"), None).unwrap_err(), HeaderError::Cookie);
    assert_eq!(build(Some("a=\u{1f}"), Some("t")).unwrap_err(), HeaderError::Cookie);
}

#[test]
fn token_with_control_character_is_refused() {
    assert_eq!(build(None, Some("to\rken")).unwrap_err(), HeaderError::Token);
    assert_eq!(build(Some("ok"), Some("to\nken")).unwrap_err(), HeaderError::Token);
    assert_eq!(build(Some("ok"), Some("\u{7f}")).unwrap_err(), HeaderError::Token);
}

#[test]
fn bad_cookie_is_reported_before_bad_token() {
    assert_eq!(build(Some("a\nb"), Some("c\nd")).unwrap_err(), HeaderError::Cookie);
}

#[test]
fn tab_and_bytes_beyond_ascii_are_sent() {
    let headers = build(Some("a=\tb; 名=值"), Some("é")).unwrap();
    assert_eq!(value_of(&headers, HeaderField::Cookie).unwrap(), "a=\tb; 名=值".as_bytes().to_vec());
    let mut expected = b"Cloud-IDE-JWT ".to_vec();
    expected.extend_from_slice("é".as_bytes());
    assert_eq!(value_of(&headers, HeaderField::Authorization).unwrap(), expected);
}

#[test]
fn empty_credentials_are_sent_empty() {
    let headers = build(Some(""), Some("")).unwrap();
    assert_eq!(value_of(&headers, HeaderField::Cookie).unwrap(), Vec::<u8>::new());
    assert_eq!(value_of(&headers, HeaderField::Authorization).unwrap(), b"Cloud-IDE-JWT ".to_vec());
}

#[test]
fn every_built_value_is_taken_by_the_http_library() {
    let headers = build(Some("a=\tb; c=\u{ff}"), Some("abc.def-_ghi")).unwrap();
    for header in &headers {
        assert!(reqwest::header::HeaderValue::from_bytes(&header.value).is_ok());
    }
    for fixed in [CONTENT_TYPE_JSON, ACCEPT_ANY, WEB_ORIGIN, WEB_REFERER, BROWSER_AGENT, AUTH_SCHEME] {
        assert!(reqwest::header::HeaderValue::from_bytes(fixed.as_bytes()).is_ok());
    }
}

#[test]
fn refusal_agrees_with_the_http_library_on_every_byte() {
    let mut byte = 0u8;
    loop {
        // Bytes from 128 on are sent as the two bytes of a character, both above 127.
        let text = String::from(char::from(byte));
        let taken = reqwest::header::HeaderValue::from_bytes(text.as_bytes()).is_ok();
        assert_eq!(build(Some(&text), None).is_ok(), taken);
        assert_eq!(build(None, Some(&text)).is_ok(), taken);
        assert_eq!(taken, byte == 9 || (byte >= 32 && byte != 127));
        if byte == 255 {
            break;
        }
        byte += 1;
    }
}

#[test]
fn session_with_cookie_builds_the_cookie_profile() {
    let client = TraeApiClient::new("sid=abc");
    let headers = client.build_headers(false).unwrap();
    assert_eq!(headers.len(), 6);
    assert_eq!(value_of(&headers, HeaderField::Cookie).unwrap(), b"sid=abc".to_vec());
    // no token yet: asking for it adds nothing
    let headers = client.build_headers(true).unwrap();
    assert_eq!(headers.len(), 6);
}

#[test]
fn session_with_token_adds_it_only_when_asked() {
    let client = TraeApiClient::with_credentials(
        Some("sid=abc"),
        Some("tok"),
        trae_accounts::region::RegionEndpoint::Us,
    );
    assert_eq!(client.build_headers(false).unwrap().len(), 6);
    let headers = client.build_headers(true).unwrap();
    assert_eq!(headers.len(), 7);
    assert_eq!(value_of(&headers, HeaderField::Authorization).unwrap(), b"Cloud-IDE-JWT tok".to_vec());
    let headers = client.build_headers_token_only().unwrap();
    assert_eq!(headers.len(), 6);
    assert!(value_of(&headers, HeaderField::Cookie).is_none());
    assert_eq!(value_of(&headers, HeaderField::Authorization).unwrap(), b"Cloud-IDE-JWT tok".to_vec());
}

#[test]
fn session_refuses_credentials_that_cannot_be_sent() {
    let client = TraeApiClient::with_credentials(
        Some("a\u{1}b"),
        Some("tok"),
        trae_accounts::region::RegionEndpoint::Sg,
    );
    assert_eq!(client.build_headers(true).unwrap_err(), HeaderError::Cookie);
    assert!(client.build_headers_token_only().is_ok());
    let client = TraeApiClient::new_with_token("to\nken");
    assert_eq!(client.build_headers_token_only().unwrap_err(), HeaderError::Token);
    assert_eq!(client.build_headers(true).unwrap_err(), HeaderError::Token);
    assert!(client.build_headers(false).is_ok());
}
