//! The headers that authenticate a request.
//!
//! Every request carries the same content type, accept list, origin,
//! referer and user agent. The cookie profile adds the cookie string; an
//! `Authorization` header of the form `Cloud-IDE-JWT <token>` is added
//! where a bearer token is used. A credential is checked as it is: if it
//! holds a byte that no header value may hold, building fails.

use vstd::prelude::*;
use vstd::string::*;
use crate::octets::append;

verus! {

/// Value of the `Content-Type` header.
pub const CONTENT_TYPE_JSON: &'static str = "application/json";

/// Value of the `Accept` header.
pub const ACCEPT_ANY: &'static str = "application/json, text/plain, */*";

/// Value of the `Origin` header.
pub const WEB_ORIGIN: &'static str = "https://www.trae.ai";

/// Value of the `Referer` header.
pub const WEB_REFERER: &'static str = "https://www.trae.ai/";

/// Value of the `User-Agent` header.
pub const BROWSER_AGENT: &'static str =
    "Mozilla/5.0 (Windows NT 10.0; Win64; x64) AppleWebKit/537.36";

/// What stands before the token in the `Authorization` header.
pub const AUTH_SCHEME: &'static str = "Cloud-IDE-JWT ";

/// The headers that the library sets.
#[derive(Clone, Copy, PartialEq, Eq, Debug, Structural)]
pub enum HeaderField {
    ContentType,
    Accept,
    Cookie,
    Origin,
    Referer,
    UserAgent,
    Authorization,
}

/// The credential whose bytes no header value may hold.
#[derive(Clone, Copy, PartialEq, Eq, Debug, Structural)]
pub enum HeaderError {
    Cookie,
    Token,
}

/// One header: its field and the bytes of its value.
#[derive(Debug, Clone)]
pub struct Header {
    pub field: HeaderField,
    pub value: Vec<u8>,
}

/// A header as mathematics.
pub struct HeaderView {
    pub field: HeaderField,
    pub value: Seq<u8>,
}

impl View for Header {
    type V = HeaderView;

    open spec fn view(&self) -> HeaderView {
        HeaderView { field: self.field, value: self.value@ }
    }
}

/// The headers of a list, as mathematics.
pub open spec fn header_views(headers: Seq<Header>) -> Seq<HeaderView> {
    headers.map_values(|header: Header| header@)
}

/// A byte that a header value may hold: a tab, or anything from the
/// space on but for the delete character.
pub open spec fn header_byte_ok(byte: u8) -> bool {
    (byte >= 32 && byte != 127) || byte == 9
}

/// Bytes that make a header value.
pub open spec fn header_value_ok(value: Seq<u8>) -> bool {
    forall|i: int| 0 <= i < value.len() ==> header_byte_ok(#[trigger] value[i])
}

/// The value of the `Authorization` header for a token.
pub open spec fn auth_value(token: Seq<u8>) -> Seq<u8> {
    AUTH_SCHEME.spec_bytes() + token
}

/// The five headers that every request carries, with the cookie, if any,
/// in the third place.
pub open spec fn fixed_headers(cookie: Option<Seq<u8>>) -> Seq<HeaderView> {
    seq![
        HeaderView { field: HeaderField::ContentType, value: CONTENT_TYPE_JSON.spec_bytes() },
        HeaderView { field: HeaderField::Accept, value: ACCEPT_ANY.spec_bytes() },
    ] + match cookie {
        Some(value) => seq![HeaderView { field: HeaderField::Cookie, value }],
        None => Seq::<HeaderView>::empty(),
    } + seq![
        HeaderView { field: HeaderField::Origin, value: WEB_ORIGIN.spec_bytes() },
        HeaderView { field: HeaderField::Referer, value: WEB_REFERER.spec_bytes() },
        HeaderView { field: HeaderField::UserAgent, value: BROWSER_AGENT.spec_bytes() },
    ]
}

/// The `Authorization` header for a token, as a list; empty without a token.
pub open spec fn auth_headers(token: Option<Seq<u8>>) -> Seq<HeaderView> {
    match token {
        Some(token) => seq![
            HeaderView { field: HeaderField::Authorization, value: auth_value(token) },
        ],
        None => Seq::<HeaderView>::empty(),
    }
}

/// The headers of the given credentials, or the credential that cannot
/// be sent. The cookie is judged before the token.
pub open spec fn headers_of(cookie: Option<Seq<u8>>, token: Option<Seq<u8>>) -> Result<
    Seq<HeaderView>,
    HeaderError,
> {
    if cookie matches Some(value) && !header_value_ok(value) {
        Err(HeaderError::Cookie)
    } else if token matches Some(value) && !header_value_ok(auth_value(value)) {
        Err(HeaderError::Token)
    } else {
        Ok(fixed_headers(cookie) + auth_headers(token))
    }
}

/// Calls `reqwest::header::HeaderValue::from_bytes`, which is that of the
/// `http` crate, and says whether it took the bytes. Trusted: it takes
/// them if and only if each is a tab or at least 32 and not 127.
#[verifier::external_body]
fn accepted_as_header_value(value: &[u8]) -> (accepted: bool)
    ensures
        accepted == header_value_ok(value@),
{
    reqwest::header::HeaderValue::from_bytes(value).is_ok()
}

/// A header with a fixed value.
fn fixed(field: HeaderField, value: &'static str) -> (header: Header)
    ensures
        header@ == (HeaderView { field, value: value.spec_bytes() }),
{
    Header { field, value: value.as_bytes_vec() }
}

/// Builds the headers of a request from the credentials to send: the
/// cookie string, the bearer token, both or neither.
pub fn build(cookie: Option<&str>, token: Option<&str>) -> (r: Result<Vec<Header>, HeaderError>)
    ensures
        match headers_of(
            match cookie {
                Some(text) => Some(text.spec_bytes()),
                None => None,
            },
            match token {
                Some(text) => Some(text.spec_bytes()),
                None => None,
            },
        ) {
            Ok(views) => r matches Ok(headers) && header_views(headers@) == views,
            Err(error) => r matches Err(e) && e == error,
        },
{
    let mut headers: Vec<Header> = Vec::new();
    headers.push(fixed(HeaderField::ContentType, CONTENT_TYPE_JSON));
    headers.push(fixed(HeaderField::Accept, ACCEPT_ANY));
    if let Some(text) = cookie {
        if !accepted_as_header_value(text.as_bytes()) {
            return Err(HeaderError::Cookie);
        }
        headers.push(Header { field: HeaderField::Cookie, value: text.as_bytes_vec() });
    }
    headers.push(fixed(HeaderField::Origin, WEB_ORIGIN));
    headers.push(fixed(HeaderField::Referer, WEB_REFERER));
    headers.push(fixed(HeaderField::UserAgent, BROWSER_AGENT));
    if let Some(text) = token {
        let mut value: Vec<u8> = AUTH_SCHEME.as_bytes_vec();
        append(&mut value, text.as_bytes());
        if !accepted_as_header_value(value.as_slice()) {
            return Err(HeaderError::Token);
        }
        headers.push(Header { field: HeaderField::Authorization, value });
    }
    proof {
        let cookie_bytes = match cookie {
            Some(text) => Some(text.spec_bytes()),
            None => None,
        };
        let token_bytes = match token {
            Some(text) => Some(text.spec_bytes()),
            None => None,
        };
        assert(header_views(headers@) =~= fixed_headers(cookie_bytes) + auth_headers(token_bytes));
    }
    Ok(headers)
}

/// The first `upto` characters of a text are printable ASCII.
spec fn printable_upto(text: Seq<char>, upto: nat) -> bool
    decreases upto,
{
    if upto == 0 {
        true
    } else {
        &&& ' ' <= text[upto - 1] <= '~'
        &&& printable_upto(text, (upto - 1) as nat)
    }
}

/// Printable ASCII text is sent as it is written, and its bytes make a
/// header value.
proof fn lemma_printable_is_sendable(text: &str)
    requires
        printable_upto(text@, text@.len()),
    ensures
        header_value_ok(text.spec_bytes()),
        text.spec_bytes().len() == text@.len(),
{
    lemma_printable_each(text@, text@.len());
    assert(is_ascii(text));
    is_ascii_spec_bytes(text);
    assert forall|i: int| 0 <= i < text.spec_bytes().len() implies header_byte_ok(
        #[trigger] text.spec_bytes()[i],
    ) by {
        let c = text@[i];
        assert(' ' <= c <= '~');
        assert(text.spec_bytes()[i] == c as u8);
    }
}

proof fn lemma_printable_each(text: Seq<char>, upto: nat)
    requires
        upto <= text.len(),
        printable_upto(text, upto),
    ensures
        forall|i: int| 0 <= i < upto ==> ' ' <= #[trigger] text[i] <= '~',
    decreases upto,
{
    if upto > 0 {
        lemma_printable_each(text, (upto - 1) as nat);
    }
}

/// Each fixed value, and the scheme of the `Authorization` header, makes
/// a header value.
pub proof fn lemma_fixed_values_are_sendable()
    ensures
        header_value_ok(CONTENT_TYPE_JSON.spec_bytes()),
        header_value_ok(ACCEPT_ANY.spec_bytes()),
        header_value_ok(WEB_ORIGIN.spec_bytes()),
        header_value_ok(WEB_REFERER.spec_bytes()),
        header_value_ok(BROWSER_AGENT.spec_bytes()),
        header_value_ok(AUTH_SCHEME.spec_bytes()),
{
    reveal_strlit("application/json");
    reveal_strlit("application/json, text/plain, */*");
    reveal_strlit("https://www.trae.ai");
    reveal_strlit("https://www.trae.ai/");
    reveal_strlit("Mozilla/5.0 (Windows NT 10.0; Win64; x64) AppleWebKit/537.36");
    reveal_strlit("Cloud-IDE-JWT ");
    assert(printable_upto(CONTENT_TYPE_JSON@, CONTENT_TYPE_JSON@.len())) by {
        reveal_with_fuel(printable_upto, 17);
    }
    assert(printable_upto(ACCEPT_ANY@, ACCEPT_ANY@.len())) by {
        reveal_with_fuel(printable_upto, 34);
    }
    assert(printable_upto(WEB_ORIGIN@, WEB_ORIGIN@.len())) by {
        reveal_with_fuel(printable_upto, 20);
    }
    assert(printable_upto(WEB_REFERER@, WEB_REFERER@.len())) by {
        reveal_with_fuel(printable_upto, 21);
    }
    assert(printable_upto(BROWSER_AGENT@, BROWSER_AGENT@.len())) by {
        reveal_with_fuel(printable_upto, 61);
    }
    assert(printable_upto(AUTH_SCHEME@, AUTH_SCHEME@.len())) by {
        reveal_with_fuel(printable_upto, 15);
    }
    lemma_printable_is_sendable(CONTENT_TYPE_JSON);
    lemma_printable_is_sendable(ACCEPT_ANY);
    lemma_printable_is_sendable(WEB_ORIGIN);
    lemma_printable_is_sendable(WEB_REFERER);
    lemma_printable_is_sendable(BROWSER_AGENT);
    lemma_printable_is_sendable(AUTH_SCHEME);
}

/// A token can be sent exactly when its own bytes make a header value.
pub proof fn lemma_token_decides(token: Seq<u8>)
    ensures
        header_value_ok(auth_value(token)) <==> header_value_ok(token),
{
    lemma_fixed_values_are_sendable();
    let scheme = AUTH_SCHEME.spec_bytes();
    let value = auth_value(token);
    if header_value_ok(value) {
        assert forall|i: int| 0 <= i < token.len() implies header_byte_ok(#[trigger] token[i]) by {
            assert(value[scheme.len() + i] == token[i]);
        }
    }
    if header_value_ok(token) {
        assert forall|i: int| 0 <= i < value.len() implies header_byte_ok(#[trigger] value[i]) by {
            if i < scheme.len() {
                assert(value[i] == scheme[i]);
            } else {
                assert(value[i] == token[i - scheme.len()]);
            }
        }
    }
}

/// Whatever is built can be sent: each value of the headers makes a
/// header value.
pub proof fn lemma_headers_are_sendable(cookie: Option<Seq<u8>>, token: Option<Seq<u8>>)
    requires
        headers_of(cookie, token) is Ok,
    ensures
        forall|i: int|
            0 <= i < headers_of(cookie, token)->Ok_0.len() ==> header_value_ok(
                (#[trigger] headers_of(cookie, token)->Ok_0[i]).value,
            ),
{
    lemma_fixed_values_are_sendable();
}

/// Building fails exactly when the cookie, or else the token, holds a
/// byte that no header value may hold.
pub proof fn lemma_failure_is_a_bad_credential(cookie: Option<Seq<u8>>, token: Option<Seq<u8>>)
    ensures
        headers_of(cookie, token) is Err <==> (cookie matches Some(value) && !header_value_ok(
            value,
        )) || (token matches Some(value) && !header_value_ok(value)),
{
    if let Some(value) = token {
        lemma_token_decides(value);
    }
}

} // verus!
