use trae_accounts::account::ManagerError;
use trae_accounts::client::ClientError;
use trae_accounts::headers::HeaderError;
use trae_accounts::message::{push_decimal, ApiError};
use trae_accounts::reply::AttemptError;
use trae_accounts::token::{DecodeFault, TokenError};

fn decimal(number: u16) -> String {
    let mut text = String::new();
    push_decimal(&mut text, number);
    text
}

#[test]
fn numbers_are_written_in_decimal() {
    assert_eq!(decimal(0), "0");
    assert_eq!(decimal(7), "7");
    assert_eq!(decimal(10), "10");
    assert_eq!(decimal(404), "404");
    assert_eq!(decimal(1000), "1000");
    assert_eq!(decimal(65535), "65535");
    let mut number = 0u16;
    loop {
        assert_eq!(decimal(number), number.to_string());
        if number == u16::MAX {
            break;
        }
        number += 1;
    }
}

#[test]
fn decimal_is_appended() {
    let mut text = String::from("status ");
    push_decimal(&mut text, 503);
    assert_eq!(text, "status 503");
}

#[test]
fn token_messages() {
    assert_eq!(TokenError::Missing.message(), "Token 不存在");
    assert_eq!(TokenError::Malformed.message(), "无效的 JWT Token 格式");
    assert_eq!(TokenError::Decode(DecodeFault::Base64).message(), "解码 JWT payload 失败");
    assert_eq!(TokenError::Decode(DecodeFault::Utf8).message(), "JWT payload 不是有效的 UTF-8");
    assert_eq!(TokenError::Claims.message(), "解析 JWT payload 失败");
}

#[test]
fn header_messages_end_with_the_words_of_the_http_library() {
    let words = reqwest::header::HeaderValue::from_bytes(b"\n").unwrap_err().to_string();
    assert_eq!(HeaderError::Cookie.message(), format!("Cookie 格式错误: {}", words));
    assert_eq!(HeaderError::Token.message(), format!("Token 格式错误: {}", words));
}

#[test]
fn attempt_messages() {
    assert_eq!(AttemptError::Network(String::from("timed out")).message(), "请求失败: timed out");
    assert_eq!(AttemptError::UpstreamStatus(404).message(), "API 返回错误: 404");
    assert_eq!(AttemptError::Deserialization(String::from("eof")).message(), "解析响应失败: eof");
}

#[test]
fn client_messages() {
    let error = ClientError::Attempt(AttemptError::UpstreamStatus(500));
    assert_eq!(error.message(), "API 返回错误: 500");
    let error = ClientError::RegionExhausted(AttemptError::Network(String::from("down")));
    assert_eq!(error.message(), "请求失败: down");
    assert_eq!(ClientError::Token(TokenError::Missing).message(), "Token 不存在");
    assert_eq!(
        ClientError::Header(HeaderError::Cookie).message(),
        "Cookie 格式错误: failed to parse header value"
    );
}

#[test]
fn manager_messages() {
    assert_eq!(ManagerError::NotFound.message(), "账号不存在");
    assert_eq!(ManagerError::DuplicateId.message(), "账号已存在");
    assert_eq!(ManagerError::Token(TokenError::Malformed).message(), "无效的 JWT Token 格式");
}

#[test]
fn api_error_holds_the_message_only() {
    let told = ApiError::from_client(&ClientError::Attempt(AttemptError::UpstreamStatus(403)));
    assert_eq!(told.message, "API 返回错误: 403");
    let told = ApiError::from_manager(&ManagerError::NotFound);
    assert_eq!(told.message, "账号不存在");
}
