//! What the user is told when an operation fails. The texts carry no
//! code: they are read, not matched on.

use vstd::prelude::*;
use vstd::string::*;
use crate::account::ManagerError;
use crate::client::{ClientError, ClientErrorView};
use crate::headers::HeaderError;
use crate::reply::{AttemptError, AttemptErrorView};
use crate::text::push_char;
use crate::token::{DecodeFault, TokenError};

verus! {

/// What `reqwest` says of bytes that make no header value.
pub const INVALID_HEADER_VALUE: &'static str = "failed to parse header value";

/// The failure of an operation, as the user is told of it.
#[derive(Debug, Clone)]
pub struct ApiError {
    pub message: String,
}

/// The character of a decimal digit.
pub open spec fn digit_char(digit: int) -> char {
    if digit == 0 {
        '0'
    } else if digit == 1 {
        '1'
    } else if digit == 2 {
        '2'
    } else if digit == 3 {
        '3'
    } else if digit == 4 {
        '4'
    } else if digit == 5 {
        '5'
    } else if digit == 6 {
        '6'
    } else if digit == 7 {
        '7'
    } else if digit == 8 {
        '8'
    } else {
        '9'
    }
}

/// A number in decimal digits, without leading zeros.
pub open spec fn decimal(number: nat) -> Seq<char>
    decreases number,
{
    if number < 10 {
        seq![digit_char(number as int)]
    } else {
        decimal(number / 10).push(digit_char((number % 10) as int))
    }
}

/// The text for a missing or unreadable token.
pub open spec fn token_message(error: TokenError) -> Seq<char> {
    match error {
        TokenError::Missing => "Token 不存在"@,
        TokenError::Malformed => "无效的 JWT Token 格式"@,
        TokenError::Decode(DecodeFault::Base64) => "解码 JWT payload 失败"@,
        TokenError::Decode(DecodeFault::Utf8) => "JWT payload 不是有效的 UTF-8"@,
        TokenError::Claims => "解析 JWT payload 失败"@,
    }
}

/// The text for a credential that cannot be sent.
pub open spec fn header_message(error: HeaderError) -> Seq<char> {
    match error {
        HeaderError::Cookie => "Cookie 格式错误: "@ + INVALID_HEADER_VALUE@,
        HeaderError::Token => "Token 格式错误: "@ + INVALID_HEADER_VALUE@,
    }
}

/// The text for a failed attempt.
pub open spec fn attempt_message(error: AttemptErrorView) -> Seq<char> {
    match error {
        AttemptErrorView::Network(detail) => "请求失败: "@ + detail,
        AttemptErrorView::UpstreamStatus(status) => "API 返回错误: "@ + decimal(status as nat),
        AttemptErrorView::Deserialization(detail) => "解析响应失败: "@ + detail,
    }
}

/// The text for a failed call of a session. A sweep that found no
/// endpoint speaks of its last attempt.
pub open spec fn client_message(error: ClientErrorView) -> Seq<char> {
    match error {
        ClientErrorView::Attempt(error) => attempt_message(error),
        ClientErrorView::Token(error) => token_message(error),
        ClientErrorView::Header(error) => header_message(error),
        ClientErrorView::RegionExhausted(error) => attempt_message(error),
    }
}

/// The text for a failed operation of the manager.
pub open spec fn manager_message(error: ManagerError) -> Seq<char> {
    match error {
        ManagerError::NotFound => "账号不存在"@,
        ManagerError::Token(error) => token_message(error),
        ManagerError::DuplicateId => "账号已存在"@,
    }
}

/// The character of a decimal digit.
fn digit(value: u16) -> (c: char)
    requires
        value < 10,
    ensures
        c == digit_char(value as int),
{
    if value == 0 {
        '0'
    } else if value == 1 {
        '1'
    } else if value == 2 {
        '2'
    } else if value == 3 {
        '3'
    } else if value == 4 {
        '4'
    } else if value == 5 {
        '5'
    } else if value == 6 {
        '6'
    } else if value == 7 {
        '7'
    } else if value == 8 {
        '8'
    } else {
        '9'
    }
}

/// Appends a number in decimal digits.
pub fn push_decimal(text: &mut String, number: u16)
    ensures
        final(text)@ == old(text)@ + decimal(number as nat),
    decreases number,
{
    if number < 10 {
        push_char(text, digit(number));
        proof {
            assert(text@ =~= old(text)@ + decimal(number as nat));
        }
    } else {
        push_decimal(text, number / 10);
        push_char(text, digit(number % 10));
        proof {
            assert(text@ =~= old(text)@ + decimal(number as nat));
        }
    }
}

impl TokenError {
    /// The text for a missing or unreadable token.
    pub fn message(&self) -> (text: String)
        ensures
            text@ == token_message(*self),
    {
        match self {
            TokenError::Missing => String::from_str("Token 不存在"),
            TokenError::Malformed => String::from_str("无效的 JWT Token 格式"),
            TokenError::Decode(DecodeFault::Base64) => String::from_str("解码 JWT payload 失败"),
            TokenError::Decode(DecodeFault::Utf8) => String::from_str(
                "JWT payload 不是有效的 UTF-8",
            ),
            TokenError::Claims => String::from_str("解析 JWT payload 失败"),
        }
    }
}

impl HeaderError {
    /// The text for a credential that cannot be sent.
    pub fn message(&self) -> (text: String)
        ensures
            text@ == header_message(*self),
    {
        match self {
            HeaderError::Cookie => String::from_str("Cookie 格式错误: ").concat(
                INVALID_HEADER_VALUE,
            ),
            HeaderError::Token => String::from_str("Token 格式错误: ").concat(
                INVALID_HEADER_VALUE,
            ),
        }
    }
}

impl AttemptError {
    /// The text for a failed attempt.
    pub fn message(&self) -> (text: String)
        ensures
            text@ == attempt_message(self@),
    {
        match self {
            AttemptError::Network(detail) => String::from_str("请求失败: ").concat(
                detail.as_str(),
            ),
            AttemptError::UpstreamStatus(status) => {
                let mut text = String::from_str("API 返回错误: ");
                push_decimal(&mut text, *status);
                text
            },
            AttemptError::Deserialization(detail) => String::from_str("解析响应失败: ").concat(
                detail.as_str(),
            ),
        }
    }
}

impl ClientError {
    /// The text for a failed call of a session.
    pub fn message(&self) -> (text: String)
        ensures
            text@ == client_message(self@),
    {
        match self {
            ClientError::Attempt(error) => error.message(),
            ClientError::Token(error) => error.message(),
            ClientError::Header(error) => error.message(),
            ClientError::RegionExhausted(error) => error.message(),
        }
    }
}

impl ManagerError {
    /// The text for a failed operation of the manager.
    pub fn message(&self) -> (text: String)
        ensures
            text@ == manager_message(*self),
    {
        match self {
            ManagerError::NotFound => String::from_str("账号不存在"),
            ManagerError::Token(error) => error.message(),
            ManagerError::DuplicateId => String::from_str("账号已存在"),
        }
    }
}

impl ApiError {
    /// What the user is told of a failed call of a session.
    pub fn from_client(error: &ClientError) -> (told: ApiError)
        ensures
            told.message@ == client_message(error@),
    {
        ApiError { message: error.message() }
    }

    /// What the user is told of a failed operation of the manager.
    pub fn from_manager(error: &ManagerError) -> (told: ApiError)
        ensures
            told.message@ == manager_message(*error),
    {
        ApiError { message: error.message() }
    }
}

} // verus!
