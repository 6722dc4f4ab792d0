//! The records of the token-issuance and profile calls, and the profile
//! that is put together for an account known by its token alone.

use vstd::prelude::*;
use vstd::string::*;
use crate::claims::JwtPayload;
use crate::text::text_view;
use crate::entitlement::EntitlementListResponse;

verus! {

/// What every response of the profile service starts with.
#[derive(Debug, Clone)]
pub struct ResponseMetadata {
    pub request_id: String,
    pub trace_id: String,
}

/// An issued bearer token.
#[derive(Debug, Clone)]
pub struct UserTokenResult {
    pub token: String,
    pub expired_at: String,
    pub user_id: String,
    pub tenant_id: String,
}

/// The response of the token-issuance call.
#[derive(Debug, Clone)]
pub struct GetUserTokenResponse {
    pub response_metadata: ResponseMetadata,
    pub result: UserTokenResult,
}

/// A user's profile.
#[derive(Debug, Clone)]
pub struct UserInfoResult {
    pub screen_name: String,
    pub gender: String,
    pub avatar_url: String,
    pub user_id: String,
    pub description: String,
    pub tenant_id: String,
    pub register_time: String,
    pub last_login_time: String,
    pub last_login_type: String,
    pub region: String,
    pub ai_region: Option<String>,
    pub non_plain_text_email: Option<String>,
    pub store_country: Option<String>,
}

/// The response of the profile call.
#[derive(Debug, Clone)]
pub struct GetUserInfoResponse {
    pub response_metadata: ResponseMetadata,
    pub result: UserInfoResult,
}

/// What is known of the user behind a bearer token.
#[derive(Debug, Clone)]
pub struct TokenUserInfo {
    pub user_id: String,
    pub tenant_id: String,
    pub screen_name: Option<String>,
    pub avatar_url: Option<String>,
    pub email: Option<String>,
}

/// `TokenUserInfo` as mathematics.
pub struct TokenUserInfoView {
    pub user_id: Seq<char>,
    pub tenant_id: Seq<char>,
    pub screen_name: Option<Seq<char>>,
    pub avatar_url: Option<Seq<char>>,
    pub email: Option<Seq<char>>,
}

impl View for TokenUserInfo {
    type V = TokenUserInfoView;

    open spec fn view(&self) -> TokenUserInfoView {
        TokenUserInfoView {
            user_id: self.user_id@,
            tenant_id: self.tenant_id@,
            screen_name: text_view(self.screen_name),
            avatar_url: text_view(self.avatar_url),
            email: text_view(self.email),
        }
    }
}

/// The user that a listing speaks of: the user of its first pack.
pub open spec fn listed_user(listing: EntitlementListResponse) -> Option<Seq<char>> {
    if listing.user_entitlement_pack_list@.len() > 0 {
        Some(listing.user_entitlement_pack_list@[0].entitlement_base_info.user_id@)
    } else {
        None
    }
}

/// The profile of a token's user. The user id is the one that the
/// listing gives, else the one that the token claims; the tenant is the
/// one that the token claims; name, avatar and e-mail come from the profile
/// where there is one, an empty avatar address counting as none.
pub open spec fn profile_of(
    listed: Option<Seq<char>>,
    claims: JwtPayload,
    detail: Option<UserInfoResult>,
) -> TokenUserInfoView {
    TokenUserInfoView {
        user_id: match listed {
            Some(user_id) => user_id,
            None => claims.user_id@,
        },
        tenant_id: claims.tenant_id@,
        screen_name: match detail {
            Some(user) => Some(user.screen_name@),
            None => None,
        },
        avatar_url: match detail {
            Some(user) => if user.avatar_url@.len() == 0 {
                None
            } else {
                Some(user.avatar_url@)
            },
            None => None,
        },
        email: match detail {
            Some(user) => text_view(user.non_plain_text_email),
            None => None,
        },
    }
}

/// The label under which a user is shown: the screen name where one is
/// known and not empty, else the user id.
pub open spec fn label_of(info: TokenUserInfoView) -> Seq<char> {
    match info.screen_name {
        Some(name) => if name.len() == 0 {
            info.user_id
        } else {
            name
        },
        None => info.user_id,
    }
}

impl EntitlementListResponse {
    /// The user of the first pack, if the listing has a pack.
    pub fn first_user_id(&self) -> (r: Option<String>)
        ensures
            text_view(r) == listed_user(*self),
    {
        if self.user_entitlement_pack_list.len() > 0 {
            Some(self.user_entitlement_pack_list[0].entitlement_base_info.user_id.clone())
        } else {
            None
        }
    }
}

impl TokenUserInfo {
    /// The label under which the user is shown.
    pub fn label(&self) -> (text: String)
        ensures
            text@ == label_of(self@),
    {
        match &self.screen_name {
            Some(name) => if name.as_str().is_empty() {
                self.user_id.clone()
            } else {
                name.clone()
            },
            None => self.user_id.clone(),
        }
    }

    /// Puts the profile together from what the listing, the token and
    /// the profile call gave.
    pub fn assemble(listed: Option<String>, claims: JwtPayload, detail: Option<UserInfoResult>) -> (r:
        TokenUserInfo)
        ensures
            r@ == profile_of(text_view(listed), claims, detail),
    {
        let user_id = match listed {
            Some(user_id) => user_id,
            None => claims.user_id,
        };
        match detail {
            Some(user) => {
                let avatar_url = if user.avatar_url.as_str().is_empty() {
                    None
                } else {
                    Some(user.avatar_url)
                };
                TokenUserInfo {
                    user_id,
                    tenant_id: claims.tenant_id,
                    screen_name: Some(user.screen_name),
                    avatar_url,
                    email: user.non_plain_text_email,
                }
            },
            None => TokenUserInfo {
                user_id,
                tenant_id: claims.tenant_id,
                screen_name: None,
                avatar_url: None,
                email: None,
            },
        }
    }
}

} // verus!
