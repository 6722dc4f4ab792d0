//! The requests that the library asks its caller to send. Every request
//! is a POST.

use vstd::prelude::*;
use vstd::string::*;
use crate::headers::{header_views, Header, HeaderView};

verus! {

/// Path of the call that issues a bearer token for a cookie.
pub const PATH_USER_TOKEN: &'static str = "/cloudide/api/v3/common/GetUserToken";

/// Path of the profile call.
pub const PATH_USER_INFO: &'static str = "/cloudide/api/v3/trae/GetUserInfo";

/// Path of the entitlement listing.
pub const PATH_ENTITLEMENT_LIST: &'static str = "/trae/api/v1/pay/user_current_entitlement_list";

/// Path of the usage history.
pub const PATH_QUERY_USAGE: &'static str = "/trae/api/v1/pay/query_user_usage_group_by_session";

/// One page of the usage history of a span of time.
#[derive(Clone, Copy, PartialEq, Eq, Debug, Structural)]
pub struct UsageQuery {
    pub start_time: i64,
    pub end_time: i64,
    pub page_size: i32,
    pub page_num: i32,
}

/// The body of a request.
#[derive(Clone, Copy, PartialEq, Eq, Debug, Structural)]
pub enum RequestBody {
    /// No body.
    Empty,
    /// The object with the one member `IfWebPage`, which is true.
    IfWebPage,
    /// The object with the one member `require_usage`, which is true.
    RequireUsage,
    /// The object with the four members of a usage query.
    UsageQuery(UsageQuery),
}

/// A request to send.
#[derive(Debug, Clone)]
pub struct ApiRequest {
    pub url: String,
    pub headers: Vec<Header>,
    pub body: RequestBody,
}

/// A request as mathematics.
pub struct ApiRequestView {
    pub url: Seq<char>,
    pub headers: Seq<HeaderView>,
    pub body: RequestBody,
}

impl View for ApiRequest {
    type V = ApiRequestView;

    open spec fn view(&self) -> ApiRequestView {
        ApiRequestView { url: self.url@, headers: header_views(self.headers@), body: self.body }
    }
}

impl ApiRequest {
    /// The request for `path` at `base`.
    pub fn to(base: &str, path: &str, headers: Vec<Header>, body: RequestBody) -> (request:
        ApiRequest)
        ensures
            request@ == (ApiRequestView {
                url: base@ + path@,
                headers: header_views(headers@),
                body,
            }),
    {
        let url = String::from_str(base).concat(path);
        ApiRequest { url, headers, body }
    }
}

} // verus!
