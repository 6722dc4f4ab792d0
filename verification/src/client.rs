//! The session of one account: its credentials and its region, the
//! requests that it gives rise to and what their replies mean.
//!
//! The caller sends each request and hands back the reply. A reply
//! changes the session only where it is a success.

use vstd::prelude::*;
use vstd::string::*;
use vstd::utf8::encode_utf8;
use crate::claims::{JwtPayload, JwtPayloadView};
use crate::cookie::{sanitize, sanitized};
use crate::entitlement::EntitlementListResponse;
use crate::failover::{
    fresh, lemma_sweep_candidates, swap_candidates, sweep_candidates, Failover, FailoverView, Verdict,
};
use crate::headers::{build, header_views, headers_of, Header, HeaderError, HeaderView};
use crate::profile::{GetUserInfoResponse, GetUserTokenResponse, UserInfoResult, UserTokenResult};
use crate::text::text_view;
use crate::region::{detect_api_base_from_cookies, region_of, RegionEndpoint, API_BASE_UG};
use crate::reply::{outcome_of, AttemptError, AttemptErrorView, Reply};
use crate::request::{
    ApiRequest, ApiRequestView, RequestBody, UsageQuery, PATH_ENTITLEMENT_LIST, PATH_QUERY_USAGE,
    PATH_USER_INFO, PATH_USER_TOKEN,
};
use crate::token::{claims_of, parse_jwt_token, TokenError};
use crate::usage::{parse_entitlements_to_summary, summary_of, UsageSummary};

verus! {

/// Why a call of the session failed.
#[derive(Debug, Clone)]
pub enum ClientError {
    /// The one attempt, or the second of a two-way swap, failed.
    Attempt(AttemptError),
    /// The bearer token is missing or gives no claims.
    Token(TokenError),
    /// A credential cannot be sent as a header.
    Header(HeaderError),
    /// Every candidate of an ordered sweep failed; this is how the last
    /// attempt failed.
    RegionExhausted(AttemptError),
}

/// `ClientError` as mathematics.
pub enum ClientErrorView {
    Attempt(AttemptErrorView),
    Token(TokenError),
    Header(HeaderError),
    RegionExhausted(AttemptErrorView),
}

impl View for ClientError {
    type V = ClientErrorView;

    open spec fn view(&self) -> ClientErrorView {
        match self {
            ClientError::Attempt(error) => ClientErrorView::Attempt(error@),
            ClientError::Token(error) => ClientErrorView::Token(*error),
            ClientError::Header(error) => ClientErrorView::Header(*error),
            ClientError::RegionExhausted(error) => ClientErrorView::RegionExhausted(error@),
        }
    }
}

/// The failover policy that a call runs under.
#[derive(Clone, Copy, PartialEq, Eq, Debug, Structural)]
pub enum Policy {
    /// The call is bound to a resolved endpoint.
    Swap,
    /// The call may run before the region is known.
    Sweep,
}

/// The error that surfaces when a call under `policy` ends with a failed attempt.
pub open spec fn surfaced(policy: Policy, error: AttemptErrorView) -> ClientErrorView {
    match policy {
        Policy::Swap => ClientErrorView::Attempt(error),
        Policy::Sweep => ClientErrorView::RegionExhausted(error),
    }
}

/// The verdict on a reply under `policy`, for a failover in state `state`.
pub open spec fn verdict_of<T>(policy: Policy, state: FailoverView, reply: Reply<T>) -> Verdict<
    T,
    ClientErrorView,
> {
    match state.settle(outcome_of(reply)).1 {
        Verdict::Retry(endpoint) => Verdict::Retry(endpoint),
        Verdict::Finished(Ok(data)) => Verdict::Finished(Ok(data)),
        Verdict::Finished(Err(error)) => Verdict::Finished(Err(surfaced(policy, error))),
    }
}

/// The failover after a reply.
pub open spec fn state_after<T>(state: FailoverView, reply: Reply<T>) -> FailoverView {
    state.settle(outcome_of(reply)).0
}

/// An exec verdict says what a verdict over views says.
pub open spec fn same_verdict<T>(
    exec: Verdict<T, ClientError>,
    math: Verdict<T, ClientErrorView>,
) -> bool {
    match exec {
        Verdict::Retry(endpoint) => math == Verdict::<T, ClientErrorView>::Retry(endpoint),
        Verdict::Finished(Ok(data)) => math == Verdict::<T, ClientErrorView>::Finished(Ok(data)),
        Verdict::Finished(Err(error)) => math == Verdict::<T, ClientErrorView>::Finished(
            Err(error@),
        ),
    }
}

/// An exec verdict on a summary says what a verdict on a listing says,
/// the listing being folded into its summary.
pub open spec fn same_summary_verdict(
    exec: Verdict<UsageSummary, ClientError>,
    math: Verdict<EntitlementListResponse, ClientErrorView>,
) -> bool {
    match math {
        Verdict::Retry(endpoint) => exec == Verdict::<UsageSummary, ClientError>::Retry(endpoint),
        Verdict::Finished(Ok(listing)) => exec matches Verdict::Finished(Ok(summary)) && summary@
            == summary_of(listing.user_entitlement_pack_list@),
        Verdict::Finished(Err(error)) => exec matches Verdict::Finished(Err(e)) && e@ == error,
    }
}

/// Takes a reply for a failover and says how the call goes on.
pub fn settle_reply<T>(policy: Policy, machine: &mut Failover, reply: Reply<T>) -> (verdict: Verdict<
    T,
    ClientError,
>)
    ensures
        final(machine)@ == state_after(old(machine)@, reply),
        same_verdict(verdict, verdict_of(policy, old(machine)@, reply)),
{
    match machine.settle(reply.outcome()) {
        Verdict::Retry(endpoint) => Verdict::Retry(endpoint),
        Verdict::Finished(Ok(data)) => Verdict::Finished(Ok(data)),
        Verdict::Finished(Err(error)) => match policy {
            Policy::Swap => Verdict::Finished(Err(ClientError::Attempt(error))),
            Policy::Sweep => Verdict::Finished(Err(ClientError::RegionExhausted(error))),
        },
    }
}

/// The session of one account.
pub struct TraeApiClient {
    cookies: String,
    jwt_token: Option<String>,
    api_base: RegionEndpoint,
}

/// A session as mathematics. An empty cookie string stands for none.
pub struct ClientView {
    pub cookies: Seq<char>,
    pub jwt_token: Option<Seq<char>>,
    pub api_base: RegionEndpoint,
}

impl View for TraeApiClient {
    type V = ClientView;

    closed spec fn view(&self) -> ClientView {
        ClientView {
            cookies: self.cookies@,
            jwt_token: text_view(self.jwt_token),
            api_base: self.api_base,
        }
    }
}

impl ClientView {
    /// The bytes of the token, if there is one.
    pub open spec fn token_bytes(self) -> Option<Seq<u8>> {
        match self.jwt_token {
            Some(token) => Some(encode_utf8(token)),
            None => None,
        }
    }

    /// The headers of the cookie profile: the cookie string always, the
    /// token where it is asked for and there is one.
    pub open spec fn cookie_headers(self, with_auth: bool) -> Result<Seq<HeaderView>, HeaderError> {
        headers_of(
            Some(encode_utf8(self.cookies)),
            if with_auth {
                self.token_bytes()
            } else {
                None
            },
        )
    }

    /// The headers of the token profile: no cookie, the token where
    /// there is one.
    pub open spec fn token_headers(self) -> Result<Seq<HeaderView>, HeaderError> {
        headers_of(None, self.token_bytes())
    }

    /// The claims of the session's token.
    pub open spec fn claims(self) -> Result<JwtPayloadView, TokenError> {
        match self.jwt_token {
            Some(token) => claims_of(encode_utf8(token)),
            None => Err(TokenError::Missing),
        }
    }

    /// The session after a reply to the token-issuance request: a token
    /// that was issued is kept, and nothing else changes the session.
    pub open spec fn after_token_reply(
        self,
        state: FailoverView,
        reply: Reply<GetUserTokenResponse>,
    ) -> ClientView {
        match verdict_of(Policy::Swap, state, reply) {
            Verdict::Finished(Ok(issued)) => self.with_token(issued.result.token@),
            _ => self,
        }
    }

    /// The session with a new token.
    pub open spec fn with_token(self, token: Seq<char>) -> ClientView {
        ClientView { jwt_token: Some(token), ..self }
    }
}

/// The request for `path` at `base` with the given headers, or the
/// reason why the headers cannot be built.
pub open spec fn request_of(
    base: Seq<char>,
    path: Seq<char>,
    headers: Result<Seq<HeaderView>, HeaderError>,
    body: RequestBody,
) -> Result<ApiRequestView, ClientErrorView> {
    match headers {
        Ok(headers) => Ok(ApiRequestView { url: base + path, headers, body }),
        Err(error) => Err(ClientErrorView::Header(error)),
    }
}

/// An exec request says what a request over views says.
pub open spec fn same_request(
    exec: Result<ApiRequest, ClientError>,
    math: Result<ApiRequestView, ClientErrorView>,
) -> bool {
    match math {
        Ok(request) => exec matches Ok(built) && built@ == request,
        Err(error) => exec matches Err(e) && e@ == error,
    }
}

/// Exec headers say what headers over views say.
pub open spec fn same_headers(
    exec: Result<Vec<Header>, HeaderError>,
    math: Result<Seq<HeaderView>, HeaderError>,
) -> bool {
    match math {
        Ok(views) => exec matches Ok(headers) && header_views(headers@) == views,
        Err(error) => exec matches Err(e) && e == error,
    }
}

/// Puts a request together once its headers are built.
fn request_to(
    base: &str,
    path: &str,
    headers: Result<Vec<Header>, HeaderError>,
    body: RequestBody,
) -> (r: Result<ApiRequest, ClientError>)
    ensures
        match headers {
            Ok(built) => r matches Ok(request) && request@ == (ApiRequestView {
                url: base@ + path@,
                headers: header_views(built@),
                body,
            }),
            Err(error) => r matches Err(e) && e@ == ClientErrorView::Header(error),
        },
{
    match headers {
        Ok(built) => Ok(ApiRequest::to(base, path, built, body)),
        Err(error) => Err(ClientError::Header(error)),
    }
}

impl TraeApiClient {
    /// A session for a cookie string. The string is cleaned, and the
    /// region is the one that the cleaned string selects.
    pub fn new(cookies: &str) -> (client: TraeApiClient)
        ensures
            client@ == (ClientView {
                cookies: sanitized(cookies@),
                jwt_token: None,
                api_base: region_of(sanitized(cookies@)),
            }),
    {
        let cleaned = sanitize(cookies);
        let api_base = detect_api_base_from_cookies(cleaned.as_str());
        TraeApiClient { cookies: cleaned, jwt_token: None, api_base }
    }

    /// A session for a bearer token. Its region is Singapore until a
    /// sweep finds otherwise.
    pub fn new_with_token(token: &str) -> (client: TraeApiClient)
        ensures
            client@ == (ClientView {
                cookies: Seq::<char>::empty(),
                jwt_token: Some(token@),
                api_base: RegionEndpoint::Sg,
            }),
    {
        TraeApiClient {
            cookies: String::new(),
            jwt_token: Some(String::from_str(token)),
            api_base: RegionEndpoint::Sg,
        }
    }

    /// A session for credentials that are known already, taken as they are.
    pub fn with_credentials(cookies: Option<&str>, token: Option<&str>, api_base: RegionEndpoint) -> (client:
        TraeApiClient)
        ensures
            client@ == (ClientView {
                cookies: match cookies {
                    Some(text) => text@,
                    None => Seq::<char>::empty(),
                },
                jwt_token: match token {
                    Some(text) => Some(text@),
                    None => None,
                },
                api_base,
            }),
    {
        TraeApiClient {
            cookies: match cookies {
                Some(text) => String::from_str(text),
                None => String::new(),
            },
            jwt_token: match token {
                Some(text) => Some(String::from_str(text)),
                None => None,
            },
            api_base,
        }
    }

    /// The cookie string of the session; empty where it has none.
    pub fn cookies(&self) -> (r: &str)
        ensures
            r@ == self@.cookies,
    {
        self.cookies.as_str()
    }

    /// The bearer token of the session.
    pub fn jwt_token(&self) -> (r: Option<&str>)
        ensures
            match r {
                Some(token) => self@.jwt_token == Some(token@),
                None => self@.jwt_token is None,
            },
    {
        match &self.jwt_token {
            Some(token) => Some(token.as_str()),
            None => None,
        }
    }

    /// The endpoint that the session is bound to.
    pub fn api_base(&self) -> (r: RegionEndpoint)
        ensures
            r == self@.api_base,
    {
        self.api_base
    }

    /// Picks the endpoint for a cookie string.
    pub fn detect_api_base_from_cookies(cookies: &str) -> (region: RegionEndpoint)
        ensures
            region == region_of(cookies@),
    {
        detect_api_base_from_cookies(cookies)
    }

    /// Reads the user and the tenant from a bearer token.
    pub fn parse_jwt_token(token: &str) -> (r: Result<JwtPayload, TokenError>)
        ensures
            match claims_of(token.spec_bytes()) {
                Ok(claims) => r matches Ok(parsed) && parsed@ == claims,
                Err(error) => r matches Err(e) && e == error,
            },
    {
        parse_jwt_token(token)
    }

    /// Folds a listing into its summary.
    pub fn parse_entitlements_to_summary(entitlements: &EntitlementListResponse) -> (summary:
        UsageSummary)
        ensures
            summary@ == summary_of(entitlements.user_entitlement_pack_list@),
    {
        parse_entitlements_to_summary(entitlements)
    }

    /// The claims of the session's token; `Missing` where it has none.
    pub fn token_claims(&self) -> (r: Result<JwtPayload, TokenError>)
        ensures
            match self@.claims() {
                Ok(claims) => r matches Ok(parsed) && parsed@ == claims,
                Err(error) => r matches Err(e) && e == error,
            },
    {
        match &self.jwt_token {
            Some(token) => parse_jwt_token(token.as_str()),
            None => Err(TokenError::Missing),
        }
    }

    /// Whether a token must be issued before a call that needs one.
    pub fn needs_user_token(&self) -> (r: bool)
        ensures
            r == (self@.jwt_token is None),
    {
        self.jwt_token.is_none()
    }

    /// The headers of the cookie profile.
    pub fn build_headers(&self, with_auth: bool) -> (r: Result<Vec<Header>, HeaderError>)
        ensures
            same_headers(r, self@.cookie_headers(with_auth)),
    {
        let token = match &self.jwt_token {
            Some(token) => if with_auth {
                Some(token.as_str())
            } else {
                None
            },
            None => None,
        };
        build(Some(self.cookies.as_str()), token)
    }

    /// The headers of the token profile.
    pub fn build_headers_token_only(&self) -> (r: Result<Vec<Header>, HeaderError>)
        ensures
            same_headers(r, self@.token_headers()),
    {
        let token = match &self.jwt_token {
            Some(token) => Some(token.as_str()),
            None => None,
        };
        build(None, token)
    }

    /// The two-way swap of a call that is bound to the session's endpoint.
    pub fn try_api_endpoints(&self) -> (machine: Failover)
        ensures
            machine@ == fresh(swap_candidates(self@.api_base)),
    {
        Failover::two_way_swap(self.api_base)
    }

    /// The ordered sweep of a call that may run before the region is known.
    pub fn sweep_api_endpoints(&self) -> (machine: Failover)
        ensures
            machine@ == fresh(sweep_candidates(self@.api_base)),
    {
        Failover::ordered_sweep(self.api_base)
    }

    /// The request that issues a bearer token for the cookie: no body,
    /// the cookie profile without the token.
    pub fn get_user_token_request(&self, endpoint: RegionEndpoint) -> (r: Result<
        ApiRequest,
        ClientError,
    >)
        ensures
            same_request(
                r,
                request_of(
                    endpoint.base_spec(),
                    PATH_USER_TOKEN@,
                    self@.cookie_headers(false),
                    RequestBody::Empty,
                ),
            ),
    {
        request_to(endpoint.base(), PATH_USER_TOKEN, self.build_headers(false), RequestBody::Empty)
    }

    /// The profile request of the cookie profile. It goes to the profile
    /// endpoint, whatever the session's region.
    pub fn get_user_info_request(&self) -> (r: Result<ApiRequest, ClientError>)
        ensures
            same_request(
                r,
                request_of(
                    API_BASE_UG@,
                    PATH_USER_INFO@,
                    self@.cookie_headers(false),
                    RequestBody::IfWebPage,
                ),
            ),
    {
        request_to(API_BASE_UG, PATH_USER_INFO, self.build_headers(false), RequestBody::IfWebPage)
    }

    /// The profile request of the token profile. It goes to the profile
    /// endpoint, whatever the session's region.
    pub fn get_user_info_with_token_request(&self) -> (r: Result<ApiRequest, ClientError>)
        ensures
            same_request(
                r,
                request_of(
                    API_BASE_UG@,
                    PATH_USER_INFO@,
                    self@.token_headers(),
                    RequestBody::IfWebPage,
                ),
            ),
    {
        request_to(
            API_BASE_UG,
            PATH_USER_INFO,
            self.build_headers_token_only(),
            RequestBody::IfWebPage,
        )
    }

    /// The request for the entitlement listing, cookie profile with the token.
    pub fn get_entitlement_list_request(&self, endpoint: RegionEndpoint) -> (r: Result<
        ApiRequest,
        ClientError,
    >)
        ensures
            same_request(
                r,
                request_of(
                    endpoint.base_spec(),
                    PATH_ENTITLEMENT_LIST@,
                    self@.cookie_headers(true),
                    RequestBody::RequireUsage,
                ),
            ),
    {
        request_to(
            endpoint.base(),
            PATH_ENTITLEMENT_LIST,
            self.build_headers(true),
            RequestBody::RequireUsage,
        )
    }

    /// The request for the entitlement listing, token profile.
    pub fn get_entitlement_list_by_token_request(&self, endpoint: RegionEndpoint) -> (r: Result<
        ApiRequest,
        ClientError,
    >)
        ensures
            same_request(
                r,
                request_of(
                    endpoint.base_spec(),
                    PATH_ENTITLEMENT_LIST@,
                    self@.token_headers(),
                    RequestBody::RequireUsage,
                ),
            ),
    {
        request_to(
            endpoint.base(),
            PATH_ENTITLEMENT_LIST,
            self.build_headers_token_only(),
            RequestBody::RequireUsage,
        )
    }

    /// The request for a page of the usage history, cookie profile with the token.
    pub fn query_usage_request(&self, endpoint: RegionEndpoint, query: UsageQuery) -> (r: Result<
        ApiRequest,
        ClientError,
    >)
        ensures
            same_request(
                r,
                request_of(
                    endpoint.base_spec(),
                    PATH_QUERY_USAGE@,
                    self@.cookie_headers(true),
                    RequestBody::UsageQuery(query),
                ),
            ),
    {
        request_to(
            endpoint.base(),
            PATH_QUERY_USAGE,
            self.build_headers(true),
            RequestBody::UsageQuery(query),
        )
    }

    /// Takes the reply to the token-issuance request. A token that was
    /// issued becomes the session's token; a failed attempt, whether it is
    /// retried or ends the call, leaves the session as it was.
    pub fn get_user_token(
        &mut self,
        machine: &mut Failover,
        reply: Reply<GetUserTokenResponse>,
    ) -> (verdict: Verdict<UserTokenResult, ClientError>)
        ensures
            final(machine)@ == state_after(old(machine)@, reply),
            final(self)@ == old(self)@.after_token_reply(old(machine)@, reply),
            match verdict_of(Policy::Swap, old(machine)@, reply) {
                Verdict::Retry(endpoint) => verdict == Verdict::<
                    UserTokenResult,
                    ClientError,
                >::Retry(endpoint),
                Verdict::Finished(Ok(issued)) => verdict == Verdict::<
                    UserTokenResult,
                    ClientError,
                >::Finished(Ok(issued.result)),
                Verdict::Finished(Err(error)) => verdict matches Verdict::Finished(Err(e)) && e@
                    == error,
            },
    {
        match settle_reply(Policy::Swap, machine, reply) {
            Verdict::Retry(endpoint) => Verdict::Retry(endpoint),
            Verdict::Finished(Ok(issued)) => {
                self.jwt_token = Some(issued.result.token.clone());
                Verdict::Finished(Ok(issued.result))
            },
            Verdict::Finished(Err(error)) => Verdict::Finished(Err(error)),
        }
    }

    /// Takes the reply to a profile request. The profile endpoint stands
    /// alone: its failure ends the call.
    pub fn get_user_info(reply: Reply<GetUserInfoResponse>) -> (r: Result<
        UserInfoResult,
        ClientError,
    >)
        ensures
            match outcome_of(reply) {
                Ok(found) => r == Ok::<UserInfoResult, ClientError>(found.result),
                Err(error) => r matches Err(e) && e@ == ClientErrorView::Attempt(error),
            },
    {
        match reply.outcome() {
            Ok(found) => Ok(found.result),
            Err(error) => Err(ClientError::Attempt(error)),
        }
    }

    /// Takes the reply to the profile request of the token profile; a
    /// failure counts as no profile.
    pub fn get_user_info_with_token(reply: Reply<GetUserInfoResponse>) -> (r: Option<
        UserInfoResult,
    >)
        ensures
            match outcome_of(reply) {
                Ok(found) => r == Some(found.result),
                Err(_) => r is None,
            },
    {
        match reply.outcome() {
            Ok(found) => Some(found.result),
            Err(_) => None,
        }
    }

    /// Takes the reply to a request for the entitlement listing under a
    /// two-way swap.
    pub fn get_entitlement_list(machine: &mut Failover, reply: Reply<EntitlementListResponse>) -> (verdict:
        Verdict<EntitlementListResponse, ClientError>)
        ensures
            final(machine)@ == state_after(old(machine)@, reply),
            same_verdict(verdict, verdict_of(Policy::Swap, old(machine)@, reply)),
    {
        settle_reply(Policy::Swap, machine, reply)
    }

    /// Takes the reply to a request for the usage history under a two-way
    /// swap. The page is handed on as it came.
    pub fn query_usage<T>(machine: &mut Failover, reply: Reply<T>) -> (verdict: Verdict<
        T,
        ClientError,
    >)
        ensures
            final(machine)@ == state_after(old(machine)@, reply),
            same_verdict(verdict, verdict_of(Policy::Swap, old(machine)@, reply)),
    {
        settle_reply(Policy::Swap, machine, reply)
    }

    /// Takes the reply to a request for the entitlement listing under a
    /// two-way swap and folds the listing into its summary.
    pub fn get_usage_summary(machine: &mut Failover, reply: Reply<EntitlementListResponse>) -> (verdict:
        Verdict<UsageSummary, ClientError>)
        ensures
            final(machine)@ == state_after(old(machine)@, reply),
            same_summary_verdict(verdict, verdict_of(Policy::Swap, old(machine)@, reply)),
    {
        match settle_reply(Policy::Swap, machine, reply) {
            Verdict::Retry(endpoint) => Verdict::Retry(endpoint),
            Verdict::Finished(Ok(listing)) => Verdict::Finished(
                Ok(parse_entitlements_to_summary(&listing)),
            ),
            Verdict::Finished(Err(error)) => Verdict::Finished(Err(error)),
        }
    }

    /// Takes the reply to a request for the entitlement listing under an
    /// ordered sweep and folds the listing into its summary.
    pub fn get_usage_summary_by_token(
        machine: &mut Failover,
        reply: Reply<EntitlementListResponse>,
    ) -> (verdict: Verdict<UsageSummary, ClientError>)
        ensures
            final(machine)@ == state_after(old(machine)@, reply),
            same_summary_verdict(verdict, verdict_of(Policy::Sweep, old(machine)@, reply)),
    {
        match settle_reply(Policy::Sweep, machine, reply) {
            Verdict::Retry(endpoint) => Verdict::Retry(endpoint),
            Verdict::Finished(Ok(listing)) => Verdict::Finished(
                Ok(parse_entitlements_to_summary(&listing)),
            ),
            Verdict::Finished(Err(error)) => Verdict::Finished(Err(error)),
        }
    }

    /// Takes the reply to a request for the entitlement listing under an
    /// ordered sweep; the listing that ends the sweep gives the user id
    /// of the profile.
    pub fn get_user_info_by_token(machine: &mut Failover, reply: Reply<EntitlementListResponse>) -> (verdict:
        Verdict<EntitlementListResponse, ClientError>)
        ensures
            final(machine)@ == state_after(old(machine)@, reply),
            same_verdict(verdict, verdict_of(Policy::Sweep, old(machine)@, reply)),
    {
        settle_reply(Policy::Sweep, machine, reply)
    }
}

/// When the attempt at the session's endpoint fails and the attempt at
/// the other endpoint succeeds, a call under a two-way swap is told to try
/// the other endpoint and then ends with what that endpoint gave. No
/// error surfaces.
pub proof fn lemma_swap_returns_alternate<T>(current: RegionEndpoint, failed: Reply<T>, good: Reply<T>)
    requires
        outcome_of(failed) is Err,
        outcome_of(good) is Ok,
    ensures
        verdict_of(Policy::Swap, fresh(swap_candidates(current)), failed) == Verdict::<
            T,
            ClientErrorView,
        >::Retry(current.other_spec()),
        state_after(fresh(swap_candidates(current)), failed).target() == Some(
            current.other_spec(),
        ),
        verdict_of(Policy::Swap, state_after(fresh(swap_candidates(current)), failed), good)
            == Verdict::<T, ClientErrorView>::Finished(Ok(outcome_of(good)->Ok_0)),
{
}

/// A failed attempt at issuing a token leaves the session as it was, and
/// the session after a failure and a success is the session after the
/// success alone.
pub proof fn lemma_failed_attempt_leaves_no_trace(
    client: ClientView,
    failed: Reply<GetUserTokenResponse>,
    good: Reply<GetUserTokenResponse>,
)
    requires
        outcome_of(failed) is Err,
        outcome_of(good) is Ok,
    ensures
        forall|state: FailoverView| #[trigger] client.after_token_reply(state, failed) == client,
        client.after_token_reply(fresh(swap_candidates(client.api_base)), failed).after_token_reply(
            state_after(fresh(swap_candidates(client.api_base)), failed),
            good,
        ) == client.with_token((outcome_of(good)->Ok_0).result.token@),
{
}

/// When both candidates of an ordered sweep fail, the call ends with the
/// error of the second attempt, which was the last; the error of the
/// first attempt shows nowhere.
pub proof fn lemma_sweep_surfaces_last_error<T>(
    current: RegionEndpoint,
    first: Reply<T>,
    last: Reply<T>,
)
    requires
        outcome_of(first) is Err,
        outcome_of(last) is Err,
    ensures
        verdict_of(Policy::Sweep, fresh(sweep_candidates(current)), first) == Verdict::<
            T,
            ClientErrorView,
        >::Retry(current.other_spec()),
        verdict_of(Policy::Sweep, state_after(fresh(sweep_candidates(current)), first), last)
            == Verdict::<T, ClientErrorView>::Finished(
            Err(ClientErrorView::RegionExhausted(outcome_of(last)->Err_0)),
        ),
        state_after(state_after(fresh(sweep_candidates(current)), first), last).target() is None,
{
    lemma_sweep_candidates(current);
}

} // verus!
