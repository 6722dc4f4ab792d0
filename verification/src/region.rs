//! The regional endpoints and the rule that picks one from a cookie string.

use vstd::prelude::*;
use vstd::string::*;
use crate::text::{chars_of, contains, lemma_occurs_between, occurs_in};

verus! {

/// Base of the US East endpoint.
pub const API_BASE_US: &'static str = "https://api-us-east.trae.ai";

/// Base of the Singapore endpoint.
pub const API_BASE_SG: &'static str = "https://api-sg-central.trae.ai";

/// Base of the endpoint that serves profile lookups only.
pub const API_BASE_UG: &'static str = "https://ug-normal.trae.ai";

/// One of the two endpoints that carry general traffic.
#[derive(Clone, Copy, PartialEq, Eq, Debug, Structural)]
pub enum RegionEndpoint {
    Us,
    Sg,
}

impl RegionEndpoint {
    /// The member of the pair that `self` is not.
    pub open spec fn other_spec(self) -> RegionEndpoint {
        match self {
            RegionEndpoint::Us => RegionEndpoint::Sg,
            RegionEndpoint::Sg => RegionEndpoint::Us,
        }
    }

    /// The base URL of the endpoint.
    pub open spec fn base_spec(self) -> Seq<char> {
        match self {
            RegionEndpoint::Us => API_BASE_US@,
            RegionEndpoint::Sg => API_BASE_SG@,
        }
    }

    /// The member of the pair that `self` is not.
    pub fn other(self) -> (r: RegionEndpoint)
        ensures
            r == self.other_spec(),
    {
        match self {
            RegionEndpoint::Us => RegionEndpoint::Sg,
            RegionEndpoint::Sg => RegionEndpoint::Us,
        }
    }

    /// The base URL of the endpoint.
    pub fn base(self) -> (r: &'static str)
        ensures
            r@ == self.base_spec(),
    {
        match self {
            RegionEndpoint::Us => API_BASE_US,
            RegionEndpoint::Sg => API_BASE_SG,
        }
    }
}

/// A cookie names the US East data centre.
pub open spec fn names_us(cookie: Seq<char>) -> bool {
    occurs_in(cookie, "store-idc=useast"@) || occurs_in(
        cookie,
        "trae-target-idc=useast"@,
    )
}

/// A cookie names the Singapore data centre.
pub open spec fn names_sg(cookie: Seq<char>) -> bool {
    occurs_in(cookie, "store-idc=alisg"@) || occurs_in(
        cookie,
        "trae-target-idc=alisg"@,
    )
}

/// The endpoint that a cookie string selects: the US markers are looked
/// for first, the Singapore markers next, and Singapore is the default.
pub open spec fn region_of(cookie: Seq<char>) -> RegionEndpoint {
    if names_us(cookie) {
        RegionEndpoint::Us
    } else if names_sg(cookie) {
        RegionEndpoint::Sg
    } else {
        RegionEndpoint::Sg
    }
}

/// Picks the endpoint for a cookie string. Never fails.
pub fn detect_api_base_from_cookies(cookies: &str) -> (region: RegionEndpoint)
    ensures
        region == region_of(cookies@),
{
    let text = chars_of(cookies);
    if contains(&text, &chars_of("store-idc=useast")) || contains(
        &text,
        &chars_of("trae-target-idc=useast"),
    ) {
        RegionEndpoint::Us
    } else if contains(&text, &chars_of("store-idc=alisg")) || contains(
        &text,
        &chars_of("trae-target-idc=alisg"),
    ) {
        RegionEndpoint::Sg
    } else {
        RegionEndpoint::Sg
    }
}

/// A cookie that holds `trae-target-idc=useast` selects the US endpoint,
/// whatever else it holds.
pub proof fn lemma_target_useast_selects_us(cookie: Seq<char>)
    requires
        occurs_in(cookie, "trae-target-idc=useast"@),
    ensures
        region_of(cookie) == RegionEndpoint::Us,
{
}

/// A cookie with `trae-target-idc=useast` in it selects the US endpoint,
/// whatever stands before the marker and after it.
pub proof fn lemma_target_useast_anywhere_selects_us(before: Seq<char>, after: Seq<char>)
    ensures
        region_of(before + "trae-target-idc=useast"@ + after) == RegionEndpoint::Us,
{
    lemma_occurs_between(before, "trae-target-idc=useast"@, after);
}

/// A cookie that holds `store-idc=useast` selects the US endpoint.
pub proof fn lemma_store_useast_selects_us(cookie: Seq<char>)
    requires
        occurs_in(cookie, "store-idc=useast"@),
    ensures
        region_of(cookie) == RegionEndpoint::Us,
{
}

/// A cookie that holds a Singapore marker and no US marker selects Singapore.
pub proof fn lemma_alisg_selects_sg(cookie: Seq<char>)
    requires
        names_sg(cookie),
        !names_us(cookie),
    ensures
        region_of(cookie) == RegionEndpoint::Sg,
{
}

/// A cookie without a US marker selects Singapore, with a Singapore
/// marker or without one.
pub proof fn lemma_without_useast_selects_sg(cookie: Seq<char>)
    requires
        !names_us(cookie),
    ensures
        region_of(cookie) == RegionEndpoint::Sg,
{
}

} // verus!
