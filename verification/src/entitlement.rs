//! The records that the entitlement listing is made of.
//!
//! Consumed amounts may be fractions. The library copies them and never
//! computes with them, so it keeps an amount as the sixty-four bits of
//! its IEEE 754 form and leaves the arithmetic to its caller.

use vstd::prelude::*;

verus! {

/// The product type that marks a pack as an add-on package.
pub const PRODUCT_TYPE_EXTRA: i32 = 2;

/// The product id of the free plan.
pub const PRODUCT_ID_FREE: i32 = 0;

/// The package source that marks the anniversary gift.
pub const PACKAGE_SOURCE_ANNIVERSARY: i32 = 6;

/// An amount that may be a fraction, as the bits of its IEEE 754
/// double-precision form.
#[derive(Clone, Copy, PartialEq, Eq, Debug, Structural)]
pub struct Amount {
    pub bits: u64,
}

/// The amount zero: all bits clear.
pub open spec fn zero_amount() -> Amount {
    Amount { bits: 0 }
}

impl Amount {
    /// The amount zero.
    pub fn zero() -> (amount: Amount)
        ensures
            amount == zero_amount(),
    {
        Amount { bits: 0 }
    }
}

/// What was consumed of a grant.
#[derive(Debug, Clone)]
pub struct UsageInfo {
    pub advanced_model_amount: Amount,
    pub advanced_model_request_usage: Amount,
    pub auto_completion_amount: Amount,
    pub auto_completion_usage: Amount,
    pub is_flash_consuming: bool,
    pub premium_model_fast_amount: Amount,
    pub premium_model_fast_request_usage: Amount,
    pub premium_model_slow_amount: Amount,
    pub premium_model_slow_request_usage: Amount,
}

/// Ceilings of one quota grant.
#[derive(Debug, Clone)]
pub struct Quota {
    pub advanced_model_request_limit: i64,
    pub auto_completion_limit: i64,
    pub enable_solo_builder: bool,
    pub enable_solo_builder_v1: bool,
    pub enable_solo_coder: bool,
    pub enable_super_model: bool,
    pub premium_model_fast_request_limit: i64,
    pub premium_model_slow_request_limit: i64,
}

/// What a package adds to a product.
#[derive(Debug, Clone)]
pub struct PackageExtra {
    pub duration: i32,
    pub package_duration_type: i32,
    pub package_source_type: i32,
    pub quota: Quota,
}

/// What a subscription adds to a product.
#[derive(Debug, Clone)]
pub struct SubscriptionExtra {
    pub period_type: i32,
    pub quota: Quota,
}

/// The optional parts of a product; either may be absent.
#[derive(Debug, Clone)]
pub struct ProductExtra {
    pub package_extra: Option<PackageExtra>,
    pub subscription_extra: Option<SubscriptionExtra>,
}

/// The grant that a pack stands for.
#[derive(Debug, Clone)]
pub struct EntitlementBaseInfo {
    pub charge_amount: i64,
    pub currency: i32,
    pub end_time: i64,
    pub entitlement_id: String,
    pub product_extra: ProductExtra,
    pub product_id: i32,
    pub product_type: i32,
    pub quota: Quota,
    pub start_time: i64,
    pub user_id: String,
}

/// One record of the entitlement listing.
#[derive(Debug, Clone)]
pub struct EntitlementPack {
    pub entitlement_base_info: EntitlementBaseInfo,
    pub expire_time: i64,
    pub is_last_period: bool,
    pub next_billing_time: i64,
    pub source_id: String,
    pub status: i32,
    pub usage: UsageInfo,
    pub yearly_expire_time: i64,
}

/// The entitlement listing, in the order in which it was received.
#[derive(Debug, Clone)]
pub struct EntitlementListResponse {
    pub is_pay_freshman: bool,
    pub user_entitlement_pack_list: Vec<EntitlementPack>,
}

impl EntitlementPack {
    /// The pack is an add-on package, not a plan.
    pub open spec fn is_extra_spec(self) -> bool {
        self.entitlement_base_info.product_type == PRODUCT_TYPE_EXTRA
    }

    /// The pack is an add-on package that came as the anniversary gift.
    pub open spec fn is_anniversary_spec(self) -> bool {
        &&& self.is_extra_spec()
        &&& self.entitlement_base_info.product_extra.package_extra matches Some(extra)
        &&& extra.package_source_type == PACKAGE_SOURCE_ANNIVERSARY
    }

    /// Whether the pack is an add-on package.
    pub fn is_extra(&self) -> (r: bool)
        ensures
            r == self.is_extra_spec(),
    {
        self.entitlement_base_info.product_type == PRODUCT_TYPE_EXTRA
    }

    /// Whether the pack is an add-on package that came as the anniversary gift.
    pub fn is_anniversary(&self) -> (r: bool)
        ensures
            r == self.is_anniversary_spec(),
    {
        if self.entitlement_base_info.product_type != PRODUCT_TYPE_EXTRA {
            return false;
        }
        match &self.entitlement_base_info.product_extra.package_extra {
            Some(extra) => extra.package_source_type == PACKAGE_SOURCE_ANNIVERSARY,
            None => false,
        }
    }
}

} // verus!
