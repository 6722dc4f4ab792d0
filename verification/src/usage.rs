//! Folding an entitlement listing into one normalised usage summary.
//!
//! Plans overwrite one another: the last plan in the listing decides the
//! plan bucket, the last add-on package decides the extra bucket, and a
//! bucket that no pack decides keeps the free-tier baseline. Nothing is
//! summed. What is left of a quota is its limit less the amount used;
//! the caller computes it, for amounts may be fractions.

use vstd::prelude::*;
use crate::entitlement::{
    zero_amount, Amount, EntitlementListResponse, EntitlementPack, PRODUCT_ID_FREE,
};

verus! {

/// Plan label of the free tier.
pub const PLAN_FREE: &'static str = "Free";

/// Plan label of every paid product.
pub const PLAN_PRO: &'static str = "Pro";

/// Name under which the anniversary gift is shown.
pub const ANNIVERSARY_PACKAGE_NAME: &'static str = "2026 Anniversary Treat";

/// Fast requests of the free-tier baseline.
pub const BASELINE_FAST_REQUEST_LIMIT: i64 = 10;

/// Slow requests of the free-tier baseline.
pub const BASELINE_SLOW_REQUEST_LIMIT: i64 = 50;

/// Advanced-model requests of the free-tier baseline.
pub const BASELINE_ADVANCED_MODEL_LIMIT: i64 = 1000;

/// Autocompletions of the free-tier baseline.
pub const BASELINE_AUTOCOMPLETE_LIMIT: i64 = 5000;

/// The normalised summary of an account's quotas: for each category
/// what was used and the limit, and the same for the add-on package.
#[derive(Debug, Clone)]
pub struct UsageSummary {
    pub plan_type: String,
    pub reset_time: i64,
    pub fast_request_used: Amount,
    pub fast_request_limit: i64,
    pub extra_fast_request_used: Amount,
    pub extra_fast_request_limit: i64,
    pub extra_expire_time: i64,
    pub extra_package_name: String,
    pub slow_request_used: Amount,
    pub slow_request_limit: i64,
    pub advanced_model_used: Amount,
    pub advanced_model_limit: i64,
    pub autocomplete_used: Amount,
    pub autocomplete_limit: i64,
}

/// Token counts of one event of the usage history.
#[derive(Debug, Clone)]
pub struct UsageExtraInfo {
    pub cache_read_token: i64,
    pub cache_write_token: i64,
    pub input_token: i64,
    pub output_token: i64,
}

/// The plan bucket of a summary, as mathematics.
pub struct PlanBucket {
    pub plan_type: Seq<char>,
    pub reset_time: i64,
    pub fast_request_used: Amount,
    pub fast_request_limit: i64,
    pub slow_request_used: Amount,
    pub slow_request_limit: i64,
    pub advanced_model_used: Amount,
    pub advanced_model_limit: i64,
    pub autocomplete_used: Amount,
    pub autocomplete_limit: i64,
}

/// The extra bucket of a summary, as mathematics.
pub struct ExtraBucket {
    pub fast_request_used: Amount,
    pub fast_request_limit: i64,
    pub expire_time: i64,
    pub package_name: Seq<char>,
}

/// A summary as mathematics: its two buckets.
pub struct UsageSummaryView {
    pub plan: PlanBucket,
    pub extra: ExtraBucket,
}

impl View for UsageSummary {
    type V = UsageSummaryView;

    open spec fn view(&self) -> UsageSummaryView {
        UsageSummaryView {
            plan: PlanBucket {
                plan_type: self.plan_type@,
                reset_time: self.reset_time,
                fast_request_used: self.fast_request_used,
                fast_request_limit: self.fast_request_limit,
                slow_request_used: self.slow_request_used,
                slow_request_limit: self.slow_request_limit,
                advanced_model_used: self.advanced_model_used,
                advanced_model_limit: self.advanced_model_limit,
                autocomplete_used: self.autocomplete_used,
                autocomplete_limit: self.autocomplete_limit,
            },
            extra: ExtraBucket {
                fast_request_used: self.extra_fast_request_used,
                fast_request_limit: self.extra_fast_request_limit,
                expire_time: self.extra_expire_time,
                package_name: self.extra_package_name@,
            },
        }
    }
}

/// The plan bucket of an account for which no plan is listed: the limits
/// of the free tier, and nothing used.
pub open spec fn baseline_plan() -> PlanBucket {
    PlanBucket {
        plan_type: PLAN_FREE@,
        reset_time: 0,
        fast_request_used: zero_amount(),
        fast_request_limit: BASELINE_FAST_REQUEST_LIMIT,
        slow_request_used: zero_amount(),
        slow_request_limit: BASELINE_SLOW_REQUEST_LIMIT,
        advanced_model_used: zero_amount(),
        advanced_model_limit: BASELINE_ADVANCED_MODEL_LIMIT,
        autocomplete_used: zero_amount(),
        autocomplete_limit: BASELINE_AUTOCOMPLETE_LIMIT,
    }
}

/// The extra bucket of an account for which no add-on package is listed.
pub open spec fn baseline_extra() -> ExtraBucket {
    ExtraBucket {
        fast_request_used: zero_amount(),
        fast_request_limit: 0,
        expire_time: 0,
        package_name: Seq::empty(),
    }
}

/// The summary of an account for which nothing is listed.
pub open spec fn baseline() -> UsageSummaryView {
    UsageSummaryView { plan: baseline_plan(), extra: baseline_extra() }
}

/// The label of a plan: the free product has its own, all others share one.
pub open spec fn plan_label(product_id: i32) -> Seq<char> {
    if product_id == PRODUCT_ID_FREE {
        PLAN_FREE@
    } else {
        PLAN_PRO@
    }
}

/// The plan bucket that a plan gives, alone: label and reset time of
/// the plan, and for each category the amount used and the limit, as the
/// pack has them.
pub open spec fn plan_from(pack: EntitlementPack) -> PlanBucket {
    let base = pack.entitlement_base_info;
    PlanBucket {
        plan_type: plan_label(base.product_id),
        reset_time: base.end_time,
        fast_request_used: pack.usage.premium_model_fast_amount,
        fast_request_limit: base.quota.premium_model_fast_request_limit,
        slow_request_used: pack.usage.premium_model_slow_amount,
        slow_request_limit: base.quota.premium_model_slow_request_limit,
        advanced_model_used: pack.usage.advanced_model_amount,
        advanced_model_limit: base.quota.advanced_model_request_limit,
        autocomplete_used: pack.usage.auto_completion_amount,
        autocomplete_limit: base.quota.auto_completion_limit,
    }
}

/// Position of the last plan in a listing, where it has one.
pub open spec fn last_plan(packs: Seq<EntitlementPack>) -> Option<int>
    decreases packs.len(),
{
    if packs.len() == 0 {
        None
    } else if !packs.last().is_extra_spec() {
        Some(packs.len() - 1)
    } else {
        last_plan(packs.drop_last())
    }
}

/// Position of the last add-on package in a listing, where it has one.
pub open spec fn last_extra(packs: Seq<EntitlementPack>) -> Option<int>
    decreases packs.len(),
{
    if packs.len() == 0 {
        None
    } else if packs.last().is_extra_spec() {
        Some(packs.len() - 1)
    } else {
        last_extra(packs.drop_last())
    }
}

/// Some add-on package of the listing came as the anniversary gift.
pub open spec fn has_anniversary(packs: Seq<EntitlementPack>) -> bool {
    exists|i: int| 0 <= i < packs.len() && #[trigger] packs[i].is_anniversary_spec()
}

/// The plan bucket of a listing: that of its last plan, else the baseline.
pub open spec fn plan_of(packs: Seq<EntitlementPack>) -> PlanBucket {
    match last_plan(packs) {
        Some(at) => plan_from(packs[at]),
        None => baseline_plan(),
    }
}

/// The extra bucket of a listing: amount used, limit and expiry of its
/// last add-on package, and the gift's name if any add-on package came as
/// the gift.
pub open spec fn extra_of(packs: Seq<EntitlementPack>) -> ExtraBucket {
    let package_name = if has_anniversary(packs) {
        ANNIVERSARY_PACKAGE_NAME@
    } else {
        Seq::empty()
    };
    match last_extra(packs) {
        Some(at) => ExtraBucket {
            fast_request_used: packs[at].usage.premium_model_fast_amount,
            fast_request_limit:
                packs[at].entitlement_base_info.quota.premium_model_fast_request_limit,
            expire_time: packs[at].entitlement_base_info.end_time,
            package_name,
        },
        None => ExtraBucket { package_name, ..baseline_extra() },
    }
}

/// The summary of a listing.
pub open spec fn summary_of(packs: Seq<EntitlementPack>) -> UsageSummaryView {
    UsageSummaryView { plan: plan_of(packs), extra: extra_of(packs) }
}

impl Default for UsageSummary {
    /// The free-tier baseline: 10 fast, 50 slow, 1000 advanced-model
    /// requests and 5000 autocompletions, nothing consumed, no add-on.
    fn default() -> (summary: UsageSummary)
        ensures
            summary@ == baseline(),
    {
        UsageSummary {
            plan_type: PLAN_FREE.to_owned(),
            reset_time: 0,
            fast_request_used: Amount::zero(),
            fast_request_limit: BASELINE_FAST_REQUEST_LIMIT,
            extra_fast_request_used: Amount::zero(),
            extra_fast_request_limit: 0,
            extra_expire_time: 0,
            extra_package_name: String::new(),
            slow_request_used: Amount::zero(),
            slow_request_limit: BASELINE_SLOW_REQUEST_LIMIT,
            advanced_model_used: Amount::zero(),
            advanced_model_limit: BASELINE_ADVANCED_MODEL_LIMIT,
            autocomplete_used: Amount::zero(),
            autocomplete_limit: BASELINE_AUTOCOMPLETE_LIMIT,
        }
    }
}

impl UsageSummary {
    /// A copy of the summary.
    pub fn duplicate(&self) -> (copy: UsageSummary)
        ensures
            copy@ == self@,
    {
        UsageSummary {
            plan_type: self.plan_type.clone(),
            reset_time: self.reset_time,
            fast_request_used: self.fast_request_used,
            fast_request_limit: self.fast_request_limit,
            extra_fast_request_used: self.extra_fast_request_used,
            extra_fast_request_limit: self.extra_fast_request_limit,
            extra_expire_time: self.extra_expire_time,
            extra_package_name: self.extra_package_name.clone(),
            slow_request_used: self.slow_request_used,
            slow_request_limit: self.slow_request_limit,
            advanced_model_used: self.advanced_model_used,
            advanced_model_limit: self.advanced_model_limit,
            autocomplete_used: self.autocomplete_used,
            autocomplete_limit: self.autocomplete_limit,
        }
    }
}

/// Folds a listing into its summary.
pub fn parse_entitlements_to_summary(entitlements: &EntitlementListResponse) -> (summary:
    UsageSummary)
    ensures
        summary@ == summary_of(entitlements.user_entitlement_pack_list@),
{
    let packs = &entitlements.user_entitlement_pack_list;
    let mut summary = UsageSummary::default();
    let mut at: usize = 0;
    while at < packs.len()
        invariant
            at <= packs@.len(),
            summary@ == summary_of(packs@.take(at as int)),
        decreases packs@.len() - at,
    {
        let pack = &packs[at];
        let base = &pack.entitlement_base_info;
        let usage = &pack.usage;
        proof {
            let before = packs@.take(at as int);
            let after = packs@.take(at + 1);
            assert(after.drop_last() =~= before);
            assert(after.last() == packs@[at as int]);
            assert(has_anniversary(after) == (has_anniversary(before)
                || packs@[at as int].is_anniversary_spec())) by {
                if has_anniversary(before) {
                    let i = choose|i: int|
                        0 <= i < before.len() && #[trigger] before[i].is_anniversary_spec();
                    assert(after[i].is_anniversary_spec());
                }
                if packs@[at as int].is_anniversary_spec() {
                    assert(after[at as int].is_anniversary_spec());
                }
                if has_anniversary(after) {
                    let i = choose|i: int|
                        0 <= i < after.len() && #[trigger] after[i].is_anniversary_spec();
                    if i < at {
                        assert(before[i].is_anniversary_spec());
                    }
                }
            }
            lemma_last_stays(before, after);
        }
        if pack.is_extra() {
            summary.extra_fast_request_used = usage.premium_model_fast_amount;
            summary.extra_fast_request_limit = base.quota.premium_model_fast_request_limit;
            summary.extra_expire_time = base.end_time;
            if pack.is_anniversary() {
                summary.extra_package_name = ANNIVERSARY_PACKAGE_NAME.to_owned();
            }
        } else {
            summary.plan_type = if base.product_id == PRODUCT_ID_FREE {
                PLAN_FREE.to_owned()
            } else {
                PLAN_PRO.to_owned()
            };
            summary.reset_time = base.end_time;
            summary.fast_request_used = usage.premium_model_fast_amount;
            summary.fast_request_limit = base.quota.premium_model_fast_request_limit;
            summary.slow_request_used = usage.premium_model_slow_amount;
            summary.slow_request_limit = base.quota.premium_model_slow_request_limit;
            summary.advanced_model_used = usage.advanced_model_amount;
            summary.advanced_model_limit = base.quota.advanced_model_request_limit;
            summary.autocomplete_used = usage.auto_completion_amount;
            summary.autocomplete_limit = base.quota.auto_completion_limit;
        }
        at = at + 1;
    }
    proof {
        assert(packs@.take(packs@.len() as int) =~= packs@);
    }
    summary
}

/// Of two plans listed one after the other, the second alone decides the
/// plan bucket, amounts used and limits alike: nothing of the first is
/// kept and nothing is summed.
pub proof fn lemma_second_plan_overwrites(first: EntitlementPack, second: EntitlementPack)
    requires
        !first.is_extra_spec(),
        !second.is_extra_spec(),
    ensures
        summary_of(seq![first, second]).plan == plan_from(second),
{
    let packs = seq![first, second];
    assert(packs.last() == second);
}

/// The plan bucket of a listing is that of its last plan, whatever
/// stands before it and whatever add-on packages follow it.
pub proof fn lemma_last_plan_decides(packs: Seq<EntitlementPack>, at: int)
    requires
        0 <= at < packs.len(),
        !packs[at].is_extra_spec(),
        forall|i: int| at < i < packs.len() ==> (#[trigger] packs[i]).is_extra_spec(),
    ensures
        summary_of(packs).plan == plan_from(packs[at]),
{
    lemma_last_plan_in_range(packs);
}

/// The extra bucket of a listing takes the amount used, the limit and the
/// expiry from its last add-on package, whatever stands before it and
/// whatever plans follow it.
pub proof fn lemma_last_extra_decides(packs: Seq<EntitlementPack>, at: int)
    requires
        0 <= at < packs.len(),
        packs[at].is_extra_spec(),
        forall|i: int| at < i < packs.len() ==> !(#[trigger] packs[i]).is_extra_spec(),
    ensures
        summary_of(packs).extra.fast_request_used == packs[at].usage.premium_model_fast_amount,
        summary_of(packs).extra.fast_request_limit
            == packs[at].entitlement_base_info.quota.premium_model_fast_request_limit,
        summary_of(packs).extra.expire_time == packs[at].entitlement_base_info.end_time,
{
    lemma_last_extra_in_range(packs);
}

/// A listing without a plan keeps the baseline plan bucket, and one
/// without an add-on package the baseline extra bucket; the empty listing
/// gives the baseline.
pub proof fn lemma_baseline_kept(packs: Seq<EntitlementPack>)
    ensures
        (forall|i: int| 0 <= i < packs.len() ==> (#[trigger] packs[i]).is_extra_spec())
            ==> summary_of(packs).plan == baseline_plan(),
        (forall|i: int| 0 <= i < packs.len() ==> !(#[trigger] packs[i]).is_extra_spec())
            ==> summary_of(packs).extra == baseline_extra(),
        summary_of(Seq::<EntitlementPack>::empty()) == baseline(),
{
    lemma_last_plan_in_range(packs);
    lemma_last_extra_in_range(packs);
    if forall|i: int| 0 <= i < packs.len() ==> !(#[trigger] packs[i]).is_extra_spec() {
        assert(!has_anniversary(packs));
    }
    assert(!has_anniversary(Seq::<EntitlementPack>::empty()));
}

/// A listing that grows by one pack keeps the last plan and the last
/// add-on package of the shorter listing, but for the kind of the new pack,
/// and the packs at those positions are the same in both.
proof fn lemma_last_stays(before: Seq<EntitlementPack>, after: Seq<EntitlementPack>)
    requires
        after.len() == before.len() + 1,
        after.drop_last() == before,
    ensures
        after.last().is_extra_spec() ==> last_plan(after) == last_plan(before),
        !after.last().is_extra_spec() ==> last_extra(after) == last_extra(before),
        last_plan(before) matches Some(at) ==> 0 <= at < before.len() && after[at] == before[at],
        last_extra(before) matches Some(at) ==> 0 <= at < before.len() && after[at] == before[at],
{
    lemma_last_plan_in_range(before);
    lemma_last_extra_in_range(before);
}

/// The last plan of a listing is a plan of it, and no plan follows it.
pub proof fn lemma_last_plan_in_range(packs: Seq<EntitlementPack>)
    ensures
        last_plan(packs) matches Some(at) ==> 0 <= at < packs.len() && !packs[at].is_extra_spec(),
        forall|i: int|
            0 <= i < packs.len() && !(#[trigger] packs[i]).is_extra_spec() ==> (last_plan(packs)
                matches Some(at) && i <= at),
    decreases packs.len(),
{
    if packs.len() > 0 {
        lemma_last_plan_in_range(packs.drop_last());
        assert forall|i: int|
            0 <= i < packs.len() && !(#[trigger] packs[i]).is_extra_spec() implies (last_plan(packs)
                matches Some(at) && i <= at) by {
            if packs.last().is_extra_spec() {
                assert(packs.drop_last()[i] == packs[i]);
            }
        }
    }
}

/// The last add-on package of a listing is one of its add-on packages, and
/// no add-on package follows it.
pub proof fn lemma_last_extra_in_range(packs: Seq<EntitlementPack>)
    ensures
        last_extra(packs) matches Some(at) ==> 0 <= at < packs.len() && packs[at].is_extra_spec(),
        forall|i: int|
            0 <= i < packs.len() && (#[trigger] packs[i]).is_extra_spec() ==> (last_extra(packs)
                matches Some(at) && i <= at),
    decreases packs.len(),
{
    if packs.len() > 0 {
        lemma_last_extra_in_range(packs.drop_last());
        assert forall|i: int|
            0 <= i < packs.len() && (#[trigger] packs[i]).is_extra_spec() implies (last_extra(packs)
                matches Some(at) && i <= at) by {
            if !packs.last().is_extra_spec() {
                assert(packs.drop_last()[i] == packs[i]);
            }
        }
    }
}

} // verus!
