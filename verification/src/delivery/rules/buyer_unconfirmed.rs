//! Unconfirmed orders: block when the buyer has at least `min_count` shipped
//! orders not yet confirmed as received.
use vstd::prelude::*;
use crate::delivery::base::{CheckView, DeliveryRule, RuleCheckResult};
use crate::delivery::context::DeliveryCheckContext;
use crate::delivery::data::item_scope;
use crate::delivery::rules::buyer_credit::answer;
use crate::params::{param_bool, param_u32, ExtraValue, ExtraView, ParamValue, RuleParams};
use crate::text::{concat3, decimal_seq, u64_to_decimal};
use crate::{DingDaResult, OpenDeskResult};

verus! {

/// Unconfirmed-orders rule.
pub struct BuyerUnconfirmedRule;

/// The check result for an unconfirmed-order count (`None`: the query failed).
pub open spec fn unconfirmed_spec(min_count: u32, count: Option<u32>) -> CheckView {
    let code = "buyer_unconfirmed"@;
    let name = "买家存在未确认收货订单"@;
    match count {
        None => CheckView {
            hit: false,
            rule_code: code,
            rule_name: name,
            reason: Seq::empty(),
            extra: Map::empty(),
        },
        Some(n) => if n >= min_count {
            CheckView {
                hit: true,
                rule_code: code,
                rule_name: name,
                reason: "买家有"@ + decimal_seq(n as nat) + "笔未确认收货订单，禁止发货"@,
                extra: Map::empty().insert("unconfirmed_count"@, ExtraView::Int(n as int)).insert(
                    "min_count"@,
                    ExtraView::Int(min_count as int),
                ),
            }
        } else {
            CheckView {
                hit: false,
                rule_code: code,
                rule_name: name,
                reason: Seq::empty(),
                extra: Map::empty().insert("unconfirmed_count"@, ExtraView::Int(n as int)),
            }
        },
    }
}

impl BuyerUnconfirmedRule {
    /// Decides on the unconfirmed-order query's answer; a failed query lets the delivery pass.
    pub fn decide(min_count: u32, count: &OpenDeskResult<u32>) -> (r: RuleCheckResult)
        ensures
            r@ == unconfirmed_spec(min_count, answer(*count)),
    {
        let code = "buyer_unconfirmed";
        let name = "买家存在未确认收货订单";
        match count {
            Err(_) => RuleCheckResult::pass(code, name),
            Ok(n) => {
                let n = *n;
                if n >= min_count {
                    let reason = concat3("买家有", u64_to_decimal(n as u64).as_str(), "笔未确认收货订单，禁止发货");
                    RuleCheckResult::hit(code, name, reason)
                        .with_extra("unconfirmed_count", ExtraValue::Int(n as i64))
                        .with_extra("min_count", ExtraValue::Int(min_count as i64))
                } else {
                    RuleCheckResult::pass(code, name).with_extra("unconfirmed_count", ExtraValue::Int(n as i64))
                }
            },
        }
    }
}

impl DeliveryRule for BuyerUnconfirmedRule {
    fn rule_code(&self) -> (s: &str)
        ensures
            s@ == "buyer_unconfirmed"@,
    {
        "buyer_unconfirmed"
    }

    fn rule_name(&self) -> (s: &str)
        ensures
            s@ == "买家存在未确认收货订单"@,
    {
        "买家存在未确认收货订单"
    }

    fn rule_description(&self) -> (s: &str)
        ensures
            s@ == "检查买家在当前卖家下是否有未确认收货的订单，有则禁止发货"@,
    {
        "检查买家在当前卖家下是否有未确认收货的订单，有则禁止发货"
    }

    fn default_config(&self) -> (p: RuleParams)
        ensures
            p.entries@.len() == 2,
            p.entries@[0].0@ == "min_count"@,
            p.entries@[0].1 == ParamValue::UInt(1),
            p.entries@[1].0@ == "same_item_only"@,
            p.entries@[1].1 == ParamValue::Bool(false),
    {
        RuleParams::new().with("min_count", ParamValue::UInt(1)).with(
            "same_item_only",
            ParamValue::Bool(false),
        )
    }

    /// Counts the buyer's unconfirmed orders (restricted to the item when
    /// `same_item_only`) and decides on the answer with `min_count` (default 1).
    fn check(&self, context: &DeliveryCheckContext) -> (r: DingDaResult<RuleCheckResult>)
        ensures
            match r {
                Ok(x) => exists|count: Option<u32>|
                    x@ == unconfirmed_spec(param_u32(*context.rule_config, "min_count"@, 1), count),
                Err(_) => false,
            },
            r matches Ok(x) ==> exists|a: OpenDeskResult<u32>|
                #[trigger] context.data.unconfirmed_answer(
                    context.account_id@,
                    context.buyer_id@,
                    context.order_no@,
                    item_scope(context.item_id, param_bool(*context.rule_config, "same_item_only"@, false)),
                    a,
                ) && x@ == unconfirmed_spec(param_u32(*context.rule_config, "min_count"@, 1), answer(a)),
    {
        let min_count = context.config_u32("min_count", 1);
        let same_item_only = context.config_bool("same_item_only", false);
        let item_id = context.item_filter(same_item_only);
        let count = context.data.count_unconfirmed_orders(
            context.account_id,
            context.buyer_id,
            context.order_no,
            item_id,
        );
        Ok(Self::decide(min_count, &count))
    }
}

} // verus!
