//! Buyer has orders under the owner's other accounts: blocks cross-shop abuse.
use vstd::prelude::*;
use crate::delivery::base::{CheckView, DeliveryRule, RuleCheckResult};
use crate::delivery::context::DeliveryCheckContext;
use crate::delivery::data::item_scope;
use crate::delivery::rules::buyer_credit::answer;
use crate::params::{param_bool, ExtraValue, ExtraView, ParamValue, RuleParams};
use crate::text::{concat3, decimal_seq, str_is_empty, u64_to_decimal};
use crate::{DingDaResult, OpenDeskResult};

verus! {

/// Buyer-has-order-under-the-owner rule.
pub struct BuyerHasOrderGlobalRule;

/// The check result for an order count (`None`: the query failed).
pub open spec fn has_order_global_spec(same_item_only: bool, count: Option<u32>) -> CheckView {
    let code = "buyer_has_order_global"@;
    let name = "买家在同用户其他账号已有订单"@;
    match count {
        None => CheckView {
            hit: false,
            rule_code: code,
            rule_name: name,
            reason: Seq::empty(),
            extra: Map::empty(),
        },
        Some(n) => if n > 0 {
            CheckView {
                hit: true,
                rule_code: code,
                rule_name: name,
                reason: "买家在您名下其他账号已有"@ + decimal_seq(n as nat) + "笔订单，禁止发货"@,
                extra: Map::empty().insert("order_count"@, ExtraView::Int(n as int)).insert(
                    "same_item_only"@,
                    ExtraView::Bool(same_item_only),
                ),
            }
        } else {
            CheckView {
                hit: false,
                rule_code: code,
                rule_name: name,
                reason: Seq::empty(),
                extra: Map::empty().insert("order_count"@, ExtraView::Int(0)),
            }
        },
    }
}

/// The pass result given when the owner or the buyer is missing.
pub open spec fn global_missing_spec() -> CheckView {
    CheckView {
        hit: false,
        rule_code: "buyer_has_order_global"@,
        rule_name: "买家在同用户其他账号已有订单"@,
        reason: Seq::empty(),
        extra: Map::empty(),
    }
}

impl BuyerHasOrderGlobalRule {
    /// Decides on the order-count query's answer; a failed query lets the delivery pass.
    pub fn decide(same_item_only: bool, count: &OpenDeskResult<u32>) -> (r: RuleCheckResult)
        ensures
            r@ == has_order_global_spec(same_item_only, answer(*count)),
    {
        let code = "buyer_has_order_global";
        let name = "买家在同用户其他账号已有订单";
        match count {
            Err(_) => RuleCheckResult::pass(code, name),
            Ok(n) => {
                let n = *n;
                if n > 0 {
                    let reason = concat3("买家在您名下其他账号已有", u64_to_decimal(n as u64).as_str(), "笔订单，禁止发货");
                    RuleCheckResult::hit(code, name, reason)
                        .with_extra("order_count", ExtraValue::Int(n as i64))
                        .with_extra("same_item_only", ExtraValue::Bool(same_item_only))
                } else {
                    RuleCheckResult::pass(code, name).with_extra("order_count", ExtraValue::Int(0))
                }
            },
        }
    }
}

impl DeliveryRule for BuyerHasOrderGlobalRule {
    fn rule_code(&self) -> (s: &str)
        ensures
            s@ == "buyer_has_order_global"@,
    {
        "buyer_has_order_global"
    }

    fn rule_name(&self) -> (s: &str)
        ensures
            s@ == "买家在同用户其他账号已有订单"@,
    {
        "买家在同用户其他账号已有订单"
    }

    fn rule_description(&self) -> (s: &str)
        ensures
            s@ == "检查买家在当前用户名下所有账号中是否已有其他订单，有则禁止发货"@,
    {
        "检查买家在当前用户名下所有账号中是否已有其他订单，有则禁止发货"
    }

    fn default_config(&self) -> (p: RuleParams)
        ensures
            p.entries@.len() == 1,
            p.entries@[0].0@ == "same_item_only"@,
            p.entries@[0].1 == ParamValue::Bool(false),
    {
        RuleParams::new().with("same_item_only", ParamValue::Bool(false))
    }

    /// Passes without a query when the owner or the buyer is missing (a
    /// cross-account query on empty values would block many orders); otherwise
    /// counts the buyer's orders under the owner and decides on the answer.
    fn check(&self, context: &DeliveryCheckContext) -> (r: DingDaResult<RuleCheckResult>)
        ensures
            match r {
                Ok(x) => if context.owner_id is None || context.buyer_id@.len() == 0 {
                    x@ == global_missing_spec()
                } else {
                    exists|count: Option<u32>|
                        x@ == has_order_global_spec(
                            param_bool(*context.rule_config, "same_item_only"@, false),
                            count,
                        )
                },
                Err(_) => false,
            },
            context.owner_id is Some && context.buyer_id@.len() > 0 ==> (r matches Ok(x) ==> exists|a: OpenDeskResult<u32>|
                #[trigger] context.data.owner_orders_answer(
                    context.owner_id->0,
                    context.buyer_id@,
                    context.order_no@,
                    item_scope(context.item_id, param_bool(*context.rule_config, "same_item_only"@, false)),
                    a,
                ) && x@ == has_order_global_spec(param_bool(*context.rule_config, "same_item_only"@, false), answer(a))),
    {
        let same_item_only = context.config_bool("same_item_only", false);
        let owner_id = match context.owner_id {
            Some(o) => o,
            None => {
                return Ok(RuleCheckResult::pass("buyer_has_order_global", "买家在同用户其他账号已有订单"));
            },
        };
        if str_is_empty(context.buyer_id) {
            return Ok(RuleCheckResult::pass("buyer_has_order_global", "买家在同用户其他账号已有订单"));
        }
        let item_id = context.item_filter(same_item_only);
        let count = context.data.count_owner_orders(
            owner_id,
            context.buyer_id,
            context.order_no,
            item_id,
        );
        Ok(Self::decide(same_item_only, &count))
    }
}

} // verus!
