//! Buyer already has orders: block when the buyer has other orders with this seller account.
use vstd::prelude::*;
use crate::delivery::base::{CheckView, DeliveryRule, RuleCheckResult};
use crate::delivery::context::DeliveryCheckContext;
use crate::delivery::data::{item_scope, DeliveryDataSource};
use crate::delivery::rules::buyer_credit::answer;
use crate::params::{param_bool, ExtraValue, ExtraView, ParamValue, RuleParams};
use crate::text::{concat3, decimal_seq, u64_to_decimal};
use crate::{DingDaResult, OpenDeskResult};

verus! {

/// Buyer-has-order rule.
pub struct BuyerHasOrderRule;

/// The check result for an order count (`None`: the query failed).
pub open spec fn has_order_spec(same_item_only: bool, count: Option<u32>) -> CheckView {
    let code = "buyer_has_order"@;
    let name = "买家已有订单"@;
    match count {
        None => CheckView {
            hit: false,
            rule_code: code,
            rule_name: name,
            reason: Seq::empty(),
            extra: Map::empty(),
        },
        Some(n) => if n > 0 {
            CheckView {
                hit: true,
                rule_code: code,
                rule_name: name,
                reason: "买家已有"@ + decimal_seq(n as nat) + "笔其他订单，禁止发货"@,
                extra: Map::empty().insert("order_count"@, ExtraView::Int(n as int)).insert(
                    "same_item_only"@,
                    ExtraView::Bool(same_item_only),
                ),
            }
        } else {
            CheckView {
                hit: false,
                rule_code: code,
                rule_name: name,
                reason: Seq::empty(),
                extra: Map::empty().insert("order_count"@, ExtraView::Int(0)),
            }
        },
    }
}

impl BuyerHasOrderRule {
    /// Decides on the order-count query's answer; a failed query lets the delivery pass.
    pub fn decide(same_item_only: bool, count: &OpenDeskResult<u32>) -> (r: RuleCheckResult)
        ensures
            r@ == has_order_spec(same_item_only, answer(*count)),
    {
        let code = "buyer_has_order";
        let name = "买家已有订单";
        match count {
            Err(_) => RuleCheckResult::pass(code, name),
            Ok(n) => {
                let n = *n;
                if n > 0 {
                    let reason = concat3("买家已有", u64_to_decimal(n as u64).as_str(), "笔其他订单，禁止发货");
                    RuleCheckResult::hit(code, name, reason)
                        .with_extra("order_count", ExtraValue::Int(n as i64))
                        .with_extra("same_item_only", ExtraValue::Bool(same_item_only))
                } else {
                    RuleCheckResult::pass(code, name).with_extra("order_count", ExtraValue::Int(0))
                }
            },
        }
    }
}

impl DeliveryRule for BuyerHasOrderRule {
    fn rule_code(&self) -> (s: &str)
        ensures
            s@ == "buyer_has_order"@,
    {
        "buyer_has_order"
    }

    fn rule_name(&self) -> (s: &str)
        ensures
            s@ == "买家已有订单"@,
    {
        "买家已有订单"
    }

    fn rule_description(&self) -> (s: &str)
        ensures
            s@ == "检查买家在当前卖家下是否已有其他订单，有则禁止发货"@,
    {
        "检查买家在当前卖家下是否已有其他订单，有则禁止发货"
    }

    fn default_config(&self) -> (p: RuleParams)
        ensures
            p.entries@.len() == 1,
            p.entries@[0].0@ == "same_item_only"@,
            p.entries@[0].1 == ParamValue::Bool(false),
    {
        RuleParams::new().with("same_item_only", ParamValue::Bool(false))
    }

    /// Counts the buyer's other orders with this account (restricted to the
    /// item when `same_item_only`) and decides on the answer.
    fn check(&self, context: &DeliveryCheckContext) -> (r: DingDaResult<RuleCheckResult>)
        ensures
            match r {
                Ok(x) => exists|count: Option<u32>|
                    x@ == has_order_spec(
                        param_bool(*context.rule_config, "same_item_only"@, false),
                        count,
                    ),
                Err(_) => false,
            },
            r matches Ok(x) ==> exists|a: OpenDeskResult<u32>|
                #[trigger] context.data.buyer_orders_answer(
                    context.account_id@,
                    context.buyer_id@,
                    context.order_no@,
                    item_scope(context.item_id, param_bool(*context.rule_config, "same_item_only"@, false)),
                    a,
                ) && x@ == has_order_spec(param_bool(*context.rule_config, "same_item_only"@, false), answer(a)),
    {
        let same_item_only = context.config_bool("same_item_only", false);
        let item_id = context.item_filter(same_item_only);
        let count = context.data.count_buyer_orders(
            context.account_id,
            context.buyer_id,
            context.order_no,
            item_id,
        );
        Ok(Self::decide(same_item_only, &count))
    }
}

/// The order being delivered is never counted against its buyer: when the
/// data source's only answer to counting the buyer's orders with the account,
/// that order left out, is zero (the buyer's only order is this one), the
/// check passes; when it is a positive count, the check blocks with it.
pub proof fn lemma_current_order_not_counted(
    data: &dyn DeliveryDataSource,
    account: Seq<char>,
    buyer: Seq<char>,
    order_no: Seq<char>,
    item: Option<Seq<char>>,
    same_item_only: bool,
    n: u32,
    a: OpenDeskResult<u32>,
)
    requires
        forall|b: OpenDeskResult<u32>| #[trigger]
            data.buyer_orders_answer(account, buyer, order_no, item, b) ==> b == Ok::<u32, String>(n),
        data.buyer_orders_answer(account, buyer, order_no, item, a),
    ensures
        n == 0 ==> !has_order_spec(same_item_only, answer(a)).hit,
        n > 0 ==> has_order_spec(same_item_only, answer(a)).hit && has_order_spec(same_item_only, answer(a)).reason == "买家已有"@
            + decimal_seq(n as nat) + "笔其他订单，禁止发货"@,
{
}

} // verus!
