//! Buyer credit: block when the buyer's rating count is at most the threshold (default 0).
use vstd::prelude::*;
use crate::delivery::base::{CheckView, DeliveryRule, RuleCheckResult};
use crate::delivery::context::DeliveryCheckContext;
use crate::params::{param_u32, ExtraValue, ExtraView, ParamValue, RuleParams};
use crate::text::{concat3, decimal_seq, u64_to_decimal};
use crate::{DingDaResult, OpenDeskResult};

verus! {

/// Buyer credit rule.
pub struct BuyerCreditRule;

/// The check result for a rating count (`None`: the rating query failed).
pub open spec fn credit_spec(threshold: u32, rate: Option<u32>) -> CheckView {
    let code = "buyer_credit_zero"@;
    let name = "买家信用度检查"@;
    match rate {
        None => CheckView {
            hit: false,
            rule_code: code,
            rule_name: name,
            reason: Seq::empty(),
            extra: Map::empty().insert("total_count"@, ExtraView::Int(-1)),
        },
        Some(count) => if count <= threshold {
            CheckView {
                hit: true,
                rule_code: code,
                rule_name: name,
                reason: "买家评价数为"@ + decimal_seq(count as nat) + "（阈值"@ + decimal_seq(
                    threshold as nat,
                ) + "），已禁止发货"@,
                extra: Map::empty().insert("total_count"@, ExtraView::Int(count as int)).insert(
                    "threshold"@,
                    ExtraView::Int(threshold as int),
                ),
            }
        } else {
            CheckView {
                hit: false,
                rule_code: code,
                rule_name: name,
                reason: Seq::empty(),
                extra: Map::empty().insert("total_count"@, ExtraView::Int(count as int)),
            }
        },
    }
}

/// The value of a query answer, forgetting the error message.
pub open spec fn answer<T>(r: OpenDeskResult<T>) -> Option<T> {
    match r {
        Ok(v) => Some(v),
        Err(_) => None,
    }
}

impl BuyerCreditRule {
    /// Decides on the rating query's answer; a failed query lets the delivery pass.
    pub fn decide(threshold: u32, rate: &OpenDeskResult<u32>) -> (r: RuleCheckResult)
        ensures
            r@ == credit_spec(threshold, answer(*rate)),
    {
        let code = "buyer_credit_zero";
        let name = "买家信用度检查";
        match rate {
            Err(_) => RuleCheckResult::pass(code, name).with_extra("total_count", ExtraValue::Int(-1)),
            Ok(count) => {
                let count = *count;
                if count <= threshold {
                    let head = concat3("买家评价数为", u64_to_decimal(count as u64).as_str(), "（阈值");
                    let reason = concat3(head.as_str(), u64_to_decimal(threshold as u64).as_str(), "），已禁止发货");
                    RuleCheckResult::hit(code, name, reason)
                        .with_extra("total_count", ExtraValue::Int(count as i64))
                        .with_extra("threshold", ExtraValue::Int(threshold as i64))
                } else {
                    RuleCheckResult::pass(code, name).with_extra("total_count", ExtraValue::Int(count as i64))
                }
            },
        }
    }
}

impl DeliveryRule for BuyerCreditRule {
    fn rule_code(&self) -> (s: &str)
        ensures
            s@ == "buyer_credit_zero"@,
    {
        "buyer_credit_zero"
    }

    fn rule_name(&self) -> (s: &str)
        ensures
            s@ == "买家信用度检查"@,
    {
        "买家信用度检查"
    }

    fn rule_description(&self) -> (s: &str)
        ensures
            s@ == "检查买家被评价总数，评价数为0（或低于设定阈值）时禁止发货"@,
    {
        "检查买家被评价总数，评价数为0（或低于设定阈值）时禁止发货"
    }

    fn default_config(&self) -> (p: RuleParams)
        ensures
            p.entries@.len() == 1,
            p.entries@[0].0@ == "threshold"@,
            p.entries@[0].1 == ParamValue::UInt(0),
    {
        RuleParams::new().with("threshold", ParamValue::UInt(0))
    }

    /// Reads the threshold, asks the data source for the buyer's rating count
    /// and decides on the answer.
    fn check(&self, context: &DeliveryCheckContext) -> (r: DingDaResult<RuleCheckResult>)
        ensures
            match r {
                Ok(x) => exists|rate: Option<u32>|
                    x@ == credit_spec(param_u32(*context.rule_config, "threshold"@, 0), rate),
                Err(_) => false,
            },
            r matches Ok(x) ==> exists|a: OpenDeskResult<u32>|
                #[trigger] context.data.rate_answer(context.buyer_id@, a) && x@ == credit_spec(
                    param_u32(*context.rule_config, "threshold"@, 0),
                    answer(a),
                ),
    {
        let threshold = context.config_u32("threshold", 0);
        let rate = context.data.fetch_buyer_rate_count(context.buyer_id);
        Ok(Self::decide(threshold, &rate))
    }
}

} // verus!
