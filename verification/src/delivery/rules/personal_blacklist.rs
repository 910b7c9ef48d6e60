//! Personal blacklist: block when the buyer is on the owner's blacklist
//! (item level > account level > user level).
use vstd::prelude::*;
use crate::delivery::base::{CheckView, DeliveryRule, RuleCheckResult};
use crate::delivery::context::DeliveryCheckContext;
use crate::delivery::data::{blacklist_level, item_scope, BlacklistRecord};
use crate::params::{ExtraValue, ExtraView};
use crate::text::{concat2, concat3, str_is_empty};
use crate::{DingDaResult, OpenDeskResult};

verus! {

/// Personal blacklist rule.
pub struct PersonalBlacklistRule;

/// A pass of this rule.
pub open spec fn blacklist_pass_spec() -> CheckView {
    CheckView {
        hit: false,
        rule_code: "personal_blacklist"@,
        rule_name: "个人黑名单"@,
        reason: Seq::empty(),
        extra: Map::empty(),
    }
}

/// The check result for a blacklist answer (`None`: the query failed).
pub open spec fn blacklist_spec(found: Option<Option<BlacklistRecord>>) -> CheckView {
    match found {
        Some(Some(rec)) => {
            let level = blacklist_level(rec.account_id is Some, rec.item_id is Some);
            CheckView {
                hit: true,
                rule_code: "personal_blacklist"@,
                rule_name: "个人黑名单"@,
                reason: match rec.reason {
                    Some(t) => if t@.len() > 0 {
                        "买家在个人黑名单中（"@ + level + "），原因："@ + t@
                    } else {
                        "买家在个人黑名单中（"@ + level + "）"@
                    },
                    None => "买家在个人黑名单中（"@ + level + "）"@,
                },
                extra: Map::empty().insert("blacklist_id"@, ExtraView::Int(rec.id as int)).insert(
                    "level"@,
                    ExtraView::Text(level),
                ),
            }
        },
        _ => blacklist_pass_spec(),
    }
}

impl PersonalBlacklistRule {
    /// Decides on the blacklist query's answer; a failed query or no record lets the delivery pass.
    pub fn decide(found: OpenDeskResult<Option<BlacklistRecord>>) -> (r: RuleCheckResult)
        ensures
            r@ == blacklist_spec(
                match found {
                    Ok(v) => Some(v),
                    Err(_) => None,
                },
            ),
    {
        let code = "personal_blacklist";
        let name = "个人黑名单";
        let record = match found {
            Ok(Some(record)) => record,
            _ => {
                return RuleCheckResult::pass(code, name);
            },
        };
        let level = record.level();
        let reason = match &record.reason {
            Some(text) => if !str_is_empty(text.as_str()) {
                let head = concat3("买家在个人黑名单中（", level, "），原因：");
                concat2(head.as_str(), text.as_str())
            } else {
                concat3("买家在个人黑名单中（", level, "）")
            },
            None => concat3("买家在个人黑名单中（", level, "）"),
        };
        RuleCheckResult::hit(code, name, reason)
            .with_extra("blacklist_id", ExtraValue::Int(record.id))
            .with_extra("level", ExtraValue::Text(crate::text::owned(level)))
    }
}

impl DeliveryRule for PersonalBlacklistRule {
    fn rule_code(&self) -> (s: &str)
        ensures
            s@ == "personal_blacklist"@,
    {
        "personal_blacklist"
    }

    fn rule_name(&self) -> (s: &str)
        ensures
            s@ == "个人黑名单"@,
    {
        "个人黑名单"
    }

    fn rule_description(&self) -> (s: &str)
        ensures
            s@ == "检查买家是否在个人黑名单中（支持商品级、账户级、用户级匹配）"@,
    {
        "检查买家是否在个人黑名单中（支持商品级、账户级、用户级匹配）"
    }

    /// Passes without a query when the owner is missing (user-level entries
    /// cannot be looked up); otherwise looks the buyer up and decides.
    fn check(&self, context: &DeliveryCheckContext) -> (r: DingDaResult<RuleCheckResult>)
        ensures
            match r {
                Ok(x) => if context.owner_id is None {
                    x@ == blacklist_pass_spec()
                } else {
                    exists|found: Option<Option<BlacklistRecord>>| x@ == blacklist_spec(found)
                },
                Err(_) => false,
            },
            context.owner_id is Some ==> (r matches Ok(x) ==> exists|a: OpenDeskResult<Option<BlacklistRecord>>|
                #[trigger] context.data.blacklist_answer(
                    context.owner_id->0,
                    context.account_id@,
                    context.buyer_id@,
                    item_scope(context.item_id, true),
                    a,
                ) && x@ == blacklist_spec(
                    match a {
                        Ok(v) => Some(v),
                        Err(_) => None,
                    },
                )),
    {
        let owner_id = match context.owner_id {
            Some(o) => o,
            None => {
                return Ok(RuleCheckResult::pass("personal_blacklist", "个人黑名单"));
            },
        };
        let found = context.data.find_blacklist(
            owner_id,
            context.account_id,
            context.buyer_id,
            context.item_id,
        );
        Ok(Self::decide(found))
    }
}

} // verus!
