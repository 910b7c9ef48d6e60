//! Rule registry: rule code → rule.
use vstd::prelude::*;
use crate::delivery::base::{CheckView, DeliveryRule, RuleCheckResult};
use crate::delivery::context::DeliveryCheckContext;
use crate::delivery::data::BlacklistRecord;
use crate::delivery::rules::buyer_credit::{credit_spec, BuyerCreditRule};
use crate::delivery::rules::buyer_has_order::{has_order_spec, BuyerHasOrderRule};
use crate::delivery::rules::buyer_has_order_global::{
    global_missing_spec, has_order_global_spec, BuyerHasOrderGlobalRule,
};
use crate::delivery::rules::buyer_unconfirmed::{unconfirmed_spec, BuyerUnconfirmedRule};
use crate::delivery::rules::personal_blacklist::{
    blacklist_pass_spec, blacklist_spec, PersonalBlacklistRule,
};
use crate::params::{param_bool, param_u32, ParamValue, RuleParams};
use crate::text::{owned, str_eq};
use crate::DingDaResult;

verus! {

/// A registered rule.
pub enum RegisteredRule {
    BuyerCredit(BuyerCreditRule),
    BuyerHasOrder(BuyerHasOrderRule),
    BuyerHasOrderGlobal(BuyerHasOrderGlobalRule),
    BuyerUnconfirmed(BuyerUnconfirmedRule),
    PersonalBlacklist(PersonalBlacklistRule),
}

/// The registered codes, in registration order.
pub open spec fn registered_codes() -> Seq<Seq<char>> {
    seq![
        "buyer_credit_zero"@,
        "buyer_has_order"@,
        "buyer_has_order_global"@,
        "buyer_unconfirmed"@,
        "personal_blacklist"@,
    ]
}

/// The registered names, in registration order.
pub open spec fn registered_names() -> Seq<Seq<char>> {
    seq![
        "买家信用度检查"@,
        "买家已有订单"@,
        "买家在同用户其他账号已有订单"@,
        "买家存在未确认收货订单"@,
        "个人黑名单"@,
    ]
}

/// The registered descriptions, in registration order.
pub open spec fn registered_descriptions() -> Seq<Seq<char>> {
    seq![
        "检查买家被评价总数，评价数为0（或低于设定阈值）时禁止发货"@,
        "检查买家在当前卖家下是否已有其他订单，有则禁止发货"@,
        "检查买家在当前用户名下所有账号中是否已有其他订单，有则禁止发货"@,
        "检查买家在当前卖家下是否有未确认收货的订单，有则禁止发货"@,
        "检查买家是否在个人黑名单中（支持商品级、账户级、用户级匹配）"@,
    ]
}

/// The default parameters of the rule registered at `k`, as key and value
/// pairs in order (the personal blacklist has none).
pub open spec fn registered_defaults(k: int) -> Seq<(Seq<char>, ParamValue)> {
    if k == 0 {
        seq![("threshold"@, ParamValue::UInt(0))]
    } else if k == 1 || k == 2 {
        seq![("same_item_only"@, ParamValue::Bool(false))]
    } else if k == 3 {
        seq![("min_count"@, ParamValue::UInt(1)), ("same_item_only"@, ParamValue::Bool(false))]
    } else {
        Seq::empty()
    }
}

/// The entries of parameters as key and value pairs.
pub open spec fn param_entries(p: RuleParams) -> Seq<(Seq<char>, ParamValue)> {
    p.entries@.map_values(|e: (String, ParamValue)| (e.0@, e.1))
}

/// The registration index of a code, if it is registered.
pub open spec fn registered_index(code: Seq<char>) -> Option<int> {
    if code == "buyer_credit_zero"@ {
        Some(0)
    } else if code == "buyer_has_order"@ {
        Some(1)
    } else if code == "buyer_has_order_global"@ {
        Some(2)
    } else if code == "buyer_unconfirmed"@ {
        Some(3)
    } else if code == "personal_blacklist"@ {
        Some(4)
    } else {
        None
    }
}

/// The registration index of a rule.
pub open spec fn rule_index(r: RegisteredRule) -> int {
    match r {
        RegisteredRule::BuyerCredit(_) => 0,
        RegisteredRule::BuyerHasOrder(_) => 1,
        RegisteredRule::BuyerHasOrderGlobal(_) => 2,
        RegisteredRule::BuyerUnconfirmed(_) => 3,
        RegisteredRule::PersonalBlacklist(_) => 4,
    }
}

/// `x` is a result the rule with registration index `k` can give with these
/// parameters, owner and buyer, for some answer of the data source.
pub open spec fn possible_check(
    k: int,
    params: RuleParams,
    owner_id: Option<i64>,
    buyer_id: Seq<char>,
    x: CheckView,
) -> bool {
    if k == 0 {
        exists|rate: Option<u32>| x == credit_spec(param_u32(params, "threshold"@, 0), rate)
    } else if k == 1 {
        exists|count: Option<u32>|
            x == has_order_spec(param_bool(params, "same_item_only"@, false), count)
    } else if k == 2 {
        if owner_id is None || buyer_id.len() == 0 {
            x == global_missing_spec()
        } else {
            exists|count: Option<u32>|
                x == has_order_global_spec(param_bool(params, "same_item_only"@, false), count)
        }
    } else if k == 3 {
        exists|count: Option<u32>| x == unconfirmed_spec(param_u32(params, "min_count"@, 1), count)
    } else {
        if owner_id is None {
            x == blacklist_pass_spec()
        } else {
            exists|found: Option<Option<BlacklistRecord>>| x == blacklist_spec(found)
        }
    }
}

impl DeliveryRule for RegisteredRule {
    fn rule_code(&self) -> (s: &str)
        ensures
            s@ == registered_codes()[rule_index(*self)],
    {
        match self {
            RegisteredRule::BuyerCredit(r) => r.rule_code(),
            RegisteredRule::BuyerHasOrder(r) => r.rule_code(),
            RegisteredRule::BuyerHasOrderGlobal(r) => r.rule_code(),
            RegisteredRule::BuyerUnconfirmed(r) => r.rule_code(),
            RegisteredRule::PersonalBlacklist(r) => r.rule_code(),
        }
    }

    fn rule_name(&self) -> (s: &str)
        ensures
            s@ == registered_names()[rule_index(*self)],
    {
        match self {
            RegisteredRule::BuyerCredit(r) => r.rule_name(),
            RegisteredRule::BuyerHasOrder(r) => r.rule_name(),
            RegisteredRule::BuyerHasOrderGlobal(r) => r.rule_name(),
            RegisteredRule::BuyerUnconfirmed(r) => r.rule_name(),
            RegisteredRule::PersonalBlacklist(r) => r.rule_name(),
        }
    }

    fn rule_description(&self) -> (s: &str)
        ensures
            s@ == registered_descriptions()[rule_index(*self)],
    {
        match self {
            RegisteredRule::BuyerCredit(r) => r.rule_description(),
            RegisteredRule::BuyerHasOrder(r) => r.rule_description(),
            RegisteredRule::BuyerHasOrderGlobal(r) => r.rule_description(),
            RegisteredRule::BuyerUnconfirmed(r) => r.rule_description(),
            RegisteredRule::PersonalBlacklist(r) => r.rule_description(),
        }
    }

    fn default_config(&self) -> (p: RuleParams)
        ensures
            param_entries(p) == registered_defaults(rule_index(*self)),
    {
        let p = match self {
            RegisteredRule::BuyerCredit(r) => r.default_config(),
            RegisteredRule::BuyerHasOrder(r) => r.default_config(),
            RegisteredRule::BuyerHasOrderGlobal(r) => r.default_config(),
            RegisteredRule::BuyerUnconfirmed(r) => r.default_config(),
            RegisteredRule::PersonalBlacklist(r) => RuleParams::new(),
        };
        assert(param_entries(p) =~= registered_defaults(rule_index(*self)));
        p
    }

    fn check(&self, context: &DeliveryCheckContext) -> (r: DingDaResult<RuleCheckResult>)
        ensures
            match r {
                Ok(x) => possible_check(
                    rule_index(*self),
                    *context.rule_config,
                    context.owner_id,
                    context.buyer_id@,
                    x@,
                ),
                Err(_) => false,
            },
    {
        match self {
            RegisteredRule::BuyerCredit(r) => r.check(context),
            RegisteredRule::BuyerHasOrder(r) => r.check(context),
            RegisteredRule::BuyerHasOrderGlobal(r) => r.check(context),
            RegisteredRule::BuyerUnconfirmed(r) => r.check(context),
            RegisteredRule::PersonalBlacklist(r) => r.check(context),
        }
    }
}

/// Every possible result of a registered rule carries its code and name.
pub proof fn lemma_possible_check_names(
    k: int,
    params: RuleParams,
    owner_id: Option<i64>,
    buyer_id: Seq<char>,
    x: CheckView,
)
    requires
        0 <= k < 5,
        possible_check(k, params, owner_id, buyer_id, x),
    ensures
        x.rule_code == registered_codes()[k],
        x.rule_name == registered_names()[k],
{
}

/// A registered code is the code at its registration index.
pub proof fn lemma_registered_index(code: Seq<char>)
    ensures
        registered_index(code) matches Some(k) ==> 0 <= k < 5 && code == registered_codes()[k],
{
}

/// Metadata of a rule for display.
#[derive(Debug)]
pub struct RuleMetadata {
    pub rule_code: String,
    pub rule_name: String,
    pub rule_description: String,
    pub default_config: RuleParams,
}

/// Access to the registered rules.
pub struct DeliveryRuleRegistry;

impl DeliveryRuleRegistry {
    /// The rule registered under `rule_code`; `None` for an unknown code.
    pub fn instance(rule_code: &str) -> (r: Option<RegisteredRule>)
        ensures
            match r {
                Some(rule) => registered_index(rule_code@) == Some(rule_index(rule)),
                None => registered_index(rule_code@) is None,
            },
    {
        if str_eq(rule_code, "buyer_credit_zero") {
            Some(RegisteredRule::BuyerCredit(BuyerCreditRule))
        } else if str_eq(rule_code, "buyer_has_order") {
            Some(RegisteredRule::BuyerHasOrder(BuyerHasOrderRule))
        } else if str_eq(rule_code, "buyer_has_order_global") {
            Some(RegisteredRule::BuyerHasOrderGlobal(BuyerHasOrderGlobalRule))
        } else if str_eq(rule_code, "buyer_unconfirmed") {
            Some(RegisteredRule::BuyerUnconfirmed(BuyerUnconfirmedRule))
        } else if str_eq(rule_code, "personal_blacklist") {
            Some(RegisteredRule::PersonalBlacklist(PersonalBlacklistRule))
        } else {
            None
        }
    }

    fn metadata_of(code: &str, rule: RegisteredRule) -> (m: RuleMetadata)
        ensures
            m.rule_code@ == code@,
            m.rule_name@ == registered_names()[rule_index(rule)],
    {
        RuleMetadata {
            rule_code: owned(code),
            rule_name: owned(rule.rule_name()),
            rule_description: owned(rule.rule_description()),
            default_config: rule.default_config(),
        }
    }

    /// Metadata of every registered rule, in registration order.
    pub fn all_metadata() -> (v: Vec<RuleMetadata>)
        ensures
            v@.len() == 5,
            forall|k: int| 0 <= k < 5 ==> (#[trigger] v@[k]).rule_code@ == registered_codes()[k]
                && v@[k].rule_name@ == registered_names()[k],
    {
        let mut v: Vec<RuleMetadata> = Vec::new();
        v.push(Self::metadata_of("buyer_credit_zero", RegisteredRule::BuyerCredit(BuyerCreditRule)));
        v.push(Self::metadata_of("buyer_has_order", RegisteredRule::BuyerHasOrder(BuyerHasOrderRule)));
        v.push(Self::metadata_of("buyer_has_order_global", RegisteredRule::BuyerHasOrderGlobal(BuyerHasOrderGlobalRule)));
        v.push(Self::metadata_of("buyer_unconfirmed", RegisteredRule::BuyerUnconfirmed(BuyerUnconfirmedRule)));
        v.push(Self::metadata_of("personal_blacklist", RegisteredRule::PersonalBlacklist(PersonalBlacklistRule)));
        v
    }
}

} // verus!
