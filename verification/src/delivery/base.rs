//! Rule interface and check result.
use vstd::prelude::*;
use crate::delivery::context::DeliveryCheckContext;
use crate::params::{ExtraData, ExtraValue, ExtraView, RuleParams};
use crate::text::owned;
use crate::DingDaResult;

verus! {

/// Result of one rule check.
#[derive(Debug)]
pub struct RuleCheckResult {
    /// Whether the rule hit (the delivery must be blocked).
    pub hit: bool,
    /// Unique rule code.
    pub rule_code: String,
    /// Display name of the rule.
    pub rule_name: String,
    /// Why the rule hit (stored as the order's delivery failure reason).
    pub reason: String,
    /// Extra data (rating count, order count, ...) for logs and display.
    pub extra_data: ExtraData,
}

/// The value of a check result.
pub ghost struct CheckView {
    pub hit: bool,
    pub rule_code: Seq<char>,
    pub rule_name: Seq<char>,
    pub reason: Seq<char>,
    pub extra: Map<Seq<char>, ExtraView>,
}

impl RuleCheckResult {
    pub open spec fn view(&self) -> CheckView {
        CheckView {
            hit: self.hit,
            rule_code: self.rule_code@,
            rule_name: self.rule_name@,
            reason: self.reason@,
            extra: self.extra_data@,
        }
    }

    /// A hit with the given reason and no extra data.
    pub fn hit(rule_code: &str, rule_name: &str, reason: String) -> (r: Self)
        ensures
            r@ == (CheckView {
                hit: true,
                rule_code: rule_code@,
                rule_name: rule_name@,
                reason: reason@,
                extra: Map::empty(),
            }),
    {
        RuleCheckResult {
            hit: true,
            rule_code: owned(rule_code),
            rule_name: owned(rule_name),
            reason,
            extra_data: ExtraData::new(),
        }
    }

    /// A pass: no hit, empty reason, no extra data.
    pub fn pass(rule_code: &str, rule_name: &str) -> (r: Self)
        ensures
            r@ == (CheckView {
                hit: false,
                rule_code: rule_code@,
                rule_name: rule_name@,
                reason: Seq::empty(),
                extra: Map::empty(),
            }),
    {
        RuleCheckResult {
            hit: false,
            rule_code: owned(rule_code),
            rule_name: owned(rule_name),
            reason: String::new(),
            extra_data: ExtraData::new(),
        }
    }

    /// The result with `key` set to `value` in its extra data.
    pub fn with_extra(self, key: &str, value: ExtraValue) -> (r: Self)
        ensures
            r@ == (CheckView { extra: self@.extra.insert(key@, value@), ..self@ }),
    {
        let mut r = self;
        r.extra_data.insert(key, value);
        r
    }

    /// The extra value under `key`.
    pub fn extra(&self, key: &str) -> (v: Option<ExtraValue>)
        ensures
            match v {
                Some(x) => self@.extra.contains_key(key@) && self@.extra[key@] == x@,
                None => !self@.extra.contains_key(key@),
            },
    {
        self.extra_data.get(key)
    }
}

/// A delivery-blocking rule. `check` only decides; blocking actions are taken
/// by the engine. Data is read through the context's data source.
pub trait DeliveryRule {
    /// Unique rule code (stored in the database).
    fn rule_code(&self) -> &str;

    /// Display name.
    fn rule_name(&self) -> &str;

    /// Description for display; empty unless the rule gives one.
    fn rule_description(&self) -> (s: &str)
        default_ensures
            s@.len() == 0,
    {
        proof {
            reveal_strlit("");
        }
        ""
    }

    /// Default parameters for display; none unless the rule gives some.
    fn default_config(&self) -> (p: RuleParams)
        default_ensures
            p.entries@.len() == 0,
    {
        RuleParams::new()
    }

    /// Runs the check.
    fn check(&self, context: &DeliveryCheckContext) -> DingDaResult<RuleCheckResult>;
}

} // verus!
