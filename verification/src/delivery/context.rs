//! Check context handed to every rule.
use vstd::prelude::*;
use crate::delivery::data::DeliveryDataSource;
use crate::params::{param_bool, param_u32, RuleParams};
use crate::text::{concat3, owned, str_is_empty};

verus! {

/// Context of one rule check.
pub struct DeliveryCheckContext<'a> {
    /// Seller account id.
    pub account_id: &'a str,
    /// Seller cookie string.
    pub cookies_str: &'a str,
    /// Order number.
    pub order_no: &'a str,
    /// Buyer user id.
    pub buyer_id: &'a str,
    /// Item id (may be absent).
    pub item_id: Option<&'a str>,
    /// Chat id (may be absent).
    pub chat_id: Option<&'a str>,
    /// Log prefix.
    pub log_prefix: &'a str,
    /// Rule parameters (from the rule's stored config).
    pub rule_config: &'a RuleParams,
    /// Seller account key.
    pub account_pk: Option<i64>,
    /// Owning user id (for cross-account rules).
    pub owner_id: Option<i64>,
    /// Data source (rules never access storage directly).
    pub data: &'a dyn DeliveryDataSource,
}

/// The log prefix: the given one, or `【account】` when it is empty.
pub open spec fn prefix_spec(log_prefix: Seq<char>, account_id: Seq<char>) -> Seq<char> {
    if log_prefix.len() == 0 {
        "【"@ + account_id + "】"@
    } else {
        log_prefix
    }
}

impl<'a> DeliveryCheckContext<'a> {
    /// The item an order query is restricted to: the order's item when
    /// `same_item_only`, else none.
    pub fn item_filter(&self, same_item_only: bool) -> (r: Option<&'a str>)
        ensures
            r == (if same_item_only { self.item_id } else { None::<&'a str> }),
    {
        if same_item_only {
            self.item_id
        } else {
            None
        }
    }

    /// A boolean parameter, else `default`.
    pub fn config_bool(&self, key: &str, default: bool) -> (b: bool)
        ensures
            b == param_bool(*self.rule_config, key@, default),
    {
        self.rule_config.get_bool(key, default)
    }

    /// An unsigned parameter cut to 32 bits, else `default`.
    pub fn config_u32(&self, key: &str, default: u32) -> (n: u32)
        ensures
            n == param_u32(*self.rule_config, key@, default),
    {
        self.rule_config.get_u32(key, default)
    }

    /// The log prefix (the account id in brackets when none was given).
    pub fn prefix(&self) -> (s: String)
        ensures
            s@ == prefix_spec(self.log_prefix@, self.account_id@),
    {
        if str_is_empty(self.log_prefix) {
            concat3("【", self.account_id, "】")
        } else {
            owned(self.log_prefix)
        }
    }
}

} // verus!
