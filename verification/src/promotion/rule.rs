//! Rule model of the commission system.
use vstd::prelude::*;
use crate::text::{is_blank, trim_seq};

verus! {

/// Whether a rule is enabled.
#[derive(Debug, Clone, Copy, PartialEq, Eq, Structural)]
pub enum RuleStatus {
    Enabled,
    Disabled,
}

/// `true` for `Enabled`.
pub open spec fn status_enabled(s: RuleStatus) -> bool {
    s is Enabled
}

/// `Enabled` for `true`, `Disabled` for `false`.
pub open spec fn status_of(enabled: bool) -> RuleStatus {
    if enabled {
        RuleStatus::Enabled
    } else {
        RuleStatus::Disabled
    }
}

impl RuleStatus {
    /// `true` for `Enabled`.
    pub fn as_bool(&self) -> (b: bool)
        ensures
            b == status_enabled(*self),
    {
        match self {
            RuleStatus::Enabled => true,
            RuleStatus::Disabled => false,
        }
    }

    /// `Enabled` for `true`, `Disabled` for `false`.
    pub fn from_bool(enabled: bool) -> (s: Self)
        ensures
            s == status_of(enabled),
    {
        if enabled {
            RuleStatus::Enabled
        } else {
            RuleStatus::Disabled
        }
    }
}

/// An optional text that is present and not blank.
pub open spec fn has_text(o: Option<String>) -> bool {
    o matches Some(s) && trim_seq(s@).len() > 0
}

/// Whether an optional text is present and not blank.
pub fn opt_has_text(o: &Option<String>) -> (b: bool)
    ensures
        b == has_text(*o),
{
    match o {
        Some(s) => !is_blank(s.as_str()),
        None => false,
    }
}

/// A product-selection rule.
#[derive(Debug)]
pub struct ProductRule {
    pub id: i64,
    pub owner_id: i64,
    pub account_id: String,
    pub rule_name: String,
    /// Item category (optional).
    pub cat: Option<String>,
    /// Category name (for display).
    pub cat_name: Option<String>,
    /// Keyword (optional).
    pub keyword: Option<String>,
    /// Sort order: `default` or another.
    pub sort: String,
    /// Items selected per day.
    pub daily_count: u32,
    pub status: RuleStatus,
    pub remark: Option<String>,
}

impl Clone for ProductRule {
    fn clone(&self) -> (r: Self)
        ensures
            r == *self,
    {
        ProductRule {
            id: self.id,
            owner_id: self.owner_id,
            account_id: self.account_id.clone(),
            rule_name: self.rule_name.clone(),
            cat: self.cat.clone(),
            cat_name: self.cat_name.clone(),
            keyword: self.keyword.clone(),
            sort: self.sort.clone(),
            daily_count: self.daily_count,
            status: self.status,
            remark: self.remark.clone(),
        }
    }
}

impl ProductRule {
    /// A category or a keyword is given (not blank).
    pub open spec fn has_source_spec(&self) -> bool {
        has_text(self.cat) || has_text(self.keyword)
    }

    /// A category or a keyword is given (not blank).
    pub fn has_source(&self) -> (b: bool)
        ensures
            b == self.has_source_spec(),
    {
        opt_has_text(&self.cat) || opt_has_text(&self.keyword)
    }
}

/// A publish rule.
#[derive(Debug)]
pub struct PublishRule {
    pub id: i64,
    pub owner_id: i64,
    pub rule_name: String,
    pub account_id: String,
    /// Items published per day.
    pub daily_count: u32,
    pub status: RuleStatus,
    pub remark: Option<String>,
}

impl Clone for PublishRule {
    fn clone(&self) -> (r: Self)
        ensures
            r == *self,
    {
        PublishRule {
            id: self.id,
            owner_id: self.owner_id,
            rule_name: self.rule_name.clone(),
            account_id: self.account_id.clone(),
            daily_count: self.daily_count,
            status: self.status,
            remark: self.remark.clone(),
        }
    }
}

/// Input of a new publish rule.
#[derive(Debug)]
pub struct PublishRuleInput {
    pub owner_id: i64,
    pub rule_name: String,
    pub account_id: String,
    pub daily_count: u32,
    pub enabled: bool,
    pub remark: Option<String>,
}

impl Clone for PublishRuleInput {
    fn clone(&self) -> (r: Self)
        ensures
            r == *self,
    {
        PublishRuleInput {
            owner_id: self.owner_id,
            rule_name: self.rule_name.clone(),
            account_id: self.account_id.clone(),
            daily_count: self.daily_count,
            enabled: self.enabled,
            remark: self.remark.clone(),
        }
    }
}

/// Input of a new product-selection rule.
#[derive(Debug)]
pub struct ProductRuleInput {
    pub owner_id: i64,
    pub account_id: String,
    pub rule_name: String,
    pub cat: Option<String>,
    pub cat_name: Option<String>,
    pub keyword: Option<String>,
    pub sort: String,
    pub daily_count: u32,
    pub enabled: bool,
    pub remark: Option<String>,
}

impl Clone for ProductRuleInput {
    fn clone(&self) -> (r: Self)
        ensures
            r == *self,
    {
        ProductRuleInput {
            owner_id: self.owner_id,
            account_id: self.account_id.clone(),
            rule_name: self.rule_name.clone(),
            cat: self.cat.clone(),
            cat_name: self.cat_name.clone(),
            keyword: self.keyword.clone(),
            sort: self.sort.clone(),
            daily_count: self.daily_count,
            enabled: self.enabled,
            remark: self.remark.clone(),
        }
    }
}


/// The status and its flag convert both ways without loss.
pub proof fn lemma_status_roundtrip(s: RuleStatus, enabled: bool)
    ensures
        status_enabled(status_of(enabled)) == enabled,
        status_of(status_enabled(s)) == s,
{
}

} // verus!
