//! Storage ports of the rule services, implemented by the application.
use vstd::prelude::*;
use crate::promotion::rule::{ProductRule, PublishRule};
use crate::OpenDeskResult;

verus! {

/// Outcome of an account check.
#[derive(Debug, Clone, Copy)]
pub struct AccountCheck {
    /// The account exists and belongs to the user.
    pub exists: bool,
    /// The account is enabled.
    pub active: bool,
}

/// Storage of product-selection rules. Each `closed spec fn` below names the
/// answers the store may give to one of its calls (unconstrained unless an
/// implementation says otherwise).
pub trait RuleStore {
    /// `r` is an answer to listing a page of rules.
    closed spec fn product_rules_listed(
        &self,
        owner_id: i64,
        page: u32,
        page_size: u32,
        is_admin: bool,
        r: OpenDeskResult<(Vec<ProductRule>, u32)>,
    ) -> bool {
        true
    }

    /// `r` is an answer to storing the new rule `rule`.
    closed spec fn product_rule_created(&self, rule: ProductRule, r: OpenDeskResult<ProductRule>) -> bool {
        true
    }

    /// `r` is an answer to updating a rule to `rule`.
    closed spec fn product_rule_updated(&self, rule: ProductRule, r: OpenDeskResult<()>) -> bool {
        true
    }

    /// `r` is an answer to deleting the rule `rule_id`.
    closed spec fn product_rule_deleted(&self, rule_id: i64, r: OpenDeskResult<()>) -> bool {
        true
    }

    /// `r` is an answer to enabling (or disabling) the rule `rule_id`.
    closed spec fn product_rule_toggled(&self, rule_id: i64, enabled: bool, r: OpenDeskResult<()>) -> bool {
        true
    }

    /// `r` is an answer to looking up the rule `rule_id`.
    closed spec fn product_rule_got(&self, rule_id: i64, r: OpenDeskResult<Option<ProductRule>>) -> bool {
        true
    }

    /// `r` is an answer to checking the user's account.
    closed spec fn account_checked(&self, owner_id: i64, account: Seq<char>, r: OpenDeskResult<AccountCheck>) -> bool {
        true
    }

    /// One page of the user's rules (administrators see every owner's).
    fn list_product_rules(
        &self,
        owner_id: i64,
        page: u32,
        page_size: u32,
        is_admin: bool,
    ) -> (r: OpenDeskResult<(Vec<ProductRule>, u32)>)
        ensures
            self.product_rules_listed(owner_id, page, page_size, is_admin, r);

    /// Stores a new rule and returns it as stored.
    fn create_product_rule(&self, rule: &ProductRule) -> (r: OpenDeskResult<ProductRule>)
        ensures
            self.product_rule_created(*rule, r);

    /// Updates a rule.
    fn update_product_rule(&self, rule: &ProductRule) -> (r: OpenDeskResult<()>)
        ensures
            self.product_rule_updated(*rule, r);

    /// Deletes a rule.
    fn delete_product_rule(&self, rule_id: i64) -> (r: OpenDeskResult<()>)
        ensures
            self.product_rule_deleted(rule_id, r);

    /// Enables or disables a rule.
    fn toggle_product_rule(&self, rule_id: i64, enabled: bool) -> (r: OpenDeskResult<()>)
        ensures
            self.product_rule_toggled(rule_id, enabled, r);

    /// The rule with the given id.
    fn get_product_rule(&self, rule_id: i64) -> (r: OpenDeskResult<Option<ProductRule>>)
        ensures
            self.product_rule_got(rule_id, r);

    /// Ownership and state of the account.
    fn check_account(&self, owner_id: i64, account_id: &str) -> (r: OpenDeskResult<AccountCheck>)
        ensures
            self.account_checked(owner_id, account_id@, r);
}

/// Storage of publish rules. Each `closed spec fn` below names the answers
/// the store may give to one of its calls (unconstrained unless an
/// implementation says otherwise).
pub trait PublishRuleStore {
    /// `r` is an answer to listing a page of publish rules.
    closed spec fn publish_rules_listed(
        &self,
        owner_id: i64,
        page: u32,
        page_size: u32,
        is_admin: bool,
        r: OpenDeskResult<(Vec<PublishRule>, u32)>,
    ) -> bool {
        true
    }

    /// `r` is an answer to looking up the user's publish rule of the account.
    closed spec fn publish_rule_of_account(&self, owner_id: i64, account: Seq<char>, r: OpenDeskResult<Option<PublishRule>>) -> bool {
        true
    }

    /// `r` is an answer to storing the new publish rule `rule`.
    closed spec fn publish_rule_created(&self, rule: PublishRule, r: OpenDeskResult<PublishRule>) -> bool {
        true
    }

    /// `r` is an answer to updating a publish rule to `rule`.
    closed spec fn publish_rule_updated(&self, rule: PublishRule, r: OpenDeskResult<()>) -> bool {
        true
    }

    /// `r` is an answer to deleting the publish rule `rule_id`.
    closed spec fn publish_rule_deleted(&self, rule_id: i64, r: OpenDeskResult<()>) -> bool {
        true
    }

    /// `r` is an answer to enabling (or disabling) the publish rule `rule_id`.
    closed spec fn publish_rule_toggled(&self, rule_id: i64, enabled: bool, r: OpenDeskResult<()>) -> bool {
        true
    }

    /// One page of the user's publish rules.
    fn list_publish_rules(
        &self,
        owner_id: i64,
        page: u32,
        page_size: u32,
        is_admin: bool,
    ) -> (r: OpenDeskResult<(Vec<PublishRule>, u32)>)
        ensures
            self.publish_rules_listed(owner_id, page, page_size, is_admin, r);

    /// The user's publish rule of the account, if any.
    fn get_publish_rule_by_account(
        &self,
        owner_id: i64,
        account_id: &str,
    ) -> (r: OpenDeskResult<Option<PublishRule>>)
        ensures
            self.publish_rule_of_account(owner_id, account_id@, r);

    /// Stores a new publish rule and returns it as stored.
    fn create_publish_rule(&self, rule: &PublishRule) -> (r: OpenDeskResult<PublishRule>)
        ensures
            self.publish_rule_created(*rule, r);

    /// Updates a publish rule.
    fn update_publish_rule(&self, rule: &PublishRule) -> (r: OpenDeskResult<()>)
        ensures
            self.publish_rule_updated(*rule, r);

    /// Deletes a publish rule.
    fn delete_publish_rule(&self, rule_id: i64) -> (r: OpenDeskResult<()>)
        ensures
            self.publish_rule_deleted(rule_id, r);

    /// Enables or disables a publish rule.
    fn toggle_publish_rule(&self, rule_id: i64, enabled: bool) -> (r: OpenDeskResult<()>)
        ensures
            self.publish_rule_toggled(rule_id, enabled, r);
}

} // verus!
