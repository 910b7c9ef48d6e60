//! Storage and service of message filter rules.
use vstd::prelude::*;
use crate::auto_reply::filter::FilterRule;
use crate::text::{is_blank, owned, str_is_empty, trim_seq, trim_str};
use crate::DingDaResult;

verus! {

/// Storage of filter rules, implemented by the application. Each `closed
/// spec fn` below names the answers the store may give to one of its calls
/// (unconstrained unless an implementation says otherwise).
pub trait FilterStore {
    /// `r` is an answer to listing the user's rules for the account.
    closed spec fn filters_listed(&self, owner_id: i64, account: Seq<char>, r: DingDaResult<Vec<FilterRule>>) -> bool {
        true
    }

    /// `r` is an answer to storing `rule`.
    closed spec fn filter_created(&self, rule: FilterRule, r: DingDaResult<FilterRule>) -> bool {
        true
    }

    /// `r` is an answer to updating the user's rule to `rule`.
    closed spec fn filter_updated(&self, owner_id: i64, rule: FilterRule, r: DingDaResult<()>) -> bool {
        true
    }

    /// `r` is an answer to deleting the user's rule `rule_id`.
    closed spec fn filter_deleted(&self, owner_id: i64, rule_id: i64, r: DingDaResult<()>) -> bool {
        true
    }

    /// `r` is an answer to enabling (or disabling) the user's rule `rule_id`.
    closed spec fn filter_enabled_set(&self, owner_id: i64, rule_id: i64, enabled: bool, r: DingDaResult<()>) -> bool {
        true
    }

    /// The account's filter rules.
    fn list_filters(&self, owner_id: i64, account_id: &str) -> (r: DingDaResult<Vec<FilterRule>>)
        ensures
            self.filters_listed(owner_id, account_id@, r);

    /// Stores a new rule and returns it as stored.
    fn create_filter(&self, rule: &FilterRule) -> (r: DingDaResult<FilterRule>)
        ensures
            self.filter_created(*rule, r);

    /// Updates the user's rule.
    fn update_filter(&self, owner_id: i64, rule: &FilterRule) -> (r: DingDaResult<()>)
        ensures
            self.filter_updated(owner_id, *rule, r);

    /// Deletes the user's rule.
    fn delete_filter(&self, owner_id: i64, rule_id: i64) -> (r: DingDaResult<()>)
        ensures
            self.filter_deleted(owner_id, rule_id, r);

    /// Enables or disables the user's rule.
    fn set_enabled(&self, owner_id: i64, rule_id: i64, enabled: bool) -> (r: DingDaResult<()>)
        ensures
            self.filter_enabled_set(owner_id, rule_id, enabled, r);
}

/// The message refusing a blank filter keyword.
pub open spec fn empty_filter_keyword() -> Seq<char> {
    "过滤关键词不能为空"@
}

/// Filter rule service.
pub struct FilterService<'a> {
    /// The store the service works on.
    pub store: &'a dyn FilterStore,
}

impl<'a> FilterService<'a> {
    pub fn new(store: &'a dyn FilterStore) -> Self {
        Self { store }
    }

    /// The account's rules, as the store lists them.
    pub fn list(&self, owner_id: i64, account_id: &str) -> (r: DingDaResult<Vec<FilterRule>>)
        ensures
            self.store.filters_listed(owner_id, account_id@, r),
    {
        self.store.list_filters(owner_id, account_id)
    }

    /// Creates a rule for the user and account with a trimmed keyword; a
    /// blank keyword is refused, else the store's answer to storing the rule
    /// with the user, the account and the trimmed keyword is returned.
    pub fn create(&self, owner_id: i64, account_id: &str, rule: FilterRule) -> (r: DingDaResult<FilterRule>)
        ensures
            trim_seq(rule.keyword@).len() == 0 ==> (r matches Err(e) && e@ == empty_filter_keyword()),
            trim_seq(rule.keyword@).len() > 0 ==> exists|stored: FilterRule|
                #![trigger self.store.filter_created(stored, r)]
                stored.id == rule.id && stored.owner_id == owner_id && stored.account_id@ == account_id@
                    && stored.filter_type == rule.filter_type && stored.keyword@ == trim_seq(rule.keyword@)
                    && stored.enabled == rule.enabled && self.store.filter_created(stored, r),
    {
        let mut rule = rule;
        rule.owner_id = owner_id;
        rule.account_id = owned(account_id);
        rule.keyword = trim_str(rule.keyword.as_str());
        if str_is_empty(rule.keyword.as_str()) {
            return Err(owned("过滤关键词不能为空"));
        }
        self.store.create_filter(&rule)
    }

    /// Updates the user's rule; a blank keyword is refused, else the store's
    /// answer is returned.
    pub fn update(&self, owner_id: i64, rule: &FilterRule) -> (r: DingDaResult<()>)
        ensures
            trim_seq(rule.keyword@).len() == 0 ==> (r matches Err(e) && e@ == empty_filter_keyword()),
            trim_seq(rule.keyword@).len() > 0 ==> self.store.filter_updated(owner_id, *rule, r),
    {
        if is_blank(rule.keyword.as_str()) {
            return Err(owned("过滤关键词不能为空"));
        }
        self.store.update_filter(owner_id, rule)
    }

    /// Deletes the user's rule.
    pub fn delete(&self, owner_id: i64, rule_id: i64) -> (r: DingDaResult<()>)
        ensures
            self.store.filter_deleted(owner_id, rule_id, r),
    {
        self.store.delete_filter(owner_id, rule_id)
    }

    /// Enables or disables the user's rule.
    pub fn set_enabled(&self, owner_id: i64, rule_id: i64, enabled: bool) -> (r: DingDaResult<()>)
        ensures
            self.store.filter_enabled_set(owner_id, rule_id, enabled, r),
    {
        self.store.set_enabled(owner_id, rule_id, enabled)
    }
}

} // verus!
