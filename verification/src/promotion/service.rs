//! Rule services: validation and storage of product-selection and publish
//! rules.
use vstd::prelude::*;
use crate::promotion::rule::{has_text, ProductRule, ProductRuleInput, PublishRule, PublishRuleInput, RuleStatus};
use crate::promotion::store::{AccountCheck, PublishRuleStore, RuleStore};
use crate::text::{is_blank, opt_string, owned, trim_opt, trim_seq, trimmed_opt};
use crate::OpenDeskResult;

verus! {

/// Errors of the rule services.
#[derive(Debug)]
pub enum RuleServiceError {
    /// The input was refused, with a user-facing message.
    Validation(String),
    /// The store failed, with its message.
    Store(String),
    /// No rule with this id.
    NotFound(i64),
}

/// A validation failure, for display.
#[derive(Debug, Clone)]
pub struct ValidationError {
    pub message: String,
}

/// The result failed validation with the given message.
pub open spec fn refused<T>(r: Result<T, RuleServiceError>, message: Seq<char>) -> bool {
    r matches Err(RuleServiceError::Validation(m)) && m@ == message
}

/// The store's answer, with its error as [`RuleServiceError::Store`].
pub open spec fn from_store<T>(a: OpenDeskResult<T>, r: Result<T, RuleServiceError>) -> bool {
    match a {
        Ok(v) => r == Ok::<T, RuleServiceError>(v),
        Err(e) => r matches Err(RuleServiceError::Store(m)) && m@ == e@,
    }
}

/// Maps a store error to [`RuleServiceError::Store`].
pub fn store_result<T>(a: OpenDeskResult<T>) -> (r: Result<T, RuleServiceError>)
    ensures
        from_store(a, r),
{
    match a {
        Ok(v) => Ok(v),
        Err(e) => Err(RuleServiceError::Store(e)),
    }
}

/// The message refusing a rule without category and keyword.
pub open spec fn no_source_message() -> Seq<char> {
    "商品类目和关键词至少填写一项"@
}

/// The message refusing a blank account.
pub open spec fn no_account_message() -> Seq<char> {
    "请选择闲鱼账号"@
}

/// The message refusing an unknown account.
pub open spec fn unknown_account_message() -> Seq<char> {
    "所选闲鱼账号不存在或不属于当前用户"@
}

/// The message refusing a disabled account.
pub open spec fn inactive_account_message() -> Seq<char> {
    "所选闲鱼账号未启用，请先启用账号后再保存规则"@
}

/// The message refusing a second publish rule for an account.
pub open spec fn duplicate_publish_message() -> Seq<char> {
    "同一闲鱼账号只允许创建一条发布规则，请直接编辑现有规则"@
}

/// Why a product-rule input is refused before any storage access: no
/// category and no keyword, or a blank account.
pub open spec fn product_input_refusal(input: ProductRuleInput) -> Option<Seq<char>> {
    if !has_text(input.cat) && !has_text(input.keyword) {
        Some(no_source_message())
    } else if trim_seq(input.account_id@).len() == 0 {
        Some(no_account_message())
    } else {
        None
    }
}

/// Why the account check refuses (its own error message when it failed).
pub open spec fn account_refusal(check: OpenDeskResult<AccountCheck>) -> Option<Seq<char>> {
    match check {
        Err(e) => Some(e@),
        Ok(c) => if !c.exists {
            Some(unknown_account_message())
        } else if !c.active {
            Some(inactive_account_message())
        } else {
            None
        },
    }
}

/// The given name, or `default` when it is blank.
pub open spec fn name_or(name: Seq<char>, default: Seq<char>) -> Seq<char> {
    if trim_seq(name).len() == 0 {
        default
    } else {
        name
    }
}

/// The product rule stored for an input: id 0, a default name and sort when
/// blank, trimmed category and keyword (dropped when blank), at least one
/// item per day.
pub open spec fn prepared_product_rule(input: ProductRuleInput, r: ProductRule) -> bool {
    &&& r.id == 0
    &&& r.owner_id == input.owner_id
    &&& r.account_id@ == input.account_id@
    &&& r.rule_name@ == name_or(input.rule_name@, "未命名规则"@)
    &&& opt_string(r.cat) == trimmed_opt(input.cat)
    &&& r.cat_name == input.cat_name
    &&& opt_string(r.keyword) == trimmed_opt(input.keyword)
    &&& r.sort@ == name_or(input.sort@, "default"@)
    &&& r.daily_count == if input.daily_count >= 1 { input.daily_count } else { 1 }
    &&& (r.status is Enabled <==> input.enabled)
    &&& r.remark == input.remark
}

/// The publish rule stored for an input: id 0, a default name when blank, at
/// least one item per day.
pub open spec fn prepared_publish_rule(input: PublishRuleInput, r: PublishRule) -> bool {
    &&& r.id == 0
    &&& r.owner_id == input.owner_id
    &&& r.rule_name@ == name_or(input.rule_name@, "未命名发布规则"@)
    &&& r.account_id@ == input.account_id@
    &&& r.daily_count == if input.daily_count >= 1 { input.daily_count } else { 1 }
    &&& (r.status is Enabled <==> input.enabled)
    &&& r.remark == input.remark
}

/// The outcome of a product-rule creation that passed input validation,
/// given the account check and the store's answer to the creation.
pub open spec fn product_create_outcome(
    check: OpenDeskResult<AccountCheck>,
    created: OpenDeskResult<ProductRule>,
    r: Result<ProductRule, RuleServiceError>,
) -> bool {
    match account_refusal(check) {
        Some(m) => refused(r, m),
        None => from_store(created, r),
    }
}

/// The outcome of a publish-rule creation for a non-blank account, given the
/// account check, the account's existing publish rule and the store's answer
/// to the creation.
pub open spec fn publish_create_outcome(
    check: OpenDeskResult<AccountCheck>,
    existing: OpenDeskResult<Option<PublishRule>>,
    created: OpenDeskResult<PublishRule>,
    r: Result<PublishRule, RuleServiceError>,
) -> bool {
    match check {
        Err(e) => r matches Err(RuleServiceError::Store(m)) && m@ == e@,
        Ok(c) => if !c.exists {
            refused(r, unknown_account_message())
        } else if !c.active {
            refused(r, inactive_account_message())
        } else {
            match existing {
                Err(e) => r matches Err(RuleServiceError::Store(m)) && m@ == e@,
                Ok(Some(_)) => refused(r, duplicate_publish_message()),
                Ok(None) => from_store(created, r),
            }
        },
    }
}

/// The account check found the user's account, enabled.
pub open spec fn account_usable(check: OpenDeskResult<AccountCheck>) -> bool {
    check matches Ok(c) && c.exists && c.active
}

/// The verdict on an account check.
pub fn account_verdict(check: &OpenDeskResult<AccountCheck>) -> (r: Result<(), ValidationError>)
    ensures
        match account_refusal(*check) {
            Some(m) => r matches Err(e) && e.message@ == m,
            None => r is Ok,
        },
{
    match check {
        Err(e) => Err(ValidationError { message: e.clone() }),
        Ok(c) => {
            if !c.exists {
                Err(ValidationError { message: owned("所选闲鱼账号不存在或不属于当前用户") })
            } else if !c.active {
                Err(ValidationError { message: owned("所选闲鱼账号未启用，请先启用账号后再保存规则") })
            } else {
                Ok(())
            }
        },
    }
}

/// The verdict on the account of a new publish rule: a failed check is a
/// store error, an unknown or disabled account is refused, else `None`.
pub open spec fn publish_account_refusal(check: OpenDeskResult<AccountCheck>, g: Option<RuleServiceError>) -> bool {
    match check {
        Err(e) => g matches Some(RuleServiceError::Store(m)) && m@ == e@,
        Ok(c) => if !c.exists {
            g matches Some(RuleServiceError::Validation(m)) && m@ == unknown_account_message()
        } else if !c.active {
            g matches Some(RuleServiceError::Validation(m)) && m@ == inactive_account_message()
        } else {
            g is None
        },
    }
}

/// Decides on the account of a new publish rule (see [`publish_account_refusal`]).
pub fn publish_account_gate(check: &OpenDeskResult<AccountCheck>) -> (g: Option<RuleServiceError>)
    ensures
        publish_account_refusal(*check, g),
{
    match check {
        Err(e) => Some(RuleServiceError::Store(e.clone())),
        Ok(c) => if !c.exists {
            Some(RuleServiceError::Validation(owned("所选闲鱼账号不存在或不属于当前用户")))
        } else if !c.active {
            Some(RuleServiceError::Validation(owned("所选闲鱼账号未启用，请先启用账号后再保存规则")))
        } else {
            None
        },
    }
}

/// The verdict on the account's existing publish rule: a failed lookup is a
/// store error, an existing rule is refused as a duplicate, else `None`.
pub open spec fn publish_existing_refusal(existing: OpenDeskResult<Option<PublishRule>>, g: Option<RuleServiceError>) -> bool {
    match existing {
        Err(e) => g matches Some(RuleServiceError::Store(m)) && m@ == e@,
        Ok(Some(_)) => g matches Some(RuleServiceError::Validation(m)) && m@ == duplicate_publish_message(),
        Ok(None) => g is None,
    }
}

/// Decides on the account's existing publish rule (see [`publish_existing_refusal`]).
pub fn publish_existing_gate(existing: &OpenDeskResult<Option<PublishRule>>) -> (g: Option<RuleServiceError>)
    ensures
        publish_existing_refusal(*existing, g),
{
    match existing {
        Err(e) => Some(RuleServiceError::Store(e.clone())),
        Ok(Some(_)) => Some(RuleServiceError::Validation(owned("同一闲鱼账号只允许创建一条发布规则，请直接编辑现有规则"))),
        Ok(None) => None,
    }
}

/// Product-selection rule service.
pub struct ProductRuleService<'a> {
    /// The store the service works on.
    pub store: &'a dyn RuleStore,
}

impl<'a> ProductRuleService<'a> {
    pub fn new(store: &'a dyn RuleStore) -> Self {
        Self { store }
    }

    /// Validates an input without storing it.
    pub fn validate(&self, input: &ProductRuleInput) -> (r: Result<(), ValidationError>)
        ensures
            match product_input_refusal(*input) {
                Some(m) => r matches Err(e) && e.message@ == m,
                None => r is Ok,
            },
    {
        let cat_blank = match &input.cat {
            Some(c) => is_blank(c.as_str()),
            None => true,
        };
        let keyword_blank = match &input.keyword {
            Some(k) => is_blank(k.as_str()),
            None => true,
        };
        if cat_blank && keyword_blank {
            return Err(ValidationError { message: owned("商品类目和关键词至少填写一项") });
        }
        if is_blank(input.account_id.as_str()) {
            return Err(ValidationError { message: owned("请选择闲鱼账号") });
        }
        Ok(())
    }

    /// Checks that the account belongs to the user and is enabled.
    fn validate_account(&self, owner_id: i64, account_id: &str) -> (r: Result<(), ValidationError>)
        ensures
            exists|check: OpenDeskResult<AccountCheck>|
                #![trigger self.store.account_checked(owner_id, account_id@, check)]
                self.store.account_checked(owner_id, account_id@, check) && match account_refusal(check) {
                    Some(m) => r matches Err(e) && e.message@ == m,
                    None => r is Ok,
                },
    {
        let check = self.store.check_account(owner_id, account_id);
        let r = account_verdict(&check);
        assert(match account_refusal(check) {
            Some(m) => r matches Err(e) && e.message@ == m,
            None => r is Ok,
        });
        r
    }

    /// One page of rules, as the store lists them.
    pub fn list(&self, owner_id: i64, page: u32, page_size: u32, is_admin: bool) -> (r: Result<
        (Vec<ProductRule>, u32),
        RuleServiceError,
    >)
        ensures
            exists|a: OpenDeskResult<(Vec<ProductRule>, u32)>|
                #![trigger self.store.product_rules_listed(owner_id, page, page_size, is_admin, a)]
                self.store.product_rules_listed(owner_id, page, page_size, is_admin, a) && from_store(a, r),
    {
        store_result(self.store.list_product_rules(owner_id, page, page_size, is_admin))
    }

    /// The rule stored for an input (see [`prepared_product_rule`]).
    pub fn prepare(input: &ProductRuleInput) -> (r: ProductRule)
        ensures
            prepared_product_rule(*input, r),
    {
        ProductRule {
            id: 0,
            owner_id: input.owner_id,
            account_id: input.account_id.clone(),
            rule_name: if is_blank(input.rule_name.as_str()) {
                owned("未命名规则")
            } else {
                input.rule_name.clone()
            },
            cat: trim_opt(&input.cat),
            cat_name: input.cat_name.clone(),
            keyword: trim_opt(&input.keyword),
            sort: if is_blank(input.sort.as_str()) {
                owned("default")
            } else {
                input.sort.clone()
            },
            daily_count: if input.daily_count >= 1 {
                input.daily_count
            } else {
                1
            },
            status: RuleStatus::from_bool(input.enabled),
            remark: input.remark.clone(),
        }
    }

    /// Creates a rule: the input is validated, then the account, then the
    /// prepared rule is stored.
    pub fn create(&self, input: &ProductRuleInput) -> (r: Result<ProductRule, RuleServiceError>)
        ensures
            match product_input_refusal(*input) {
                Some(m) => refused(r, m),
                None => exists|check: OpenDeskResult<AccountCheck>, created: OpenDeskResult<ProductRule>|
                    #![trigger product_create_outcome(check, created, r)]
                    self.store.account_checked(input.owner_id, input.account_id@, check) && product_create_outcome(
                        check,
                        created,
                        r,
                    ) && (account_refusal(check) is None ==> exists|rule: ProductRule|
                        #![trigger self.store.product_rule_created(rule, created)]
                        prepared_product_rule(*input, rule) && self.store.product_rule_created(rule, created)),
            },
    {
        match self.validate(input) {
            Err(e) => return Err(RuleServiceError::Validation(e.message)),
            Ok(()) => {},
        }
        let check = self.store.check_account(input.owner_id, input.account_id.as_str());
        match account_verdict(&check) {
            Err(e) => {
                let r = Err(RuleServiceError::Validation(e.message));
                assert(product_create_outcome(check, arbitrary(), r));
                return r;
            },
            Ok(()) => {},
        }
        let rule = Self::prepare(input);
        let created = self.store.create_product_rule(&rule);
        let r = store_result(created);
        assert(product_create_outcome(check, created, r));
        r
    }

    /// Updates a rule; one without category and keyword is refused, else the
    /// store's answer is returned.
    pub fn update(&self, rule: &ProductRule) -> (r: Result<(), RuleServiceError>)
        ensures
            !rule.has_source_spec() ==> refused(r, no_source_message()),
            rule.has_source_spec() ==> exists|a: OpenDeskResult<()>|
                #![trigger self.store.product_rule_updated(*rule, a)]
                self.store.product_rule_updated(*rule, a) && from_store(a, r),
    {
        if !rule.has_source() {
            return Err(RuleServiceError::Validation(owned("商品类目和关键词至少填写一项")));
        }
        store_result(self.store.update_product_rule(rule))
    }

    /// Deletes a rule.
    pub fn delete(&self, rule_id: i64) -> (r: Result<(), RuleServiceError>)
        ensures
            exists|a: OpenDeskResult<()>|
                #![trigger self.store.product_rule_deleted(rule_id, a)]
                self.store.product_rule_deleted(rule_id, a) && from_store(a, r),
    {
        store_result(self.store.delete_product_rule(rule_id))
    }

    /// Enables or disables a rule.
    pub fn toggle(&self, rule_id: i64, enabled: bool) -> (r: Result<(), RuleServiceError>)
        ensures
            exists|a: OpenDeskResult<()>|
                #![trigger self.store.product_rule_toggled(rule_id, enabled, a)]
                self.store.product_rule_toggled(rule_id, enabled, a) && from_store(a, r),
    {
        store_result(self.store.toggle_product_rule(rule_id, enabled))
    }
}

/// Publish rule service.
pub struct PublishRuleService<'a> {
    /// The store the service works on.
    pub store: &'a dyn PublishRuleStore,
    /// Account checks go through the product-rule store (same account table).
    pub account_store: &'a dyn RuleStore,
}

impl<'a> PublishRuleService<'a> {
    pub fn new(store: &'a dyn PublishRuleStore, account_store: &'a dyn RuleStore) -> Self {
        Self { store, account_store }
    }

    /// One page of publish rules, as the store lists them.
    pub fn list(&self, owner_id: i64, page: u32, page_size: u32, is_admin: bool) -> (r: Result<
        (Vec<PublishRule>, u32),
        RuleServiceError,
    >)
        ensures
            exists|a: OpenDeskResult<(Vec<PublishRule>, u32)>|
                #![trigger self.store.publish_rules_listed(owner_id, page, page_size, is_admin, a)]
                self.store.publish_rules_listed(owner_id, page, page_size, is_admin, a) && from_store(a, r),
    {
        store_result(self.store.list_publish_rules(owner_id, page, page_size, is_admin))
    }

    /// The publish rule stored for an input (see [`prepared_publish_rule`]).
    pub fn prepare(input: &PublishRuleInput) -> (r: PublishRule)
        ensures
            prepared_publish_rule(*input, r),
    {
        PublishRule {
            id: 0,
            owner_id: input.owner_id,
            rule_name: if is_blank(input.rule_name.as_str()) {
                owned("未命名发布规则")
            } else {
                input.rule_name.clone()
            },
            account_id: input.account_id.clone(),
            daily_count: if input.daily_count >= 1 {
                input.daily_count
            } else {
                1
            },
            status: RuleStatus::from_bool(input.enabled),
            remark: input.remark.clone(),
        }
    }

    /// Creates a publish rule: the account must be given, belong to the user
    /// and be enabled, and carry no publish rule yet.
    pub fn create(&self, input: &PublishRuleInput) -> (r: Result<PublishRule, RuleServiceError>)
        ensures
            trim_seq(input.account_id@).len() == 0 ==> refused(r, no_account_message()),
            trim_seq(input.account_id@).len() > 0 ==> exists|
                check: OpenDeskResult<AccountCheck>,
                existing: OpenDeskResult<Option<PublishRule>>,
                created: OpenDeskResult<PublishRule>,
            |
                #![trigger publish_create_outcome(check, existing, created, r)]
                self.account_store.account_checked(input.owner_id, input.account_id@, check) && (account_usable(check)
                    ==> self.store.publish_rule_of_account(input.owner_id, input.account_id@, existing))
                    && publish_create_outcome(check, existing, created, r) && (account_usable(check) && existing
                    == Ok::<Option<PublishRule>, String>(None) ==> exists|rule: PublishRule|
                    #![trigger self.store.publish_rule_created(rule, created)]
                    prepared_publish_rule(*input, rule) && self.store.publish_rule_created(rule, created)),
    {
        if is_blank(input.account_id.as_str()) {
            return Err(RuleServiceError::Validation(owned("请选择闲鱼账号")));
        }
        let check = self.account_store.check_account(input.owner_id, input.account_id.as_str());
        match publish_account_gate(&check) {
            Some(e) => {
                let r = Err(e);
                assert(publish_create_outcome(check, Ok(None), arbitrary(), r));
                return r;
            },
            None => {},
        }
        let existing = self.store.get_publish_rule_by_account(input.owner_id, input.account_id.as_str());
        match publish_existing_gate(&existing) {
            Some(e) => {
                let r = Err(e);
                assert(publish_create_outcome(check, existing, arbitrary(), r));
                return r;
            },
            None => {},
        }
        let rule = Self::prepare(input);
        let created = self.store.create_publish_rule(&rule);
        let r = store_result(created);
        assert(publish_create_outcome(check, existing, created, r));
        r
    }

    /// Updates a publish rule.
    pub fn update(&self, rule: &PublishRule) -> (r: Result<(), RuleServiceError>)
        ensures
            exists|a: OpenDeskResult<()>|
                #![trigger self.store.publish_rule_updated(*rule, a)]
                self.store.publish_rule_updated(*rule, a) && from_store(a, r),
    {
        store_result(self.store.update_publish_rule(rule))
    }

    /// Deletes a publish rule.
    pub fn delete(&self, rule_id: i64) -> (r: Result<(), RuleServiceError>)
        ensures
            exists|a: OpenDeskResult<()>|
                #![trigger self.store.publish_rule_deleted(rule_id, a)]
                self.store.publish_rule_deleted(rule_id, a) && from_store(a, r),
    {
        store_result(self.store.delete_publish_rule(rule_id))
    }

    /// Enables or disables a publish rule.
    pub fn toggle(&self, rule_id: i64, enabled: bool) -> (r: Result<(), RuleServiceError>)
        ensures
            exists|a: OpenDeskResult<()>|
                #![trigger self.store.publish_rule_toggled(rule_id, enabled, a)]
                self.store.publish_rule_toggled(rule_id, enabled, a) && from_store(a, r),
    {
        store_result(self.store.toggle_publish_rule(rule_id, enabled))
    }
}


/// A product rule created from an input that passes validation has a
/// category or a keyword, so updating it unchanged is accepted; it selects
/// at least one item a day and has a name.
pub proof fn lemma_created_rule_passes_update(input: ProductRuleInput, r: ProductRule)
    requires
        product_input_refusal(input) is None,
        prepared_product_rule(input, r),
    ensures
        r.has_source_spec(),
        r.daily_count >= 1,
        r.rule_name@.len() > 0,
{
    match input.cat {
        Some(c) => crate::text::lemma_trim_idempotent(c@),
        None => {},
    }
    match input.keyword {
        Some(k) => crate::text::lemma_trim_idempotent(k@),
        None => {},
    }
    reveal_strlit("未命名规则");
}

} // verus!
