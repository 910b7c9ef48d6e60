//! Storage and service of keyword rules: per-account listing, whole-table
//! replacement, duplicate-checked addition and deletion.
use vstd::prelude::*;
use crate::auto_reply::keyword::KeywordRule;
use crate::text::{opt_string, owned, str_eq, str_is_empty, trim_seq, trim_str};
use crate::DingDaResult;

verus! {

/// Storage of keyword rules, implemented by the application.
pub trait KeywordStore {
    /// `r` is an answer this store gives when asked for the account's rules
    /// (unconstrained unless the store says otherwise).
    closed spec fn listing(&self, account: Seq<char>, r: DingDaResult<Vec<KeywordRule>>) -> bool {
        true
    }

    /// The account's rules.
    fn list_keywords(&self, account_id: &str) -> (r: DingDaResult<Vec<KeywordRule>>)
        ensures
            self.listing(account_id@, r);

    /// `r` is an answer this store gives when told to replace the account's
    /// rules by `rules` (unconstrained unless the store says otherwise).
    closed spec fn replaced(&self, account: Seq<char>, rules: Seq<KeywordRule>, r: DingDaResult<()>) -> bool {
        true
    }

    /// `r` is an answer this store gives when told to store `rule`.
    closed spec fn added(&self, rule: KeywordRule, r: DingDaResult<KeywordRule>) -> bool {
        true
    }

    /// `r` is an answer this store gives when told to delete the rule `rule_id`.
    closed spec fn deleted(&self, rule_id: i64, r: DingDaResult<()>) -> bool {
        true
    }

    /// Replaces all of the account's rules.
    fn replace_keywords(&self, account_id: &str, rules: &[KeywordRule]) -> (r: DingDaResult<()>)
        ensures
            self.replaced(account_id@, rules@, r);

    /// Stores a new rule and returns it with its id.
    fn add_keyword(&self, rule: &KeywordRule) -> (r: DingDaResult<KeywordRule>)
        ensures
            self.added(*rule, r);

    /// Deletes a rule.
    fn delete_keyword(&self, rule_id: i64) -> (r: DingDaResult<()>)
        ensures
            self.deleted(rule_id, r);
}

/// Some rule has the keyword and the item id.
pub open spec fn has_rule(existing: Seq<KeywordRule>, keyword: Seq<char>, item_id: Seq<char>) -> bool {
    exists|j: int| 0 <= j < existing.len() && (#[trigger] existing[j]).keyword@ == keyword && existing[j].item_id@ == item_id
}

/// The outcome of adding a rule with the (trimmed, non-blank) keyword and
/// item id, given the account's listing: a failed listing is returned, a
/// duplicate keyword for the same item is refused, else the store decides.
pub open spec fn add_outcome(
    existing: DingDaResult<Vec<KeywordRule>>,
    keyword: Seq<char>,
    item_id: Seq<char>,
    r: DingDaResult<KeywordRule>,
) -> bool {
    match existing {
        Err(e) => r == Err::<KeywordRule, String>(e),
        Ok(v) => has_rule(v@, keyword, item_id) ==> (r matches Err(m) && m@ == "该关键词已存在（相同商品）"@),
    }
}

/// Whether some rule has the keyword and the item id.
pub fn contains_rule(existing: &Vec<KeywordRule>, keyword: &str, item_id: &str) -> (b: bool)
    ensures
        b == has_rule(existing@, keyword@, item_id@),
{
    let mut k: usize = 0;
    while k < existing.len()
        invariant
            k <= existing.len(),
            forall|j: int| 0 <= j < k ==> !((#[trigger] existing@[j]).keyword@ == keyword@ && existing@[j].item_id@ == item_id@),
        decreases existing.len() - k,
    {
        if str_eq(existing[k].keyword.as_str(), keyword) && str_eq(existing[k].item_id.as_str(), item_id) {
            return true;
        }
        k = k + 1;
    }
    false
}

/// The verdict on adding the keyword and item id given the account's
/// listing: the listing's failure, the duplicate refusal when some rule has
/// both, else `None` (the rule may be stored).
pub open spec fn add_refusal(existing: DingDaResult<Vec<KeywordRule>>, keyword: Seq<char>, item_id: Seq<char>) -> Option<
    Seq<char>,
> {
    match existing {
        Err(e) => Some(e@),
        Ok(v) => if has_rule(v@, keyword, item_id) {
            Some("该关键词已存在（相同商品）"@)
        } else {
            None
        },
    }
}

/// Decides an addition on the account's listing (see [`add_refusal`]).
pub fn add_gate(existing: &DingDaResult<Vec<KeywordRule>>, keyword: &str, item_id: &str) -> (r: Option<String>)
    ensures
        opt_string(r) == add_refusal(*existing, keyword@, item_id@),
        *existing matches Err(e) ==> r == Some(e),
{
    match existing {
        Err(e) => Some(e.clone()),
        Ok(v) => if contains_rule(v, keyword, item_id) {
            Some(owned("该关键词已存在（相同商品）"))
        } else {
            None
        },
    }
}

/// The rule stored for an addition: the account set, the keyword trimmed,
/// the other fields as given.
pub open spec fn prepared_keyword_rule(account_id: Seq<char>, rule: KeywordRule, r: KeywordRule) -> bool {
    &&& r.id == rule.id
    &&& r.account_id@ == account_id
    &&& r.keyword@ == trim_seq(rule.keyword@)
    &&& r.reply == rule.reply
    &&& r.item_id == rule.item_id
    &&& r.rule_type == rule.rule_type
    &&& r.image_url == rule.image_url
    &&& r.item_title == rule.item_title
}

/// The rule stored for an addition (see [`prepared_keyword_rule`]).
pub fn prepare_keyword_rule(account_id: &str, rule: KeywordRule) -> (r: KeywordRule)
    ensures
        prepared_keyword_rule(account_id@, rule, r),
{
    let mut rule = rule;
    rule.account_id = owned(account_id);
    rule.keyword = trim_str(rule.keyword.as_str());
    rule
}

/// Keyword rule service.
pub struct KeywordService<'a> {
    /// The store the service works on.
    pub store: &'a dyn KeywordStore,
}

impl<'a> KeywordService<'a> {

    pub fn new(store: &'a dyn KeywordStore) -> Self {
        Self { store }
    }

    /// The account's rules, as the store lists them.
    pub fn list(&self, account_id: &str) -> (r: DingDaResult<Vec<KeywordRule>>)
        ensures
            self.store.listing(account_id@, r),
    {
        self.store.list_keywords(account_id)
    }

    /// Replaces all of the account's rules by `rules`.
    pub fn replace(&self, account_id: &str, rules: &[KeywordRule]) -> (r: DingDaResult<()>)
        ensures
            self.store.replaced(account_id@, rules@, r),
    {
        self.store.replace_keywords(account_id, rules)
    }

    /// Adds a rule for the account with a trimmed keyword: a blank keyword,
    /// or one the account already has for the same item, is refused.
    pub fn add(&self, account_id: &str, rule: KeywordRule) -> (r: DingDaResult<KeywordRule>)
        ensures
            trim_seq(rule.keyword@).len() == 0 ==> (r matches Err(e) && e@ == "关键词不能为空"@),
            trim_seq(rule.keyword@).len() > 0 ==> exists|existing: DingDaResult<Vec<KeywordRule>>|
                self.store.listing(account_id@, existing) && #[trigger] add_outcome(
                    existing,
                    trim_seq(rule.keyword@),
                    rule.item_id@,
                    r,
                ),
            trim_seq(rule.keyword@).len() > 0 ==> exists|existing: DingDaResult<Vec<KeywordRule>>|
                #![trigger self.store.listing(account_id@, existing)]
                self.store.listing(account_id@, existing) && (add_refusal(
                    existing,
                    trim_seq(rule.keyword@),
                    rule.item_id@,
                ) is None ==> exists|stored: KeywordRule|
                    prepared_keyword_rule(account_id@, rule, stored) && #[trigger] self.store.added(stored, r)),
    {
        let ghost item_id = rule.item_id@;
        let ghost original = rule;
        let rule = prepare_keyword_rule(account_id, rule);
        if str_is_empty(rule.keyword.as_str()) {
            return Err(owned("关键词不能为空"));
        }
        let existing = self.store.list_keywords(account_id);
        let r = match add_gate(&existing, rule.keyword.as_str(), rule.item_id.as_str()) {
            Some(e) => Err(e),
            None => self.store.add_keyword(&rule),
        };
        assert(add_outcome(existing, rule.keyword@, item_id, r));
        assert(add_refusal(existing, rule.keyword@, item_id) is None ==> self.store.added(rule, r));
        assert(prepared_keyword_rule(account_id@, original, rule));
        r
    }

    /// Deletes the rule `rule_id`.
    pub fn delete(&self, rule_id: i64) -> (r: DingDaResult<()>)
        ensures
            self.store.deleted(rule_id, r),
    {
        self.store.delete_keyword(rule_id)
    }
}

/// A keyword the account already has for the same item is refused: when the
/// store's only answer to listing the account's rules holds a rule with the
/// (trimmed) keyword and item id, every outcome `KeywordService::add` may
/// give is the duplicate refusal, and nothing is stored.
pub proof fn lemma_duplicate_keyword_refused(
    store: &dyn KeywordStore,
    account: Seq<char>,
    rules: Seq<KeywordRule>,
    keyword: Seq<char>,
    item_id: Seq<char>,
    existing: DingDaResult<Vec<KeywordRule>>,
    r: DingDaResult<KeywordRule>,
)
    requires
        forall|b: DingDaResult<Vec<KeywordRule>>| #[trigger]
            store.listing(account, b) ==> (b matches Ok(v) && v@ == rules),
        has_rule(rules, keyword, item_id),
        store.listing(account, existing),
        add_outcome(existing, keyword, item_id, r),
    ensures
        r matches Err(m) && m@ == "该关键词已存在（相同商品）"@,
{
}

/// A keyword the account does not have yet for the item is not refused: when
/// every listing the store may give for the account holds no rule with the
/// trimmed keyword and item id, the outcome of `KeywordService::add` is the
/// store's answer to storing the rule with the account set and the keyword
/// trimmed.
pub proof fn lemma_fresh_keyword_stored(
    store: &dyn KeywordStore,
    account: Seq<char>,
    rule: KeywordRule,
    existing: DingDaResult<Vec<KeywordRule>>,
    r: DingDaResult<KeywordRule>,
)
    requires
        forall|b: DingDaResult<Vec<KeywordRule>>| #[trigger]
            store.listing(account, b) ==> (b matches Ok(v) && !has_rule(v@, trim_seq(rule.keyword@), rule.item_id@)),
        store.listing(account, existing),
        add_refusal(existing, trim_seq(rule.keyword@), rule.item_id@) is None ==> exists|stored: KeywordRule|
            prepared_keyword_rule(account, rule, stored) && #[trigger] store.added(stored, r),
    ensures
        exists|stored: KeywordRule| prepared_keyword_rule(account, rule, stored) && #[trigger] store.added(stored, r),
{
}

} // verus!
