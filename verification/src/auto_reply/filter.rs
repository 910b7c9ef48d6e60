//! Message filters: a keyword hit skips the reply or the notification.
use vstd::prelude::*;
use crate::text::{chars_of, contains_chars, seq_contains, str_eq};

verus! {

/// What a filter rule suppresses.
#[derive(Debug, Clone, Copy, PartialEq, Eq, Structural)]
pub enum FilterType {
    /// A hit skips the automatic reply.
    SkipReply,
    /// A hit skips the message notification.
    SkipNotify,
}

/// The wire name of a filter type.
pub open spec fn filter_type_name(t: FilterType) -> Seq<char> {
    match t {
        FilterType::SkipReply => "skip_reply"@,
        FilterType::SkipNotify => "skip_notify"@,
    }
}

/// The filter type of a wire name; anything but `skip_notify` is `SkipReply`.
pub open spec fn filter_type_of(value: Seq<char>) -> FilterType {
    if value == "skip_notify"@ {
        FilterType::SkipNotify
    } else {
        FilterType::SkipReply
    }
}

impl FilterType {
    /// The wire name (`skip_reply` / `skip_notify`).
    pub fn as_str(&self) -> (s: &'static str)
        ensures
            s@ == filter_type_name(*self),
    {
        match self {
            FilterType::SkipReply => "skip_reply",
            FilterType::SkipNotify => "skip_notify",
        }
    }

    /// Parses a wire name; anything but `skip_notify` is `SkipReply`.
    #[allow(clippy::should_implement_trait)]
    pub fn from_str(value: &str) -> (t: Self)
        ensures
            t == filter_type_of(value@),
    {
        if str_eq(value, "skip_notify") {
            FilterType::SkipNotify
        } else {
            FilterType::SkipReply
        }
    }
}

/// One filter rule.
#[derive(Debug)]
pub struct FilterRule {
    pub id: i64,
    pub account_id: String,
    pub owner_id: i64,
    pub filter_type: FilterType,
    pub keyword: String,
    pub enabled: bool,
}

impl Clone for FilterRule {
    fn clone(&self) -> (r: Self)
        ensures
            r == *self,
    {
        FilterRule {
            id: self.id,
            account_id: self.account_id.clone(),
            owner_id: self.owner_id,
            filter_type: self.filter_type,
            keyword: self.keyword.clone(),
            enabled: self.enabled,
        }
    }
}

/// `enabled` when a stored rule does not say otherwise.
pub fn default_enabled() -> (b: bool)
    ensures
        b,
{
    true
}

/// Some rule of type `t` has a keyword that occurs in `message`.
/// (Matching looks at every rule of the type, enabled or not.)
pub open spec fn filter_hit(rules: Seq<FilterRule>, message: Seq<char>, t: FilterType) -> bool {
    exists|i: int|
        0 <= i < rules.len() && (#[trigger] rules[i]).filter_type == t && seq_contains(
            message,
            rules[i].keyword@,
        )
}

/// A rule set deciding whether to skip a reply or a notification.
pub struct KeywordFilter {
    rules: Vec<FilterRule>,
}

impl KeywordFilter {
    /// The rules, in order.
    pub closed spec fn rules(&self) -> Seq<FilterRule> {
        self.rules@
    }

    /// A filter over the given rules.
    pub fn new(rules: Vec<FilterRule>) -> (f: Self)
        ensures
            f.rules() == rules@,
    {
        KeywordFilter { rules }
    }

    /// Whether some rule of the given type hits the message.
    pub fn matches(&self, message: &str, filter_type: FilterType) -> (b: bool)
        ensures
            b == filter_hit(self.rules(), message@, filter_type),
    {
        let msg = chars_of(message);
        let mut i: usize = 0;
        while i < self.rules.len()
            invariant
                i <= self.rules.len(),
                msg@ == message@,
                forall|j: int|
                    0 <= j < i ==> !((#[trigger] self.rules@[j]).filter_type == filter_type
                        && seq_contains(message@, self.rules@[j].keyword@)),
            decreases self.rules.len() - i,
        {
            let rule = &self.rules[i];
            if rule.filter_type == filter_type {
                let kw = chars_of(rule.keyword.as_str());
                if contains_chars(&msg, &kw) {
                    return true;
                }
            }
            i = i + 1;
        }
        false
    }

    /// Whether the automatic reply is skipped for the message.
    pub fn skip_reply(&self, message: &str) -> (b: bool)
        ensures
            b == filter_hit(self.rules(), message@, FilterType::SkipReply),
    {
        self.matches(message, FilterType::SkipReply)
    }

    /// Whether the notification is skipped for the message.
    pub fn skip_notify(&self, message: &str) -> (b: bool)
        ensures
            b == filter_hit(self.rules(), message@, FilterType::SkipNotify),
    {
        self.matches(message, FilterType::SkipNotify)
    }
}

impl Default for KeywordFilter {
    fn default() -> (f: Self)
        ensures
            f.rules().len() == 0,
    {
        KeywordFilter::new(Vec::new())
    }
}


/// Rules of one type do not affect the matching of another type: adding
/// rules of other types leaves the hits of type `t` unchanged (so skipping a
/// reply and skipping a notification are decided independently).
pub proof fn lemma_filter_types_independent(
    rules: Seq<FilterRule>,
    extra: Seq<FilterRule>,
    message: Seq<char>,
    t: FilterType,
)
    requires
        forall|i: int| 0 <= i < extra.len() ==> (#[trigger] extra[i]).filter_type != t,
    ensures
        filter_hit(rules + extra, message, t) == filter_hit(rules, message, t),
{
    let all = rules + extra;
    if filter_hit(all, message, t) {
        let i = choose|i: int|
            0 <= i < all.len() && (#[trigger] all[i]).filter_type == t && seq_contains(message, all[i].keyword@);
        if i >= rules.len() {
            assert(extra[i - rules.len()] == all[i]);
        } else {
            assert(rules[i] == all[i]);
        }
    }
    if filter_hit(rules, message, t) {
        let i = choose|i: int|
            0 <= i < rules.len() && (#[trigger] rules[i]).filter_type == t && seq_contains(message, rules[i].keyword@);
        assert(all[i] == rules[i]);
    }
}


/// Parsing a filter type's wire name gives the type back.
pub proof fn lemma_filter_type_roundtrip(t: FilterType)
    ensures
        filter_type_of(filter_type_name(t)) == t,
{
    reveal_strlit("skip_reply");
    reveal_strlit("skip_notify");
    assert("skip_reply"@[5] != "skip_notify"@[5]);
}

} // verus!
