//! Keyword replies: item-specific rules before global ones, multi-line
//! keywords, image instructions and variable substitution.
use vstd::prelude::*;
use crate::seqs::{find_first, is_first, lemma_find_first, none_satisfy};
use crate::text::{
    chars_of, concat3, contains_chars, is_blank, lowercase, owned, replace_seq, replace_str,
    seq_contains, split_lines, split_lines_seq, str_eq, str_is_empty, to_lowercase, trim_seq,
    trim_str,
};

verus! {

/// A keyword rule as loaded from storage.
#[derive(Debug)]
pub struct KeywordRule {
    /// Storage key (0 when new).
    pub id: i64,
    /// Owning account.
    pub account_id: String,
    /// One trigger word per line.
    pub keyword: String,
    /// Reply text (or image URL / instruction for image rules).
    pub reply: String,
    /// Item the rule is bound to (empty: global rule).
    pub item_id: String,
    /// `text` or `image`.
    pub rule_type: String,
    /// Image URL of image rules.
    pub image_url: String,
    /// Item title (for logs).
    pub item_title: String,
}

impl Clone for KeywordRule {
    fn clone(&self) -> (r: Self)
        ensures
            r == *self,
    {
        KeywordRule {
            id: self.id,
            account_id: self.account_id.clone(),
            keyword: self.keyword.clone(),
            reply: self.reply.clone(),
            item_id: self.item_id.clone(),
            rule_type: self.rule_type.clone(),
            image_url: self.image_url.clone(),
            item_title: self.item_title.clone(),
        }
    }
}

/// The rule type of rules that do not give one.
pub fn default_rule_type() -> (s: String)
    ensures
        s@ == "text"@,
{
    owned("text")
}

/// A matched rule and the keyword line that hit.
#[derive(Debug)]
pub struct KeywordMatch {
    pub matched_keyword: String,
    pub rule: KeywordRule,
}

impl Clone for KeywordMatch {
    fn clone(&self) -> (r: Self)
        ensures
            r == *self,
    {
        KeywordMatch { matched_keyword: self.matched_keyword.clone(), rule: self.rule.clone() }
    }
}

/// Prefix of image send instructions (`__IMAGE_SEND__|KW:keyword|url`).
pub const IMAGE_SEND_PREFIX: &'static str = "__IMAGE_SEND__";

/// A keyword line hits when, trimmed, it is not empty and its lowercase form
/// occurs in the lowercased message.
pub open spec fn line_hits(msg_lower: Seq<char>) -> spec_fn(Seq<char>) -> bool {
    |line: Seq<char>|
        trim_seq(line).len() > 0 && seq_contains(msg_lower, lowercase(trim_seq(line)))
}

/// The first keyword line of `rule` that hits, trimmed.
pub open spec fn rule_hit(rule: KeywordRule, msg_lower: Seq<char>) -> Option<Seq<char>> {
    let lines = split_lines_seq(rule.keyword@);
    match find_first(lines, line_hits(msg_lower)) {
        Some(i) => Some(trim_seq(lines[i])),
        None => None,
    }
}

/// Rules bound to the given item.
pub open spec fn item_rule(item_id: Seq<char>) -> spec_fn(KeywordRule) -> bool {
    |r: KeywordRule| r.item_id@.len() > 0 && r.item_id@ == item_id
}

/// Global rules (no item).
pub open spec fn global_rule() -> spec_fn(KeywordRule) -> bool {
    |r: KeywordRule| r.item_id@.len() == 0
}

/// A rule passing `scope` whose keywords hit.
pub open spec fn rule_applies(scope: spec_fn(KeywordRule) -> bool, msg_lower: Seq<char>) -> spec_fn(
    KeywordRule,
) -> bool {
    |r: KeywordRule| scope(r) && rule_hit(r, msg_lower) is Some
}

/// The first rule in `scope` that hits, with its keyword.
pub open spec fn first_hit(
    rules: Seq<KeywordRule>,
    scope: spec_fn(KeywordRule) -> bool,
    msg_lower: Seq<char>,
) -> Option<(KeywordRule, Seq<char>)> {
    match find_first(rules, rule_applies(scope, msg_lower)) {
        Some(i) => Some((rules[i], rule_hit(rules[i], msg_lower)->0)),
        None => None,
    }
}

/// The match for a message: rules of the item first (when an item is given),
/// then global rules; matching is on the lowercased message.
pub open spec fn match_spec(rules: Seq<KeywordRule>, message: Seq<char>, item_id: Option<Seq<char>>) -> Option<
    (KeywordRule, Seq<char>),
> {
    let m = lowercase(message);
    match item_id {
        Some(id) => match first_hit(rules, item_rule(id), m) {
            Some(x) => Some(x),
            None => first_hit(rules, global_rule(), m),
        },
        None => first_hit(rules, global_rule(), m),
    }
}

/// The reply text for a match: an image instruction for image rules with a
/// URL, else the reply with its variables substituted in order.
pub open spec fn render_spec(
    matched_keyword: Seq<char>,
    rule: KeywordRule,
    send_user_name: Seq<char>,
    send_user_id: Seq<char>,
    send_message: Seq<char>,
    item_id: Seq<char>,
) -> Seq<char> {
    if rule.rule_type@ == "image"@ && rule.image_url@.len() > 0 {
        "__IMAGE_SEND__"@ + "|KW:"@ + matched_keyword + "|"@ + rule.image_url@
    } else {
        replace_seq(
            replace_seq(
                replace_seq(
                    replace_seq(rule.reply@, "{send_user_name}"@, send_user_name),
                    "{send_user_id}"@,
                    send_user_id,
                ),
                "{send_message}"@,
                send_message,
            ),
            "{item_id}"@,
            item_id,
        )
    }
}

/// Keyword matcher over a rule set.
pub struct KeywordMatcher {
    rules: Vec<KeywordRule>,
}

impl KeywordMatcher {
    /// The rules, in order.
    pub closed spec fn rules(&self) -> Seq<KeywordRule> {
        self.rules@
    }

    /// A matcher over the given rules.
    pub fn new(rules: Vec<KeywordRule>) -> (m: Self)
        ensures
            m.rules() == rules@,
    {
        KeywordMatcher { rules }
    }

    /// The first keyword line of `rule` that hits the lowercased message.
    fn try_match(rule: &KeywordRule, msg_lower: &Vec<char>) -> (r: Option<String>)
        ensures
            match r {
                Some(k) => rule_hit(*rule, msg_lower@) == Some(k@),
                None => rule_hit(*rule, msg_lower@) is None,
            },
    {
        let lines = split_lines(rule.keyword.as_str());
        let ghost ls = split_lines_seq(rule.keyword@);
        let ghost p = line_hits(msg_lower@);
        proof {
            lemma_find_first(ls, p);
        }
        let mut i: usize = 0;
        while i < lines.len()
            invariant
                i <= lines@.len(),
                lines@.len() == ls.len(),
                forall|k: int| 0 <= k < lines@.len() ==> #[trigger] lines@[k]@ == ls[k],
                p == line_hits(msg_lower@),
                ls == split_lines_seq(rule.keyword@),
                forall|j: int| 0 <= j < i ==> !p(#[trigger] ls[j]),
            decreases lines.len() - i,
        {
            let t = trim_str(lines[i].as_str());
            assert(lines@[i as int]@ == ls[i as int]);
            if !str_is_empty(t.as_str()) {
                let lower = to_lowercase(t.as_str());
                let lc = chars_of(lower.as_str());
                if contains_chars(msg_lower, &lc) {
                    assert(is_first(ls, p, i as int));
                    proof {
                        lemma_find_first(ls, p);
                    }
                    return Some(t);
                }
            }
            i = i + 1;
        }
        assert(none_satisfy(ls, p));
        proof {
            lemma_find_first(ls, p);
        }
        None
    }

    fn first_in_scope(&self, msg_lower: &Vec<char>, item_id: Option<&str>) -> (r: Option<KeywordMatch>)
        ensures
            ({
                let scope = match item_id {
                    Some(id) => item_rule(id@),
                    None => global_rule(),
                };
                match r {
                    Some(m) => first_hit(self.rules(), scope, msg_lower@) == Some(
                        (m.rule, m.matched_keyword@),
                    ),
                    None => first_hit(self.rules(), scope, msg_lower@) is None,
                }
            }),
    {
        let ghost scope = match item_id {
            Some(id) => item_rule(id@),
            None => global_rule(),
        };
        let ghost p = rule_applies(scope, msg_lower@);
        proof {
            lemma_find_first(self.rules@, p);
        }
        let mut i: usize = 0;
        while i < self.rules.len()
            invariant
                i <= self.rules@.len(),
                scope == (match item_id {
                    Some(id) => item_rule(id@),
                    None => global_rule(),
                }),
                p == rule_applies(scope, msg_lower@),
                forall|j: int| 0 <= j < i ==> !p(#[trigger] self.rules@[j]),
            decreases self.rules.len() - i,
        {
            let rule = &self.rules[i];
            let in_scope = match item_id {
                Some(id) => !str_is_empty(rule.item_id.as_str()) && str_eq(rule.item_id.as_str(), id),
                None => str_is_empty(rule.item_id.as_str()),
            };
            if in_scope {
                match Self::try_match(rule, msg_lower) {
                    Some(k) => {
                        assert(is_first(self.rules@, p, i as int));
                        proof {
                            lemma_find_first(self.rules@, p);
                        }
                        return Some(KeywordMatch { matched_keyword: k, rule: rule.clone() });
                    },
                    None => {},
                }
            }
            i = i + 1;
        }
        assert(none_satisfy(self.rules@, p));
        proof {
            lemma_find_first(self.rules@, p);
        }
        None
    }

    /// Matches a message; with an item, the item's rules are tried before the
    /// global ones.
    pub fn match_message(&self, message: &str, item_id: Option<&str>) -> (r: Option<KeywordMatch>)
        ensures
            match r {
                Some(m) => match_spec(
                    self.rules(),
                    message@,
                    match item_id {
                        Some(id) => Some(id@),
                        None => None,
                    },
                ) == Some((m.rule, m.matched_keyword@)),
                None => match_spec(
                    self.rules(),
                    message@,
                    match item_id {
                        Some(id) => Some(id@),
                        None => None,
                    },
                ) is None,
            },
    {
        let lower = to_lowercase(message);
        let msg_lower = chars_of(lower.as_str());
        if let Some(id) = item_id {
            if let Some(found) = self.first_in_scope(&msg_lower, Some(id)) {
                return Some(found);
            }
        }
        self.first_in_scope(&msg_lower, None)
    }

    /// The reply for a match: image rules with a URL yield the image send
    /// instruction, other rules their reply with variables substituted.
    pub fn render_reply(
        matched: &KeywordMatch,
        send_user_name: &str,
        send_user_id: &str,
        send_message: &str,
        item_id: &str,
    ) -> (s: String)
        ensures
            s@ == render_spec(
                matched.matched_keyword@,
                matched.rule,
                send_user_name@,
                send_user_id@,
                send_message@,
                item_id@,
            ),
    {
        let rule = &matched.rule;
        if str_eq(rule.rule_type.as_str(), "image") && !str_is_empty(rule.image_url.as_str()) {
            let head = concat3(IMAGE_SEND_PREFIX, "|KW:", matched.matched_keyword.as_str());
            let s = concat3(head.as_str(), "|", rule.image_url.as_str());
            assert(s@ =~= "__IMAGE_SEND__"@ + "|KW:"@ + matched.matched_keyword@ + "|"@ + rule.image_url@);
            return s;
        }
        proof {
            reveal_strlit("{send_user_name}");
            reveal_strlit("{send_user_id}");
            reveal_strlit("{send_message}");
            reveal_strlit("{item_id}");
        }
        let a = replace_str(rule.reply.as_str(), "{send_user_name}", send_user_name);
        let b = replace_str(a.as_str(), "{send_user_id}", send_user_id);
        let c = replace_str(b.as_str(), "{send_message}", send_message);
        replace_str(c.as_str(), "{item_id}", item_id)
    }
}

impl Default for KeywordMatcher {
    fn default() -> (m: Self)
        ensures
            m.rules().len() == 0,
    {
        KeywordMatcher::new(Vec::new())
    }
}


/// A rule bound to the message's item wins over global rules: when one of
/// them hits, the match is a rule of that item.
pub proof fn lemma_item_rule_wins(rules: Seq<KeywordRule>, message: Seq<char>, item_id: Seq<char>)
    requires
        first_hit(rules, item_rule(item_id), lowercase(message)) is Some,
    ensures
        match_spec(rules, message, Some(item_id)) matches Some(m) && m.0.item_id@ == item_id && item_id.len() > 0,
{
    let m = lowercase(message);
    let p = rule_applies(item_rule(item_id), m);
    let i = find_first(rules, p)->0;
    lemma_find_first(rules, p);
    assert(is_first(rules, p, i));
    assert(p(rules[i]));
    assert(item_rule(item_id)(rules[i]));
}

/// Without an item rule that hits, only a global rule can match.
pub proof fn lemma_global_fallback(rules: Seq<KeywordRule>, message: Seq<char>, item_id: Option<Seq<char>>)
    requires
        match item_id {
            Some(id) => first_hit(rules, item_rule(id), lowercase(message)) is None,
            None => true,
        },
    ensures
        match_spec(rules, message, item_id) matches Some(m) ==> m.0.item_id@.len() == 0,
{
    let m = lowercase(message);
    let p = rule_applies(global_rule(), m);
    lemma_find_first(rules, p);
    if let Some(i) = find_first(rules, p) {
        assert(is_first(rules, p, i));
        assert(p(rules[i]));
        assert(global_rule()(rules[i]));
    }
}

} // verus!
