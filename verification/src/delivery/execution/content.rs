//! Delivery content: text by card type, the card note with its variables, and
//! image URLs.
use vstd::prelude::*;
use crate::delivery::execution::card::Card;
use crate::json::{json_string_array, parse_string_array};
use crate::text::{
    concat3, contains_str, starts_with_seq, is_blank, seq_contains, join_seq, join_strings, owned, replace_seq, replace_str, str_eq, str_is_empty,
    strings_view, trim_seq, trim_str,
};

verus! {

/// Order context for variable substitution.
#[derive(Debug)]
pub struct ContentContext {
    pub order_id: String,
    pub item_id: String,
    pub buyer_id: String,
    pub spec_name: String,
    pub spec_value: String,
    pub order_amount: String,
    pub order_quantity: String,
}

impl Default for ContentContext {
    fn default() -> (c: Self)
        ensures
            c.order_id@.len() == 0 && c.item_id@.len() == 0 && c.buyer_id@.len() == 0
                && c.spec_name@.len() == 0 && c.spec_value@.len() == 0 && c.order_amount@.len() == 0
                && c.order_quantity@.len() == 0,
    {
        ContentContext {
            order_id: String::new(),
            item_id: String::new(),
            buyer_id: String::new(),
            spec_name: String::new(),
            spec_value: String::new(),
            order_amount: String::new(),
            order_quantity: String::new(),
        }
    }
}

/// `text` with the order variables substituted, in this order: `{order_id}`,
/// `{item_id}`, `{buyer_id}`, `{spec_name}`, `{spec_value}`, `{order_amount}`,
/// `{order_quantity}`.
pub open spec fn replace_vars_spec(c: ContentContext, text: Seq<char>) -> Seq<char> {
    replace_seq(
        replace_seq(
            replace_seq(
                replace_seq(
                    replace_seq(
                        replace_seq(
                            replace_seq(text, "{order_id}"@, c.order_id@),
                            "{item_id}"@,
                            c.item_id@,
                        ),
                        "{buyer_id}"@,
                        c.buyer_id@,
                    ),
                    "{spec_name}"@,
                    c.spec_name@,
                ),
                "{spec_value}"@,
                c.spec_value@,
            ),
            "{order_amount}"@,
            c.order_amount@,
        ),
        "{order_quantity}"@,
        c.order_quantity@,
    )
}

impl ContentContext {
    /// Substitutes the order variables in `text`.
    pub fn replace_vars(&self, text: &str) -> (r: String)
        ensures
            r@ == replace_vars_spec(*self, text@),
    {
        proof {
            reveal_strlit("{order_id}");
            reveal_strlit("{item_id}");
            reveal_strlit("{buyer_id}");
            reveal_strlit("{spec_name}");
            reveal_strlit("{spec_value}");
            reveal_strlit("{order_amount}");
            reveal_strlit("{order_quantity}");
        }
        let a = replace_str(text, "{order_id}", self.order_id.as_str());
        let b = replace_str(a.as_str(), "{item_id}", self.item_id.as_str());
        let c = replace_str(b.as_str(), "{buyer_id}", self.buyer_id.as_str());
        let d = replace_str(c.as_str(), "{spec_name}", self.spec_name.as_str());
        let e = replace_str(d.as_str(), "{spec_value}", self.spec_value.as_str());
        let f = replace_str(e.as_str(), "{order_amount}", self.order_amount.as_str());
        replace_str(f.as_str(), "{order_quantity}", self.order_quantity.as_str())
    }
}

/// Generated content: text plus image URLs.
#[derive(Debug)]
pub struct DeliveryContent {
    pub text: String,
    pub image_urls: Vec<String>,
}

/// The final text: the trimmed text (when not blank) and the image URLs (one
/// per line, when any), separated by a line break.
pub open spec fn to_text_spec(text: Seq<char>, urls: Seq<Seq<char>>) -> Seq<char> {
    let first: Seq<Seq<char>> = if trim_seq(text).len() > 0 {
        seq![trim_seq(text)]
    } else {
        Seq::empty()
    };
    let parts = if urls.len() > 0 {
        first.push(join_seq(urls, "\n"@))
    } else {
        first
    };
    join_seq(parts, "\n"@)
}

impl DeliveryContent {
    /// The final text.
    pub fn to_text(&self) -> (s: String)
        ensures
            s@ == to_text_spec(self.text@, strings_view(self.image_urls@)),
    {
        let mut parts: Vec<String> = Vec::new();
        if !is_blank(self.text.as_str()) {
            parts.push(trim_str(self.text.as_str()));
        }
        if self.image_urls.len() > 0 {
            parts.push(join_strings(&self.image_urls, "\n"));
        }
        let s = join_strings(&parts, "\n");
        proof {
            let first: Seq<Seq<char>> = if trim_seq(self.text@).len() > 0 {
                seq![trim_seq(self.text@)]
            } else {
                Seq::empty()
            };
            let expect = if strings_view(self.image_urls@).len() > 0 {
                first.push(join_seq(strings_view(self.image_urls@), "\n"@))
            } else {
                first
            };
            assert(strings_view(parts@) =~= expect);
        }
        s
    }
}

/// Image URLs of a card: the non-empty entries of its JSON URL array when it
/// has one that parses, else its single URL when not blank, else none.
pub open spec fn image_urls_spec(card: Card) -> Seq<Seq<char>> {
    if trim_seq(card.image_urls@).len() > 0 && json_string_array(card.image_urls@) is Some {
        json_string_array(card.image_urls@)->0.filter(|u: Seq<char>| u.len() > 0)
    } else if trim_seq(card.image_url@).len() > 0 {
        seq![card.image_url@]
    } else {
        Seq::empty()
    }
}

/// The card's image URLs.
pub fn parse_image_urls(card: &Card) -> (v: Vec<String>)
    ensures
        strings_view(v@) == image_urls_spec(*card),
{
    if !is_blank(card.image_urls.as_str()) {
        if let Some(parsed) = parse_string_array(card.image_urls.as_str()) {
            let ghost pv = strings_view(parsed@);
            let ghost pred = |u: Seq<char>| u.len() > 0;
            let mut out: Vec<String> = Vec::new();
            let mut i: usize = 0;
            while i < parsed.len()
                invariant
                    i <= parsed@.len(),
                    pv == strings_view(parsed@),
                    pred == (|u: Seq<char>| u.len() > 0),
                    strings_view(out@) == pv.take(i as int).filter(pred),
                decreases parsed.len() - i,
            {
                proof {
                    reveal(Seq::filter);
                    assert(pv.take(i + 1).drop_last() =~= pv.take(i as int));
                    assert(pv.take(i + 1).last() == parsed@[i as int]@);
                }
                if !str_is_empty(parsed[i].as_str()) {
                    let ghost before = out@;
                    out.push(parsed[i].clone());
                    assert(strings_view(out@) =~= strings_view(before).push(parsed@[i as int]@));
                }
                i = i + 1;
            }
            assert(pv.take(parsed@.len() as int) =~= pv);
            return out;
        }
    }
    if !is_blank(card.image_url.as_str()) {
        let v = vec![card.image_url.clone()];
        assert(strings_view(v@) =~= seq![card.image_url@]);
        return v;
    }
    let v: Vec<String> = Vec::new();
    assert(strings_view(v@) =~= Seq::<Seq<char>>::empty());
    v
}

/// The note handling: content and note are trimmed and get their variables
/// substituted; an empty note leaves the content, an empty content the note;
/// a note holding `{DELIVERY_CONTENT}` has it replaced by the content, any
/// other note is appended after the content on a line of its own.
pub open spec fn with_description_spec(content: Seq<char>, description: Seq<char>, c: ContentContext) -> Seq<
    char,
> {
    let content = replace_vars_spec(c, trim_seq(content));
    let description = replace_vars_spec(c, trim_seq(description));
    if description.len() == 0 {
        content
    } else if content.len() == 0 {
        description
    } else if seq_contains(description, "{DELIVERY_CONTENT}"@) {
        replace_seq(description, "{DELIVERY_CONTENT}"@, content)
    } else {
        content + "\n"@ + description
    }
}

/// Applies the card note to the content.
pub fn with_description(content: &str, description: &str, context: &ContentContext) -> (r: String)
    ensures
        r@ == with_description_spec(content@, description@, *context),
{
    let content = context.replace_vars(trim_str(content).as_str());
    let description = context.replace_vars(trim_str(description).as_str());
    if str_is_empty(description.as_str()) {
        return content;
    }
    if str_is_empty(content.as_str()) {
        return description;
    }
    proof {
        reveal_strlit("{DELIVERY_CONTENT}");
    }
    if contains_str(description.as_str(), "{DELIVERY_CONTENT}") {
        replace_str(description.as_str(), "{DELIVERY_CONTENT}", content.as_str())
    } else {
        concat3(content.as_str(), "\n", description.as_str())
    }
}

/// The content for a card and its text part (`None`: no text from the card
/// type): the text with the note applied (or the substituted note alone),
/// the card's image URLs; `None` when both are empty.
pub open spec fn assemble_spec(card: Card, c: ContentContext, text: Option<Seq<char>>) -> Option<
    (Seq<char>, Seq<Seq<char>>),
> {
    let text_part = match text {
        Some(t) => with_description_spec(t, card.description@, c),
        None => if trim_seq(card.description@).len() == 0 {
            Seq::empty()
        } else {
            replace_vars_spec(c, trim_seq(card.description@))
        },
    };
    let urls = image_urls_spec(card);
    if trim_seq(text_part).len() == 0 && urls.len() == 0 {
        None
    } else {
        Some((text_part, urls))
    }
}

/// The value of generated content.
pub open spec fn content_view(r: Option<DeliveryContent>) -> Option<(Seq<char>, Seq<Seq<char>>)> {
    match r {
        Some(c) => Some((c.text@, strings_view(c.image_urls@))),
        None => None,
    }
}

/// The card types that yield content.
pub open spec fn known_card_type(t: Seq<char>) -> bool {
    t == "text"@ || t == "data"@ || t == "api"@ || t == "image"@
}

/// The four card type names differ.
pub proof fn lemma_card_types_distinct()
    ensures
        "text"@ != "data"@,
        "text"@ != "api"@,
        "text"@ != "image"@,
        "data"@ != "api"@,
        "data"@ != "image"@,
        "api"@ != "image"@,
{
    reveal_strlit("text");
    reveal_strlit("data");
    reveal_strlit("api");
    reveal_strlit("image");
    assert("text"@.len() == 4 && "data"@.len() == 4 && "api"@.len() == 3 && "image"@.len() == 5);
    assert("text"@[0] == 't' && "data"@[0] == 'd');
}

/// Content generator.
pub struct ContentGenerator;

impl ContentGenerator {
    /// Generates the content of a card. Text cards use their fixed text, data
    /// cards one entry from `consume_data`, API and image cards no text;
    /// unknown types yield `None`, as does a card with nothing to send.
    pub fn generate<F: FnOnce() -> Option<String>>(
        card: &Card,
        context: &ContentContext,
        consume_data: F,
    ) -> (r: Option<DeliveryContent>)
        requires
            call_requires(consume_data, ()),
        ensures
            !known_card_type(card.card_type@) ==> r is None,
            card.card_type@ == "text"@ ==> content_view(r) == assemble_spec(*card, *context, Some(card.text_content@)),
            (card.card_type@ == "api"@ || card.card_type@ == "image"@) ==> content_view(r) == assemble_spec(*card, *context, None),
            card.card_type@ == "data"@ ==> exists|d: Option<String>|
                call_ensures(consume_data, (), d) && content_view(r) == assemble_spec(
                    *card,
                    *context,
                    match d {
                        Some(s) => Some(s@),
                        None => None,
                    },
                ),
    {
        proof {
            lemma_card_types_distinct();
        }
        if str_eq(card.card_type.as_str(), "text") {
            Self::assemble(card, context, Some(card.text_content.clone()))
        } else if str_eq(card.card_type.as_str(), "data") {
            let d = consume_data();
            Self::assemble(card, context, d)
        } else if str_eq(card.card_type.as_str(), "api") || str_eq(card.card_type.as_str(), "image") {
            Self::assemble(card, context, None)
        } else {
            None
        }
    }

    /// Like `generate`, with API cards taking their text from `fetch_api`
    /// applied to the card's API configuration.
    pub fn generate_with_api<F: FnOnce() -> Option<String>, G: Fn(&str) -> Option<String>>(
        card: &Card,
        context: &ContentContext,
        consume_data: F,
        fetch_api: G,
    ) -> (r: Option<DeliveryContent>)
        requires
            call_requires(consume_data, ()),
            forall|s: &str| call_requires(fetch_api, (s,)),
        ensures
            !known_card_type(card.card_type@) ==> r is None,
            card.card_type@ == "text"@ ==> content_view(r) == assemble_spec(*card, *context, Some(card.text_content@)),
            card.card_type@ == "image"@ ==> content_view(r) == assemble_spec(*card, *context, None),
            card.card_type@ == "data"@ ==> exists|d: Option<String>|
                call_ensures(consume_data, (), d) && content_view(r) == assemble_spec(
                    *card,
                    *context,
                    match d {
                        Some(s) => Some(s@),
                        None => None,
                    },
                ),
            card.card_type@ == "api"@ ==> exists|arg: &str, d: Option<String>|
                arg@ == card.api_config@ && call_ensures(fetch_api, (arg,), d) && content_view(r) == assemble_spec(
                    *card,
                    *context,
                    match d {
                        Some(s) => Some(s@),
                        None => None,
                    },
                ),
    {
        proof {
            lemma_card_types_distinct();
        }
        if str_eq(card.card_type.as_str(), "text") {
            Self::assemble(card, context, Some(card.text_content.clone()))
        } else if str_eq(card.card_type.as_str(), "data") {
            let d = consume_data();
            Self::assemble(card, context, d)
        } else if str_eq(card.card_type.as_str(), "api") {
            let arg = card.api_config.as_str();
            let d = fetch_api(arg);
            Self::assemble(card, context, d)
        } else if str_eq(card.card_type.as_str(), "image") {
            Self::assemble(card, context, None)
        } else {
            None
        }
    }

    fn assemble(card: &Card, context: &ContentContext, text: Option<String>) -> (r: Option<DeliveryContent>)
        ensures
            content_view(r) == assemble_spec(
                *card,
                *context,
                match text {
                    Some(s) => Some(s@),
                    None => None,
                },
            ),
    {
        let text_part = match text {
            Some(text) => with_description(text.as_str(), card.description.as_str(), context),
            None => if is_blank(card.description.as_str()) {
                String::new()
            } else {
                context.replace_vars(trim_str(card.description.as_str()).as_str())
            },
        };
        let image_urls = parse_image_urls(card);
        if is_blank(text_part.as_str()) && image_urls.len() == 0 {
            return None;
        }
        Some(DeliveryContent { text: text_part, image_urls })
    }
}

/// A text with no `{`.
pub open spec fn brace_free(s: Seq<char>) -> bool {
    forall|i: int| 0 <= i < s.len() ==> s[i] != '{'
}

/// A placeholder: `{`, a name without braces, `}`.
pub open spec fn placeholder_shape(p: Seq<char>) -> bool {
    &&& p.len() >= 2
    &&& p[0] == '{'
    &&& p[p.len() - 1] == '}'
    &&& forall|i: int| 1 <= i < p.len() - 1 ==> p[i] != '{' && p[i] != '}'
}

proof fn lemma_replace_absent(s: Seq<char>, pat: Seq<char>, rep: Seq<char>)
    requires
        pat.len() > 0,
        forall|i: int| 0 <= i < s.len() ==> s[i] != pat[0],
    ensures
        replace_seq(s, pat, rep) == s,
    decreases s.len(),
{
    if s.len() > 0 {
        if pat.len() <= s.len() {
            assert(s.subrange(0, pat.len() as int)[0] == s[0]);
        }
        assert(!starts_with_seq(s, pat));
        lemma_replace_absent(s.skip(1), pat, rep);
        assert(seq![s[0]] + s.skip(1) =~= s);
    }
}

proof fn lemma_replace_whole(pat: Seq<char>, rep: Seq<char>)
    requires
        pat.len() > 0,
    ensures
        replace_seq(pat, pat, rep) == rep,
{
    assert(pat.subrange(0, pat.len() as int) =~= pat);
    assert(starts_with_seq(pat, pat));
    let rest = pat.skip(pat.len() as int);
    assert(rest =~= Seq::<char>::empty());
    assert(replace_seq(rest, pat, rep) == rest);
    assert(replace_seq(pat, pat, rep) == rep + replace_seq(rest, pat, rep));
    assert(rep + rest =~= rep);
}

proof fn lemma_replace_other_placeholder(p: Seq<char>, q: Seq<char>, rep: Seq<char>)
    requires
        placeholder_shape(p),
        placeholder_shape(q),
        p != q,
    ensures
        replace_seq(p, q, rep) == p,
{
    if starts_with_seq(p, q) {
        if q.len() < p.len() {
            assert(p.subrange(0, q.len() as int)[q.len() - 1] == p[q.len() - 1]);
            assert(false);
        } else {
            assert(p.subrange(0, q.len() as int) =~= p);
        }
    }
    assert(!starts_with_seq(p, q));
    lemma_replace_absent(p.skip(1), q, rep);
    assert(seq![p[0]] + p.skip(1) =~= p);
}

/// The placeholders, in the order they are substituted, with their fields.
pub open spec fn placeholders() -> Seq<Seq<char>> {
    seq![
        "{order_id}"@,
        "{item_id}"@,
        "{buyer_id}"@,
        "{spec_name}"@,
        "{spec_value}"@,
        "{order_amount}"@,
        "{order_quantity}"@,
    ]
}

/// Each placeholder is filled with its own field of the context: a text that
/// is just one placeholder becomes exactly that field's value (for values
/// with no `{`, which a later substitution could read as a placeholder).
pub proof fn lemma_placeholder_filled(c: ContentContext)
    requires
        brace_free(c.order_id@),
        brace_free(c.item_id@),
        brace_free(c.buyer_id@),
        brace_free(c.spec_name@),
        brace_free(c.spec_value@),
        brace_free(c.order_amount@),
        brace_free(c.order_quantity@),
    ensures
        replace_vars_spec(c, "{order_id}"@) == c.order_id@,
        replace_vars_spec(c, "{item_id}"@) == c.item_id@,
        replace_vars_spec(c, "{buyer_id}"@) == c.buyer_id@,
        replace_vars_spec(c, "{spec_name}"@) == c.spec_name@,
        replace_vars_spec(c, "{spec_value}"@) == c.spec_value@,
        replace_vars_spec(c, "{order_amount}"@) == c.order_amount@,
        replace_vars_spec(c, "{order_quantity}"@) == c.order_quantity@,
{
    reveal_strlit("{order_id}");
    reveal_strlit("{item_id}");
    reveal_strlit("{buyer_id}");
    reveal_strlit("{spec_name}");
    reveal_strlit("{spec_value}");
    reveal_strlit("{order_amount}");
    reveal_strlit("{order_quantity}");
    let ph = placeholders();
    let vals = seq![c.order_id@, c.item_id@, c.buyer_id@, c.spec_name@, c.spec_value@, c.order_amount@, c.order_quantity@];
    assert forall|k: int| 0 <= k < 7 implies placeholder_shape(#[trigger] ph[k]) by {
        assert(ph[k][0] == '{');
    }
    assert forall|a: int, b: int| 0 <= a < 7 && 0 <= b < 7 && a != b implies #[trigger] ph[a] != #[trigger] ph[b] by {
        if ph[a].len() == ph[b].len() {
            assert(ph[a][1] != ph[b][1]);
        }
    }
    assert forall|k: int| 0 <= k < 7 implies brace_free(#[trigger] vals[k]) by {}
    assert forall|k: int| 0 <= k < 7 implies replace_vars_spec(c, #[trigger] ph[k]) == vals[k] by {
        lemma_fill_one(ph, vals, k, 7);
        reveal_with_fuel(fill, 8);
    }
    assert(ph[0] == "{order_id}"@ && ph[1] == "{item_id}"@ && ph[2] == "{buyer_id}"@ && ph[3] == "{spec_name}"@);
    assert(ph[4] == "{spec_value}"@ && ph[5] == "{order_amount}"@ && ph[6] == "{order_quantity}"@);
}

/// The text after substituting the first `j` placeholders in turn.
spec fn fill(t: Seq<char>, ph: Seq<Seq<char>>, vals: Seq<Seq<char>>, j: nat) -> Seq<char>
    decreases j,
{
    if j == 0 {
        t
    } else {
        replace_seq(fill(t, ph, vals, (j - 1) as nat), ph[j - 1], vals[j - 1])
    }
}

proof fn lemma_fill_one(ph: Seq<Seq<char>>, vals: Seq<Seq<char>>, k: int, j: nat)
    requires
        0 <= k < ph.len(),
        j <= ph.len(),
        vals.len() == ph.len(),
        forall|m: int| 0 <= m < ph.len() ==> placeholder_shape(#[trigger] ph[m]),
        forall|a: int, b: int| 0 <= a < ph.len() && 0 <= b < ph.len() && a != b ==> #[trigger] ph[a] != #[trigger] ph[b],
        forall|m: int| 0 <= m < vals.len() ==> brace_free(#[trigger] vals[m]),
    ensures
        fill(ph[k], ph, vals, j) == if j <= k {
            ph[k]
        } else {
            vals[k]
        },
    decreases j,
{
    if j > 0 {
        let i = j - 1;
        lemma_fill_one(ph, vals, k, (j - 1) as nat);
        assert(placeholder_shape(ph[i]));
        if i < k {
            assert(ph[k] != ph[i]);
            lemma_replace_other_placeholder(ph[k], ph[i], vals[i]);
        } else if i == k {
            lemma_replace_whole(ph[k], vals[k]);
        } else {
            assert(brace_free(vals[k]));
            lemma_replace_absent(vals[k], ph[i], vals[i]);
        }
    }
}

} // verus!
