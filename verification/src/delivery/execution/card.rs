//! Cards and source-priority selection: the first source (own, dock level 1,
//! dock level 2) holding exactly one card supplies it.
use vstd::prelude::*;
use crate::text::str_eq;

verus! {

/// Where a card comes from.
#[derive(Debug, Clone, Copy, PartialEq, Eq, Structural)]
pub enum CardSource {
    /// Own card.
    Own,
    /// First-level docking.
    DockL1,
    /// Second-level docking.
    DockL2,
}

/// The wire name of a source.
pub open spec fn card_source_name(s: CardSource) -> Seq<char> {
    match s {
        CardSource::Own => "own"@,
        CardSource::DockL1 => "dock_l1"@,
        CardSource::DockL2 => "dock_l2"@,
    }
}

/// The source of a wire name (unknown names are `Own`).
pub open spec fn card_source_of(value: Seq<char>) -> CardSource {
    if value == "dock_l1"@ {
        CardSource::DockL1
    } else if value == "dock_l2"@ {
        CardSource::DockL2
    } else {
        CardSource::Own
    }
}

impl CardSource {
    /// The wire name.
    pub fn as_str(&self) -> (s: &'static str)
        ensures
            s@ == card_source_name(*self),
    {
        match self {
            CardSource::Own => "own",
            CardSource::DockL1 => "dock_l1",
            CardSource::DockL2 => "dock_l2",
        }
    }

    /// Parses a wire name; unknown names give `Own`.
    #[allow(clippy::should_implement_trait)]
    pub fn from_str(value: &str) -> (s: Self)
        ensures
            s == card_source_of(value@),
    {
        if str_eq(value, "dock_l1") {
            CardSource::DockL1
        } else if str_eq(value, "dock_l2") {
            CardSource::DockL2
        } else {
            CardSource::Own
        }
    }
}

/// The source of cards that do not give one.
pub fn default_source() -> (s: CardSource)
    ensures
        s == CardSource::Own,
{
    CardSource::Own
}

/// `enabled` when a stored card does not say otherwise.
pub fn default_true() -> (b: bool)
    ensures
        b,
{
    true
}

/// A card as loaded from storage.
#[derive(Debug)]
pub struct Card {
    pub id: i64,
    /// Owning user.
    pub owner_id: i64,
    /// Owning account.
    pub account_id: String,
    pub name: String,
    /// `text` / `data` / `api` / `image`.
    pub card_type: String,
    pub source: CardSource,
    /// Whether the card may be delivered automatically.
    pub enabled: bool,
    /// Fixed text (text cards).
    pub text_content: String,
    /// Batch data, one entry per line (data cards).
    pub data_content: String,
    /// Image URL (image cards).
    pub image_url: String,
    /// Several image URLs as a JSON array string.
    pub image_urls: String,
    /// API fetch configuration (JSON string).
    pub api_config: String,
    /// Delivery delay in seconds.
    pub delay_seconds: u32,
    /// Note appended to the content.
    pub description: String,
}

impl Clone for Card {
    fn clone(&self) -> (r: Self)
        ensures
            r == *self,
    {
        Card {
            id: self.id,
            owner_id: self.owner_id,
            account_id: self.account_id.clone(),
            name: self.name.clone(),
            card_type: self.card_type.clone(),
            source: self.source,
            enabled: self.enabled,
            text_content: self.text_content.clone(),
            data_content: self.data_content.clone(),
            image_url: self.image_url.clone(),
            image_urls: self.image_urls.clone(),
            api_config: self.api_config.clone(),
            delay_seconds: self.delay_seconds,
            description: self.description.clone(),
        }
    }
}

/// A docking card (skipped in card-only mode).
pub open spec fn is_dock_source(s: CardSource) -> bool {
    s == CardSource::DockL1 || s == CardSource::DockL2
}

impl Card {
    /// Whether the card comes from docking.
    pub fn is_dock(&self) -> (b: bool)
        ensures
            b == is_dock_source(self.source),
    {
        match self.source {
            CardSource::DockL1 | CardSource::DockL2 => true,
            CardSource::Own => false,
        }
    }
}

/// Number of cards of the given source.
pub open spec fn source_count(cards: Seq<Card>, s: CardSource) -> nat
    decreases cards.len(),
{
    if cards.len() == 0 {
        0
    } else {
        source_count(cards.drop_last(), s) + if cards.last().source == s {
            1nat
        } else {
            0nat
        }
    }
}

/// Index of the first card of the given source.
pub open spec fn first_of_source(cards: Seq<Card>, s: CardSource, i: int) -> bool {
    0 <= i < cards.len() && cards[i].source == s && forall|j: int| 0 <= j < i ==> (#[trigger] cards[j]).source != s
}

/// The selected card index: the only card of the first source (in priority
/// order own, dock level 1, dock level 2) that has exactly one card.
pub open spec fn selected_index(cards: Seq<Card>) -> Option<int> {
    if source_count(cards, CardSource::Own) == 1 {
        Some(choose|i: int| first_of_source(cards, CardSource::Own, i))
    } else if source_count(cards, CardSource::DockL1) == 1 {
        Some(choose|i: int| first_of_source(cards, CardSource::DockL1, i))
    } else if source_count(cards, CardSource::DockL2) == 1 {
        Some(choose|i: int| first_of_source(cards, CardSource::DockL2, i))
    } else {
        None
    }
}

proof fn lemma_source_count_zero(cards: Seq<Card>, s: CardSource)
    ensures
        source_count(cards, s) == 0 <==> forall|j: int| 0 <= j < cards.len() ==> (#[trigger] cards[j]).source != s,
    decreases cards.len(),
{
    if cards.len() > 0 {
        lemma_source_count_zero(cards.drop_last(), s);
        assert forall|j: int| 0 <= j < cards.len() - 1 implies cards.drop_last()[j] == cards[j] by {}
    }
}

proof fn lemma_first_unique(cards: Seq<Card>, s: CardSource, i: int, k: int)
    requires
        first_of_source(cards, s, i),
        first_of_source(cards, s, k),
    ensures
        i == k,
{
}

/// Count of the cards of source `s`, and the index of the first one.
fn count_source(cards: &[Card], s: CardSource) -> (r: (usize, usize))
    ensures
        r.0 == source_count(cards@, s),
        r.0 > 0 ==> first_of_source(cards@, s, r.1 as int),
{
    let mut n: usize = 0;
    let mut first: usize = 0;
    let mut i: usize = 0;
    while i < cards.len()
        invariant
            i <= cards@.len(),
            n == source_count(cards@.take(i as int), s),
            n <= i,
            n > 0 ==> first_of_source(cards@, s, first as int) && first < i,
            n == 0 ==> forall|j: int| 0 <= j < i ==> (#[trigger] cards@[j]).source != s,
        decreases cards.len() - i,
    {
        proof {
            assert(cards@.take(i + 1).drop_last() =~= cards@.take(i as int));
            lemma_source_count_zero(cards@.take(i as int), s);
        }
        if cards[i].source == s {
            if n == 0 {
                first = i;
            }
            n = n + 1;
        }
        i = i + 1;
    }
    assert(cards@.take(cards@.len() as int) =~= cards@);
    (n, first)
}

/// Source-priority card selection.
pub struct CardSelector;

impl CardSelector {
    /// The only card of the first source (own, dock level 1, dock level 2)
    /// that has exactly one card; `None` when no source has exactly one.
    pub fn select(cards: &[Card]) -> (r: Option<&Card>)
        ensures
            match r {
                Some(c) => selected_index(cards@) matches Some(i) && *c == cards@[i],
                None => selected_index(cards@) is None,
            },
    {
        let (n, i) = count_source(cards, CardSource::Own);
        if n == 1 {
            proof {
                let k = choose|k: int| first_of_source(cards@, CardSource::Own, k);
                lemma_first_unique(cards@, CardSource::Own, i as int, k);
            }
            return Some(&cards[i]);
        }
        let (n, i) = count_source(cards, CardSource::DockL1);
        if n == 1 {
            proof {
                let k = choose|k: int| first_of_source(cards@, CardSource::DockL1, k);
                lemma_first_unique(cards@, CardSource::DockL1, i as int, k);
            }
            return Some(&cards[i]);
        }
        let (n, i) = count_source(cards, CardSource::DockL2);
        if n == 1 {
            proof {
                let k = choose|k: int| first_of_source(cards@, CardSource::DockL2, k);
                lemma_first_unique(cards@, CardSource::DockL2, i as int, k);
            }
            return Some(&cards[i]);
        }
        None
    }
}


proof fn lemma_two_of_source(cards: Seq<Card>, s: CardSource, i: int, j: int)
    requires
        0 <= i < j < cards.len(),
        cards[i].source == s,
        cards[j].source == s,
    ensures
        source_count(cards, s) >= 2,
    decreases cards.len(),
{
    let t = cards.drop_last();
    if j == cards.len() - 1 {
        assert(t[i] == cards[i]);
        lemma_source_count_zero(t, s);
    } else {
        assert(t[i] == cards[i] && t[j] == cards[j]);
        lemma_two_of_source(t, s, i, j);
    }
}

/// The selected card is the only card of its source among the candidates.
pub proof fn lemma_selected_only_of_source(cards: Seq<Card>)
    ensures
        selected_index(cards) matches Some(i) ==> 0 <= i < cards.len() && forall|j: int|
            0 <= j < cards.len() && j != i ==> (#[trigger] cards[j]).source != cards[i].source,
{
    if let Some(i) = selected_index(cards) {
        let s = if source_count(cards, CardSource::Own) == 1 {
            CardSource::Own
        } else if source_count(cards, CardSource::DockL1) == 1 {
            CardSource::DockL1
        } else {
            CardSource::DockL2
        };
        assert(source_count(cards, s) == 1);
        lemma_source_count_zero(cards, s);
        let k = choose|k: int| 0 <= k < cards.len() && (#[trigger] cards[k]).source == s;
        assert(first_of_source(cards, s, i)) by {
            let p = |c: Card| c.source == s;
            crate::seqs::lemma_find_first(cards, p);
            assert(p(cards[k]));
            let f = crate::seqs::find_first(cards, p)->0;
            assert(crate::seqs::is_first(cards, p, f));
            assert(first_of_source(cards, s, f)) by {
                assert forall|g: int| 0 <= g < f implies (#[trigger] cards[g]).source != s by {
                    assert(!p(cards[g]));
                }
            }
        }
        assert forall|j: int| 0 <= j < cards.len() && j != i implies (#[trigger] cards[j]).source != cards[i].source by {
            if cards[j].source == s {
                if i < j {
                    lemma_two_of_source(cards, s, i, j);
                } else {
                    lemma_two_of_source(cards, s, j, i);
                }
            }
        }
    }
}


/// Parsing a card source's wire name gives the source back.
pub proof fn lemma_card_source_roundtrip(s: CardSource)
    ensures
        card_source_of(card_source_name(s)) == s,
{
    reveal_strlit("own");
    reveal_strlit("dock_l1");
    reveal_strlit("dock_l2");
    assert("own"@.len() != "dock_l1"@.len());
    assert("own"@.len() != "dock_l2"@.len());
    assert("dock_l1"@[6] != "dock_l2"@[6]);
}

} // verus!
