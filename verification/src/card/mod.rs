//! Card management: paged queries, creation, owner-checked update, delete
//! and enabling.
use vstd::prelude::*;
use crate::delivery::execution::card::Card;
use crate::records::{owner_checked, owner_gate};
use crate::text::{is_blank, owned, trim_seq};
use crate::OpenDeskResult;

verus! {

/// Card query.
#[derive(Debug, Clone)]
pub struct CardQuery {
    pub page: u32,
    pub page_size: u32,
    /// Keyword (matched against the name).
    pub keyword: String,
    /// Type (`text` / `data` / `api` / `image`).
    pub card_type: String,
}

impl Default for CardQuery {
    fn default() -> (q: Self)
        ensures
            q.page == 0 && q.page_size == 0 && q.keyword@.len() == 0 && q.card_type@.len() == 0,
    {
        CardQuery { page: 0, page_size: 0, keyword: String::new(), card_type: String::new() }
    }
}

/// Storage of cards, implemented by the application. Each `closed spec fn`
/// below names the answers the store may give to one of its calls
/// (unconstrained unless an implementation says otherwise).
pub trait CardStore {
    /// `r` is an answer to listing a page of the user's cards.
    closed spec fn cards_listed(&self, owner_id: i64, query: CardQuery, r: OpenDeskResult<(Vec<Card>, u32)>) -> bool {
        true
    }

    /// `r` is an answer to looking up the user's card `card_id`.
    closed spec fn card_got(&self, owner_id: i64, card_id: i64, r: OpenDeskResult<Option<Card>>) -> bool {
        true
    }

    /// `r` is an answer to storing the new card `card`.
    closed spec fn card_created(&self, card: Card, r: OpenDeskResult<Card>) -> bool {
        true
    }

    /// `r` is an answer to updating a card to `card`.
    closed spec fn card_updated(&self, card: Card, r: OpenDeskResult<()>) -> bool {
        true
    }

    /// `r` is an answer to deleting the user's card `card_id`.
    closed spec fn card_deleted(&self, owner_id: i64, card_id: i64, r: OpenDeskResult<()>) -> bool {
        true
    }

    /// One page of the user's cards.
    fn list_cards(&self, owner_id: i64, query: &CardQuery) -> (r: OpenDeskResult<(Vec<Card>, u32)>)
        ensures
            self.cards_listed(owner_id, *query, r);

    /// The user's card with the given id.
    fn get_card(&self, owner_id: i64, card_id: i64) -> (r: OpenDeskResult<Option<Card>>)
        ensures
            self.card_got(owner_id, card_id, r);

    /// Stores a new card and returns it as stored.
    fn create_card(&self, card: &Card) -> (r: OpenDeskResult<Card>)
        ensures
            self.card_created(*card, r);

    /// Updates a card.
    fn update_card(&self, card: &Card) -> (r: OpenDeskResult<()>)
        ensures
            self.card_updated(*card, r);

    /// Deletes the user's card.
    fn delete_card(&self, owner_id: i64, card_id: i64) -> (r: OpenDeskResult<()>)
        ensures
            self.card_deleted(owner_id, card_id, r);
}

/// The message refusing a card that is missing or not the user's.
pub open spec fn card_missing() -> Seq<char> {
    "卡券不存在或无权限"@
}

/// Card service.
pub struct CardService<'a> {
    /// The store the service works on.
    pub store: &'a dyn CardStore,
}

impl<'a> CardService<'a> {
    pub fn new(store: &'a dyn CardStore) -> Self {
        Self { store }
    }

    /// One page of the user's cards, as the store lists them.
    pub fn list(&self, owner_id: i64, query: &CardQuery) -> (r: OpenDeskResult<(Vec<Card>, u32)>)
        ensures
            self.store.cards_listed(owner_id, *query, r),
    {
        self.store.list_cards(owner_id, query)
    }

    /// Creates a card for the user; a blank name or type is refused, else
    /// the store's answer to storing the card with the user set is returned.
    pub fn create(&self, owner_id: i64, card: Card) -> (r: OpenDeskResult<Card>)
        ensures
            trim_seq(card.name@).len() == 0 ==> (r matches Err(e) && e@ == "卡券名称不能为空"@),
            trim_seq(card.name@).len() > 0 && trim_seq(card.card_type@).len() == 0 ==> (r matches Err(e) && e@
                == "卡券类型不能为空"@),
            trim_seq(card.name@).len() > 0 && trim_seq(card.card_type@).len() > 0 ==> self.store.card_created(
                (Card { owner_id: owner_id, ..card }),
                r,
            ),
    {
        let mut card = card;
        card.owner_id = owner_id;
        if is_blank(card.name.as_str()) {
            return Err(owned("卡券名称不能为空"));
        }
        if is_blank(card.card_type.as_str()) {
            return Err(owned("卡券类型不能为空"));
        }
        self.store.create_card(&card)
    }

    /// Updates the user's card: the lookup of the user's card with that id
    /// decides (see [`owner_checked`]); a card found is updated to `card`.
    pub fn update(&self, owner_id: i64, card: &Card) -> (r: OpenDeskResult<()>)
        ensures
            exists|got: OpenDeskResult<Option<Card>>|
                #![trigger self.store.card_got(owner_id, card.id, got)]
                self.store.card_got(owner_id, card.id, got) && owner_checked(got, r, card_missing()) && (got matches Ok(
                    Some(_),
                ) ==> self.store.card_updated(*card, r)),
    {
        let got = self.store.get_card(owner_id, card.id);
        let r = match owner_gate(&got, "卡券不存在或无权限") {
            Err(e) => Err(e),
            Ok(_) => self.store.update_card(card),
        };
        assert(owner_checked(got, r, card_missing()));
        r
    }

    /// Deletes the user's card: the lookup of the user's card decides (see
    /// [`owner_checked`]); a card found is deleted.
    pub fn delete(&self, owner_id: i64, card_id: i64) -> (r: OpenDeskResult<()>)
        ensures
            exists|got: OpenDeskResult<Option<Card>>|
                #![trigger self.store.card_got(owner_id, card_id, got)]
                self.store.card_got(owner_id, card_id, got) && owner_checked(got, r, card_missing()) && (got matches Ok(
                    Some(_),
                ) ==> self.store.card_deleted(owner_id, card_id, r)),
    {
        let got = self.store.get_card(owner_id, card_id);
        let r = match owner_gate(&got, "卡券不存在或无权限") {
            Err(e) => Err(e),
            Ok(_) => self.store.delete_card(owner_id, card_id),
        };
        assert(owner_checked(got, r, card_missing()));
        r
    }

    /// Enables or disables the user's card: the lookup of the user's card
    /// decides (see [`owner_checked`]); a card found is updated to itself
    /// with `enabled` set.
    pub fn set_enabled(&self, owner_id: i64, card_id: i64, enabled: bool) -> (r: OpenDeskResult<()>)
        ensures
            exists|got: OpenDeskResult<Option<Card>>|
                #![trigger self.store.card_got(owner_id, card_id, got)]
                self.store.card_got(owner_id, card_id, got) && owner_checked(got, r, card_missing()) && (got matches Ok(
                    Some(c),
                ) ==> self.store.card_updated((Card { enabled: enabled, ..c }), r)),
    {
        let got = self.store.get_card(owner_id, card_id);
        let r = match owner_gate(&got, "卡券不存在或无权限") {
            Err(e) => Err(e),
            Ok(c) => {
                let mut card = c.clone();
                card.enabled = enabled;
                self.store.update_card(&card)
            },
        };
        assert(owner_checked(got, r, card_missing()));
        r
    }
}

} // verus!
