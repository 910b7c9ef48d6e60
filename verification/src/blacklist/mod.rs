//! Blacklists: the personal blacklist (create, query, enable, delete) and
//! queries of the platform blacklist.
use vstd::prelude::*;
use crate::delivery::data::blacklist_level;
use crate::text::{opt_str, opt_string, owned, trim_opt_str, trim_seq, trim_str, str_is_empty, trimmed};
use crate::OpenDeskResult;

verus! {

/// An entry of the personal blacklist.
#[derive(Debug)]
pub struct PersonalBlacklistItem {
    pub id: i64,
    pub owner_id: i64,
    pub account_id: Option<String>,
    pub buyer_id: String,
    pub buyer_nick: Option<String>,
    pub item_id: Option<String>,
    pub reason: Option<String>,
    pub is_enabled: bool,
    pub created_at: Option<String>,
}

impl Clone for PersonalBlacklistItem {
    fn clone(&self) -> (r: Self)
        ensures
            r == *self,
    {
        PersonalBlacklistItem {
            id: self.id,
            owner_id: self.owner_id,
            account_id: self.account_id.clone(),
            buyer_id: self.buyer_id.clone(),
            buyer_nick: self.buyer_nick.clone(),
            item_id: self.item_id.clone(),
            reason: self.reason.clone(),
            is_enabled: self.is_enabled,
            created_at: self.created_at.clone(),
        }
    }
}

impl PersonalBlacklistItem {
    /// Match level, as in the delivery rules: item level with an account and
    /// an item, account level with an account only, else user level.
    pub fn level(&self) -> (s: &'static str)
        ensures
            s@ == blacklist_level(self.account_id is Some, self.item_id is Some),
    {
        match (&self.account_id, &self.item_id) {
            (Some(_), Some(_)) => "商品级",
            (Some(_), None) => "账户级",
            _ => "用户级",
        }
    }
}

/// An entry of the platform blacklist.
#[derive(Debug, Clone)]
pub struct PlatformBlacklistItem {
    pub id: i64,
    pub owner_id: i64,
    pub buyer_id: String,
    pub buyer_nick: Option<String>,
    pub created_at: Option<String>,
}

/// Query of the personal blacklist.
#[derive(Debug, Clone)]
pub struct BlacklistQuery {
    pub page: u32,
    pub page_size: u32,
    pub buyer_id: String,
    pub buyer_nick: String,
}

impl Default for BlacklistQuery {
    fn default() -> (q: Self)
        ensures
            q.page == 0 && q.page_size == 0 && q.buyer_id@.len() == 0 && q.buyer_nick@.len() == 0,
    {
        BlacklistQuery { page: 0, page_size: 0, buyer_id: String::new(), buyer_nick: String::new() }
    }
}

/// Storage of the blacklists, implemented by the application. Each `closed
/// spec fn` below names the answers the store may give to one of its calls
/// (unconstrained unless an implementation says otherwise).
pub trait BlacklistStore {
    /// `r` is an answer to listing a page of the personal blacklist.
    closed spec fn personal_listed(
        &self,
        owner_id: i64,
        query: BlacklistQuery,
        r: OpenDeskResult<(Vec<PersonalBlacklistItem>, u32)>,
    ) -> bool {
        true
    }

    /// `r` is an answer to listing a page of the platform blacklist.
    closed spec fn platform_listed(
        &self,
        owner_id: i64,
        query: BlacklistQuery,
        r: OpenDeskResult<(Vec<PlatformBlacklistItem>, u32)>,
    ) -> bool {
        true
    }

    /// `r` is an answer to storing the new personal entry `item`.
    closed spec fn personal_created(&self, item: PersonalBlacklistItem, r: OpenDeskResult<PersonalBlacklistItem>) -> bool {
        true
    }

    /// `r` is an answer to enabling (or disabling) the user's entry `id`.
    closed spec fn entry_enabled_set(&self, owner_id: i64, id: i64, enabled: bool, r: OpenDeskResult<()>) -> bool {
        true
    }

    /// `r` is an answer to deleting the user's entry `id`.
    closed spec fn entry_deleted(&self, owner_id: i64, id: i64, r: OpenDeskResult<()>) -> bool {
        true
    }

    /// One page of the personal blacklist.
    fn list_personal(&self, owner_id: i64, query: &BlacklistQuery) -> (r: OpenDeskResult<(Vec<PersonalBlacklistItem>, u32)>)
        ensures
            self.personal_listed(owner_id, *query, r);

    /// One page of the platform blacklist.
    fn list_platform(&self, owner_id: i64, query: &BlacklistQuery) -> (r: OpenDeskResult<(Vec<PlatformBlacklistItem>, u32)>)
        ensures
            self.platform_listed(owner_id, *query, r);

    /// Stores a new personal entry and returns it as stored.
    fn create_personal(&self, item: &PersonalBlacklistItem) -> (r: OpenDeskResult<PersonalBlacklistItem>)
        ensures
            self.personal_created(*item, r);

    /// Enables or disables the user's entry.
    fn set_enabled(&self, owner_id: i64, id: i64, enabled: bool) -> (r: OpenDeskResult<()>)
        ensures
            self.entry_enabled_set(owner_id, id, enabled, r);

    /// Deletes the user's entry.
    fn delete(&self, owner_id: i64, id: i64) -> (r: OpenDeskResult<()>)
        ensures
            self.entry_deleted(owner_id, id, r);
}

/// The entry stored for a new personal blacklist request: the trimmed buyer,
/// account, item and reason (dropped when blank), no nickname, enabled.
pub open spec fn prepared_blacklist_item(
    owner_id: i64,
    buyer_id: Seq<char>,
    account_id: Option<Seq<char>>,
    item_id: Option<Seq<char>>,
    reason: Option<Seq<char>>,
    r: PersonalBlacklistItem,
) -> bool {
    &&& r.id == 0
    &&& r.owner_id == owner_id
    &&& opt_string(r.account_id) == trimmed(account_id)
    &&& r.buyer_id@ == trim_seq(buyer_id)
    &&& r.buyer_nick is None
    &&& opt_string(r.item_id) == trimmed(item_id)
    &&& opt_string(r.reason) == trimmed(reason)
    &&& r.is_enabled
    &&& r.created_at is None
}

/// Blacklist service.
pub struct BlacklistService<'a> {
    /// The store the service works on.
    pub store: &'a dyn BlacklistStore,
}

impl<'a> BlacklistService<'a> {
    pub fn new(store: &'a dyn BlacklistStore) -> Self {
        Self { store }
    }

    /// One page of the personal blacklist, as the store lists it.
    pub fn list_personal(&self, owner_id: i64, query: &BlacklistQuery) -> (r: OpenDeskResult<(Vec<PersonalBlacklistItem>, u32)>)
        ensures
            self.store.personal_listed(owner_id, *query, r),
    {
        self.store.list_personal(owner_id, query)
    }

    /// One page of the platform blacklist, as the store lists it.
    pub fn list_platform(&self, owner_id: i64, query: &BlacklistQuery) -> (r: OpenDeskResult<(Vec<PlatformBlacklistItem>, u32)>)
        ensures
            self.store.platform_listed(owner_id, *query, r),
    {
        self.store.list_platform(owner_id, query)
    }

    /// The entry stored for a request (see [`prepared_blacklist_item`]).
    pub fn prepare(
        owner_id: i64,
        buyer_id: &str,
        account_id: Option<&str>,
        item_id: Option<&str>,
        reason: Option<&str>,
    ) -> (r: PersonalBlacklistItem)
        ensures
            prepared_blacklist_item(owner_id, buyer_id@, opt_str(account_id), opt_str(item_id), opt_str(reason), r),
    {
        PersonalBlacklistItem {
            id: 0,
            owner_id,
            account_id: trim_opt_str(account_id),
            buyer_id: trim_str(buyer_id),
            buyer_nick: None,
            item_id: trim_opt_str(item_id),
            reason: trim_opt_str(reason),
            is_enabled: true,
            created_at: None,
        }
    }

    /// Creates a personal entry; a blank buyer id is refused, else the store's
    /// answer to storing the prepared entry is returned.
    pub fn create(
        &self,
        owner_id: i64,
        buyer_id: &str,
        account_id: Option<&str>,
        item_id: Option<&str>,
        reason: Option<&str>,
    ) -> (r: OpenDeskResult<PersonalBlacklistItem>)
        ensures
            trim_seq(buyer_id@).len() == 0 ==> (r matches Err(e) && e@ == "买家 ID 不能为空"@),
            trim_seq(buyer_id@).len() > 0 ==> exists|item: PersonalBlacklistItem|
                #![trigger self.store.personal_created(item, r)]
                prepared_blacklist_item(owner_id, buyer_id@, opt_str(account_id), opt_str(item_id), opt_str(reason), item)
                    && self.store.personal_created(item, r),
    {
        let trimmed_buyer = trim_str(buyer_id);
        if str_is_empty(trimmed_buyer.as_str()) {
            return Err(owned("买家 ID 不能为空"));
        }
        let item = Self::prepare(owner_id, buyer_id, account_id, item_id, reason);
        self.store.create_personal(&item)
    }

    /// Enables or disables the user's entry.
    pub fn set_enabled(&self, owner_id: i64, id: i64, enabled: bool) -> (r: OpenDeskResult<()>)
        ensures
            self.store.entry_enabled_set(owner_id, id, enabled, r),
    {
        self.store.set_enabled(owner_id, id, enabled)
    }

    /// Deletes the user's entry.
    pub fn delete(&self, owner_id: i64, id: i64) -> (r: OpenDeskResult<()>)
        ensures
            self.store.entry_deleted(owner_id, id, r),
    {
        self.store.delete(owner_id, id)
    }
}

} // verus!
