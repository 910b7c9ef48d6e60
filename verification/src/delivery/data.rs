//! Data access for the rule engine, implemented by the application.
use vstd::prelude::*;
use crate::OpenDeskResult;

verus! {

/// A personal blacklist hit.
#[derive(Debug)]
pub struct BlacklistRecord {
    pub id: i64,
    pub account_id: Option<String>,
    pub item_id: Option<String>,
    pub reason: Option<String>,
}

/// The blacklist level of a record with the given scope: item level when both
/// an account and an item are set, account level with an account only, else
/// user level.
pub open spec fn blacklist_level(has_account: bool, has_item: bool) -> Seq<char> {
    if has_account && has_item {
        "商品级"@
    } else if has_account {
        "账户级"@
    } else {
        "用户级"@
    }
}

impl Clone for BlacklistRecord {
    fn clone(&self) -> (r: Self)
        ensures
            r == *self,
    {
        BlacklistRecord {
            id: self.id,
            account_id: self.account_id.clone(),
            item_id: self.item_id.clone(),
            reason: self.reason.clone(),
        }
    }
}

impl BlacklistRecord {
    /// Hit level: item level > account level > user level.
    pub fn level(&self) -> (s: &'static str)
        ensures
            s@ == blacklist_level(self.account_id is Some, self.item_id is Some),
    {
        match (&self.account_id, &self.item_id) {
            (Some(_), Some(_)) => "商品级",
            (Some(_), None) => "账户级",
            _ => "用户级",
        }
    }
}

/// Data source of the delivery rules. Query errors are returned as `Err`
/// (rules then let the delivery pass).
/// The item an order query is restricted to, as a value: the order's item
/// when `same_item_only`, else none.
pub open spec fn item_scope(item_id: Option<&str>, same_item_only: bool) -> Option<Seq<char>> {
    if same_item_only {
        match item_id {
            Some(i) => Some(i@),
            None => None,
        }
    } else {
        None
    }
}

/// Data source of the delivery rules. Query errors are returned as `Err`
/// (rules then let the delivery pass). Each `*_answer` relation says which
/// answers the source gives to a query; a source that does not say leaves
/// them unconstrained.
pub trait DeliveryDataSource {
    /// `r` is an answer to counting the buyer's orders with the account,
    /// the order `exclude` left out, restricted to `item` when given.
    closed spec fn buyer_orders_answer(
        &self,
        account: Seq<char>,
        buyer: Seq<char>,
        exclude: Seq<char>,
        item: Option<Seq<char>>,
        r: OpenDeskResult<u32>,
    ) -> bool {
        true
    }

    /// `r` is an answer to counting the buyer's orders under every account
    /// of the owner, the order `exclude` left out, restricted to `item`.
    closed spec fn owner_orders_answer(
        &self,
        owner: i64,
        buyer: Seq<char>,
        exclude: Seq<char>,
        item: Option<Seq<char>>,
        r: OpenDeskResult<u32>,
    ) -> bool {
        true
    }

    /// `r` is an answer to counting the buyer's unconfirmed orders with the
    /// account, the order `exclude` left out, restricted to `item`.
    closed spec fn unconfirmed_answer(
        &self,
        account: Seq<char>,
        buyer: Seq<char>,
        exclude: Seq<char>,
        item: Option<Seq<char>>,
        r: OpenDeskResult<u32>,
    ) -> bool {
        true
    }

    /// `r` is an answer to looking the buyer up in the owner's blacklist.
    closed spec fn blacklist_answer(
        &self,
        owner: i64,
        account: Seq<char>,
        buyer: Seq<char>,
        item: Option<Seq<char>>,
        r: OpenDeskResult<Option<BlacklistRecord>>,
    ) -> bool {
        true
    }

    /// `r` is an answer to asking the buyer's rating count.
    closed spec fn rate_answer(&self, buyer: Seq<char>, r: OpenDeskResult<u32>) -> bool {
        true
    }

    /// Orders of the buyer under the seller account, excluding the given order.
    fn count_buyer_orders(
        &self,
        account_id: &str,
        buyer_id: &str,
        exclude_order_no: &str,
        item_id: Option<&str>,
    ) -> (r: OpenDeskResult<u32>)
        ensures
            self.buyer_orders_answer(account_id@, buyer_id@, exclude_order_no@, item_scope(item_id, true), r);

    /// Orders of the buyer under every account of the owner, excluding the given order.
    fn count_owner_orders(
        &self,
        owner_id: i64,
        buyer_id: &str,
        exclude_order_no: &str,
        item_id: Option<&str>,
    ) -> (r: OpenDeskResult<u32>)
        ensures
            self.owner_orders_answer(owner_id, buyer_id@, exclude_order_no@, item_scope(item_id, true), r);

    /// Shipped but unconfirmed orders of the buyer under the seller account.
    fn count_unconfirmed_orders(
        &self,
        account_id: &str,
        buyer_id: &str,
        exclude_order_no: &str,
        item_id: Option<&str>,
    ) -> (r: OpenDeskResult<u32>)
        ensures
            self.unconfirmed_answer(account_id@, buyer_id@, exclude_order_no@, item_scope(item_id, true), r);

    /// The buyer's personal blacklist record (item > account > user level).
    fn find_blacklist(
        &self,
        owner_id: i64,
        account_id: &str,
        buyer_id: &str,
        item_id: Option<&str>,
    ) -> (r: OpenDeskResult<Option<BlacklistRecord>>)
        ensures
            self.blacklist_answer(owner_id, account_id@, buyer_id@, item_scope(item_id, true), r);

    /// Number of ratings the buyer has received.
    fn fetch_buyer_rate_count(&self, buyer_id: &str) -> (r: OpenDeskResult<u32>)
        ensures
            self.rate_answer(buyer_id@, r);
}

} // verus!
