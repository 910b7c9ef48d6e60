//! Default replies: the fallback when no keyword hits, with "reply only once".
use vstd::prelude::*;
use crate::seqs::{find_first, is_first, lemma_find_first, none_satisfy};
use crate::text::{concat3, owned, str_eq, str_is_empty};

verus! {

/// Store of default replies and of the users already answered once.
pub trait DefaultReplyStore {
    /// The configured default reply for the account and item, as
    /// `(content, reply_only_once)`.
    spec fn configured(&self, account: Seq<char>, item: Option<Seq<char>>) -> Option<(Seq<char>, bool)>;

    /// The `(account, user, item)` triples recorded as answered.
    spec fn answered_users(&self) -> Set<(Seq<char>, Seq<char>, Option<Seq<char>>)>;

    /// The default reply for the account (item-level before account-level),
    /// as `(content, reply_only_once)`.
    fn default_reply(&self, account_id: &str, item_id: Option<&str>) -> (r: Option<(String, bool)>)
        ensures
            answer_view(r) == self.configured(account_id@, opt_view(item_id));

    /// Whether this user was already answered for this account and item.
    fn has_replied(&self, account_id: &str, user_id: &str, item_id: Option<&str>) -> (b: bool)
        ensures
            b == self.answered_users().contains((account_id@, user_id@, opt_view(item_id)));

    /// Records that this user was answered for this account and item.
    fn mark_replied(&mut self, account_id: &str, user_id: &str, item_id: Option<&str>)
        ensures
            final(self).answered_users().contains((account_id@, user_id@, opt_view(item_id))),
            old(self).answered_users().subset_of(final(self).answered_users());
}

/// The value of an optional `(content, once)` answer.
pub open spec fn answer_view(r: Option<(String, bool)>) -> Option<(Seq<char>, bool)> {
    match r {
        Some(x) => Some((x.0@, x.1)),
        None => None,
    }
}

/// One configured reply: `(account, item, content, unused, once)`.
pub type ReplyEntry = (String, String, String, String, bool);

/// The view of an optional string.
pub open spec fn opt_view(o: Option<&str>) -> Option<Seq<char>> {
    match o {
        Some(s) => Some(s@),
        None => None,
    }
}

/// The key under which a "replied" mark is stored: `account|user|item`.
pub open spec fn reply_key_seq(account: Seq<char>, user: Seq<char>, item: Option<Seq<char>>) -> Seq<
    char,
> {
    account + "|"@ + user + "|"@ + match item {
        Some(i) => i,
        None => Seq::empty(),
    }
}

/// An item-level reply of the account for the requested item.
pub open spec fn item_level_match(account: Seq<char>, item: Option<Seq<char>>) -> spec_fn(
    ReplyEntry,
) -> bool {
    |e: ReplyEntry|
        e.0@ == account && e.1@.len() > 0 && match item {
            Some(id) => e.1@ == id,
            None => false,
        }
}

/// An account-level reply of the account.
pub open spec fn account_level_match(account: Seq<char>) -> spec_fn(ReplyEntry) -> bool {
    |e: ReplyEntry| e.0@ == account && e.1@.len() == 0
}

/// The default reply chosen from the configured entries: the first item-level
/// entry for the item, else the first account-level entry, as `(content, once)`.
pub open spec fn chosen_reply(entries: Seq<ReplyEntry>, account: Seq<char>, item: Option<Seq<char>>) -> Option<
    (Seq<char>, bool),
> {
    match find_first(entries, item_level_match(account, item)) {
        Some(i) => Some((entries[i].2@, entries[i].4)),
        None => match find_first(entries, account_level_match(account)) {
            Some(i) => Some((entries[i].2@, entries[i].4)),
            None => None,
        },
    }
}

fn reply_key(account_id: &str, user_id: &str, item_id: Option<&str>) -> (k: String)
    ensures
        k@ == reply_key_seq(account_id@, user_id@, opt_view(item_id)),
{
    let head = concat3(account_id, "|", user_id);
    let item = match item_id {
        Some(i) => i,
        None => "",
    };
    let k = concat3(head.as_str(), "|", item);
    proof {
        reveal_strlit("");
        assert(k@ =~= reply_key_seq(account_id@, user_id@, opt_view(item_id)));
    }
    k
}

/// In-memory default-reply store (development and tests).
pub struct InMemoryDefaultReply {
    replies: Vec<ReplyEntry>,
    replied: Vec<String>,
}

impl InMemoryDefaultReply {
    /// The configured replies, in insertion order.
    pub closed spec fn entries(&self) -> Seq<ReplyEntry> {
        self.replies@
    }

    /// The keys of the users already answered.
    pub closed spec fn replied_keys(&self) -> Set<Seq<char>> {
        Set::new(|k: Seq<char>| exists|i: int| 0 <= i < self.replied@.len() && #[trigger] self.replied@[i]@ == k)
    }

    /// An empty store.
    pub fn new() -> (s: Self)
        ensures
            s.entries().len() == 0,
            s.replied_keys() == Set::<Seq<char>>::empty(),
    {
        let s = InMemoryDefaultReply { replies: Vec::new(), replied: Vec::new() };
        assert(s.replied_keys() =~= Set::<Seq<char>>::empty());
        s
    }

    /// Adds a reply for the account (item-level when `item_id` is not empty).
    pub fn add(&mut self, account_id: &str, item_id: &str, content: &str, once: bool)
        ensures
            final(self).entries().len() == old(self).entries().len() + 1,
            final(self).entries().drop_last() == old(self).entries(),
            final(self).entries().last().0@ == account_id@,
            final(self).entries().last().1@ == item_id@,
            final(self).entries().last().2@ == content@,
            final(self).entries().last().3@.len() == 0,
            final(self).entries().last().4 == once,
            final(self).replied_keys() == old(self).replied_keys(),
    {
        let ghost before = self.replies@;
        self.replies.push(
            (owned(account_id), owned(item_id), owned(content), String::new(), once),
        );
        assert(self.replies@.drop_last() =~= before);
        assert(final(self).replied_keys() =~= old(self).replied_keys());
    }

    fn find_item_level(&self, account_id: &str, item_id: Option<&str>) -> (r: Option<usize>)
        ensures
            match r {
                Some(i) => is_first(
                    self.entries(),
                    item_level_match(account_id@, opt_view(item_id)),
                    i as int,
                ),
                None => none_satisfy(
                    self.entries(),
                    item_level_match(account_id@, opt_view(item_id)),
                ),
            },
    {
        let ghost p = item_level_match(account_id@, opt_view(item_id));
        let mut i: usize = 0;
        while i < self.replies.len()
            invariant
                i <= self.replies@.len(),
                p == item_level_match(account_id@, opt_view(item_id)),
                forall|j: int| 0 <= j < i ==> !p(#[trigger] self.replies@[j]),
            decreases self.replies.len() - i,
        {
            let e = &self.replies[i];
            let hit = match item_id {
                Some(id) => str_eq(e.0.as_str(), account_id) && !str_is_empty(e.1.as_str())
                    && str_eq(e.1.as_str(), id),
                None => false,
            };
            if hit {
                return Some(i);
            }
            i = i + 1;
        }
        None
    }

    fn find_account_level(&self, account_id: &str) -> (r: Option<usize>)
        ensures
            match r {
                Some(i) => is_first(self.entries(), account_level_match(account_id@), i as int),
                None => none_satisfy(self.entries(), account_level_match(account_id@)),
            },
    {
        let ghost p = account_level_match(account_id@);
        let mut i: usize = 0;
        while i < self.replies.len()
            invariant
                i <= self.replies@.len(),
                p == account_level_match(account_id@),
                forall|j: int| 0 <= j < i ==> !p(#[trigger] self.replies@[j]),
            decreases self.replies.len() - i,
        {
            let e = &self.replies[i];
            if str_eq(e.0.as_str(), account_id) && str_is_empty(e.1.as_str()) {
                return Some(i);
            }
            i = i + 1;
        }
        None
    }
}

impl Default for InMemoryDefaultReply {
    fn default() -> (s: Self)
        ensures
            s.entries().len() == 0,
            s.replied_keys() == Set::<Seq<char>>::empty(),
    {
        InMemoryDefaultReply::new()
    }
}

impl DefaultReplyStore for InMemoryDefaultReply {
    open spec fn configured(&self, account: Seq<char>, item: Option<Seq<char>>) -> Option<(Seq<char>, bool)> {
        chosen_reply(self.entries(), account, item)
    }

    /// The triples whose key `account|user|item` was recorded.
    open spec fn answered_users(&self) -> Set<(Seq<char>, Seq<char>, Option<Seq<char>>)> {
        Set::new(
            |t: (Seq<char>, Seq<char>, Option<Seq<char>>)| self.replied_keys().contains(reply_key_seq(t.0, t.1, t.2)),
        )
    }

    /// The first item-level reply for the item, else the first account-level reply.
    fn default_reply(&self, account_id: &str, item_id: Option<&str>) -> (r: Option<(String, bool)>)
        ensures
            match r {
                Some(x) => chosen_reply(self.entries(), account_id@, opt_view(item_id)) == Some(
                    (x.0@, x.1),
                ),
                None => chosen_reply(self.entries(), account_id@, opt_view(item_id)) is None,
            },
    {
        proof {
            lemma_find_first(self.entries(), item_level_match(account_id@, opt_view(item_id)));
            lemma_find_first(self.entries(), account_level_match(account_id@));
        }
        match self.find_item_level(account_id, item_id) {
            Some(i) => {
                let e = &self.replies[i];
                Some((e.2.clone(), e.4))
            },
            None => match self.find_account_level(account_id) {
                Some(i) => {
                    let e = &self.replies[i];
                    Some((e.2.clone(), e.4))
                },
                None => None,
            },
        }
    }

    /// Whether the key `account|user|item` was recorded.
    fn has_replied(&self, account_id: &str, user_id: &str, item_id: Option<&str>) -> (b: bool)
        ensures
            b == self.replied_keys().contains(
                reply_key_seq(account_id@, user_id@, opt_view(item_id)),
            ),
    {
        let key = reply_key(account_id, user_id, item_id);
        let mut i: usize = 0;
        while i < self.replied.len()
            invariant
                i <= self.replied@.len(),
                key@ == reply_key_seq(account_id@, user_id@, opt_view(item_id)),
                forall|j: int| 0 <= j < i ==> (#[trigger] self.replied@[j])@ != key@,
            decreases self.replied.len() - i,
        {
            if str_eq(self.replied[i].as_str(), key.as_str()) {
                assert(self.replied@[i as int]@ == key@);
                return true;
            }
            i = i + 1;
        }
        false
    }

    /// Records the key `account|user|item`.
    fn mark_replied(&mut self, account_id: &str, user_id: &str, item_id: Option<&str>)
        ensures
            final(self).replied_keys() == old(self).replied_keys().insert(
                reply_key_seq(account_id@, user_id@, opt_view(item_id)),
            ),
            final(self).entries() == old(self).entries(),
    {
        let key = reply_key(account_id, user_id, item_id);
        let ghost before = self.replied@;
        self.replied.push(key);
        proof {
            assert forall|k: Seq<char>| #[trigger] final(self).replied_keys().contains(k)
                <==> old(self).replied_keys().insert(
                reply_key_seq(account_id@, user_id@, opt_view(item_id)),
            ).contains(k) by {
                if exists|i: int| 0 <= i < before.len() && #[trigger] before[i]@ == k {
                    let i = choose|i: int| 0 <= i < before.len() && #[trigger] before[i]@ == k;
                    assert(self.replied@[i] == before[i]);
                }
                if exists|i: int| 0 <= i < self.replied@.len() && #[trigger] self.replied@[i]@ == k {
                    let i = choose|i: int| 0 <= i < self.replied@.len() && #[trigger] self.replied@[i]@ == k;
                    if i < before.len() {
                        assert(self.replied@[i] == before[i]);
                    }
                }
                if k == reply_key_seq(account_id@, user_id@, opt_view(item_id)) {
                    assert(self.replied@[before.len() as int]@ == k);
                }
            }
            assert(final(self).replied_keys() =~= old(self).replied_keys().insert(
                reply_key_seq(account_id@, user_id@, opt_view(item_id)),
            ));
        }
    }
}

} // verus!
