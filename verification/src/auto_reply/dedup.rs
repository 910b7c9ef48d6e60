//! Message dedup: the same content in the same chat is not answered twice
//! within the waiting window.
use vstd::prelude::*;
use crate::text::{chars_eq, chars_of, owned};

verus! {

/// `std::time::Instant`, the monotonic clock reading the window is measured from.
#[verifier::external_type_specification]
#[verifier::external_body]
pub struct ExInstant(std::time::Instant);

/// `std::time::Instant::now`: the current reading of the monotonic clock.
/// Its value depends on the time, so nothing is stated of it.
#[verifier::external_body]
fn instant_now() -> std::time::Instant {
    std::time::Instant::now()
}

/// `std::time::Instant::elapsed` in nanoseconds (`Duration::as_nanos`): the
/// time since `origin`. It depends on the time, so nothing is stated of it.
#[verifier::external_body]
fn nanos_since(origin: &std::time::Instant) -> u128 {
    origin.elapsed().as_nanos()
}

/// A dedup key: chat id plus message content.
#[derive(Debug, PartialEq, Eq, Hash)]
pub struct DedupKey {
    pub chat_id: String,
    pub content: String,
}

/// The value of a key.
pub open spec fn key_view(k: DedupKey) -> (Seq<char>, Seq<char>) {
    (k.chat_id@, k.content@)
}

impl Clone for DedupKey {
    fn clone(&self) -> (r: Self)
        ensures
            r == *self,
    {
        DedupKey { chat_id: self.chat_id.clone(), content: self.content.clone() }
    }
}

impl DedupKey {
    /// The key of a message in a chat.
    pub fn new(chat_id: &str, content: &str) -> (k: Self)
        ensures
            k.chat_id@ == chat_id@,
            k.content@ == content@,
    {
        DedupKey { chat_id: owned(chat_id), content: owned(content) }
    }
}

/// Whether two keys are equal.
pub fn key_eq(a: &DedupKey, b: &DedupKey) -> (r: bool)
    ensures
        r == (key_view(*a) == key_view(*b)),
{
    let a1 = chars_of(a.chat_id.as_str());
    let b1 = chars_of(b.chat_id.as_str());
    if !chars_eq(&a1, &b1) {
        return false;
    }
    let a2 = chars_of(a.content.as_str());
    let b2 = chars_of(b.content.as_str());
    chars_eq(&a2, &b2)
}

/// Dedup store: answers whether a key was processed within the window.
pub trait DedupStore {
    /// The keys the store was ever asked to mark.
    spec fn marked(&self) -> Set<(Seq<char>, Seq<char>)>;

    /// Whether the key counts as processed (a duplicate) when the store's
    /// clock reads `now`.
    spec fn duplicate_at(&self, key: (Seq<char>, Seq<char>), now: u128) -> bool;

    /// Whether the key was processed within the waiting window (a duplicate):
    /// the answer for the clock reading when asked; only a marked key can be.
    fn is_processed(&self, key: &DedupKey) -> (b: bool)
        ensures
            b ==> self.marked().contains(key_view(*key)),
            exists|now: u128| b == #[trigger] self.duplicate_at(key_view(*key), now);

    /// Marks the key as processed now (restarts its window).
    fn mark_processed(&mut self, key: &DedupKey)
        ensures
            final(self).marked() == old(self).marked().insert(key_view(*key));
}

/// Number of distinct keys above which expired entries are dropped.
pub const CLEANUP_THRESHOLD: usize = 10_000;

/// The window length in nanoseconds.
pub open spec fn window_nanos(expire_seconds: u64) -> int {
    expire_seconds * 1_000_000_000
}

/// Time elapsed between a mark at `stamp` and a reading `now` (never negative).
pub open spec fn elapsed(stamp: u128, now: u128) -> int {
    if now >= stamp {
        now - stamp
    } else {
        0
    }
}

/// `key` was marked and its window has not run out at clock reading `now`.
pub open spec fn processed_at(
    marks: Map<(Seq<char>, Seq<char>), u128>,
    expire_seconds: u64,
    key: (Seq<char>, Seq<char>),
    now: u128,
) -> bool {
    marks.contains_key(key) && elapsed(marks[key], now) < window_nanos(expire_seconds)
}

/// The marks kept by a cleanup at clock reading `now`: those still in their
/// window.
pub open spec fn after_cleanup(
    marks: Map<(Seq<char>, Seq<char>), u128>,
    expire_seconds: u64,
    now: u128,
) -> Map<(Seq<char>, Seq<char>), u128> {
    Map::new(
        |k: (Seq<char>, Seq<char>)| processed_at(marks, expire_seconds, k, now),
        |k: (Seq<char>, Seq<char>)| marks[k],
    )
}

/// A message marked at `now` is a duplicate at every later reading within the
/// window (with a non-zero window).
pub proof fn lemma_marked_is_duplicate(
    marks: Map<(Seq<char>, Seq<char>), u128>,
    expire_seconds: u64,
    key: (Seq<char>, Seq<char>),
    now: u128,
    later: u128,
)
    requires
        now <= later,
        later - now < window_nanos(expire_seconds),
    ensures
        processed_at(marks.insert(key, now), expire_seconds, key, later),
{
}

/// Marking a key leaves every other key's answer unchanged (another chat or
/// another message is never a duplicate because of it).
pub proof fn lemma_mark_keeps_other_keys(
    marks: Map<(Seq<char>, Seq<char>), u128>,
    expire_seconds: u64,
    key: (Seq<char>, Seq<char>),
    other: (Seq<char>, Seq<char>),
    now: u128,
    at: u128,
)
    requires
        other != key,
    ensures
        processed_at(marks.insert(key, now), expire_seconds, other, at) == processed_at(marks, expire_seconds, other, at),
{
}

/// Once its window has run out a mark no longer makes a duplicate.
pub proof fn lemma_mark_expires(
    marks: Map<(Seq<char>, Seq<char>), u128>,
    expire_seconds: u64,
    key: (Seq<char>, Seq<char>),
    now: u128,
    later: u128,
)
    requires
        now <= later,
        later - now >= window_nanos(expire_seconds),
    ensures
        !processed_at(marks.insert(key, now), expire_seconds, key, later),
{
}

/// A cleanup at `now` changes no answer at `now` or later: it only drops
/// marks that are already out of their window.
pub proof fn lemma_cleanup_keeps_answers(
    marks: Map<(Seq<char>, Seq<char>), u128>,
    expire_seconds: u64,
    key: (Seq<char>, Seq<char>),
    now: u128,
    later: u128,
)
    requires
        now <= later,
    ensures
        processed_at(after_cleanup(marks, expire_seconds, now), expire_seconds, key, later) == processed_at(
            marks,
            expire_seconds,
            key,
            later,
        ),
{
    if marks.contains_key(key) && !processed_at(marks, expire_seconds, key, now) {
        assert(elapsed(marks[key], later) >= elapsed(marks[key], now));
    }
}

/// The marks recorded by a list of entries (later entries win).
pub open spec fn marks_of(s: Seq<(DedupKey, u128)>) -> Map<(Seq<char>, Seq<char>), u128>
    decreases s.len(),
{
    if s.len() == 0 {
        Map::empty()
    } else {
        marks_of(s.drop_last()).insert(key_view(s.last().0), s.last().1)
    }
}

/// No key occurs twice.
pub open spec fn keys_unique(s: Seq<(DedupKey, u128)>) -> bool {
    forall|i: int, j: int|
        0 <= i < s.len() && 0 <= j < s.len() && i != j ==> key_view(#[trigger] s[i].0)
            != key_view(#[trigger] s[j].0)
}

proof fn lemma_marks_of(s: Seq<(DedupKey, u128)>)
    requires
        keys_unique(s),
    ensures
        forall|k: (Seq<char>, Seq<char>)|
            #[trigger] marks_of(s).contains_key(k) <==> exists|i: int|
                0 <= i < s.len() && key_view(#[trigger] s[i].0) == k,
        forall|i: int| 0 <= i < s.len() ==> #[trigger] marks_of(s)[key_view(s[i].0)] == s[i].1,
        marks_of(s).dom().finite(),
        marks_of(s).dom().len() == s.len(),
    decreases s.len(),
{
    if s.len() > 0 {
        let t = s.drop_last();
        assert(keys_unique(t)) by {
            assert forall|i: int, j: int|
                0 <= i < t.len() && 0 <= j < t.len() && i != j implies key_view(#[trigger] t[i].0)
                != key_view(#[trigger] t[j].0) by {
                assert(t[i] == s[i] && t[j] == s[j]);
            }
        }
        lemma_marks_of(t);
        let last = key_view(s.last().0);
        assert(!marks_of(t).contains_key(last)) by {
            if marks_of(t).contains_key(last) {
                let i = choose|i: int| 0 <= i < t.len() && key_view(#[trigger] t[i].0) == last;
                assert(s[i] == t[i]);
                assert(key_view(s[i].0) != key_view(s[s.len() - 1].0));
            }
        }
        assert forall|k: (Seq<char>, Seq<char>)|
            #[trigger] marks_of(s).contains_key(k) <==> exists|i: int|
                0 <= i < s.len() && key_view(#[trigger] s[i].0) == k by {
            if marks_of(s).contains_key(k) {
                if k == last {
                    assert(key_view(s[s.len() - 1].0) == k);
                } else {
                    let i = choose|i: int| 0 <= i < t.len() && key_view(#[trigger] t[i].0) == k;
                    assert(s[i] == t[i]);
                }
            }
            if exists|i: int| 0 <= i < s.len() && key_view(#[trigger] s[i].0) == k {
                let i = choose|i: int| 0 <= i < s.len() && key_view(#[trigger] s[i].0) == k;
                if i < s.len() - 1 {
                    assert(s[i] == t[i]);
                }
            }
        }
        assert forall|i: int| 0 <= i < s.len() implies #[trigger] marks_of(s)[key_view(s[i].0)]
            == s[i].1 by {
            if i < s.len() - 1 {
                assert(s[i] == t[i]);
                assert(key_view(s[i].0) != last);
            }
        }
    }
}

/// In-memory dedup store (one process). The marks are a vector holding each
/// key once: the key is a pair of strings, for which vstd's hash-map
/// specifications give no lookup guarantees.
pub struct InMemoryDedup {
    entries: Vec<(DedupKey, u128)>,
    expire_seconds: u64,
    origin: std::time::Instant,
    /// Every key ever marked (kept when a mark is cleaned up).
    history: Ghost<Set<(Seq<char>, Seq<char>)>>,
}

impl InMemoryDedup {
    /// The recorded marks: key → clock reading (nanoseconds since the store's origin).
    pub closed spec fn marks(&self) -> Map<(Seq<char>, Seq<char>), u128> {
        marks_of(self.entries@)
    }

    /// The waiting window in seconds.
    pub closed spec fn expire_seconds(&self) -> u64 {
        self.expire_seconds
    }

    /// Every key ever marked, including marks dropped by a cleanup.
    pub closed spec fn history(&self) -> Set<(Seq<char>, Seq<char>)> {
        self.history@
    }

    /// The entries hold each key once, and every held mark was made.
    #[verifier::type_invariant]
    spec fn wf(&self) -> bool {
        &&& keys_unique(self.entries@)
        &&& marks_of(self.entries@).dom().subset_of(self.history@)
    }

    /// Whether `key` counts as processed at clock reading `now`.
    pub open spec fn processed(&self, key: (Seq<char>, Seq<char>), now: u128) -> bool {
        processed_at(self.marks(), self.expire_seconds(), key, now)
    }

    /// A store with the given waiting window (seconds) and no marks.
    pub fn new(expire_seconds: u64) -> (d: Self)
        ensures
            d.marks() == Map::<(Seq<char>, Seq<char>), u128>::empty(),
            d.expire_seconds() == expire_seconds,
            d.history() == Set::<(Seq<char>, Seq<char>)>::empty(),
    {
        InMemoryDedup {
            entries: Vec::new(),
            expire_seconds,
            origin: instant_now(),
            history: Ghost(Set::empty()),
        }
    }

    /// Number of distinct keys recorded.
    pub fn len(&self) -> (n: usize)
        ensures
            n == self.marks().dom().len(),
    {
        proof {
            use_type_invariant(&*self);
            lemma_marks_of(self.entries@);
        }
        self.entries.len()
    }

    fn find(&self, key: &DedupKey) -> (r: Option<usize>)
        ensures
            match r {
                Some(i) => i < self.entries@.len() && key_view(self.entries@[i as int].0)
                    == key_view(*key),
                None => !self.marks().contains_key(key_view(*key)),
            },
    {
        proof {
            use_type_invariant(&*self);
            lemma_marks_of(self.entries@);
        }
        let mut i: usize = 0;
        while i < self.entries.len()
            invariant
                i <= self.entries@.len(),
                forall|j: int|
                    0 <= j < i ==> key_view(#[trigger] self.entries@[j].0) != key_view(*key),
            decreases self.entries.len() - i,
        {
            if key_eq(&self.entries[i].0, key) {
                return Some(i);
            }
            i = i + 1;
        }
        None
    }

    /// Whether `key` counts as processed at clock reading `now`.
    pub fn is_processed_at(&self, key: &DedupKey, now: u128) -> (b: bool)
        ensures
            b == self.processed(key_view(*key), now),
    {
        proof {
            use_type_invariant(&*self);
            lemma_marks_of(self.entries@);
        }
        match self.find(key) {
            Some(i) => {
                let stamp = self.entries[i].1;
                let el: u128 = if now >= stamp {
                    now - stamp
                } else {
                    0
                };
                let window: u128 = (self.expire_seconds as u128) * 1_000_000_000u128;
                el < window
            },
            None => false,
        }
    }

    /// Records `key` as processed at clock reading `now`.
    pub fn mark_processed_at(&mut self, key: &DedupKey, now: u128)
        ensures
            final(self).marks() == old(self).marks().insert(key_view(*key), now),
            final(self).expire_seconds() == old(self).expire_seconds(),
            final(self).history() == old(self).history().insert(key_view(*key)),
    {
        proof {
            use_type_invariant(&*self);
            lemma_marks_of(self.entries@);
        }
        self.history = Ghost(self.history@.insert(key_view(*key)));
        match self.find(key) {
            Some(i) => {
                let ghost before = self.entries@;
                let mut entries: Vec<(DedupKey, u128)> = Vec::new();
                std::mem::swap(&mut entries, &mut self.entries);
                entries.set(i, (key.clone(), now));
                proof {
                    assert(keys_unique(entries@)) by {
                        assert forall|a: int, b: int|
                            0 <= a < entries@.len() && 0 <= b < entries@.len() && a
                                != b implies key_view(#[trigger] entries@[a].0) != key_view(
                            #[trigger] entries@[b].0,
                        ) by {
                            assert(key_view(before[a].0) != key_view(before[b].0));
                        }
                    }
                    lemma_marks_of(entries@);
                    assert(marks_of(entries@) =~= marks_of(before).insert(key_view(*key), now)) by {
                        assert forall|k| #[trigger] marks_of(entries@).contains_key(k)
                            <==> marks_of(before).insert(key_view(*key), now).contains_key(k) by {
                            if marks_of(entries@).contains_key(k) {
                                let j = choose|j: int|
                                    0 <= j < entries@.len() && key_view(
                                        #[trigger] entries@[j].0,
                                    ) == k;
                                if j != i {
                                    assert(entries@[j] == before[j]);
                                }
                            }
                            if marks_of(before).contains_key(k) {
                                let j = choose|j: int|
                                    0 <= j < before.len() && key_view(#[trigger] before[j].0)
                                        == k;
                                if j != i {
                                    assert(entries@[j] == before[j]);
                                } else {
                                    assert(key_view(entries@[j].0) == k);
                                }
                            }
                            if k == key_view(*key) {
                                assert(key_view(entries@[i as int].0) == k);
                            }
                        }
                        assert forall|k| #[trigger] marks_of(entries@).contains_key(k) implies marks_of(entries@)[k]
                            == marks_of(before).insert(key_view(*key), now)[k] by {
                            let j = choose|j: int|
                                0 <= j < entries@.len() && key_view(
                                    #[trigger] entries@[j].0,
                                ) == k;
                            assert(marks_of(entries@)[key_view(entries@[j].0)] == entries@[j].1);
                            if j != i {
                                assert(entries@[j] == before[j]);
                                assert(marks_of(before)[key_view(before[j].0)] == before[j].1);
                            }
                        }
                    }
                }
                proof {
                    assert(marks_of(entries@).dom().subset_of(self.history@));
                }
                self.entries = entries;
            },
            None => {
                let ghost before = self.entries@;
                let mut entries: Vec<(DedupKey, u128)> = Vec::new();
                std::mem::swap(&mut entries, &mut self.entries);
                entries.push((key.clone(), now));
                proof {
                    assert(entries@.drop_last() =~= before);
                    assert(keys_unique(entries@)) by {
                        assert forall|a: int, b: int|
                            0 <= a < entries@.len() && 0 <= b < entries@.len() && a
                                != b implies key_view(#[trigger] entries@[a].0) != key_view(
                            #[trigger] entries@[b].0,
                        ) by {
                            if a < before.len() && b < before.len() {
                                assert(entries@[a] == before[a]);
                                assert(entries@[b] == before[b]);
                            } else if a < before.len() {
                                assert(entries@[a] == before[a]);
                                assert(marks_of(before).contains_key(key_view(before[a].0)));
                            } else {
                                assert(entries@[b] == before[b]);
                                assert(marks_of(before).contains_key(key_view(before[b].0)));
                            }
                        }
                    }
                }
                proof {
                    assert(marks_of(entries@).dom().subset_of(self.history@));
                }
                self.entries = entries;
            },
        }
    }

    /// Drops every entry whose window has run out at clock reading `now`.
    pub fn cleanup_at(&mut self, now: u128)
        ensures
            final(self).expire_seconds() == old(self).expire_seconds(),
            final(self).marks() == after_cleanup(old(self).marks(), old(self).expire_seconds(), now),
            final(self).history() == old(self).history(),
    {
        proof {
            use_type_invariant(&*self);
        }
        let ghost before = self.entries@;
        let ghost q = |t: u128| elapsed(t, now) < window_nanos(self.expire_seconds);
        let ghost pred = |e: (DedupKey, u128)| q(e.1);
        let window: u128 = (self.expire_seconds as u128) * 1_000_000_000u128;
        let mut kept: Vec<(DedupKey, u128)> = Vec::new();
        let mut i: usize = 0;
        assert(before.take(0).filter(pred) =~= kept@);
        while i < self.entries.len()
            invariant
                before == self.entries@,
                window == window_nanos(self.expire_seconds),
                pred == (|e: (DedupKey, u128)| q(e.1)),
                q == (|t: u128| elapsed(t, now) < window_nanos(self.expire_seconds)),
                i <= before.len(),
                kept@ == before.take(i as int).filter(pred),
            decreases before.len() - i,
        {
            let stamp = self.entries[i].1;
            let el: u128 = if now >= stamp {
                now - stamp
            } else {
                0
            };
            proof {
                reveal(Seq::filter);
                assert(before.take(i + 1).drop_last() =~= before.take(i as int));
                assert(before.take(i + 1).last() == before[i as int]);
                assert(pred(before[i as int]) == (el < window));
            }
            if el < window {
                let k = self.entries[i].0.clone();
                kept.push((k, stamp));
                proof {
                    reveal(Seq::filter);
                    assert(kept@ =~= before.take(i + 1).filter(pred));
                }
            } else {
                proof {
                    reveal(Seq::filter);
                    assert(kept@ =~= before.take(i + 1).filter(pred));
                }
            }
            i = i + 1;
        }
        proof {
            assert(before.take(before.len() as int) =~= before);
            lemma_marks_filter(before, q);
        }
        self.entries = kept;
        proof {
            assert(self.marks() =~= Map::new(
                |k: (Seq<char>, Seq<char>)| processed_at(marks_of(before), self.expire_seconds, k, now),
                |k: (Seq<char>, Seq<char>)| marks_of(before)[k],
            ));
        }
    }
}

proof fn lemma_marks_filter(s: Seq<(DedupKey, u128)>, q: spec_fn(u128) -> bool)
    requires
        keys_unique(s),
    ensures
        keys_unique(s.filter(|e: (DedupKey, u128)| q(e.1))),
        marks_of(s.filter(|e: (DedupKey, u128)| q(e.1))) == Map::new(
            |k: (Seq<char>, Seq<char>)| marks_of(s).contains_key(k) && q(marks_of(s)[k]),
            |k: (Seq<char>, Seq<char>)| marks_of(s)[k],
        ),
    decreases s.len(),
{
    let pred = |e: (DedupKey, u128)| q(e.1);
    reveal(Seq::filter);
    if s.len() == 0 {
        assert(marks_of(s.filter(pred)) =~= Map::new(
            |k: (Seq<char>, Seq<char>)| marks_of(s).contains_key(k) && q(marks_of(s)[k]),
            |k: (Seq<char>, Seq<char>)| marks_of(s)[k],
        ));
    } else {
        let t = s.drop_last();
        let e = s.last();
        assert(keys_unique(t)) by {
            assert forall|i: int, j: int|
                0 <= i < t.len() && 0 <= j < t.len() && i != j implies key_view(#[trigger] t[i].0)
                != key_view(#[trigger] t[j].0) by {
                assert(t[i] == s[i] && t[j] == s[j]);
            }
        }
        lemma_marks_filter(t, q);
        lemma_marks_of(t);
        lemma_marks_of(s);
        let ft = t.filter(pred);
        lemma_marks_of(ft);
        assert(!marks_of(t).contains_key(key_view(e.0))) by {
            if marks_of(t).contains_key(key_view(e.0)) {
                let i = choose|i: int| 0 <= i < t.len() && key_view(#[trigger] t[i].0) == key_view(e.0);
                assert(s[i] == t[i]);
                assert(key_view(s[i].0) != key_view(s[s.len() - 1].0));
            }
        }
        if pred(e) {
            assert(s.filter(pred) == ft.push(e));
            let fs = ft.push(e);
            assert(fs.drop_last() =~= ft);
            assert(keys_unique(fs)) by {
                assert forall|i: int, j: int|
                    0 <= i < fs.len() && 0 <= j < fs.len() && i != j implies key_view(
                    #[trigger] fs[i].0,
                ) != key_view(#[trigger] fs[j].0) by {
                    if i < ft.len() && j < ft.len() {
                        assert(fs[i] == ft[i] && fs[j] == ft[j]);
                    } else if i < ft.len() {
                        assert(fs[i] == ft[i]);
                        assert(marks_of(ft).contains_key(key_view(ft[i].0)));
                    } else {
                        assert(fs[j] == ft[j]);
                        assert(marks_of(ft).contains_key(key_view(ft[j].0)));
                    }
                }
            }
        } else {
            assert(s.filter(pred) == ft);
        }
        assert(marks_of(s.filter(pred)) =~= Map::new(
            |k: (Seq<char>, Seq<char>)| marks_of(s).contains_key(k) && q(marks_of(s)[k]),
            |k: (Seq<char>, Seq<char>)| marks_of(s)[k],
        ));
    }
}

impl DedupStore for InMemoryDedup {
    closed spec fn marked(&self) -> Set<(Seq<char>, Seq<char>)> {
        self.history()
    }

    open spec fn duplicate_at(&self, key: (Seq<char>, Seq<char>), now: u128) -> bool {
        self.processed(key, now)
    }

    /// Reads the clock and answers `is_processed_at` for that reading.
    fn is_processed(&self, key: &DedupKey) -> (b: bool)
        ensures
            b ==> self.marks().contains_key(key_view(*key)),
            exists|now: u128| b == self.processed(key_view(*key), now),
    {
        proof {
            use_type_invariant(&*self);
        }
        let now = nanos_since(&self.origin);
        let b = self.is_processed_at(key, now);
        assert(b == self.duplicate_at(key_view(*key), now));
        b
    }

    /// Reads the clock and marks the key at that reading; above the cleanup
    /// threshold, entries whose window has run out are dropped.
    fn mark_processed(&mut self, key: &DedupKey)
        ensures
            final(self).expire_seconds() == old(self).expire_seconds(),
            exists|now: u128|
                {
                    let inserted = #[trigger] old(self).marks().insert(key_view(*key), now);
                    &&& final(self).marks().submap_of(inserted)
                    &&& inserted.dom().len() <= CLEANUP_THRESHOLD ==> final(self).marks()
                        == inserted
                },
    {
        let now = nanos_since(&self.origin);
        self.mark_processed_at(key, now);
        if self.len() > CLEANUP_THRESHOLD {
            let later = nanos_since(&self.origin);
            self.cleanup_at(later);
        }
    }
}

impl Default for InMemoryDedup {
    /// A store with the default one-hour window.
    fn default() -> (d: Self)
        ensures
            d.marks() == Map::<(Seq<char>, Seq<char>), u128>::empty(),
            d.expire_seconds() == 3600,
    {
        InMemoryDedup::new(3600)
    }
}

} // verus!
