//! Flat key/value data standing for the JSON objects that rule configs and
//! rule results carry: rule parameters read by the rules, and the extra data
//! attached to a check result.
use vstd::prelude::*;
use crate::text::{owned, str_eq};

verus! {

/// A rule parameter value (a JSON value seen through `as_bool` / `as_u64`).
#[derive(Debug, Clone, Copy, PartialEq, Eq, Structural)]
pub enum ParamValue {
    Bool(bool),
    /// A non-negative integer that fits in 64 bits.
    UInt(u64),
    /// Any other JSON value.
    Other,
}

/// Rule parameters: a JSON object as `(key, value)` pairs; for a repeated key
/// the last pair counts.
#[derive(Debug)]
pub struct RuleParams {
    pub entries: Vec<(String, ParamValue)>,
}

/// The value stored under `key` (the last pair with that key).
pub open spec fn param_lookup(s: Seq<(String, ParamValue)>, key: Seq<char>) -> Option<ParamValue>
    decreases s.len(),
{
    if s.len() == 0 {
        None
    } else if s.last().0@ == key {
        Some(s.last().1)
    } else {
        param_lookup(s.drop_last(), key)
    }
}

/// `get(key).and_then(as_bool).unwrap_or(default)`.
pub open spec fn param_bool(p: RuleParams, key: Seq<char>, default: bool) -> bool {
    match param_lookup(p.entries@, key) {
        Some(ParamValue::Bool(b)) => b,
        _ => default,
    }
}

/// `get(key).and_then(as_u64).map(|v| v as u32).unwrap_or(default)`.
pub open spec fn param_u32(p: RuleParams, key: Seq<char>, default: u32) -> u32 {
    match param_lookup(p.entries@, key) {
        Some(ParamValue::UInt(v)) => v as u32,
        _ => default,
    }
}

impl RuleParams {
    /// An empty object.
    pub fn new() -> (p: Self)
        ensures
            p.entries@.len() == 0,
    {
        RuleParams { entries: Vec::new() }
    }

    /// The object with `key` set to `value`.
    pub fn with(self, key: &str, value: ParamValue) -> (p: Self)
        ensures
            p.entries@.len() == self.entries@.len() + 1,
            p.entries@.drop_last() == self.entries@,
            p.entries@.last().0@ == key@,
            p.entries@.last().1 == value,
    {
        let mut p = self;
        let ghost before = p.entries@;
        p.entries.push((owned(key), value));
        assert(p.entries@.drop_last() =~= before);
        p
    }

    /// The value under `key`.
    pub fn get(&self, key: &str) -> (v: Option<ParamValue>)
        ensures
            v == param_lookup(self.entries@, key@),
    {
        let mut i: usize = self.entries.len();
        assert(self.entries@.take(i as int) =~= self.entries@);
        while i > 0
            invariant
                i <= self.entries@.len(),
                param_lookup(self.entries@, key@) == param_lookup(self.entries@.take(i as int), key@),
            decreases i,
        {
            let ghost t = self.entries@.take(i as int);
            assert(t.drop_last() =~= self.entries@.take(i - 1));
            if str_eq(self.entries[i - 1].0.as_str(), key) {
                return Some(self.entries[i - 1].1);
            }
            i = i - 1;
        }
        None
    }

    /// The boolean under `key`, else `default`.
    pub fn get_bool(&self, key: &str, default: bool) -> (b: bool)
        ensures
            b == param_bool(*self, key@, default),
    {
        match self.get(key) {
            Some(ParamValue::Bool(b)) => b,
            _ => default,
        }
    }

    /// The unsigned number under `key` cut to 32 bits, else `default`.
    pub fn get_u32(&self, key: &str, default: u32) -> (n: u32)
        ensures
            n == param_u32(*self, key@, default),
    {
        match self.get(key) {
            Some(ParamValue::UInt(v)) => v as u32,
            _ => default,
        }
    }
}

impl Clone for RuleParams {
    fn clone(&self) -> (r: Self)
        ensures
            r.entries@.len() == self.entries@.len(),
            forall|i: int| 0 <= i < self.entries@.len() ==> (#[trigger] r.entries@[i]).0@ == self.entries@[i].0@ && r.entries@[i].1 == self.entries@[i].1,
    {
        let mut entries: Vec<(String, ParamValue)> = Vec::new();
        let mut i: usize = 0;
        while i < self.entries.len()
            invariant
                i <= self.entries@.len(),
                entries@.len() == i,
                forall|j: int| 0 <= j < i ==> (#[trigger] entries@[j]).0@ == self.entries@[j].0@ && entries@[j].1 == self.entries@[j].1,
            decreases self.entries.len() - i,
        {
            let k = self.entries[i].0.clone();
            let v = self.entries[i].1;
            let ghost before = entries@;
            entries.push((k, v));
            assert(forall|j: int| 0 <= j < i ==> entries@[j] == before[j]);
            i = i + 1;
        }
        RuleParams { entries }
    }
}

/// A value attached to a check result.
#[derive(Debug, Clone, PartialEq, Eq)]
pub enum ExtraValue {
    Int(i64),
    Bool(bool),
    Text(String),
}

/// The value of an attached value.
pub ghost enum ExtraView {
    Int(int),
    Bool(bool),
    Text(Seq<char>),
}

impl ExtraValue {
    pub open spec fn view(&self) -> ExtraView {
        match self {
            ExtraValue::Int(n) => ExtraView::Int(*n as int),
            ExtraValue::Bool(b) => ExtraView::Bool(*b),
            ExtraValue::Text(s) => ExtraView::Text(s@),
        }
    }
}

/// Extra data of a check result: a JSON object as `(key, value)` pairs; for a
/// repeated key the last pair counts.
#[derive(Debug)]
pub struct ExtraData {
    pub entries: Vec<(String, ExtraValue)>,
}

/// The object that the pairs describe.
pub open spec fn extra_map(s: Seq<(String, ExtraValue)>) -> Map<Seq<char>, ExtraView>
    decreases s.len(),
{
    if s.len() == 0 {
        Map::empty()
    } else {
        extra_map(s.drop_last()).insert(s.last().0@, s.last().1@)
    }
}

impl ExtraData {
    pub open spec fn view(&self) -> Map<Seq<char>, ExtraView> {
        extra_map(self.entries@)
    }

    /// An empty object.
    pub fn new() -> (d: Self)
        ensures
            d@ == Map::<Seq<char>, ExtraView>::empty(),
    {
        ExtraData { entries: Vec::new() }
    }

    /// Sets `key` to `value`.
    pub fn insert(&mut self, key: &str, value: ExtraValue)
        ensures
            final(self)@ == old(self)@.insert(key@, value@),
    {
        let ghost before = self.entries@;
        self.entries.push((owned(key), value));
        assert(self.entries@.drop_last() =~= before);
    }

    /// The value under `key`.
    pub fn get(&self, key: &str) -> (v: Option<ExtraValue>)
        ensures
            match v {
                Some(x) => self@.contains_key(key@) && self@[key@] == x@,
                None => !self@.contains_key(key@),
            },
    {
        let mut i: usize = self.entries.len();
        while i > 0
            invariant
                i <= self.entries@.len(),
                forall|j: int| i <= j < self.entries@.len() ==> (#[trigger] self.entries@[j]).0@ != key@,
            decreases i,
        {
            if str_eq(self.entries[i - 1].0.as_str(), key) {
                proof {
                    lemma_extra_last(self.entries@, (i - 1) as int, key@);
                }
                return Some(self.entries[i - 1].1.clone_value());
            }
            i = i - 1;
        }
        proof {
            lemma_extra_absent(self.entries@, key@);
        }
        None
    }
}

impl ExtraValue {
    /// A copy of the value.
    pub fn clone_value(&self) -> (r: Self)
        ensures
            r@ == self@,
    {
        match self {
            ExtraValue::Int(n) => ExtraValue::Int(*n),
            ExtraValue::Bool(b) => ExtraValue::Bool(*b),
            ExtraValue::Text(s) => ExtraValue::Text(s.clone()),
        }
    }
}

proof fn lemma_extra_last(s: Seq<(String, ExtraValue)>, i: int, key: Seq<char>)
    requires
        0 <= i < s.len(),
        s[i].0@ == key,
        forall|j: int| i < j < s.len() ==> (#[trigger] s[j]).0@ != key,
    ensures
        extra_map(s).contains_key(key),
        extra_map(s)[key] == s[i].1@,
    decreases s.len(),
{
    if i < s.len() - 1 {
        let t = s.drop_last();
        assert forall|j: int| i < j < t.len() implies (#[trigger] t[j]).0@ != key by {
            assert(t[j] == s[j]);
        }
        assert(t[i] == s[i]);
        lemma_extra_last(t, i, key);
    }
}

proof fn lemma_extra_absent(s: Seq<(String, ExtraValue)>, key: Seq<char>)
    requires
        forall|j: int| 0 <= j < s.len() ==> (#[trigger] s[j]).0@ != key,
    ensures
        !extra_map(s).contains_key(key),
    decreases s.len(),
{
    if s.len() > 0 {
        let t = s.drop_last();
        assert forall|j: int| 0 <= j < t.len() implies (#[trigger] t[j]).0@ != key by {
            assert(t[j] == s[j]);
        }
        lemma_extra_absent(t, key);
    }
}

} // verus!
