//! Object-safe iteration for key-value pairs.
//!
//! A set of pairs is walked by keys: the set names its first entry, and
//! each entry names the key of the one that follows. Whoever walks the set
//! needs to know nothing of how it is laid out.

use vstd::prelude::*;
use crate::kv::source::Pair;
use crate::kv::value::Value;
use crate::properties::RawKeyValue;
use vstd::std_specs::convert::FromSpecImpl;

verus! {

#[derive(Clone, Copy, Debug)]
enum KeyInner<'a> {
    Number(u64),
    String(&'a str),
}

/// A key into a set of properties.
///
/// The key can either be an index or a reference to the last seen key.
#[derive(Clone, Copy, Debug)]
pub struct Key<'a>(KeyInner<'a>);

/// What a [`Key`] holds, as a mathematical value.
pub enum KeyView {
    /// An index key.
    Number(u64),
    /// The text of another key.
    String(Seq<char>),
}

impl<'a> View for Key<'a> {
    type V = KeyView;

    closed spec fn view(&self) -> KeyView {
        match self.0 {
            KeyInner::Number(n) => KeyView::Number(n),
            KeyInner::String(s) => KeyView::String(s@),
        }
    }
}

impl<'a> Key<'a> {
    /// Create a key from a `u64` index.
    pub fn from_u64(key: u64) -> (r: Key<'a>)
        ensures
            r@ == KeyView::Number(key),
    {
        Key(KeyInner::Number(key))
    }

    /// Create a key from a borrowed string.
    pub fn from_str(key: &'a str) -> (r: Key<'a>)
        ensures
            r@ == KeyView::String(key@),
    {
        Key(KeyInner::String(key))
    }

    /// Get the key value as a `u64` index.
    pub fn as_u64(&self) -> (r: Option<u64>)
        ensures
            r == match self@ {
                KeyView::Number(n) => Some(n),
                KeyView::String(_) => None,
            },
    {
        match self.0 {
            KeyInner::Number(n) => Some(n),
            _ => None,
        }
    }

    /// Get the key value as a borrowed string.
    pub fn as_str(&self) -> (r: Option<&'a str>)
        ensures
            match self@ {
                KeyView::Number(_) => r.is_none(),
                KeyView::String(s) => r matches Some(t) && t@ == s,
            },
    {
        match self.0 {
            KeyInner::String(s) => Some(s),
            _ => None,
        }
    }
}

impl<'a> From<u64> for Key<'a> {
    fn from(key: u64) -> (r: Key<'a>)
        ensures
            r@ == KeyView::Number(key),
    {
        Key(KeyInner::Number(key))
    }
}

impl<'a> FromSpecImpl<u64> for Key<'a> {
    open spec fn obeys_from_spec() -> bool {
        true
    }

    closed spec fn from_spec(key: u64) -> Key<'a> {
        Key(KeyInner::Number(key))
    }
}

impl<'a> From<&'a str> for Key<'a> {
    fn from(key: &'a str) -> (r: Key<'a>)
        ensures
            r@ == KeyView::String(key@),
    {
        Key(KeyInner::String(key))
    }
}

impl<'a> FromSpecImpl<&'a str> for Key<'a> {
    open spec fn obeys_from_spec() -> bool {
        true
    }

    closed spec fn from_spec(key: &'a str) -> Key<'a> {
        Key(KeyInner::String(key))
    }
}

/// An entry within a key value set.
#[derive(Clone, Debug)]
pub struct Entry<'a> {
    key: &'a str,
    value: Value<'a>,
    next: Option<Key<'a>>,
}

/// What an [`Entry`] holds, as a mathematical value.
pub struct EntryView {
    /// The pair of the entry.
    pub pair: Pair,
    /// The key of the entry that follows, if one follows.
    pub next: Option<KeyView>,
}

impl<'a> View for Entry<'a> {
    type V = EntryView;

    closed spec fn view(&self) -> EntryView {
        EntryView {
            pair: (self.key@, self.value@),
            next: match self.next {
                Some(k) => Some(k@),
                None => None,
            },
        }
    }
}

/// The view of an optional entry.
pub open spec fn entry_view(entry: Option<Entry<'_>>) -> Option<EntryView> {
    match entry {
        Some(e) => Some(e@),
        None => None,
    }
}

impl<'a> Entry<'a> {
    /// Create an entry from a key, value and optional next key.
    ///
    /// It's important that the next key follows the current one, and that
    /// each key is only seen once.
    pub fn new(key: &'a str, value: Value<'a>, next: Option<Key<'a>>) -> (r: Entry<'a>)
        ensures
            r@.pair == (key@, value@),
            r@.next == match next {
                Some(k) => Some(k@),
                None => None,
            },
    {
        Entry { key, value, next }
    }

    /// The key of the entry.
    pub fn key(&self) -> (r: &'a str)
        ensures
            r@ == self@.pair.0,
    {
        self.key
    }

    /// The value of the entry.
    pub fn value(&self) -> (r: &Value<'a>)
        ensures
            r@ == self@.pair.1,
    {
        &self.value
    }

    /// The key of the entry that follows, if one follows.
    pub fn next(&self) -> (r: Option<Key<'a>>)
        ensures
            self@.next == match r {
                Some(k) => Some(k@),
                None => None,
            },
    {
        self.next
    }
}

/// A set of key value pairs that can be iterated through.
pub trait KeyValues {
    /// The entry of a key, if the set has one for it.
    spec fn entry_at(&self, key: KeyView) -> Option<EntryView>;

    /// The first entry of the set, if the set is not empty.
    spec fn first_entry(&self) -> Option<EntryView>;

    /// The first entry in the key value set.
    fn first(&self) -> (r: Option<Entry<'_>>)
        ensures
            entry_view(r) == self.first_entry(),
    ;

    /// A given entry in the key value set.
    fn entry(&self, key: &Key<'_>) -> (r: Option<Entry<'_>>)
        ensures
            entry_view(r) == self.entry_at(key@),
    ;
}

/// The entry of a key in a row of pairs: an index key within the row has
/// the pair at the index, and names the index that follows.
pub open spec fn slice_entry(kvs: Seq<RawKeyValue<'_>>, key: KeyView) -> Option<EntryView> {
    match key {
        KeyView::Number(n) => if n < kvs.len() {
            Some(
                EntryView {
                    pair: (kvs[n as int].0@, kvs[n as int].1@),
                    next: Some(KeyView::Number((n + 1) as u64)),
                },
            )
        } else {
            None
        },
        KeyView::String(_) => None,
    }
}

impl<'a> KeyValues for [RawKeyValue<'a>] {
    open spec fn entry_at(&self, key: KeyView) -> Option<EntryView> {
        slice_entry(self@, key)
    }

    open spec fn first_entry(&self) -> Option<EntryView> {
        slice_entry(self@, KeyView::Number(0))
    }

    fn first(&self) -> (r: Option<Entry<'_>>) {
        self.entry(&Key::from_u64(0))
    }

    fn entry(&self, key: &Key<'_>) -> (r: Option<Entry<'_>>) {
        match key.as_u64() {
            Some(n) => {
                let len: usize = self.len();
                if n < len as u64 {
                    let i: usize = n as usize;
                    Some(
                        Entry::new(self[i].0, self[i].1.clone_value(), Some(Key::from_u64(n + 1))),
                    )
                } else {
                    None
                }
            },
            None => None,
        }
    }
}

impl<'a> KeyValues for Vec<RawKeyValue<'a>> {
    open spec fn entry_at(&self, key: KeyView) -> Option<EntryView> {
        slice_entry(self@, key)
    }

    open spec fn first_entry(&self) -> Option<EntryView> {
        slice_entry(self@, KeyView::Number(0))
    }

    fn first(&self) -> (r: Option<Entry<'_>>) {
        KeyValues::first(self.as_slice())
    }

    fn entry(&self, key: &Key<'_>) -> (r: Option<Entry<'_>>) {
        KeyValues::entry(self.as_slice(), key)
    }
}

/// An iterator over key value pairs.
pub struct Iter<'a, K: KeyValues + ?Sized> {
    current: Option<Entry<'a>>,
    kvs: &'a K,
}

impl<'a, K: KeyValues + ?Sized> Iter<'a, K> {
    /// The entry that the iterator stands at, if it has not run out.
    pub closed spec fn current(&self) -> Option<EntryView> {
        entry_view(self.current)
    }

    /// The set that is walked.
    pub closed spec fn set(&self) -> &'a K {
        self.kvs
    }

    /// An iterator that stands at the first entry of the set.
    pub fn new(kvs: &'a K) -> (r: Iter<'a, K>)
        ensures
            r.current() == kvs.first_entry(),
            r.set() == kvs,
    {
        Iter { current: kvs.first(), kvs }
    }

    /// The pair that the iterator stands at; the iterator moves on to the
    /// entry that the pair names as the next.
    pub fn next(&mut self) -> (r: Option<(&'a str, Value<'a>)>)
        ensures
            final(self).set() == old(self).set(),
            match old(self).current() {
                Some(e) => r matches Some(p) && (p.0@, p.1@) == e.pair && final(self).current()
                    == match e.next {
                    Some(k) => old(self).set().entry_at(k),
                    None => None,
                },
                None => r.is_none() && final(self).current().is_none(),
            },
    {
        match self.current.take() {
            Some(entry) => {
                let following = match entry.next {
                    Some(key) => self.kvs.entry(&key),
                    None => None,
                };
                self.current = following;
                Some((entry.key, entry.value))
            },
            None => None,
        }
    }
}

/// The pairs of a row, walked from its first entry on by the keys that the
/// entries name: every pair, in the order of the row.
pub fn walk<'a>(kvs: &'a [RawKeyValue<'a>]) -> (r: Vec<(&'a str, Value<'a>)>)
    ensures
        r.len() == kvs.len(),
        forall|i: int| 0 <= i < r.len() ==> (#[trigger] r[i]).0@ == kvs[i].0@ && r[i].1@ == kvs[i].1@,
{
    let mut out: Vec<(&'a str, Value<'a>)> = Vec::new();
    let mut iter = Iter::new(kvs);
    loop
        invariant
            iter.set() == kvs,
            out.len() <= kvs.len(),
            iter.current() == slice_entry(kvs@, KeyView::Number(out.len() as u64)),
            forall|i: int|
                0 <= i < out.len() ==> (#[trigger] out[i]).0@ == kvs[i].0@ && out[i].1@ == kvs[i].1@,
        ensures
            out.len() == kvs.len(),
            forall|i: int|
                0 <= i < out.len() ==> (#[trigger] out[i]).0@ == kvs[i].0@ && out[i].1@ == kvs[i].1@,
        decreases kvs.len() - out.len(),
    {
        match iter.next() {
            Some(pair) => {
                out.push(pair);
            },
            None => {
                break ;
            },
        }
    }
    out
}

} // verus!
