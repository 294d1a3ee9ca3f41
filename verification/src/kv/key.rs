//! Structured keys.

use vstd::prelude::*;
use vstd::string::*;
use core::cmp::Ordering;
use crate::text::{order_from_sign, order_of_sign, sign_of_strs, str_eq, str_sign};
use vstd::std_specs::convert::FromSpecImpl;

verus! {

/// std's `Hash::hash` for `str`: feeds the text to the hasher. Nothing is
/// claimed of what the hasher holds afterwards.
#[verifier::external_body]
fn hash_text<H: core::hash::Hasher>(text: &str, state: &mut H) {
    core::hash::Hash::hash(text, state)
}

/// The text of a key: borrowed or owned.
#[derive(Debug)]
pub enum KeyInner<'k> {
    /// A borrowed string.
    Borrowed(&'k str),
    /// An owned string.
    Owned(String),
}

/// The key in a key-value pair.
///
/// The `Key` type abstracts over owned or borrowed keys. Its view is the
/// text of the key; keys are equal, and ordered, by their text alone.
#[derive(Debug)]
pub struct Key<'k> {
    inner: KeyInner<'k>,
    index: Option<usize>,
}

impl<'k> View for Key<'k> {
    type V = Seq<char>;

    closed spec fn view(&self) -> Seq<char> {
        match self.inner {
            KeyInner::Borrowed(k) => k@,
            KeyInner::Owned(k) => k@,
        }
    }
}

impl<'k> Key<'k> {
    /// The position that the key was given, if any.
    pub closed spec fn spec_index(&self) -> Option<usize> {
        self.index
    }

    /// Whether the key owns its text.
    pub closed spec fn is_owned(&self) -> bool {
        self.inner is Owned
    }

    /// Create a key from a borrowed string, without an index.
    pub fn new(k: &'k str) -> (r: Key<'k>)
        ensures
            r@ == k@,
            r.spec_index().is_none(),
            !r.is_owned(),
    {
        Key { inner: KeyInner::Borrowed(k), index: None }
    }

    /// Create a key from an owned string, without an index.
    pub fn owned(k: String) -> (r: Key<'k>)
        ensures
            r@ == k@,
            r.spec_index().is_none(),
            r.is_owned(),
    {
        Key { inner: KeyInner::Owned(k), index: None }
    }

    /// Create a key from a borrowed string and optional index.
    pub fn from_str(key: &'k str, index: Option<usize>) -> (r: Key<'k>)
        ensures
            r@ == key@,
            r.spec_index() == index,
            !r.is_owned(),
    {
        Key { inner: KeyInner::Borrowed(key), index }
    }

    /// Create a key from an owned string and optional index.
    pub fn from_owned(key: String, index: Option<usize>) -> (r: Key<'k>)
        ensures
            r@ == key@,
            r.spec_index() == index,
            r.is_owned(),
    {
        Key { inner: KeyInner::Owned(key), index }
    }

    /// The position that the key was given, if any.
    pub fn index(&self) -> (r: Option<usize>)
        ensures
            r == self.spec_index(),
    {
        self.index
    }

    /// The text of the key.
    pub fn as_str(&self) -> (r: &str)
        ensures
            r@ == self@,
    {
        match &self.inner {
            KeyInner::Borrowed(k) => k,
            KeyInner::Owned(k) => k.as_str(),
        }
    }

    /// A key with the same text and index that owns its text.
    pub fn to_owned(&self) -> (r: Key<'static>)
        ensures
            r@ == self@,
            r.spec_index() == self.spec_index(),
            r.is_owned(),
    {
        Key { inner: KeyInner::Owned(self.as_str().to_owned()), index: self.index }
    }

    /// The sign of comparing the text of `self` with the text of `other`.
    pub fn sign(&self, other: &Key<'k>) -> (r: i8)
        ensures
            r == str_sign(self@, other@),
    {
        sign_of_strs(self.as_str(), other.as_str())
    }
}

impl<'k> PartialEq for Key<'k> {
    fn eq(&self, other: &Key<'k>) -> (r: bool) {
        str_eq(self.as_str(), other.as_str())
    }
}

impl<'k> vstd::std_specs::cmp::PartialEqSpecImpl for Key<'k> {
    open spec fn obeys_eq_spec() -> bool {
        true
    }

    open spec fn eq_spec(&self, other: &Key<'k>) -> bool {
        self@ == other@
    }
}

impl<'k> Eq for Key<'k> {
}

impl<'k> PartialOrd for Key<'k> {
    fn partial_cmp(&self, other: &Key<'k>) -> (r: Option<Ordering>) {
        Some(order_from_sign(self.sign(other)))
    }
}

impl<'k> vstd::std_specs::cmp::PartialOrdSpecImpl for Key<'k> {
    open spec fn obeys_partial_cmp_spec() -> bool {
        true
    }

    open spec fn partial_cmp_spec(&self, other: &Key<'k>) -> Option<Ordering> {
        Some(order_of_sign(str_sign(self@, other@)))
    }
}

impl<'k> From<&'k str> for Key<'k> {
    fn from(k: &'k str) -> (r: Key<'k>)
        ensures
            r@ == k@,
            r.spec_index().is_none(),
            !r.is_owned(),
    {
        Key { inner: KeyInner::Borrowed(k), index: None }
    }
}

impl<'k> FromSpecImpl<&'k str> for Key<'k> {
    open spec fn obeys_from_spec() -> bool {
        true
    }

    closed spec fn from_spec(k: &'k str) -> Key<'k> {
        Key { inner: KeyInner::Borrowed(k), index: None }
    }
}

impl<'k> From<String> for Key<'k> {
    fn from(k: String) -> (r: Key<'k>)
        ensures
            r@ == k@,
            r.spec_index().is_none(),
            r.is_owned(),
    {
        Key { inner: KeyInner::Owned(k), index: None }
    }
}

impl<'k> FromSpecImpl<String> for Key<'k> {
    open spec fn obeys_from_spec() -> bool {
        true
    }

    closed spec fn from_spec(k: String) -> Key<'k> {
        Key { inner: KeyInner::Owned(k), index: None }
    }
}

impl<'k> AsRef<str> for Key<'k> {
    fn as_ref(&self) -> (r: &str)
        ensures
            r@ == self@,
    {
        self.as_str()
    }
}

impl<'k> core::borrow::Borrow<str> for Key<'k> {
    fn borrow(&self) -> (r: &str)
        ensures
            <str as View>::view(r) == self@,
    {
        self.as_str()
    }
}

impl<'k> core::hash::Hash for Key<'k> {
    fn hash<H: core::hash::Hasher>(&self, state: &mut H) {
        hash_text(self.as_str(), state)
    }
}

/// A type that can be converted into a key.
pub trait ToKey {
    /// The text of the key that `self` converts into.
    spec fn key_text(&self) -> Seq<char>;

    /// Perform the conversion.
    fn to_key(&self) -> (r: Key<'_>)
        ensures
            r@ == self.key_text(),
    ;
}

impl ToKey for str {
    open spec fn key_text(&self) -> Seq<char> {
        self@
    }

    fn to_key(&self) -> (r: Key<'_>)
        ensures
            r.spec_index().is_none(),
    {
        Key::from_str(self, None)
    }
}

impl ToKey for String {
    open spec fn key_text(&self) -> Seq<char> {
        self@
    }

    fn to_key(&self) -> (r: Key<'_>)
        ensures
            r.spec_index().is_none(),
    {
        Key::from_str(self.as_str(), None)
    }
}

impl<'k> ToKey for Key<'k> {
    open spec fn key_text(&self) -> Seq<char> {
        self@
    }

    fn to_key(&self) -> (r: Key<'_>)
        ensures
            r.spec_index() == self.spec_index(),
    {
        Key::from_str(self.as_str(), self.index)
    }
}

impl<'a, T: ToKey + ?Sized> ToKey for &'a T {
    open spec fn key_text(&self) -> Seq<char> {
        (**self).key_text()
    }

    fn to_key(&self) -> (r: Key<'_>) {
        (**self).to_key()
    }
}

} // verus!
