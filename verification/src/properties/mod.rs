//! Log record properties.
//!
//! The properties of a record are a chain of sets of key-value pairs: the
//! set that was attached last comes first, the one that the record was
//! built with comes last.

pub mod kv;

use vstd::prelude::*;
use crate::kv::error::Error;
use crate::kv::source::impls::flat;
use crate::kv::source::{
    lemma_visited_concat, lemma_visited_failed, Pair, Source, Visitor,
};
use crate::kv::source::collect::{collect, entry_pairs};
use crate::kv::value::token::Token;
use crate::kv::value::Value;

verus! {

/// One key and its value, as the logging macros write them down.
pub type RawKeyValue<'a> = (&'a str, Value<'a>);

/// A set of key-value pairs, as the logging macros write them down.
#[derive(Clone, Copy, Debug)]
pub struct RawKeyValues<'a>(pub &'a [RawKeyValue<'a>]);

impl<'a> Source for RawKeyValues<'a> {
    open spec fn pairs(&self) -> Seq<Pair> {
        flat(self.0@)
    }

    fn visit<'kvs, V: Visitor<'kvs>>(&'kvs self, visitor: &mut V) -> (r: Result<(), Error>) {
        self.0.visit(visitor)
    }
}

/// A chain of properties.
#[derive(Clone, Copy, Debug)]
pub struct Properties<'a> {
    kvs: &'a [RawKeyValue<'a>],
    parent: Option<&'a Properties<'a>>,
}

impl<'a> Properties<'a> {
    /// The pairs of the first set of the chain.
    pub closed spec fn own_pairs(&self) -> Seq<Pair> {
        flat(self.kvs@)
    }

    /// The rest of the chain, if the chain goes on.
    pub closed spec fn spec_parent(&self) -> Option<&'a Properties<'a>> {
        self.parent
    }

    /// All pairs of the chain: those of the first set, then those of the
    /// rest of the chain.
    pub closed spec fn all_pairs(&self) -> Seq<Pair>
        decreases self,
    {
        match self.parent {
            Some(parent) => flat(self.kvs@) + parent.all_pairs(),
            None => flat(self.kvs@),
        }
    }

    /// A chain without pairs.
    pub fn empty() -> (r: Properties<'a>)
        ensures
            r.all_pairs() == Seq::<Pair>::empty(),
    {
        Properties { kvs: &[], parent: None }
    }

    /// A chain of one set of pairs.
    pub fn root(properties: &'a [RawKeyValue<'a>]) -> (r: Properties<'a>)
        ensures
            r.all_pairs() == flat(properties@),
    {
        Properties { kvs: properties, parent: None }
    }

    /// A chain of a set of pairs and, behind it, a chain.
    pub fn chained(properties: &'a [RawKeyValue<'a>], parent: &'a Properties<'a>) -> (r:
        Properties<'a>)
        ensures
            r.all_pairs() == flat(properties@) + parent.all_pairs(),
    {
        Properties { kvs: properties, parent: Some(parent) }
    }

    /// The first set of the chain, as it was written down.
    pub fn key_values(&self) -> (r: RawKeyValues<'a>)
        ensures
            r.pairs() == self.own_pairs(),
    {
        RawKeyValues(self.kvs)
    }

    /// The rest of the chain, if the chain goes on.
    pub fn parent(&self) -> (r: Option<&'a Properties<'a>>)
        ensures
            r == self.spec_parent(),
    {
        self.parent
    }

    /// The chain, to be written as a map: each pair an entry.
    pub fn serialize_map(&self) -> (r: SerializeMap<&Properties<'a>>)
        ensures
            r.0 == self,
    {
        SerializeMap::new(self)
    }

    /// The chain, to be written as a sequence: each pair an element.
    pub fn serialize_seq(&self) -> (r: SerializeSeq<&Properties<'a>>)
        ensures
            r.0 == self,
    {
        SerializeSeq::new(self)
    }

    /// Count the number of key value pairs.
    pub fn count(&self) -> (r: usize)
        ensures
            r == self.all_pairs().len() || (r == usize::MAX && self.all_pairs().len() > usize::MAX),
        decreases self,
    {
        let own: usize = self.kvs.len();
        proof {
            lemma_flat_len(self.kvs@);
        }
        match self.parent {
            Some(parent) => {
                let rest: usize = parent.count();
                if rest > usize::MAX - own {
                    usize::MAX
                } else {
                    own + rest
                }
            },
            None => own,
        }
    }
}

/// A row of single pairs holds as many pairs as it is long.
pub proof fn lemma_flat_len(kvs: Seq<RawKeyValue<'_>>)
    ensures
        flat(kvs).len() == kvs.len(),
    decreases kvs.len(),
{
    if kvs.len() != 0 {
        lemma_flat_len(kvs.drop_last());
    }
}

impl<'a> Default for Properties<'a> {
    fn default() -> (r: Properties<'a>)
        ensures
            r.all_pairs() == Seq::<Pair>::empty(),
    {
        Properties::empty()
    }
}

impl<'a> Source for Properties<'a> {
    open spec fn pairs(&self) -> Seq<Pair> {
        self.all_pairs()
    }

    fn visit<'kvs, V: Visitor<'kvs>>(&'kvs self, visitor: &mut V) -> (r: Result<(), Error>)
        decreases self,
    {
        let ghost pre = *visitor;
        let first = self.kvs.visit(visitor);
        match self.parent {
            Some(parent) => match first {
                Ok(()) => {
                    let ghost mid = *visitor;
                    let second = parent.visit(visitor);
                    proof {
                        lemma_visited_concat(
                            pre,
                            flat(self.kvs@),
                            mid,
                            first,
                            parent.all_pairs(),
                            *visitor,
                            second,
                        );
                    }
                    second
                },
                Err(e) => {
                    proof {
                        lemma_visited_failed(
                            pre,
                            flat(self.kvs@),
                            parent.all_pairs(),
                            *visitor,
                            first,
                        );
                    }
                    Err(e)
                },
            },
            None => first,
        }
    }
}

/// A set of pairs that is to be written as a map: each pair an entry, the
/// key before its value.
#[derive(Debug)]
pub struct SerializeMap<T>(pub T);

impl<T> SerializeMap<T> {
    /// Wraps what is to be written.
    pub fn new(inner: T) -> (r: SerializeMap<T>)
        ensures
            r.0 == inner,
    {
        SerializeMap(inner)
    }

    /// Gives back what was wrapped.
    pub fn into_inner(self) -> (r: T)
        ensures
            r == self.0,
    {
        self.0
    }
}

impl<T: Source> SerializeMap<T> {
    /// The entries of the map, in order.
    pub fn entries(&self) -> (r: Vec<(String, Token)>)
        ensures
            entry_pairs(r@) == self.0.pairs(),
    {
        collect(&self.0)
    }
}

/// A set of pairs that is to be written as a sequence: each pair an
/// element, a tuple of key and value.
#[derive(Debug)]
pub struct SerializeSeq<T>(pub T);

impl<T> SerializeSeq<T> {
    /// Wraps what is to be written.
    pub fn new(inner: T) -> (r: SerializeSeq<T>)
        ensures
            r.0 == inner,
    {
        SerializeSeq(inner)
    }

    /// Gives back what was wrapped.
    pub fn into_inner(self) -> (r: T)
        ensures
            r == self.0,
    {
        self.0
    }
}

impl<T: Source> SerializeSeq<T> {
    /// The elements of the sequence, in order.
    pub fn elements(&self) -> (r: Vec<(String, Token)>)
        ensures
            entry_pairs(r@) == self.0.pairs(),
    {
        collect(&self.0)
    }
}

} // verus!
