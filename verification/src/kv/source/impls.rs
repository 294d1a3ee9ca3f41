//! Sources of pairs among the common types.

use vstd::prelude::*;
use crate::kv::error::Error;
use crate::kv::key::ToKey;
use crate::kv::source::{
    lemma_visited_concat, lemma_visited_failed, lemma_visited_none, lemma_visited_one, visited,
    Pair, Source, Visitor,
};
use crate::kv::value::impls::ToValue;

verus! {

/// The pairs of a row of sources: the pairs of the first, then those of
/// the second, and so on.
pub open spec fn flat<S: Source>(sources: Seq<S>) -> Seq<Pair>
    decreases sources.len(),
{
    if sources.len() == 0 {
        Seq::<Pair>::empty()
    } else {
        flat(sources.drop_last()) + sources.last().pairs()
    }
}

/// The pairs of a row of sources are those of any front part of the row,
/// then those of the rest.
pub proof fn lemma_flat_split<S: Source>(sources: Seq<S>, k: int)
    requires
        0 <= k <= sources.len(),
    ensures
        flat(sources) == flat(sources.take(k)) + flat(sources.skip(k)),
    decreases sources.len(),
{
    if k == sources.len() {
        assert(sources.take(k) =~= sources);
        assert(sources.skip(k) =~= Seq::<S>::empty());
        assert(flat(sources) =~= flat(sources) + Seq::<Pair>::empty());
    } else {
        let front = sources.drop_last();
        lemma_flat_split(front, k);
        assert(front.take(k) =~= sources.take(k));
        assert(sources.skip(k).drop_last() =~= front.skip(k));
        assert(sources.skip(k).last() == sources.last());
        assert(flat(sources) =~= flat(sources.take(k)) + flat(sources.skip(k)));
    }
}

/// The pairs of a row of sources up to and with the one at `i` are those
/// of the sources before it, then its own.
pub proof fn lemma_flat_next<S: Source>(sources: Seq<S>, i: int)
    requires
        0 <= i < sources.len(),
    ensures
        flat(sources.take(i + 1)) == flat(sources.take(i)) + sources[i].pairs(),
{
    assert(sources.take(i + 1).drop_last() =~= sources.take(i));
    assert(sources.take(i + 1).last() == sources[i]);
}

impl<'a, T: Source + ?Sized> Source for &'a T {
    open spec fn pairs(&self) -> Seq<Pair> {
        (**self).pairs()
    }

    fn visit<'kvs, V: Visitor<'kvs>>(&'kvs self, visitor: &mut V) -> (r: Result<(), Error>) {
        (**self).visit(visitor)
    }
}

impl<T: Source + ?Sized> Source for Box<T> {
    open spec fn pairs(&self) -> Seq<Pair> {
        (**self).pairs()
    }

    fn visit<'kvs, V: Visitor<'kvs>>(&'kvs self, visitor: &mut V) -> (r: Result<(), Error>) {
        (**self).visit(visitor)
    }
}

impl<T: Source + ?Sized> Source for std::rc::Rc<T> {
    open spec fn pairs(&self) -> Seq<Pair> {
        (**self).pairs()
    }

    fn visit<'kvs, V: Visitor<'kvs>>(&'kvs self, visitor: &mut V) -> (r: Result<(), Error>) {
        (**self).visit(visitor)
    }
}

impl<T: Source + ?Sized> Source for std::sync::Arc<T> {
    open spec fn pairs(&self) -> Seq<Pair> {
        (**self).pairs()
    }

    fn visit<'kvs, V: Visitor<'kvs>>(&'kvs self, visitor: &mut V) -> (r: Result<(), Error>) {
        (**self).visit(visitor)
    }
}

impl<K: ToKey, T: ToValue> Source for (K, T) {
    open spec fn pairs(&self) -> Seq<Pair> {
        seq![(self.0.key_text(), self.1.token())]
    }

    fn visit<'kvs, V: Visitor<'kvs>>(&'kvs self, visitor: &mut V) -> (r: Result<(), Error>) {
        let ghost pre = *visitor;
        let r = visitor.visit_pair(self.0.to_key(), self.1.to_value());
        proof {
            lemma_visited_one(pre, self.0.key_text(), self.1.token(), *visitor, r);
        }
        r
    }
}

impl<S: Source> Source for Option<S> {
    open spec fn pairs(&self) -> Seq<Pair> {
        match self {
            Some(s) => s.pairs(),
            None => Seq::<Pair>::empty(),
        }
    }

    fn visit<'kvs, V: Visitor<'kvs>>(&'kvs self, visitor: &mut V) -> (r: Result<(), Error>) {
        match self {
            Some(s) => s.visit(visitor),
            None => {
                proof {
                    lemma_visited_none(*visitor);
                }
                Ok(())
            },
        }
    }
}

impl<S: Source> Source for [S] {
    open spec fn pairs(&self) -> Seq<Pair> {
        flat(self@)
    }

    fn visit<'kvs, V: Visitor<'kvs>>(&'kvs self, visitor: &mut V) -> (r: Result<(), Error>) {
        let ghost pre = *visitor;
        let mut i: usize = 0;
        proof {
            assert(self@.take(0) =~= Seq::<S>::empty());
            lemma_visited_none(pre);
        }
        while i < self.len()
            invariant
                i <= self.len(),
                pre == *old(visitor),
                visited(pre, flat(self@.take(i as int)), *visitor, Ok::<(), Error>(())),
            decreases self.len() - i,
        {
            let ghost mid = *visitor;
            let went = self[i].visit(visitor);
            proof {
                lemma_flat_next(self@, i as int);
                lemma_visited_concat(
                    pre,
                    flat(self@.take(i as int)),
                    mid,
                    Ok::<(), Error>(()),
                    self@[i as int].pairs(),
                    *visitor,
                    went,
                );
            }
            match went {
                Ok(()) => {
                    proof {
                        crate::kv::source::lemma_ok_is_unit(went);
                    }
                },
                Err(e) => {
                    proof {
                        lemma_flat_split(self@, i + 1);
                        lemma_visited_failed(
                            pre,
                            flat(self@.take(i + 1)),
                            flat(self@.skip(i + 1)),
                            *visitor,
                            went,
                        );
                    }
                    return Err(e);
                },
            }
            i += 1;
        }
        proof {
            assert(self@.take(i as int) =~= self@);
        }
        Ok(())
    }
}

impl<S: Source> Source for Vec<S> {
    open spec fn pairs(&self) -> Seq<Pair> {
        flat(self@)
    }

    fn visit<'kvs, V: Visitor<'kvs>>(&'kvs self, visitor: &mut V) -> (r: Result<(), Error>) {
        self.as_slice().visit(visitor)
    }
}

/// A chain of two `Source`s: the pairs of the first, then those of the second.
#[derive(Debug)]
pub struct Chained<A, B>(pub A, pub B);

impl<A: Source, B: Source> Source for Chained<A, B> {
    open spec fn pairs(&self) -> Seq<Pair> {
        self.0.pairs() + self.1.pairs()
    }

    fn visit<'kvs, V: Visitor<'kvs>>(&'kvs self, visitor: &mut V) -> (r: Result<(), Error>) {
        let ghost pre = *visitor;
        let first = self.0.visit(visitor);
        match first {
            Ok(()) => {
                let ghost mid = *visitor;
                let second = self.1.visit(visitor);
                proof {
                    lemma_visited_concat(
                        pre,
                        self.0.pairs(),
                        mid,
                        first,
                        self.1.pairs(),
                        *visitor,
                        second,
                    );
                }
                second
            },
            Err(e) => {
                proof {
                    lemma_visited_failed(pre, self.0.pairs(), self.1.pairs(), *visitor, first);
                }
                Err(e)
            },
        }
    }
}

/// Chain two `Source`s together.
pub fn chain<A: Source, B: Source>(first: A, second: B) -> (r: Chained<A, B>)
    ensures
        r.pairs() == first.pairs() + second.pairs(),
        r.0 == first,
        r.1 == second,
{
    Chained(first, second)
}

} // verus!
