//! Sources of structured key-value pairs.
//!
//! A [`Source`] holds pairs in an order and shows them to a [`Visitor`] one
//! by one, until the visitor fails or the pairs are through. What a source
//! holds is its sequence of pairs: each the text of a key and the token of a
//! value.

pub mod impls;
pub mod sorted;
pub mod collect;
pub mod each;

use vstd::prelude::*;
use vstd::string::*;
use crate::kv::error::Error;
use crate::kv::key::{Key, ToKey};
use crate::kv::value::token::TokenView;
use crate::kv::value::Value;

verus! {

/// A key-value pair as a mathematical value: the text of the key and the
/// token of the value.
pub type Pair = (Seq<char>, TokenView);

/// A visitor for key value pairs.
///
/// The lifetime of the keys and values is captured by the `'kvs` type.
pub trait Visitor<'kvs>: Sized {
    /// What the visitor does when it is shown a pair: `post` and `r` are
    /// the visitor and the result afterwards.
    spec fn accepts(
        pre: Self,
        key: Seq<char>,
        value: TokenView,
        post: Self,
        r: Result<(), Error>,
    ) -> bool;

    /// Visit a key value pair.
    fn visit_pair(&mut self, key: Key<'kvs>, value: Value<'kvs>) -> (r: Result<(), Error>)
        ensures
            Self::accepts(*old(self), key@, value@, *final(self), r),
    ;
}

/// The visitor was shown every pair of `pairs` in order, accepted all but
/// perhaps the last, and `post` and `r` are what the last one left.
pub open spec fn ran<'kvs, V: Visitor<'kvs>>(
    pre: V,
    pairs: Seq<Pair>,
    post: V,
    r: Result<(), Error>,
) -> bool
    decreases pairs.len(),
{
    if pairs.len() == 0 {
        post == pre && r is Ok
    } else {
        exists|mid: V|
            ran(pre, pairs.drop_last(), mid, Ok::<(), Error>(())) && #[trigger] V::accepts(
                mid,
                pairs.last().0,
                pairs.last().1,
                post,
                r,
            )
    }
}

/// The visitor was shown the pairs in order until it failed or the pairs
/// were through: `r` is the first failure, or `Ok` where there was none.
pub open spec fn visited<'kvs, V: Visitor<'kvs>>(
    pre: V,
    pairs: Seq<Pair>,
    post: V,
    r: Result<(), Error>,
) -> bool {
    exists|n: int|
        0 <= n <= pairs.len() && #[trigger] ran(pre, pairs.take(n), post, r) && (r is Ok ==> n
            == pairs.len())
}

/// There is one way for a visit to go well.
pub proof fn lemma_ok_is_unit(r: Result<(), Error>)
    requires
        r is Ok,
    ensures
        r == Ok::<(), Error>(()),
{
    let unit = r->Ok_0;
    assert(unit == ());
    assert(r == Ok::<(), Error>(unit));
}

/// Showing `first` and then, where that went well, `second`, is showing
/// the two in a row.
pub proof fn lemma_ran_concat<'kvs, V: Visitor<'kvs>>(
    pre: V,
    first: Seq<Pair>,
    mid: V,
    second: Seq<Pair>,
    post: V,
    r: Result<(), Error>,
)
    requires
        ran(pre, first, mid, Ok::<(), Error>(())),
        ran(mid, second, post, r),
    ensures
        ran(pre, first + second, post, r),
    decreases second.len(),
{
    if second.len() == 0 {
        assert(first + second =~= first);
        lemma_ok_is_unit(r);
    } else {
        let m = choose|m: V|
            ran(mid, second.drop_last(), m, Ok::<(), Error>(())) && #[trigger] V::accepts(
                m,
                second.last().0,
                second.last().1,
                post,
                r,
            );
        lemma_ran_concat(pre, first, mid, second.drop_last(), m, Ok::<(), Error>(()));
        let both = first + second;
        assert(both.drop_last() =~= first + second.drop_last());
        assert(both.last() == second.last());
        assert(ran(pre, both.drop_last(), m, Ok::<(), Error>(())));
        assert(V::accepts(m, both.last().0, both.last().1, post, r));
        assert(ran(pre, both, post, r));
    }
}

/// Visiting `first` and then, where that went well, `second`, is visiting
/// the two in a row.
pub proof fn lemma_visited_concat<'kvs, V: Visitor<'kvs>>(
    pre: V,
    first: Seq<Pair>,
    mid: V,
    went: Result<(), Error>,
    second: Seq<Pair>,
    post: V,
    r: Result<(), Error>,
)
    requires
        visited(pre, first, mid, went),
        went is Ok,
        visited(mid, second, post, r),
    ensures
        visited(pre, first + second, post, r),
{
    lemma_ok_is_unit(went);
    let n1 = choose|n: int|
        0 <= n <= first.len() && #[trigger] ran(pre, first.take(n), mid, went) && (went is Ok
            ==> n == first.len());
    assert(first.take(n1) =~= first);
    let n2 = choose|n: int|
        0 <= n <= second.len() && #[trigger] ran(mid, second.take(n), post, r) && (r is Ok ==> n
            == second.len());
    lemma_ran_concat(pre, first, mid, second.take(n2), post, r);
    assert((first + second).take(first.len() + n2) =~= first + second.take(n2));
    assert(ran(pre, (first + second).take(first.len() + n2), post, r));
}

/// A visit that failed within `first` is a failed visit of `first` and
/// whatever follows.
pub proof fn lemma_visited_failed<'kvs, V: Visitor<'kvs>>(
    pre: V,
    first: Seq<Pair>,
    second: Seq<Pair>,
    post: V,
    r: Result<(), Error>,
)
    requires
        visited(pre, first, post, r),
        r is Err,
    ensures
        visited(pre, first + second, post, r),
{
    let n = choose|n: int|
        0 <= n <= first.len() && #[trigger] ran(pre, first.take(n), post, r) && (r is Ok ==> n
            == first.len());
    assert((first + second).take(n) =~= first.take(n));
    assert(ran(pre, (first + second).take(n), post, r));
}

/// A visit of no pairs leaves the visitor as it was.
pub proof fn lemma_visited_none<'kvs, V: Visitor<'kvs>>(pre: V)
    ensures
        visited(pre, Seq::<Pair>::empty(), pre, Ok::<(), Error>(())),
{
    assert(Seq::<Pair>::empty().take(0) =~= Seq::<Pair>::empty());
    assert(ran(pre, Seq::<Pair>::empty().take(0), pre, Ok::<(), Error>(())));
}

/// A visit of one pair is what the visitor does with that pair.
pub proof fn lemma_visited_one<'kvs, V: Visitor<'kvs>>(
    pre: V,
    key: Seq<char>,
    value: TokenView,
    post: V,
    r: Result<(), Error>,
)
    requires
        V::accepts(pre, key, value, post, r),
    ensures
        visited(pre, seq![(key, value)], post, r),
{
    let pairs = seq![(key, value)];
    assert(pairs.take(1) =~= pairs);
    assert(pairs.drop_last() =~= Seq::<Pair>::empty());
    assert(ran(pre, pairs.drop_last(), pre, Ok::<(), Error>(())));
    assert(V::accepts(pre, pairs.last().0, pairs.last().1, post, r));
    assert(ran(pre, pairs, post, r));
    assert(ran(pre, pairs.take(1), post, r));
}

/// The value of the last pair with the given key, or `init` where no pair
/// has the key.
pub open spec fn last_from(init: Option<TokenView>, pairs: Seq<Pair>, key: Seq<char>) -> Option<
    TokenView,
>
    decreases pairs.len(),
{
    if pairs.len() == 0 {
        init
    } else if pairs.last().0 == key {
        Some(pairs.last().1)
    } else {
        last_from(init, pairs.drop_last(), key)
    }
}

/// The value of the last pair with the given key, if any pair has the key.
pub open spec fn last_value(pairs: Seq<Pair>, key: Seq<char>) -> Option<TokenView> {
    last_from(None, pairs, key)
}

/// Among pairs in a row, a key has the value that the later part gives
/// it, and the value of the earlier part where the later gives none.
pub proof fn lemma_last_value_concat(first: Seq<Pair>, second: Seq<Pair>, key: Seq<char>)
    ensures
        last_value(first + second, key) == match last_value(second, key) {
            Some(v) => Some(v),
            None => last_value(first, key),
        },
    decreases second.len(),
{
    if second.len() == 0 {
        assert(first + second =~= first);
    } else {
        assert((first + second).drop_last() =~= first + second.drop_last());
        assert((first + second).last() == second.last());
        lemma_last_value_concat(first, second.drop_last(), key);
    }
}

/// The token of an optional value.
pub open spec fn token_of(value: Option<Value<'_>>) -> Option<TokenView> {
    match value {
        Some(v) => Some(v@),
        None => None,
    }
}

/// A visitor that keeps the value of the last pair with one key.
pub struct Get<'k, 'kvs> {
    /// The key that is looked for.
    pub key: Key<'k>,
    /// The value of the last pair with the key, if any was seen.
    pub found: Option<Value<'kvs>>,
}

impl<'k, 'kvs> Visitor<'kvs> for Get<'k, 'kvs> {
    open spec fn accepts(
        pre: Self,
        key: Seq<char>,
        value: TokenView,
        post: Self,
        r: Result<(), Error>,
    ) -> bool {
        &&& r is Ok
        &&& post.key@ == pre.key@
        &&& token_of(post.found) == if key == pre.key@ {
            Some(value)
        } else {
            token_of(pre.found)
        }
    }

    fn visit_pair(&mut self, key: Key<'kvs>, value: Value<'kvs>) -> (r: Result<(), Error>) {
        if crate::text::str_eq(key.as_str(), self.key.as_str()) {
            self.found = Some(value);
        }
        Ok(())
    }
}

/// What a [`Get`] holds after it was shown pairs: the value of the last
/// pair with its key, or what it held before.
pub proof fn lemma_get_ran<'k, 'kvs>(
    pre: Get<'k, 'kvs>,
    pairs: Seq<Pair>,
    post: Get<'k, 'kvs>,
    r: Result<(), Error>,
)
    requires
        ran(pre, pairs, post, r),
    ensures
        r is Ok,
        post.key@ == pre.key@,
        token_of(post.found) == last_from(token_of(pre.found), pairs, pre.key@),
    decreases pairs.len(),
{
    if pairs.len() != 0 {
        let mid = choose|mid: Get<'k, 'kvs>|
            ran(pre, pairs.drop_last(), mid, Ok::<(), Error>(())) && #[trigger] Get::accepts(
                mid,
                pairs.last().0,
                pairs.last().1,
                post,
                r,
            );
        lemma_get_ran(pre, pairs.drop_last(), mid, Ok::<(), Error>(()));
    }
}

/// A source for key value pairs.
pub trait Source {
    /// The pairs that the source holds, in the order in which it shows them.
    spec fn pairs(&self) -> Seq<Pair>;

    /// Show the pairs to a visitor, one by one, until it fails.
    fn visit<'kvs, V: Visitor<'kvs>>(&'kvs self, visitor: &mut V) -> (r: Result<(), Error>)
        ensures
            visited(*old(visitor), self.pairs(), *final(visitor), r),
    ;

    /// Find the value for a given key.
    ///
    /// If the key is present multiple times, this method will return the
    /// *last* value for the given key.
    fn get<'kvs, Q: ToKey>(&'kvs self, key: Q) -> (r: Option<Value<'kvs>>)
        ensures
            token_of(r) == last_value(self.pairs(), key.key_text()),
    {
        let mut get = Get { key: key.to_key(), found: None };
        let ghost pre = get;
        let went = self.visit(&mut get);
        proof {
            let n = choose|n: int|
                0 <= n <= self.pairs().len() && #[trigger] ran(
                    pre,
                    self.pairs().take(n),
                    get,
                    went,
                ) && (went is Ok ==> n == self.pairs().len());
            lemma_get_ran(pre, self.pairs().take(n), get, went);
            assert(self.pairs().take(n) =~= self.pairs());
        }
        get.found
    }
}

} // verus!
