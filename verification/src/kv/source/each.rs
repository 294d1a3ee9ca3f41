//! Applying a function to each pair of a source.

use vstd::prelude::*;
use crate::kv::error::Error;
use crate::kv::key::Key;
use crate::kv::source::{ran, Pair, Source, Visitor};
use crate::kv::value::token::TokenView;
use crate::kv::value::Value;

verus! {

/// A visitor that hands each pair to a function.
pub struct ForEach<'kvs, F: Fn(Key<'kvs>, Value<'kvs>) -> Result<(), Error>> {
    f: F,
    marker: core::marker::PhantomData<&'kvs ()>,
}

impl<'kvs, F: Fn(Key<'kvs>, Value<'kvs>) -> Result<(), Error>> ForEach<'kvs, F> {
    /// The function can be called on every pair.
    #[verifier::type_invariant]
    spec fn callable(self) -> bool {
        forall|key: Key<'kvs>, value: Value<'kvs>| call_requires(self.f, (key, value))
    }

    /// The function that the pairs are handed to.
    pub closed spec fn function(self) -> F {
        self.f
    }

    /// A visitor that hands each pair to `f`.
    pub fn new(f: F) -> (r: ForEach<'kvs, F>)
        requires
            forall|key: Key<'kvs>, value: Value<'kvs>| call_requires(f, (key, value)),
        ensures
            r.function() == f,
    {
        ForEach { f, marker: core::marker::PhantomData }
    }
}

impl<'kvs, F: Fn(Key<'kvs>, Value<'kvs>) -> Result<(), Error>> Visitor<'kvs> for ForEach<'kvs, F> {
    open spec fn accepts(
        pre: Self,
        key: Seq<char>,
        value: TokenView,
        post: Self,
        r: Result<(), Error>,
    ) -> bool {
        &&& post.function() == pre.function()
        &&& exists|k: Key<'kvs>, v: Value<'kvs>|
            k@ == key && v@ == value && #[trigger] call_ensures(pre.function(), (k, v), r)
    }

    fn visit_pair(&mut self, key: Key<'kvs>, value: Value<'kvs>) -> (r: Result<(), Error>) {
        proof {
            use_type_invariant(&*self);
        }
        let ghost k = key;
        let ghost v = value;
        let r = (self.f)(key, value);
        assert(call_ensures(self.function(), (k, v), r));
        r
    }
}

/// The function can return `r` when it is handed the pair.
pub open spec fn gave<'kvs, F: Fn(Key<'kvs>, Value<'kvs>) -> Result<(), Error>>(
    f: F,
    pair: Pair,
    r: Result<(), Error>,
) -> bool {
    exists|k: Key<'kvs>, v: Value<'kvs>|
        k@ == pair.0 && v@ == pair.1 && #[trigger] call_ensures(f, (k, v), r)
}

/// The function was handed the pairs in order: it accepted all but
/// perhaps the last, for which it gave `r`.
pub open spec fn applied<'kvs, F: Fn(Key<'kvs>, Value<'kvs>) -> Result<(), Error>>(
    f: F,
    pairs: Seq<Pair>,
    r: Result<(), Error>,
) -> bool {
    if pairs.len() == 0 {
        r is Ok
    } else {
        &&& forall|i: int|
            0 <= i < pairs.len() - 1 ==> gave(f, #[trigger] pairs[i], Ok::<(), Error>(()))
        &&& gave(f, pairs.last(), r)
    }
}

/// What a [`ForEach`] has done after it was shown pairs: it handed each
/// to its function.
pub proof fn lemma_each_ran<'kvs, F: Fn(Key<'kvs>, Value<'kvs>) -> Result<(), Error>>(
    pre: ForEach<'kvs, F>,
    pairs: Seq<Pair>,
    post: ForEach<'kvs, F>,
    r: Result<(), Error>,
)
    requires
        ran(pre, pairs, post, r),
    ensures
        post.function() == pre.function(),
        applied(pre.function(), pairs, r),
    decreases pairs.len(),
{
    if pairs.len() != 0 {
        let mid = choose|mid: ForEach<'kvs, F>|
            ran(pre, pairs.drop_last(), mid, Ok::<(), Error>(())) && #[trigger] ForEach::accepts(
                mid,
                pairs.last().0,
                pairs.last().1,
                post,
                r,
            );
        lemma_each_ran(pre, pairs.drop_last(), mid, Ok::<(), Error>(()));
        let front = pairs.drop_last();
        assert forall|i: int| 0 <= i < pairs.len() - 1 implies gave(
            pre.function(),
            #[trigger] pairs[i],
            Ok::<(), Error>(()),
        ) by {
            assert(front[i] == pairs[i]);
            if i == front.len() - 1 {
                assert(front.last() == pairs[i]);
            }
        }
    }
}

/// Apply a function to each key-value pair, in order, until it fails:
/// the first failure is returned, or `Ok` where there was none.
pub fn try_for_each<'kvs, S: Source, F: Fn(Key<'kvs>, Value<'kvs>) -> Result<(), Error>>(
    source: &'kvs S,
    f: F,
) -> (r: Result<(), Error>)
    requires
        forall|key: Key<'kvs>, value: Value<'kvs>| call_requires(f, (key, value)),
    ensures
        exists|n: int|
            0 <= n <= source.pairs().len() && #[trigger] applied(f, source.pairs().take(n), r) && (r
                is Ok ==> n == source.pairs().len()),
{
    let mut each = ForEach::new(f);
    let ghost pre = each;
    let r = source.visit(&mut each);
    proof {
        let pairs = source.pairs();
        let n = choose|n: int|
            0 <= n <= pairs.len() && #[trigger] ran(pre, pairs.take(n), each, r) && (r is Ok ==> n
                == pairs.len());
        lemma_each_ran(pre, pairs.take(n), each, r);
        assert(applied(f, pairs.take(n), r));
    }
    r
}

} // verus!
