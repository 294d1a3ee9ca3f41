//! Sorting the pairs of a source by key.

use vstd::prelude::*;
use vstd::string::*;
use crate::kv::error::Error;
use crate::kv::key::Key;
use crate::kv::source::{
    last_value, lemma_ok_is_unit, lemma_visited_concat, lemma_visited_failed,
    lemma_visited_none, lemma_visited_one, ran, visited, Pair, Source, Visitor,
};
use crate::kv::value::token::TokenView;
use crate::kv::value::Value;
use crate::text::{lemma_str_sign_swap, lemma_str_sign_trans, lemma_str_sign_zero, str_sign};

verus! {

/// The pairs are in the strict order of their keys: no key comes twice.
pub open spec fn sorted(entries: Seq<Pair>) -> bool {
    forall|i: int, j: int|
        0 <= i < j < entries.len() ==> str_sign(#[trigger] entries[i].0, #[trigger] entries[j].0)
            < 0
}

/// Where a key belongs among the pairs: the place of the first pair
/// whose key does not come before it.
pub open spec fn place(entries: Seq<Pair>, key: Seq<char>) -> int
    decreases entries.len(),
{
    if entries.len() == 0 {
        0
    } else if str_sign(entries[0].0, key) >= 0 {
        0
    } else {
        1 + place(entries.skip(1), key)
    }
}

/// The pairs with one more pair put where its key belongs: in the place of
/// the pair with the same key, where there is one.
pub open spec fn put(entries: Seq<Pair>, key: Seq<char>, value: TokenView) -> Seq<Pair> {
    let p = place(entries, key);
    if p < entries.len() && entries[p].0 == key {
        entries.update(p, (key, value))
    } else {
        entries.insert(p, (key, value))
    }
}

/// The pairs put one by one, from the first on, among `start`.
pub open spec fn put_all(start: Seq<Pair>, pairs: Seq<Pair>) -> Seq<Pair>
    decreases pairs.len(),
{
    if pairs.len() == 0 {
        start
    } else {
        put(put_all(start, pairs.drop_last()), pairs.last().0, pairs.last().1)
    }
}

/// The pairs in the order of their keys, each key once, with the value
/// that came last for it.
pub open spec fn sorted_last(pairs: Seq<Pair>) -> Seq<Pair> {
    put_all(Seq::<Pair>::empty(), pairs)
}

/// The place of a key lies within the pairs; the keys before it come
/// before the key, and the key at it does not.
pub proof fn lemma_place(entries: Seq<Pair>, key: Seq<char>)
    ensures
        0 <= place(entries, key) <= entries.len(),
        forall|i: int| 0 <= i < place(entries, key) ==> str_sign(#[trigger] entries[i].0, key) < 0,
        place(entries, key) < entries.len() ==> str_sign(entries[place(entries, key)].0, key) >= 0,
    decreases entries.len(),
{
    if entries.len() != 0 && str_sign(entries[0].0, key) < 0 {
        let rest = entries.skip(1);
        lemma_place(rest, key);
        assert forall|i: int| 0 <= i < place(entries, key) implies str_sign(
            #[trigger] entries[i].0,
            key,
        ) < 0 by {
            if i > 0 {
                assert(entries[i] == rest[i - 1]);
            }
        }
        if place(entries, key) < entries.len() {
            assert(entries[place(entries, key)] == rest[place(rest, key)]);
        }
    }
}

/// Putting a pair among sorted pairs leaves them sorted.
pub proof fn lemma_put_sorted(entries: Seq<Pair>, key: Seq<char>, value: TokenView)
    requires
        sorted(entries),
    ensures
        sorted(put(entries, key, value)),
{
    let p = place(entries, key);
    let out = put(entries, key, value);
    lemma_place(entries, key);
    if p < entries.len() && entries[p].0 == key {
        assert forall|i: int, j: int| 0 <= i < j < out.len() implies str_sign(
            #[trigger] out[i].0,
            #[trigger] out[j].0,
        ) < 0 by {
            assert(out[i].0 == entries[i].0);
            assert(out[j].0 == entries[j].0);
        }
    } else {
        assert forall|i: int, j: int| 0 <= i < j < out.len() implies str_sign(
            #[trigger] out[i].0,
            #[trigger] out[j].0,
        ) < 0 by {
            if j < p {
                assert(out[i] == entries[i] && out[j] == entries[j]);
            } else if j == p {
                assert(out[i] == entries[i]);
            } else {
                // the pair at `j` is the old pair at `j - 1`, at or after the place
                assert(out[j] == entries[j - 1]);
                lemma_str_sign_zero(entries[p].0, key);
                lemma_str_sign_swap(entries[p].0, key);
                if j - 1 > p {
                    assert(str_sign(entries[p].0, entries[j - 1].0) < 0);
                    lemma_str_sign_trans(key, entries[p].0, entries[j - 1].0);
                }
                assert(str_sign(key, entries[j - 1].0) < 0);
                if i < p {
                    assert(out[i] == entries[i]);
                    lemma_str_sign_trans(entries[i].0, key, entries[j - 1].0);
                } else if i == p {
                } else {
                    assert(out[i] == entries[i - 1]);
                }
            }
        }
    }
}

/// The sorted pairs of any pairs are sorted.
pub proof fn lemma_put_all_sorted(start: Seq<Pair>, pairs: Seq<Pair>)
    requires
        sorted(start),
    ensures
        sorted(put_all(start, pairs)),
    decreases pairs.len(),
{
    if pairs.len() != 0 {
        lemma_put_all_sorted(start, pairs.drop_last());
        lemma_put_sorted(put_all(start, pairs.drop_last()), pairs.last().0, pairs.last().1);
    }
}

/// Among sorted pairs a key is found at one place at most: the value of a
/// key is the value of the pair that has it.
pub proof fn lemma_sorted_lookup(entries: Seq<Pair>, key: Seq<char>)
    requires
        sorted(entries),
    ensures
        forall|i: int|
            0 <= i < entries.len() && (#[trigger] entries[i]).0 == key ==> last_value(entries, key)
                == Some(entries[i].1),
        (forall|i: int| 0 <= i < entries.len() ==> (#[trigger] entries[i]).0 != key)
            ==> last_value(entries, key).is_none(),
    decreases entries.len(),
{
    if entries.len() != 0 {
        let front = entries.drop_last();
        assert(sorted(front)) by {
            assert forall|i: int, j: int| 0 <= i < j < front.len() implies str_sign(
                #[trigger] front[i].0,
                #[trigger] front[j].0,
            ) < 0 by {
                assert(front[i] == entries[i] && front[j] == entries[j]);
            }
        }
        lemma_sorted_lookup(front, key);
        let last = entries.len() - 1;
        if entries.last().0 == key {
            assert forall|i: int| 0 <= i < entries.len() && (#[trigger] entries[i]).0
                == key implies last_value(entries, key) == Some(entries[i].1) by {
                if i < last {
                    assert(str_sign(entries[i].0, entries[last].0) < 0);
                    lemma_str_sign_zero(entries[i].0, entries[last].0);
                }
            }
        } else {
            assert forall|i: int| 0 <= i < entries.len() && (#[trigger] entries[i]).0
                == key implies last_value(entries, key) == Some(entries[i].1) by {
                assert(front[i] == entries[i]);
            }
            if forall|i: int| 0 <= i < entries.len() ==> (#[trigger] entries[i]).0 != key {
                assert forall|i: int| 0 <= i < front.len() implies (#[trigger] front[i]).0
                    != key by {
                    assert(front[i] == entries[i]);
                }
            }
        }
    }
}

/// After a pair is put among sorted pairs, its key has its value, and
/// every other key the value it had.
pub proof fn lemma_put_lookup(entries: Seq<Pair>, key: Seq<char>, value: TokenView, q: Seq<char>)
    requires
        sorted(entries),
    ensures
        last_value(put(entries, key, value), q) == if q == key {
            Some(value)
        } else {
            last_value(entries, q)
        },
{
    let p = place(entries, key);
    let out = put(entries, key, value);
    lemma_place(entries, key);
    lemma_put_sorted(entries, key, value);
    lemma_sorted_lookup(out, q);
    lemma_sorted_lookup(entries, q);
    let replaced = p < entries.len() && entries[p].0 == key;
    if q == key {
        assert(out[p] == (key, value));
    } else if exists|i: int| 0 <= i < entries.len() && (#[trigger] entries[i]).0 == q {
        let i = choose|i: int| 0 <= i < entries.len() && (#[trigger] entries[i]).0 == q;
        if replaced {
            assert(out[i] == entries[i]);
        } else if i < p {
            assert(out[i] == entries[i]);
        } else {
            assert(out[i + 1] == entries[i]);
        }
    } else {
        assert forall|i: int| 0 <= i < out.len() implies (#[trigger] out[i]).0 != q by {
            if replaced {
                if i != p {
                    assert(out[i] == entries[i]);
                }
            } else if i < p {
                assert(out[i] == entries[i]);
            } else if i > p {
                assert(out[i] == entries[i - 1]);
            }
        }
    }
}

/// In the sorted pairs of any pairs every key has the value that came
/// last for it, and a key that did not come has none.
pub proof fn lemma_sorted_last_lookup(pairs: Seq<Pair>, key: Seq<char>)
    ensures
        sorted(sorted_last(pairs)),
        last_value(sorted_last(pairs), key) == last_value(pairs, key),
    decreases pairs.len(),
{
    lemma_put_all_sorted(Seq::<Pair>::empty(), pairs);
    if pairs.len() != 0 {
        let front = pairs.drop_last();
        lemma_sorted_last_lookup(front, key);
        lemma_put_lookup(sorted_last(front), pairs.last().0, pairs.last().1, key);
    }
}

/// A key that comes after every key of the pairs belongs at their end.
pub proof fn lemma_place_at_end(entries: Seq<Pair>, key: Seq<char>)
    requires
        forall|i: int| 0 <= i < entries.len() ==> str_sign(#[trigger] entries[i].0, key) < 0,
    ensures
        place(entries, key) == entries.len(),
    decreases entries.len(),
{
    if entries.len() != 0 {
        let rest = entries.skip(1);
        assert forall|i: int| 0 <= i < rest.len() implies str_sign(#[trigger] rest[i].0, key)
            < 0 by {
            assert(rest[i] == entries[i + 1]);
        }
        lemma_place_at_end(rest, key);
    }
}

/// Pairs that are sorted already are their own sorted pairs.
pub proof fn lemma_sorted_last_of_sorted(pairs: Seq<Pair>)
    requires
        sorted(pairs),
    ensures
        sorted_last(pairs) == pairs,
    decreases pairs.len(),
{
    if pairs.len() == 0 {
        assert(sorted_last(pairs) =~= pairs);
    } else {
        let front = pairs.drop_last();
        let last = pairs.last();
        assert(sorted(front)) by {
            assert forall|i: int, j: int| 0 <= i < j < front.len() implies str_sign(
                #[trigger] front[i].0,
                #[trigger] front[j].0,
            ) < 0 by {
                assert(front[i] == pairs[i] && front[j] == pairs[j]);
            }
        }
        lemma_sorted_last_of_sorted(front);
        assert forall|i: int| 0 <= i < front.len() implies str_sign(#[trigger] front[i].0, last.0)
            < 0 by {
            assert(front[i] == pairs[i]);
            assert(last == pairs[pairs.len() - 1]);
        }
        lemma_place_at_end(front, last.0);
        assert(put(front, last.0, last.1) =~= pairs);
    }
}

/// Sorting twice is sorting once.
pub proof fn lemma_sorted_last_idempotent(pairs: Seq<Pair>)
    ensures
        sorted_last(sorted_last(pairs)) == sorted_last(pairs),
{
    lemma_put_all_sorted(Seq::<Pair>::empty(), pairs);
    lemma_sorted_last_of_sorted(sorted_last(pairs));
}

/// The pairs that a row of keys and values stands for.
pub open spec fn seen_pairs(entries: Seq<(Key<'_>, Value<'_>)>) -> Seq<Pair> {
    Seq::new(entries.len(), |i: int| (entries[i].0@, entries[i].1@))
}

/// Finds where a key belongs among the entries.
fn find_place<'kvs>(entries: &Vec<(Key<'kvs>, Value<'kvs>)>, key: &Key<'kvs>) -> (r: usize)
    ensures
        r == place(seen_pairs(entries@), key@),
        r <= entries.len(),
{
    let ghost all = seen_pairs(entries@);
    let mut i: usize = 0;
    proof {
        assert(all.skip(0) =~= all);
    }
    while i < entries.len()
        invariant
            i <= entries.len(),
            all == seen_pairs(entries@),
            place(all, key@) == i + place(all.skip(i as int), key@),
        decreases entries.len() - i,
    {
        proof {
            assert(all.skip(i as int)[0] == all[i as int]);
            assert(all.skip(i as int).skip(1) =~= all.skip(i + 1));
        }
        if entries[i].0.sign(key) >= 0 {
            return i;
        }
        i += 1;
    }
    i
}

/// A visitor that keeps the pairs it is shown in the order of their keys,
/// each key once, with the value that came last for it.
pub struct Seen<'kvs> {
    /// The pairs seen so far, in the order of their keys.
    pub entries: Vec<(Key<'kvs>, Value<'kvs>)>,
}

impl<'kvs> Seen<'kvs> {
    /// A visitor that has seen nothing yet.
    pub fn new() -> (r: Seen<'kvs>)
        ensures
            seen_pairs(r.entries@) == Seq::<Pair>::empty(),
    {
        let r = Seen { entries: Vec::new() };
        assert(seen_pairs(r.entries@) =~= Seq::<Pair>::empty());
        r
    }
}

impl<'kvs> Visitor<'kvs> for Seen<'kvs> {
    open spec fn accepts(
        pre: Self,
        key: Seq<char>,
        value: TokenView,
        post: Self,
        r: Result<(), Error>,
    ) -> bool {
        &&& r is Ok
        &&& seen_pairs(post.entries@) == put(seen_pairs(pre.entries@), key, value)
    }

    fn visit_pair(&mut self, key: Key<'kvs>, value: Value<'kvs>) -> (r: Result<(), Error>) {
        let ghost before = seen_pairs(self.entries@);
        let ghost k = key@;
        let ghost v = value@;
        let p: usize = find_place(&self.entries, &key);
        if p < self.entries.len() && crate::text::str_eq(self.entries[p].0.as_str(), key.as_str()) {
            self.entries.set(p, (key, value));
            assert(seen_pairs(self.entries@) =~= before.update(p as int, (k, v)));
        } else {
            self.entries.insert(p, (key, value));
            assert(seen_pairs(self.entries@) =~= before.insert(p as int, (k, v)));
        }
        Ok(())
    }
}

/// What a [`Seen`] holds after it was shown pairs: what it held before,
/// with the pairs put one by one.
pub proof fn lemma_seen_ran<'kvs>(
    pre: Seen<'kvs>,
    pairs: Seq<Pair>,
    post: Seen<'kvs>,
    r: Result<(), Error>,
)
    requires
        ran(pre, pairs, post, r),
    ensures
        r is Ok,
        seen_pairs(post.entries@) == put_all(seen_pairs(pre.entries@), pairs),
    decreases pairs.len(),
{
    if pairs.len() != 0 {
        let mid = choose|mid: Seen<'kvs>|
            ran(pre, pairs.drop_last(), mid, Ok::<(), Error>(())) && #[trigger] Seen::accepts(
                mid,
                pairs.last().0,
                pairs.last().1,
                post,
                r,
            );
        lemma_seen_ran(pre, pairs.drop_last(), mid, Ok::<(), Error>(()));
    }
}

/// Shows the entries to a visitor, one by one, until it fails.
fn show<'kvs, V: Visitor<'kvs>>(entries: &Vec<(Key<'kvs>, Value<'kvs>)>, visitor: &mut V) -> (r:
    Result<(), Error>)
    ensures
        visited(*old(visitor), seen_pairs(entries@), *final(visitor), r),
{
    let ghost pre = *visitor;
    let ghost all = seen_pairs(entries@);
    let mut i: usize = 0;
    proof {
        assert(all.take(0) =~= Seq::<Pair>::empty());
        lemma_visited_none(pre);
    }
    while i < entries.len()
        invariant
            i <= entries.len(),
            pre == *old(visitor),
            all == seen_pairs(entries@),
            visited(pre, all.take(i as int), *visitor, Ok::<(), Error>(())),
        decreases entries.len() - i,
    {
        let ghost mid = *visitor;
        let key = entries[i].0.to_owned();
        let value = entries[i].1.clone_value();
        let went = visitor.visit_pair(key, value);
        proof {
            lemma_visited_one(mid, all[i as int].0, all[i as int].1, *visitor, went);
            lemma_visited_concat(
                pre,
                all.take(i as int),
                mid,
                Ok::<(), Error>(()),
                seq![all[i as int]],
                *visitor,
                went,
            );
            assert(all.take(i as int) + seq![all[i as int]] =~= all.take(i + 1));
        }
        match went {
            Ok(()) => {
                proof {
                    lemma_ok_is_unit(went);
                }
            },
            Err(e) => {
                proof {
                    lemma_visited_failed(pre, all.take(i + 1), all.skip(i + 1), *visitor, went);
                    assert(all.take(i + 1) + all.skip(i + 1) =~= all);
                }
                return Err(e);
            },
        }
        i += 1;
    }
    proof {
        assert(all.take(i as int) =~= all);
    }
    Ok(())
}

/// Sort the inner key values, retaining the last one with a given key.
#[derive(Debug)]
pub struct SortLast<S> {
    source: S,
}

impl<S: Source> SortLast<S> {
    /// The source whose pairs are sorted.
    pub closed spec fn inner(&self) -> S {
        self.source
    }

    /// Wraps a source.
    pub fn new(source: S) -> (r: SortLast<S>)
        ensures
            r.inner() == source,
    {
        SortLast { source }
    }

    /// Gives the source back.
    pub fn into_inner(self) -> (r: S)
        ensures
            r == self.inner(),
    {
        self.source
    }
}

impl<S: Source> Source for SortLast<S> {
    open spec fn pairs(&self) -> Seq<Pair> {
        sorted_last(self.inner().pairs())
    }

    fn visit<'kvs, V: Visitor<'kvs>>(&'kvs self, visitor: &mut V) -> (r: Result<(), Error>) {
        let mut seen = Seen::new();
        let ghost start = seen;
        let went = self.source.visit(&mut seen);
        proof {
            let pairs = self.source.pairs();
            let n = choose|n: int|
                0 <= n <= pairs.len() && #[trigger] ran(start, pairs.take(n), seen, went) && (went
                    is Ok ==> n == pairs.len());
            lemma_seen_ran(start, pairs.take(n), seen, went);
            assert(pairs.take(n) =~= pairs);
        }
        show(&seen.entries, visitor)
    }
}

} // verus!
