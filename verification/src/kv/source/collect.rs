//! Collecting the pairs of a source, and laying them out as a map or as
//! a sequence.

use vstd::prelude::*;
use vstd::string::*;
use crate::kv::error::Error;
use crate::kv::key::Key;
use crate::kv::source::{ran, Pair, Source, Visitor};
use crate::kv::value::token::{Token, TokenView};
use crate::kv::value::Value;

verus! {

/// A visitor that keeps every pair it is shown, in order.
pub struct Collect {
    /// The pairs seen so far: the text of each key and the token of its value.
    pub entries: Vec<(String, Token)>,
}

/// The pairs that a row of entries stands for.
pub open spec fn entry_pairs(entries: Seq<(String, Token)>) -> Seq<Pair> {
    Seq::new(entries.len(), |i: int| (entries[i].0@, entries[i].1@))
}

impl Collect {
    /// A visitor that has seen nothing yet.
    pub fn new() -> (r: Collect)
        ensures
            entry_pairs(r.entries@) == Seq::<Pair>::empty(),
    {
        let r = Collect { entries: Vec::new() };
        assert(entry_pairs(r.entries@) =~= Seq::<Pair>::empty());
        r
    }
}

impl<'kvs> Visitor<'kvs> for Collect {
    open spec fn accepts(
        pre: Self,
        key: Seq<char>,
        value: TokenView,
        post: Self,
        r: Result<(), Error>,
    ) -> bool {
        &&& r is Ok
        &&& entry_pairs(post.entries@) == entry_pairs(pre.entries@).push((key, value))
    }

    fn visit_pair(&mut self, key: Key<'kvs>, value: Value<'kvs>) -> (r: Result<(), Error>) {
        let ghost before = self.entries@;
        self.entries.push((key.as_str().to_owned(), value.to_token()));
        assert(entry_pairs(self.entries@) =~= entry_pairs(before).push((key@, value@)));
        Ok(())
    }
}

/// What a [`Collect`] holds after it was shown pairs: what it held before,
/// then the pairs.
pub proof fn lemma_collect_ran(pre: Collect, pairs: Seq<Pair>, post: Collect, r: Result<(), Error>)
    requires
        ran(pre, pairs, post, r),
    ensures
        r is Ok,
        entry_pairs(post.entries@) == entry_pairs(pre.entries@) + pairs,
    decreases pairs.len(),
{
    if pairs.len() == 0 {
        assert(entry_pairs(pre.entries@) + pairs =~= entry_pairs(pre.entries@));
    } else {
        let mid = choose|mid: Collect|
            ran(pre, pairs.drop_last(), mid, Ok::<(), Error>(())) && #[trigger] Collect::accepts(
                mid,
                pairs.last().0,
                pairs.last().1,
                post,
                r,
            );
        lemma_collect_ran(pre, pairs.drop_last(), mid, Ok::<(), Error>(()));
        assert(entry_pairs(pre.entries@) + pairs =~= (entry_pairs(pre.entries@)
            + pairs.drop_last()).push(pairs.last()));
    }
}

/// All pairs of a source, in order: the text of each key and the token of
/// its value.
pub fn collect<S: Source>(source: &S) -> (r: Vec<(String, Token)>)
    ensures
        entry_pairs(r@) == source.pairs(),
{
    let mut seen = Collect::new();
    let ghost pre = seen;
    let went = source.visit(&mut seen);
    proof {
        let n = choose|n: int|
            0 <= n <= source.pairs().len() && #[trigger] ran(pre, source.pairs().take(n), seen, went)
                && (went is Ok ==> n == source.pairs().len());
        lemma_collect_ran(pre, source.pairs().take(n), seen, went);
        assert(source.pairs().take(n) =~= source.pairs());
        assert(Seq::<Pair>::empty() + source.pairs() =~= source.pairs());
    }
    seen.entries
}

/// One step of writing pairs down as a map or as a sequence.
#[derive(Debug)]
pub enum Event {
    /// A map begins.
    MapBegin,
    /// The key of an entry of the map.
    MapKey(String),
    /// The value of an entry of the map.
    MapValue(Token),
    /// The map ends.
    MapEnd,
    /// A sequence begins.
    SeqBegin,
    /// An element of the sequence: a pair of key and value.
    SeqElem(String, Token),
    /// The sequence ends.
    SeqEnd,
}

/// One step of writing pairs down, as a mathematical value.
pub enum EventView {
    /// A map begins.
    MapBegin,
    /// The key of an entry of the map.
    MapKey(Seq<char>),
    /// The value of an entry of the map.
    MapValue(TokenView),
    /// The map ends.
    MapEnd,
    /// A sequence begins.
    SeqBegin,
    /// An element of the sequence: a pair of key and value.
    SeqElem(Seq<char>, TokenView),
    /// The sequence ends.
    SeqEnd,
}

impl View for Event {
    type V = EventView;

    open spec fn view(&self) -> EventView {
        match self {
            Event::MapBegin => EventView::MapBegin,
            Event::MapKey(k) => EventView::MapKey(k@),
            Event::MapValue(v) => EventView::MapValue(v@),
            Event::MapEnd => EventView::MapEnd,
            Event::SeqBegin => EventView::SeqBegin,
            Event::SeqElem(k, v) => EventView::SeqElem(k@, v@),
            Event::SeqEnd => EventView::SeqEnd,
        }
    }
}

/// The views of a row of events.
pub open spec fn event_views(events: Seq<Event>) -> Seq<EventView> {
    Seq::new(events.len(), |i: int| events[i]@)
}

/// The entries of a map, one pair after the other: the key, then the value.
pub open spec fn map_body(pairs: Seq<Pair>) -> Seq<EventView>
    decreases pairs.len(),
{
    if pairs.len() == 0 {
        Seq::<EventView>::empty()
    } else {
        map_body(pairs.drop_last()).push(EventView::MapKey(pairs.last().0)).push(
            EventView::MapValue(pairs.last().1),
        )
    }
}

/// The pairs written down as a map: the beginning, an entry for each pair
/// in order, the end.
pub open spec fn map_events(pairs: Seq<Pair>) -> Seq<EventView> {
    (seq![EventView::MapBegin] + map_body(pairs)).push(EventView::MapEnd)
}

/// The pairs written down as a sequence: the beginning, an element for
/// each pair in order, the end.
pub open spec fn seq_events(pairs: Seq<Pair>) -> Seq<EventView> {
    (seq![EventView::SeqBegin] + Seq::new(
        pairs.len(),
        |i: int| EventView::SeqElem(pairs[i].0, pairs[i].1),
    )).push(EventView::SeqEnd)
}

/// Serialize the key-value pairs as a map.
#[derive(Debug)]
pub struct AsMap<S>(pub S);

/// Serialize the key-value pairs as a sequence.
#[derive(Debug)]
pub struct AsSeq<S>(pub S);

/// The pairs of a source, to be written as a map.
pub fn as_map<S: Source>(source: S) -> (r: AsMap<S>)
    ensures
        r.0 == source,
{
    AsMap(source)
}

/// The pairs of a source, to be written as a sequence.
pub fn as_seq<S: Source>(source: S) -> (r: AsSeq<S>)
    ensures
        r.0 == source,
{
    AsSeq(source)
}

impl<S: Source> AsMap<S> {
    /// The steps of writing the pairs down as a map.
    pub fn events(&self) -> (r: Vec<Event>)
        ensures
            event_views(r@) == map_events(self.0.pairs()),
    {
        let entries = collect(&self.0);
        let ghost pairs = entry_pairs(entries@);
        let mut out: Vec<Event> = Vec::new();
        out.push(Event::MapBegin);
        let mut i: usize = 0;
        proof {
            assert(pairs.take(0) =~= Seq::<Pair>::empty());
            assert(event_views(out@) =~= seq![EventView::MapBegin] + map_body(pairs.take(0)));
        }
        while i < entries.len()
            invariant
                i <= entries.len(),
                pairs == entry_pairs(entries@),
                event_views(out@) == seq![EventView::MapBegin] + map_body(pairs.take(i as int)),
            decreases entries.len() - i,
        {
            let ghost before = event_views(out@);
            out.push(Event::MapKey(entries[i].0.clone()));
            out.push(Event::MapValue(entries[i].1.duplicate()));
            proof {
                assert(pairs.take(i + 1).drop_last() =~= pairs.take(i as int));
                assert(pairs.take(i + 1).last() == pairs[i as int]);
                assert(event_views(out@) =~= before.push(EventView::MapKey(pairs[i as int].0)).push(
                    EventView::MapValue(pairs[i as int].1),
                ));
                assert(event_views(out@) =~= seq![EventView::MapBegin] + map_body(
                    pairs.take(i + 1),
                ));
            }
            i += 1;
        }
        let ghost before = event_views(out@);
        out.push(Event::MapEnd);
        proof {
            assert(pairs.take(i as int) =~= pairs);
            assert(event_views(out@) =~= before.push(EventView::MapEnd));
        }
        out
    }
}

impl<S: Source> AsSeq<S> {
    /// The steps of writing the pairs down as a sequence.
    pub fn events(&self) -> (r: Vec<Event>)
        ensures
            event_views(r@) == seq_events(self.0.pairs()),
    {
        let entries = collect(&self.0);
        let ghost pairs = entry_pairs(entries@);
        let mut out: Vec<Event> = Vec::new();
        out.push(Event::SeqBegin);
        let mut i: usize = 0;
        while i < entries.len()
            invariant
                i <= entries.len(),
                pairs == entry_pairs(entries@),
                out.len() == i + 1,
                out[0]@ == EventView::SeqBegin,
                forall|j: int|
                    0 <= j < i ==> (#[trigger] out[j + 1])@ == EventView::SeqElem(
                        pairs[j].0,
                        pairs[j].1,
                    ),
            decreases entries.len() - i,
        {
            out.push(Event::SeqElem(entries[i].0.clone(), entries[i].1.duplicate()));
            i += 1;
        }
        out.push(Event::SeqEnd);
        proof {
            let want = seq_events(pairs);
            let got = event_views(out@);
            assert(got.len() == want.len());
            assert forall|k: int| 0 <= k < got.len() implies got[k] == want[k] by {
                if 0 < k && k <= pairs.len() {
                    assert(out[(k - 1) + 1]@ == EventView::SeqElem(pairs[k - 1].0, pairs[k - 1].1));
                }
            }
            assert(got =~= want);
        }
        out
    }
}

} // verus!
