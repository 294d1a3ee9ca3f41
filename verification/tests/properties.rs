use log_facade::kv::source::collect::collect;
use log_facade::kv::source::Source;
use log_facade::kv::value::primitive::Primitive;
use log_facade::kv::value::token::Token;
use log_facade::kv::value::Value;
use log_facade::properties::kv::{walk, Entry, Iter, Key, KeyValues};
use log_facade::properties::{Properties, RawKeyValue, RawKeyValues, SerializeMap, SerializeSeq};

fn number(value: u64) -> Value<'static> {
    Value::from_primitive(Primitive::Unsigned(value))
}

fn pair(key: &str, value: u64) -> (String, Token) {
    (key.to_string(), Token::U64(value))
}

#[test]
fn an_empty_chain_has_no_pairs() {
    let empty = Properties::empty();
    assert_eq!(empty.count(), 0);
    assert_eq!(collect(&empty), Vec::new());
    assert!(empty.parent().is_none());
    assert_eq!(Properties::default().count(), 0);
}

#[test]
fn a_chain_shows_its_own_pairs_before_its_parents() {
    let old = [("a", number(1)), ("b", number(2))];
    let root = Properties::root(&old);
    assert_eq!(root.count(), 2);
    assert_eq!(collect(&root), vec![pair("a", 1), pair("b", 2)]);
    let new = [("c", number(3))];
    let chained = Properties::chained(&new, &root);
    assert_eq!(chained.count(), 3);
    assert_eq!(collect(&chained), vec![pair("c", 3), pair("a", 1), pair("b", 2)]);
    assert_eq!(collect(&chained.key_values()), vec![pair("c", 3)]);
    assert_eq!(chained.parent().unwrap().count(), 2);
    let newest: [RawKeyValue<'_>; 0] = [];
    let top = Properties::chained(&newest, &chained);
    assert_eq!(collect(&top), vec![pair("c", 3), pair("a", 1), pair("b", 2)]);
    assert_eq!(top.get("a").unwrap().to_token(), Token::U64(1));
}

#[test]
fn raw_key_values_are_a_source() {
    let raw = [("a", number(1)), ("a", number(2))];
    let source = RawKeyValues(&raw);
    assert_eq!(collect(&source), vec![pair("a", 1), pair("a", 2)]);
    assert_eq!(source.get("a").unwrap().to_token(), Token::U64(2));
}

#[test]
fn wrappers_give_back_what_they_wrap() {
    assert_eq!(SerializeMap::new(5u8).into_inner(), 5u8);
    assert_eq!(SerializeSeq::new("x").into_inner(), "x");
    let raw = [("a", number(1)), ("b", number(2))];
    let chain = Properties::root(&raw);
    assert_eq!(chain.serialize_map().entries(), vec![pair("a", 1), pair("b", 2)]);
    assert_eq!(chain.serialize_seq().elements(), vec![pair("a", 1), pair("b", 2)]);
    assert_eq!(chain.serialize_map().into_inner().count(), 2);
}

#[test]
fn cursor_keys_are_numbers_or_strings() {
    let number = Key::from_u64(7);
    assert_eq!(number.as_u64(), Some(7));
    assert_eq!(number.as_str(), None);
    let string = Key::from_str("seven");
    assert_eq!(string.as_u64(), None);
    assert_eq!(string.as_str(), Some("seven"));
}

#[test]
fn entries_name_the_key_that_follows() {
    let entry = Entry::new("a", number(1), Some(Key::from_u64(1)));
    assert_eq!(entry.key(), "a");
    assert_eq!(entry.value().to_token(), Token::U64(1));
    assert_eq!(entry.next().unwrap().as_u64(), Some(1));
    let last = Entry::new("z", number(9), None);
    assert!(last.next().is_none());
}

#[test]
fn rows_are_walked_by_index_keys() {
    let raw = vec![("a", number(1)), ("b", number(2)), ("c", number(3))];
    let first = KeyValues::first(&raw).unwrap();
    assert_eq!(first.key(), "a");
    assert_eq!(first.next().unwrap().as_u64(), Some(1));
    let second = raw.entry(&Key::from_u64(1)).unwrap();
    assert_eq!(second.key(), "b");
    assert_eq!(second.value().to_token(), Token::U64(2));
    assert_eq!(second.next().unwrap().as_u64(), Some(2));
    let third = raw.as_slice().entry(&Key::from_u64(2)).unwrap();
    assert_eq!(third.next().unwrap().as_u64(), Some(3));
    assert!(raw.entry(&Key::from_u64(3)).is_none());
    assert!(raw.entry(&Key::from_u64(u64::MAX)).is_none());
    assert!(raw.entry(&Key::from_str("a")).is_none());
    let empty: Vec<RawKeyValue<'_>> = Vec::new();
    assert!(KeyValues::first(&empty).is_none());
}

#[test]
fn an_iterator_yields_every_pair_in_order() {
    let raw = vec![("a", number(1)), ("b", number(2)), ("c", number(3))];
    let mut iter = Iter::new(raw.as_slice());
    let mut seen = Vec::new();
    while let Some((key, value)) = iter.next() {
        seen.push((key.to_string(), value.to_token()));
    }
    assert_eq!(seen, vec![pair("a", 1), pair("b", 2), pair("c", 3)]);
    assert!(iter.next().is_none());

    let walked = walk(&raw);
    assert_eq!(walked.len(), 3);
    assert_eq!(walked[0].0, "a");
    assert_eq!(walked[2].1.to_token(), Token::U64(3));
    let empty: Vec<RawKeyValue<'_>> = Vec::new();
    assert!(walk(&empty).is_empty());
}

#[test]
fn cursor_keys_come_from_numbers_and_strings() {
    let number: Key = Key::from(7u64);
    assert_eq!(number.as_u64(), Some(7));
    assert_eq!(number.as_str(), None);
    let string: Key = Key::from("seven");
    assert_eq!(string.as_u64(), None);
    assert_eq!(string.as_str(), Some("seven"));
}
