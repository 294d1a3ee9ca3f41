use core::cmp::Ordering;
use log_facade::kv::value::primitive::Primitive;
use log_facade::kv::value::token::Token;
use log_facade::kv::value::Value;
use log_facade::kv::source::collect::collect;
use log_facade::level::Level;
use log_facade::metadata::{Metadata, MetadataBuilder};
use log_facade::record::{Record, RecordBuilder};

#[test]
fn metadata_builder_starts_from_info_and_no_target() {
    let metadata = MetadataBuilder::new().build();
    assert_eq!(metadata.level(), Level::Info);
    assert_eq!(metadata.target(), "");
    let same = Metadata::builder().build();
    assert_eq!(metadata, same);
}

#[test]
fn metadata_builder_sets_level_and_target() {
    let metadata = MetadataBuilder::new().level(Level::Debug).target("myApp").build();
    assert_eq!(metadata.level(), Level::Debug);
    assert_eq!(metadata.target(), "myApp");
    let mut builder = MetadataBuilder::new();
    builder.target("first");
    builder.target("second");
    assert_eq!(builder.build().target(), "second");
    assert_eq!(builder.build().level(), Level::Info);
}

#[test]
fn metadata_is_ordered_by_level_then_target() {
    let a = MetadataBuilder::new().level(Level::Error).target("z").build();
    let b = MetadataBuilder::new().level(Level::Warn).target("a").build();
    let c = MetadataBuilder::new().level(Level::Warn).target("b").build();
    assert!(a < b);
    assert!(b < c);
    assert!(a < c);
    assert!(c > b);
    assert_eq!(b.partial_cmp(&b), Some(Ordering::Equal));
    assert_eq!(a.sign(&b), -1);
    assert_eq!(c.sign(&b), 1);
    assert_eq!(b.sign(&b), 0);
    assert_eq!(a.cmp(&b), Ordering::Less);
    assert!(a != b);
    assert!(MetadataBuilder::new() == MetadataBuilder::new());
    let mut low = MetadataBuilder::new();
    low.level(Level::Error);
    assert!(low < MetadataBuilder::new());
}

#[test]
fn record_builder_starts_empty() {
    let record = RecordBuilder::new().build();
    assert_eq!(record.args(), "");
    assert_eq!(record.level(), Level::Info);
    assert_eq!(record.target(), "");
    assert_eq!(record.module(), None);
    assert_eq!(record.file(), None);
    assert_eq!(record.line(), None);
    assert_eq!(record.properties().unwrap().count(), 0);
    assert_eq!(record.metadata(), &Metadata::builder().build());
}

#[test]
fn record_builder_sets_each_part() {
    let record = Record::builder()
        .args("Error!")
        .level(Level::Error)
        .target("myApp")
        .file(Some("server.rs"))
        .line(Some(144))
        .module(Some("server"))
        .build();
    assert_eq!(record.args(), "Error!");
    assert_eq!(record.level(), Level::Error);
    assert_eq!(record.target(), "myApp");
    assert_eq!(record.file(), Some("server.rs"));
    assert_eq!(record.line(), Some(144));
    assert_eq!(record.module(), Some("server"));
    assert_eq!(record.metadata().level(), Level::Error);
    assert_eq!(record.metadata().target(), "myApp");
}

#[test]
fn record_builder_takes_metadata_whole() {
    let metadata = MetadataBuilder::new().target("myApp").level(Level::Error).build();
    let record = Record::builder()
        .metadata(metadata)
        .args("Error!")
        .line(Some(433))
        .file(Some("app.rs"))
        .module(Some("server"))
        .build();
    assert_eq!(record.level(), Level::Error);
    assert_eq!(record.target(), "myApp");
    assert_eq!(record.line(), Some(433));
    assert_eq!(record.file(), Some("app.rs"));
    let other = Record::builder().metadata(metadata).level(Level::Trace).build();
    assert_eq!(other.level(), Level::Trace);
    assert_eq!(other.target(), "myApp");
}

#[test]
fn pushed_properties_come_before_the_old_ones() {
    let first = [("a", Value::from_primitive(Primitive::Unsigned(1)))];
    let record = Record::builder().args("msg").properties(&first).build();
    let second = [
        ("b", Value::from_primitive(Primitive::Bool(true))),
        ("a", Value::from_primitive(Primitive::Unsigned(2))),
    ];
    let pushed = record.push(&second);
    assert_eq!(pushed.args(), "msg");
    assert_eq!(pushed.level(), record.level());
    let seen = collect(pushed.properties().unwrap());
    assert_eq!(seen.len(), 3);
    assert_eq!(seen[0], ("b".to_string(), Token::Bool(true)));
    assert_eq!(seen[1], ("a".to_string(), Token::U64(2)));
    assert_eq!(seen[2], ("a".to_string(), Token::U64(1)));
    assert_eq!(record.properties().unwrap().count(), 1);
}
