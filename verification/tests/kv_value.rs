use log_facade::kv::adapter;
use log_facade::kv::error::Error;
use log_facade::kv::source::collect::{as_map, Event};
use log_facade::kv::value::impls::ToValue;
use log_facade::kv::value::primitive::{from_any, generate, Anything, Primitive, Scalar};
use log_facade::kv::value::slot::{Fill, Slot};
use log_facade::kv::value::token::{format_bool, Token, TokenView};
use log_facade::kv::value::visitor::{FmtVisitor, TokenVisitor, Visitor};
use log_facade::kv::value::Value;

fn assert_visit(value: Value<'_>, token: Token) {
    let mut visitor = TokenVisitor::new();
    assert!(value.visit(&mut visitor).is_ok());
    assert_eq!(visitor.into_token(), Some(token));
}

fn event_eq(a: &Event, b: &Event) -> bool {
    match (a, b) {
        (Event::MapBegin, Event::MapBegin) => true,
        (Event::MapEnd, Event::MapEnd) => true,
        (Event::SeqBegin, Event::SeqBegin) => true,
        (Event::SeqEnd, Event::SeqEnd) => true,
        (Event::MapKey(x), Event::MapKey(y)) => x == y,
        (Event::MapValue(x), Event::MapValue(y)) => x == y,
        (Event::SeqElem(k, x), Event::SeqElem(l, y)) => k == l && x == y,
        _ => false,
    }
}

#[test]
fn value_visit_simple() {
    assert_visit(1u8.to_value(), Token::U64(1u64));
    assert_visit(true.to_value(), Token::Bool(true));
    assert_visit("a string".to_value(), Token::Str("a string".to_string()));
}

#[test]
fn visit_unsupported_as_debug() {
    let mut object = serde_json::Map::new();
    object.insert("id".to_string(), serde_json::Value::from(123));
    object.insert("name".to_string(), serde_json::Value::from("alice"));
    let v = serde_json::Value::Object(object);

    let value = Value::from_debug(Anything::Other, format!("{:?}", v));
    assert_visit(value, Token::Debug(format!("{:?}", v)));
}

#[test]
fn visit_complex() {
    let mut object = serde_json::Map::new();
    object.insert("id".to_string(), serde_json::Value::from(123));
    object.insert("name".to_string(), serde_json::Value::from("alice"));

    let id = object["id"].as_u64().unwrap();
    let name = object["name"].as_str().unwrap();
    let pairs = vec![("id", id.to_value()), ("name", name.to_value())];
    let events = as_map(pairs).events();
    let want = [
        Event::MapBegin,
        Event::MapKey("id".to_string()),
        Event::MapValue(Token::U64(123)),
        Event::MapKey("name".to_string()),
        Event::MapValue(Token::Str("alice".to_string())),
        Event::MapEnd,
    ];
    assert_eq!(events.len(), want.len());
    for i in 0..want.len() {
        assert!(event_eq(&events[i], &want[i]));
    }
}

#[test]
fn fmt_cast() {
    assert_eq!(
        42u32,
        Value::from_debug(Anything::Scalar(Scalar::U64(42u64)), format!("{:?}", 42u64))
            .to_u32()
            .expect("invalid value")
    );

    assert_eq!(
        "a string",
        Value::from_display(Anything::Scalar(Scalar::Str("a string")), format!("{}", "a string"))
            .to_borrowed_str()
            .expect("invalid value")
    );
}

#[test]
fn fmt_capture() {
    assert_eq!(
        Value::from_debug(Anything::Scalar(Scalar::U16(1u16)), format!("{:?}", 1u16)).to_token(),
        Token::U64(1)
    );
    assert_eq!(
        Value::from_display(Anything::Scalar(Scalar::U16(1u16)), format!("{}", 1u16)).to_token(),
        Token::U64(1)
    );

    assert_eq!(
        Value::from_debug(
            Anything::Optional(Some(Scalar::U16(1u16))),
            format!("{:?}", Some(1u16))
        )
        .to_token(),
        Token::U64(1)
    );
}

#[test]
fn what_is_no_primitive_is_captured_as_text() {
    let debug = Value::from_debug(Anything::Other, "[1, 2]".to_string());
    assert_eq!(debug.to_token(), Token::Debug("[1, 2]".to_string()));
    let display = Value::from_display(Anything::Other, "1 and 2".to_string());
    assert_eq!(display.to_token(), Token::Display("1 and 2".to_string()));
    assert_visit(display, Token::Display("1 and 2".to_string()));
    assert!(Value::from_any(Anything::Other).is_none());
    assert!(from_any(Anything::Other).is_none());
}

#[test]
fn scalars_widen_to_sixty_four_bits() {
    let cases = [
        (Scalar::Usize(7), Token::U64(7)),
        (Scalar::U8(255), Token::U64(255)),
        (Scalar::U16(65535), Token::U64(65535)),
        (Scalar::U32(u32::MAX), Token::U64(4294967295)),
        (Scalar::U64(u64::MAX), Token::U64(u64::MAX)),
        (Scalar::Isize(-7), Token::I64(-7)),
        (Scalar::I8(-128), Token::I64(-128)),
        (Scalar::I16(-32768), Token::I64(-32768)),
        (Scalar::I32(i32::MIN), Token::I64(-2147483648)),
        (Scalar::I64(i64::MIN), Token::I64(i64::MIN)),
        (Scalar::Char('x'), Token::Char('x')),
        (Scalar::Bool(false), Token::Bool(false)),
        (Scalar::Str("s"), Token::Str("s".to_string())),
    ];
    for (scalar, token) in cases {
        assert_eq!(Value::from_primitive(Primitive::from_scalar(scalar)).to_token(), token);
        assert_eq!(Value::from_any(Anything::Scalar(scalar)).unwrap().to_token(), token);
        assert_eq!(Value::from_any(Anything::Optional(Some(scalar))).unwrap().to_token(), token);
    }
    assert_eq!(Value::from_any(Anything::Optional(None)).unwrap().to_token(), Token::Null);
}

#[test]
fn primitives_come_from_plain_values() {
    assert_eq!(Value::from_primitive(Primitive::from(5u8)).to_token(), Token::U64(5));
    assert_eq!(Value::from_primitive(Primitive::from(5u16)).to_token(), Token::U64(5));
    assert_eq!(Value::from_primitive(Primitive::from(5u32)).to_token(), Token::U64(5));
    assert_eq!(Value::from_primitive(Primitive::from(5u64)).to_token(), Token::U64(5));
    assert_eq!(Value::from_primitive(Primitive::from(5usize)).to_token(), Token::U64(5));
    assert_eq!(Value::from_primitive(Primitive::from(-5i8)).to_token(), Token::I64(-5));
    assert_eq!(Value::from_primitive(Primitive::from(-5i16)).to_token(), Token::I64(-5));
    assert_eq!(Value::from_primitive(Primitive::from(-5i32)).to_token(), Token::I64(-5));
    assert_eq!(Value::from_primitive(Primitive::from(-5i64)).to_token(), Token::I64(-5));
    assert_eq!(Value::from_primitive(Primitive::from(-5isize)).to_token(), Token::I64(-5));
    assert_eq!(Value::from_primitive(Primitive::from(true)).to_token(), Token::Bool(true));
    assert_eq!(Value::from_primitive(Primitive::from('c')).to_token(), Token::Char('c'));
    assert_eq!(
        Value::from_primitive(Primitive::from("s")).to_token(),
        Token::Str("s".to_string())
    );
}

#[test]
fn common_types_convert_to_values() {
    assert_eq!(7u16.to_value().to_token(), Token::U64(7));
    assert_eq!(7u32.to_value().to_token(), Token::U64(7));
    assert_eq!(7u64.to_value().to_token(), Token::U64(7));
    assert_eq!(7usize.to_value().to_token(), Token::U64(7));
    assert_eq!((-7i8).to_value().to_token(), Token::I64(-7));
    assert_eq!((-7i16).to_value().to_token(), Token::I64(-7));
    assert_eq!((-7i32).to_value().to_token(), Token::I64(-7));
    assert_eq!((-7i64).to_value().to_token(), Token::I64(-7));
    assert_eq!((-7isize).to_value().to_token(), Token::I64(-7));
    assert_eq!('c'.to_value().to_token(), Token::Char('c'));
    assert_eq!(().to_value().to_token(), Token::Null);
    assert_eq!("text".to_string().to_value().to_token(), Token::Str("text".to_string()));
    assert_eq!(Some(3u8).to_value().to_token(), Token::U64(3));
    assert_eq!(None::<u8>.to_value().to_token(), Token::Null);
    assert_eq!((&&5u8).to_value().to_token(), Token::U64(5));
    let value = 9u8.to_value();
    assert_eq!(value.to_value().to_token(), Token::U64(9));
    assert_eq!(value.clone_value().to_token(), Token::U64(9));
}

#[test]
fn values_are_read_as_numbers_where_they_fit() {
    let big = Value::from_primitive(Primitive::Unsigned(u64::MAX));
    assert_eq!(big.to_u64(), Some(u64::MAX));
    assert_eq!(big.to_i64(), None);
    assert_eq!(big.to_u32(), None);
    assert_eq!(big.to_i32(), None);
    let edge = Value::from_primitive(Primitive::Unsigned(i64::MAX as u64));
    assert_eq!(edge.to_i64(), Some(i64::MAX));
    let over = Value::from_primitive(Primitive::Unsigned(i64::MAX as u64 + 1));
    assert_eq!(over.to_i64(), None);
    let negative = Value::from_primitive(Primitive::Signed(-1));
    assert_eq!(negative.to_u64(), None);
    assert_eq!(negative.to_u32(), None);
    assert_eq!(negative.to_i64(), Some(-1));
    assert_eq!(negative.to_i32(), Some(-1));
    let zero = Value::from_primitive(Primitive::Signed(0));
    assert_eq!(zero.to_u64(), Some(0));
    let max32 = Value::from_primitive(Primitive::Unsigned(u32::MAX as u64));
    assert_eq!(max32.to_u32(), Some(u32::MAX));
    assert_eq!(max32.to_i32(), None);
    let over32 = Value::from_primitive(Primitive::Unsigned(u32::MAX as u64 + 1));
    assert_eq!(over32.to_u32(), None);
    let min32 = Value::from_primitive(Primitive::Signed(i32::MIN as i64));
    assert_eq!(min32.to_i32(), Some(i32::MIN));
    let under32 = Value::from_primitive(Primitive::Signed(i32::MIN as i64 - 1));
    assert_eq!(under32.to_i32(), None);
    let text = Value::from_debug(Anything::Other, "42".to_string());
    assert_eq!(text.to_u64(), None);
    assert_eq!(text.to_i64(), None);
}

#[test]
fn values_are_read_as_what_they_are_only() {
    let flag = Value::from_primitive(Primitive::Bool(true));
    assert_eq!(flag.to_bool(), Some(true));
    assert_eq!(flag.to_char(), None);
    assert_eq!(flag.to_u64(), None);
    assert_eq!(flag.to_borrowed_str(), None);
    let letter = Value::from_primitive(Primitive::Char('q'));
    assert_eq!(letter.to_char(), Some('q'));
    assert_eq!(letter.to_bool(), None);
    let text = Value::from_primitive(Primitive::Str("q"));
    assert_eq!(text.to_borrowed_str(), Some("q"));
    assert_eq!(text.to_char(), None);
    let shown = Value::from_display(Anything::Other, "q".to_string());
    assert_eq!(shown.to_borrowed_str(), None);
}

#[test]
fn values_are_formatted_as_debug_text() {
    assert_eq!(Value::from_primitive(Primitive::Unsigned(0)).to_string(), "0");
    assert_eq!(Value::from_primitive(Primitive::Unsigned(42)).to_string(), "42");
    assert_eq!(
        Value::from_primitive(Primitive::Unsigned(u64::MAX)).to_string(),
        "18446744073709551615"
    );
    assert_eq!(Value::from_primitive(Primitive::Signed(-7)).to_string(), "-7");
    assert_eq!(
        Value::from_primitive(Primitive::Signed(i64::MIN)).to_string(),
        "-9223372036854775808"
    );
    assert_eq!(Value::from_primitive(Primitive::Signed(12)).to_string(), "12");
    assert_eq!(Value::from_primitive(Primitive::Bool(true)).to_string(), "true");
    assert_eq!(Value::from_primitive(Primitive::Bool(false)).to_string(), "false");
    assert_eq!(Value::from_primitive(Primitive::Char('a')).to_string(), "'a'");
    assert_eq!(Value::from_primitive(Primitive::Char('\n')).to_string(), "'\\n'");
    assert_eq!(Value::from_primitive(Primitive::Str("a\"b")).to_string(), "\"a\\\"b\"");
    assert_eq!(Value::from_primitive(Primitive::Null).to_string(), "None");
    assert_eq!(Value::from_debug(Anything::Other, "Point(1)".to_string()).to_string(), "Point(1)");
    assert_eq!(format_bool(true), "true");
}

#[test]
fn a_visitor_of_text_sees_every_value_as_text() {
    let mut visitor = FmtVisitor::new();
    assert!(Value::from_primitive(Primitive::Unsigned(42)).visit(&mut visitor).is_ok());
    assert!(Value::from_primitive(Primitive::Str("s")).visit(&mut visitor).is_ok());
    assert!(Value::from_primitive(Primitive::Signed(-1)).visit(&mut visitor).is_ok());
    assert!(Value::from_primitive(Primitive::Bool(false)).visit(&mut visitor).is_ok());
    assert!(Value::from_primitive(Primitive::Char('c')).visit(&mut visitor).is_ok());
    assert!(Value::from_primitive(Primitive::Null).visit(&mut visitor).is_ok());
    assert!(Value::from_display(Anything::Other, "!".to_string()).visit(&mut visitor).is_ok());
    assert_eq!(visitor.into_string(), "42\"s\"-1false'c'None!");
}

struct Failing;

impl Failing {
    fn refuse(&self) -> Result<(), Error> {
        Err(Error::msg("no text, please"))
    }
}

impl Visitor for Failing {
    fn accepts(_: Self, _: TokenView, _: Self, _: Result<(), Error>) -> bool {
        unreachable!()
    }

    fn debug(&mut self, _v: &str) -> Result<(), Error> {
        self.refuse()
    }

    fn display(&mut self, _v: &str) -> Result<(), Error> {
        self.refuse()
    }

    fn u64(&mut self, _v: u64) -> Result<(), Error> {
        Ok(())
    }

    fn i64(&mut self, _v: i64) -> Result<(), Error> {
        self.refuse()
    }

    fn bool(&mut self, _v: bool) -> Result<(), Error> {
        self.refuse()
    }

    fn char(&mut self, _v: char) -> Result<(), Error> {
        self.refuse()
    }

    fn str(&mut self, _v: &str) -> Result<(), Error> {
        Ok(())
    }

    fn none(&mut self) -> Result<(), Error> {
        self.refuse()
    }
}

#[test]
fn a_visitor_decides_what_it_takes() {
    let mut visitor = Failing;
    assert!(Value::from_primitive(Primitive::Unsigned(1)).visit(&mut visitor).is_ok());
    let failed = Value::from_primitive(Primitive::Signed(1)).visit(&mut visitor);
    assert_eq!(failed.unwrap_err().description(), "no text, please");
    assert!(Value::from_debug(Anything::Other, "x".to_string()).visit(&mut visitor).is_err());
    assert!(Value::from_display(Anything::Other, "x".to_string()).visit(&mut visitor).is_err());
    assert!(Value::from_primitive(Primitive::Str("kept")).visit(&mut visitor).is_ok());
}

#[test]
fn tokens_are_equal_by_kind_and_content() {
    assert_eq!(Token::U64(1), Token::U64(1));
    assert_ne!(Token::U64(1), Token::I64(1));
    assert_ne!(Token::Str("1".to_string()), Token::Debug("1".to_string()));
    assert_ne!(Token::Debug("1".to_string()), Token::Display("1".to_string()));
    assert_eq!(Token::Null, Token::Null);
    assert_eq!(Token::Str("a".to_string()).duplicate(), Token::Str("a".to_string()));
    assert_eq!(Token::Char('a').text(), "'a'");
    assert_eq!(Token::Display("a".to_string()).text(), "a");
}

#[test]
fn a_slot_takes_one_value() {
    let mut slot = Slot::new(TokenVisitor::new());
    assert!(!slot.filled());
    assert!(slot.fill_debug("text").is_ok());
    assert!(slot.filled());
    assert!(slot.try_fill_debug("more").is_err());
    assert_eq!(slot.into_inner().into_token(), Some(Token::Debug("text".to_string())));

    let mut shown = Slot::new(TokenVisitor::new());
    assert!(shown.fill_display("text").is_ok());
    assert_eq!(shown.into_inner().into_token(), Some(Token::Display("text".to_string())));

    let mut any = Slot::new(TokenVisitor::new());
    assert!(any.fill_any(&Value::from_primitive(Primitive::Bool(true))).is_ok());
    assert_eq!(any.into_inner().into_token(), Some(Token::Bool(true)));

    let mut filled = Slot::new(TokenVisitor::new());
    assert!(Value::from_primitive(Primitive::Unsigned(3)).fill(&mut filled).is_ok());
    assert_eq!(filled.into_inner().into_token(), Some(Token::U64(3)));

    let mut free = Slot::new(FmtVisitor::new());
    assert!(free.try_fill_debug("once").is_ok());
    assert_eq!(free.into_inner().into_string(), "once");
}

#[test]
fn expressions_are_listed_as_an_array() {
    assert_eq!(generate(&[]), "[]");
    assert_eq!(generate(&["a".to_string()]), "[a,]");
    assert_eq!(generate(&["(1, f)".to_string(), "(2, g)".to_string()]), "[(1, f),(2, g),]");
}

#[test]
fn adapters_capture_a_value_as_itself_or_as_text() {
    assert_eq!(adapter::default(42u64).to_value().to_token(), Token::U64(42));
    assert_eq!(adapter::default("a").to_value().to_token(), Token::Str("a".to_string()));
    let debug = adapter::debug(format!("{:?}", vec![1, 2]));
    assert_eq!(debug.to_token(), Token::Debug("[1, 2]".to_string()));
    assert_eq!(debug.to_string(), "[1, 2]");
    let display = adapter::display(format!("{}", "plain"));
    assert_eq!(display.to_token(), Token::Display("plain".to_string()));
    let doubled = adapter::with(21u64, |v| v * 2);
    assert_eq!(doubled.to_value().to_token(), Token::U64(42));
    let counted = adapter::with("four", |v: &str| v.len());
    assert_eq!(counted.to_value().to_token(), Token::U64(4));
}
