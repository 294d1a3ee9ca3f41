use log_facade::kv::error::Error;

#[test]
fn an_error_is_its_message() {
    let fixed = Error::msg("formatting failed");
    assert_eq!(fixed.description(), "formatting failed");
    assert_eq!(fixed.to_string(), "formatting failed");
    let owned = Error::owned("built".to_string());
    assert_eq!(owned.description(), "built");
    let custom = Error::custom(42);
    assert_eq!(custom.description(), "42");
    let shown = Error::custom("plain");
    assert_eq!(shown.to_string(), "plain");
}

#[test]
fn an_error_converts_into_an_io_error() {
    let io = Error::msg("disk on fire").into_io_error();
    assert_eq!(io.kind(), std::io::ErrorKind::Other);
    assert_eq!(io.to_string(), "disk on fire");
}

#[test]
fn an_error_converts_into_and_from_serde() {
    let serde: serde::de::value::Error = Error::msg("no maps here").into_serde();
    assert_eq!(serde.to_string(), "no maps here");
    let back = Error::from_serde(serde);
    assert_eq!(back.description(), "no maps here");
    let made: serde_json::Error = Error::owned("broken".to_string()).into_serde();
    assert_eq!(Error::from_serde(made).description(), "broken");
}
