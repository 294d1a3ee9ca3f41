use core::cmp::Ordering;
use log_facade::level::{
    eq_ignore_ascii_case, level_names, ok_or, to_ascii_uppercase, Level, LevelFilter,
    ParseLevelError,
};

#[test]
fn parses_level_names_in_any_case() {
    assert_eq!(Level::from_name("error"), Ok(Level::Error));
    assert_eq!(Level::from_name("WARN"), Ok(Level::Warn));
    assert_eq!(Level::from_name("Info"), Ok(Level::Info));
    assert_eq!("debug".parse::<Level>(), Ok(Level::Debug));
    assert_eq!("tRaCe".parse::<Level>(), Ok(Level::Trace));
}

#[test]
fn off_is_a_filter_but_no_level() {
    assert_eq!(Level::from_name("off"), Err(ParseLevelError(())));
    assert_eq!(LevelFilter::from_name("off"), Ok(LevelFilter::Off));
    assert_eq!("OFF".parse::<LevelFilter>(), Ok(LevelFilter::Off));
}

#[test]
fn rejects_what_is_no_level_name() {
    assert_eq!(Level::from_name(""), Err(ParseLevelError(())));
    assert_eq!(Level::from_name("erro"), Err(ParseLevelError(())));
    assert_eq!(Level::from_name("errors"), Err(ParseLevelError(())));
    assert_eq!(Level::from_name(" info"), Err(ParseLevelError(())));
    assert_eq!(LevelFilter::from_name("verbose"), Err(ParseLevelError(())));
    assert_eq!(LevelFilter::from_name("tr\u{e4}ce"), Err(ParseLevelError(())));
}

#[test]
fn parse_error_says_what_went_wrong() {
    assert_eq!(
        ParseLevelError(()).description(),
        "attempted to convert a string that doesn't match an existing log level"
    );
}

#[test]
fn names_are_read_back_as_the_level() {
    let levels = [Level::Error, Level::Warn, Level::Info, Level::Debug, Level::Trace];
    for level in levels {
        assert_eq!(Level::from_name(level.as_str()), Ok(level));
        assert_eq!(Level::from_name(&level.to_string().to_lowercase()), Ok(level));
    }
    let filters = [
        LevelFilter::Off,
        LevelFilter::Error,
        LevelFilter::Warn,
        LevelFilter::Info,
        LevelFilter::Debug,
        LevelFilter::Trace,
    ];
    for filter in filters {
        assert_eq!(LevelFilter::from_name(filter.as_str()), Ok(filter));
    }
}

#[test]
fn level_names_are_upper_case() {
    assert_eq!(Level::Error.as_str(), "ERROR");
    assert_eq!(Level::Warn.as_str(), "WARN");
    assert_eq!(Level::Info.as_str(), "INFO");
    assert_eq!(Level::Debug.as_str(), "DEBUG");
    assert_eq!(Level::Trace.to_string(), "TRACE");
    assert_eq!(LevelFilter::Off.as_str(), "OFF");
    assert_eq!(LevelFilter::Trace.to_string(), "TRACE");
}

#[test]
fn levels_have_ranks_one_to_five() {
    assert_eq!(Level::Error.to_usize(), 1);
    assert_eq!(Level::Trace.to_usize(), 5);
    assert_eq!(LevelFilter::Off.to_usize(), 0);
    assert_eq!(LevelFilter::Trace.to_usize(), 5);
    assert_eq!(Level::from_usize(0), None);
    assert_eq!(Level::from_usize(1), Some(Level::Error));
    assert_eq!(Level::from_usize(3), Some(Level::Info));
    assert_eq!(Level::from_usize(5), Some(Level::Trace));
    assert_eq!(Level::from_usize(6), None);
    assert_eq!(LevelFilter::from_usize(0), Some(LevelFilter::Off));
    assert_eq!(LevelFilter::from_usize(4), Some(LevelFilter::Debug));
    assert_eq!(LevelFilter::from_usize(6), None);
    assert_eq!(LevelFilter::from_usize(usize::MAX), None);
}

#[test]
fn most_verbose_is_trace() {
    assert_eq!(Level::max(), Level::Trace);
    assert_eq!(LevelFilter::max(), LevelFilter::Trace);
}

#[test]
fn levels_convert_to_filters_and_back() {
    assert_eq!(Level::Error.to_level_filter(), LevelFilter::Error);
    assert_eq!(Level::Trace.to_level_filter(), LevelFilter::Trace);
    assert_eq!(LevelFilter::Off.to_level(), None);
    assert_eq!(LevelFilter::Warn.to_level(), Some(Level::Warn));
    let levels = [Level::Error, Level::Warn, Level::Info, Level::Debug, Level::Trace];
    for level in levels {
        assert_eq!(level.to_level_filter().to_level(), Some(level));
    }
}

#[test]
fn levels_are_ordered_by_rank() {
    assert!(Level::Error < Level::Warn);
    assert!(Level::Warn < Level::Info);
    assert!(Level::Info < Level::Debug);
    assert!(Level::Debug < Level::Trace);
    assert!(LevelFilter::Off < LevelFilter::Error);
    assert_eq!(Level::Info.partial_cmp(&Level::Info), Some(Ordering::Equal));
    assert_eq!(Level::Trace.partial_cmp(&Level::Error), Some(Ordering::Greater));
    assert_eq!(Level::Error.cmp(&Level::Trace), Ordering::Less);
    assert_eq!(LevelFilter::Debug.cmp(&LevelFilter::Debug), Ordering::Equal);
}

#[test]
fn levels_compare_with_filters() {
    assert!(Level::Error > LevelFilter::Off);
    assert!(Level::Info <= LevelFilter::Info);
    assert!(Level::Info == LevelFilter::Info);
    assert!(Level::Debug > LevelFilter::Info);
    assert!(LevelFilter::Info < Level::Debug);
    assert!(LevelFilter::Trace == Level::Trace);
    assert!(LevelFilter::Off != Level::Error);
    assert_eq!(LevelFilter::Off.partial_cmp(&Level::Error), Some(Ordering::Less));
}

#[test]
fn compares_strings_ignoring_ascii_case() {
    assert!(eq_ignore_ascii_case("", ""));
    assert!(eq_ignore_ascii_case("Warn", "wARN"));
    assert!(!eq_ignore_ascii_case("warn", "warm"));
    assert!(!eq_ignore_ascii_case("warn", "warns"));
    assert!(eq_ignore_ascii_case("\u{e4}", "\u{e4}"));
    assert!(!eq_ignore_ascii_case("\u{e4}", "\u{c4}"));
    assert!(!eq_ignore_ascii_case("@", "`"));
    assert!(!eq_ignore_ascii_case("[", "{"));
}

#[test]
fn upper_cases_ascii_letters_only() {
    assert_eq!(to_ascii_uppercase(b'a'), b'A');
    assert_eq!(to_ascii_uppercase(b'z'), b'Z');
    assert_eq!(to_ascii_uppercase(b'A'), b'A');
    assert_eq!(to_ascii_uppercase(b'`'), b'`');
    assert_eq!(to_ascii_uppercase(b'{'), b'{');
    assert_eq!(to_ascii_uppercase(0xe4), 0xe4);
}

#[test]
fn ok_or_turns_none_into_the_error() {
    assert_eq!(ok_or(Some(1u8), "none"), Ok(1u8));
    assert_eq!(ok_or(None::<u8>, "none"), Err("none"));
}

#[test]
fn levels_are_written_as_variants() {
    assert_eq!(level_names(), ["OFF", "ERROR", "WARN", "INFO", "DEBUG", "TRACE"]);
    assert_eq!(Level::variant_names(), ["ERROR", "WARN", "INFO", "DEBUG", "TRACE"]);
    assert_eq!(LevelFilter::variant_names(), level_names());
    assert_eq!(Level::Error.variant_index(), 0);
    assert_eq!(Level::Trace.variant_index(), 4);
    assert_eq!(LevelFilter::Off.variant_index(), 0);
    assert_eq!(LevelFilter::Trace.variant_index(), 5);
    for level in [Level::Error, Level::Warn, Level::Info, Level::Debug, Level::Trace] {
        assert_eq!(Level::variant_names()[level.variant_index() as usize], level.as_str());
        let filter = level.to_level_filter();
        assert_eq!(LevelFilter::variant_names()[filter.variant_index() as usize], filter.as_str());
    }
}
