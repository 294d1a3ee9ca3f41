use log_facade::level::{Level, LevelFilter};
use log_facade::logger::{
    asked, level_enabled, level_passes, log, log_enabled, logger, max_level, set_logger,
    set_logger_inner, set_max_level, Log, NopLogger, Registry, SetLoggerError, STATIC_MAX_LEVEL,
};
use log_facade::metadata::{Metadata, MetadataView};
use log_facade::record::Record;
use std::cell::Cell;

struct Counting {
    up_to: Level,
    logged: Cell<u32>,
}

impl Log for Counting {
    fn answers(&self, _: MetadataView, _: bool) -> bool {
        unreachable!()
    }

    fn enabled(&self, metadata: &Metadata<'_>) -> bool {
        metadata.level() <= self.up_to
    }

    fn log(&self, record: &Record<'_>) {
        if self.enabled(record.metadata()) {
            self.logged.set(self.logged.get() + 1);
        }
    }

    fn flush(&self) {}
}

#[test]
fn a_logger_can_be_set_once() {
    let mut registry: Registry<NopLogger> = Registry::new();
    assert!(logger(&registry).is_none());
    assert!(set_logger(&mut registry, NopLogger).is_ok());
    assert!(logger(&registry).is_some());
    assert!(set_logger(&mut registry, NopLogger).is_err());
    assert!(logger(&registry).is_some());
}

#[test]
fn a_logger_is_made_only_for_a_free_slot() {
    let made = Cell::new(0u32);
    let mut registry: Registry<NopLogger> = Registry::new();
    let first = set_logger_inner(&mut registry, || {
        made.set(made.get() + 1);
        NopLogger
    });
    assert!(first.is_ok());
    let second = set_logger_inner(&mut registry, || {
        made.set(made.get() + 1);
        NopLogger
    });
    assert!(second.is_err());
    assert_eq!(made.get(), 1);
}

#[test]
fn set_logger_error_says_what_went_wrong() {
    assert_eq!(
        SetLoggerError(()).description(),
        "attempted to set a logger after the logging system was already initialized"
    );
}

#[test]
fn max_level_starts_off_and_can_be_set() {
    let mut registry: Registry<NopLogger> = Registry::new();
    assert_eq!(max_level(&registry), LevelFilter::Off);
    assert!(!level_enabled(&registry, Level::Error));
    set_max_level(&mut registry, LevelFilter::Info);
    assert_eq!(max_level(&registry), LevelFilter::Info);
    assert!(level_enabled(&registry, Level::Error));
    assert!(level_enabled(&registry, Level::Info));
    assert!(!level_enabled(&registry, Level::Debug));
    assert_eq!(STATIC_MAX_LEVEL, LevelFilter::Trace);
}

#[test]
fn records_reach_the_logger_when_they_pass_the_level() {
    let mut registry: Registry<Counting> = Registry::new();
    let record = Record::builder().level(Level::Warn).args("warning").build();
    set_max_level(&mut registry, LevelFilter::Trace);
    assert!(!log(&registry, &record));
    let counting = Counting { up_to: Level::Info, logged: Cell::new(0) };
    assert!(set_logger(&mut registry, counting).is_ok());
    assert!(log(&registry, &record));
    assert_eq!(logger(&registry).unwrap().logged.get(), 1);
    set_max_level(&mut registry, LevelFilter::Error);
    assert!(!log(&registry, &record));
    assert_eq!(logger(&registry).unwrap().logged.get(), 1);
    set_max_level(&mut registry, LevelFilter::Trace);
    let chatty = Record::builder().level(Level::Trace).build();
    assert!(log(&registry, &chatty));
    assert_eq!(logger(&registry).unwrap().logged.get(), 1);
}

#[test]
fn log_enabled_asks_the_logger() {
    let mut registry: Registry<Counting> = Registry::new();
    set_max_level(&mut registry, LevelFilter::Debug);
    assert!(!log_enabled(&registry, Level::Error, "app"));
    let counting = Counting { up_to: Level::Info, logged: Cell::new(0) };
    assert!(set_logger(&mut registry, counting).is_ok());
    assert!(log_enabled(&registry, Level::Error, "app"));
    assert!(log_enabled(&registry, Level::Info, "app"));
    assert!(!log_enabled(&registry, Level::Debug, "app"));
    assert!(!log_enabled(&registry, Level::Trace, "app"));
}

#[test]
fn the_nop_logger_logs_nothing() {
    let nop = NopLogger;
    assert!(!nop.enabled(&Metadata::builder().build()));
    nop.log(&Record::builder().build());
    nop.flush();
}

#[test]
fn the_logger_is_asked_about_the_level_and_target() {
    let mut registry: Registry<NopLogger> = Registry::new();
    set_max_level(&mut registry, LevelFilter::Info);
    assert!(asked(&registry, Level::Info, "here").is_none());
    assert!(set_logger(&mut registry, NopLogger).is_ok());
    let metadata = asked(&registry, Level::Warn, "here").unwrap();
    assert_eq!(metadata.level(), Level::Warn);
    assert_eq!(metadata.target(), "here");
    assert!(asked(&registry, Level::Info, "").is_some());
    assert!(asked(&registry, Level::Debug, "here").is_none());
    set_max_level(&mut registry, LevelFilter::Off);
    assert!(asked(&registry, Level::Error, "here").is_none());
}

#[test]
fn a_level_passes_a_filter_of_its_rank_or_above() {
    assert!(level_passes(Level::Error, LevelFilter::Error));
    assert!(level_passes(Level::Error, LevelFilter::Trace));
    assert!(level_passes(Level::Trace, LevelFilter::Trace));
    assert!(!level_passes(Level::Warn, LevelFilter::Error));
    assert!(!level_passes(Level::Error, LevelFilter::Off));
    assert!(!level_passes(Level::Trace, LevelFilter::Debug));
}
