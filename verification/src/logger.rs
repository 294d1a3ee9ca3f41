//! The logger slot: where the one logger of a program is installed.
//!
//! A program installs a logger once; whatever is logged before that is
//! dropped. The slot also holds the maximum level: records of a more
//! verbose level are dropped before the logger sees them.

use vstd::prelude::*;
use crate::level::{Level, LevelFilter};
use crate::metadata::{Metadata, MetadataView};
use crate::record::Record;

verus! {

/// A trait encapsulating the operations required of a logger.
pub trait Log {
    /// What the logger may answer when it is asked about metadata: `r` is
    /// an answer that [`Log::enabled`] can give. A logger whose answer rests
    /// on more than itself and the metadata allows both answers.
    spec fn answers(&self, metadata: MetadataView, r: bool) -> bool;

    /// Determines if a log message with the specified metadata would be
    /// logged.
    fn enabled(&self, metadata: &Metadata<'_>) -> (r: bool)
        ensures
            self.answers(metadata@, r),
    ;

    /// Logs the `Record`.
    ///
    /// Note that `enabled` is *not* necessarily called before this method.
    /// Implementations of `log` should perform all necessary filtering
    /// internally.
    fn log(&self, record: &Record<'_>);

    /// Flushes any buffered records.
    fn flush(&self);
}

/// The logger that is in place while none is installed: it logs nothing.
#[derive(Clone, Copy, Debug)]
pub struct NopLogger;

impl Log for NopLogger {
    open spec fn answers(&self, metadata: MetadataView, r: bool) -> bool {
        !r
    }

    fn enabled(&self, metadata: &Metadata<'_>) -> (r: bool) {
        false
    }

    fn log(&self, record: &Record<'_>) {
    }

    fn flush(&self) {
    }
}

/// The type returned by [`set_logger`] if a logger has already been set.
#[derive(Debug)]
pub struct SetLoggerError(pub ());

impl SetLoggerError {
    /// What went wrong, in words.
    pub fn description(&self) -> (r: &'static str)
        ensures
            r@ == "attempted to set a logger after the logging system was already initialized"@,
    {
        "attempted to set a logger after the logging system was already initialized"
    }
}

/// How far the installation of a logger has come.
#[derive(Clone, Copy, Debug, PartialEq, Eq, Structural)]
pub enum State {
    /// No logger has been set.
    Uninitialized,
    /// A logger is being set.
    Initializing,
    /// A logger is in place.
    Initialized,
}

/// The statically resolved maximum log level.
pub const STATIC_MAX_LEVEL: LevelFilter = LevelFilter::Trace;

/// The slot for the logger of a program, and the maximum level.
///
/// The slot holds a logger exactly when its state is `Initialized`.
pub struct Registry<L: Log> {
    state: State,
    logger: Option<L>,
    max_level: LevelFilter,
}

impl<L: Log> Registry<L> {
    /// How far the installation of a logger has come.
    pub closed spec fn state(&self) -> State {
        self.state
    }

    /// The logger that is installed, if one is.
    pub closed spec fn installed(&self) -> Option<L> {
        self.logger
    }

    /// The maximum level in force.
    pub closed spec fn spec_max_level(&self) -> LevelFilter {
        self.max_level
    }

    /// The slot holds a logger exactly when its state is `Initialized`.
    pub open spec fn wf(&self) -> bool {
        self.installed() is Some <==> self.state() == State::Initialized
    }

    /// An empty slot: no logger, and the maximum level `Off`.
    pub fn new() -> (r: Registry<L>)
        ensures
            r.wf(),
            r.state() == State::Uninitialized,
            r.installed().is_none(),
            r.spec_max_level() == LevelFilter::Off,
    {
        Registry { state: State::Uninitialized, logger: None, max_level: LevelFilter::Off }
    }
}

/// Whether a message of the level passes the maximum levels: the static
/// one and the one in force.
pub open spec fn passes(level: Level, max_level: LevelFilter) -> bool {
    level.rank() <= STATIC_MAX_LEVEL.rank() && level.rank() <= max_level.rank()
}

/// Sets the global maximum log level.
///
/// Generally, this should only be called by the active logging implementation.
pub fn set_max_level<L: Log>(registry: &mut Registry<L>, level: LevelFilter)
    ensures
        final(registry).spec_max_level() == level,
        final(registry).state() == old(registry).state(),
        final(registry).installed() == old(registry).installed(),
{
    registry.max_level = level;
}

/// Returns the current maximum log level.
pub fn max_level<L: Log>(registry: &Registry<L>) -> (r: LevelFilter)
    ensures
        r == registry.spec_max_level(),
{
    registry.max_level
}

/// Sets the logger to what `make_logger` makes, unless one has been set.
///
/// The logger is made only where the slot is free.
pub fn set_logger_inner<L: Log, F: FnOnce() -> L>(registry: &mut Registry<L>, make_logger: F) -> (r:
    Result<(), SetLoggerError>)
    requires
        call_requires(make_logger, ()),
    ensures
        r is Ok <==> old(registry).state() == State::Uninitialized,
        final(registry).spec_max_level() == old(registry).spec_max_level(),
        r is Ok ==> final(registry).state() == State::Initialized && final(registry).installed()
            is Some && call_ensures(make_logger, (), final(registry).installed()->0),
        r is Err ==> *final(registry) == *old(registry),
        old(registry).wf() ==> final(registry).wf(),
{
    match registry.state {
        State::Uninitialized => {
            registry.state = State::Initializing;
            registry.logger = Some(make_logger());
            registry.state = State::Initialized;
            Ok(())
        },
        _ => Err(SetLoggerError(())),
    }
}

/// Sets the logger.
///
/// This function may only be called once in the lifetime of a slot. Any
/// log events that occur before the call completes are ignored.
///
/// An error is returned if a logger has already been set.
pub fn set_logger<L: Log>(registry: &mut Registry<L>, logger: L) -> (r: Result<(), SetLoggerError>)
    ensures
        r is Ok <==> old(registry).state() == State::Uninitialized,
        final(registry).spec_max_level() == old(registry).spec_max_level(),
        r is Ok ==> final(registry).state() == State::Initialized && final(registry).installed()
            == Some(logger),
        r is Err ==> *final(registry) == *old(registry),
        old(registry).wf() ==> final(registry).wf(),
{
    match registry.state {
        State::Uninitialized => {
            registry.state = State::Initializing;
            registry.logger = Some(logger);
            registry.state = State::Initialized;
            Ok(())
        },
        _ => Err(SetLoggerError(())),
    }
}

/// Returns a reference to the logger, if one has been set. Where none has
/// been set, the caller logs nothing.
pub fn logger<L: Log>(registry: &Registry<L>) -> (r: Option<&L>)
    ensures
        match r {
            Some(l) => registry.state() == State::Initialized && registry.installed() == Some(*l),
            None => registry.state() != State::Initialized || registry.installed().is_none(),
        },
{
    match registry.state {
        State::Initialized => match &registry.logger {
            Some(l) => Some(l),
            None => None,
        },
        _ => None,
    }
}

/// Whether a message of the level passes the static maximum level and the
/// given one.
pub fn level_passes(level: Level, max_level: LevelFilter) -> (r: bool)
    ensures
        r == passes(level, max_level),
{
    level <= STATIC_MAX_LEVEL && level <= max_level
}

/// Whether a message of the level passes the maximum levels: the static
/// one and the one in force.
pub fn level_enabled<L: Log>(registry: &Registry<L>, level: Level) -> (r: bool)
    ensures
        r == passes(level, registry.spec_max_level()),
{
    level_passes(level, registry.max_level)
}

/// The metadata that the logger in place is asked about: that of a message
/// of the level and target, where such a message passes the maximum levels
/// and a logger is in place. Where it is `None` the logger is not asked.
pub fn asked<'a, L: Log>(registry: &Registry<L>, level: Level, target: &'a str) -> (r: Option<
    Metadata<'a>,
>)
    ensures
        r is Some <==> passes(level, registry.spec_max_level()) && registry.state()
            == State::Initialized && registry.installed() is Some,
        r matches Some(m) ==> m@ == (MetadataView { level: level, target: target@ }),
{
    if level_enabled(registry, level) && logger(registry).is_some() {
        let mut builder = Metadata::builder();
        builder.level(level);
        builder.target(target);
        Some(builder.build())
    } else {
        None
    }
}

/// Whether the logger in place is asked about a message of the level:
/// the message passes the maximum levels and a logger is in place.
pub open spec fn reaches_logger<L: Log>(registry: &Registry<L>, level: Level) -> bool {
    &&& passes(level, registry.spec_max_level())
    &&& registry.state() == State::Initialized
    &&& registry.installed() is Some
}

/// Determines if a message logged at the specified level and target would
/// be logged. Where the message passes the maximum levels and a logger is
/// in place, the result is what that logger answers when it is asked about
/// the metadata of the level and target; otherwise it is `false`, and no
/// logger is asked.
pub fn log_enabled<L: Log>(registry: &Registry<L>, level: Level, target: &str) -> (r: bool)
    ensures
        reaches_logger(registry, level) ==> registry.installed()->0.answers(
            MetadataView { level: level, target: target@ },
            r,
        ),
        !reaches_logger(registry, level) ==> !r,
{
    match asked(registry, level, target) {
        Some(metadata) => match logger(registry) {
            Some(l) => l.enabled(&metadata),
            None => false,
        },
        None => false,
    }
}

/// Hands a record to the logger, if the record passes the maximum levels
/// and a logger is in place. Returns whether the logger was handed it.
pub fn log<L: Log>(registry: &Registry<L>, record: &Record<'_>) -> (r: bool)
    ensures
        r == (passes(record@.metadata.level, registry.spec_max_level()) && registry.state()
            == State::Initialized && registry.installed() is Some),
{
    if level_enabled(registry, record.level()) {
        match logger(registry) {
            Some(l) => {
                l.log(record);
                true
            },
            None => false,
        }
    } else {
        false
    }
}

} // verus!
