//! A lightweight logging facade.
//!
//! The crate defines the vocabulary that code emitting log records and code
//! consuming them have to agree on: verbosity levels and filters, records and
//! their metadata, the set-once logger slot, and structured key-value pairs
//! that can be attached to a record.
//!
//! Every function is verified against its contract. Contracts are stated over
//! mathematical views of the data: a string is its sequence of characters or
//! bytes, a source of key-value pairs is the sequence of pairs it yields.
//!
//! - [`level`]: levels, level filters, their names and their order
//! - [`metadata`] and [`record`]: what one log message carries
//! - [`logger`]: the `Log` trait and the slot that a logger is installed in
//! - [`kv`]: structured keys, values, visitors and sources of pairs
//! - [`properties`]: the chain of pairs attached to a record
//! - [`text`]: equality and order of strings, byte by byte

pub mod level;
pub mod text;
pub mod metadata;
pub mod kv;
pub mod properties;
pub mod record;
pub mod logger;

pub use crate::level::{Level, LevelFilter, ParseLevelError};
pub use crate::logger::{
    logger, max_level, set_logger, set_max_level, Log, Registry, SetLoggerError, STATIC_MAX_LEVEL,
};
pub use crate::metadata::{Metadata, MetadataBuilder};
pub use crate::record::{Record, RecordBuilder};
