//! Structured key-value pairs for log records.
//!
//! A record may carry typed data beside its message: a [`source::Source`] of
//! pairs, each a [`key::Key`] and a [`value::Value`]. A value keeps what kind
//! of thing it is, so that a consumer can treat a number as a number.

pub mod error;
pub mod key;
pub mod value;
pub mod source;
pub mod adapter;
