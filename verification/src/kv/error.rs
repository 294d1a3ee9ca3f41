//! The error of visiting key-value pairs.

use vstd::prelude::*;
use vstd::string::*;

verus! {

/// std's `io::Error`, carried through as it is: nothing of what it holds is
/// visible to the contracts.
#[verifier::external_type_specification]
#[verifier::external_body]
pub struct ExIoError(std::io::Error);

/// `serde::ser::Error::custom`: builds a serializer's own error from a
/// message. The error type is the caller's, so nothing is claimed of it.
#[verifier::external_body]
fn serde_error_custom<E: serde::ser::Error>(msg: &str) -> (r: E) {
    E::custom(msg)
}

/// The `Display` text of a serializer's error. The text is the
/// serializer's own, so nothing is claimed of it.
#[verifier::external_body]
fn serde_error_text<E: serde::ser::Error>(err: &E) -> (r: String) {
    format!("{}", err)
}

/// `std::io::Error::new` with `ErrorKind::Other` and the message as payload.
/// The error is opaque, so nothing is claimed of it.
#[verifier::external_body]
fn io_error_other(msg: String) -> (r: std::io::Error) {
    std::io::Error::new(std::io::ErrorKind::Other, msg)
}

#[derive(Debug)]
enum ErrorInner {
    Static(&'static str),
    Owned(String),
}

/// An error encountered while visiting a key-value source.
///
/// The error is a message: either a static one or one that was built when
/// the error arose. Its view is the message.
#[derive(Debug)]
pub struct Error {
    inner: ErrorInner,
}

impl View for Error {
    type V = Seq<char>;

    closed spec fn view(&self) -> Seq<char> {
        match self.inner {
            ErrorInner::Static(msg) => msg@,
            ErrorInner::Owned(msg) => msg@,
        }
    }
}

impl Error {
    /// Whether the message was built at run time.
    pub closed spec fn is_owned(&self) -> bool {
        self.inner is Owned
    }

    /// Capture a static message as an error.
    pub fn msg(msg: &'static str) -> (r: Error)
        ensures
            r@ == msg@,
            !r.is_owned(),
    {
        Error { inner: ErrorInner::Static(msg) }
    }

    /// Create an error from an owned message.
    pub fn owned(msg: String) -> (r: Error)
        ensures
            r@ == msg@,
            r.is_owned(),
    {
        Error { inner: ErrorInner::Owned(msg) }
    }

    /// Create an error for a formattable value: the message is what the
    /// value displays as.
    pub fn custom<T: core::fmt::Display>(err: T) -> (r: Error)
        ensures
            r.is_owned(),
            exists|s: String| to_string_from_display_ensures::<T>(&err, s) && s@ == r@,
    {
        let s = err.to_string();
        let ghost text = s;
        let r = Error { inner: ErrorInner::Owned(s) };
        assert(to_string_from_display_ensures::<T>(&err, text) && text@ == r@);
        r
    }

    /// The message of the error.
    pub fn description(&self) -> (r: &str)
        ensures
            r@ == self@,
    {
        match &self.inner {
            ErrorInner::Static(msg) => msg,
            ErrorInner::Owned(msg) => msg.as_str(),
        }
    }

    /// The message of the error, as an owned string.
    pub fn to_string(&self) -> (r: String)
        ensures
            r@ == self@,
    {
        self.description().to_owned()
    }

    /// Convert into the error of a `serde` serializer, built from the message.
    pub fn into_serde<E: serde::ser::Error>(self) -> (r: E) {
        serde_error_custom(self.description())
    }

    /// An error for a failure of a `serde` serializer: the message is what
    /// the serializer's error displays as.
    pub fn from_serde<E: serde::ser::Error>(err: E) -> (r: Error)
        ensures
            r.is_owned(),
    {
        Error::owned(serde_error_text(&err))
    }

    /// Convert into an io error of kind `Other` that carries the message.
    pub fn into_io_error(self) -> (r: std::io::Error) {
        io_error_other(self.to_string())
    }
}

} // verus!
