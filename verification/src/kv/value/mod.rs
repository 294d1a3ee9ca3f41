//! Structured values.
//!
//! A [`Value`] is what stands on the right of a key: a primitive, or the
//! text of something that could only be formatted. Whoever consumes it
//! implements [`Visitor`] and is handed the value by the method that fits
//! its kind.

pub mod token;
pub mod primitive;
pub mod visitor;
pub mod slot;
pub mod impls;

use vstd::prelude::*;
use vstd::string::*;
use crate::kv::error::Error;
use crate::kv::value::primitive::{from_any, Anything, Primitive};
use crate::kv::value::token::{debug_text, Token, TokenView};
use crate::kv::value::visitor::{FmtVisitor, Visitor};

verus! {

#[derive(Clone, Debug)]
enum Inner<'v> {
    Primitive(Primitive<'v>),
    Debug(String),
    Display(String),
}

/// The value in a key-value pair.
///
/// The view of a value is the token that a visitor is handed for it.
#[derive(Clone, Debug)]
pub struct Value<'v> {
    inner: Inner<'v>,
}

impl<'v> View for Value<'v> {
    type V = TokenView;

    closed spec fn view(&self) -> TokenView {
        match self.inner {
            Inner::Primitive(p) => p@,
            Inner::Debug(text) => TokenView::Debug(text@),
            Inner::Display(text) => TokenView::Display(text@),
        }
    }
}

/// The unsigned integer that a token can be read as, if any.
pub open spec fn token_u64(token: TokenView) -> Option<u64> {
    match token {
        TokenView::U64(v) => Some(v),
        TokenView::I64(v) => if v >= 0 {
            Some(v as u64)
        } else {
            None
        },
        _ => None,
    }
}

/// The signed integer that a token can be read as, if any.
pub open spec fn token_i64(token: TokenView) -> Option<i64> {
    match token {
        TokenView::I64(v) => Some(v),
        TokenView::U64(v) => if v <= i64::MAX {
            Some(v as i64)
        } else {
            None
        },
        _ => None,
    }
}

impl<'v> Value<'v> {
    /// Get a value from a primitive.
    pub fn from_primitive(value: Primitive<'v>) -> (r: Value<'v>)
        ensures
            r@ == value@,
    {
        Value { inner: Inner::Primitive(value) }
    }

    /// Get a value from something of any type, if it is captured as a primitive.
    pub fn from_any(value: Anything<'v>) -> (r: Option<Value<'v>>)
        ensures
            match r {
                Some(v) => value.token() == Some(v@),
                None => value.token().is_none(),
            },
    {
        match from_any(value) {
            Some(p) => Some(Value { inner: Inner::Primitive(p) }),
            None => None,
        }
    }

    /// Get a value from a debuggable type: the primitive that it is
    /// captured as, or else the text it was formatted as.
    pub fn from_debug(value: Anything<'v>, text: String) -> (r: Value<'v>)
        ensures
            r@ == match value.token() {
                Some(t) => t,
                None => TokenView::Debug(text@),
            },
    {
        match from_any(value) {
            Some(p) => Value { inner: Inner::Primitive(p) },
            None => Value { inner: Inner::Debug(text) },
        }
    }

    /// Get a value from a displayable type: the primitive that it is
    /// captured as, or else the text it was formatted as.
    pub fn from_display(value: Anything<'v>, text: String) -> (r: Value<'v>)
        ensures
            r@ == match value.token() {
                Some(t) => t,
                None => TokenView::Display(text@),
            },
    {
        match from_any(value) {
            Some(p) => Value { inner: Inner::Primitive(p) },
            None => Value { inner: Inner::Display(text) },
        }
    }

    /// Visit the value: the visitor is handed it by the one method that
    /// fits its kind, and what that method returns is returned.
    pub fn visit<V: Visitor>(&self, visitor: &mut V) -> (r: Result<(), Error>)
        ensures
            V::accepts(*old(visitor), self@, *final(visitor), r),
    {
        match &self.inner {
            Inner::Primitive(Primitive::Signed(v)) => visitor.i64(*v),
            Inner::Primitive(Primitive::Unsigned(v)) => visitor.u64(*v),
            Inner::Primitive(Primitive::Bool(v)) => visitor.bool(*v),
            Inner::Primitive(Primitive::Char(v)) => visitor.char(*v),
            Inner::Primitive(Primitive::Str(v)) => visitor.borrowed_str(v),
            Inner::Primitive(Primitive::Null) => visitor.none(),
            Inner::Debug(text) => visitor.debug(text.as_str()),
            Inner::Display(text) => visitor.display(text.as_str()),
        }
    }

    /// A copy of the value.
    pub fn clone_value(&self) -> (r: Value<'v>)
        ensures
            r@ == self@,
    {
        match &self.inner {
            Inner::Primitive(p) => Value { inner: Inner::Primitive(*p) },
            Inner::Debug(text) => Value { inner: Inner::Debug(text.clone()) },
            Inner::Display(text) => Value { inner: Inner::Display(text.clone()) },
        }
    }

    /// The token that a visitor is handed for the value.
    pub fn to_token(&self) -> (r: Token)
        ensures
            r@ == self@,
    {
        match &self.inner {
            Inner::Primitive(Primitive::Signed(v)) => Token::I64(*v),
            Inner::Primitive(Primitive::Unsigned(v)) => Token::U64(*v),
            Inner::Primitive(Primitive::Bool(v)) => Token::Bool(*v),
            Inner::Primitive(Primitive::Char(v)) => Token::Char(*v),
            Inner::Primitive(Primitive::Str(v)) => Token::Str((*v).to_owned()),
            Inner::Primitive(Primitive::Null) => Token::Null,
            Inner::Debug(text) => Token::Debug(text.clone()),
            Inner::Display(text) => Token::Display(text.clone()),
        }
    }

    /// The text of the value: what a [`FmtVisitor`] writes when it is
    /// handed the value.
    pub fn to_string(&self) -> (r: String)
        ensures
            r@ == debug_text(self@),
    {
        let mut visitor = FmtVisitor::new();
        let _ = self.visit(&mut visitor);
        proof {
            assert(Seq::<char>::empty() + debug_text(self@) =~= debug_text(self@));
        }
        visitor.into_string()
    }

    /// Try to read the value as a `u64`.
    pub fn to_u64(&self) -> (r: Option<u64>)
        ensures
            r == token_u64(self@),
    {
        match &self.inner {
            Inner::Primitive(Primitive::Unsigned(v)) => Some(*v),
            Inner::Primitive(Primitive::Signed(v)) => if *v >= 0 {
                Some(*v as u64)
            } else {
                None
            },
            _ => None,
        }
    }

    /// Try to read the value as an `i64`.
    pub fn to_i64(&self) -> (r: Option<i64>)
        ensures
            r == token_i64(self@),
    {
        match &self.inner {
            Inner::Primitive(Primitive::Signed(v)) => Some(*v),
            Inner::Primitive(Primitive::Unsigned(v)) => if *v <= 0x7fff_ffff_ffff_ffff {
                Some(*v as i64)
            } else {
                None
            },
            _ => None,
        }
    }

    /// Try to read the value as a `u32`.
    pub fn to_u32(&self) -> (r: Option<u32>)
        ensures
            r == match token_u64(self@) {
                Some(v) => if v <= u32::MAX {
                    Some(v as u32)
                } else {
                    None
                },
                None => None,
            },
    {
        match self.to_u64() {
            Some(v) => if v <= 0xffff_ffff {
                Some(v as u32)
            } else {
                None
            },
            None => None,
        }
    }

    /// Try to read the value as an `i32`.
    pub fn to_i32(&self) -> (r: Option<i32>)
        ensures
            r == match token_i64(self@) {
                Some(v) => if i32::MIN <= v && v <= i32::MAX {
                    Some(v as i32)
                } else {
                    None
                },
                None => None,
            },
    {
        match self.to_i64() {
            Some(v) => if -0x8000_0000 <= v && v <= 0x7fff_ffff {
                Some(v as i32)
            } else {
                None
            },
            None => None,
        }
    }

    /// Try to read the value as a `bool`.
    pub fn to_bool(&self) -> (r: Option<bool>)
        ensures
            r == match self@ {
                TokenView::Bool(v) => Some(v),
                _ => None,
            },
    {
        match &self.inner {
            Inner::Primitive(Primitive::Bool(v)) => Some(*v),
            _ => None,
        }
    }

    /// Try to read the value as a `char`.
    pub fn to_char(&self) -> (r: Option<char>)
        ensures
            r == match self@ {
                TokenView::Char(v) => Some(v),
                _ => None,
            },
    {
        match &self.inner {
            Inner::Primitive(Primitive::Char(v)) => Some(*v),
            _ => None,
        }
    }

    /// Try to read the value as a string that is borrowed for `'v`.
    pub fn to_borrowed_str(&self) -> (r: Option<&'v str>)
        ensures
            match r {
                Some(s) => self@ == TokenView::Str(s@),
                None => !(self@ is Str),
            },
    {
        match &self.inner {
            Inner::Primitive(Primitive::Str(v)) => Some(*v),
            _ => None,
        }
    }
}

} // verus!
