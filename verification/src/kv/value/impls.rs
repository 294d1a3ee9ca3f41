//! Conversions of common types into values.

use vstd::prelude::*;
use vstd::string::*;
use crate::kv::value::primitive::Primitive;
use crate::kv::value::token::TokenView;
use crate::kv::value::Value;

verus! {

/// A type that can be converted into a value.
pub trait ToValue {
    /// The token of the value that `self` converts into.
    spec fn token(&self) -> TokenView;

    /// Perform the conversion.
    fn to_value(&self) -> (r: Value<'_>)
        ensures
            r@ == self.token(),
    ;
}

impl<'a, T: ToValue + ?Sized> ToValue for &'a T {
    open spec fn token(&self) -> TokenView {
        (**self).token()
    }

    fn to_value(&self) -> (r: Value<'_>) {
        (**self).to_value()
    }
}

impl<'v> ToValue for Value<'v> {
    open spec fn token(&self) -> TokenView {
        self@
    }

    fn to_value(&self) -> (r: Value<'_>) {
        self.clone_value()
    }
}

impl ToValue for () {
    open spec fn token(&self) -> TokenView {
        TokenView::Null
    }

    fn to_value(&self) -> (r: Value<'_>) {
        Value::from_primitive(Primitive::Null)
    }
}

impl ToValue for str {
    open spec fn token(&self) -> TokenView {
        TokenView::Str(self@)
    }

    fn to_value(&self) -> (r: Value<'_>) {
        Value::from_primitive(Primitive::Str(self))
    }
}

impl ToValue for String {
    open spec fn token(&self) -> TokenView {
        TokenView::Str(self@)
    }

    fn to_value(&self) -> (r: Value<'_>) {
        Value::from_primitive(Primitive::Str(self.as_str()))
    }
}

impl<T: ToValue> ToValue for Option<T> {
    open spec fn token(&self) -> TokenView {
        match self {
            Some(v) => v.token(),
            None => TokenView::Null,
        }
    }

    fn to_value(&self) -> (r: Value<'_>) {
        match self {
            Some(v) => v.to_value(),
            None => Value::from_primitive(Primitive::Null),
        }
    }
}

impl ToValue for u8 {
    open spec fn token(&self) -> TokenView {
        TokenView::U64(*self as u64)
    }

    fn to_value(&self) -> (r: Value<'_>) {
        Value::from_primitive(Primitive::from(*self))
    }
}

impl ToValue for u16 {
    open spec fn token(&self) -> TokenView {
        TokenView::U64(*self as u64)
    }

    fn to_value(&self) -> (r: Value<'_>) {
        Value::from_primitive(Primitive::from(*self))
    }
}

impl ToValue for u32 {
    open spec fn token(&self) -> TokenView {
        TokenView::U64(*self as u64)
    }

    fn to_value(&self) -> (r: Value<'_>) {
        Value::from_primitive(Primitive::from(*self))
    }
}

impl ToValue for usize {
    open spec fn token(&self) -> TokenView {
        TokenView::U64(*self as u64)
    }

    fn to_value(&self) -> (r: Value<'_>) {
        Value::from_primitive(Primitive::from(*self))
    }
}

impl ToValue for u64 {
    open spec fn token(&self) -> TokenView {
        TokenView::U64(*self)
    }

    fn to_value(&self) -> (r: Value<'_>) {
        Value::from_primitive(Primitive::from(*self))
    }
}

impl ToValue for i8 {
    open spec fn token(&self) -> TokenView {
        TokenView::I64(*self as i64)
    }

    fn to_value(&self) -> (r: Value<'_>) {
        Value::from_primitive(Primitive::from(*self))
    }
}

impl ToValue for i16 {
    open spec fn token(&self) -> TokenView {
        TokenView::I64(*self as i64)
    }

    fn to_value(&self) -> (r: Value<'_>) {
        Value::from_primitive(Primitive::from(*self))
    }
}

impl ToValue for i32 {
    open spec fn token(&self) -> TokenView {
        TokenView::I64(*self as i64)
    }

    fn to_value(&self) -> (r: Value<'_>) {
        Value::from_primitive(Primitive::from(*self))
    }
}

impl ToValue for isize {
    open spec fn token(&self) -> TokenView {
        TokenView::I64(*self as i64)
    }

    fn to_value(&self) -> (r: Value<'_>) {
        Value::from_primitive(Primitive::from(*self))
    }
}

impl ToValue for i64 {
    open spec fn token(&self) -> TokenView {
        TokenView::I64(*self)
    }

    fn to_value(&self) -> (r: Value<'_>) {
        Value::from_primitive(Primitive::from(*self))
    }
}

impl ToValue for bool {
    open spec fn token(&self) -> TokenView {
        TokenView::Bool(*self)
    }

    fn to_value(&self) -> (r: Value<'_>) {
        Value::from_primitive(Primitive::from(*self))
    }
}

impl ToValue for char {
    open spec fn token(&self) -> TokenView {
        TokenView::Char(*self)
    }

    fn to_value(&self) -> (r: Value<'_>) {
        Value::from_primitive(Primitive::from(*self))
    }
}

} // verus!
