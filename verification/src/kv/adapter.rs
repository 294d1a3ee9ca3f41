//! Adapters: how a value that is logged becomes a [`Value`].
//!
//! A value is captured as it is where it converts into a value by itself;
//! otherwise it is captured as text, formatted for debugging or for
//! display by whoever logs it.

use vstd::prelude::*;
use vstd::string::*;
use crate::kv::value::impls::ToValue;
use crate::kv::value::primitive::Anything;
use crate::kv::value::token::TokenView;
use crate::kv::value::Value;

verus! {

/// The default adapter: the value is captured as it is.
pub fn default<T: ToValue>(v: T) -> (r: T)
    ensures
        r == v,
{
    v
}

/// Capture a value that is no primitive by the text of its `Debug` form.
pub fn debug(text: String) -> (r: Value<'static>)
    ensures
        r@ == TokenView::Debug(text@),
{
    Value::from_debug(Anything::Other, text)
}

/// Capture a value that is no primitive by the text of its `Display` form.
pub fn display(text: String) -> (r: Value<'static>)
    ensures
        r@ == TokenView::Display(text@),
{
    Value::from_display(Anything::Other, text)
}

/// Use a generic adapter: the value is captured as what the adapter makes
/// of it.
pub fn with<T, U: ToValue, F: FnOnce(T) -> U>(value: T, adapter: F) -> (r: U)
    requires
        call_requires(adapter, (value,)),
    ensures
        call_ensures(adapter, (value,), r),
{
    adapter(value)
}

} // verus!
