//! Primitive values: what can be captured without formatting it.

use vstd::prelude::*;
use vstd::string::*;
use vstd::std_specs::convert::FromSpecImpl;
use crate::kv::value::token::TokenView;

verus! {

/// A captured primitive value.
///
/// These values are common and cheap to copy around.
#[derive(Clone, Copy, Debug)]
pub enum Primitive<'v> {
    /// A signed integer.
    Signed(i64),
    /// An unsigned integer.
    Unsigned(u64),
    /// A boolean.
    Bool(bool),
    /// A Unicode character.
    Char(char),
    /// A borrowed string.
    Str(&'v str),
    /// The empty value.
    Null,
}

impl<'v> View for Primitive<'v> {
    type V = TokenView;

    open spec fn view(&self) -> TokenView {
        match self {
            Primitive::Signed(v) => TokenView::I64(*v),
            Primitive::Unsigned(v) => TokenView::U64(*v),
            Primitive::Bool(v) => TokenView::Bool(*v),
            Primitive::Char(v) => TokenView::Char(*v),
            Primitive::Str(v) => TokenView::Str(v@),
            Primitive::Null => TokenView::Null,
        }
    }
}

/// A value of one of the types that are captured as primitives.
#[derive(Clone, Copy, Debug)]
pub enum Scalar<'v> {
    /// A `usize`.
    Usize(usize),
    /// A `u8`.
    U8(u8),
    /// A `u16`.
    U16(u16),
    /// A `u32`.
    U32(u32),
    /// A `u64`.
    U64(u64),
    /// An `isize`.
    Isize(isize),
    /// An `i8`.
    I8(i8),
    /// An `i16`.
    I16(i16),
    /// An `i32`.
    I32(i32),
    /// An `i64`.
    I64(i64),
    /// A `char`.
    Char(char),
    /// A `bool`.
    Bool(bool),
    /// A string slice.
    Str(&'v str),
}

/// A value of any type, as far as capturing it goes: a scalar, an optional
/// scalar, or something else.
#[derive(Clone, Copy, Debug)]
pub enum Anything<'v> {
    /// A value of a primitive type.
    Scalar(Scalar<'v>),
    /// An `Option` of a primitive type.
    Optional(Option<Scalar<'v>>),
    /// A value of any other type.
    Other,
}

impl<'v> Scalar<'v> {
    /// The token of the scalar: unsigned integers widen to `u64`, signed
    /// ones to `i64`, everything else is itself.
    pub open spec fn token(self) -> TokenView {
        match self {
            Scalar::Usize(v) => TokenView::U64(v as u64),
            Scalar::U8(v) => TokenView::U64(v as u64),
            Scalar::U16(v) => TokenView::U64(v as u64),
            Scalar::U32(v) => TokenView::U64(v as u64),
            Scalar::U64(v) => TokenView::U64(v),
            Scalar::Isize(v) => TokenView::I64(v as i64),
            Scalar::I8(v) => TokenView::I64(v as i64),
            Scalar::I16(v) => TokenView::I64(v as i64),
            Scalar::I32(v) => TokenView::I64(v as i64),
            Scalar::I64(v) => TokenView::I64(v),
            Scalar::Char(v) => TokenView::Char(v),
            Scalar::Bool(v) => TokenView::Bool(v),
            Scalar::Str(v) => TokenView::Str(v@),
        }
    }
}

impl<'v> Anything<'v> {
    /// The token that the value is captured as, if it is captured as a
    /// primitive: an absent optional is the empty value.
    pub open spec fn token(self) -> Option<TokenView> {
        match self {
            Anything::Scalar(s) => Some(s.token()),
            Anything::Optional(Some(s)) => Some(s.token()),
            Anything::Optional(None) => Some(TokenView::Null),
            Anything::Other => None,
        }
    }
}

impl<'v> Primitive<'v> {
    /// Captures a scalar as a primitive.
    pub fn from_scalar(value: Scalar<'v>) -> (r: Primitive<'v>)
        ensures
            r@ == value.token(),
    {
        match value {
            Scalar::Usize(v) => Primitive::from(v),
            Scalar::U8(v) => Primitive::from(v),
            Scalar::U16(v) => Primitive::from(v),
            Scalar::U32(v) => Primitive::from(v),
            Scalar::U64(v) => Primitive::from(v),
            Scalar::Isize(v) => Primitive::from(v),
            Scalar::I8(v) => Primitive::from(v),
            Scalar::I16(v) => Primitive::from(v),
            Scalar::I32(v) => Primitive::from(v),
            Scalar::I64(v) => Primitive::from(v),
            Scalar::Char(v) => Primitive::from(v),
            Scalar::Bool(v) => Primitive::from(v),
            Scalar::Str(v) => Primitive::from(v),
        }
    }
}

/// Tries to capture a value of any type as a primitive.
///
/// Values of the primitive types and optionals of them are captured; an
/// absent optional is the empty value. Anything else is not captured.
pub fn from_any<'v>(value: Anything<'v>) -> (r: Option<Primitive<'v>>)
    ensures
        match r {
            Some(p) => value.token() == Some(p@),
            None => value.token().is_none(),
        },
{
    match value {
        Anything::Scalar(s) => Some(Primitive::from_scalar(s)),
        Anything::Optional(Some(s)) => Some(Primitive::from_scalar(s)),
        Anything::Optional(None) => Some(Primitive::Null),
        Anything::Other => None,
    }
}

impl<'v> From<u8> for Primitive<'v> {
    fn from(v: u8) -> (r: Primitive<'v>) {
        Primitive::Unsigned(v as u64)
    }
}

impl<'v> FromSpecImpl<u8> for Primitive<'v> {
    open spec fn obeys_from_spec() -> bool {
        true
    }

    open spec fn from_spec(v: u8) -> Primitive<'v> {
        Primitive::Unsigned(v as u64)
    }
}

impl<'v> From<u16> for Primitive<'v> {
    fn from(v: u16) -> (r: Primitive<'v>) {
        Primitive::Unsigned(v as u64)
    }
}

impl<'v> FromSpecImpl<u16> for Primitive<'v> {
    open spec fn obeys_from_spec() -> bool {
        true
    }

    open spec fn from_spec(v: u16) -> Primitive<'v> {
        Primitive::Unsigned(v as u64)
    }
}

impl<'v> From<u32> for Primitive<'v> {
    fn from(v: u32) -> (r: Primitive<'v>) {
        Primitive::Unsigned(v as u64)
    }
}

impl<'v> FromSpecImpl<u32> for Primitive<'v> {
    open spec fn obeys_from_spec() -> bool {
        true
    }

    open spec fn from_spec(v: u32) -> Primitive<'v> {
        Primitive::Unsigned(v as u64)
    }
}

impl<'v> From<usize> for Primitive<'v> {
    fn from(v: usize) -> (r: Primitive<'v>) {
        Primitive::Unsigned(v as u64)
    }
}

impl<'v> FromSpecImpl<usize> for Primitive<'v> {
    open spec fn obeys_from_spec() -> bool {
        true
    }

    open spec fn from_spec(v: usize) -> Primitive<'v> {
        Primitive::Unsigned(v as u64)
    }
}

impl<'v> From<u64> for Primitive<'v> {
    fn from(v: u64) -> (r: Primitive<'v>) {
        Primitive::Unsigned(v)
    }
}

impl<'v> FromSpecImpl<u64> for Primitive<'v> {
    open spec fn obeys_from_spec() -> bool {
        true
    }

    open spec fn from_spec(v: u64) -> Primitive<'v> {
        Primitive::Unsigned(v)
    }
}

impl<'v> From<i8> for Primitive<'v> {
    fn from(v: i8) -> (r: Primitive<'v>) {
        Primitive::Signed(v as i64)
    }
}

impl<'v> FromSpecImpl<i8> for Primitive<'v> {
    open spec fn obeys_from_spec() -> bool {
        true
    }

    open spec fn from_spec(v: i8) -> Primitive<'v> {
        Primitive::Signed(v as i64)
    }
}

impl<'v> From<i16> for Primitive<'v> {
    fn from(v: i16) -> (r: Primitive<'v>) {
        Primitive::Signed(v as i64)
    }
}

impl<'v> FromSpecImpl<i16> for Primitive<'v> {
    open spec fn obeys_from_spec() -> bool {
        true
    }

    open spec fn from_spec(v: i16) -> Primitive<'v> {
        Primitive::Signed(v as i64)
    }
}

impl<'v> From<i32> for Primitive<'v> {
    fn from(v: i32) -> (r: Primitive<'v>) {
        Primitive::Signed(v as i64)
    }
}

impl<'v> FromSpecImpl<i32> for Primitive<'v> {
    open spec fn obeys_from_spec() -> bool {
        true
    }

    open spec fn from_spec(v: i32) -> Primitive<'v> {
        Primitive::Signed(v as i64)
    }
}

impl<'v> From<isize> for Primitive<'v> {
    fn from(v: isize) -> (r: Primitive<'v>) {
        Primitive::Signed(v as i64)
    }
}

impl<'v> FromSpecImpl<isize> for Primitive<'v> {
    open spec fn obeys_from_spec() -> bool {
        true
    }

    open spec fn from_spec(v: isize) -> Primitive<'v> {
        Primitive::Signed(v as i64)
    }
}

impl<'v> From<i64> for Primitive<'v> {
    fn from(v: i64) -> (r: Primitive<'v>) {
        Primitive::Signed(v)
    }
}

impl<'v> FromSpecImpl<i64> for Primitive<'v> {
    open spec fn obeys_from_spec() -> bool {
        true
    }

    open spec fn from_spec(v: i64) -> Primitive<'v> {
        Primitive::Signed(v)
    }
}

impl<'v> From<bool> for Primitive<'v> {
    fn from(v: bool) -> (r: Primitive<'v>) {
        Primitive::Bool(v)
    }
}

impl<'v> FromSpecImpl<bool> for Primitive<'v> {
    open spec fn obeys_from_spec() -> bool {
        true
    }

    open spec fn from_spec(v: bool) -> Primitive<'v> {
        Primitive::Bool(v)
    }
}

impl<'v> From<char> for Primitive<'v> {
    fn from(v: char) -> (r: Primitive<'v>) {
        Primitive::Char(v)
    }
}

impl<'v> FromSpecImpl<char> for Primitive<'v> {
    open spec fn obeys_from_spec() -> bool {
        true
    }

    open spec fn from_spec(v: char) -> Primitive<'v> {
        Primitive::Char(v)
    }
}

impl<'v> From<&'v str> for Primitive<'v> {
    fn from(v: &'v str) -> (r: Primitive<'v>) {
        Primitive::Str(v)
    }
}

impl<'v> FromSpecImpl<&'v str> for Primitive<'v> {
    open spec fn obeys_from_spec() -> bool {
        true
    }

    open spec fn from_spec(v: &'v str) -> Primitive<'v> {
        Primitive::Str(v)
    }
}

/// The elements of an array expression, each followed by a comma.
pub open spec fn listed(fragments: Seq<String>) -> Seq<char>
    decreases fragments.len(),
{
    if fragments.len() == 0 {
        Seq::<char>::empty()
    } else {
        listed(fragments.drop_last()) + fragments.last()@ + ","@
    }
}

/// Writes a row of expressions down as one array expression: an opening
/// bracket, each expression followed by a comma, a closing bracket.
///
/// This is how a table of conversions is generated: one expression for
/// each type that is captured as a primitive, in the order of the row.
pub fn generate(fragments: &[String]) -> (r: String)
    ensures
        r@ == "["@ + listed(fragments@) + "]"@,
{
    let mut out = String::new();
    out.append("[");
    let mut i: usize = 0;
    proof {
        assert(fragments@.take(0) =~= Seq::<String>::empty());
        assert(out@ =~= "["@ + listed(fragments@.take(0)));
    }
    while i < fragments.len()
        invariant
            i <= fragments.len(),
            out@ == "["@ + listed(fragments@.take(i as int)),
        decreases fragments.len() - i,
    {
        out.append(fragments[i].as_str());
        out.append(",");
        proof {
            assert(fragments@.take(i + 1).drop_last() =~= fragments@.take(i as int));
            assert(fragments@.take(i + 1).last() == fragments@[i as int]);
            assert(out@ =~= "["@ + listed(fragments@.take(i + 1)));
        }
        i += 1;
    }
    out.append("]");
    proof {
        assert(fragments@.take(i as int) =~= fragments@);
    }
    out
}

} // verus!
