//! What a visitor is handed: the kinds of value, and their text.

use vstd::prelude::*;
use vstd::string::*;

verus! {

/// One value as a visitor sees it, as a mathematical value.
pub enum TokenView {
    /// A signed integer.
    I64(i64),
    /// An unsigned integer.
    U64(u64),
    /// A boolean.
    Bool(bool),
    /// A Unicode character.
    Char(char),
    /// A string.
    Str(Seq<char>),
    /// The empty value.
    Null,
    /// The text of a value that was formatted for debugging.
    Debug(Seq<char>),
    /// The text of a value that was formatted for display.
    Display(Seq<char>),
}

/// The character of a decimal digit.
pub open spec fn digit_char(d: nat) -> char {
    if d == 0 {
        '0'
    } else if d == 1 {
        '1'
    } else if d == 2 {
        '2'
    } else if d == 3 {
        '3'
    } else if d == 4 {
        '4'
    } else if d == 5 {
        '5'
    } else if d == 6 {
        '6'
    } else if d == 7 {
        '7'
    } else if d == 8 {
        '8'
    } else {
        '9'
    }
}

/// A natural number in decimal digits, without leading zeros.
pub open spec fn decimal(n: nat) -> Seq<char>
    decreases n,
{
    if n < 10 {
        seq![digit_char(n)]
    } else {
        decimal(n / 10).push(digit_char(n % 10))
    }
}

/// An integer in decimal digits, with a minus sign where it is negative.
pub open spec fn signed_decimal(v: int) -> Seq<char> {
    if v < 0 {
        seq!['-'] + decimal((-v) as nat)
    } else {
        decimal(v as nat)
    }
}

/// The text that a boolean is formatted as.
pub open spec fn bool_text(v: bool) -> Seq<char> {
    if v {
        "true"@
    } else {
        "false"@
    }
}

/// The text that std's `Debug` gives for a character: the character in
/// single quotes, escaped where it cannot stand for itself.
pub uninterp spec fn char_debug_text(v: char) -> Seq<char>;

/// The text that std's `Debug` gives for a string: the string in double
/// quotes, its characters escaped where they cannot stand for themselves.
pub uninterp spec fn str_debug_text(v: Seq<char>) -> Seq<char>;

/// The text that a visitor is handed where it takes a value only as text.
pub open spec fn debug_text(token: TokenView) -> Seq<char> {
    match token {
        TokenView::I64(v) => signed_decimal(v as int),
        TokenView::U64(v) => decimal(v as nat),
        TokenView::Bool(v) => bool_text(v),
        TokenView::Char(v) => char_debug_text(v),
        TokenView::Str(v) => str_debug_text(v),
        TokenView::Null => "None"@,
        TokenView::Debug(v) => v,
        TokenView::Display(v) => v,
    }
}

/// std's `Debug` for `u64`, through `format!`: the number in decimal digits.
#[verifier::external_body]
pub(crate) fn format_u64(v: u64) -> (r: String)
    ensures
        r@ == decimal(v as nat),
{
    format!("{:?}", v)
}

/// std's `Debug` for `i64`, through `format!`: the number in decimal digits,
/// after a minus sign where it is negative.
#[verifier::external_body]
pub(crate) fn format_i64(v: i64) -> (r: String)
    ensures
        r@ == signed_decimal(v as int),
{
    format!("{:?}", v)
}

/// std's `Debug` for `char`, through `format!`. The text depends on the
/// character alone; it is named, and nothing more is claimed of it.
#[verifier::external_body]
pub(crate) fn format_char(v: char) -> (r: String)
    ensures
        r@ == char_debug_text(v),
{
    format!("{:?}", v)
}

/// std's `Debug` for `str`, through `format!`. The text depends on the
/// string alone; it is named, and nothing more is claimed of it.
#[verifier::external_body]
pub(crate) fn format_str(v: &str) -> (r: String)
    ensures
        r@ == str_debug_text(v@),
{
    format!("{:?}", v)
}

/// The text that a boolean is formatted as.
pub fn format_bool(v: bool) -> (r: &'static str)
    ensures
        r@ == bool_text(v),
{
    if v {
        "true"
    } else {
        "false"
    }
}

/// One value as a visitor sees it.
#[derive(Debug, Clone)]
pub enum Token {
    /// A signed integer.
    I64(i64),
    /// An unsigned integer.
    U64(u64),
    /// A boolean.
    Bool(bool),
    /// A Unicode character.
    Char(char),
    /// A string.
    Str(String),
    /// The empty value.
    Null,
    /// The text of a value that was formatted for debugging.
    Debug(String),
    /// The text of a value that was formatted for display.
    Display(String),
}

impl View for Token {
    type V = TokenView;

    open spec fn view(&self) -> TokenView {
        match self {
            Token::I64(v) => TokenView::I64(*v),
            Token::U64(v) => TokenView::U64(*v),
            Token::Bool(v) => TokenView::Bool(*v),
            Token::Char(v) => TokenView::Char(*v),
            Token::Str(v) => TokenView::Str(v@),
            Token::Null => TokenView::Null,
            Token::Debug(v) => TokenView::Debug(v@),
            Token::Display(v) => TokenView::Display(v@),
        }
    }
}

impl PartialEq for Token {
    fn eq(&self, other: &Token) -> (r: bool) {
        match (self, other) {
            (Token::I64(a), Token::I64(b)) => *a == *b,
            (Token::U64(a), Token::U64(b)) => *a == *b,
            (Token::Bool(a), Token::Bool(b)) => *a == *b,
            (Token::Char(a), Token::Char(b)) => *a == *b,
            (Token::Str(a), Token::Str(b)) => crate::text::str_eq(a.as_str(), b.as_str()),
            (Token::Null, Token::Null) => true,
            (Token::Debug(a), Token::Debug(b)) => crate::text::str_eq(a.as_str(), b.as_str()),
            (Token::Display(a), Token::Display(b)) => crate::text::str_eq(a.as_str(), b.as_str()),
            _ => false,
        }
    }
}

impl vstd::std_specs::cmp::PartialEqSpecImpl for Token {
    open spec fn obeys_eq_spec() -> bool {
        true
    }

    open spec fn eq_spec(&self, other: &Token) -> bool {
        self@ == other@
    }
}

impl Token {
    /// A copy of the token.
    pub fn duplicate(&self) -> (r: Token)
        ensures
            r@ == self@,
    {
        match self {
            Token::I64(v) => Token::I64(*v),
            Token::U64(v) => Token::U64(*v),
            Token::Bool(v) => Token::Bool(*v),
            Token::Char(v) => Token::Char(*v),
            Token::Str(v) => Token::Str(v.clone()),
            Token::Null => Token::Null,
            Token::Debug(v) => Token::Debug(v.clone()),
            Token::Display(v) => Token::Display(v.clone()),
        }
    }

    /// The text that a visitor is handed where it takes the token as text.
    pub fn text(&self) -> (r: String)
        ensures
            r@ == debug_text(self@),
    {
        match self {
            Token::I64(v) => format_i64(*v),
            Token::U64(v) => format_u64(*v),
            Token::Bool(v) => format_bool(*v).to_owned(),
            Token::Char(v) => format_char(*v),
            Token::Str(v) => format_str(v.as_str()),
            Token::Null => "None".to_owned(),
            Token::Debug(v) => v.clone(),
            Token::Display(v) => v.clone(),
        }
    }
}

} // verus!
