//! Visitors: what consumes a value.

use vstd::prelude::*;
use vstd::string::*;
use crate::kv::error::Error;
use crate::kv::value::token::{
    debug_text, format_bool, format_char, format_i64, format_str, format_u64, Token, TokenView,
};

verus! {

/// A visitor for a value.
///
/// A value hands itself to the one method that fits its kind. What a
/// visitor does with a value is its relation [`Visitor::accepts`]: every
/// method leaves the visitor and returns a result that the relation allows
/// for the token it was handed.
pub trait Visitor: Sized {
    /// What the visitor does when it is handed a token: `post` and `r` are
    /// the visitor and the result afterwards.
    spec fn accepts(pre: Self, token: TokenView, post: Self, r: Result<(), Error>) -> bool;

    /// Visit the text of a value that was formatted for debugging.
    fn debug(&mut self, v: &str) -> (r: Result<(), Error>)
        ensures
            Self::accepts(*old(self), TokenView::Debug(v@), *final(self), r),
    ;

    /// Visit the text of a value that was formatted for display.
    fn display(&mut self, v: &str) -> (r: Result<(), Error>)
        ensures
            Self::accepts(*old(self), TokenView::Display(v@), *final(self), r),
    ;

    /// Visit an unsigned integer.
    fn u64(&mut self, v: u64) -> (r: Result<(), Error>)
        ensures
            Self::accepts(*old(self), TokenView::U64(v), *final(self), r),
    ;

    /// Visit a signed integer.
    fn i64(&mut self, v: i64) -> (r: Result<(), Error>)
        ensures
            Self::accepts(*old(self), TokenView::I64(v), *final(self), r),
    ;

    /// Visit a boolean.
    fn bool(&mut self, v: bool) -> (r: Result<(), Error>)
        ensures
            Self::accepts(*old(self), TokenView::Bool(v), *final(self), r),
    ;

    /// Visit a Unicode character.
    fn char(&mut self, v: char) -> (r: Result<(), Error>)
        ensures
            Self::accepts(*old(self), TokenView::Char(v), *final(self), r),
    ;

    /// Visit a UTF-8 string.
    fn str(&mut self, v: &str) -> (r: Result<(), Error>)
        ensures
            Self::accepts(*old(self), TokenView::Str(v@), *final(self), r),
    ;

    /// Visit a string that outlives the visit. Unless a visitor keeps such
    /// strings, it takes them as it takes any string.
    fn borrowed_str(&mut self, v: &str) -> (r: Result<(), Error>)
        ensures
            Self::accepts(*old(self), TokenView::Str(v@), *final(self), r),
    {
        self.str(v)
    }

    /// Visit an empty value.
    fn none(&mut self) -> (r: Result<(), Error>)
        ensures
            Self::accepts(*old(self), TokenView::Null, *final(self), r),
    ;
}

/// A visitor that keeps the token it was handed last.
pub struct TokenVisitor {
    /// The token that was handed in last, if any was.
    pub token: Option<Token>,
}

impl TokenVisitor {
    /// A visitor that has seen nothing yet.
    pub fn new() -> (r: TokenVisitor)
        ensures
            r.token.is_none(),
    {
        TokenVisitor { token: None }
    }

    /// The token that was handed in last, if any was.
    pub fn into_token(self) -> (r: Option<Token>)
        ensures
            r == self.token,
    {
        self.token
    }
}

impl Visitor for TokenVisitor {
    open spec fn accepts(pre: Self, token: TokenView, post: Self, r: Result<(), Error>) -> bool {
        &&& r is Ok
        &&& post.token matches Some(t)
        &&& t@ == token
    }

    fn debug(&mut self, v: &str) -> (r: Result<(), Error>) {
        self.token = Some(Token::Debug(v.to_owned()));
        Ok(())
    }

    fn display(&mut self, v: &str) -> (r: Result<(), Error>) {
        self.token = Some(Token::Display(v.to_owned()));
        Ok(())
    }

    fn u64(&mut self, v: u64) -> (r: Result<(), Error>) {
        self.token = Some(Token::U64(v));
        Ok(())
    }

    fn i64(&mut self, v: i64) -> (r: Result<(), Error>) {
        self.token = Some(Token::I64(v));
        Ok(())
    }

    fn bool(&mut self, v: bool) -> (r: Result<(), Error>) {
        self.token = Some(Token::Bool(v));
        Ok(())
    }

    fn char(&mut self, v: char) -> (r: Result<(), Error>) {
        self.token = Some(Token::Char(v));
        Ok(())
    }

    fn str(&mut self, v: &str) -> (r: Result<(), Error>) {
        self.token = Some(Token::Str(v.to_owned()));
        Ok(())
    }

    fn none(&mut self) -> (r: Result<(), Error>) {
        self.token = Some(Token::Null);
        Ok(())
    }
}

/// A visitor that writes the text of what it is handed to a string: text
/// as it is, and every other value as it is formatted for debugging.
pub struct FmtVisitor {
    /// The text written so far.
    pub text: String,
}

impl FmtVisitor {
    /// A visitor that has written nothing yet.
    pub fn new() -> (r: FmtVisitor)
        ensures
            r.text@ == Seq::<char>::empty(),
    {
        FmtVisitor { text: String::new() }
    }

    /// The text written so far.
    pub fn into_string(self) -> (r: String)
        ensures
            r == self.text,
    {
        self.text
    }
}

impl Visitor for FmtVisitor {
    open spec fn accepts(pre: Self, token: TokenView, post: Self, r: Result<(), Error>) -> bool {
        &&& r is Ok
        &&& post.text@ == pre.text@ + debug_text(token)
    }

    fn debug(&mut self, v: &str) -> (r: Result<(), Error>) {
        self.text.append(v);
        Ok(())
    }

    fn display(&mut self, v: &str) -> (r: Result<(), Error>) {
        self.text.append(v);
        Ok(())
    }

    fn u64(&mut self, v: u64) -> (r: Result<(), Error>) {
        let text = format_u64(v);
        self.text.append(text.as_str());
        Ok(())
    }

    fn i64(&mut self, v: i64) -> (r: Result<(), Error>) {
        let text = format_i64(v);
        self.text.append(text.as_str());
        Ok(())
    }

    fn bool(&mut self, v: bool) -> (r: Result<(), Error>) {
        self.text.append(format_bool(v));
        Ok(())
    }

    fn char(&mut self, v: char) -> (r: Result<(), Error>) {
        let text = format_char(v);
        self.text.append(text.as_str());
        Ok(())
    }

    fn str(&mut self, v: &str) -> (r: Result<(), Error>) {
        let text = format_str(v);
        self.text.append(text.as_str());
        Ok(())
    }

    fn none(&mut self) -> (r: Result<(), Error>) {
        self.text.append("None");
        Ok(())
    }
}

} // verus!
