//! Slots: values that are filled in while they are visited.

use vstd::prelude::*;
use crate::kv::error::Error;
use crate::kv::value::token::TokenView;
use crate::kv::value::visitor::Visitor;
use crate::kv::value::Value;

verus! {

/// A visitor that can be filled with one value.
///
/// A slot is handed to a value that decides only while it is visited what
/// it is. It takes one value: filling it a second time is a mistake of the
/// caller.
pub struct Slot<V: Visitor> {
    filled: bool,
    visitor: V,
}

impl<V: Visitor> Slot<V> {
    /// Whether the slot has been filled.
    pub closed spec fn is_filled(&self) -> bool {
        self.filled
    }

    /// The visitor behind the slot.
    pub closed spec fn visitor(&self) -> V {
        self.visitor
    }

    /// A slot on a visitor, not yet filled.
    pub fn new(visitor: V) -> (r: Slot<V>)
        ensures
            !r.is_filled(),
            r.visitor() == visitor,
    {
        Slot { filled: false, visitor }
    }

    /// Gives the visitor back.
    pub fn into_inner(self) -> (r: V)
        ensures
            r == self.visitor(),
    {
        self.visitor
    }

    /// Whether the slot has been filled.
    pub fn filled(&self) -> (r: bool)
        ensures
            r == self.is_filled(),
    {
        self.filled
    }

    /// Fill the slot with a value.
    pub fn fill_any(&mut self, value: &Value<'_>) -> (r: Result<(), Error>)
        requires
            !old(self).is_filled(),
        ensures
            final(self).is_filled(),
            V::accepts(old(self).visitor(), value@, final(self).visitor(), r),
    {
        self.filled = true;
        value.visit(&mut self.visitor)
    }

    /// Fill the slot with the text of a debuggable value.
    pub fn fill_debug(&mut self, text: &str) -> (r: Result<(), Error>)
        requires
            !old(self).is_filled(),
        ensures
            final(self).is_filled(),
            V::accepts(old(self).visitor(), TokenView::Debug(text@), final(self).visitor(), r),
    {
        self.filled = true;
        self.visitor.debug(text)
    }

    /// Fill the slot with the text of a displayable value.
    pub fn fill_display(&mut self, text: &str) -> (r: Result<(), Error>)
        requires
            !old(self).is_filled(),
        ensures
            final(self).is_filled(),
            V::accepts(
                old(self).visitor(),
                TokenView::Display(text@),
                final(self).visitor(),
                r,
            ),
    {
        self.filled = true;
        self.visitor.display(text)
    }

    /// Fill the slot with the text of a debuggable value, unless it has
    /// been filled: a slot that is full is left as it is, with an error.
    pub fn try_fill_debug(&mut self, text: &str) -> (r: Result<(), Error>)
        ensures
            old(self).is_filled() ==> *final(self) == *old(self) && r is Err,
            !old(self).is_filled() ==> final(self).is_filled() && V::accepts(
                old(self).visitor(),
                TokenView::Debug(text@),
                final(self).visitor(),
                r,
            ),
    {
        if self.filled {
            Err(Error::msg("the slot has already been filled"))
        } else {
            self.fill_debug(text)
        }
    }
}

/// A type that fills a slot when it is visited.
pub trait Fill {
    /// The token that the value fills a slot with.
    spec fn token(&self) -> TokenView;

    /// Fill the slot, once.
    fn fill<V: Visitor>(&self, slot: &mut Slot<V>) -> (r: Result<(), Error>)
        requires
            !old(slot).is_filled(),
        ensures
            final(slot).is_filled(),
            V::accepts(old(slot).visitor(), self.token(), final(slot).visitor(), r),
    ;
}

impl<'v> Fill for Value<'v> {
    open spec fn token(&self) -> TokenView {
        self@
    }

    fn fill<V: Visitor>(&self, slot: &mut Slot<V>) -> (r: Result<(), Error>) {
        slot.fill_any(self)
    }
}

} // verus!
