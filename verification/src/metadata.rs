//! Metadata about a log message: its level and its target.

use vstd::prelude::*;
use core::cmp::Ordering;
use crate::level::Level;
use crate::text::{
    lemma_str_sign_swap, lemma_str_sign_trans, lemma_str_sign_zero, order_from_sign, order_of_sign,
    sign_of_strs, str_eq, str_sign,
};

verus! {

/// What a [`Metadata`] holds, as mathematical values.
pub struct MetadataView {
    /// The verbosity level of the message.
    pub level: Level,
    /// The name of the target of the directive.
    pub target: Seq<char>,
}

/// The sign of comparing two metadata: by level first, then by target.
pub open spec fn metadata_sign(a: MetadataView, b: MetadataView) -> int {
    if a.level.rank() < b.level.rank() {
        -1
    } else if a.level.rank() > b.level.rank() {
        1
    } else {
        str_sign(a.target, b.target)
    }
}

/// Two metadata compare as equal exactly when they are the same, and
/// swapping the sides flips the sign.
pub proof fn lemma_metadata_sign(a: MetadataView, b: MetadataView)
    ensures
        metadata_sign(a, b) == 0 <==> a == b,
        metadata_sign(b, a) == -metadata_sign(a, b),
{
    lemma_str_sign_zero(a.target, b.target);
    lemma_str_sign_swap(a.target, b.target);
}

/// The order of metadata is transitive.
pub proof fn lemma_metadata_sign_trans(a: MetadataView, b: MetadataView, c: MetadataView)
    requires
        metadata_sign(a, b) <= 0,
        metadata_sign(b, c) <= 0,
    ensures
        metadata_sign(a, c) <= 0,
        metadata_sign(a, b) < 0 || metadata_sign(b, c) < 0 ==> metadata_sign(a, c) < 0,
{
    if a.level == b.level && b.level == c.level {
        lemma_str_sign_trans(a.target, b.target, c.target);
    }
}

/// Metadata about a log message.
///
/// Loggers are handed a `Metadata` to decide whether a message would be
/// logged at all; a record uses it for the message's severity and target.
#[derive(Clone, Copy, Debug, Hash, Eq, Ord)]
pub struct Metadata<'a> {
    level: Level,
    target: &'a str,
}

impl<'a> View for Metadata<'a> {
    type V = MetadataView;

    closed spec fn view(&self) -> MetadataView {
        MetadataView { level: self.level, target: self.target@ }
    }
}

impl<'a> Metadata<'a> {
    /// Returns a new builder.
    pub fn builder() -> (r: MetadataBuilder<'a>)
        ensures
            r@ == (MetadataView { level: Level::Info, target: Seq::<char>::empty() }),
    {
        MetadataBuilder::new()
    }

    /// The verbosity level of the message.
    pub fn level(&self) -> (r: Level)
        ensures
            r == self@.level,
    {
        self.level
    }

    /// The name of the target of the directive.
    pub fn target(&self) -> (r: &'a str)
        ensures
            r@ == self@.target,
    {
        self.target
    }

    /// The sign of comparing `self` with `other`: by level, then by target.
    pub fn sign(&self, other: &Metadata<'a>) -> (r: i8)
        ensures
            r == metadata_sign(self@, other@),
    {
        let a: usize = self.level.to_usize();
        let b: usize = other.level.to_usize();
        if a < b {
            -1
        } else if a > b {
            1
        } else {
            sign_of_strs(self.target, other.target)
        }
    }
}

impl<'a> PartialEq for Metadata<'a> {
    fn eq(&self, other: &Metadata<'a>) -> (r: bool) {
        self.level == other.level && str_eq(self.target, other.target)
    }
}

impl<'a> vstd::std_specs::cmp::PartialEqSpecImpl for Metadata<'a> {
    open spec fn obeys_eq_spec() -> bool {
        true
    }

    open spec fn eq_spec(&self, other: &Metadata<'a>) -> bool {
        self@ == other@
    }
}

impl<'a> PartialOrd for Metadata<'a> {
    fn partial_cmp(&self, other: &Metadata<'a>) -> (r: Option<Ordering>) {
        Some(order_from_sign(self.sign(other)))
    }
}

impl<'a> vstd::std_specs::cmp::PartialOrdSpecImpl for Metadata<'a> {
    open spec fn obeys_partial_cmp_spec() -> bool {
        true
    }

    open spec fn partial_cmp_spec(&self, other: &Metadata<'a>) -> Option<Ordering> {
        Some(order_of_sign(metadata_sign(self@, other@)))
    }
}

/// Builder for [`Metadata`].
///
/// The builder starts from level `Info` and the empty target.
#[derive(Debug, Hash, Eq, Ord)]
pub struct MetadataBuilder<'a> {
    metadata: Metadata<'a>,
}

impl<'a> View for MetadataBuilder<'a> {
    type V = MetadataView;

    closed spec fn view(&self) -> MetadataView {
        self.metadata@
    }
}

impl<'a> MetadataBuilder<'a> {
    /// Construct a new `MetadataBuilder`, with level `Info` and target `""`.
    pub fn new() -> (r: MetadataBuilder<'a>)
        ensures
            r@ == (MetadataView { level: Level::Info, target: Seq::<char>::empty() }),
    {
        proof {
            reveal_strlit("");
            assert(""@ =~= Seq::<char>::empty());
        }
        MetadataBuilder { metadata: Metadata { level: Level::Info, target: "" } }
    }

    /// Setter for the level.
    pub fn level(&mut self, arg: Level) -> (r: &mut MetadataBuilder<'a>)
        ensures
            r@ == (MetadataView { level: arg, ..old(self)@ }),
            *final(self) == *final(r),
    {
        self.metadata.level = arg;
        self
    }

    /// Setter for the target.
    pub fn target(&mut self, target: &'a str) -> (r: &mut MetadataBuilder<'a>)
        ensures
            r@ == (MetadataView { target: target@, ..old(self)@ }),
            *final(self) == *final(r),
    {
        self.metadata.target = target;
        self
    }

    /// Returns a `Metadata` object.
    pub fn build(&self) -> (r: Metadata<'a>)
        ensures
            r@ == self@,
    {
        Metadata { level: self.metadata.level, target: self.metadata.target }
    }
}

impl<'a> PartialEq for MetadataBuilder<'a> {
    fn eq(&self, other: &MetadataBuilder<'a>) -> (r: bool) {
        self.metadata == other.metadata
    }
}

impl<'a> vstd::std_specs::cmp::PartialEqSpecImpl for MetadataBuilder<'a> {
    open spec fn obeys_eq_spec() -> bool {
        true
    }

    open spec fn eq_spec(&self, other: &MetadataBuilder<'a>) -> bool {
        self@ == other@
    }
}

impl<'a> PartialOrd for MetadataBuilder<'a> {
    fn partial_cmp(&self, other: &MetadataBuilder<'a>) -> (r: Option<Ordering>) {
        Some(order_from_sign(self.metadata.sign(&other.metadata)))
    }
}

impl<'a> vstd::std_specs::cmp::PartialOrdSpecImpl for MetadataBuilder<'a> {
    open spec fn obeys_partial_cmp_spec() -> bool {
        true
    }

    open spec fn partial_cmp_spec(&self, other: &MetadataBuilder<'a>) -> Option<Ordering> {
        Some(order_of_sign(metadata_sign(self@, other@)))
    }
}

} // verus!
