//! Log records: the payload of a log message.

use vstd::prelude::*;
use crate::kv::source::impls::flat;
use crate::kv::source::Pair;
use crate::level::Level;
use crate::metadata::{Metadata, MetadataBuilder, MetadataView};
use crate::properties::{Properties, RawKeyValue};

verus! {

/// The text of an optional string.
pub open spec fn opt_text(text: Option<&str>) -> Option<Seq<char>> {
    match text {
        Some(t) => Some(t@),
        None => None,
    }
}

/// What a [`Record`] holds, as mathematical values.
pub struct RecordView {
    /// Metadata about the log directive.
    pub metadata: MetadataView,
    /// The message body.
    pub args: Seq<char>,
    /// The module path of the message.
    pub module: Option<Seq<char>>,
    /// The source file containing the message.
    pub file: Option<Seq<char>>,
    /// The line containing the message.
    pub line: Option<u32>,
    /// The properties attached to the record, those attached last first.
    pub properties: Seq<Pair>,
}

/// The "payload" of a log message.
///
/// A record is handed to a logger, which shows it as it sees fit. Records
/// are made by a [`RecordBuilder`].
#[derive(Clone, Copy, Debug)]
pub struct Record<'a> {
    metadata: Metadata<'a>,
    args: &'a str,
    module: Option<&'a str>,
    file: Option<&'a str>,
    line: Option<u32>,
    properties: Properties<'a>,
}

impl<'a> View for Record<'a> {
    type V = RecordView;

    closed spec fn view(&self) -> RecordView {
        RecordView {
            metadata: self.metadata@,
            args: self.args@,
            module: opt_text(self.module),
            file: opt_text(self.file),
            line: self.line,
            properties: self.properties.all_pairs(),
        }
    }
}

/// What a builder starts from: level `Info`, and everything else empty.
pub open spec fn default_record() -> RecordView {
    RecordView {
        metadata: MetadataView { level: Level::Info, target: Seq::<char>::empty() },
        args: Seq::<char>::empty(),
        module: None,
        file: None,
        line: None,
        properties: Seq::<Pair>::empty(),
    }
}

impl<'a> Record<'a> {
    /// Returns a new builder.
    pub fn builder() -> (r: RecordBuilder<'a>)
        ensures
            r@ == default_record(),
    {
        RecordBuilder::new()
    }

    /// The message body.
    pub fn args(&self) -> (r: &'a str)
        ensures
            r@ == self@.args,
    {
        self.args
    }

    /// Metadata about the log directive.
    pub fn metadata(&self) -> (r: &Metadata<'a>)
        ensures
            r@ == self@.metadata,
    {
        &self.metadata
    }

    /// The verbosity level of the message.
    pub fn level(&self) -> (r: Level)
        ensures
            r == self@.metadata.level,
    {
        self.metadata.level()
    }

    /// The name of the target of the directive.
    pub fn target(&self) -> (r: &'a str)
        ensures
            r@ == self@.metadata.target,
    {
        self.metadata.target()
    }

    /// The module path of the message.
    pub fn module(&self) -> (r: Option<&'a str>)
        ensures
            opt_text(r) == self@.module,
    {
        self.module
    }

    /// The source file containing the message.
    pub fn file(&self) -> (r: Option<&'a str>)
        ensures
            opt_text(r) == self@.file,
    {
        self.file
    }

    /// The line containing the message.
    pub fn line(&self) -> (r: Option<u32>)
        ensures
            r == self@.line,
    {
        self.line
    }

    /// Get a new borrowed record with the additional properties: they come
    /// before the ones that the record holds.
    pub fn push<'b>(&'b self, properties: &'b [RawKeyValue<'b>]) -> (r: Record<'b>)
        ensures
            r@ == (RecordView { properties: flat(properties@) + self@.properties, ..self@ }),
    {
        Record {
            metadata: self.metadata,
            args: self.args,
            module: self.module,
            file: self.file,
            line: self.line,
            properties: Properties::chained(properties, &self.properties),
        }
    }

    /// The properties attached to this record.
    ///
    /// Properties aren't guaranteed to be unique (the same key may be
    /// repeated with different values).
    pub fn properties(&self) -> (r: Option<&Properties<'a>>)
        ensures
            r matches Some(p) && p.all_pairs() == self@.properties,
    {
        Some(&self.properties)
    }
}

/// Builder for [`Record`].
///
/// The builder starts from the empty message, level `Info`, the empty
/// target, no module path, file or line, and no properties.
#[derive(Debug)]
pub struct RecordBuilder<'a> {
    record: Record<'a>,
}

impl<'a> View for RecordBuilder<'a> {
    type V = RecordView;

    closed spec fn view(&self) -> RecordView {
        self.record@
    }
}

impl<'a> RecordBuilder<'a> {
    /// Construct new `RecordBuilder`.
    pub fn new() -> (r: RecordBuilder<'a>)
        ensures
            r@ == default_record(),
    {
        proof {
            reveal_strlit("");
            assert(""@ =~= Seq::<char>::empty());
        }
        RecordBuilder {
            record: Record {
                metadata: Metadata::builder().build(),
                args: "",
                module: None,
                file: None,
                line: None,
                properties: Properties::empty(),
            },
        }
    }

    /// Set the metadata.
    pub fn metadata(&mut self, metadata: Metadata<'a>) -> (r: &mut RecordBuilder<'a>)
        ensures
            r@ == (RecordView { metadata: metadata@, ..old(self)@ }),
            *final(self) == *final(r),
    {
        self.record.metadata = metadata;
        self
    }

    /// Set the level of the metadata.
    pub fn level(&mut self, level: Level) -> (r: &mut RecordBuilder<'a>)
        ensures
            r@ == (RecordView {
                metadata: MetadataView { level: level, ..old(self)@.metadata },
                ..old(self)@
            }),
            *final(self) == *final(r),
    {
        let mut builder = MetadataBuilder::new();
        builder.level(level);
        builder.target(self.record.metadata.target());
        self.record.metadata = builder.build();
        self
    }

    /// Set the target of the metadata.
    pub fn target(&mut self, target: &'a str) -> (r: &mut RecordBuilder<'a>)
        ensures
            r@ == (RecordView {
                metadata: MetadataView { target: target@, ..old(self)@.metadata },
                ..old(self)@
            }),
            *final(self) == *final(r),
    {
        let mut builder = MetadataBuilder::new();
        builder.level(self.record.metadata.level());
        builder.target(target);
        self.record.metadata = builder.build();
        self
    }

    /// Set the message body.
    pub fn args(&mut self, args: &'a str) -> (r: &mut RecordBuilder<'a>)
        ensures
            r@ == (RecordView { args: args@, ..old(self)@ }),
            *final(self) == *final(r),
    {
        self.record.args = args;
        self
    }

    /// Set the module path of the message.
    pub fn module(&mut self, module: Option<&'a str>) -> (r: &mut RecordBuilder<'a>)
        ensures
            r@ == (RecordView { module: opt_text(module), ..old(self)@ }),
            *final(self) == *final(r),
    {
        self.record.module = module;
        self
    }

    /// Set the source file containing the message.
    pub fn file(&mut self, file: Option<&'a str>) -> (r: &mut RecordBuilder<'a>)
        ensures
            r@ == (RecordView { file: opt_text(file), ..old(self)@ }),
            *final(self) == *final(r),
    {
        self.record.file = file;
        self
    }

    /// Set the line containing the message.
    pub fn line(&mut self, line: Option<u32>) -> (r: &mut RecordBuilder<'a>)
        ensures
            r@ == (RecordView { line: line, ..old(self)@ }),
            *final(self) == *final(r),
    {
        self.record.line = line;
        self
    }

    /// Set the properties: the record holds these and no others.
    pub fn properties(&mut self, properties: &'a [RawKeyValue<'a>]) -> (r: &mut RecordBuilder<'a>)
        ensures
            r@ == (RecordView { properties: flat(properties@), ..old(self)@ }),
            *final(self) == *final(r),
    {
        self.record.properties = Properties::root(properties);
        self
    }

    /// Invoke the builder and return a `Record`.
    pub fn build(&self) -> (r: Record<'a>)
        ensures
            r@ == self@,
    {
        self.record
    }
}

} // verus!
