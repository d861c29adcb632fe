//! One logging event, as a call site hands it to a logger.

use crate::level::Level;
use crate::ser::Serialize;
use vstd::prelude::*;

verus! {

/// Key/value pair given at a call site: it lives for that call only.
pub type BorrowedKeyValue<'a> = (&'static str, &'a dyn Serialize);

/// What is fixed for a call site: severity and place in the source.
pub struct RecordStatic<'a> {
    /// Severity of the records of this call site.
    pub level: Level,
    /// Source file.
    pub file: &'a str,
    /// Line in the file.
    pub line: u32,
    /// Column in the line.
    pub column: u32,
    /// Function around the call.
    pub function: &'a str,
    /// Module around the call.
    pub module: &'a str,
    /// Target of the record, by default the module.
    pub target: &'a str,
}

/// One logging event. It borrows all it holds and lives for one dispatch.
pub struct Record<'a> {
    meta: &'a RecordStatic<'a>,
    msg: &'a str,
    values: &'a [BorrowedKeyValue<'a>],
}

impl<'a> Record<'a> {
    /// The call site's fixed data.
    pub closed spec fn meta(&self) -> RecordStatic<'a> {
        *self.meta
    }

    /// The message, as text.
    pub closed spec fn message(&self) -> Seq<char> {
        self.msg@
    }

    /// The pairs given at the call site, in the order given.
    pub closed spec fn pairs(&self) -> Seq<BorrowedKeyValue<'a>> {
        self.values@
    }

    /// A record of a call site, a message and the call's own pairs.
    pub fn new(s: &'a RecordStatic<'a>, msg: &'a str, values: &'a [BorrowedKeyValue<'a>]) -> (r:
        Self)
        ensures
            r.meta() == *s,
            r.message() == msg@,
            r.pairs() == values@,
    {
        Record { meta: s, msg: msg, values: values }
    }

    /// The message.
    pub fn msg(&self) -> (r: &'a str)
        ensures
            r@ == self.message(),
    {
        self.msg
    }

    /// Line in the source file.
    pub fn line(&self) -> (r: u32)
        ensures
            r == self.meta().line,
    {
        self.meta.line
    }

    /// Column in the line.
    pub fn column(&self) -> (r: u32)
        ensures
            r == self.meta().column,
    {
        self.meta.column
    }

    /// Source file.
    pub fn file(&self) -> (r: &'a str)
        ensures
            r == self.meta().file,
    {
        self.meta.file
    }

    /// Target of the record.
    pub fn target(&self) -> (r: &'a str)
        ensures
            r == self.meta().target,
    {
        self.meta.target
    }

    /// Module around the call.
    pub fn module(&self) -> (r: &'a str)
        ensures
            r == self.meta().module,
    {
        self.meta.module
    }

    /// Function around the call.
    pub fn function(&self) -> (r: &'a str)
        ensures
            r == self.meta().function,
    {
        self.meta.function
    }

    /// Severity.
    pub fn level(&self) -> (r: Level)
        ensures
            r == self.meta().level,
    {
        self.meta.level
    }

    /// The pairs given at the call site.
    pub fn values(&self) -> (r: &'a [BorrowedKeyValue<'a>])
        ensures
            r@ == self.pairs(),
    {
        self.values
    }
}

} // verus!
