//! Loggers: a drain together with the context that every record gets.

use crate::drain::Drain;
use crate::drain::Never;
use crate::list::OwnedKeyValue;
use crate::list::OwnedKeyValueList;
use crate::record::Record;
use std::sync::Arc;
use vstd::prelude::*;

verus! {

/// `Arc::clone`: a second handle to the value that `handle` points to. The
/// value is not copied.
#[verifier::external_body]
fn share<T>(handle: &Arc<T>) -> (r: Arc<T>)
    ensures
        r == *handle,
{
    Arc::clone(handle)
}

/// A drain that cannot fail, shared by a logger and all its descendants,
/// and the chain of context that this logger adds to every record.
pub struct Logger<D: Drain<Error = Never>> {
    drain: Arc<D>,
    values: Arc<OwnedKeyValueList>,
}

impl<D: Drain<Error = Never>> Logger<D> {
    /// The drain that the records go to.
    pub closed spec fn drain(&self) -> D {
        *self.drain
    }

    /// The context of this logger: its own group and its ancestors'.
    pub closed spec fn context(&self) -> OwnedKeyValueList {
        *self.values
    }

    /// The top logger: it owns `drain` and starts a chain with `values`.
    pub fn root(drain: D, values: Vec<OwnedKeyValue>) -> (r: Self)
        ensures
            r.drain() == drain,
            r.context().parent_node().is_none(),
            r.context().own_values() == values@,
            r.context().entries() == values@,
    {
        Logger { drain: Arc::new(drain), values: Arc::new(OwnedKeyValueList::root(values)) }
    }

    /// A child logger: the same drain, and a chain of one more node, which
    /// holds `values` and shares this logger's chain as its parent. This
    /// logger is left as it was.
    pub fn new(&self, values: Vec<OwnedKeyValue>) -> (r: Self)
        ensures
            r.drain() == self.drain(),
            r.context().parent_node() == Some(self.context()),
            r.context().own_values() == values@,
            r.context().entries() == values@ + self.context().entries(),
            r.context().depth() == self.context().depth() + 1,
    {
        Logger {
            drain: share(&self.drain),
            values: Arc::new(OwnedKeyValueList::new(values, share(&self.values))),
        }
    }

    /// The context of this logger.
    pub fn values(&self) -> (r: &OwnedKeyValueList)
        ensures
            *r == self.context(),
    {
        &*self.values
    }

    /// Hands the record, with this logger's context, to the drain, and
    /// returns what the drain returned. The logger itself filters nothing.
    pub fn log(&self, record: &Record) -> (r: Result<(), Never>)
        ensures
            D::log.ensures((&self.drain(), record, &self.context()), r),
    {
        self.drain.log(record, &*self.values)
    }
}

} // verus!
