//! Drains: where records go, and the stages that drains are composed of.

use crate::level::FilterLevel;
use crate::list::OwnedKeyValueList;
use crate::record::Record;
use vstd::prelude::*;

verus! {

/// The error of a drain that cannot fail: it has no value.
pub type Never = std::convert::Infallible;

/// A sink for records. Each drain says in the contract of its own `log`
/// what it returns.
pub trait Drain {
    /// What the drain fails with.
    type Error;

    /// Takes one record together with the context of the logger that
    /// dispatched it.
    fn log(&self, record: &Record, values: &OwnedKeyValueList) -> (r: Result<(), Self::Error>);
}

/// The drain that takes every record and does nothing with it.
pub struct Discard;

impl Drain for Discard {
    type Error = Never;

    fn log(&self, record: &Record, values: &OwnedKeyValueList) -> (r: Result<(), Never>)
        ensures
            r.is_ok(),
    {
        Ok(())
    }
}

/// A drain that hands on only the records that pass a severity threshold.
pub struct LevelFilter<D: Drain> {
    /// Least severe level that is handed on.
    pub level: FilterLevel,
    /// Where the records that pass go.
    pub drain: D,
}

impl<D: Drain> LevelFilter<D> {
    /// A filter with the given threshold in front of `drain`.
    pub fn new(drain: D, level: FilterLevel) -> (r: Self)
        ensures
            r.drain == drain,
            r.level == level,
    {
        LevelFilter { level: level, drain: drain }
    }
}

impl<D: Drain> Drain for LevelFilter<D> {
    type Error = D::Error;

    /// Hands the record to the inner drain where its level passes the
    /// threshold, and returns what that returned; succeeds without a call
    /// otherwise.
    fn log(&self, record: &Record, values: &OwnedKeyValueList) -> (r: Result<(), D::Error>)
        ensures
            self.level.accepts_spec(record.meta().level) ==> D::log.ensures(
                (&self.drain, record, values),
                r,
            ),
            !self.level.accepts_spec(record.meta().level) ==> r.is_ok(),
    {
        if self.level.accepts(record.level()) {
            self.drain.log(record, values)
        } else {
            Ok(())
        }
    }
}

/// A drain that turns every failure of its inner drain into success.
pub struct IgnoreErr<D: Drain> {
    /// The drain whose failures are dropped.
    pub drain: D,
}

impl<D: Drain> IgnoreErr<D> {
    /// Wraps `drain`.
    pub fn new(drain: D) -> (r: Self)
        ensures
            r.drain == drain,
    {
        IgnoreErr { drain: drain }
    }
}

/// What is left of a result once its failure is dropped.
pub fn ignore_err<E>(result: Result<(), E>) -> (r: Result<(), Never>)
    ensures
        r.is_ok(),
{
    Ok(())
}

impl<D: Drain> Drain for IgnoreErr<D> {
    type Error = Never;

    /// Calls the inner drain once, with the record and the context as they
    /// were given, and succeeds whatever that returned.
    fn log(&self, record: &Record, values: &OwnedKeyValueList) -> (r: Result<(), Never>)
        ensures
            r.is_ok(),
            exists|inner: Result<(), D::Error>| #[trigger]
                D::log.ensures((&self.drain, record, values), inner),
    {
        let inner = self.drain.log(record, values);
        ignore_err(inner)
    }
}

/// Failure of a pair of drains: which of the two failed first, and with what.
pub enum DuplicateError<E1, E2> {
    /// The first drain failed.
    First(E1),
    /// The first drain succeeded and the second failed.
    Second(E2),
}

/// A drain that hands every record to two drains, the first one first.
pub struct Duplicate<D1: Drain, D2: Drain> {
    /// The drain that is called first.
    pub first: D1,
    /// The drain that is called second, whatever the first returned.
    pub second: D2,
}

/// Result of a pair of drains from the results of the two: success where
/// both succeeded, else the first failure.
pub open spec fn first_failure_spec<E1, E2>(first: Result<(), E1>, second: Result<(), E2>) -> Result<
    (),
    DuplicateError<E1, E2>,
> {
    match first {
        Err(e) => Err(DuplicateError::First(e)),
        Ok(_) => match second {
            Err(e) => Err(DuplicateError::Second(e)),
            Ok(_) => Ok(()),
        },
    }
}

/// Combines the results of two drains that were both called.
pub fn first_failure<E1, E2>(first: Result<(), E1>, second: Result<(), E2>) -> (r: Result<
    (),
    DuplicateError<E1, E2>,
>)
    ensures
        r == first_failure_spec(first, second),
        r.is_ok() <==> first.is_ok() && second.is_ok(),
{
    match first {
        Err(e) => Err(DuplicateError::First(e)),
        Ok(_) => match second {
            Err(e) => Err(DuplicateError::Second(e)),
            Ok(_) => Ok(()),
        },
    }
}

impl<D1: Drain, D2: Drain> Duplicate<D1, D2> {
    /// A drain that hands its records to `first` and then to `second`.
    pub fn new(first: D1, second: D2) -> (r: Self)
        ensures
            r.first == first,
            r.second == second,
    {
        Duplicate { first: first, second: second }
    }
}

impl<D1: Drain, D2: Drain> Drain for Duplicate<D1, D2> {
    type Error = DuplicateError<D1::Error, D2::Error>;

    /// Calls both drains, the first one first and the second one whatever
    /// the first returned, and combines what they returned.
    fn log(&self, record: &Record, values: &OwnedKeyValueList) -> (r: Result<
        (),
        DuplicateError<D1::Error, D2::Error>,
    >)
        ensures
            exists|a: Result<(), D1::Error>, b: Result<(), D2::Error>|
                D1::log.ensures((&self.first, record, values), a) && D2::log.ensures(
                    (&self.second, record, values),
                    b,
                ) && r == #[trigger] first_failure_spec(a, b),
    {
        let a = self.first.log(record, values);
        let b = self.second.log(record, values);
        first_failure(a, b)
    }
}

/// A drain that hands on only the records that a predicate lets through.
pub struct Filter<D: Drain, F: Fn(&Record, &OwnedKeyValueList) -> bool> {
    drain: D,
    cond: F,
}

impl<D: Drain, F: Fn(&Record, &OwnedKeyValueList) -> bool> Filter<D, F> {
    #[verifier::type_invariant]
    spec fn wf(&self) -> bool {
        forall|record: &Record, values: &OwnedKeyValueList| #[trigger]
            self.cond.requires((record, values))
    }

    /// The inner drain.
    pub closed spec fn inner(&self) -> D {
        self.drain
    }

    /// The predicate.
    pub closed spec fn predicate(&self) -> F {
        self.cond
    }

    /// A filter in front of `drain` that hands on the records for which
    /// `cond` returns `true`. The predicate must be callable on every record.
    pub fn new(drain: D, cond: F) -> (r: Self)
        requires
            forall|record: &Record, values: &OwnedKeyValueList| #[trigger]
                cond.requires((record, values)),
        ensures
            r.inner() == drain,
            r.predicate() == cond,
    {
        Filter { drain: drain, cond: cond }
    }
}

impl<D: Drain, F: Fn(&Record, &OwnedKeyValueList) -> bool> Drain for Filter<D, F> {
    type Error = D::Error;

    /// Asks the predicate once. Where it says yes, hands the record to the
    /// inner drain and returns what that returned; where it says no,
    /// succeeds without a call.
    fn log(&self, record: &Record, values: &OwnedKeyValueList) -> (r: Result<(), D::Error>)
        ensures
            (self.predicate().ensures((record, values), true) && D::log.ensures(
                (&self.inner(), record, values),
                r,
            )) || (self.predicate().ensures((record, values), false) && r.is_ok()),
    {
        proof {
            use_type_invariant(self);
        }
        let pass: bool = (self.cond)(record, values);
        if pass {
            self.drain.log(record, values)
        } else {
            Ok(())
        }
    }
}

/// A drain that passes the failures of its inner drain through a function.
#[verifier::reject_recursive_types(E)]
pub struct MapError<D: Drain, E, F: Fn(D::Error) -> E> {
    drain: D,
    map_fn: F,
    marker: std::marker::PhantomData<E>,
}

impl<D: Drain, E, F: Fn(D::Error) -> E> MapError<D, E, F> {
    #[verifier::type_invariant]
    spec fn wf(&self) -> bool {
        forall|e: D::Error| #[trigger] self.map_fn.requires((e,))
    }

    /// The inner drain.
    pub closed spec fn inner(&self) -> D {
        self.drain
    }

    /// The function that failures pass through.
    pub closed spec fn mapping(&self) -> F {
        self.map_fn
    }

    /// A drain that calls `drain` and hands each of its failures to
    /// `map_fn`, which must be callable on every failure.
    pub fn new(drain: D, map_fn: F) -> (r: Self)
        requires
            forall|e: D::Error| #[trigger] map_fn.requires((e,)),
        ensures
            r.inner() == drain,
            r.mapping() == map_fn,
    {
        MapError { drain: drain, map_fn: map_fn, marker: std::marker::PhantomData }
    }
}

impl<D: Drain, E, F: Fn(D::Error) -> E> Drain for MapError<D, E, F> {
    type Error = E;

    /// Calls the inner drain once. Its success is returned as it is; its
    /// failure is returned as the function made it.
    fn log(&self, record: &Record, values: &OwnedKeyValueList) -> (r: Result<(), E>)
        ensures
            exists|inner: Result<(), D::Error>|
                (#[trigger] D::log.ensures((&self.inner(), record, values), inner)) && (match inner {
                    Ok(_) => r.is_ok(),
                    Err(e) => r.is_err() && self.mapping().ensures((e,), r->Err_0),
                }),
    {
        proof {
            use_type_invariant(self);
        }
        match self.drain.log(record, values) {
            Ok(_) => Ok(()),
            Err(e) => Err((self.map_fn)(e)),
        }
    }
}

} // verus!
