//! Structured, hierarchical logging: severities, inherited key/value context,
//! records, loggers and composable drains.

pub mod ceiling;
pub mod drain;
pub mod level;
pub mod list;
pub mod logger;
pub mod record;
pub mod ser;

pub use ceiling::BuildOptions;
pub use ceiling::CeilingOptions;
pub use drain::Discard;
pub use drain::Drain;
pub use drain::Duplicate;
pub use drain::DuplicateError;
pub use drain::Filter;
pub use drain::IgnoreErr;
pub use drain::LevelFilter;
pub use drain::MapError;
pub use drain::Never;
pub use level::FilterLevel;
pub use level::InvalidLevelName;
pub use level::Level;
pub use list::OwnedKeyValue;
pub use list::OwnedKeyValueList;
pub use list::OwnedKeyValueListIterator;
pub use logger::Logger;
pub use record::BorrowedKeyValue;
pub use record::Record;
pub use record::RecordStatic;
pub use ser::Serialize;
pub use ser::Serializer;
pub use ser::SyncSerialize;

use vstd::prelude::*;

verus! {

/// The ceiling that a build's options fix: a logging call of a level that
/// does not pass it is left out altogether.
pub fn __slog_static_max_level(options: &BuildOptions) -> (r: FilterLevel)
    ensures
        r == options.ceiling(),
{
    if options.optimized {
        if options.release_max_level.off {
            return FilterLevel::Off;
        } else if options.release_max_level.error {
            return FilterLevel::Error;
        } else if options.release_max_level.warn {
            return FilterLevel::Warning;
        } else if options.release_max_level.info {
            return FilterLevel::Info;
        } else if options.release_max_level.debug {
            return FilterLevel::Debug;
        } else if options.release_max_level.trace {
            return FilterLevel::Trace;
        }
    }
    if options.max_level.off {
        FilterLevel::Off
    } else if options.max_level.error {
        FilterLevel::Error
    } else if options.max_level.warn {
        FilterLevel::Warning
    } else if options.max_level.info {
        FilterLevel::Info
    } else if options.max_level.debug {
        FilterLevel::Debug
    } else if options.max_level.trace {
        FilterLevel::Trace
    } else {
        if options.optimized {
            FilterLevel::Info
        } else {
            FilterLevel::Trace
        }
    }
}

/// The guard of a logging call: evaluates `make` and returns what it made
/// where `level` passes `ceiling`; where it does not, returns `None` and
/// leaves `make` alone.
pub fn if_enabled<R, F: FnOnce() -> R>(ceiling: FilterLevel, level: Level, make: F) -> (r: Option<
    R,
>)
    requires
        make.requires(()),
    ensures
        match r {
            Some(v) => ceiling.accepts_spec(level) && make.ensures((), v),
            None => !ceiling.accepts_spec(level),
        },
{
    if ceiling.accepts(level) {
        Some(make())
    } else {
        None
    }
}

/// Under a ceiling, a call passes exactly when its level is no less severe
/// than the ceiling's; under `Off` none passes, and a call that passes one
/// ceiling passes every milder one.
pub proof fn lemma_ceiling_keeps_severe_calls(ceiling: FilterLevel, milder: FilterLevel, level: Level)
    requires
        ceiling.rank() <= milder.rank(),
    ensures
        ceiling.accepts_spec(level) <==> level.rank() <= ceiling.rank(),
        ceiling == FilterLevel::Off ==> !ceiling.accepts_spec(level),
        ceiling.accepts_spec(level) ==> milder.accepts_spec(level),
{
}

} // verus!
