//! The options by which a build fixes the least severe level that its
//! logging calls keep.

use crate::level::FilterLevel;
use vstd::prelude::*;

verus! {

/// One set of ceiling options: each may be switched on by itself.
#[derive(Clone, Copy, Debug, PartialEq, Eq, Structural)]
pub struct CeilingOptions {
    /// Keep nothing.
    pub off: bool,
    /// Keep errors and what is more severe.
    pub error: bool,
    /// Keep warnings and what is more severe.
    pub warn: bool,
    /// Keep informational records and what is more severe.
    pub info: bool,
    /// Keep debugging records and what is more severe.
    pub debug: bool,
    /// Keep everything.
    pub trace: bool,
}

/// What a build has chosen: whether it is optimized, the options for every
/// build and those that override them in an optimized build.
#[derive(Clone, Copy, Debug, PartialEq, Eq, Structural)]
pub struct BuildOptions {
    /// The build is optimized.
    pub optimized: bool,
    /// Options for every build.
    pub max_level: CeilingOptions,
    /// Options that take precedence in an optimized build.
    pub release_max_level: CeilingOptions,
}

impl CeilingOptions {
    /// The ceiling that the set selects: the strictest of the options that
    /// are on, or none where none is on.
    pub open spec fn selected(self) -> Option<FilterLevel> {
        if self.off {
            Some(FilterLevel::Off)
        } else if self.error {
            Some(FilterLevel::Error)
        } else if self.warn {
            Some(FilterLevel::Warning)
        } else if self.info {
            Some(FilterLevel::Info)
        } else if self.debug {
            Some(FilterLevel::Debug)
        } else if self.trace {
            Some(FilterLevel::Trace)
        } else {
            None
        }
    }
}

impl BuildOptions {
    /// The ceiling without any option: everything in a build that is not
    /// optimized, informational records and above in one that is.
    pub open spec fn default_ceiling(optimized: bool) -> FilterLevel {
        if optimized {
            FilterLevel::Info
        } else {
            FilterLevel::Trace
        }
    }

    /// The ceiling of the build. In an optimized build the overriding set
    /// decides where it selects anything; else the general set does; else
    /// the default holds.
    pub open spec fn ceiling(self) -> FilterLevel {
        if self.optimized && self.release_max_level.selected().is_some() {
            self.release_max_level.selected().unwrap()
        } else if self.max_level.selected().is_some() {
            self.max_level.selected().unwrap()
        } else {
            Self::default_ceiling(self.optimized)
        }
    }
}

} // verus!
