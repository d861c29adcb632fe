//! Severities, filter thresholds, their ordinals, names and parsing.

use vstd::prelude::*;

verus! {

/// Severity of a record, most severe first.
#[derive(Clone, Copy, Debug, PartialEq, Eq, Structural, PartialOrd, Ord, Hash)]
pub enum Level {
    Critical,
    Error,
    Warning,
    Info,
    Debug,
    Trace,
}

/// Threshold for filtering: a severity, or `Off`, which lets nothing through.
#[derive(Clone, Copy, Debug, PartialEq, Eq, Structural, PartialOrd, Ord, Hash)]
pub enum FilterLevel {
    Off,
    Critical,
    Error,
    Warning,
    Info,
    Debug,
    Trace,
}

/// The text given to a parser names no level.
#[derive(Clone, Copy, Debug, PartialEq, Eq, Structural)]
pub struct InvalidLevelName;

/// The code of a character with ASCII capitals folded onto their small letters.
pub open spec fn fold_case(c: char) -> int {
    if 'A' <= c && c <= 'Z' {
        c as int + 32
    } else {
        c as int
    }
}

/// Two texts are the same up to the case of their ASCII letters.
pub open spec fn eq_ignore_case(s: Seq<char>, t: Seq<char>) -> bool {
    s.len() == t.len() && forall|i: int| 0 <= i < s.len() ==> fold_case(#[trigger] s[i]) == fold_case(t[i])
}

/// A text names a level: it is the level's full name or the first letter of
/// it, in any case.
pub open spec fn names_level(s: Seq<char>, full: Seq<char>) -> bool {
    eq_ignore_case(s, full) || (s.len() == 1 && full.len() >= 1 && fold_case(s[0]) == fold_case(
        full[0],
    ))
}

fn fold_code(c: char) -> (r: u32)
    ensures
        r == fold_case(c),
{
    if 'A' <= c && c <= 'Z' {
        c as u32 + 32
    } else {
        c as u32
    }
}

/// Decides whether `s` names the level whose full name is `full`.
pub fn text_names_level(s: &str, full: &str) -> (r: bool)
    ensures
        r == names_level(s@, full@),
{
    let n: usize = s.unicode_len();
    let m: usize = full.unicode_len();
    if n == 1 && m >= 1 && fold_code(s.get_char(0)) == fold_code(full.get_char(0)) {
        return true;
    }
    if n != m {
        return false;
    }
    let mut i: usize = 0;
    while i < n
        invariant
            n == s@.len(),
            m == full@.len(),
            n == m,
            i <= n,
            forall|j: int| 0 <= j < i ==> fold_case(#[trigger] s@[j]) == fold_case(full@[j]),
        decreases n - i,
    {
        if fold_code(s.get_char(i)) != fold_code(full.get_char(i)) {
            return false;
        }
        i += 1;
    }
    true
}

impl Level {
    /// Rank of the severity: 1 for the most severe, 6 for the least.
    pub open spec fn rank(self) -> nat {
        match self {
            Level::Critical => 1,
            Level::Error => 2,
            Level::Warning => 3,
            Level::Info => 4,
            Level::Debug => 5,
            Level::Trace => 6,
        }
    }

    /// The severity next below this one, if there is one.
    pub open spec fn next_milder(self) -> Option<Level> {
        match self {
            Level::Critical => Some(Level::Error),
            Level::Error => Some(Level::Warning),
            Level::Warning => Some(Level::Info),
            Level::Info => Some(Level::Debug),
            Level::Debug => Some(Level::Trace),
            Level::Trace => None,
        }
    }

    /// `self` is strictly more severe than `other`: `other` is reached from
    /// `self` by stepping down the scale at least once.
    pub open spec fn more_severe_than(self, other: Level) -> bool {
        exists|steps: nat| steps >= 1 && #[trigger] self.milder_by(steps) == Some(other)
    }

    /// The severity `steps` steps below this one.
    pub open spec fn milder_by(self, steps: nat) -> Option<Level>
        decreases steps,
    {
        if steps == 0 {
            Some(self)
        } else {
            match self.next_milder() {
                Some(l) => l.milder_by((steps - 1) as nat),
                None => None,
            }
        }
    }

    /// The level's name, in capitals.
    pub open spec fn name(self) -> Seq<char> {
        match self {
            Level::Critical => "CRITICAL"@,
            Level::Error => "ERROR"@,
            Level::Warning => "WARNING"@,
            Level::Info => "INFO"@,
            Level::Debug => "DEBUG"@,
            Level::Trace => "TRACE"@,
        }
    }

    /// What a text parses to: the first level, from the most severe down,
    /// that the text names.
    pub open spec fn parse_spec(s: Seq<char>) -> Option<Level> {
        if names_level(s, Level::Critical.name()) {
            Some(Level::Critical)
        } else if names_level(s, Level::Error.name()) {
            Some(Level::Error)
        } else if names_level(s, Level::Warning.name()) {
            Some(Level::Warning)
        } else if names_level(s, Level::Info.name()) {
            Some(Level::Info)
        } else if names_level(s, Level::Debug.name()) {
            Some(Level::Debug)
        } else if names_level(s, Level::Trace.name()) {
            Some(Level::Trace)
        } else {
            None
        }
    }

    /// The level's ordinal: lower is more severe.
    pub fn as_ordinal(&self) -> (r: usize)
        ensures
            r == self.rank(),
    {
        match self {
            Level::Critical => 1,
            Level::Error => 2,
            Level::Warning => 3,
            Level::Info => 4,
            Level::Debug => 5,
            Level::Trace => 6,
        }
    }

    /// The level's name, in capitals.
    pub fn as_str(&self) -> (r: &'static str)
        ensures
            r@ == self.name(),
    {
        match self {
            Level::Critical => "CRITICAL",
            Level::Error => "ERROR",
            Level::Warning => "WARNING",
            Level::Info => "INFO",
            Level::Debug => "DEBUG",
            Level::Trace => "TRACE",
        }
    }

    /// Reads a level from its name or its first letter, in any case.
    pub fn parse(s: &str) -> (r: Result<Level, InvalidLevelName>)
        ensures
            r == match Level::parse_spec(s@) {
                Some(l) => Ok::<Level, InvalidLevelName>(l),
                None => Err(InvalidLevelName),
            },
    {
        if text_names_level(s, Level::Critical.as_str()) {
            Ok(Level::Critical)
        } else if text_names_level(s, Level::Error.as_str()) {
            Ok(Level::Error)
        } else if text_names_level(s, Level::Warning.as_str()) {
            Ok(Level::Warning)
        } else if text_names_level(s, Level::Info.as_str()) {
            Ok(Level::Info)
        } else if text_names_level(s, Level::Debug.as_str()) {
            Ok(Level::Debug)
        } else if text_names_level(s, Level::Trace.as_str()) {
            Ok(Level::Trace)
        } else {
            Err(InvalidLevelName)
        }
    }
}

impl FilterLevel {
    /// Rank of the threshold: 0 for `Off`, else the rank of the least severe
    /// level that it lets through.
    pub open spec fn rank(self) -> nat {
        match self {
            FilterLevel::Off => 0,
            FilterLevel::Critical => 1,
            FilterLevel::Error => 2,
            FilterLevel::Warning => 3,
            FilterLevel::Info => 4,
            FilterLevel::Debug => 5,
            FilterLevel::Trace => 6,
        }
    }

    /// A record of the given level passes this threshold.
    pub open spec fn accepts_spec(self, level: Level) -> bool {
        level.rank() <= self.rank()
    }

    /// The threshold's name, in capitals.
    pub open spec fn name(self) -> Seq<char> {
        match self {
            FilterLevel::Off => "OFF"@,
            FilterLevel::Critical => Level::Critical.name(),
            FilterLevel::Error => Level::Error.name(),
            FilterLevel::Warning => Level::Warning.name(),
            FilterLevel::Info => Level::Info.name(),
            FilterLevel::Debug => Level::Debug.name(),
            FilterLevel::Trace => Level::Trace.name(),
        }
    }

    /// The threshold that lets through the given level and all more severe.
    pub open spec fn of(level: Level) -> FilterLevel {
        match level {
            Level::Critical => FilterLevel::Critical,
            Level::Error => FilterLevel::Error,
            Level::Warning => FilterLevel::Warning,
            Level::Info => FilterLevel::Info,
            Level::Debug => FilterLevel::Debug,
            Level::Trace => FilterLevel::Trace,
        }
    }

    /// What a text parses to: `Off` where it names that, else the threshold
    /// of the level that it parses to.
    pub open spec fn parse_spec(s: Seq<char>) -> Option<FilterLevel> {
        if names_level(s, FilterLevel::Off.name()) {
            Some(FilterLevel::Off)
        } else {
            match Level::parse_spec(s) {
                Some(l) => Some(FilterLevel::of(l)),
                None => None,
            }
        }
    }

    /// The threshold's ordinal: 0 for `Off`, else that of its level.
    pub fn as_ordinal(&self) -> (r: usize)
        ensures
            r == self.rank(),
    {
        match self {
            FilterLevel::Off => 0,
            FilterLevel::Critical => 1,
            FilterLevel::Error => 2,
            FilterLevel::Warning => 3,
            FilterLevel::Info => 4,
            FilterLevel::Debug => 5,
            FilterLevel::Trace => 6,
        }
    }

    /// The threshold that lets through `level` and every more severe level.
    pub fn from_level(level: Level) -> (r: FilterLevel)
        ensures
            r == FilterLevel::of(level),
            r.rank() == level.rank(),
    {
        match level {
            Level::Critical => FilterLevel::Critical,
            Level::Error => FilterLevel::Error,
            Level::Warning => FilterLevel::Warning,
            Level::Info => FilterLevel::Info,
            Level::Debug => FilterLevel::Debug,
            Level::Trace => FilterLevel::Trace,
        }
    }

    /// Decides whether a record of the given level passes this threshold:
    /// it does when its ordinal is at most the threshold's.
    pub fn accepts(&self, level: Level) -> (r: bool)
        ensures
            r == self.accepts_spec(level),
            r == (level.rank() <= self.rank()),
    {
        level.as_ordinal() <= self.as_ordinal()
    }

    /// The threshold's name, in capitals.
    pub fn as_str(&self) -> (r: &'static str)
        ensures
            r@ == self.name(),
    {
        match self {
            FilterLevel::Off => "OFF",
            FilterLevel::Critical => Level::Critical.as_str(),
            FilterLevel::Error => Level::Error.as_str(),
            FilterLevel::Warning => Level::Warning.as_str(),
            FilterLevel::Info => Level::Info.as_str(),
            FilterLevel::Debug => Level::Debug.as_str(),
            FilterLevel::Trace => Level::Trace.as_str(),
        }
    }

    /// Reads a threshold from its name or its first letter, in any case.
    pub fn parse(s: &str) -> (r: Result<FilterLevel, InvalidLevelName>)
        ensures
            r == match FilterLevel::parse_spec(s@) {
                Some(l) => Ok::<FilterLevel, InvalidLevelName>(l),
                None => Err(InvalidLevelName),
            },
    {
        if text_names_level(s, FilterLevel::Off.as_str()) {
            Ok(FilterLevel::Off)
        } else {
            match Level::parse(s) {
                Ok(l) => Ok(FilterLevel::from_level(l)),
                Err(e) => Err(e),
            }
        }
    }
}

/// Stepping down the scale adds one to the rank per step, and fails exactly
/// where the scale ends.
pub proof fn lemma_milder_by_rank(a: Level, steps: nat)
    ensures
        match a.milder_by(steps) {
            Some(l) => l.rank() == a.rank() + steps,
            None => a.rank() + steps > 6,
        },
    decreases steps,
{
    if steps > 0 {
        match a.next_milder() {
            Some(l) => lemma_milder_by_rank(l, (steps - 1) as nat),
            None => {},
        }
    }
}

/// Two levels of one rank are one level.
pub proof fn lemma_rank_injective(a: Level, b: Level)
    requires
        a.rank() == b.rank(),
    ensures
        a == b,
{
}

/// The ordinal orders the levels by severity: `a` has a smaller ordinal than
/// `b` exactly when `a` is strictly more severe than `b`.
pub proof fn lemma_ordinal_orders_severity(a: Level, b: Level)
    ensures
        a.rank() < b.rank() <==> a.more_severe_than(b),
{
    if a.rank() < b.rank() {
        let steps = (b.rank() - a.rank()) as nat;
        lemma_milder_by_rank(a, steps);
        lemma_rank_injective(a.milder_by(steps).unwrap(), b);
        assert(a.milder_by(steps) == Some(b));
    }
    if a.more_severe_than(b) {
        let steps = choose|steps: nat| steps >= 1 && #[trigger] a.milder_by(steps) == Some(b);
        lemma_milder_by_rank(a, steps);
    }
}

/// `Off` ranks below every level, so it lets no record through; every other
/// threshold lets through its own level.
pub proof fn lemma_off_excludes_every_level(level: Level)
    ensures
        FilterLevel::Off.rank() < level.rank(),
        !FilterLevel::Off.accepts_spec(level),
        FilterLevel::of(level).accepts_spec(level),
{
}

/// A threshold lets through a level exactly when it is not `Off` and the
/// level is at least as severe as the threshold's own.
pub proof fn lemma_accepts_by_severity(threshold: Level, level: Level)
    ensures
        FilterLevel::of(threshold).accepts_spec(level) <==> (level == threshold
            || level.more_severe_than(threshold)),
{
    lemma_ordinal_orders_severity(level, threshold);
    if level.rank() == threshold.rank() {
        lemma_rank_injective(level, threshold);
    }
}

/// Texts that differ only in the case of their letters name the same levels.
pub proof fn lemma_parse_ignores_case(s: Seq<char>, t: Seq<char>)
    requires
        eq_ignore_case(s, t),
    ensures
        Level::parse_spec(s) == Level::parse_spec(t),
        FilterLevel::parse_spec(s) == FilterLevel::parse_spec(t),
{
    assert forall|full: Seq<char>| names_level(s, full) == names_level(t, full) by {
        if eq_ignore_case(s, full) {
            assert forall|i: int| 0 <= i < t.len() implies fold_case(#[trigger] t[i]) == fold_case(
                full[i],
            ) by {
                assert(fold_case(s[i]) == fold_case(t[i]));
            }
        }
        if eq_ignore_case(t, full) {
            assert forall|i: int| 0 <= i < s.len() implies fold_case(#[trigger] s[i]) == fold_case(
                full[i],
            ) by {
                assert(fold_case(s[i]) == fold_case(t[i]));
            }
        }
        if s.len() == 1 {
            assert(fold_case(s[0]) == fold_case(t[0]));
        }
    }
}

/// A level's name parses back to the level.
pub proof fn lemma_level_name_round_trip(level: Level)
    ensures
        Level::parse_spec(level.name()) == Some(level),
{
    reveal_strlit("CRITICAL");
    reveal_strlit("ERROR");
    reveal_strlit("WARNING");
    reveal_strlit("INFO");
    reveal_strlit("DEBUG");
    reveal_strlit("TRACE");
    let s = level.name();
    assert(eq_ignore_case(s, s));
    match level {
        Level::Critical => {},
        Level::Error => {},
        Level::Warning => {},
        Level::Info => {},
        Level::Debug => {
            assert(fold_case(s[0]) != fold_case(Level::Error.name()[0]));
        },
        Level::Trace => {
            assert(fold_case(s[0]) != fold_case(Level::Error.name()[0]));
            assert(fold_case(s[0]) != fold_case(Level::Debug.name()[0]));
        },
    }
}

/// A threshold's name parses back to the threshold.
pub proof fn lemma_filter_level_name_round_trip(threshold: FilterLevel)
    ensures
        FilterLevel::parse_spec(threshold.name()) == Some(threshold),
{
    reveal_strlit("OFF");
    reveal_strlit("CRITICAL");
    reveal_strlit("ERROR");
    reveal_strlit("WARNING");
    reveal_strlit("INFO");
    reveal_strlit("DEBUG");
    reveal_strlit("TRACE");
    let s = threshold.name();
    assert(eq_ignore_case(s, s));
    assert(fold_case(s[0]) == fold_case(s[0]));
    match threshold {
        FilterLevel::Off => {},
        FilterLevel::Critical => lemma_level_name_round_trip(Level::Critical),
        FilterLevel::Error => lemma_level_name_round_trip(Level::Error),
        FilterLevel::Warning => lemma_level_name_round_trip(Level::Warning),
        FilterLevel::Info => lemma_level_name_round_trip(Level::Info),
        FilterLevel::Debug => lemma_level_name_round_trip(Level::Debug),
        FilterLevel::Trace => lemma_level_name_round_trip(Level::Trace),
    }
}

/// The first letter of a level's name, in either case, parses to the level.
pub proof fn lemma_level_initial_parses(level: Level, s: Seq<char>)
    requires
        s.len() == 1,
        fold_case(s[0]) == fold_case(level.name()[0]),
    ensures
        Level::parse_spec(s) == Some(level),
{
    reveal_strlit("CRITICAL");
    reveal_strlit("ERROR");
    reveal_strlit("WARNING");
    reveal_strlit("INFO");
    reveal_strlit("DEBUG");
    reveal_strlit("TRACE");
}

/// The code of a level's initial, as a small letter.
pub open spec fn initial_code(level: Level) -> int {
    fold_case(level.name()[0])
}

/// A text that names a level begins with that level's initial, in either
/// case, and the six initials differ.
pub proof fn lemma_named_level_initial(s: Seq<char>, level: Level)
    requires
        names_level(s, level.name()),
    ensures
        s.len() >= 1,
        fold_case(s[0]) == initial_code(level),
        initial_code(level) == match level {
            Level::Critical => 99int,
            Level::Error => 101int,
            Level::Warning => 119int,
            Level::Info => 105int,
            Level::Debug => 100int,
            Level::Trace => 116int,
        },
{
    reveal_strlit("CRITICAL");
    reveal_strlit("ERROR");
    reveal_strlit("WARNING");
    reveal_strlit("INFO");
    reveal_strlit("DEBUG");
    reveal_strlit("TRACE");
    let full = level.name();
    assert(full.len() >= 4);
    if eq_ignore_case(s, full) {
        assert(fold_case(s[0]) == fold_case(full[0]));
    }
}

/// A text parses to a level exactly when it names that level: no text names
/// two levels, and a text that names none parses to none.
pub proof fn lemma_parse_exact(s: Seq<char>, level: Level)
    ensures
        Level::parse_spec(s) == Some(level) <==> names_level(s, level.name()),
        Level::parse_spec(s).is_none() <==> forall|l: Level| !names_level(s, #[trigger] l.name()),
{
    if names_level(s, Level::Critical.name()) {
        lemma_named_level_initial(s, Level::Critical);
    }
    if names_level(s, Level::Error.name()) {
        lemma_named_level_initial(s, Level::Error);
    }
    if names_level(s, Level::Warning.name()) {
        lemma_named_level_initial(s, Level::Warning);
    }
    if names_level(s, Level::Info.name()) {
        lemma_named_level_initial(s, Level::Info);
    }
    if names_level(s, Level::Debug.name()) {
        lemma_named_level_initial(s, Level::Debug);
    }
    if names_level(s, Level::Trace.name()) {
        lemma_named_level_initial(s, Level::Trace);
    }
    if Level::parse_spec(s).is_none() {
        assert forall|l: Level| !names_level(s, #[trigger] l.name()) by {
            match l {
                Level::Critical => {},
                Level::Error => {},
                Level::Warning => {},
                Level::Info => {},
                Level::Debug => {},
                Level::Trace => {},
            }
        }
    } else {
        let found = Level::parse_spec(s).unwrap();
        assert(names_level(s, found.name()));
    }
}

/// A text parses to a threshold exactly when it names `Off` or parses to
/// the threshold's level; no text does both.
pub proof fn lemma_filter_parse_exact(s: Seq<char>, level: Level)
    ensures
        FilterLevel::parse_spec(s) == Some(FilterLevel::Off) <==> names_level(
            s,
            FilterLevel::Off.name(),
        ),
        FilterLevel::parse_spec(s) == Some(FilterLevel::of(level)) <==> names_level(
            s,
            level.name(),
        ),
        FilterLevel::parse_spec(s).is_none() <==> !names_level(s, FilterLevel::Off.name())
            && Level::parse_spec(s).is_none(),
{
    reveal_strlit("OFF");
    reveal_strlit("CRITICAL");
    reveal_strlit("ERROR");
    reveal_strlit("WARNING");
    reveal_strlit("INFO");
    reveal_strlit("DEBUG");
    reveal_strlit("TRACE");
    lemma_parse_exact(s, level);
    if names_level(s, level.name()) {
        lemma_named_level_initial(s, level);
    }
    if Level::parse_spec(s).is_some() {
        let found = Level::parse_spec(s).unwrap();
        lemma_parse_exact(s, found);
        lemma_named_level_initial(s, found);
    }
    if eq_ignore_case(s, FilterLevel::Off.name()) {
        assert(fold_case(s[0]) == fold_case(FilterLevel::Off.name()[0]));
    }
}

} // verus!
