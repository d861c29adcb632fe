use slog::drain::first_failure;
use slog::drain::ignore_err;
use slog::if_enabled;
use slog::BorrowedKeyValue;
use slog::BuildOptions;
use slog::CeilingOptions;
use slog::Discard;
use slog::Drain;
use slog::Duplicate;
use slog::DuplicateError;
use slog::Filter;
use slog::FilterLevel;
use slog::IgnoreErr;
use slog::Level;
use slog::LevelFilter;
use slog::Logger;
use slog::MapError;
use slog::Never;
use slog::OwnedKeyValue;
use slog::OwnedKeyValueList;
use slog::Record;
use slog::RecordStatic;
use slog::__slog_static_max_level;
use std::cell::Cell;
use std::sync::atomic::AtomicUsize;
use std::sync::atomic::Ordering;
use std::sync::Arc;

const LEVELS: [Level; 6] =
    [Level::Critical, Level::Error, Level::Warning, Level::Info, Level::Debug, Level::Trace];

fn meta(level: Level) -> RecordStatic<'static> {
    RecordStatic {
        level: level,
        file: "drains.rs",
        line: 3,
        column: 9,
        function: "f",
        module: "m",
        target: "t",
    }
}

/// Counts its calls; fails each time if told to.
struct Counting {
    calls: Arc<AtomicUsize>,
    fail: bool,
}

impl Drain for Counting {
    type Error = u32;

    fn log(&self, _record: &Record, _values: &OwnedKeyValueList) -> Result<(), u32> {
        let n = self.calls.fetch_add(1, Ordering::SeqCst);
        if self.fail {
            Err(n as u32 + 1)
        } else {
            Ok(())
        }
    }
}

/// Counts its calls and the pairs of context it was given; cannot fail.
struct Sure {
    calls: Arc<AtomicUsize>,
    context: Arc<AtomicUsize>,
}

impl Drain for Sure {
    type Error = Never;

    fn log(&self, _record: &Record, values: &OwnedKeyValueList) -> Result<(), Never> {
        self.calls.fetch_add(1, Ordering::SeqCst);
        let mut it = values.iter();
        let mut n = 0;
        while it.next().is_some() {
            n += 1;
        }
        self.context.store(n, Ordering::SeqCst);
        Ok(())
    }
}

fn counting(fail: bool) -> (Counting, Arc<AtomicUsize>) {
    let calls = Arc::new(AtomicUsize::new(0));
    (Counting { calls: calls.clone(), fail: fail }, calls)
}

fn dispatch<D: Drain>(drain: &D, level: Level) -> Result<(), D::Error> {
    let m = meta(level);
    let record = Record::new(&m, "message", &[]);
    let ctx = OwnedKeyValueList::root(Vec::new());
    drain.log(&record, &ctx)
}

#[test]
fn discard_always_succeeds() {
    for l in LEVELS.iter() {
        assert!(dispatch(&Discard, *l).is_ok());
    }
}

#[test]
fn fan_out_calls_both_and_reports_the_failure() {
    let (ok, ok_calls) = counting(false);
    let (bad, bad_calls) = counting(true);
    let d = Duplicate::new(ok, bad);
    let r = dispatch(&d, Level::Info);
    assert!(matches!(r, Err(DuplicateError::Second(1))));
    assert_eq!(ok_calls.load(Ordering::SeqCst), 1);
    assert_eq!(bad_calls.load(Ordering::SeqCst), 1);

    let (ok, ok_calls) = counting(false);
    let (bad, bad_calls) = counting(true);
    let d = Duplicate::new(bad, ok);
    let r = dispatch(&d, Level::Info);
    assert!(matches!(r, Err(DuplicateError::First(1))));
    assert_eq!(ok_calls.load(Ordering::SeqCst), 1);
    assert_eq!(bad_calls.load(Ordering::SeqCst), 1);
}

#[test]
fn fan_out_succeeds_when_both_succeed() {
    let (a, a_calls) = counting(false);
    let (b, b_calls) = counting(false);
    let d = Duplicate::new(a, b);
    assert!(dispatch(&d, Level::Error).is_ok());
    assert!(dispatch(&d, Level::Error).is_ok());
    assert_eq!(a_calls.load(Ordering::SeqCst), 2);
    assert_eq!(b_calls.load(Ordering::SeqCst), 2);
}

#[test]
fn fan_out_reports_the_first_of_two_failures() {
    let (a, a_calls) = counting(true);
    let (b, b_calls) = counting(true);
    let d = Duplicate::new(a, b);
    assert!(matches!(dispatch(&d, Level::Error), Err(DuplicateError::First(1))));
    assert_eq!(a_calls.load(Ordering::SeqCst), 1);
    assert_eq!(b_calls.load(Ordering::SeqCst), 1);
}

#[test]
fn first_failure_of_two_results() {
    let ok1: Result<(), u8> = Ok(());
    let ok2: Result<(), i8> = Ok(());
    assert!(matches!(first_failure(ok1, ok2), Ok(())));
    assert!(matches!(first_failure(Err::<(), u8>(4), ok2), Err(DuplicateError::First(4))));
    assert!(matches!(first_failure(ok1, Err::<(), i8>(-4)), Err(DuplicateError::Second(-4))));
    assert!(matches!(
        first_failure(Err::<(), u8>(4), Err::<(), i8>(-4)),
        Err(DuplicateError::First(4))
    ));
}

#[test]
fn level_filter_suppresses_what_is_above_the_threshold() {
    let (inner, calls) = counting(false);
    let f = LevelFilter::new(inner, FilterLevel::Warning);
    assert!(dispatch(&f, Level::Info).is_ok());
    assert!(dispatch(&f, Level::Debug).is_ok());
    assert!(dispatch(&f, Level::Trace).is_ok());
    assert_eq!(calls.load(Ordering::SeqCst), 0);
    assert!(dispatch(&f, Level::Warning).is_ok());
    assert_eq!(calls.load(Ordering::SeqCst), 1);
    assert!(dispatch(&f, Level::Error).is_ok());
    assert_eq!(calls.load(Ordering::SeqCst), 2);
    assert!(dispatch(&f, Level::Critical).is_ok());
    assert_eq!(calls.load(Ordering::SeqCst), 3);
}

#[test]
fn level_filter_off_suppresses_everything() {
    let (inner, calls) = counting(true);
    let f = LevelFilter::new(inner, FilterLevel::Off);
    for l in LEVELS.iter() {
        assert!(dispatch(&f, *l).is_ok());
    }
    assert_eq!(calls.load(Ordering::SeqCst), 0);
}

#[test]
fn level_filter_hands_the_failure_on() {
    let (inner, calls) = counting(true);
    let f = LevelFilter::new(inner, FilterLevel::Trace);
    assert_eq!(dispatch(&f, Level::Trace), Err(1));
    assert_eq!(dispatch(&f, Level::Critical), Err(2));
    assert_eq!(calls.load(Ordering::SeqCst), 2);
}

#[test]
fn predicate_filter_forwards_only_on_yes() {
    let (inner, calls) = counting(true);
    let f = Filter::new(inner, |r: &Record, _: &OwnedKeyValueList| r.line() == 3 && r.level() == Level::Error);
    assert!(dispatch(&f, Level::Info).is_ok());
    assert_eq!(calls.load(Ordering::SeqCst), 0);
    assert_eq!(dispatch(&f, Level::Error), Err(1));
    assert_eq!(calls.load(Ordering::SeqCst), 1);
}

#[test]
fn map_error_changes_only_failures() {
    let (bad, _) = counting(true);
    let m = MapError::new(bad, |e: u32| format!("failed {}", e));
    assert_eq!(dispatch(&m, Level::Info), Err("failed 1".to_string()));
    assert_eq!(dispatch(&m, Level::Info), Err("failed 2".to_string()));
    let (ok, calls) = counting(false);
    let m = MapError::new(ok, |e: u32| format!("failed {}", e));
    assert_eq!(dispatch(&m, Level::Info), Ok(()));
    assert_eq!(calls.load(Ordering::SeqCst), 1);
}

#[test]
fn ignore_err_turns_failure_into_success() {
    let (bad, calls) = counting(true);
    let d = IgnoreErr::new(bad);
    assert!(dispatch(&d, Level::Info).is_ok());
    assert!(dispatch(&d, Level::Trace).is_ok());
    assert_eq!(calls.load(Ordering::SeqCst), 2);
    assert!(ignore_err(Err::<(), u8>(1)).is_ok());
    assert!(ignore_err(Ok::<(), u8>(())).is_ok());
}

#[test]
fn logger_forwards_record_and_context() {
    let calls = Arc::new(AtomicUsize::new(0));
    let context = Arc::new(AtomicUsize::new(99));
    let root = Logger::root(Sure { calls: calls.clone(), context: context.clone() }, Vec::new());
    let first: Vec<OwnedKeyValue> = vec![("a", Box::new(1u64)), ("b", Box::new(true))];
    let child = root.new(first);
    let second: Vec<OwnedKeyValue> = vec![("a", Box::new("again"))];
    let grandchild = child.new(second);
    let m = meta(Level::Trace);
    let record = Record::new(&m, "message", &[]);
    assert!(root.log(&record).is_ok());
    assert_eq!(calls.load(Ordering::SeqCst), 1);
    assert_eq!(context.load(Ordering::SeqCst), 0);
    assert!(grandchild.log(&record).is_ok());
    assert_eq!(calls.load(Ordering::SeqCst), 2);
    assert_eq!(context.load(Ordering::SeqCst), 3);
    assert!(child.log(&record).is_ok());
    assert_eq!(calls.load(Ordering::SeqCst), 3);
    assert_eq!(context.load(Ordering::SeqCst), 2);
}

#[test]
fn logger_over_ignored_failures_never_fails() {
    let (bad, calls) = counting(true);
    let root = Logger::root(IgnoreErr::new(LevelFilter::new(bad, FilterLevel::Info)), Vec::new());
    for l in LEVELS.iter() {
        let m = meta(*l);
        assert!(root.log(&Record::new(&m, "x", &[])).is_ok());
    }
    assert_eq!(calls.load(Ordering::SeqCst), 4);
}

#[test]
fn record_gives_back_what_it_was_made_of() {
    let m = meta(Level::Warning);
    let yes = true;
    let n = 5i64;
    let kv: [BorrowedKeyValue; 2] = [("yes", &yes), ("n", &n)];
    let r = Record::new(&m, "hello", &kv);
    assert_eq!(r.level(), Level::Warning);
    assert_eq!(r.msg(), "hello");
    assert_eq!(r.file(), "drains.rs");
    assert_eq!(r.line(), 3);
    assert_eq!(r.column(), 9);
    assert_eq!(r.function(), "f");
    assert_eq!(r.module(), "m");
    assert_eq!(r.target(), "t");
    assert_eq!(r.values().len(), 2);
    assert_eq!(r.values()[0].0, "yes");
    assert_eq!(r.values()[1].0, "n");
}

fn options(optimized: bool, general: Option<usize>, release: Option<usize>) -> BuildOptions {
    let pick = |which: Option<usize>| CeilingOptions {
        off: which == Some(0),
        error: which == Some(1),
        warn: which == Some(2),
        info: which == Some(3),
        debug: which == Some(4),
        trace: which == Some(5),
    };
    BuildOptions { optimized: optimized, max_level: pick(general), release_max_level: pick(release) }
}

const CEILINGS: [FilterLevel; 6] = [
    FilterLevel::Off,
    FilterLevel::Error,
    FilterLevel::Warning,
    FilterLevel::Info,
    FilterLevel::Debug,
    FilterLevel::Trace,
];

#[test]
fn default_ceiling_depends_on_the_build() {
    assert_eq!(__slog_static_max_level(&options(false, None, None)), FilterLevel::Trace);
    assert_eq!(__slog_static_max_level(&options(true, None, None)), FilterLevel::Info);
}

#[test]
fn general_option_fixes_the_ceiling() {
    for (i, c) in CEILINGS.iter().enumerate() {
        assert_eq!(__slog_static_max_level(&options(false, Some(i), None)), *c);
        assert_eq!(__slog_static_max_level(&options(true, Some(i), None)), *c);
    }
}

#[test]
fn release_option_overrides_in_optimized_builds_only() {
    for (i, c) in CEILINGS.iter().enumerate() {
        assert_eq!(__slog_static_max_level(&options(true, Some(4), Some(i))), *c);
        assert_eq!(__slog_static_max_level(&options(true, None, Some(i))), *c);
        assert_eq!(__slog_static_max_level(&options(false, Some(4), Some(i))), FilterLevel::Debug);
        assert_eq!(__slog_static_max_level(&options(false, None, Some(i))), FilterLevel::Trace);
    }
}

#[test]
fn strictest_option_wins_when_several_are_on() {
    let mut o = options(false, None, None);
    o.max_level.trace = true;
    o.max_level.warn = true;
    assert_eq!(__slog_static_max_level(&o), FilterLevel::Warning);
    o.max_level.off = true;
    assert_eq!(__slog_static_max_level(&o), FilterLevel::Off);
    o.optimized = true;
    o.release_max_level.debug = true;
    o.release_max_level.error = true;
    assert_eq!(__slog_static_max_level(&o), FilterLevel::Error);
}

#[test]
fn call_below_the_ceiling_evaluates_nothing() {
    let ceiling = __slog_static_max_level(&options(false, Some(1), None));
    assert_eq!(ceiling, FilterLevel::Error);
    let evaluated = Cell::new(0);
    let r = if_enabled(ceiling, Level::Debug, || {
        evaluated.set(evaluated.get() + 1);
        7
    });
    assert_eq!(r, None);
    assert_eq!(evaluated.get(), 0);
    let r = if_enabled(ceiling, Level::Error, || {
        evaluated.set(evaluated.get() + 1);
        7
    });
    assert_eq!(r, Some(7));
    assert_eq!(evaluated.get(), 1);
    let r = if_enabled(ceiling, Level::Critical, || 8);
    assert_eq!(r, Some(8));
    let r = if_enabled(FilterLevel::Off, Level::Critical, || 8);
    assert_eq!(r, None);
}
