use vstd::prelude::*;

verus! {

/// Severity of one emitted record, from most verbose to most severe.
#[derive(Clone, Copy, PartialEq, Eq, Structural, Debug)]
pub enum Level {
    Trace,
    Debug,
    Info,
    Warn,
    Error,
}

/// A severity threshold: each real level admits itself and everything
/// more severe, and `Off` admits nothing.
#[derive(Clone, Copy, PartialEq, Eq, Structural, Debug)]
pub enum LevelFilter {
    Trace,
    Debug,
    Info,
    Warn,
    Error,
    Off,
}

/// Rank of a level in severity order.
pub open spec fn severity(l: Level) -> int {
    match l {
        Level::Trace => 0,
        Level::Debug => 1,
        Level::Info => 2,
        Level::Warn => 3,
        Level::Error => 4,
    }
}

/// Least severity a filter admits; `Off` sits above every real level.
pub open spec fn threshold(f: LevelFilter) -> int {
    match f {
        LevelFilter::Trace => 0,
        LevelFilter::Debug => 1,
        LevelFilter::Info => 2,
        LevelFilter::Warn => 3,
        LevelFilter::Error => 4,
        LevelFilter::Off => 5,
    }
}

/// A record at level `l` passes filter `f` when it is at least as severe
/// as the filter's threshold.
pub open spec fn passes(l: Level, f: LevelFilter) -> bool {
    severity(l) >= threshold(f)
}

/// Decides whether a record at level `l` passes filter `f`.
pub fn level_passes(l: Level, f: LevelFilter) -> (r: bool)
    ensures
        r == passes(l, f),
{
    let s: u8 = match l {
        Level::Trace => 0,
        Level::Debug => 1,
        Level::Info => 2,
        Level::Warn => 3,
        Level::Error => 4,
    };
    let t: u8 = match f {
        LevelFilter::Trace => 0,
        LevelFilter::Debug => 1,
        LevelFilter::Info => 2,
        LevelFilter::Warn => 3,
        LevelFilter::Error => 4,
        LevelFilter::Off => 5,
    };
    s >= t
}

/// Display name of a level, as it appears in a formatted line.
pub open spec fn level_name(l: Level) -> Seq<char> {
    match l {
        Level::Trace => "TRACE"@,
        Level::Debug => "DEBUG"@,
        Level::Info => "INFO"@,
        Level::Warn => "WARN"@,
        Level::Error => "ERROR"@,
    }
}

/// Returns the display name of a level.
pub fn level_str(l: Level) -> (r: &'static str)
    ensures
        r@ == level_name(l),
{
    match l {
        Level::Trace => "TRACE",
        Level::Debug => "DEBUG",
        Level::Info => "INFO",
        Level::Warn => "WARN",
        Level::Error => "ERROR",
    }
}

} // verus!
