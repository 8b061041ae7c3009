use vstd::prelude::*;
use vstd::string::StringExecFns;

use crate::format::{dec_rep, push_dec_u128};
use crate::level::{level_name, level_passes, level_str, passes, Level, LevelFilter};
use crate::record::{Record, RecordView};

verus! {

/// A pluggable destination for records. A sink decides which levels it
/// accepts, consumes accepted records, and can be flushed; its spec
/// functions expose the full delivery history, so that the facade's
/// contracts can state exactly-once delivery.
pub trait Sink: Sized {
    /// Well-formedness that every operation of the sink preserves.
    spec fn inv(&self) -> bool;

    /// Which levels the sink itself accepts.
    spec fn accepts(&self, level: Level) -> bool;

    /// Every record delivered to this sink, in delivery order.
    spec fn received(&self) -> Seq<RecordView>;

    /// How many times this sink has been flushed.
    spec fn flushes(&self) -> nat;

    /// Pure check: does the sink accept records at `level`?
    fn enabled(&self, level: Level) -> (r: bool)
        requires
            self.inv(),
        ensures
            r == self.accepts(level),
    ;

    /// Consume one already-filtered, already-formatted record.
    fn log(&mut self, record: &Record)
        requires
            old(self).inv(),
        ensures
            final(self).inv(),
            final(self).received() == old(self).received().push(record@),
            final(self).flushes() == old(self).flushes(),
            forall|l: Level| final(self).accepts(l) == old(self).accepts(l),
    ;

    /// Force buffered output to be made durable.
    fn flush(&mut self)
        requires
            old(self).inv(),
            old(self).flushes() < u64::MAX,
        ensures
            final(self).inv(),
            final(self).flushes() == old(self).flushes() + 1,
            final(self).received() == old(self).received(),
            forall|l: Level| final(self).accepts(l) == old(self).accepts(l),
    ;
}

/// The single line a debug-console sink writes for one record:
/// `[LEVEL][file:line] message args`, with `unknown:unknown` standing in
/// for an absent source location, and the args text dropped when the
/// location is only partially known.
pub open spec fn line_rep(r: RecordView) -> Seq<char> {
    let head = "["@ + level_name(r.level) + "]"@;
    match (r.args, r.file, r.line) {
        (Some(a), Some(f), Some(l)) => head + "["@ + f + ":"@ + dec_rep(l as nat) + "] "@ + r.msg
            + " "@ + a + "\n"@,
        (None, Some(f), Some(l)) => head + "["@ + f + ":"@ + dec_rep(l as nat) + "] "@ + r.msg
            + "\n"@,
        (Some(a), None, None) => head + "[unknown:unknown] "@ + r.msg + " "@ + a + "\n"@,
        _ => head + "[unknown:unknown] "@ + r.msg + "\n"@,
    }
}

/// Renders the line a debug-console sink writes for `record`.
pub fn format_line(record: &Record) -> (r: String)
    ensures
        r@ == line_rep(record@),
{
    let mut s = String::new();
    s.append("[");
    s.append(level_str(record.level));
    s.append("]");
    match (&record.args, &record.file, &record.line) {
        (Some(a), Some(f), Some(l)) => {
            s.append("[");
            s.append(f.as_str());
            s.append(":");
            push_dec_u128(&mut s, *l as u128);
            s.append("] ");
            s.append(record.msg.as_str());
            s.append(" ");
            s.append(a.as_str());
            s.append("\n");
        },
        (None, Some(f), Some(l)) => {
            s.append("[");
            s.append(f.as_str());
            s.append(":");
            push_dec_u128(&mut s, *l as u128);
            s.append("] ");
            s.append(record.msg.as_str());
            s.append("\n");
        },
        (Some(a), None, None) => {
            s.append("[unknown:unknown] ");
            s.append(record.msg.as_str());
            s.append(" ");
            s.append(a.as_str());
            s.append("\n");
        },
        _ => {
            s.append("[unknown:unknown] ");
            s.append(record.msg.as_str());
            s.append("\n");
        },
    }
    proof {
        assert(s@ =~= line_rep(record@));
    }
    s
}

/// A sink in the shape of an OS debug console: it keeps its own severity
/// threshold and records every line it would have written, in order.
pub struct DebugConsoleSink {
    max_level: LevelFilter,
    lines: Vec<String>,
    flush_count: u64,
    history: Ghost<Seq<RecordView>>,
}

impl DebugConsoleSink {
    /// Creates a sink that accepts records passing `max_level`.
    pub fn new(max_level: LevelFilter) -> (s: Self)
        ensures
            s.inv(),
            s.received().len() == 0,
            s.flushes() == 0,
            forall|l: Level| s.accepts(l) == passes(l, max_level),
    {
        DebugConsoleSink {
            max_level,
            lines: Vec::new(),
            flush_count: 0,
            history: Ghost(Seq::empty()),
        }
    }

    /// Changes which levels the sink accepts, leaving its history alone.
    pub fn set_max_level(&mut self, level: LevelFilter)
        requires
            old(self).inv(),
        ensures
            final(self).inv(),
            final(self).received() == old(self).received(),
            final(self).flushes() == old(self).flushes(),
            forall|l: Level| final(self).accepts(l) == passes(l, level),
    {
        self.max_level = level;
    }

    /// The lines written so far, one per received record, in order.
    pub fn lines(&self) -> (r: &Vec<String>)
        requires
            self.inv(),
        ensures
            r@.len() == self.received().len(),
            forall|i: int| 0 <= i < r@.len() ==> r@[i]@ == line_rep(self.received()[i]),
    {
        &self.lines
    }

    /// How many times the sink has been flushed.
    pub fn flush_count(&self) -> (r: u64)
        ensures
            r == self.flushes(),
    {
        self.flush_count
    }
}

impl Sink for DebugConsoleSink {
    closed spec fn inv(&self) -> bool {
        &&& self.lines@.len() == self.history@.len()
        &&& forall|i: int| 0 <= i < self.lines@.len() ==> self.lines@[i]@ == line_rep(
            self.history@[i],
        )
    }

    closed spec fn accepts(&self, level: Level) -> bool {
        passes(level, self.max_level)
    }

    closed spec fn received(&self) -> Seq<RecordView> {
        self.history@
    }

    closed spec fn flushes(&self) -> nat {
        self.flush_count as nat
    }

    fn enabled(&self, level: Level) -> (r: bool) {
        level_passes(level, self.max_level)
    }

    fn log(&mut self, record: &Record) {
        let line = format_line(record);
        self.lines.push(line);
        self.history = Ghost(self.history@.push(record@));
    }

    fn flush(&mut self) {
        self.flush_count = self.flush_count + 1;
    }
}

} // verus!
