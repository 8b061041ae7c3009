use vstd::prelude::*;

use crate::format::Field;
use crate::level::{level_passes, passes, Level, LevelFilter};
use crate::record::{emitted_record, opt_text_view, Record};
use crate::sink::Sink;

verus! {

/// The only error the facade surfaces: a second startup attempt.
#[derive(Clone, Copy, PartialEq, Eq, Structural, Debug)]
pub enum LoggerError {
    AlreadyInitialized,
}

impl LoggerError {
    /// A human-readable description of the error.
    pub fn message(&self) -> (r: &'static str)
        ensures
            r@ == "logger is already initialized"@,
    {
        "logger is already initialized"
    }
}

/// Where the facade stands in its one-way lifecycle.
#[derive(Clone, Copy, PartialEq, Eq, Structural, Debug)]
pub enum Lifecycle {
    Uninitialized,
    Running,
    ShutDown,
}

/// One registration: a sink together with the kind it was registered
/// under. At most one sink is live per kind.
pub struct Entry<S> {
    pub kind: u64,
    pub sink: S,
}

/// The facade: the severity filter, the registry of sinks, and the
/// lifecycle, composed into one explicit state that callers share.
pub struct Facade<S> {
    pub lifecycle: Lifecycle,
    pub filter: LevelFilter,
    pub sinks: Vec<Entry<S>>,
}

/// Whether some registered entry carries `kind`.
pub open spec fn has_kind<S>(s: Seq<Entry<S>>, kind: u64) -> bool {
    exists|i: int| 0 <= i < s.len() && s[i].kind == kind
}

/// The position of the entry carrying `kind`, where one exists.
pub open spec fn kind_index<S>(s: Seq<Entry<S>>, kind: u64) -> int {
    choose|i: int| 0 <= i < s.len() && s[i].kind == kind
}

impl<S: Sink> Facade<S> {
    /// The facade's invariant: kinds are unique, every sink is
    /// well-formed, the registry is empty unless running, and after
    /// shutdown the filter is forced off.
    pub open spec fn wf(&self) -> bool {
        &&& forall|i: int, j: int|
            0 <= i < j < self.sinks@.len() ==> self.sinks@[i].kind != self.sinks@[j].kind
        &&& forall|i: int| 0 <= i < self.sinks@.len() ==> (#[trigger] self.sinks@[i].sink).inv()
        &&& (self.lifecycle != Lifecycle::Running ==> self.sinks@.len() == 0)
        &&& (self.lifecycle == Lifecycle::ShutDown ==> self.filter == LevelFilter::Off)
    }

    /// Whether a record at `level` would currently be dispatched at all.
    pub open spec fn dispatches(&self, level: Level) -> bool {
        self.lifecycle == Lifecycle::Running && passes(level, self.filter)
    }

    /// Creates the facade in its uninitialized state: nothing registered,
    /// nothing delivered.
    pub fn new() -> (f: Self)
        ensures
            f.wf(),
            f.lifecycle == Lifecycle::Uninitialized,
            f.filter == LevelFilter::Off,
            f.sinks@.len() == 0,
    {
        Facade { lifecycle: Lifecycle::Uninitialized, filter: LevelFilter::Off, sinks: Vec::new() }
    }

    /// How many sinks are currently registered.
    pub fn sink_count(&self) -> (r: usize)
        ensures
            r == self.sinks@.len(),
    {
        self.sinks.len()
    }

    /// The sink registered under `kind`, if any.
    pub fn get_sink(&self, kind: u64) -> (r: Option<&S>)
        requires
            self.wf(),
        ensures
            match r {
                Some(s) => has_kind(self.sinks@, kind) && *s == self.sinks@[kind_index(
                    self.sinks@,
                    kind,
                )].sink,
                None => !has_kind(self.sinks@, kind),
            },
    {
        let n = self.sinks.len();
        let mut i: usize = 0;
        while i < n
            invariant
                i <= n,
                n == self.sinks@.len(),
                self.wf(),
                forall|j: int| 0 <= j < i ==> self.sinks@[j].kind != kind,
            decreases n - i,
        {
            if self.sinks[i].kind == kind {
                proof {
                    assert(has_kind(self.sinks@, kind)) by {
                        assert(self.sinks@[i as int].kind == kind);
                    }
                    let j = kind_index(self.sinks@, kind);
                    assert(0 <= j < self.sinks@.len() && self.sinks@[j].kind == kind);
                    assert(j == i as int);
                }
                return Some(&self.sinks[i].sink);
            }
            i += 1;
        }
        None
    }
}

/// Transitions the facade from uninitialized to running, installing the
/// initial severity filter; every later call fails with
/// `AlreadyInitialized` and changes nothing.
pub fn startup<S: Sink>(f: &mut Facade<S>, max_level: LevelFilter) -> (r: Result<
    (),
    LoggerError,
>)
    requires
        old(f).wf(),
    ensures
        final(f).wf(),
        old(f).lifecycle == Lifecycle::Uninitialized ==> {
            &&& r == Result::<(), LoggerError>::Ok(())
            &&& final(f).lifecycle == Lifecycle::Running
            &&& final(f).filter == max_level
            &&& final(f).sinks@ == old(f).sinks@
        },
        old(f).lifecycle != Lifecycle::Uninitialized ==> {
            &&& r == Result::<(), LoggerError>::Err(LoggerError::AlreadyInitialized)
            &&& *final(f) == *old(f)
        },
{
    match f.lifecycle {
        Lifecycle::Uninitialized => {
            f.lifecycle = Lifecycle::Running;
            f.filter = max_level;
            Ok(())
        },
        _ => Err(LoggerError::AlreadyInitialized),
    }
}

/// Flushes every registered sink exactly once, empties the registry,
/// forces the filter off, and seals the lifecycle; the drained entries
/// come back in registration order. When the facade is not running this
/// is a no-op that drains nothing.
pub fn shutdown<S: Sink>(f: &mut Facade<S>) -> (drained: Vec<Entry<S>>)
    requires
        old(f).wf(),
        forall|i: int|
            0 <= i < old(f).sinks@.len() ==> (#[trigger] old(f).sinks@[i].sink).flushes()
                < u64::MAX,
    ensures
        final(f).wf(),
        old(f).lifecycle == Lifecycle::Running ==> {
            &&& final(f).lifecycle == Lifecycle::ShutDown
            &&& final(f).filter == LevelFilter::Off
            &&& final(f).sinks@.len() == 0
            &&& drained@.len() == old(f).sinks@.len()
            &&& forall|i: int|
                0 <= i < drained@.len() ==> {
                    let e_old = old(f).sinks@[i];
                    let e_new = #[trigger] drained@[i];
                    &&& e_new.kind == e_old.kind
                    &&& e_new.sink.inv()
                    &&& e_new.sink.received() == e_old.sink.received()
                    &&& e_new.sink.flushes() == e_old.sink.flushes() + 1
                    &&& forall|l: Level| e_new.sink.accepts(l) == e_old.sink.accepts(l)
                }
        },
        old(f).lifecycle != Lifecycle::Running ==> {
            &&& *final(f) == *old(f)
            &&& drained@.len() == 0
        },
{
    match f.lifecycle {
        Lifecycle::Running => {
            let ghost orig = f.sinks@;
            let mut drained: Vec<Entry<S>> = Vec::new();
            while f.sinks.len() > 0
                invariant
                    orig == old(f).sinks@,
                    drained@.len() + f.sinks@.len() == orig.len(),
                    forall|i: int|
                        0 <= i < f.sinks@.len() ==> #[trigger] f.sinks@[i] == orig[drained@.len()
                            + i],
                    forall|i: int|
                        0 <= i < orig.len() ==> (#[trigger] orig[i].sink).inv()
                            && orig[i].sink.flushes() < u64::MAX,
                    forall|i: int|
                        0 <= i < drained@.len() ==> {
                            let e_old = orig[i];
                            let e_new = #[trigger] drained@[i];
                            &&& e_new.kind == e_old.kind
                            &&& e_new.sink.inv()
                            &&& e_new.sink.received() == e_old.sink.received()
                            &&& e_new.sink.flushes() == e_old.sink.flushes() + 1
                            &&& forall|l: Level| e_new.sink.accepts(l) == e_old.sink.accepts(l)
                        },
                decreases f.sinks@.len(),
            {
                let mut e = f.sinks.remove(0);
                e.sink.flush();
                drained.push(e);
            }
            f.lifecycle = Lifecycle::ShutDown;
            f.filter = LevelFilter::Off;
            drained
        },
        _ => Vec::new(),
    }
}

/// Registers `sink` under `kind` while the facade is running: a fresh
/// kind is appended, and a kind already registered is replaced in place,
/// its previous sink handed back. Otherwise this is a no-op.
pub fn add_sink<S: Sink>(f: &mut Facade<S>, kind: u64, sink: S) -> (replaced: Option<S>)
    requires
        old(f).wf(),
        sink.inv(),
    ensures
        final(f).wf(),
        final(f).lifecycle == old(f).lifecycle,
        final(f).filter == old(f).filter,
        old(f).lifecycle == Lifecycle::Running ==> {
            &&& (has_kind(old(f).sinks@, kind) ==> {
                let j = kind_index(old(f).sinks@, kind);
                &&& final(f).sinks@ == old(f).sinks@.update(j, Entry { kind, sink })
                &&& replaced == Some(old(f).sinks@[j].sink)
            })
            &&& (!has_kind(old(f).sinks@, kind) ==> {
                &&& final(f).sinks@ == old(f).sinks@.push(Entry { kind, sink })
                &&& replaced is None
            })
        },
        old(f).lifecycle != Lifecycle::Running ==> *final(f) == *old(f) && replaced is None,
{
    match f.lifecycle {
        Lifecycle::Running => {
            let n = f.sinks.len();
            let mut i: usize = 0;
            while i < n
                invariant
                    i <= n,
                    *f == *old(f),
                    n == f.sinks@.len(),
                    f.wf(),
                    f.lifecycle == Lifecycle::Running,
                    sink.inv(),
                    forall|j: int| 0 <= j < i ==> f.sinks@[j].kind != kind,
                decreases n - i,
            {
                if f.sinks[i].kind == kind {
                    proof {
                        assert(has_kind(f.sinks@, kind)) by {
                            assert(f.sinks@[i as int].kind == kind);
                        }
                        let j = kind_index(f.sinks@, kind);
                        assert(0 <= j < f.sinks@.len() && f.sinks@[j].kind == kind);
                        assert(j == i as int);
                    }
                    let old_entry = f.sinks.remove(i);
                    f.sinks.insert(i, Entry { kind, sink });
                    proof {
                        assert(f.sinks@ =~= old(f).sinks@.update(i as int, Entry { kind, sink }));
                        assert forall|a: int| 0 <= a < f.sinks@.len() implies f.sinks@[a].kind
                            == old(f).sinks@[a].kind by {
                            if a == i as int {
                                assert(old(f).sinks@[a].kind == kind);
                            }
                        }
                        assert forall|a: int|
                            0 <= a < f.sinks@.len() implies (#[trigger] f.sinks@[a].sink).inv() by {
                            if a == i as int {
                                assert(f.sinks@[a].sink == sink);
                            } else {
                                assert(f.sinks@[a] == old(f).sinks@[a]);
                            }
                        }
                    }
                    return Some(old_entry.sink);
                }
                i += 1;
            }
            f.sinks.push(Entry { kind, sink });
            None
        },
        _ => None,
    }
}

/// Removes and returns the sink registered under `kind` while the facade
/// is running; a no-op when the kind is absent or the facade is not
/// running.
pub fn remove_sink<S: Sink>(f: &mut Facade<S>, kind: u64) -> (removed: Option<S>)
    requires
        old(f).wf(),
    ensures
        final(f).wf(),
        final(f).lifecycle == old(f).lifecycle,
        final(f).filter == old(f).filter,
        old(f).lifecycle == Lifecycle::Running && has_kind(old(f).sinks@, kind) ==> {
            let j = kind_index(old(f).sinks@, kind);
            &&& final(f).sinks@ == old(f).sinks@.remove(j)
            &&& removed == Some(old(f).sinks@[j].sink)
            &&& !has_kind(final(f).sinks@, kind)
        },
        !(old(f).lifecycle == Lifecycle::Running && has_kind(old(f).sinks@, kind)) ==> {
            &&& *final(f) == *old(f)
            &&& removed is None
        },
{
    match f.lifecycle {
        Lifecycle::Running => {
            let n = f.sinks.len();
            let mut i: usize = 0;
            while i < n
                invariant
                    i <= n,
                    *f == *old(f),
                    n == f.sinks@.len(),
                    f.wf(),
                    f.lifecycle == Lifecycle::Running,
                    forall|j: int| 0 <= j < i ==> f.sinks@[j].kind != kind,
                decreases n - i,
            {
                if f.sinks[i].kind == kind {
                    proof {
                        assert(has_kind(f.sinks@, kind)) by {
                            assert(f.sinks@[i as int].kind == kind);
                        }
                        let j = kind_index(f.sinks@, kind);
                        assert(0 <= j < f.sinks@.len() && f.sinks@[j].kind == kind);
                        assert(j == i as int);
                    }
                    let e = f.sinks.remove(i);
                    proof {
                        assert forall|j: int|
                            0 <= j < f.sinks@.len() implies f.sinks@[j].kind != kind by {
                            if j < i as int {
                                assert(f.sinks@[j] == old(f).sinks@[j]);
                            } else {
                                assert(f.sinks@[j] == old(f).sinks@[j + 1]);
                            }
                        }
                    }
                    return Some(e.sink);
                }
                i += 1;
            }
            proof {
                assert(!has_kind(f.sinks@, kind));
            }
            None
        },
        _ => None,
    }
}

/// Atomically updates the severity filter while the facade is running;
/// otherwise a no-op, so that a shut-down facade stays sealed off.
pub fn set_max_level<S: Sink>(f: &mut Facade<S>, level: LevelFilter)
    requires
        old(f).wf(),
    ensures
        final(f).wf(),
        old(f).lifecycle == Lifecycle::Running ==> {
            &&& final(f).lifecycle == old(f).lifecycle
            &&& final(f).filter == level
            &&& final(f).sinks@ == old(f).sinks@
        },
        old(f).lifecycle != Lifecycle::Running ==> *final(f) == *old(f),
{
    match f.lifecycle {
        Lifecycle::Running => {
            f.filter = level;
        },
        _ => {},
    }
}

/// Emits one record: discarded outright unless the facade is running and
/// `level` passes the global filter; otherwise the record is built from
/// the message and fields, and delivered exactly once to every registered
/// sink that accepts `level`, in registration order. Registrations, the
/// filter, and the lifecycle are left untouched.
pub fn emit<S: Sink>(
    f: &mut Facade<S>,
    level: Level,
    message: &str,
    fields: &Vec<Field>,
    file: Option<&str>,
    line: Option<u32>,
)
    requires
        old(f).wf(),
    ensures
        final(f).wf(),
        final(f).lifecycle == old(f).lifecycle,
        final(f).filter == old(f).filter,
        final(f).sinks@.len() == old(f).sinks@.len(),
        forall|i: int|
            0 <= i < old(f).sinks@.len() ==> {
                let e_old = old(f).sinks@[i];
                let e_new = #[trigger] final(f).sinks@[i];
                &&& e_new.kind == e_old.kind
                &&& e_new.sink.flushes() == e_old.sink.flushes()
                &&& (forall|l: Level| e_new.sink.accepts(l) == e_old.sink.accepts(l))
                &&& e_new.sink.received() == if old(f).dispatches(level) && e_old.sink.accepts(
                    level,
                ) {
                    e_old.sink.received().push(
                        emitted_record(level, message@, fields@, opt_text_view(file), line),
                    )
                } else {
                    e_old.sink.received()
                }
            },
{
    match f.lifecycle {
        Lifecycle::Running => {},
        _ => {
            return;
        },
    }
    if !level_passes(level, f.filter) {
        return;
    }
    let (msg, args) = crate::format::format_record(message, fields);
    let file_owned: Option<String> = match file {
        Some(t) => Some(t.to_owned()),
        None => None,
    };
    let record = Record { level, msg, args, file: file_owned, line };
    proof {
        assert(record@ =~= emitted_record(level, message@, fields@, opt_text_view(file), line));
    }
    let ghost orig = f.sinks@;
    let ghost rec = record@;
    let mut done: Vec<Entry<S>> = Vec::new();
    while f.sinks.len() > 0
        invariant
            f.lifecycle == old(f).lifecycle,
            f.filter == old(f).filter,
            f.lifecycle == Lifecycle::Running,
            orig == old(f).sinks@,
            rec == emitted_record(level, message@, fields@, opt_text_view(file), line),
            rec == record@,
            done@.len() + f.sinks@.len() == orig.len(),
            forall|i: int|
                0 <= i < f.sinks@.len() ==> #[trigger] f.sinks@[i] == orig[done@.len() + i],
            forall|i: int, j: int| 0 <= i < j < orig.len() ==> orig[i].kind != orig[j].kind,
            forall|i: int| 0 <= i < orig.len() ==> (#[trigger] orig[i].sink).inv(),
            forall|i: int|
                0 <= i < done@.len() ==> {
                    let e_old = orig[i];
                    let e_new = #[trigger] done@[i];
                    &&& e_new.kind == e_old.kind
                    &&& e_new.sink.inv()
                    &&& e_new.sink.flushes() == e_old.sink.flushes()
                    &&& (forall|l: Level| e_new.sink.accepts(l) == e_old.sink.accepts(l))
                    &&& e_new.sink.received() == if e_old.sink.accepts(level) {
                        e_old.sink.received().push(rec)
                    } else {
                        e_old.sink.received()
                    }
                },
        decreases f.sinks@.len(),
    {
        let mut e = f.sinks.remove(0);
        if e.sink.enabled(level) {
            e.sink.log(&record);
        }
        done.push(e);
    }
    f.sinks = done;
}

} // verus!
