use vstd::prelude::*;

use crate::facade::{Facade, Lifecycle};
use crate::level::Level;
use crate::record::RecordView;
use crate::sink::Sink;

verus! {

/// The history of a sink after a run of emits that all reach it: each
/// record of `recs` appended in turn, as `emit`'s contract states of one
/// delivered record.
pub open spec fn delivered_history(h: Seq<RecordView>, recs: Seq<RecordView>) -> Seq<RecordView>
    decreases recs.len(),
{
    if recs.len() == 0 {
        h
    } else {
        delivered_history(h, recs.drop_last()).push(recs.last())
    }
}

/// Law: exactly-once delivery over a whole run. A sink that accepts every
/// record of `recs`, emitted while the facade dispatches each of them,
/// ends with its prior history followed by `recs` itself — every record
/// delivered exactly once, in emission order, none lost, none duplicated.
pub proof fn lemma_exactly_once_delivery(h: Seq<RecordView>, recs: Seq<RecordView>)
    ensures
        delivered_history(h, recs) == h + recs,
    decreases recs.len(),
{
    if recs.len() == 0 {
        assert(delivered_history(h, recs) =~= h + recs);
    } else {
        lemma_exactly_once_delivery(h, recs.drop_last());
        assert(delivered_history(h, recs) =~= h + recs);
    }
}

/// Law: at most one sink is live per kind. In any well-formed facade, two
/// registered entries carrying the same kind are the same entry.
pub proof fn lemma_one_sink_per_kind<S: Sink>(f: &Facade<S>, i: int, j: int)
    requires
        f.wf(),
        0 <= i < f.sinks@.len(),
        0 <= j < f.sinks@.len(),
        f.sinks@[i].kind == f.sinks@[j].kind,
    ensures
        i == j,
{
}

/// Law: shutdown seals the facade. Once shut down, a well-formed facade
/// dispatches no record at any level, and no sink remains registered.
pub proof fn lemma_shutdown_seals<S: Sink>(f: &Facade<S>, level: Level)
    requires
        f.wf(),
        f.lifecycle == Lifecycle::ShutDown,
    ensures
        !f.dispatches(level),
        f.sinks@.len() == 0,
{
}

} // verus!
