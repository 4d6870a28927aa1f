//! One solve job: the event stream of its engine session, completion
//! detection, and the finished result.
//!
//! A job owns one engine session and one [`SolveStats`] value. The session's
//! response listener reduces each asynchronous engine response to an
//! [`EngineEvent`] and applies it through [`handle_event`]; the submitting
//! side waits until [`is_complete`] holds and then freezes the statistics
//! into a [`JobResult`].

use vstd::prelude::*;

use crate::stats::{InfoToken, SolveStats, VerdictKind, has_pv, first_nodes};

verus! {

/// One asynchronous engine response, reduced to what the statistics read.
#[derive(Clone, Debug)]
pub enum EngineEvent {
    /// Terminal verdict for the oldest position still in flight.
    Checkmate(VerdictKind),
    /// Interim progress notification for the position currently in flight.
    Info(Vec<InfoToken>),
    /// Any other engine output; the statistics ignore it.
    Other,
}

/// The verdicts carried by an event stream, in arrival order.
pub open spec fn verdicts_of(events: Seq<EngineEvent>) -> Seq<VerdictKind>
    decreases events.len(),
{
    if events.len() == 0 {
        Seq::empty()
    } else if events.last() is Checkmate {
        verdicts_of(events.drop_last()).push(events.last()->Checkmate_0)
    } else {
        verdicts_of(events.drop_last())
    }
}

/// Apply one engine response to a job's statistics: a verdict updates the
/// counters, a progress notification updates the in-flight node count, and
/// anything else is ignored.
pub fn handle_event(stats: &mut SolveStats, event: &EngineEvent)
    requires
        old(stats).wf(),
        old(stats).num_sfens < usize::MAX,
        old(stats).nodes + old(stats).last_nodes <= usize::MAX,
    ensures
        final(stats).wf(),
        (event matches EngineEvent::Checkmate(kind) ==> {
            &&& final(stats).history@ == old(stats).history@.push(*kind)
            &&& final(stats).num_sfens == old(stats).num_sfens + 1
            &&& final(stats).nodes == old(stats).nodes + old(stats).last_nodes
            &&& final(stats).last_nodes == 0
        }),
        (event matches EngineEvent::Info(info) ==> *final(stats) == (SolveStats {
            last_nodes: if has_pv(info@) {
                first_nodes(info@)
            } else {
                old(stats).last_nodes
            },
            ..*old(stats)
        })),
        event is Other ==> *final(stats) == *old(stats),
        final(stats).history@ == old(stats).history@ + verdicts_of(seq![*event]),
        final(stats).elapsed == old(stats).elapsed,
{
    proof {
        let s = seq![*event];
        assert(s.drop_last() =~= Seq::<EngineEvent>::empty());
        assert(s.last() == *event);
        assert(verdicts_of(Seq::<EngineEvent>::empty()) == Seq::<VerdictKind>::empty());
        if *event is Checkmate {
            assert(verdicts_of(s) =~= seq![event->Checkmate_0]);
        } else {
            assert(verdicts_of(s) =~= Seq::<VerdictKind>::empty());
        }
    }
    match event {
        EngineEvent::Checkmate(kind) => {
            stats.update_by_checkmate(*kind);
            proof {
                assert(old(stats).history@ + verdicts_of(seq![*event]) =~= old(
                    stats,
                ).history@.push(event->Checkmate_0));
            }
        },
        EngineEvent::Info(info) => {
            stats.update_by_info(info);
            proof {
                assert(old(stats).history@ + verdicts_of(seq![*event]) =~= old(stats).history@);
            }
        },
        EngineEvent::Other => {
            proof {
                assert(old(stats).history@ + verdicts_of(seq![*event]) =~= old(stats).history@);
            }
        },
    }
}

/// A job is complete once the processed count has reached the number of
/// positions the input file holds.
pub open spec fn spec_complete(stats: SolveStats, expected: usize) -> bool {
    stats.num_sfens >= expected
}

/// The completion check the waiter runs each polling round: has every
/// expected verdict arrived?
pub fn is_complete(stats: &SolveStats, expected: usize) -> (b: bool)
    ensures
        b == spec_complete(*stats, expected),
{
    stats.num_sfens >= expected
}

/// Law: a job whose input file holds no positions is complete from the
/// start; the completion wait terminates without any verdict arriving.
pub proof fn lemma_empty_complete(stats: SolveStats)
    ensures
        spec_complete(stats, 0),
{
}

/// The finished outcome of one solve job.
#[derive(Clone)]
pub struct JobResult {
    /// Path of the input file this job solved.
    pub sfen_path: String,
    /// The frozen statistics of the job.
    pub stats: SolveStats,
}

/// Freeze a completed job's statistics into its result, recording the
/// job's wall-clock time in milliseconds.
pub fn completed_result(sfen_path: String, stats: SolveStats, elapsed_ms: u64) -> (r: JobResult)
    ensures
        r.sfen_path@ == sfen_path@,
        r.stats == (SolveStats { elapsed: elapsed_ms, ..stats }),
        stats.wf() ==> r.stats.wf(),
{
    let mut stats = stats;
    stats.finish(elapsed_ms);
    JobResult { sfen_path, stats }
}

/// The result of a job that aborted on a spawn, command or file fault:
/// a degraded all-zero snapshot, so one misbehaving file does not abort
/// the batch.
pub fn failed_result(sfen_path: String) -> (r: JobResult)
    ensures
        r.sfen_path@ == sfen_path@,
        r.stats.wf(),
        r.stats.num_sfens == 0,
        r.stats.num_mate == 0,
        r.stats.num_nomate == 0,
        r.stats.num_errors == 0,
        r.stats.elapsed == 0,
        r.stats.nodes == 0,
        r.stats.last_nodes == 0,
        r.stats.error_or_nomate_indices@ == Seq::<usize>::empty(),
{
    JobResult { sfen_path, stats: SolveStats::new() }
}

/// An event stream's verdict count, over the stream's prefixes: each event
/// adds one verdict when it is terminal and none otherwise.
proof fn lemma_verdicts_of_take_step(events: Seq<EngineEvent>, j: int)
    requires
        0 <= j < events.len(),
    ensures
        verdicts_of(events.take(j + 1)).len() == verdicts_of(events.take(j)).len() + if events[j] is Checkmate {
            1int
        } else {
            0int
        },
{
    assert(events.take(j + 1).drop_last() =~= events.take(j));
    assert(events.take(j + 1).last() == events[j]);
}

/// Law: over any event stream, the number of verdicts seen — and with it a
/// well-formed job's processed count — grows monotonically along prefixes
/// and never exceeds the stream's verdict total; it reaches that total
/// exactly when the whole stream has been consumed. With one verdict owed
/// per submitted position, the processed count therefore reaches the
/// expected total exactly once and never passes it.
pub proof fn lemma_processed_reaches_total(events: Seq<EngineEvent>, i: int, j: int)
    requires
        0 <= i <= j <= events.len(),
    ensures
        verdicts_of(events.take(i)).len() <= verdicts_of(events.take(j)).len(),
        verdicts_of(events.take(j)).len() <= verdicts_of(events).len(),
        verdicts_of(events.take(events.len() as int)) == verdicts_of(events),
{
    assert(events.take(events.len() as int) =~= events);
    lemma_verdict_count_monotone(events, i, j);
    lemma_verdict_count_monotone(events, j, events.len() as int);
}

/// Law: a well-formed statistics value built from a prefix of its session's
/// event stream has processed exactly the verdicts of that prefix: the count
/// never exceeds the stream's verdict total, and equals it precisely when
/// the whole stream has arrived. With one verdict owed per submitted
/// position, the processed count reaches the expected total exactly once.
pub proof fn lemma_stats_processed_bounded(stats: SolveStats, events: Seq<EngineEvent>, i: int)
    requires
        stats.wf(),
        0 <= i <= events.len(),
        stats.history@ == verdicts_of(events.take(i)),
    ensures
        stats.num_sfens == verdicts_of(events.take(i)).len(),
        stats.num_sfens <= verdicts_of(events).len(),
        i == events.len() ==> stats.num_sfens == verdicts_of(events).len(),
{
    lemma_processed_reaches_total(events, i, events.len() as int);
}

/// The verdict count of an event stream's prefixes is monotone.
proof fn lemma_verdict_count_monotone(events: Seq<EngineEvent>, i: int, j: int)
    requires
        0 <= i <= j <= events.len(),
    ensures
        verdicts_of(events.take(i)).len() <= verdicts_of(events.take(j)).len(),
    decreases j - i,
{
    if i < j {
        lemma_verdict_count_monotone(events, i + 1, j);
        lemma_verdicts_of_take_step(events, i);
    }
}

} // verus!
