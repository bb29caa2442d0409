//! Properties of the session that relate several operations, stated over the
//! spec functions that the operations' own contracts use.

use crate::session::{
    lemma_fresh_marker, lemma_reread_marker, step_ok, Action, Cue, SessionLoop, Stage, TickerView,
    SLICE_MS,
};
use vstd::prelude::*;

verus! {

/// Forcing the elapsed time to `e` at the reading `now` reads back exactly
/// `e`, puts the start marker exactly `e` seconds before `now`, and keeps the
/// derived elapsed time at `e` for readings within one poll interval.
pub proof fn lemma_set_elapsed_reads_back(t: TickerView, e: u64, now: u64, later: u64)
    requires
        now <= later < now + SLICE_MS,
    ensures
        t.with_elapsed(e, now).elapsed_time == e,
        now - t.with_elapsed(e, now).start_marker() == e * 1000,
        t.with_elapsed(e, now).elapsed_at(later) == e,
{
}

/// A stop that comes while the loop waits inside the alert loop cuts the
/// wait short at the end of the current slice, and the next step leaves the
/// alert loop for the rest phase, without a cue and without touching the
/// stopped ticker.
pub proof fn lemma_stop_leaves_alert_loop(
    t0: TickerView,
    l0: SessionLoop,
    now1: u64,
    t1: TickerView,
    l1: SessionLoop,
    a1: Action,
    now2: u64,
    t2: TickerView,
    l2: SessionLoop,
    a2: Action,
)
    requires
        l0.generation == t0.generation,
        l0.stage is Alert || l0.stage is Study,
        step_ok(t0.stopped(), l0, now1, t1, l1, a1),
        step_ok(t1, l1, now2, t2, l2, a2),
    ensures
        l1.stage == Stage::Check,
        a1 == Action::Proceed,
        l2.stage == Stage::RestStart,
        a2 == Action::Proceed,
        t2 == t0.stopped(),
{
}

/// Resuming after a stop keeps the elapsed time and the start marker as they
/// were at the stop; starting always resets the elapsed time to zero.
pub proof fn lemma_resume_keeps_elapsed(t: TickerView, now: u64)
    ensures
        t.stopped().resumed().elapsed_time == t.elapsed_time,
        t.stopped().resumed().start_marker() == t.start_marker(),
        t.stopped().resumed().running,
        t.restarted(now).elapsed_time == 0,
        t.stopped().restarted(now).elapsed_time == 0,
{
}

/// A step of any loop on a stopped ticker keeps its elapsed time and start
/// marker, and the ticker stays stopped.
pub proof fn lemma_stopped_step_keeps_elapsed(
    t0: TickerView,
    l0: SessionLoop,
    now: u64,
    t1: TickerView,
    l1: SessionLoop,
    a: Action,
)
    requires
        !t0.running,
        step_ok(t0, l0, now, t1, l1, a),
    ensures
        t1.elapsed_time == t0.elapsed_time,
        t1.start_marker() == t0.start_marker(),
        !t1.running,
{
}

/// When, at the head of the alert loop, the class time is no longer than the
/// elapsed time (as after shortening it mid-session), the loop leaves for the
/// rest phase at that step, with the rest cue if the session runs.
pub proof fn lemma_short_class_goes_to_rest(
    t0: TickerView,
    l0: SessionLoop,
    now: u64,
    t1: TickerView,
    l1: SessionLoop,
    a: Action,
)
    requires
        l0.generation == t0.generation,
        l0.stage == Stage::Check,
        t0.class_time <= t0.elapsed_time,
        step_ok(t0, l0, now, t1, l1, a),
    ensures
        t1 == t0,
        l1.stage == Stage::RestStart,
        a == (if t0.running { Action::Play(Cue::Rest) } else { Action::Proceed }),
{
}

/// Every operation on the ticker keeps the elapsed time derived from the
/// start marker: stop, resume, start, forcing the elapsed time, and each
/// step of a session loop.
pub proof fn lemma_elapsed_stays_derived(
    t0: TickerView,
    e: u64,
    l0: SessionLoop,
    now: u64,
    t1: TickerView,
    l1: SessionLoop,
    a: Action,
)
    requires
        t0.derived(),
    ensures
        t0.stopped().derived(),
        t0.resumed().derived(),
        t0.restarted(now).derived(),
        t0.with_elapsed(e, now).derived(),
        step_ok(t0, l0, now, t1, l1, a) ==> t1.derived(),
{
    lemma_fresh_marker(0, now);
    lemma_fresh_marker(e, now);
    lemma_reread_marker(t0.mark_ms, t0.mark_elapsed, now);
}

} // verus!
