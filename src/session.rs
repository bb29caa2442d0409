//! The class/rest session: the ticker's timing state, and the session loop as
//! a step function. Each call of [`ClassTicker::advance_at`] makes one
//! decision and names the outside work to do before the next call (play a
//! cue, sleep one slice, nothing, or finish).

use rand::Rng;
use std::time::{Duration, Instant};
use vstd::prelude::*;

verus! {

#[verifier::external_type_specification]
#[verifier::external_body]
pub struct ExInstant(Instant);

/// Default length of the class phase, in seconds.
pub const DEFAULT_CLASS_TIME: u64 = 5400;
/// Default length of the rest phase, in seconds.
pub const DEFAULT_REST_TIME: u64 = 1200;
/// Length of one sleep slice, in milliseconds.
pub const SLICE_MS: u64 = 100;
/// Sleep slices per second.
pub const SLICES_PER_SEC: u64 = 10;
/// Shortest wait, in seconds, before an attention cue.
pub const ALERT_MIN: u64 = 180;
/// Longest wait, in seconds, before an attention cue.
pub const ALERT_MAX: u64 = 300;
/// Shortest wait, in seconds, before the resume-study cue.
pub const STUDY_MIN: u64 = 10;
/// Longest wait, in seconds, before the resume-study cue.
pub const STUDY_MAX: u64 = 15;

/// Relies on `Instant::now`: a reading of the monotonic clock.
#[verifier::external_body]
fn monotonic_now() -> (r: Instant) {
    Instant::now()
}

/// Relies on `Instant::elapsed`: the time since `origin` on the monotonic
/// clock.
#[verifier::external_body]
fn time_since(origin: &Instant) -> (r: Duration) {
    origin.elapsed()
}

/// Relies on `Duration::as_millis`: the whole milliseconds of `d`.
#[verifier::external_body]
fn whole_millis(d: &Duration) -> (r: u128) {
    d.as_millis()
}

/// Whole milliseconds since `origin`, saturated to `u64`.
fn millis_since(origin: &Instant) -> (r: u64) {
    let ms = whole_millis(&time_since(origin));
    if ms > u64::MAX as u128 {
        u64::MAX
    } else {
        ms as u64
    }
}

/// Relies on chrono's `Utc::now` and `DateTime::timestamp`: the wall clock,
/// as seconds since the Unix epoch.
#[verifier::external_body]
fn wall_clock_secs() -> (r: i64) {
    chrono::Utc::now().timestamp()
}

/// Relies on rand's `Rng::gen_range` with an inclusive range on the thread's
/// generator: a value in `[lo, hi]`. It panics on an empty range, which
/// `requires` leaves out.
#[verifier::external_body]
fn uniform_inclusive(lo: u64, hi: u64) -> (r: u64)
    requires
        lo <= hi,
    ensures
        lo <= r <= hi,
{
    rand::thread_rng().gen_range(lo..=hi)
}

/// Picks the length, in seconds, of a randomized wait: uniform in
/// `[start, end]` when `end > start`, and zero otherwise.
pub fn rand_sleep(start: u64, end: u64) -> (r: u64)
    ensures
        end > start ==> start <= r <= end,
        end <= start ==> r == 0,
{
    if end > start {
        uniform_inclusive(start, end)
    } else {
        0
    }
}

/// An audio cue of the session.
#[derive(Debug, Clone, Copy, PartialEq, Eq, Structural)]
pub enum Cue {
    /// A class phase begins.
    ClassStart,
    /// The randomized attention alert.
    Attention,
    /// Back to study after an alert.
    ResumeStudy,
    /// The rest phase begins.
    Rest,
}

/// The audio file of each cue.
pub open spec fn cue_file(c: Cue) -> Seq<char> {
    match c {
        Cue::ClassStart => "class_work.mp3"@,
        Cue::Attention => "alert.mp3"@,
        Cue::ResumeStudy => "tick_study.mp3"@,
        Cue::Rest => "rest.mp3"@,
    }
}

impl Cue {
    /// The audio file, relative to the working directory, that sounds this cue.
    pub fn file_name(&self) -> (r: &'static str)
        ensures
            r@ == cue_file(*self),
    {
        match self {
            Cue::ClassStart => "class_work.mp3",
            Cue::Attention => "alert.mp3",
            Cue::ResumeStudy => "tick_study.mp3",
            Cue::Rest => "rest.mp3",
        }
    }
}

/// The outside work that the session loop asks for before its next step.
#[derive(Debug, Clone, Copy, PartialEq, Eq, Structural)]
pub enum Action {
    /// Nothing outside: step again.
    Proceed,
    /// Start playback of a cue (fire and forget), then step again.
    Play(Cue),
    /// Sleep one slice of `SLICE_MS`, then step again.
    Sleep,
    /// The loop is over.
    Finish,
}

/// Where the session loop stands.
#[derive(Debug, Clone, Copy, PartialEq, Eq, Structural)]
pub enum Stage {
    /// Entry: the end time is not yet computed.
    Begin,
    /// Head of a round: a class phase starts if the session still runs.
    Top,
    /// Head of the alert loop: another alert while class time is left.
    Check,
    /// Waiting before the attention cue; `left` slices remain.
    Alert { left: u64 },
    /// The attention cue has sounded.
    AfterAlert,
    /// Waiting before the resume-study cue; `left` slices remain.
    Study { left: u64 },
    /// The rest cue is behind; the rest wait is next.
    RestStart,
    /// Resting; `left` slices remain.
    Rest { left: u64 },
    /// The loop has ended.
    Done,
}

/// One run of the session loop, as started by `start_tick` or `resume_tick`.
/// A later start or resume supersedes it, and it then finishes.
#[derive(Debug, Clone, Copy, PartialEq, Eq, Structural)]
pub struct SessionLoop {
    pub generation: u64,
    pub stage: Stage,
}

/// The session's timing state, as contracts see it.
///
/// `elapsed_time` is derived from a monotonic start marker: the marker sits
/// `mark_elapsed` seconds before the reading `mark_ms` (milliseconds since
/// the ticker's origin), and each sleep slice recomputes `elapsed_time` from
/// it.
pub struct TickerView {
    /// Whether the session loop should go on.
    pub running: bool,
    /// Length of the class phase, in seconds.
    pub class_time: u64,
    /// Length of the rest phase, in seconds.
    pub rest_time: u64,
    /// Seconds since the current class phase began.
    pub elapsed_time: u64,
    /// Wall-clock end of the class phase (Unix seconds), for display.
    pub end_time: i64,
    /// The reading at which the start marker was last set.
    pub mark_ms: u64,
    /// Seconds between the start marker and `mark_ms`.
    pub mark_elapsed: u64,
    /// Counts starts and resumes; only the loop of the latest one is live.
    pub generation: u64,
}

/// The elapsed time and the start marker, which change together.
#[derive(Clone, Copy)]
struct Clock {
    elapsed: u64,
    mark_ms: u64,
    mark_elapsed: u64,
}

/// The session's timing state. Class and rest lengths may change at any
/// time, including mid-session.
pub struct ClassTicker {
    running: bool,
    class_time: u64,
    rest_time: u64,
    end_time: i64,
    origin: Instant,
    clock: Clock,
    generation: u64,
}

/// The generation after `g`, wrapping around.
pub open spec fn next_generation(g: u64) -> u64 {
    if g == u64::MAX { 0 } else { (g + 1) as u64 }
}

/// `v` clamped into the range of `i64`.
pub open spec fn clamp_i64(v: int) -> i64 {
    if v > i64::MAX { i64::MAX } else if v < i64::MIN { i64::MIN } else { v as i64 }
}

/// The number of sleep slices in `secs` seconds, saturated.
pub open spec fn slices_of(secs: u64) -> u64 {
    if secs * SLICES_PER_SEC > u64::MAX {
        u64::MAX
    } else {
        (secs * SLICES_PER_SEC) as u64
    }
}

/// Whole seconds from a start marker that sits `mark_elapsed` seconds before
/// the reading `mark_ms`, to the reading `now`, saturated.
pub open spec fn elapsed_from(mark_ms: u64, mark_elapsed: u64, now: u64) -> u64 {
    let v: int = mark_elapsed + if now >= mark_ms {
        (now - mark_ms) / 1000
    } else {
        0
    };
    if v > u64::MAX { u64::MAX } else { v as u64 }
}

/// `elapsed` is what the start marker gives at some reading not before
/// `mark_ms`: it has not drifted from the marker.
pub open spec fn marker_derived(elapsed: u64, mark_ms: u64, mark_elapsed: u64) -> bool {
    exists|r: u64| r >= mark_ms && elapsed == elapsed_from(mark_ms, mark_elapsed, r)
}

/// A freshly set marker gives its own elapsed time.
pub proof fn lemma_fresh_marker(e: u64, mark_ms: u64)
    ensures
        marker_derived(e, mark_ms, e),
{
    assert(e == elapsed_from(mark_ms, e, mark_ms));
}

/// Recomputing the elapsed time from the marker keeps it derived.
pub proof fn lemma_reread_marker(mark_ms: u64, mark_elapsed: u64, now: u64)
    ensures
        marker_derived(elapsed_from(mark_ms, mark_elapsed, now), mark_ms, mark_elapsed),
{
    if now >= mark_ms {
        assert(elapsed_from(mark_ms, mark_elapsed, now) == elapsed_from(
            mark_ms,
            mark_elapsed,
            now,
        ));
    } else {
        assert(elapsed_from(mark_ms, mark_elapsed, now) == elapsed_from(
            mark_ms,
            mark_elapsed,
            mark_ms,
        ));
    }
}

impl TickerView {
    /// The monotonic start marker of the class phase, in milliseconds since
    /// the origin (before it when negative).
    pub open spec fn start_marker(self) -> int {
        self.mark_ms - self.mark_elapsed * 1000
    }

    /// Whole seconds from the start marker to the reading `now`, saturated.
    pub open spec fn elapsed_at(self, now: u64) -> u64 {
        elapsed_from(self.mark_ms, self.mark_elapsed, now)
    }

    /// The elapsed time has not drifted from the start marker.
    pub open spec fn derived(self) -> bool {
        marker_derived(self.elapsed_time, self.mark_ms, self.mark_elapsed)
    }

    /// The abort guard of a wait: more time has passed than both phases.
    pub open spec fn over_total(self) -> bool {
        self.elapsed_time > self.class_time + self.rest_time
    }

    pub open spec fn end_time_for(self, wall: i64) -> i64 {
        clamp_i64(wall + self.class_time - self.elapsed_time)
    }

    pub open spec fn stopped(self) -> TickerView {
        TickerView { running: false, ..self }
    }

    pub open spec fn resumed(self) -> TickerView {
        TickerView { running: true, generation: next_generation(self.generation), ..self }
    }

    pub open spec fn initialized(self, now: u64) -> TickerView {
        TickerView { elapsed_time: 0, mark_ms: now, mark_elapsed: 0, ..self }
    }

    pub open spec fn restarted(self, now: u64) -> TickerView {
        self.resumed().initialized(now)
    }

    pub open spec fn with_elapsed(self, e: u64, now: u64) -> TickerView {
        TickerView { elapsed_time: e, mark_ms: now, mark_elapsed: e, ..self }
    }

    /// The state after a sleep slice ending at `now`: a stopped session
    /// keeps its elapsed time, a running one recomputes it.
    pub open spec fn sliced(self, now: u64) -> TickerView {
        if self.running {
            TickerView { elapsed_time: self.elapsed_at(now), ..self }
        } else {
            self
        }
    }

    /// Whether the slice ending at `now` cuts the current wait short.
    pub open spec fn interrupts(self, now: u64) -> bool {
        !self.running || self.sliced(now).over_total()
    }

    /// Step 6 of a round: a new class phase begins only if the session still
    /// runs and the class phase has fully elapsed.
    pub open spec fn after_rest(self, now: u64) -> TickerView {
        if self.running && self.elapsed_time >= self.class_time {
            self.initialized(now)
        } else {
            self
        }
    }
}

/// One step of the session loop: from ticker `t0` and loop `l0` at the
/// monotonic reading `now`, to `t1` and `l1`, asking for action `a`.
pub open spec fn step_ok(
    t0: TickerView,
    l0: SessionLoop,
    now: u64,
    t1: TickerView,
    l1: SessionLoop,
    a: Action,
) -> bool {
    if l0.generation != t0.generation || l0.stage == Stage::Done {
        t1 == t0 && l1 == SessionLoop { stage: Stage::Done, ..l0 } && a == Action::Finish
    } else {
        l1.generation == l0.generation && match l0.stage {
            Stage::Begin => (exists|w: i64| t1 == TickerView { end_time: t0.end_time_for(w), ..t0 })
                && l1.stage == Stage::Top && a == Action::Proceed,
            Stage::Top => t1 == t0 && if t0.running {
                l1.stage == Stage::Check && a == Action::Play(Cue::ClassStart)
            } else {
                l1.stage == Stage::Done && a == Action::Finish
            },
            Stage::Check => t1 == t0 && if t0.elapsed_time < t0.class_time && t0.running {
                (l1.stage matches Stage::Alert { left } && ALERT_MIN * SLICES_PER_SEC <= left
                    <= ALERT_MAX * SLICES_PER_SEC && left % SLICES_PER_SEC == 0)
                    && a == Action::Sleep
            } else {
                l1.stage == Stage::RestStart && a == if t0.running {
                    Action::Play(Cue::Rest)
                } else {
                    Action::Proceed
                }
            },
            Stage::Alert { left } => t1 == t0.sliced(now) && if t0.interrupts(now) {
                l1.stage == Stage::Check && a == Action::Proceed
            } else if left <= 1 {
                l1.stage == Stage::AfterAlert && a == Action::Play(Cue::Attention)
            } else {
                l1.stage == (Stage::Alert { left: (left - 1) as u64 }) && a == Action::Sleep
            },
            Stage::AfterAlert => t1 == t0 && (l1.stage matches Stage::Study { left } && STUDY_MIN
                * SLICES_PER_SEC <= left <= STUDY_MAX * SLICES_PER_SEC && left % SLICES_PER_SEC == 0) && a == Action::Sleep,
            Stage::Study { left } => t1 == t0.sliced(now) && if t0.interrupts(now) {
                l1.stage == Stage::Check && a == Action::Proceed
            } else if left <= 1 {
                l1.stage == Stage::Check && a == Action::Play(Cue::ResumeStudy)
            } else {
                l1.stage == (Stage::Study { left: (left - 1) as u64 }) && a == Action::Sleep
            },
            Stage::RestStart => if t0.running && slices_of(t0.rest_time) > 0 {
                t1 == t0 && l1.stage == (Stage::Rest { left: slices_of(t0.rest_time) }) && a
                    == Action::Sleep
            } else {
                t1 == t0.after_rest(now) && l1.stage == Stage::Top && a == Action::Proceed
            },
            Stage::Rest { left } => if t0.interrupts(now) || left <= 1 {
                t1 == t0.sliced(now).after_rest(now) && l1.stage == Stage::Top && a
                    == Action::Proceed
            } else {
                t1 == t0.sliced(now) && l1.stage == (Stage::Rest { left: (left - 1) as u64 }) && a
                    == Action::Sleep
            },
            Stage::Done => false,
        }
    }
}

impl View for ClassTicker {
    type V = TickerView;

    closed spec fn view(&self) -> TickerView {
        TickerView {
            running: self.running,
            class_time: self.class_time,
            rest_time: self.rest_time,
            elapsed_time: self.clock.elapsed,
            end_time: self.end_time,
            mark_ms: self.clock.mark_ms,
            mark_elapsed: self.clock.mark_elapsed,
            generation: self.generation,
        }
    }
}

impl ClassTicker {
    /// The elapsed time never drifts from the start marker.
    #[verifier::type_invariant]
    spec fn elapsed_is_derived(self) -> bool {
        marker_derived(self.clock.elapsed, self.clock.mark_ms, self.clock.mark_elapsed)
    }

    /// A ticker with the default class and rest lengths, running, with no
    /// time elapsed and the start marker at its own monotonic origin.
    pub fn new() -> (r: ClassTicker)
        ensures
            r@.running,
            r@.class_time == DEFAULT_CLASS_TIME,
            r@.rest_time == DEFAULT_REST_TIME,
            r@.elapsed_time == 0,
            r@.start_marker() == 0,
            r@.generation == 0,
            r@.derived(),
    {
        proof {
            lemma_fresh_marker(0, 0);
        }
        ClassTicker {
            running: true,
            class_time: DEFAULT_CLASS_TIME,
            rest_time: DEFAULT_REST_TIME,
            end_time: wall_clock_secs(),
            origin: monotonic_now(),
            clock: Clock { elapsed: 0, mark_ms: 0, mark_elapsed: 0 },
            generation: 0,
        }
    }

    /// Whether the session loop should go on.
    pub fn is_running(&self) -> (r: bool)
        ensures
            r == self@.running,
    {
        self.running
    }

    /// Length of the class phase, in seconds.
    pub fn class_time(&self) -> (r: u64)
        ensures
            r == self@.class_time,
    {
        self.class_time
    }

    /// Length of the rest phase, in seconds.
    pub fn rest_time(&self) -> (r: u64)
        ensures
            r == self@.rest_time,
    {
        self.rest_time
    }

    /// Seconds since the current class phase began.
    pub fn elapsed_time(&self) -> (r: u64)
        ensures
            r == self@.elapsed_time,
    {
        self.clock.elapsed
    }

    /// Wall-clock end of the class phase (Unix seconds), for display.
    pub fn end_time(&self) -> (r: i64)
        ensures
            r == self@.end_time,
    {
        self.end_time
    }

    /// Sets the length of the class phase; a running loop sees it at its
    /// next check.
    pub fn set_class_time(&mut self, secs: u64)
        ensures
            final(self)@ == (TickerView { class_time: secs, ..old(self)@ }),
    {
        proof {
            use_type_invariant(&*self);
        }
        self.class_time = secs;
    }

    /// Sets the length of the rest phase; a running loop sees it at its
    /// next check.
    pub fn set_rest_time(&mut self, secs: u64)
        ensures
            final(self)@ == (TickerView { rest_time: secs, ..old(self)@ }),
    {
        proof {
            use_type_invariant(&*self);
        }
        self.rest_time = secs;
    }

    /// The monotonic clock now, in milliseconds since this ticker's origin.
    pub fn now_ms(&self) -> (r: u64) {
        millis_since(&self.origin)
    }

    /// Whole seconds from the start marker to the reading `now`.
    pub fn elapsed_reading(&self, now: u64) -> (r: u64)
        ensures
            r == self@.elapsed_at(now),
    {
        let since: u64 = if now >= self.clock.mark_ms {
            (now - self.clock.mark_ms) / 1000
        } else {
            0
        };
        if since > u64::MAX - self.clock.mark_elapsed {
            u64::MAX
        } else {
            self.clock.mark_elapsed + since
        }
    }

    /// The wall-clock end of the class phase when the wall clock reads
    /// `wall`: the remaining class time after `wall`, clamped to `i64`.
    pub fn end_time_from(&self, wall: i64) -> (r: i64)
        ensures
            r == self@.end_time_for(wall),
    {
        let v: i128 = wall as i128 + self.class_time as i128 - self.clock.elapsed as i128;
        if v > i64::MAX as i128 {
            i64::MAX
        } else if v < i64::MIN as i128 {
            i64::MIN
        } else {
            v as i64
        }
    }

    /// Begins a new class phase at the reading `now`: no time elapsed.
    pub fn init_tick_at(&mut self, now: u64)
        ensures
            final(self)@ == old(self)@.initialized(now),
    {
        proof {
            lemma_fresh_marker(0, now);
        }
        self.clock = Clock { elapsed: 0, mark_ms: now, mark_elapsed: 0 };
    }

    /// Begins a new class phase now.
    pub fn init_tick(&mut self)
        ensures
            exists|now: u64| final(self)@ == old(self)@.initialized(now),
    {
        let now = millis_since(&self.origin);
        self.init_tick_at(now);
    }

    /// Starts a session at the reading `now`: running, with a fresh class
    /// phase. Earlier loops are superseded; the returned loop is the live one.
    pub fn start_tick_at(&mut self, now: u64) -> (lp: SessionLoop)
        ensures
            final(self)@ == old(self)@.restarted(now),
            lp == (SessionLoop { generation: final(self)@.generation, stage: Stage::Begin }),
    {
        proof {
            use_type_invariant(&*self);
        }
        self.running = true;
        self.generation = if self.generation == u64::MAX {
            0
        } else {
            self.generation + 1
        };
        self.init_tick_at(now);
        SessionLoop { generation: self.generation, stage: Stage::Begin }
    }

    /// Starts a session now.
    pub fn start_tick(&mut self) -> (lp: SessionLoop)
        ensures
            exists|now: u64| final(self)@ == old(self)@.restarted(now),
            lp == (SessionLoop { generation: final(self)@.generation, stage: Stage::Begin }),
    {
        let now = millis_since(&self.origin);
        self.start_tick_at(now)
    }

    /// Resumes the session where it stood: elapsed time and start marker are
    /// kept. Earlier loops are superseded; the returned loop is the live one.
    pub fn resume_tick(&mut self) -> (lp: SessionLoop)
        ensures
            final(self)@ == old(self)@.resumed(),
            lp == (SessionLoop { generation: final(self)@.generation, stage: Stage::Begin }),
    {
        proof {
            use_type_invariant(&*self);
        }
        self.running = true;
        self.generation = if self.generation == u64::MAX {
            0
        } else {
            self.generation + 1
        };
        SessionLoop { generation: self.generation, stage: Stage::Begin }
    }

    /// Asks the session loop to stop; elapsed time and start marker are kept
    /// so that a later resume continues from them.
    pub fn stop(&mut self)
        ensures
            final(self)@ == old(self)@.stopped(),
    {
        proof {
            use_type_invariant(&*self);
        }
        self.running = false;
    }

    /// Forces the elapsed time to `elapsed_time` seconds at the reading
    /// `now`, moving the start marker back to match.
    pub fn set_elapsed_at(&mut self, elapsed_time: u64, now: u64)
        ensures
            final(self)@ == old(self)@.with_elapsed(elapsed_time, now),
    {
        proof {
            lemma_fresh_marker(elapsed_time, now);
        }
        self.clock = Clock { elapsed: elapsed_time, mark_ms: now, mark_elapsed: elapsed_time };
    }

    /// Forces the elapsed time to `elapsed_time` seconds now.
    pub fn set_elapsed(&mut self, elapsed_time: u64)
        ensures
            exists|now: u64| final(self)@ == old(self)@.with_elapsed(elapsed_time, now),
    {
        let now = millis_since(&self.origin);
        self.set_elapsed_at(elapsed_time, now);
    }

    /// Ends a sleep slice at the reading `now`; returns whether the wait is
    /// cut short.
    fn slice(&mut self, now: u64) -> (interrupted: bool)
        ensures
            final(self)@ == old(self)@.sliced(now),
            interrupted == old(self)@.interrupts(now),
    {
        proof {
            use_type_invariant(&*self);
        }
        if !self.running {
            return true;
        }
        let e = self.elapsed_reading(now);
        proof {
            lemma_reread_marker(self.clock.mark_ms, self.clock.mark_elapsed, now);
        }
        self.clock = Clock { elapsed: e, ..self.clock };
        e > self.class_time && e - self.class_time > self.rest_time
    }

    /// Ends a rest phase at the reading `now`.
    fn finish_rest(&mut self, now: u64)
        ensures
            final(self)@ == old(self)@.after_rest(now),
    {
        if self.running && self.clock.elapsed >= self.class_time {
            self.init_tick_at(now);
        }
    }

    /// One step of the session loop `lp` at the monotonic reading `now`.
    pub fn advance_at(&mut self, lp: &mut SessionLoop, now: u64) -> (a: Action)
        ensures
            step_ok(old(self)@, *old(lp), now, final(self)@, *final(lp), a),
    {
        proof {
            use_type_invariant(&*self);
        }
        let ghost t0 = self@;
        if lp.generation != self.generation {
            lp.stage = Stage::Done;
            return Action::Finish;
        }
        match lp.stage {
            Stage::Done => Action::Finish,
            Stage::Begin => {
                let w = wall_clock_secs();
                self.end_time = self.end_time_from(w);
                lp.stage = Stage::Top;
                assert(self@ == (TickerView { end_time: t0.end_time_for(w), ..t0 }));
                Action::Proceed
            },
            Stage::Top => {
                if self.running {
                    lp.stage = Stage::Check;
                    Action::Play(Cue::ClassStart)
                } else {
                    lp.stage = Stage::Done;
                    Action::Finish
                }
            },
            Stage::Check => {
                if self.clock.elapsed < self.class_time && self.running {
                    let secs = rand_sleep(ALERT_MIN, ALERT_MAX);
                    lp.stage = Stage::Alert { left: secs * SLICES_PER_SEC };
                    Action::Sleep
                } else {
                    lp.stage = Stage::RestStart;
                    if self.running {
                        Action::Play(Cue::Rest)
                    } else {
                        Action::Proceed
                    }
                }
            },
            Stage::Alert { left } => {
                if self.slice(now) {
                    lp.stage = Stage::Check;
                    Action::Proceed
                } else if left <= 1 {
                    lp.stage = Stage::AfterAlert;
                    Action::Play(Cue::Attention)
                } else {
                    lp.stage = Stage::Alert { left: left - 1 };
                    Action::Sleep
                }
            },
            Stage::AfterAlert => {
                let secs = rand_sleep(STUDY_MIN, STUDY_MAX);
                lp.stage = Stage::Study { left: secs * SLICES_PER_SEC };
                Action::Sleep
            },
            Stage::Study { left } => {
                if self.slice(now) {
                    lp.stage = Stage::Check;
                    Action::Proceed
                } else if left <= 1 {
                    lp.stage = Stage::Check;
                    Action::Play(Cue::ResumeStudy)
                } else {
                    lp.stage = Stage::Study { left: left - 1 };
                    Action::Sleep
                }
            },
            Stage::RestStart => {
                let n: u64 = if self.rest_time > u64::MAX / SLICES_PER_SEC {
                    u64::MAX
                } else {
                    self.rest_time * SLICES_PER_SEC
                };
                if self.running && n > 0 {
                    lp.stage = Stage::Rest { left: n };
                    Action::Sleep
                } else {
                    self.finish_rest(now);
                    lp.stage = Stage::Top;
                    Action::Proceed
                }
            },
            Stage::Rest { left } => {
                let interrupted = self.slice(now);
                if interrupted || left <= 1 {
                    self.finish_rest(now);
                    lp.stage = Stage::Top;
                    Action::Proceed
                } else {
                    lp.stage = Stage::Rest { left: left - 1 };
                    Action::Sleep
                }
            },
        }
    }

    /// One step of the session loop `lp` at the monotonic clock's reading now.
    pub fn advance(&mut self, lp: &mut SessionLoop) -> (a: Action)
        ensures
            exists|now: u64| step_ok(old(self)@, *old(lp), now, final(self)@, *final(lp), a),
    {
        let now = millis_since(&self.origin);
        self.advance_at(lp, now)
    }
}

} // verus!
