use class_ticker::session::{DEFAULT_CLASS_TIME, DEFAULT_REST_TIME};
use class_ticker::{rand_sleep, Action, ClassTicker, Cue, SessionLoop, Stage};

/// Steps the loop until it asks for something other than `Proceed`.
fn settle(t: &mut ClassTicker, lp: &mut SessionLoop, now: u64) -> Action {
    let mut a = t.advance_at(lp, now);
    let mut guard = 0;
    while a == Action::Proceed && guard < 100 {
        a = t.advance_at(lp, now);
        guard += 1;
    }
    a
}

#[test]
fn new_ticker_has_defaults() {
    let t = ClassTicker::new();
    assert_eq!(t.class_time(), 5400);
    assert_eq!(t.rest_time(), 1200);
    assert_eq!(DEFAULT_CLASS_TIME, 5400);
    assert_eq!(DEFAULT_REST_TIME, 1200);
    assert_eq!(t.elapsed_time(), 0);
    assert!(t.is_running());
}

#[test]
fn set_elapsed_reads_back_exactly() {
    let mut t = ClassTicker::new();
    for e in [0u64, 1, 59, 2700, 5400] {
        t.set_elapsed_at(e, 10_000);
        assert_eq!(t.elapsed_time(), e);
        assert_eq!(t.elapsed_reading(10_000), e);
        assert_eq!(t.elapsed_reading(10_099), e);
        assert_eq!(t.elapsed_reading(11_000), e + 1);
    }
    t.set_elapsed(1234);
    assert_eq!(t.elapsed_time(), 1234);
    assert!(t.is_running());
}

#[test]
fn set_elapsed_keeps_running_flag() {
    let mut t = ClassTicker::new();
    t.stop();
    t.set_elapsed_at(30, 0);
    assert!(!t.is_running());
}

#[test]
fn stop_during_alert_wait_leaves_alert_loop_at_next_slice() {
    let mut t = ClassTicker::new();
    let mut lp = t.start_tick_at(0);
    assert_eq!(settle(&mut t, &mut lp, 0), Action::Play(Cue::ClassStart));
    assert_eq!(t.advance_at(&mut lp, 0), Action::Sleep);
    assert!(matches!(lp.stage, Stage::Alert { .. }));
    assert_eq!(t.advance_at(&mut lp, 100), Action::Sleep);
    t.stop();
    assert_eq!(t.advance_at(&mut lp, 200), Action::Proceed);
    assert_eq!(lp.stage, Stage::Check);
    assert_eq!(t.advance_at(&mut lp, 200), Action::Proceed);
    assert_eq!(lp.stage, Stage::RestStart);
    assert_eq!(settle(&mut t, &mut lp, 200), Action::Finish);
    assert_eq!(lp.stage, Stage::Done);
}

#[test]
fn stop_during_study_wait_skips_resume_cue() {
    let mut t = ClassTicker::new();
    let mut lp = t.start_tick_at(0);
    t.set_elapsed_at(10, 0);
    lp.stage = Stage::Study { left: 50 };
    t.stop();
    assert_eq!(t.advance_at(&mut lp, 5_000), Action::Proceed);
    assert_eq!(lp.stage, Stage::Check);
    assert_eq!(t.elapsed_time(), 10);
}

#[test]
fn resume_keeps_elapsed_start_resets_it() {
    let mut t = ClassTicker::new();
    let mut lp = t.start_tick_at(0);
    t.set_elapsed_at(1000, 500);
    assert_eq!(settle(&mut t, &mut lp, 500), Action::Play(Cue::ClassStart));
    t.stop();
    for now in [600u64, 700, 800] {
        t.advance_at(&mut lp, now);
    }
    assert_eq!(t.elapsed_time(), 1000);
    let lp2 = t.resume_tick();
    assert!(t.is_running());
    assert_eq!(t.elapsed_time(), 1000);
    assert_eq!(lp2.stage, Stage::Begin);
    t.stop();
    let _lp3 = t.start_tick_at(900);
    assert_eq!(t.elapsed_time(), 0);
    assert!(t.is_running());
}

#[test]
fn shortened_class_goes_to_rest_at_next_check() {
    let mut t = ClassTicker::new();
    let mut lp = t.start_tick_at(0);
    t.set_elapsed_at(100, 0);
    assert_eq!(settle(&mut t, &mut lp, 0), Action::Play(Cue::ClassStart));
    t.set_class_time(50);
    assert_eq!(t.advance_at(&mut lp, 0), Action::Play(Cue::Rest));
    assert_eq!(lp.stage, Stage::RestStart);
    assert_eq!(t.advance_at(&mut lp, 0), Action::Sleep);
    assert_eq!(lp.stage, Stage::Rest { left: 12_000 });
}

#[test]
fn rand_sleep_stays_in_bounds() {
    let mut seen_low = u64::MAX;
    let mut seen_high = 0;
    for _ in 0..500 {
        let d = rand_sleep(180, 300);
        assert!((180..=300).contains(&d));
        seen_low = seen_low.min(d);
        seen_high = seen_high.max(d);
        let s = rand_sleep(10, 15);
        assert!((10..=15).contains(&s));
    }
    assert!(seen_low < seen_high);
}

#[test]
fn rand_sleep_degenerate_is_zero() {
    assert_eq!(rand_sleep(300, 180), 0);
    assert_eq!(rand_sleep(5, 5), 0);
    assert_eq!(rand_sleep(0, 0), 0);
}

#[test]
fn short_session_starts_a_new_class_phase() {
    let mut t = ClassTicker::new();
    t.set_class_time(2);
    t.set_rest_time(1);
    let mut lp = t.start_tick_at(0);
    let mut now: u64 = 0;
    let mut reached = false;
    let mut reset = false;
    let mut cues = Vec::new();
    while now <= 5_000 && !reset {
        match t.advance_at(&mut lp, now) {
            Action::Sleep => now += 100,
            Action::Play(c) => cues.push(c),
            Action::Proceed => {}
            Action::Finish => break,
        }
        if t.elapsed_time() >= 2 {
            reached = true;
        }
        if reached && t.elapsed_time() == 0 {
            reset = true;
        }
    }
    assert!(reached);
    assert!(reset);
    assert!(now <= 4_200);
    assert_eq!(cues, vec![Cue::ClassStart, Cue::Rest]);
    assert_eq!(lp.stage, Stage::Top);
    assert!(t.is_running());
    assert_eq!(settle(&mut t, &mut lp, now), Action::Play(Cue::ClassStart));
}

#[test]
fn full_alert_round_plays_cues_in_order() {
    let mut t = ClassTicker::new();
    let mut lp = t.start_tick_at(0);
    let mut now: u64 = 0;
    let mut cues = Vec::new();
    while cues.len() < 3 {
        match t.advance_at(&mut lp, now) {
            Action::Sleep => now += 100,
            Action::Play(c) => cues.push(c),
            Action::Proceed => {}
            Action::Finish => break,
        }
    }
    assert_eq!(cues, vec![Cue::ClassStart, Cue::Attention, Cue::ResumeStudy]);
    assert!((190_000..=315_000).contains(&now));
    assert_eq!(lp.stage, Stage::Check);
    assert_eq!(t.elapsed_time(), now / 1000);
}

#[test]
fn rest_stopped_keeps_elapsed() {
    let mut t = ClassTicker::new();
    let mut lp = t.start_tick_at(0);
    t.set_class_time(1);
    t.set_rest_time(100);
    t.set_elapsed_at(5, 0);
    lp.stage = Stage::Rest { left: 20 };
    t.stop();
    assert_eq!(t.advance_at(&mut lp, 700), Action::Proceed);
    assert_eq!(lp.stage, Stage::Top);
    assert_eq!(t.elapsed_time(), 5);
    assert_eq!(t.advance_at(&mut lp, 700), Action::Finish);
}

#[test]
fn zero_rest_skips_rest_wait() {
    let mut t = ClassTicker::new();
    let mut lp = t.start_tick_at(0);
    t.set_rest_time(0);
    t.set_class_time(3);
    t.set_elapsed_at(3, 0);
    lp.stage = Stage::RestStart;
    assert_eq!(t.advance_at(&mut lp, 4_000), Action::Proceed);
    assert_eq!(lp.stage, Stage::Top);
    assert_eq!(t.elapsed_time(), 0);
}

#[test]
fn later_start_supersedes_earlier_loop() {
    let mut t = ClassTicker::new();
    let mut old = t.start_tick_at(0);
    t.stop();
    let mut live = t.start_tick_at(10);
    assert_eq!(t.advance_at(&mut old, 20), Action::Finish);
    assert_eq!(old.stage, Stage::Done);
    assert_eq!(t.advance_at(&mut live, 20), Action::Proceed);
    assert_eq!(live.stage, Stage::Top);
}

#[test]
fn end_time_counts_remaining_class_time() {
    let mut t = ClassTicker::new();
    t.set_class_time(5400);
    t.set_elapsed_at(400, 0);
    assert_eq!(t.end_time_from(1_000), 6_000);
    t.set_elapsed_at(6000, 0);
    assert_eq!(t.end_time_from(1_000), 400);
    assert_eq!(t.end_time_from(i64::MAX), i64::MAX - 600);
    t.set_elapsed_at(400, 0);
    assert_eq!(t.end_time_from(i64::MAX), i64::MAX);
    t.set_elapsed_at(u64::MAX, 0);
    t.set_class_time(0);
    assert_eq!(t.end_time_from(i64::MIN), i64::MIN);
}

#[test]
fn begin_sets_end_time_from_wall_clock() {
    let mut t = ClassTicker::new();
    let mut lp = t.start_tick_at(0);
    t.set_elapsed_at(5_400 + 4_000_000_000, 0);
    assert_eq!(t.advance_at(&mut lp, 0), Action::Proceed);
    // the wall clock is past 2020-09-13 (1_600_000_000 Unix seconds)
    assert!(t.end_time() > 1_600_000_000 - 4_000_000_000);
    assert!(t.end_time() < 0);
}

#[test]
fn clock_reading_advances() {
    let t = ClassTicker::new();
    let start = std::time::Instant::now();
    while start.elapsed().as_millis() < 30 {}
    assert!(t.now_ms() >= 30);
}

#[test]
fn init_tick_resets_elapsed() {
    let mut t = ClassTicker::new();
    t.set_elapsed_at(77, 0);
    t.init_tick_at(5_000);
    assert_eq!(t.elapsed_time(), 0);
    assert_eq!(t.elapsed_reading(5_999), 0);
    assert_eq!(t.elapsed_reading(6_000), 1);
    t.set_elapsed_at(77, 0);
    t.init_tick();
    assert_eq!(t.elapsed_time(), 0);
}

#[test]
fn cue_files() {
    assert_eq!(Cue::ClassStart.file_name(), "class_work.mp3");
    assert_eq!(Cue::Attention.file_name(), "alert.mp3");
    assert_eq!(Cue::ResumeStudy.file_name(), "tick_study.mp3");
    assert_eq!(Cue::Rest.file_name(), "rest.mp3");
}
