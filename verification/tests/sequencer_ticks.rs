use presentation::sequencer::{status_alpha, title_alpha, Sequencer, ALPHA_FULL};

#[test]
fn new_sequencer_is_all_clear() {
    let s = Sequencer::new();
    assert!(!s.started_playing);
    assert!(!s.finish_playing);
    assert!(!s.terminated);
}

#[test]
fn title_alpha_zero_before_wait() {
    assert_eq!(title_alpha(0), 0);
    assert_eq!(title_alpha(1000), 0);
    assert_eq!(title_alpha(2499), 0);
    assert_eq!(title_alpha(2500), 0);
}

#[test]
fn title_alpha_ramps_one_per_millisecond() {
    assert_eq!(title_alpha(2501), 1);
    assert_eq!(title_alpha(3000), 500);
    assert_eq!(title_alpha(3499), 999);
    assert_eq!(title_alpha(3500), 1000);
}

#[test]
fn title_alpha_saturates_at_full() {
    assert_eq!(title_alpha(3501), ALPHA_FULL);
    assert_eq!(title_alpha(9999), ALPHA_FULL);
    assert_eq!(title_alpha(20000), ALPHA_FULL);
}

#[test]
fn status_alpha_zero_while_flag_unset() {
    assert_eq!(status_alpha(0, false), 0);
    assert_eq!(status_alpha(3000, false), 0);
    assert_eq!(status_alpha(11000, false), 0);
    assert_eq!(status_alpha(20000, false), 0);
}

#[test]
fn status_alpha_ramps_after_status_threshold() {
    assert_eq!(status_alpha(3000, true), 0);
    assert_eq!(status_alpha(10500, true), 0);
    assert_eq!(status_alpha(10501, true), 1);
    assert_eq!(status_alpha(11000, true), 500);
    assert_eq!(status_alpha(11500, true), 1000);
    assert_eq!(status_alpha(12000, true), ALPHA_FULL);
}

#[test]
fn sound_start_command_fires_exactly_once() {
    let mut s = Sequencer::new();
    let out = s.tick(2000, false).unwrap();
    assert!(!out.start_sound);
    assert!(!s.started_playing);
    let out = s.tick(2600, false).unwrap();
    assert!(out.start_sound);
    assert!(s.started_playing);
    let out = s.tick(2700, false).unwrap();
    assert!(!out.start_sound);
    let out = s.tick(5000, false).unwrap();
    assert!(!out.start_sound);
}

#[test]
fn flag_ignores_empty_sink_before_start() {
    let mut s = Sequencer::new();
    let out = s.tick(1000, true).unwrap();
    assert!(!s.finish_playing);
    assert!(!s.started_playing);
    assert_eq!(out.status_alpha, 0);
}

#[test]
fn flag_flips_once_sink_reports_empty_and_stays() {
    let mut s = Sequencer::new();
    s.tick(3000, false).unwrap();
    assert!(!s.finish_playing);
    s.tick(5000, true).unwrap();
    assert!(s.finish_playing);
    s.tick(6000, false).unwrap();
    assert!(s.finish_playing);
}

#[test]
fn exit_requested_at_total_duration_and_ticks_stop() {
    let mut s = Sequencer::new();
    let out = s.tick(19999, false).unwrap();
    assert!(!out.exit);
    assert!(!s.terminated);
    let out = s.tick(20000, false).unwrap();
    assert!(out.exit);
    assert!(s.terminated);
    let before = s;
    assert!(s.tick(20001, true).is_none());
    assert_eq!(s, before);
}

#[test]
fn scenario_full_run() {
    let mut s = Sequencer::new();

    let out = s.tick(0, false).unwrap();
    assert_eq!(out.title_alpha, 0);
    assert_eq!(out.status_alpha, 0);
    assert!(!out.start_sound);
    assert!(!out.exit);
    assert!(!s.finish_playing);

    let out = s.tick(3000, false).unwrap();
    assert_eq!(out.title_alpha, 500);
    assert_eq!(out.status_alpha, 0);
    assert!(out.start_sound);
    assert!(!out.exit);

    let out = s.tick(11000, true).unwrap();
    assert!(s.finish_playing);
    assert_eq!(out.title_alpha, 1000);
    assert_eq!(out.status_alpha, 500);

    let out = s.tick(12000, true).unwrap();
    assert_eq!(out.title_alpha, 1000);
    assert_eq!(out.status_alpha, 1000);
    assert!(!out.start_sound);
    assert!(!out.exit);

    let out = s.tick(20000, true).unwrap();
    assert!(out.exit);
    assert!(s.tick(20100, true).is_none());
}
