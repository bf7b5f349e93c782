use klystron::target_time::{slack_micros, TargetTime};

#[test]
fn target_time_converts_rate_to_budget() {
    let t = TargetTime::new(60);
    assert_eq!(t.target_frame_time_micros(), 16666);
    let t = TargetTime::new(1_000_000);
    assert_eq!(t.target_frame_time_micros(), 1);
}

#[test]
fn default_target_is_sixty_frames_per_second() {
    let t = TargetTime::default();
    assert_eq!(t.target_frame_time_micros(), 16666);
}

#[test]
fn start_frame_keeps_the_budget() {
    let mut t = TargetTime::new(30);
    t.start_frame();
    assert_eq!(t.target_frame_time_micros(), 33333);
}

#[test]
fn slack_is_the_unspent_budget() {
    assert_eq!(slack_micros(16666, 4000), 12666);
    assert_eq!(slack_micros(16666, 16666), 0);
    assert_eq!(slack_micros(16666, 20000), 0);
    assert_eq!(slack_micros(0, 0), 0);
}
