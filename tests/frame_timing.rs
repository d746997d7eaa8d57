use minima::frame::{clamp_frame_dt, FrameClock, FramePacer, MAX_FRAME_DT_NANOS};

#[test]
fn five_second_stall_gives_a_tenth_of_a_second() {
    assert_eq!(clamp_frame_dt(5_000_000_000), 100_000_000);
    assert_eq!(MAX_FRAME_DT_NANOS, 100_000_000);
}

#[test]
fn short_frames_pass_unchanged() {
    assert_eq!(clamp_frame_dt(16_666_666), 16_666_666);
    assert_eq!(clamp_frame_dt(100_000_000), 100_000_000);
    assert_eq!(clamp_frame_dt(0), 0);
}

#[test]
fn clock_measures_from_the_last_frame() {
    let mut c = FrameClock::new(1_000);
    assert_eq!(c.tick(9_000), 8_000);
    assert_eq!(c.last_frame_nanos, 9_000);
    assert_eq!(c.tick(9_000 + 5_000_000_000), 100_000_000);
    assert_eq!(c.tick(10), 0);
    assert_eq!(c.last_frame_nanos, 10);
}

#[test]
fn pacer_at_120_fps() {
    let mut p = FramePacer::new(120, 0);
    assert_eq!(p.frame_nanos, 8_333_333);
    assert!(p.wake(0));
    assert_eq!(p.deadline(), 8_333_333);
    assert!(!p.wake(1_000));
    assert_eq!(p.deadline(), 8_333_333);
    assert!(p.frame_drawn(10_000_000));
    assert_eq!(p.deadline(), 18_333_333);
    assert!(!p.frame_drawn(10_000_001));
}

#[test]
fn pacer_deadline_saturates() {
    let mut p = FramePacer::new(1, u64::MAX - 1);
    assert!(p.wake(u64::MAX));
    assert_eq!(p.deadline(), u64::MAX);
}
