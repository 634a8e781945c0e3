use strife::frame_stats::{FrameStats, SECOND_NANOS};

const MS: u64 = 1_000_000;

#[test]
fn frames_are_counted_within_a_second() {
    let mut stats = FrameStats::new(0);
    stats.update_fps(16 * MS);
    stats.update_fps(50 * MS);
    assert_eq!(stats.frames_count, 2);
    assert_eq!(stats.max_frame_time_for_second, 34 * MS);
    assert_eq!(stats.last_frame_time, 50 * MS);
    assert_eq!(stats.fps_count, 0);
    assert_eq!(stats.last_fps_check_time, 0);
}

#[test]
fn a_full_second_becomes_the_rate() {
    let mut stats = FrameStats::new(0);
    stats.update_fps(400 * MS);
    stats.update_fps(800 * MS);
    stats.update_fps(SECOND_NANOS);
    assert_eq!(stats.frames_count, 3);
    stats.update_fps(1500 * MS);
    assert_eq!(stats.fps_count, 4);
    assert_eq!(stats.frames_count, 0);
    assert_eq!(stats.max_frame_time_for_second, 0);
    assert_eq!(stats.last_fps_check_time, 1500 * MS);
    assert_eq!(stats.last_frame_time, 1500 * MS);
}

#[test]
fn clock_going_back_counts_as_no_time() {
    let mut stats = FrameStats::new(10 * SECOND_NANOS);
    stats.update_fps(5 * SECOND_NANOS);
    assert_eq!(stats.frames_count, 1);
    assert_eq!(stats.max_frame_time_for_second, 0);
    assert_eq!(stats.last_frame_time, 5 * SECOND_NANOS);
}
