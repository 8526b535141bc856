use ds_transcriber::detector::DetectorState;

#[test]
fn first_silent_chunk_starts_the_timer() {
    assert_eq!(DetectorState::Active.observe(true, 750, 1000), Some(DetectorState::Silent(750)));
}

#[test]
fn loud_chunk_keeps_the_detector_active() {
    assert_eq!(DetectorState::Active.observe(false, 750, 1000), Some(DetectorState::Active));
}

#[test]
fn loud_chunk_clears_the_timer() {
    assert_eq!(DetectorState::Silent(100).observe(false, 200, 1000), Some(DetectorState::Active));
    assert_eq!(DetectorState::Silent(100).observe(false, 90_000, 1000), Some(DetectorState::Active));
}

#[test]
fn silence_within_the_pause_keeps_the_start() {
    assert_eq!(DetectorState::Silent(100).observe(true, 600, 1000), Some(DetectorState::Silent(100)));
    assert_eq!(DetectorState::Silent(100).observe(true, 100, 1000), Some(DetectorState::Silent(100)));
}

#[test]
fn silence_of_exactly_the_pause_does_not_end() {
    assert_eq!(DetectorState::Silent(100).observe(true, 1100, 1000), Some(DetectorState::Silent(100)));
}

#[test]
fn silence_longer_than_the_pause_ends() {
    assert_eq!(DetectorState::Silent(100).observe(true, 1101, 1000), None);
    assert_eq!(DetectorState::Silent(0).observe(true, u64::MAX, u32::MAX), None);
}

#[test]
fn pause_of_zero_ends_on_the_first_later_silent_chunk() {
    assert_eq!(DetectorState::Active.observe(true, 40, 0), Some(DetectorState::Silent(40)));
    assert_eq!(DetectorState::Silent(40).observe(true, 40, 0), Some(DetectorState::Silent(40)));
    assert_eq!(DetectorState::Silent(40).observe(true, 41, 0), None);
}

#[test]
fn clock_running_backwards_never_ends() {
    assert_eq!(DetectorState::Silent(5000).observe(true, 10, 1000), Some(DetectorState::Silent(5000)));
    assert_eq!(DetectorState::Silent(u64::MAX).observe(true, 0, 0), Some(DetectorState::Silent(u64::MAX)));
}
