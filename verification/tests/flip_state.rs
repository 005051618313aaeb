use ratatui_flip_panel::{Duration, FlipState};

#[test]
fn state_starts_on_front() {
    let s = FlipState::default();
    assert!(!s.showing_back());
    assert!(!s.is_animating());
}

#[test]
fn flip_during_animation_is_noop() {
    let mut s = FlipState::new(Duration::from_secs(10));
    assert!(s.flip());
    assert!(!s.flip(), "second flip during animation must be a no-op");
}

#[test]
fn set_showing_back_skips_animation() {
    let mut s = FlipState::default();
    s.set_showing_back(true);
    assert!(s.showing_back());
    assert!(!s.is_animating());
}

#[test]
fn flip_starts_animation_and_swaps_after_duration() {
    let mut s = FlipState::new(Duration::from_millis(1));
    assert!(s.flip());
    let begun = std::time::Instant::now();
    while begun.elapsed() < std::time::Duration::from_millis(5) {}
    assert!(s.tick());
    assert!(s.showing_back());
    assert!(!s.is_animating());
}

#[test]
fn default_lasts_three_hundred_millis() {
    let s = FlipState::default();
    assert_eq!(s.duration(), Duration::from_millis(300));
    assert_eq!(s.duration().as_nanos(), 300_000_000);
}

#[test]
fn set_showing_back_cancels_a_running_flip() {
    let mut s = FlipState::new(Duration::from_secs(10));
    assert!(s.flip());
    s.set_showing_back(false);
    assert!(!s.is_animating());
    assert!(!s.showing_back());
    assert_eq!(s.next_tick_in(), None);
}

#[test]
fn idle_state_reads_no_clock() {
    let mut s = FlipState::new(Duration::from_millis(5));
    assert_eq!(s.elapsed(), None);
    assert_eq!(s.next_tick_in(), None);
    assert!(!s.is_in_visual_window());
    assert!(!s.tick());
    assert!(!s.showing_back());
}

#[test]
fn long_flip_is_in_its_window_right_after_starting() {
    let mut s = FlipState::new(Duration::from_secs(10));
    assert!(s.flip());
    assert!(s.is_in_visual_window());
    assert!(s.elapsed().is_some());
    let delay = s.next_tick_in().unwrap();
    assert!(delay.as_nanos() <= 33_000_000);
    assert!(!s.tick());
    assert!(s.is_animating());
    assert!(!s.showing_back());
}

#[test]
fn zero_length_flip_completes_on_the_first_tick() {
    let mut s = FlipState::new(Duration::from_nanos(0));
    assert!(s.flip());
    assert!(!s.is_in_visual_window());
    assert_eq!(s.next_tick_in(), Some(Duration::from_nanos(0)));
    assert!(s.tick());
    assert!(s.showing_back());
}

#[test]
fn face_swaps_at_the_midpoint() {
    let mut s = FlipState::new(Duration::from_millis(300));
    assert!(!s.showing_back_at(Duration::from_millis(200)));
    assert!(s.flip());
    assert!(!s.showing_back_at(Duration::from_nanos(0)));
    assert!(!s.showing_back_at(Duration::from_nanos(149_999_999)));
    assert!(s.showing_back_at(Duration::from_millis(150)));
    assert!(s.showing_back_at(Duration::from_millis(400)));
}

#[test]
fn midpoint_is_counted_in_whole_microseconds() {
    let mut s = FlipState::new(Duration::from_nanos(1_999));
    assert!(s.flip());
    assert!(!s.showing_back_at(Duration::from_nanos(999)));
    assert!(s.showing_back_at(Duration::from_nanos(1_000)));
    let mut t = FlipState::new(Duration::from_nanos(500));
    assert!(t.flip());
    assert!(!t.showing_back_at(Duration::from_nanos(999)));
    assert!(t.showing_back_at(Duration::from_nanos(1_000)));
}

#[test]
fn next_tick_counts_frames_then_remaining_then_zero() {
    let mut s = FlipState::new(Duration::from_millis(300));
    assert_eq!(s.next_tick_in_at(Duration::from_millis(10)), None);
    assert!(s.flip());
    assert_eq!(s.next_tick_in_at(Duration::from_millis(100)), Some(Duration::from_millis(33)));
    assert_eq!(s.next_tick_in_at(Duration::from_millis(290)), Some(Duration::from_millis(10)));
    assert_eq!(s.next_tick_in_at(Duration::from_millis(300)), Some(Duration::from_nanos(0)));
    assert_eq!(s.next_tick_in_at(Duration::from_secs(2)), Some(Duration::from_nanos(0)));
}

#[test]
fn visual_window_ends_at_the_duration() {
    let mut s = FlipState::new(Duration::from_millis(300));
    assert!(!s.is_in_visual_window_at(Duration::from_millis(1)));
    assert!(s.flip());
    assert!(s.is_in_visual_window_at(Duration::from_nanos(299_999_999)));
    assert!(!s.is_in_visual_window_at(Duration::from_millis(300)));
}

#[test]
fn tick_finalises_only_after_the_duration() {
    let mut s = FlipState::new(Duration::from_millis(300));
    assert!(!s.tick_at(Duration::from_secs(1)));
    assert!(!s.showing_back());
    assert!(s.flip());
    assert!(!s.tick_at(Duration::from_millis(299)));
    assert!(s.is_animating());
    assert!(!s.showing_back());
    assert!(s.tick_at(Duration::from_millis(300)));
    assert!(!s.is_animating());
    assert!(s.showing_back());
    assert!(!s.tick_at(Duration::from_secs(1)));
    assert!(s.showing_back());
}

#[test]
fn two_full_flips_return_to_the_front() {
    let mut s = FlipState::new(Duration::from_millis(300));
    assert!(s.flip());
    assert!(s.tick_at(Duration::from_millis(300)));
    assert!(s.flip());
    assert!(s.tick_at(Duration::from_millis(301)));
    assert!(!s.showing_back());
    assert!(!s.is_animating());
}

#[test]
fn clone_keeps_the_flip_in_flight() {
    let mut s = FlipState::new(Duration::from_secs(10));
    assert!(s.flip());
    let c = s.clone();
    assert!(c.is_animating());
    assert_eq!(c.duration(), s.duration());
}

#[test]
fn zero_delay_comes_with_finalisation() {
    let mut s = FlipState::new(Duration::from_millis(300));
    assert!(s.flip());
    let before = s.next_tick_in_at(Duration::from_millis(299)).unwrap();
    assert!(before.as_nanos() > 0);
    assert!(299_000_000 + before.as_nanos() <= 300_000_000);
    assert!(!s.clone().tick_at(Duration::from_millis(299)));
    assert_eq!(s.next_tick_in_at(Duration::from_millis(300)), Some(Duration::from_nanos(0)));
    assert!(s.tick_at(Duration::from_millis(300)));
    assert_eq!(s.next_tick_in_at(Duration::from_millis(300)), None);
}

#[test]
fn finalising_keeps_the_visible_face() {
    let mut s = FlipState::new(Duration::from_millis(300));
    s.set_showing_back(true);
    assert!(s.flip());
    let shown = s.showing_back_at(Duration::from_millis(300));
    assert!(!shown);
    assert!(s.tick_at(Duration::from_millis(300)));
    assert_eq!(s.showing_back_at(Duration::from_secs(5)), shown);
    assert_eq!(s.showing_back(), shown);
}
