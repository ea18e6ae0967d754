use input_method_service::{
    ChangeCause, CommitSerialTracker, KeyState, KeymapBlob, SurroundingTextState, TimeSource,
};

#[test]
fn serial_starts_at_zero() {
    let tracker = CommitSerialTracker::new();
    assert_eq!(tracker.value(), 0);
}

#[test]
fn serial_next_returns_current_then_advances() {
    let mut tracker = CommitSerialTracker::new();
    assert_eq!(tracker.next(), 0);
    assert_eq!(tracker.value(), 1);
}

#[test]
fn serial_sequence_matches_formula() {
    // The nth commit (counting from 1) carries (initial + n - 1) mod 2^32.
    let initial: u32 = 5;
    let mut tracker = CommitSerialTracker::starting_at(initial);
    for n in 1..=3u64 {
        let expected = ((initial as u64 + n - 1) % (1u64 << 32)) as u32;
        assert_eq!(tracker.next(), expected);
    }
}

#[test]
fn serial_wraps_at_max() {
    let mut tracker = CommitSerialTracker::starting_at(u32::MAX);
    assert_eq!(tracker.next(), u32::MAX);
    assert_eq!(tracker.value(), 0);
    assert_eq!(tracker.next(), 0);
    assert_eq!(tracker.value(), 1);
}

#[test]
fn timestamps_nondecreasing_within_epoch() {
    let mut time = TimeSource::new(100);
    let first = time.elapsed_ms(150);
    let second = time.elapsed_ms(170);
    let third = time.elapsed_ms(170);
    assert_eq!(first, 50);
    assert_eq!(second, 70);
    assert_eq!(third, 70);
    assert!(first <= second && second <= third);
}

#[test]
fn overflowing_reading_resets_epoch_to_zero() {
    let mut time = TimeSource::new(0);
    let beyond = u32::MAX as u64 + 1;
    assert_eq!(time.elapsed_ms(beyond), 0);
    // The overflowing reading became the new base.
    assert_eq!(time.elapsed_ms(beyond), 0);
    assert_eq!(time.elapsed_ms(beyond + 25), 25);
}

#[test]
fn backwards_reading_resets_epoch_to_zero() {
    let mut time = TimeSource::new(1_000);
    assert_eq!(time.elapsed_ms(400), 0);
    assert_eq!(time.elapsed_ms(450), 50);
}

#[test]
fn largest_elapsed_without_reset() {
    let mut time = TimeSource::new(7);
    assert_eq!(time.elapsed_ms(7 + u32::MAX as u64), u32::MAX);
    // Still the same epoch afterwards.
    assert_eq!(time.elapsed_ms(7), 0);
}

#[test]
fn keymap_reports_exact_size_and_contents() {
    let bytes: Vec<u8> = (0u8..12u8).collect();
    let blob = KeymapBlob::new(bytes.clone());
    assert_eq!(blob.size(), 12);
    assert_eq!(blob.as_bytes(), &bytes);
}

#[test]
fn empty_keymap_has_size_zero() {
    let blob = KeymapBlob::new(Vec::new());
    assert_eq!(blob.size(), 0);
    assert!(blob.as_bytes().is_empty());
}

#[test]
fn surrounding_text_cache_starts_inactive_and_empty() {
    let state = SurroundingTextState::default();
    assert_eq!(state.surrounding_text, String::new());
    assert_eq!(state.cursor, 0);
    assert_eq!(state.anchor, 0);
    assert_eq!(state.content_hint, 0);
    assert_eq!(state.content_purpose, 0);
    assert_eq!(state.text_change_cause, ChangeCause::InputMethod);
    assert!(!state.active);
}

#[test]
fn key_state_wire_codes() {
    assert_eq!(KeyState::Pressed.code(), 1);
    assert_eq!(KeyState::Released.code(), 0);
}
