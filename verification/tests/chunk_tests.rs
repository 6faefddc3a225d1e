use bump_prepare::chunk::AllocationRequest;
use bump_prepare::chunk::ChunkState;
use bump_prepare::chunk::InvariantViolation;
use bump_prepare::chunk::align_down;
use bump_prepare::chunk::align_up;
use bump_prepare::chunk::is_power_of_two;

#[test]
fn power_of_two_accepts_powers() {
    assert!(is_power_of_two(1));
    assert!(is_power_of_two(2));
    assert!(is_power_of_two(4));
    assert!(is_power_of_two(64));
    assert!(is_power_of_two(1usize << 63));
}

#[test]
fn power_of_two_rejects_others() {
    assert!(!is_power_of_two(0));
    assert!(!is_power_of_two(3));
    assert!(!is_power_of_two(6));
    assert!(!is_power_of_two(100));
    assert!(!is_power_of_two(usize::MAX));
}

#[test]
fn align_up_already_aligned() {
    assert_eq!(align_up(32, 16), Some(32));
    assert_eq!(align_up(0, 8), Some(0));
    assert_eq!(align_up(7, 1), Some(7));
}

#[test]
fn align_up_rounds() {
    assert_eq!(align_up(33, 16), Some(48));
    assert_eq!(align_up(1, 8), Some(8));
}

#[test]
fn align_up_reports_overflow() {
    assert_eq!(align_up(usize::MAX, 2), None);
    assert_eq!(align_up(usize::MAX - 5, 16), None);
    assert_eq!(align_up(usize::MAX, 1), Some(usize::MAX));
}

#[test]
fn align_down_rounds() {
    assert_eq!(align_down(33, 16), 32);
    assert_eq!(align_down(32, 16), 32);
    assert_eq!(align_down(7, 8), 0);
    assert_eq!(align_down(7, 1), 7);
}

#[test]
fn remaining_up_measures_span_above_cursor() {
    let s = ChunkState { start: 10, end: 100, cursor: 30 };
    assert_eq!(s.remaining_up(), Ok(70));
}

#[test]
fn remaining_up_rejects_cursor_past_end() {
    let s = ChunkState { start: 0, end: 10, cursor: 11 };
    assert_eq!(s.remaining_up(), Err(InvariantViolation));
}

#[test]
fn remaining_down_measures_span_below_cursor() {
    let s = ChunkState { start: 10, end: 100, cursor: 30 };
    assert_eq!(s.remaining_down(), Ok(20));
}

#[test]
fn remaining_down_rejects_cursor_before_start() {
    let s = ChunkState { start: 10, end: 100, cursor: 9 };
    assert_eq!(s.remaining_down(), Err(InvariantViolation));
}

#[test]
fn with_cursor_keeps_bounds() {
    let s = ChunkState { start: 10, end: 100, cursor: 30 };
    let moved = s.with_cursor(50);
    assert_eq!(moved, ChunkState { start: 10, end: 100, cursor: 50 });
}

#[test]
fn request_fields_are_plain() {
    let q = AllocationRequest { size: 10, align: 16 };
    assert_eq!(q.size, 10);
    assert_eq!(q.align, 16);
}
