use rust_audio_tester::window::{analysis_span, find_zero_crosses, Span, Window, WindowError};

#[test]
fn window_snaps_to_first_sign_changes() {
    // offset 1 starts positive, first negative at 3; offset+size = 5 is negative, first positive at 7
    let s: Vec<i32> = vec![0, 5, 3, -2, -4, -1, -6, 2, 3, -1];
    let w = find_zero_crosses(&s, 1, 4).unwrap();
    assert_eq!(w, Window { start: 3, end: 7 });
}

#[test]
fn window_samples_before_bounds_differ_in_sign() {
    let s: Vec<i32> = vec![1, 2, -3, -4, 5, 6, -7, 8, 9, -1, -2, 3];
    let w = find_zero_crosses(&s, 0, 5).unwrap();
    assert!((s[w.start - 1] >= 0) != (s[w.start] >= 0));
    assert!((s[w.end - 1] >= 0) != (s[w.end] >= 0));
    assert_eq!(w, Window { start: 2, end: 6 });
}

#[test]
fn window_zero_counts_as_positive() {
    let s: Vec<i32> = vec![-1, 0, 0, 4, -3, 1, 1, 1];
    let w = find_zero_crosses(&s, 1, 4).unwrap();
    assert_eq!(w, Window { start: 4, end: 8 });
}

#[test]
fn window_without_flip_extends_to_signal_end() {
    let s: Vec<i32> = vec![3, 3, 3, 3, 3, 3];
    let w = find_zero_crosses(&s, 1, 2).unwrap();
    assert_eq!(w, Window { start: 6, end: 6 });
}

#[test]
fn window_start_past_nominal_end_gives_empty_window() {
    let s: Vec<i32> = vec![1, 1, 1, 1, -1, -1];
    let w = find_zero_crosses(&s, 0, 2).unwrap();
    assert_eq!(w, Window { start: 4, end: 4 });
}

#[test]
fn window_out_of_range_is_an_error() {
    let s: Vec<i32> = vec![1, -1, 1, -1];
    assert_eq!(find_zero_crosses(&s, 1, 3), Err(WindowError::OutOfRange));
    assert_eq!(find_zero_crosses(&s, 4, 0), Err(WindowError::OutOfRange));
    assert_eq!(find_zero_crosses(&s, 0, usize::MAX), Err(WindowError::OutOfRange));
    assert!(find_zero_crosses(&s, 1, 2).is_ok());
}

#[test]
fn span_for_three_seconds_at_48k() {
    assert_eq!(analysis_span(48000, 3), Some(Span { offset: 24000, size: 72000 }));
    assert_eq!(analysis_span(44100, 5), Some(Span { offset: 22050, size: 154350 }));
}

#[test]
fn span_for_too_short_capture_is_none() {
    assert_eq!(analysis_span(48000, 1), None);
    assert_eq!(analysis_span(48000, 0), None);
}
