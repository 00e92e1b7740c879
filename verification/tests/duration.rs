use codex_retry::duration::Duration;
use codex_retry::text::push_decimal;

#[test]
fn spans_are_equal_where_their_lengths_are() {
    assert_eq!(Duration::from_secs(2), Duration::from_millis(2_000));
    assert_eq!(Duration::new(2, 5_000_000), Duration::from_millis(2_005));
    assert_eq!(Duration::zero(), Duration::from_millis(0));
    assert_ne!(Duration::from_millis(1), Duration::from_millis(2));
}

#[test]
fn parts_of_a_span() {
    let span = Duration::new(3, 456_789_012);
    assert_eq!(span.as_secs(), 3);
    assert_eq!(span.subsec_nanos(), 456_789_012);
    assert_eq!(span.as_millis(), 3_456);
}

#[test]
fn longest_spans() {
    let most_millis = Duration::from_millis(u64::MAX);
    assert_eq!(most_millis.as_secs(), 18_446_744_073_709_551);
    assert_eq!(most_millis.subsec_nanos(), 615_000_000);
    assert_eq!(most_millis.as_millis(), u64::MAX as u128);
    let longest = Duration::new(u64::MAX, 999_999_999);
    assert_eq!(longest.as_millis(), u64::MAX as u128 * 1_000 + 999);
}

#[test]
fn decimal_numerals() {
    for n in [0, 7, 9, 10, 42, 100, 909, 1_234_567_890, u64::MAX] {
        let mut text = "n=".to_string();
        push_decimal(&mut text, n);
        assert_eq!(text, format!("n={n}"));
    }
}

#[test]
fn spans_in_words() {
    assert_eq!(Duration::zero().to_debug_string(), "0ns");
    assert_eq!(Duration::from_millis(40).to_debug_string(), "40ms");
    assert_eq!(Duration::from_millis(1_500).to_debug_string(), "1.5s");
    assert_eq!(Duration::new(0, 1_250).to_debug_string(), "1.25\u{b5}s");
}
