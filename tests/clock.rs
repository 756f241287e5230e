use cookie_session::{millis_since_epoch, now};

#[test]
fn fraction_of_a_second_is_truncated_to_millis() {
    let d = std::time::Duration::from_micros(1_500_999);
    assert_eq!(millis_since_epoch(Some((d.as_secs(), d.subsec_millis()))), 1500);
}

#[test]
fn reading_at_the_epoch_is_zero() {
    assert_eq!(millis_since_epoch(Some((0, 0))), 0);
}

#[test]
fn reading_before_the_epoch_is_zero() {
    assert_eq!(millis_since_epoch(None), 0);
}

#[test]
fn largest_reading_fits() {
    assert_eq!(
        millis_since_epoch(Some((u64::MAX, 999))),
        u64::MAX as u128 * 1000 + 999
    );
}

#[test]
fn later_readings_give_no_fewer_millis() {
    let readings = [None, Some((0, 0)), Some((0, 999)), Some((1, 0)), Some((1, 500)), Some((2, 1))];
    for w in readings.windows(2) {
        assert!(millis_since_epoch(w[0]) <= millis_since_epoch(w[1]));
    }
}

#[test]
fn agrees_with_duration_as_millis() {
    for micros in [0u64, 999, 1_000, 59_999_999, 1_700_000_000_123_456] {
        let d = std::time::Duration::from_micros(micros);
        assert_eq!(millis_since_epoch(Some((d.as_secs(), d.subsec_millis()))), d.as_millis());
    }
}

#[test]
fn now_is_after_the_epoch() {
    let t = now();
    assert!(t > 1_600_000_000_000);
}
