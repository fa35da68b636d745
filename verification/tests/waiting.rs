use pyarc2::{split_nanos, WaitFor, MAX_SPAN_NANOS};

#[test]
fn wait_from_nanos_counts_nanoseconds() {
    assert_eq!(WaitFor::from_nanos(0), WaitFor::Time { nanos: 0 });
    assert_eq!(WaitFor::from_nanos(17), WaitFor::Time { nanos: 17 });
    assert_eq!(
        WaitFor::from_nanos(u64::MAX),
        WaitFor::Time { nanos: u64::MAX as u128 }
    );
}

#[test]
fn wait_from_millis_scales_to_nanoseconds() {
    assert_eq!(WaitFor::from_millis(0), WaitFor::Time { nanos: 0 });
    assert_eq!(WaitFor::from_millis(5), WaitFor::Time { nanos: 5_000_000 });
    assert_eq!(
        WaitFor::from_millis(u64::MAX),
        WaitFor::Time { nanos: u64::MAX as u128 * 1_000_000 }
    );
}

#[test]
fn wait_from_iterations_counts_iterations() {
    assert_eq!(WaitFor::from_iterations(3), WaitFor::Iterations { iters: 3 });
}

#[test]
fn split_nanos_exact_parts() {
    assert_eq!(split_nanos(0), Some((0, 0)));
    assert_eq!(split_nanos(999_999_999), Some((0, 999_999_999)));
    assert_eq!(split_nanos(1_000_000_000), Some((1, 0)));
    assert_eq!(split_nanos(1_500_000_000), Some((1, 500_000_000)));
    assert_eq!(
        split_nanos(MAX_SPAN_NANOS),
        Some((u64::MAX, 999_999_999))
    );
}

#[test]
fn split_nanos_rejects_oversized_spans() {
    assert_eq!(split_nanos(MAX_SPAN_NANOS + 1), None);
    assert_eq!(split_nanos(u128::MAX), None);
}

#[test]
fn split_matches_duration_semantics() {
    let millis: u64 = 123_456_789_012;
    let WaitFor::Time { nanos } = WaitFor::from_millis(millis) else {
        panic!("expected a time span");
    };
    let (secs, subsec) = split_nanos(nanos).unwrap();
    let d = std::time::Duration::from_millis(millis);
    assert_eq!(secs, d.as_secs());
    assert_eq!(subsec, d.subsec_nanos());
}
