use payment_quotes::QuotingMetrics;
use std::cmp::Ordering;

fn metrics(close: usize, max: usize, count: usize, live: u64) -> QuotingMetrics {
    QuotingMetrics {
        close_records_stored: close,
        max_records: max,
        received_payment_count: count,
        live_time: live,
    }
}

#[test]
fn new_metrics_are_all_zero() {
    let made = QuotingMetrics::new();
    assert_eq!(made.close_records_stored, 0);
    assert_eq!(made.max_records, 0);
    assert_eq!(made.received_payment_count, 0);
    assert_eq!(made.live_time, 0);
}

#[test]
fn default_metrics_are_new_metrics() {
    assert_eq!(QuotingMetrics::default(), QuotingMetrics::new());
    assert_eq!(QuotingMetrics::default(), metrics(0, 0, 0, 0));
}

#[test]
fn metrics_are_equal_field_by_field() {
    assert_eq!(metrics(1, 2, 3, 4), metrics(1, 2, 3, 4));
    assert_ne!(metrics(1, 2, 3, 4), metrics(0, 2, 3, 4));
    assert_ne!(metrics(1, 2, 3, 4), metrics(1, 0, 3, 4));
    assert_ne!(metrics(1, 2, 3, 4), metrics(1, 2, 0, 4));
    assert_ne!(metrics(1, 2, 3, 4), metrics(1, 2, 3, 0));
}

#[test]
fn metrics_are_ordered_by_the_first_field_that_differs() {
    assert_eq!(metrics(1, 0, 0, 0).partial_cmp(&metrics(0, 9, 9, 9)), Some(Ordering::Greater));
    assert_eq!(metrics(1, 2, 9, 9).partial_cmp(&metrics(1, 3, 0, 0)), Some(Ordering::Less));
    assert_eq!(metrics(1, 2, 3, 9).partial_cmp(&metrics(1, 2, 4, 0)), Some(Ordering::Less));
    assert_eq!(metrics(1, 2, 3, 5).partial_cmp(&metrics(1, 2, 3, 4)), Some(Ordering::Greater));
    assert_eq!(metrics(1, 2, 3, 4).partial_cmp(&metrics(1, 2, 3, 4)), Some(Ordering::Equal));
    assert!(metrics(0, 9, 9, 9) < metrics(1, 0, 0, 0));
    assert!(metrics(1, 2, 3, 4) <= metrics(1, 2, 3, 4));
}

#[test]
fn the_total_order_of_metrics_agrees_with_the_partial_one() {
    let all = [
        metrics(0, 0, 0, 0),
        metrics(0, 0, 0, 1),
        metrics(0, 0, 1, 0),
        metrics(0, 1, 0, 0),
        metrics(1, 0, 0, 0),
        metrics(1, 2, 3, 4),
        metrics(usize::MAX, usize::MAX, usize::MAX, u64::MAX),
    ];
    for a in all.iter() {
        for b in all.iter() {
            assert_eq!(Some(a.cmp(b)), a.partial_cmp(b));
        }
    }
    let mut shuffled = vec![all[5], all[2], all[6], all[0], all[4], all[1], all[3]];
    shuffled.sort();
    assert_eq!(shuffled, all.to_vec());
}

#[test]
fn default_metrics_encode_as_an_array_of_four_zeros() {
    assert_eq!(QuotingMetrics::new().encoded(), Some(vec![0x94, 0, 0, 0, 0]));
}

#[test]
fn small_metrics_encode_in_one_byte_each() {
    assert_eq!(metrics(5, 100, 2, 10).encoded(), Some(vec![0x94, 5, 100, 2, 10]));
    assert_eq!(metrics(127, 0, 0, 0).encoded(), Some(vec![0x94, 127, 0, 0, 0]));
}

#[test]
fn large_metrics_encode_in_the_shortest_form_that_holds_them() {
    assert_eq!(
        metrics(300, 70_000, 128, 5_000_000_000).encoded(),
        Some(vec![
            0x94, 0xcd, 0x01, 0x2c, 0xce, 0x00, 0x01, 0x11, 0x70, 0xcc, 0x80, 0xcf, 0x00, 0x00,
            0x00, 0x01, 0x2a, 0x05, 0xf2, 0x00,
        ])
    );
    assert_eq!(
        metrics(255, 256, 65_535, u64::MAX).encoded(),
        Some(vec![
            0x94, 0xcc, 0xff, 0xcd, 0x01, 0x00, 0xcd, 0xff, 0xff, 0xcf, 0xff, 0xff, 0xff, 0xff,
            0xff, 0xff, 0xff, 0xff,
        ])
    );
}

#[test]
fn the_encoding_keeps_the_order_of_the_fields() {
    assert_eq!(metrics(1, 2, 3, 4).encoded(), Some(vec![0x94, 1, 2, 3, 4]));
    assert_eq!(metrics(4, 3, 2, 1).encoded(), Some(vec![0x94, 4, 3, 2, 1]));
}

#[test]
fn the_bytes_of_an_attempt_are_kept_where_it_wrote_any() {
    assert_eq!(
        QuotingMetrics::written_or_none(Ok(vec![0x94, 1, 2, 3, 4])),
        Some(vec![0x94, 1, 2, 3, 4])
    );
    assert_eq!(QuotingMetrics::written_or_none(Ok(vec![])), Some(vec![]));
}

#[test]
fn nothing_is_kept_of_an_attempt_that_gave_up() {
    assert_eq!(
        QuotingMetrics::written_or_none(Err(rmp_serde::encode::Error::UnknownLength)),
        None
    );
    assert_eq!(
        QuotingMetrics::written_or_none(Err(rmp_serde::encode::Error::DepthLimitExceeded)),
        None
    );
    assert_eq!(
        QuotingMetrics::written_or_none(Err(rmp_serde::encode::Error::Syntax(String::new()))),
        None
    );
}
