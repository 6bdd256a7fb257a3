use payment_quotes::NanoTokens;
use payment_quotes::PaymentQuote;
use payment_quotes::QuotingMetrics;
use payment_quotes::Timestamp;
use payment_quotes::QUOTE_EXPIRATION_SECS;
use xor_name::XorName;

fn quote_made_at(timestamp: Timestamp) -> PaymentQuote {
    PaymentQuote {
        content: XorName([3; 32]),
        cost: NanoTokens::from(5),
        timestamp,
        quoting_metrics: QuotingMetrics::new(),
        signature: vec![],
    }
}

fn at(secs: i64, nanos: u32) -> Timestamp {
    Timestamp::new(secs, nanos).unwrap()
}

fn clock_moved_by(secs: i64) -> Timestamp {
    let now = Timestamp::now();
    at(now.secs() + secs, now.subsec_nanos())
}

#[test]
fn the_expiration_time_is_an_hour() {
    assert_eq!(QUOTE_EXPIRATION_SECS, 3600);
}

#[test]
fn zero_is_an_empty_unsigned_quote_made_now() {
    let before = Timestamp::now();
    let quote = PaymentQuote::zero();
    let after = Timestamp::now();
    assert_eq!(quote.content, XorName::default());
    assert_eq!(quote.content.0, [0u8; 32]);
    assert_eq!(quote.cost, NanoTokens::zero());
    assert_eq!(quote.quoting_metrics, QuotingMetrics::default());
    assert!(quote.signature.is_empty());
    assert!(!before.is_after(&quote.timestamp));
    assert!(!quote.timestamp.is_after(&after));
    assert!(!quote.has_expired());
}

#[test]
fn test_dummy_is_an_unsigned_quote_made_now() {
    let before = Timestamp::now();
    let quote = PaymentQuote::test_dummy(XorName([7; 32]), NanoTokens::from(42));
    let after = Timestamp::now();
    assert_eq!(quote.content, XorName([7; 32]));
    assert_eq!(quote.cost.as_nano(), 42);
    assert_eq!(quote.quoting_metrics, QuotingMetrics::default());
    assert!(quote.signature.is_empty());
    assert!(!before.is_after(&quote.timestamp));
    assert!(!quote.timestamp.is_after(&after));
}

#[test]
fn a_quote_of_exactly_an_hour_has_not_expired() {
    let quote = quote_made_at(at(1_700_000_000, 0));
    assert!(!quote.has_expired_at(&at(1_700_003_600, 0)));
    assert!(!quote.has_expired_at(&at(1_700_000_000, 0)));
    assert!(!quote.has_expired_at(&at(1_700_001_800, 0)));
}

#[test]
fn a_quote_of_an_hour_and_a_second_has_expired() {
    let quote = quote_made_at(at(1_700_000_000, 0));
    assert!(quote.has_expired_at(&at(1_700_003_601, 0)));
    assert!(quote.has_expired_at(&at(1_800_000_000, 0)));
}

#[test]
fn a_quote_older_than_an_hour_by_a_fraction_of_a_second_has_expired() {
    let quote = quote_made_at(at(1_700_000_000, 0));
    assert!(quote.has_expired_at(&at(1_700_003_600, 500_000_000)));
    assert!(quote.has_expired_at(&at(1_700_003_600, 1)));
    assert!(quote.has_expired_at(&at(1_700_003_600, 999_999_999)));
    assert!(!quote.has_expired_at(&at(1_700_003_599, 999_999_999)));
}

#[test]
fn the_age_of_a_quote_counts_to_the_nanosecond() {
    let quote = quote_made_at(at(1_700_000_000, 500_000_000));
    assert!(!quote.has_expired_at(&at(1_700_003_600, 499_999_999)));
    assert!(!quote.has_expired_at(&at(1_700_003_600, 500_000_000)));
    assert!(quote.has_expired_at(&at(1_700_003_600, 500_000_001)));
    assert!(quote.has_expired_at(&at(1_700_003_601, 0)));
    let early = quote_made_at(at(1000, 0));
    assert!(early.has_expired_at(&at(4600, 500_000_000)));
    assert!(!early.has_expired_at(&at(4600, 0)));
}

#[test]
fn a_quote_from_the_future_has_expired() {
    let quote = quote_made_at(at(1_700_000_000, 1));
    assert!(quote.has_expired_at(&at(1_700_000_000, 0)));
    assert!(quote.has_expired_at(&at(1_600_000_000, 0)));
    assert!(quote.has_expired_at(&at(-5, 0)));
}

#[test]
fn the_time_a_quote_is_valid_for_can_be_chosen() {
    let quote = quote_made_at(at(1_700_000_000, 0));
    assert!(!quote.has_expired_after(&at(1_700_000_060, 0), 60));
    assert!(quote.has_expired_after(&at(1_700_000_060, 1), 60));
    assert!(quote.has_expired_after(&at(1_700_000_061, 0), 60));
    assert!(quote.has_expired_after(&at(1_700_000_000, 1), 0));
    assert!(!quote.has_expired_after(&at(1_700_000_000, 0), 0));
    assert!(quote.has_expired_after(&at(1_700_000_001, 0), 0));
    assert!(quote.has_expired_after(&at(1_699_999_999, 0), u64::MAX));
    assert!(!quote.has_expired_after(&at(i64::MAX, 0), u64::MAX));
}

#[test]
fn expiry_by_the_clock() {
    assert!(!quote_made_at(Timestamp::now()).has_expired());
    assert!(!quote_made_at(clock_moved_by(-3000)).has_expired());
    assert!(quote_made_at(clock_moved_by(-3700)).has_expired());
    assert!(quote_made_at(clock_moved_by(3600)).has_expired());
}

#[test]
fn a_quote_is_newer_when_its_timestamp_is_later() {
    let old = quote_made_at(at(1_700_000_000, 0));
    let new = quote_made_at(at(1_700_000_000, 1));
    assert!(new.is_newer_than(&old));
    assert!(!old.is_newer_than(&new));
}

#[test]
fn quotes_of_the_same_instant_are_not_newer_than_each_other() {
    let one = quote_made_at(at(1_700_000_000, 5));
    let mut other = quote_made_at(at(1_700_000_000, 5));
    other.cost = NanoTokens::from(99);
    assert!(!one.is_newer_than(&other));
    assert!(!other.is_newer_than(&one));
    assert!(!one.is_newer_than(&one));
}

#[test]
fn a_copy_of_a_quote_equals_it() {
    let mut quote = quote_made_at(at(1_700_000_000, 5));
    quote.signature = vec![1, 2, 3];
    quote.quoting_metrics.live_time = 9;
    let copy = quote.clone();
    assert_eq!(copy, quote);
    assert_eq!(copy.signature, vec![1, 2, 3]);
    assert_eq!(copy.content, XorName([3; 32]));
    assert_eq!(copy.quoting_metrics.live_time, 9);
}
