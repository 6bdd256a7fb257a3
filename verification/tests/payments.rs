use payment_quotes::ledger::PUBLIC_KEY_LEN;
use payment_quotes::MainPubkey;
use payment_quotes::NanoTokens;
use payment_quotes::Payment;
use payment_quotes::PaymentDetails;
use payment_quotes::PaymentQuote;
use payment_quotes::QuotingMetrics;
use payment_quotes::Timestamp;
use payment_quotes::Transfer;
use xor_name::XorName;

fn some_quote() -> PaymentQuote {
    PaymentQuote {
        content: XorName([4; 32]),
        cost: NanoTokens::from(120),
        timestamp: Timestamp::new(1_700_000_000, 25).unwrap(),
        quoting_metrics: QuotingMetrics {
            close_records_stored: 5,
            max_records: 100,
            received_payment_count: 2,
            live_time: 10,
        },
        signature: vec![9, 8, 7],
    }
}

fn some_details() -> PaymentDetails {
    PaymentDetails {
        recipient: MainPubkey([6; PUBLIC_KEY_LEN]),
        peer_id_bytes: vec![1, 2, 3, 4],
        transfer: (Transfer { record: vec![10, 11, 12] }, NanoTokens::from(100)),
        royalties: (Transfer { record: vec![20, 21] }, NanoTokens::from(20)),
        quote: some_quote(),
    }
}

#[test]
fn a_payment_holds_the_transfer_and_then_the_royalties() {
    let details = some_details();
    let payment = details.to_payment();
    assert_eq!(payment.transfers.len(), 2);
    assert_eq!(payment.transfers[0], details.transfer.0);
    assert_eq!(payment.transfers[1], details.royalties.0);
    assert_eq!(payment.transfers[0].record, vec![10, 11, 12]);
    assert_eq!(payment.transfers[1].record, vec![20, 21]);
}

#[test]
fn a_payment_holds_a_copy_of_the_quote() {
    let details = some_details();
    let payment = details.to_payment();
    assert_eq!(payment.quote, details.quote);
    assert_eq!(payment.quote, some_quote());
}

#[test]
fn making_a_payment_leaves_the_details_as_they_were() {
    let details = some_details();
    let first = details.to_payment();
    let second = details.to_payment();
    assert_eq!(first, second);
    assert_eq!(details.transfer.1, NanoTokens::from(100));
    assert_eq!(details.royalties.1, NanoTokens::from(20));
    assert_eq!(details.peer_id_bytes, vec![1, 2, 3, 4]);
    assert_eq!(details.recipient, MainPubkey([6; PUBLIC_KEY_LEN]));
}

#[test]
fn equal_transfers_stay_two() {
    let mut details = some_details();
    details.royalties = (details.transfer.0.clone(), NanoTokens::from(100));
    let payment = details.to_payment();
    assert_eq!(payment.transfers.len(), 2);
    assert_eq!(payment.transfers[0], payment.transfers[1]);
}

#[test]
fn a_copy_of_a_payment_equals_it() {
    let payment = some_details().to_payment();
    let copy = payment.clone();
    assert_eq!(copy, payment);
    let empty = Payment { transfers: vec![], quote: some_quote() };
    assert_eq!(empty.clone(), empty);
}

#[test]
fn a_copy_of_the_details_holds_the_same() {
    let details = some_details();
    let copy = details.clone();
    assert_eq!(copy.recipient, details.recipient);
    assert_eq!(copy.peer_id_bytes, details.peer_id_bytes);
    assert_eq!(copy.transfer, details.transfer);
    assert_eq!(copy.royalties, details.royalties);
    assert_eq!(copy.quote, details.quote);
}

#[test]
fn a_copy_of_a_transfer_equals_it() {
    let transfer = Transfer { record: vec![1, 2, 3] };
    assert_eq!(transfer.clone(), transfer);
    assert_ne!(transfer, Transfer { record: vec![1, 2] });
}
