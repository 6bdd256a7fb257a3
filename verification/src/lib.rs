//! Payment quotes for a content-addressed storage network.
//!
//! A storage node answers a request to store a content address with a
//! [`PaymentQuote`]: the price it demands, the moment of issue, and a
//! snapshot of its own operating metrics, all covered by a signature over
//! a fixed byte layout. This crate holds the shape of those quotes, the
//! bytes that are signed, the expiry rule, and the audit that decides
//! whether two quotes of one node can both be true.

pub mod clock;
pub mod content;
pub mod ledger;
pub mod metrics;
pub mod payment;
pub mod quote;
pub mod timestamp;
pub mod wire;

pub use ledger::MainPubkey;
pub use ledger::NanoTokens;
pub use ledger::Transfer;
pub use metrics::QuotingMetrics;
pub use payment::Payment;
pub use payment::PaymentDetails;
pub use quote::HistoryVerdict;
pub use quote::PaymentQuote;
pub use quote::QuoteSignature;
pub use quote::QUOTE_EXPIRATION_SECS;
pub use timestamp::Timestamp;
