//! Quotes, the bytes that are signed for them, and the audit of two
//! quotes of one node against each other.

use crate::content::content_bytes;
use crate::content::default_content;
use crate::content::xor_name_bytes;
use crate::content::CONTENT_ADDRESS_LEN;
use crate::ledger::NanoTokens;
use crate::metrics::QuotingMetrics;
use crate::timestamp::whole_secs_between;
use crate::timestamp::NANOS_PER_SEC;
use crate::timestamp::Timestamp;
use crate::wire::le_bytes;
use crate::wire::lemma_le_bytes_tell_numbers_apart;
use crate::wire::u64_le_bytes;
use vstd::prelude::*;
use xor_name::XorName;

verus! {

/// Seconds for which a quote stays valid after it was made.
pub const QUOTE_EXPIRATION_SECS: u64 = 3600;

/// Units by which a node's claimed gain in live time may exceed the
/// seconds that passed between two of its quotes.
pub const LIVE_TIME_MARGIN: u64 = 10;

/// A node that is within this many records of its capacity may hold fewer
/// records than it did before: it may have pruned.
pub const PRUNING_HEADROOM: usize = 20;

/// The signature of a quote, as the signer's scheme wrote it.
pub type QuoteSignature = Vec<u8>;

/// What the audit of two quotes of one node found: that both can be true,
/// or the first thing in which the later one contradicts the earlier.
#[derive(Clone, Copy, PartialEq, Eq, Structural, Debug)]
pub enum HistoryVerdict {
    /// Nothing in the later quote contradicts the earlier one.
    Plausible,
    /// The later quote claims less live time than the earlier one.
    LiveTimeOutOfSequence,
    /// One of the quotes was made after the moment of the audit.
    TimestampFailure,
    /// The claimed live time grew by more than the time between the
    /// quotes allows.
    LiveTimeOutOfSync,
    /// The later quote claims fewer stored records, and the node is not
    /// near enough to its capacity to have pruned.
    RecordsOutOfSequence,
    /// The later quote claims fewer received payments.
    PaymentCountOutOfSequence,
}

/// Seconds by which the earlier of two quotes is older than the later,
/// each age taken in whole seconds at `now` and their difference held at
/// zero from below.
pub open spec fn seconds_apart(old_at: int, new_at: int, now: int) -> int
    recommends
        old_at <= now,
        new_at <= now,
{
    let old_age = whole_secs_between(now, old_at).unwrap();
    let new_age = whole_secs_between(now, new_at).unwrap();
    if old_age >= new_age {
        old_age - new_age
    } else {
        0
    }
}

/// The audit of a later quote against an earlier one, by their metrics
/// and the nanosecond counts of their timestamps, at the moment `now`.
/// The checks are made in this order and the first that fails decides.
pub open spec fn audit_in_order(
    old: QuotingMetrics,
    old_at: int,
    new: QuotingMetrics,
    new_at: int,
    now: int,
) -> HistoryVerdict {
    if new.live_time < old.live_time {
        HistoryVerdict::LiveTimeOutOfSequence
    } else if now < old_at || now < new_at {
        HistoryVerdict::TimestampFailure
    } else if new.live_time - old.live_time
        > seconds_apart(old_at, new_at, now) + LIVE_TIME_MARGIN
    {
        HistoryVerdict::LiveTimeOutOfSync
    } else if new.close_records_stored + PRUNING_HEADROOM < new.max_records
        && new.close_records_stored < old.close_records_stored
    {
        HistoryVerdict::RecordsOutOfSequence
    } else if new.received_payment_count < old.received_payment_count {
        HistoryVerdict::PaymentCountOutOfSequence
    } else {
        HistoryVerdict::Plausible
    }
}

/// Whether a later quote can be true beside an earlier one of the same
/// node at the moment `now`: neither was made after `now`; live time,
/// received payments and stored records did not shrink, but that the
/// records of a node near its capacity may; and live time did not grow by
/// more than the seconds between the two quotes and the margin.
pub open spec fn consistent_in_order(
    old: QuotingMetrics,
    old_at: int,
    new: QuotingMetrics,
    new_at: int,
    now: int,
) -> bool {
    &&& old_at <= now
    &&& new_at <= now
    &&& old.live_time <= new.live_time
    &&& new.live_time - old.live_time <= seconds_apart(old_at, new_at, now) + LIVE_TIME_MARGIN
    &&& (old.close_records_stored <= new.close_records_stored
        || new.close_records_stored + PRUNING_HEADROOM >= new.max_records)
    &&& old.received_payment_count <= new.received_payment_count
}

/// The bytes that are signed for a quote: the content address, the cost
/// and the whole seconds from the Unix epoch to the quote's timestamp,
/// each of the two in eight little-endian bytes, and the encoded metrics.
pub open spec fn signing_layout(
    content: Seq<u8>,
    cost: nat,
    unix_secs: nat,
    metrics: Seq<u8>,
) -> Seq<u8> {
    content + le_bytes(cost) + le_bytes(unix_secs) + metrics
}

/// Whether a quote made at `made_at` and valid for `valid_for_secs`
/// seconds has expired at `now`, the two instants counted in nanoseconds
/// since the Unix epoch: it has when more time than that passed since it
/// was made, be it by a nanosecond, and also when it claims to have been
/// made after `now`.
pub open spec fn expired_after(made_at: int, now: int, valid_for_secs: int) -> bool {
    now < made_at || now - made_at > valid_for_secs * NANOS_PER_SEC
}

/// Whether a quote made at `made_at` has expired at `now`, where quotes
/// are valid for [`QUOTE_EXPIRATION_SECS`].
pub open spec fn expired_between(made_at: int, now: int) -> bool {
    expired_after(made_at, now, QUOTE_EXPIRATION_SECS as int)
}

/// What a quote holds, in mathematical terms.
pub struct PaymentQuoteView {
    /// The bytes of the content address.
    pub content: Seq<u8>,
    /// The cost in the smallest unit of the token.
    pub cost: nat,
    /// Nanoseconds from the Unix epoch to the moment the quote was made.
    pub timestamp: int,
    /// The metrics in the quote.
    pub quoting_metrics: QuotingMetrics,
    /// The bytes of the signature.
    pub signature: Seq<u8>,
}

/// A node's price for storing one content address, with the moment at
/// which it was named and the node's metrics at that moment.
#[derive(PartialEq, Eq, PartialOrd, Ord, Hash, Debug)]
pub struct PaymentQuote {
    /// The content that is paid for.
    pub content: XorName,
    /// What the node demands for storing the content.
    pub cost: NanoTokens,
    /// The node's own time when it made the quote.
    pub timestamp: Timestamp,
    /// The metrics from which the node derived the price.
    pub quoting_metrics: QuotingMetrics,
    /// The node's signature over the other four fields; empty on a quote
    /// that nobody signed.
    pub signature: QuoteSignature,
}

impl View for PaymentQuote {
    type V = PaymentQuoteView;

    open spec fn view(&self) -> PaymentQuoteView {
        PaymentQuoteView {
            content: xor_name_bytes(self.content),
            cost: self.cost@,
            timestamp: self.timestamp@,
            quoting_metrics: self.quoting_metrics,
            signature: self.signature@,
        }
    }
}

impl PaymentQuote {
    /// Whether this quote and `other` hold the same, field by field.
    pub open spec fn same_as(&self, other: &Self) -> bool {
        &&& self.content == other.content
        &&& self.cost == other.cost
        &&& self.timestamp == other.timestamp
        &&& self.quoting_metrics == other.quoting_metrics
        &&& self.signature@ == other.signature@
    }
}

impl Clone for PaymentQuote {
    fn clone(&self) -> (copy: Self)
        ensures
            copy.same_as(self),
            copy@ == self@,
    {
        PaymentQuote {
            content: self.content,
            cost: self.cost,
            timestamp: self.timestamp,
            quoting_metrics: self.quoting_metrics,
            signature: self.signature.clone(),
        }
    }
}

/// Lays out the bytes that are signed for a quote from its parts: the
/// bytes of the content address, the cost, the whole seconds from the
/// Unix epoch to its timestamp, and its metrics as they were encoded.
pub fn signing_bytes_from(
    content: &[u8],
    cost: NanoTokens,
    unix_secs: u64,
    metrics: &[u8],
) -> (bytes: Vec<u8>)
    ensures
        bytes@ == signing_layout(content@, cost@, unix_secs as nat, metrics@),
{
    let mut bytes: Vec<u8> = Vec::new();
    bytes.extend_from_slice(content);
    bytes.extend_from_slice(cost.to_bytes().as_slice());
    bytes.extend_from_slice(u64_le_bytes(unix_secs).as_slice());
    bytes.extend_from_slice(metrics);
    bytes
}

impl PaymentQuote {
    /// The bytes that are signed for a quote of these four parts.
    pub open spec fn signed_bytes(
        xorname: XorName,
        cost: NanoTokens,
        timestamp: Timestamp,
        quoting_metrics: &QuotingMetrics,
    ) -> Seq<u8> {
        signing_layout(
            xor_name_bytes(xorname),
            cost@,
            (timestamp@ / (NANOS_PER_SEC as int)) as nat,
            quoting_metrics.msgpack(),
        )
    }

    /// The bytes that are signed for a quote of these parts where its
    /// metrics could not be encoded: they end after the timestamp.
    pub open spec fn signed_bytes_without_metrics(
        xorname: XorName,
        cost: NanoTokens,
        timestamp: Timestamp,
    ) -> Seq<u8> {
        signing_layout(
            xor_name_bytes(xorname),
            cost@,
            (timestamp@ / (NANOS_PER_SEC as int)) as nat,
            Seq::empty(),
        )
    }

    /// A quote for no content at no cost, made now, with the metrics of a
    /// node that has seen nothing, and unsigned. It stands where there is
    /// no quote; nobody may take it for a signed one.
    pub fn zero() -> (quote: Self)
        ensures
            quote@.content == Seq::new(CONTENT_ADDRESS_LEN as nat, |i: int| 0u8),
            quote@.cost == 0,
            quote.timestamp.read_from_clock(),
            quote@.quoting_metrics == QuotingMetrics::default_spec(),
            quote@.signature == Seq::<u8>::empty(),
    {
        PaymentQuote {
            content: default_content(),
            cost: NanoTokens::zero(),
            timestamp: Timestamp::now(),
            quoting_metrics: QuotingMetrics::new(),
            signature: Vec::new(),
        }
    }

    /// An unsigned quote for `xorname` at `cost`, made now, with the
    /// metrics of a node that has seen nothing. It is for trying things
    /// out; nobody may take it for a signed one.
    pub fn test_dummy(xorname: XorName, cost: NanoTokens) -> (quote: Self)
        ensures
            quote.content == xorname,
            quote.cost == cost,
            quote.timestamp.read_from_clock(),
            quote@.quoting_metrics == QuotingMetrics::default_spec(),
            quote@.signature == Seq::<u8>::empty(),
    {
        PaymentQuote {
            content: xorname,
            cost,
            timestamp: Timestamp::now(),
            quoting_metrics: QuotingMetrics::new(),
            signature: Vec::new(),
        }
    }

    /// The bytes that a node signs for a quote and that a verifier holds
    /// the signature against. The timestamp goes in by its whole seconds
    /// since the Unix epoch, so it must not lie before the epoch. Where
    /// the metrics cannot be encoded, the bytes end after the timestamp.
    pub fn bytes_for_signing(
        xorname: XorName,
        cost: NanoTokens,
        timestamp: Timestamp,
        quoting_metrics: &QuotingMetrics,
    ) -> (bytes: Vec<u8>)
        requires
            timestamp@ >= 0,
        ensures
            xor_name_bytes(xorname).len() == CONTENT_ADDRESS_LEN,
            bytes@ == Self::signed_bytes(xorname, cost, timestamp, quoting_metrics)
                || bytes@ == Self::signed_bytes_without_metrics(xorname, cost, timestamp),
    {
        Self::bytes_for_signing_of(xorname, cost, timestamp, quoting_metrics.encoded())
    }

    /// The bytes that are signed for a quote of which the metrics have
    /// been through the encoder: with what the encoder wrote, and ending
    /// after the timestamp where it wrote nothing. The timestamp must not
    /// lie before the Unix epoch.
    pub fn bytes_for_signing_of(
        xorname: XorName,
        cost: NanoTokens,
        timestamp: Timestamp,
        encoded: Option<Vec<u8>>,
    ) -> (bytes: Vec<u8>)
        requires
            timestamp@ >= 0,
        ensures
            xor_name_bytes(xorname).len() == CONTENT_ADDRESS_LEN,
            bytes@ == signing_layout(
                xor_name_bytes(xorname),
                cost@,
                (timestamp@ / (NANOS_PER_SEC as int)) as nat,
                match encoded {
                    Some(written) => written@,
                    None => Seq::<u8>::empty(),
                },
            ),
    {
        let content = content_bytes(&xorname);
        let unix_secs = timestamp.unix_secs().unwrap();
        let metrics = match encoded {
            Some(written) => written,
            None => Vec::new(),
        };
        signing_bytes_from(content.as_slice(), cost, unix_secs, metrics.as_slice())
    }

    /// Whether the quote has expired at the moment `now`, where quotes
    /// are valid for `valid_for_secs` seconds: it has when it is older
    /// than that, be it by a nanosecond, and also when it claims to have
    /// been made after `now`.
    pub fn has_expired_after(&self, now: &Timestamp, valid_for_secs: u64) -> (expired: bool)
        ensures
            expired == expired_after(self.timestamp@, now@, valid_for_secs as int),
    {
        match now.time_since(&self.timestamp) {
            Some((secs, subsec_nanos)) => {
                secs > valid_for_secs || (secs == valid_for_secs && subsec_nanos > 0)
            },
            None => true,
        }
    }

    /// Whether the quote has expired at the moment `now`, where quotes
    /// are valid for [`QUOTE_EXPIRATION_SECS`].
    pub fn has_expired_at(&self, now: &Timestamp) -> (expired: bool)
        ensures
            expired == expired_between(self.timestamp@, now@),
    {
        self.has_expired_after(now, QUOTE_EXPIRATION_SECS)
    }

    /// Whether the quote has expired by the system clock. The answer is
    /// that of [`PaymentQuote::has_expired_at`] for an instant that was
    /// read from the clock.
    pub fn has_expired(&self) -> (expired: bool)
        ensures
            exists|now: Timestamp|
                #![trigger now.read_from_clock()]
                now.read_from_clock() && expired == expired_between(self.timestamp@, now@),
    {
        let now = Timestamp::now();
        self.has_expired_at(&now)
    }

    /// Whether this quote was made strictly after `other`.
    pub open spec fn newer_than(&self, other: &Self) -> bool {
        self.timestamp@ > other.timestamp@
    }

    /// The audit of this quote and `other` at the moment `now`, a count
    /// of nanoseconds since the Unix epoch: the one made first is taken
    /// as the earlier claim, whichever way round the two are given, and
    /// this quote where both were made at the same instant.
    pub open spec fn audit_at(&self, other: &Self, now: int) -> HistoryVerdict {
        if self.newer_than(other) {
            audit_in_order(
                other.quoting_metrics,
                other.timestamp@,
                self.quoting_metrics,
                self.timestamp@,
                now,
            )
        } else {
            audit_in_order(
                self.quoting_metrics,
                self.timestamp@,
                other.quoting_metrics,
                other.timestamp@,
                now,
            )
        }
    }

    /// Whether this quote and `other` can both be true of one node at
    /// the moment `now`, a count of nanoseconds since the Unix epoch. The
    /// two are put in order as for [`PaymentQuote::audit_at`].
    pub open spec fn plausible_at(&self, other: &Self, now: int) -> bool {
        if self.newer_than(other) {
            consistent_in_order(
                other.quoting_metrics,
                other.timestamp@,
                self.quoting_metrics,
                self.timestamp@,
                now,
            )
        } else {
            consistent_in_order(
                self.quoting_metrics,
                self.timestamp@,
                other.quoting_metrics,
                other.timestamp@,
                now,
            )
        }
    }

    /// Whether this quote was made strictly after `other`. Two quotes
    /// made at the same instant are neither newer than the other.
    pub fn is_newer_than(&self, other: &Self) -> (newer: bool)
        ensures
            newer == self.newer_than(other),
    {
        self.timestamp.is_after(&other.timestamp)
    }

    /// Audits this quote and `other`, both said to be of one node, at
    /// the moment `now`, and names the first contradiction found.
    pub fn historical_audit_at(&self, other: &Self, now: &Timestamp) -> (verdict: HistoryVerdict)
        ensures
            verdict == self.audit_at(other, now@),
    {
        let (old_quote, new_quote) = if self.is_newer_than(other) {
            (other, self)
        } else {
            (self, other)
        };
        let old = &old_quote.quoting_metrics;
        let new = &new_quote.quoting_metrics;

        if new.live_time < old.live_time {
            return HistoryVerdict::LiveTimeOutOfSequence;
        }
        let old_age = match now.secs_since(&old_quote.timestamp) {
            Some(age) => age,
            None => {
                return HistoryVerdict::TimestampFailure;
            },
        };
        let new_age = match now.secs_since(&new_quote.timestamp) {
            Some(age) => age,
            None => {
                return HistoryVerdict::TimestampFailure;
            },
        };
        let time_diff = old_age.saturating_sub(new_age);
        let live_time_diff = new.live_time - old.live_time;
        if time_diff <= u64::MAX - LIVE_TIME_MARGIN
            && live_time_diff > time_diff + LIVE_TIME_MARGIN
        {
            return HistoryVerdict::LiveTimeOutOfSync;
        }
        if new.close_records_stored < new.max_records
            && new.max_records - new.close_records_stored > PRUNING_HEADROOM
            && new.close_records_stored < old.close_records_stored
        {
            return HistoryVerdict::RecordsOutOfSequence;
        }
        if new.received_payment_count < old.received_payment_count {
            return HistoryVerdict::PaymentCountOutOfSequence;
        }
        HistoryVerdict::Plausible
    }

    /// Whether this quote and `other`, both said to be of one node, can
    /// both be true at the moment `now`: whether the audit finds no
    /// contradiction.
    pub fn historical_verify_at(&self, other: &Self, now: &Timestamp) -> (plausible: bool)
        ensures
            plausible == self.plausible_at(other, now@),
            plausible == (self.audit_at(other, now@) == HistoryVerdict::Plausible),
    {
        proof {
            lemma_plausible_verdict_means_consistent(*self, *other, now@);
        }
        match self.historical_audit_at(other, now) {
            HistoryVerdict::Plausible => true,
            _ => false,
        }
    }

    /// Whether this quote and `other`, both said to be of one node, can
    /// both be true by the system clock, which is read once. The answer
    /// is that of [`PaymentQuote::historical_verify_at`] for an instant
    /// that was read from the clock.
    pub fn historical_verify(&self, other: &Self) -> (plausible: bool)
        ensures
            exists|now: Timestamp|
                #![trigger now.read_from_clock()]
                now.read_from_clock() && plausible == self.plausible_at(other, now@),
    {
        let now = Timestamp::now();
        self.historical_verify_at(other, &now)
    }
}

/// The audit finds no contradiction between two quotes exactly when the
/// later can be true beside the earlier.
pub proof fn lemma_plausible_verdict_means_consistent(a: PaymentQuote, b: PaymentQuote, now: int)
    ensures
        a.audit_at(&b, now) == HistoryVerdict::Plausible <==> a.plausible_at(&b, now),
{
}

/// Between two quotes of which the earlier was made first and neither
/// after `now`, the seconds apart are the plain difference of their ages:
/// nothing is held at zero.
pub proof fn lemma_seconds_apart_of_ordered_quotes(old_at: int, new_at: int, now: int)
    requires
        old_at <= new_at <= now,
    ensures
        seconds_apart(old_at, new_at, now) == whole_secs_between(now, old_at).unwrap()
            - whole_secs_between(now, new_at).unwrap(),
        seconds_apart(old_at, new_at, now) >= 0,
{
}

/// The bytes that are signed are fixed by the content address, the cost,
/// the whole seconds of the timestamp and the metrics: two quotes that
/// agree in these are signed over the same bytes, with their metrics and
/// without.
pub proof fn lemma_signed_bytes_are_determined(
    xorname_a: XorName,
    cost_a: NanoTokens,
    timestamp_a: Timestamp,
    metrics_a: QuotingMetrics,
    xorname_b: XorName,
    cost_b: NanoTokens,
    timestamp_b: Timestamp,
    metrics_b: QuotingMetrics,
)
    requires
        xor_name_bytes(xorname_a) == xor_name_bytes(xorname_b),
        cost_a@ == cost_b@,
        timestamp_a@ / (NANOS_PER_SEC as int) == timestamp_b@ / (NANOS_PER_SEC as int),
        metrics_a == metrics_b,
    ensures
        PaymentQuote::signed_bytes(xorname_a, cost_a, timestamp_a, &metrics_a)
            == PaymentQuote::signed_bytes(xorname_b, cost_b, timestamp_b, &metrics_b),
        PaymentQuote::signed_bytes_without_metrics(xorname_a, cost_a, timestamp_a)
            == PaymentQuote::signed_bytes_without_metrics(xorname_b, cost_b, timestamp_b),
{
}

/// A signature over the signed bytes covers each part of the quote: two
/// quotes for content addresses of one length are signed over the same
/// bytes only where they agree in content, cost, whole seconds and
/// encoded metrics.
pub proof fn lemma_signing_layout_binds_its_parts(
    content_a: Seq<u8>,
    cost_a: nat,
    unix_secs_a: nat,
    metrics_a: Seq<u8>,
    content_b: Seq<u8>,
    cost_b: nat,
    unix_secs_b: nat,
    metrics_b: Seq<u8>,
)
    requires
        content_a.len() == content_b.len(),
        cost_a <= u64::MAX,
        cost_b <= u64::MAX,
        unix_secs_a <= u64::MAX,
        unix_secs_b <= u64::MAX,
        signing_layout(content_a, cost_a, unix_secs_a, metrics_a) == signing_layout(
            content_b,
            cost_b,
            unix_secs_b,
            metrics_b,
        ),
    ensures
        content_a == content_b,
        cost_a == cost_b,
        unix_secs_a == unix_secs_b,
        metrics_a == metrics_b,
{
    lemma_joined_parts_are_told_apart(
        content_a,
        le_bytes(cost_a),
        le_bytes(unix_secs_a),
        metrics_a,
        content_b,
        le_bytes(cost_b),
        le_bytes(unix_secs_b),
        metrics_b,
    );
    lemma_le_bytes_tell_numbers_apart(cost_a, cost_b);
    lemma_le_bytes_tell_numbers_apart(unix_secs_a, unix_secs_b);
}

/// Four sequences joined end to end can be told apart again where the
/// lengths of the first three are known.
proof fn lemma_joined_parts_are_told_apart(
    first_a: Seq<u8>,
    second_a: Seq<u8>,
    third_a: Seq<u8>,
    last_a: Seq<u8>,
    first_b: Seq<u8>,
    second_b: Seq<u8>,
    third_b: Seq<u8>,
    last_b: Seq<u8>,
)
    requires
        first_a.len() == first_b.len(),
        second_a.len() == second_b.len(),
        third_a.len() == third_b.len(),
        first_a + second_a + third_a + last_a == first_b + second_b + third_b + last_b,
    ensures
        first_a == first_b,
        second_a == second_b,
        third_a == third_b,
        last_a == last_b,
{
    let a = first_a + second_a + third_a + last_a;
    let b = first_b + second_b + third_b + last_b;
    let one = first_a.len() as int;
    let two = one + second_a.len();
    let three = two + third_a.len();
    assert(first_a =~= a.subrange(0, one));
    assert(first_b =~= b.subrange(0, one));
    assert(second_a =~= a.subrange(one, two));
    assert(second_b =~= b.subrange(one, two));
    assert(third_a =~= a.subrange(two, three));
    assert(third_b =~= b.subrange(two, three));
    assert(last_a =~= a.subrange(three, a.len() as int));
    assert(last_b =~= b.subrange(three, b.len() as int));
}

/// A quote has expired at `now` exactly when it claims to have been made
/// after `now`, or when more time has passed since it was made than the
/// time for which it is valid. So a quote that is exactly 3600 seconds
/// old is still good, one that is a nanosecond older is not, and neither
/// is one of 3601 seconds.
pub proof fn lemma_expiry_by_age(made_at: int, now: int)
    ensures
        expired_between(made_at, now) <==> now < made_at
            || now - made_at > QUOTE_EXPIRATION_SECS * NANOS_PER_SEC,
        !expired_between(made_at, made_at + QUOTE_EXPIRATION_SECS * NANOS_PER_SEC),
        expired_between(made_at, made_at + QUOTE_EXPIRATION_SECS * NANOS_PER_SEC + 1),
        expired_between(made_at, made_at + (QUOTE_EXPIRATION_SECS + 1) * NANOS_PER_SEC),
{
}

/// To be newer is a strict order on quotes by their timestamps: no quote
/// is newer than itself, of two quotes at most one is newer than the
/// other, and exactly one where their timestamps differ; two quotes of
/// the same instant are neither newer than the other.
pub proof fn lemma_newer_than_is_strict(a: PaymentQuote, b: PaymentQuote, c: PaymentQuote)
    ensures
        !a.newer_than(&a),
        a.newer_than(&b) ==> !b.newer_than(&a),
        a.timestamp@ != b.timestamp@ ==> a.newer_than(&b) || b.newer_than(&a),
        a.timestamp@ == b.timestamp@ ==> !a.newer_than(&b) && !b.newer_than(&a),
        a.newer_than(&b) && b.newer_than(&c) ==> a.newer_than(&c),
{
}

/// The audit of two quotes made at different instants does not depend on
/// which of them it is asked of: it is made of the earlier and the later
/// one either way.
pub proof fn lemma_audit_ignores_order_of_arguments(a: PaymentQuote, b: PaymentQuote, now: int)
    requires
        a.timestamp@ != b.timestamp@,
    ensures
        a.audit_at(&b, now) == b.audit_at(&a, now),
        a.plausible_at(&b, now) == b.plausible_at(&a, now),
{
}

/// Two quotes made at the same instant can be audited to different ends
/// from either side: the one that is asked counts as the earlier claim.
pub proof fn lemma_audit_of_same_instant_takes_sides(a: PaymentQuote, b: PaymentQuote, now: int)
    requires
        a.timestamp@ == b.timestamp@,
        a.timestamp@ <= now,
        a.quoting_metrics.live_time < b.quoting_metrics.live_time,
    ensures
        b.audit_at(&a, now) == HistoryVerdict::LiveTimeOutOfSequence,
        a.audit_at(&b, now) != HistoryVerdict::LiveTimeOutOfSequence,
        !b.plausible_at(&a, now),
{
}

} // verus!
