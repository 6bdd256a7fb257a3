//! The operating metrics a node reports alongside a price.

use crate::wire::metrics_msgpack;
use crate::wire::rmp_to_vec;
use std::cmp::Ordering;
use vstd::prelude::*;

verus! {

/// What a node says about itself when it quotes a price.
///
/// A value is a snapshot: it is never changed after it was taken, a later
/// state of the node is a new value.
#[derive(Clone, Copy, PartialEq, Eq, Structural, Ord, Hash, Debug)]
pub struct QuotingMetrics {
    /// Records held that are close to the node's own address.
    pub close_records_stored: usize,
    /// The most records the node is configured to hold.
    pub max_records: usize,
    /// How many payments the node has accepted since it began.
    pub received_payment_count: usize,
    /// Hours the node has stayed connected, by its own account.
    pub live_time: u64,
}

impl QuotingMetrics {
    /// The snapshot of a node that holds nothing and has seen nothing.
    pub open spec fn default_spec() -> QuotingMetrics {
        QuotingMetrics {
            close_records_stored: 0,
            max_records: 0,
            received_payment_count: 0,
            live_time: 0,
        }
    }

    /// The snapshot of a node that holds nothing and has seen nothing.
    pub fn new() -> (metrics: Self)
        ensures
            metrics == QuotingMetrics::default_spec(),
    {
        QuotingMetrics {
            close_records_stored: 0,
            max_records: 0,
            received_payment_count: 0,
            live_time: 0,
        }
    }

    /// Whether this snapshot comes strictly before `other` in the order
    /// of snapshots: by the first field in which the two differ, the
    /// fields taken in the order in which they are declared. The order
    /// serves to sort snapshots; it ranks no node above another.
    pub open spec fn precedes(&self, other: &Self) -> bool {
        ||| self.close_records_stored < other.close_records_stored
        ||| self.close_records_stored == other.close_records_stored
            && self.max_records < other.max_records
        ||| self.close_records_stored == other.close_records_stored
            && self.max_records == other.max_records
            && self.received_payment_count < other.received_payment_count
        ||| self.close_records_stored == other.close_records_stored
            && self.max_records == other.max_records
            && self.received_payment_count == other.received_payment_count
            && self.live_time < other.live_time
    }

    /// The snapshot in MessagePack, as it goes into the bytes that are
    /// signed for a quote: an array of the four numbers in the order of
    /// the fields, without their names.
    pub open spec fn msgpack(&self) -> Seq<u8> {
        metrics_msgpack(
            self.close_records_stored,
            self.max_records,
            self.received_payment_count,
            self.live_time,
        )
    }

    /// Encodes the snapshot in MessagePack. There are no bytes when the
    /// encoder gives up, which it does only for want of memory.
    pub fn encoded(&self) -> (bytes: Option<Vec<u8>>)
        ensures
            bytes matches Some(written) ==> written@ == self.msgpack(),
    {
        QuotingMetrics::written_or_none(
            rmp_to_vec(
                self.close_records_stored,
                self.max_records,
                self.received_payment_count,
                self.live_time,
            ),
        )
    }

    /// What is kept of an attempt to encode a snapshot: the bytes where
    /// the encoder wrote them, and nothing where it gave up, whatever its
    /// reason.
    pub fn written_or_none(
        attempt: Result<Vec<u8>, rmp_serde::encode::Error>,
    ) -> (bytes: Option<Vec<u8>>)
        ensures
            match attempt {
                Ok(written) => bytes == Some(written),
                Err(_) => bytes is None,
            },
    {
        match attempt {
            Ok(written) => Some(written),
            Err(_) => None,
        }
    }
}

impl PartialOrd for QuotingMetrics {
    fn partial_cmp(&self, other: &Self) -> (order: Option<Ordering>) {
        if self.close_records_stored < other.close_records_stored {
            Some(Ordering::Less)
        } else if self.close_records_stored > other.close_records_stored {
            Some(Ordering::Greater)
        } else if self.max_records < other.max_records {
            Some(Ordering::Less)
        } else if self.max_records > other.max_records {
            Some(Ordering::Greater)
        } else if self.received_payment_count < other.received_payment_count {
            Some(Ordering::Less)
        } else if self.received_payment_count > other.received_payment_count {
            Some(Ordering::Greater)
        } else if self.live_time < other.live_time {
            Some(Ordering::Less)
        } else if self.live_time > other.live_time {
            Some(Ordering::Greater)
        } else {
            Some(Ordering::Equal)
        }
    }
}

impl vstd::std_specs::cmp::PartialOrdSpecImpl for QuotingMetrics {
    open spec fn obeys_partial_cmp_spec() -> bool {
        true
    }

    open spec fn partial_cmp_spec(&self, other: &Self) -> Option<Ordering> {
        if self.precedes(other) {
            Some(Ordering::Less)
        } else if other.precedes(self) {
            Some(Ordering::Greater)
        } else {
            Some(Ordering::Equal)
        }
    }
}

/// The order of snapshots is a strict total order: no snapshot precedes
/// itself, of two different snapshots exactly one precedes the other,
/// and what precedes a snapshot precedes all that it precedes.
pub proof fn lemma_precedes_is_strict_total_order(
    a: QuotingMetrics,
    b: QuotingMetrics,
    c: QuotingMetrics,
)
    ensures
        !a.precedes(&a),
        a.precedes(&b) ==> !b.precedes(&a),
        a != b ==> a.precedes(&b) || b.precedes(&a),
        a.precedes(&b) && b.precedes(&c) ==> a.precedes(&c),
{
}

impl Default for QuotingMetrics {
    fn default() -> (metrics: Self)
        ensures
            metrics == QuotingMetrics::default_spec(),
    {
        QuotingMetrics::new()
    }
}

} // verus!
