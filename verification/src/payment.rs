//! Payments: the transfers made for a quote, and the payer's own record
//! of them.

use crate::ledger::MainPubkey;
use crate::ledger::NanoTokens;
use crate::ledger::Transfer;
use crate::quote::PaymentQuote;
use crate::quote::PaymentQuoteView;
use vstd::prelude::*;

verus! {

/// What a payment holds, in mathematical terms.
pub struct PaymentView {
    /// The bytes of each transfer, in the order of the payment.
    pub transfers: Seq<Seq<u8>>,
    /// The quote that is paid.
    pub quote: PaymentQuoteView,
}

/// The transfers made for one quote, as they are sent to the node: first
/// the transfer to the node, then the royalties.
#[derive(PartialEq, Eq, Debug)]
pub struct Payment {
    /// The transfers that were made.
    pub transfers: Vec<Transfer>,
    /// The quote that they pay.
    pub quote: PaymentQuote,
}

impl View for Payment {
    type V = PaymentView;

    open spec fn view(&self) -> PaymentView {
        PaymentView {
            transfers: self.transfers@.map_values(|transfer: Transfer| transfer@),
            quote: self.quote@,
        }
    }
}

impl Clone for Payment {
    fn clone(&self) -> (copy: Self)
        ensures
            copy.quote.same_as(&self.quote),
            copy@ == self@,
    {
        let mut transfers: Vec<Transfer> = Vec::new();
        let mut next: usize = 0;
        while next < self.transfers.len()
            invariant
                next <= self.transfers.len(),
                transfers@.len() == next,
                forall|i: int| 0 <= i < next ==> (#[trigger] transfers@[i])@ == self.transfers@[i]@,
            decreases self.transfers.len() - next,
        {
            transfers.push(self.transfers[next].clone());
            next += 1;
        }
        let copy = Payment { transfers, quote: self.quote.clone() };
        assert(copy@.transfers =~= self@.transfers);
        copy
    }
}

/// What the payer keeps of a payment for one content address.
pub struct PaymentDetails {
    /// The node that was paid.
    pub recipient: MainPubkey,
    /// The network identity of that node, in bytes, so that this record
    /// depends on no particular form of it.
    pub peer_id_bytes: Vec<u8>,
    /// The transfer to the node, and the amount it carries.
    pub transfer: (Transfer, NanoTokens),
    /// The transfer of the network's royalties, and the amount it carries.
    pub royalties: (Transfer, NanoTokens),
    /// The quote that was paid.
    pub quote: PaymentQuote,
}

impl Clone for PaymentDetails {
    fn clone(&self) -> (copy: Self)
        ensures
            copy.recipient == self.recipient,
            copy.peer_id_bytes@ == self.peer_id_bytes@,
            copy.transfer.0@ == self.transfer.0@,
            copy.transfer.1 == self.transfer.1,
            copy.royalties.0@ == self.royalties.0@,
            copy.royalties.1 == self.royalties.1,
            copy.quote.same_as(&self.quote),
    {
        PaymentDetails {
            recipient: self.recipient,
            peer_id_bytes: self.peer_id_bytes.clone(),
            transfer: (self.transfer.0.clone(), self.transfer.1),
            royalties: (self.royalties.0.clone(), self.royalties.1),
            quote: self.quote.clone(),
        }
    }
}

impl PaymentDetails {
    /// The payment as it is sent to the node: the transfer to the node,
    /// then the royalties, and a copy of the quote.
    pub fn to_payment(&self) -> (payment: Payment)
        ensures
            payment.transfers@.len() == 2,
            payment.transfers@[0]@ == self.transfer.0@,
            payment.transfers@[1]@ == self.royalties.0@,
            payment.quote.same_as(&self.quote),
            payment@ == (PaymentView {
                transfers: seq![self.transfer.0@, self.royalties.0@],
                quote: self.quote@,
            }),
    {
        let mut transfers: Vec<Transfer> = Vec::new();
        transfers.push(self.transfer.0.clone());
        transfers.push(self.royalties.0.clone());
        let payment = Payment { transfers, quote: self.quote.clone() };
        assert(payment@.transfers =~= seq![self.transfer.0@, self.royalties.0@]);
        payment
    }
}

} // verus!
