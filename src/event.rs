//! Payment intents and the first-in, first-out queue that carries them from
//! transaction creation to settlement.

use crate::transaction::Price;
use std::collections::VecDeque;
use vstd::prelude::*;

verus! {

/// A queued notice that a transaction awaits on-chain confirmation.
pub struct PaymentEvent {
    pub transaction_id: i64,
    /// The payer.
    pub telegram_id: i64,
    pub channel_id: i64,
    pub chat_id: i64,
    pub price: Price,
    pub currency: String,
    /// Where the payer sends the funds.
    pub wallet_address: String,
}

/// Intents in delivery order: published at the back, consumed at the front.
pub struct IntentQueue {
    items: VecDeque<PaymentEvent>,
}

impl View for IntentQueue {
    type V = Seq<PaymentEvent>;

    closed spec fn view(&self) -> Seq<PaymentEvent> {
        self.items@
    }
}

impl IntentQueue {
    pub fn new() -> (r: IntentQueue)
        ensures
            r@ == Seq::<PaymentEvent>::empty(),
    {
        IntentQueue { items: VecDeque::new() }
    }

    pub fn len(&self) -> (r: usize)
        ensures
            r == self@.len(),
    {
        self.items.len()
    }

    /// Appends an intent.
    pub fn publish(&mut self, event: PaymentEvent)
        ensures
            final(self)@ == old(self)@.push(event),
    {
        self.items.push_back(event);
    }

    /// Takes the oldest intent, if any.
    pub fn consume(&mut self) -> (r: Option<PaymentEvent>)
        ensures
            old(self)@.len() == 0 ==> r is None && final(self)@ == old(self)@,
            old(self)@.len() > 0 ==> r == Some(old(self)@[0]) && final(self)@ == old(
                self,
            )@.drop_first(),
    {
        self.items.pop_front()
    }
}

} // verus!
