//! The settlement orchestrator: what happens to a delivered payment intent,
//! and how reconciliation results move a transaction to its terminal state.
//! The caller runs the loop (consume, fetch the ledger, wait); every
//! decision is made here.

use crate::event::PaymentEvent;
use crate::guard::{mark_step, ProcessedSet};
use crate::ledger::PaymentStatus;
use crate::transaction::{is_terminal, step_status, target_status, Settle, Transaction, TxStatus};
use vstd::prelude::*;

verus! {

/// A terminal state reached by a transaction, for the user-facing layer.
#[derive(Clone, Copy, Debug, PartialEq, Eq, Structural)]
pub struct Notification {
    pub transaction_id: i64,
    pub status: TxStatus,
}

/// What becomes of a delivered intent.
#[derive(Clone, Copy, Debug, PartialEq, Eq, Structural)]
pub enum Delivery {
    /// First delivery of a known transaction: reconcile it.
    Reconcile,
    /// Already processed: dropped without side effects.
    Duplicate,
    /// No such transaction: a data-integrity fault; the intent is dropped.
    MissingTransaction,
}

/// The step after a reconciliation pass.
#[derive(Clone, Copy, Debug, PartialEq, Eq, Structural)]
pub enum PollAction {
    /// Move the transaction to a terminal state.
    Settle(Settle),
    /// Ask the ledger again later.
    PollAgain,
}

/// Expiry policy: a payment seen on the ledger completes the transaction;
/// otherwise the transaction fails once `max_attempts` passes (pending or
/// failed alike) have gone by without one. `attempt` counts from zero.
pub open spec fn poll_decision_spec(status: PaymentStatus, attempt: u32, max_attempts: u32) -> PollAction {
    if status == PaymentStatus::Success {
        PollAction::Settle(Settle::Complete)
    } else if attempt + 1 >= max_attempts {
        PollAction::Settle(Settle::Fail)
    } else {
        PollAction::PollAgain
    }
}

/// Decides what follows pass number `attempt` (from zero) of reconciliation.
pub fn poll_decision(status: PaymentStatus, attempt: u32, max_attempts: u32) -> (r: PollAction)
    ensures
        r == poll_decision_spec(status, attempt, max_attempts),
{
    match status {
        PaymentStatus::Success => PollAction::Settle(Settle::Complete),
        _ => {
            if attempt as u64 + 1 >= max_attempts as u64 {
                PollAction::Settle(Settle::Fail)
            } else {
                PollAction::PollAgain
            }
        },
    }
}

/// Transaction ids are unique in a store.
pub open spec fn unique_ids(recs: Seq<Transaction>) -> bool {
    forall|i: int, j: int|
        0 <= i < recs.len() && 0 <= j < recs.len() && i != j ==> #[trigger] recs[i].id
            != #[trigger] recs[j].id
}

pub open spec fn has_id(recs: Seq<Transaction>, id: i64) -> bool {
    exists|i: int| 0 <= i < recs.len() && #[trigger] recs[i].id == id
}

/// The status of the stored transaction with `id`, if there is one.
pub open spec fn status_in(recs: Seq<Transaction>, id: i64) -> Option<TxStatus> {
    if has_id(recs, id) {
        Some(recs[choose|i: int| 0 <= i < recs.len() && #[trigger] recs[i].id == id].spec_status())
    } else {
        None
    }
}

/// The transaction store, the idempotency guard and the attempt budget of
/// one settlement pipeline.
pub struct Settlement {
    transactions: Vec<Transaction>,
    processed: ProcessedSet,
    max_attempts: u32,
}

impl Settlement {
    pub closed spec fn records(&self) -> Seq<Transaction> {
        self.transactions@
    }

    pub closed spec fn seen(&self) -> Set<i64> {
        self.processed@
    }

    pub closed spec fn spec_max_attempts(&self) -> u32 {
        self.max_attempts
    }

    pub open spec fn wf(&self) -> bool {
        unique_ids(self.records())
    }

    /// The status of transaction `id` in the store, if it is there.
    pub open spec fn status_of(&self, id: i64) -> Option<TxStatus> {
        status_in(self.records(), id)
    }

    /// An empty pipeline that fails a transaction after `max_attempts`
    /// reconciliation passes without a payment.
    pub fn new(max_attempts: u32) -> (r: Settlement)
        ensures
            r.wf(),
            r.records() == Seq::<Transaction>::empty(),
            r.seen() == Set::<i64>::empty(),
            r.spec_max_attempts() == max_attempts,
    {
        Settlement { transactions: Vec::new(), processed: ProcessedSet::new(), max_attempts }
    }

    pub fn max_attempts(&self) -> (r: u32)
        ensures
            r == self.spec_max_attempts(),
    {
        self.max_attempts
    }

    fn find(&self, id: i64) -> (r: Option<usize>)
        requires
            self.wf(),
        ensures
            r is None <==> !has_id(self.records(), id),
            r matches Some(k) ==> k < self.records().len() && self.records()[k as int].id == id
                && self.status_of(id) == Some(self.records()[k as int].spec_status()),
    {
        let mut i: usize = 0;
        while i < self.transactions.len()
            invariant
                i <= self.transactions@.len(),
                self.wf(),
                forall|j: int| 0 <= j < i ==> #[trigger] self.transactions@[j].id != id,
            decreases self.transactions@.len() - i,
        {
            if self.transactions[i].id == id {
                proof {
                    let recs = self.records();
                    assert(recs[i as int].id == id);
                    let c = choose|j: int| 0 <= j < recs.len() && #[trigger] recs[j].id == id;
                    assert(c == i);
                }
                return Some(i);
            }
            i = i + 1;
        }
        None
    }

    /// Stores a new transaction. Refused (`false`, nothing changes) when the
    /// id is already taken or the transaction is not active.
    pub fn create(&mut self, tx: Transaction) -> (created: bool)
        requires
            old(self).wf(),
        ensures
            final(self).wf(),
            created == (!has_id(old(self).records(), tx.id) && tx.spec_status()
                == TxStatus::Active),
            created ==> final(self).records() == old(self).records().push(tx),
            !created ==> final(self).records() == old(self).records(),
            final(self).seen() == old(self).seen(),
            final(self).spec_max_attempts() == old(self).spec_max_attempts(),
    {
        if tx.status().is_terminal() {
            return false;
        }
        if self.find(tx.id).is_some() {
            return false;
        }
        self.transactions.push(tx);
        proof {
            let recs = self.records();
            assert forall|i: int, j: int|
                0 <= i < recs.len() && 0 <= j < recs.len() && i != j implies #[trigger] recs[i].id
                != #[trigger] recs[j].id by {
                if i == recs.len() - 1 {
                    assert(old(self).records()[j].id != tx.id);
                } else if j == recs.len() - 1 {
                    assert(old(self).records()[i].id != tx.id);
                } else {
                    assert(old(self).records()[i].id != old(self).records()[j].id);
                }
            }
        }
        true
    }

    /// The stored status of transaction `id`.
    pub fn status(&self, id: i64) -> (r: Option<TxStatus>)
        requires
            self.wf(),
        ensures
            r == self.status_of(id),
    {
        match self.find(id) {
            Some(k) => Some(self.transactions[k].status()),
            None => None,
        }
    }

    /// The stored transaction with `id`.
    pub fn transaction(&self, id: i64) -> (r: Option<&Transaction>)
        requires
            self.wf(),
        ensures
            r is None <==> !has_id(self.records(), id),
            r matches Some(t) ==> t.id == id && Some(t.spec_status()) == self.status_of(id),
    {
        match self.find(id) {
            Some(k) => Some(&self.transactions[k]),
            None => None,
        }
    }

    /// Whether transaction `id` has been taken up for settlement.
    pub fn is_processed(&self, id: i64) -> (r: bool)
        ensures
            r == self.seen().contains(id),
    {
        self.processed.contains(id)
    }

    /// Takes a delivered intent. The transaction must be in the store (else
    /// the intent is dropped as a data-integrity fault and nothing is
    /// marked); then only its first delivery leads to reconciliation.
    pub fn deliver(&mut self, event: &PaymentEvent) -> (r: Delivery)
        requires
            old(self).wf(),
        ensures
            final(self).wf(),
            final(self).records() == old(self).records(),
            final(self).spec_max_attempts() == old(self).spec_max_attempts(),
            !has_id(old(self).records(), event.transaction_id) ==> r
                == Delivery::MissingTransaction && final(self).seen() == old(self).seen(),
            has_id(old(self).records(), event.transaction_id) ==> {
                let (next, is_new) = mark_step(old(self).seen(), event.transaction_id);
                &&& final(self).seen() == next
                &&& r == (if is_new {
                    Delivery::Reconcile
                } else {
                    Delivery::Duplicate
                })
            },
    {
        if self.find(event.transaction_id).is_none() {
            return Delivery::MissingTransaction;
        }
        if self.processed.mark_if_new(event.transaction_id) {
            Delivery::Reconcile
        } else {
            Delivery::Duplicate
        }
    }

    /// Carries out a reconciliation decision for transaction `id` at time
    /// `now`. A settle request moves an active transaction to its terminal
    /// state and yields the one notification of that move; on a terminal or
    /// unknown transaction, or to poll again, nothing changes and nothing is
    /// notified.
    pub fn apply(&mut self, id: i64, action: PollAction, now: i64) -> (r: Option<Notification>)
        requires
            old(self).wf(),
        ensures
            final(self).wf(),
            final(self).seen() == old(self).seen(),
            final(self).spec_max_attempts() == old(self).spec_max_attempts(),
            final(self).records().len() == old(self).records().len(),
            forall|other: i64| other != id ==> final(self).status_of(other) == old(self).status_of(other),
            has_id(final(self).records(), id) == has_id(old(self).records(), id),
            match (action, old(self).status_of(id)) {
                (PollAction::Settle(t), Some(s)) => {
                    &&& final(self).status_of(id) == Some(step_status(s, t))
                    &&& r == (if s == TxStatus::Active {
                        Some(Notification { transaction_id: id, status: target_status(t) })
                    } else {
                        None
                    })
                },
                _ => final(self).status_of(id) == old(self).status_of(id) && r is None,
            },
    {
        let t = match action {
            PollAction::Settle(t) => t,
            PollAction::PollAgain => return None,
        };
        let k = match self.find(id) {
            Some(k) => k,
            None => return None,
        };
        let ghost before = self.records();
        let mut tx = self.transactions.remove(k);
        let moved = tx.lifecycle.settle(t, now);
        self.transactions.insert(k, tx);
        proof {
            let recs = self.records();
            assert(recs =~= before.update(k as int, recs[k as int]));
            assert forall|i: int| 0 <= i < recs.len() implies #[trigger] recs[i].id == before[i].id by {}
            assert forall|other: i64| has_id(recs, other) == has_id(before, other) by {
                if has_id(before, other) {
                    let j = choose|j: int| 0 <= j < before.len() && #[trigger] before[j].id == other;
                    assert(recs[j].id == other);
                }
                if has_id(recs, other) {
                    let j = choose|j: int| 0 <= j < recs.len() && #[trigger] recs[j].id == other;
                    assert(before[j].id == other);
                }
            }
            assert forall|other: i64| other != id implies status_in(recs, other) == status_in(
                before,
                other,
            ) by {
                if has_id(before, other) {
                    let a = choose|j: int| 0 <= j < recs.len() && #[trigger] recs[j].id == other;
                    let b = choose|j: int| 0 <= j < before.len() && #[trigger] before[j].id == other;
                    assert(recs[b].id == other);
                    assert(a == b);
                    assert(a != k);
                }
            }
            let a = choose|j: int| 0 <= j < recs.len() && #[trigger] recs[j].id == id;
            assert(recs[k as int].id == id);
            assert(a == k);
        }
        if moved {
            Some(Notification { transaction_id: id, status: tx_status_of(t) })
        } else {
            None
        }
    }
}

fn tx_status_of(t: Settle) -> (r: TxStatus)
    ensures
        r == target_status(t),
{
    match t {
        Settle::Complete => TxStatus::Completed,
        Settle::Fail => TxStatus::Failed,
    }
}

} // verus!
