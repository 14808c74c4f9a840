//! Reconciliation against the ledger indexer: given the recent incoming
//! transfers of a wallet, decide whether one of them pays a transaction.

use crate::codec::{decode, decode_spec};
use vstd::prelude::*;
use vstd::string::StringExecFns;

verus! {

/// The incoming message of a ledger transaction.
pub struct InMsg {
    pub value: String,
    pub source: String,
    /// The base64 memo, when the transfer carries one.
    pub payload: Option<String>,
}

/// One entry of the indexer's transaction history.
pub struct TonTransaction {
    pub in_msg: InMsg,
}

/// Outcome of one reconciliation pass.
#[derive(Clone, Copy, Debug, PartialEq, Eq, Structural)]
pub enum PaymentStatus {
    /// No transfer pays the transaction yet.
    Pending,
    /// A transfer's memo names the transaction.
    Success,
    /// The history could not be fetched or read; try again later.
    Error,
}

impl PaymentStatus {
    /// `pending`, `success` or `error`.
    pub fn name(&self) -> (r: &'static str)
        ensures
            r@ == payment_status_name(*self),
    {
        match self {
            PaymentStatus::Pending => "pending",
            PaymentStatus::Success => "success",
            PaymentStatus::Error => "error",
        }
    }
}

pub open spec fn payment_status_name(s: PaymentStatus) -> Seq<char> {
    match s {
        PaymentStatus::Pending => "pending"@,
        PaymentStatus::Success => "success"@,
        PaymentStatus::Error => "error"@,
    }
}

/// How many of the most recent transfers one pass asks the indexer for.
pub const LEDGER_FETCH_LIMIT: u64 = 15;

/// Whether a ledger entry's memo names `transaction_id`.
pub open spec fn pays(t: TonTransaction, transaction_id: i64) -> bool {
    t.in_msg.payload matches Some(p) && decode_spec(p@) == Some(transaction_id)
}

/// Whether some entry of a history pays `transaction_id`.
pub open spec fn paid_in(ts: Seq<TonTransaction>, transaction_id: i64) -> bool {
    exists|i: int| 0 <= i < ts.len() && pays(#[trigger] ts[i], transaction_id)
}

/// `Error` when the history could not be had, `Success` when an entry's memo
/// names the transaction, `Pending` otherwise.
pub open spec fn status_spec(transaction_id: i64, fetched: Option<Seq<TonTransaction>>) -> PaymentStatus {
    match fetched {
        None => PaymentStatus::Error,
        Some(ts) => if paid_in(ts, transaction_id) {
            PaymentStatus::Success
        } else {
            PaymentStatus::Pending
        },
    }
}

/// The entries of a fetched history, if it was fetched.
pub open spec fn history_of(fetched: Option<&[TonTransaction]>) -> Option<Seq<TonTransaction>> {
    match fetched {
        Some(ts) => Some(ts@),
        None => None,
    }
}

/// Whether some entry of `transfers` pays `transaction_id`.
fn find_payment(transaction_id: i64, transfers: &[TonTransaction]) -> (r: bool)
    ensures
        r == paid_in(transfers@, transaction_id),
{
    let mut i: usize = 0;
    while i < transfers.len()
        invariant
            i <= transfers@.len(),
            forall|j: int| 0 <= j < i ==> !pays(#[trigger] transfers@[j], transaction_id),
        decreases transfers@.len() - i,
    {
        if let Some(p) = &transfers[i].in_msg.payload {
            if let Some(found) = decode(p.as_str()) {
                if found == transaction_id {
                    assert(pays(transfers@[i as int], transaction_id));
                    return true;
                }
            }
        }
        i = i + 1;
    }
    false
}

/// Classifies one reconciliation pass for `transaction_id`. `fetched` is the
/// wallet's recent history, or `None` when the request or its parsing
/// failed.
pub fn check_transaction_status(
    transaction_id: i64,
    fetched: Option<&[TonTransaction]>,
) -> (r: PaymentStatus)
    ensures
        r == status_spec(transaction_id, history_of(fetched)),
        fetched is None ==> r == PaymentStatus::Error,
        fetched matches Some(ts) && (exists|i: int|
            0 <= i < ts@.len() && pays(#[trigger] ts@[i], transaction_id)) ==> r
            == PaymentStatus::Success,
        fetched matches Some(ts) && (forall|i: int|
            0 <= i < ts@.len() ==> !pays(#[trigger] ts@[i], transaction_id)) ==> r
            == PaymentStatus::Pending,
{
    match fetched {
        None => PaymentStatus::Error,
        Some(ts) => {
            let found = find_payment(transaction_id, ts);
            if found {
                PaymentStatus::Success
            } else {
                PaymentStatus::Pending
            }
        },
    }
}

/// The indexer request for the recent history of `address`.
pub fn ledger_query_url(address: &str, api_key: &str) -> (r: String)
    ensures
        r@ == "https://toncenter.com/api/v2/getTransactions?address="@ + address@
            + "&limit=15&api_key="@ + api_key@,
{
    let mut url = String::from_str("https://toncenter.com/api/v2/getTransactions?address=");
    url.append(address);
    url.append("&limit=15&api_key=");
    url.append(api_key);
    url
}

} // verus!
