//! The durable payment transaction record and its lifecycle:
//! `active -> completed` or `active -> failed`, both terminal.

use vstd::prelude::*;
use vstd::string::StringExecFns;

verus! {

/// Lifecycle state of a transaction.
#[derive(Clone, Copy, Debug, PartialEq, Eq, Structural)]
pub enum TxStatus {
    Active,
    Completed,
    Failed,
}

/// The terminal state that a settlement decision asks for.
#[derive(Clone, Copy, Debug, PartialEq, Eq, Structural)]
pub enum Settle {
    /// The payment was seen on the ledger.
    Complete,
    /// The attempt budget ran out without a matching transfer.
    Fail,
}

pub open spec fn is_terminal(s: TxStatus) -> bool {
    s != TxStatus::Active
}

pub open spec fn target_status(t: Settle) -> TxStatus {
    match t {
        Settle::Complete => TxStatus::Completed,
        Settle::Fail => TxStatus::Failed,
    }
}

/// One requested transition: only an active transaction moves.
pub open spec fn step_status(s: TxStatus, t: Settle) -> TxStatus {
    if s == TxStatus::Active {
        target_status(t)
    } else {
        s
    }
}

/// The state after a series of requested transitions.
pub open spec fn run_status(s: TxStatus, ts: Seq<Settle>) -> TxStatus
    decreases ts.len(),
{
    if ts.len() == 0 {
        s
    } else {
        run_status(step_status(s, ts[0]), ts.drop_first())
    }
}

/// An active transaction ends in the state that the first requested
/// transition names (`completed` or `failed`, never both), and a terminal one
/// never moves again.
pub proof fn lemma_terminal_is_final(s: TxStatus, ts: Seq<Settle>)
    ensures
        is_terminal(s) ==> run_status(s, ts) == s,
        s == TxStatus::Active && ts.len() > 0 ==> run_status(s, ts) == target_status(ts[0]),
        s == TxStatus::Active && ts.len() == 0 ==> run_status(s, ts) == TxStatus::Active,
        run_status(s, ts) == TxStatus::Completed || run_status(s, ts) == TxStatus::Failed || (s
            == TxStatus::Active && ts.len() == 0),
    decreases ts.len(),
{
    if ts.len() > 0 {
        lemma_terminal_is_final(step_status(s, ts[0]), ts.drop_first());
    }
}

impl TxStatus {
    /// The name under which the status is stored: `active`, `completed` or
    /// `failed`.
    pub fn name(&self) -> (r: &'static str)
        ensures
            r@ == status_name(*self),
    {
        match self {
            TxStatus::Active => "active",
            TxStatus::Completed => "completed",
            TxStatus::Failed => "failed",
        }
    }

    pub fn is_terminal(&self) -> (r: bool)
        ensures
            r == is_terminal(*self),
    {
        !matches!(self, TxStatus::Active)
    }
}

pub open spec fn status_name(s: TxStatus) -> Seq<char> {
    match s {
        TxStatus::Active => "active"@,
        TxStatus::Completed => "completed"@,
        TxStatus::Failed => "failed"@,
    }
}

/// A decimal amount: `mantissa / 10^scale`, in the range of a 96-bit
/// mantissa and a scale of at most 28, as the stored decimal type allows.
#[derive(Clone, Copy, Debug, PartialEq, Eq, Structural)]
pub struct Price {
    pub mantissa: i128,
    pub scale: u32,
}

pub const MAX_PRICE_SCALE: u32 = 28;

pub const MAX_PRICE_MANTISSA: i128 = 79228162514264337593543950335;

impl Price {
    pub open spec fn wf(&self) -> bool {
        self.scale <= MAX_PRICE_SCALE && -MAX_PRICE_MANTISSA <= self.mantissa
            <= MAX_PRICE_MANTISSA
    }

    /// A price from its mantissa and scale, if both are in range.
    pub fn new(mantissa: i128, scale: u32) -> (r: Option<Price>)
        ensures
            r is Some <==> (scale <= MAX_PRICE_SCALE && -MAX_PRICE_MANTISSA <= mantissa
                <= MAX_PRICE_MANTISSA),
            r matches Some(p) ==> p.mantissa == mantissa && p.scale == scale && p.wf(),
    {
        if scale <= MAX_PRICE_SCALE && -MAX_PRICE_MANTISSA <= mantissa && mantissa
            <= MAX_PRICE_MANTISSA {
            Some(Price { mantissa, scale })
        } else {
            None
        }
    }
}

/// Where a transaction stands in its lifecycle: its status, and when it
/// reached a terminal one. The completion time is set exactly when the
/// status is terminal; both change only through [`Lifecycle::settle`].
pub struct Lifecycle {
    status: TxStatus,
    completed_at: Option<i64>,
}

impl Lifecycle {
    #[verifier::type_invariant]
    spec fn inv(&self) -> bool {
        self.completed_at is Some <==> is_terminal(self.status)
    }

    pub closed spec fn spec_status(&self) -> TxStatus {
        self.status
    }

    pub closed spec fn spec_completed_at(&self) -> Option<i64> {
        self.completed_at
    }

    /// The state of a new transaction: active, not completed.
    pub fn new() -> (r: Lifecycle)
        ensures
            r.spec_status() == TxStatus::Active,
            r.spec_completed_at() is None,
    {
        Lifecycle { status: TxStatus::Active, completed_at: None }
    }

    pub fn status(&self) -> (r: TxStatus)
        ensures
            r == self.spec_status(),
    {
        self.status
    }

    /// When the lifecycle reached its terminal state; set exactly when the
    /// status is terminal.
    pub fn completed_at(&self) -> (r: Option<i64>)
        ensures
            r == self.spec_completed_at(),
            r is Some <==> is_terminal(self.spec_status()),
    {
        proof {
            use_type_invariant(self);
        }
        self.completed_at
    }

    /// Moves an active lifecycle to the terminal state that `target` names,
    /// stamped with `now`; a terminal one stays as it is. Returns whether it
    /// moved.
    pub fn settle(&mut self, target: Settle, now: i64) -> (moved: bool)
        ensures
            moved == (old(self).spec_status() == TxStatus::Active),
            final(self).spec_status() == step_status(old(self).spec_status(), target),
            final(self).spec_completed_at() == (if moved {
                Some(now)
            } else {
                old(self).spec_completed_at()
            }),
    {
        if self.status.is_terminal() {
            return false;
        }
        let status = match target {
            Settle::Complete => TxStatus::Completed,
            Settle::Fail => TxStatus::Failed,
        };
        *self = Lifecycle { status, completed_at: Some(now) };
        true
    }
}

/// A payment transaction. Times are Unix seconds.
pub struct Transaction {
    pub id: i64,
    pub telegram_id: i64,
    pub channel_id: i64,
    pub chat_id: i64,
    pub price: Price,
    pub currency: String,
    pub wallet_address: String,
    pub created_at: i64,
    pub message_id: i64,
    /// Ledger-specific metadata, as JSON text.
    pub transaction_data: String,
    pub lifecycle: Lifecycle,
}

impl Transaction {
    pub open spec fn spec_status(&self) -> TxStatus {
        self.lifecycle.spec_status()
    }

    /// A fresh, active transaction with empty metadata.
    pub fn new(
        id: i64,
        telegram_id: i64,
        channel_id: i64,
        chat_id: i64,
        price: Price,
        currency: String,
        wallet_address: String,
        created_at: i64,
        message_id: i64,
    ) -> (r: Transaction)
        ensures
            r.id == id && r.telegram_id == telegram_id && r.channel_id == channel_id,
            r.chat_id == chat_id && r.price == price && r.created_at == created_at,
            r.currency@ == currency@ && r.wallet_address@ == wallet_address@,
            r.message_id == message_id,
            r.transaction_data@ == "{}"@,
            r.spec_status() == TxStatus::Active,
            r.lifecycle.spec_completed_at() is None,
    {
        Transaction {
            id,
            telegram_id,
            channel_id,
            chat_id,
            price,
            currency,
            wallet_address,
            created_at,
            message_id,
            transaction_data: String::from_str("{}"),
            lifecycle: Lifecycle::new(),
        }
    }

    pub fn status(&self) -> (r: TxStatus)
        ensures
            r == self.spec_status(),
    {
        self.lifecycle.status()
    }

    pub fn completed_at(&self) -> (r: Option<i64>)
        ensures
            r == self.lifecycle.spec_completed_at(),
            r is Some <==> is_terminal(self.spec_status()),
    {
        self.lifecycle.completed_at()
    }
}

} // verus!
