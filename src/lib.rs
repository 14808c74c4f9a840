//! Settlement pipeline for crypto-paid channel subscriptions: the correlation
//! codec, the idempotency guard, the payment-intent queue, ledger
//! reconciliation and the transaction state machine, with the plain values
//! that the bot and the web API share.

pub mod auth;
pub mod codec;
pub mod commands;
pub mod event;
pub mod guard;
pub mod ledger;
pub mod settlement;
pub mod state;
pub mod transaction;
pub mod ui;
