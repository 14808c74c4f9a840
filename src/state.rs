//! Dialogue states of the bot's conversations.

use vstd::prelude::*;

verus! {

/// Setting a channel's price.
#[derive(Clone, Debug)]
pub enum PriceState {
    Start,
    PriceSelectChannel,
    EnterPrice { channel_id: i64, channel_name: String },
    EnterCryptoAddress { channel_id: i64 },
}

impl Default for PriceState {
    fn default() -> (r: PriceState)
        ensures
            r is Start,
    {
        PriceState::Start
    }
}

/// Paying for a channel.
#[derive(Clone, Debug)]
#[allow(inconsistent_fields)]
pub enum PayState {
    Start,
    SelectChannel { channel_id: Option<i64> },
    Pay { channel_id: i64, channel_name: String },
    PaymentStatus,
}

impl Default for PayState {
    fn default() -> (r: PayState)
        ensures
            r is Start,
    {
        PayState::Start
    }
}

/// Showing a channel's information.
#[derive(Clone, Copy, Debug, PartialEq, Eq, Structural)]
pub enum ShowInfoState {
    Start,
    SelectChannel,
}

impl Default for ShowInfoState {
    fn default() -> (r: ShowInfoState)
        ensures
            r == ShowInfoState::Start,
    {
        ShowInfoState::Start
    }
}

} // verus!
