//! The bot's slash commands.

use vstd::prelude::*;

verus! {

/// Commands that the bot answers.
#[derive(Clone, Copy, Debug, PartialEq, Eq, Structural)]
pub enum Commands {
    /// Start dealing with the bot.
    Start,
    /// List the available commands.
    Help,
    /// Set the price of an owned channel.
    SetPrice,
    /// Show information about an owned channel.
    Info,
    /// Pay for a channel subscription.
    Pay,
}

} // verus!
