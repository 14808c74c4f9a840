//! Shared values of the bot's dialogues.

use crate::codec::{ascii_chars, i64_text, i64_to_string, parse_prefixed_i64, prefixed_i64};
use std::sync::Arc;
use vstd::prelude::*;
use vstd::string::StringExecFns;
use vstd::utf8::encode_utf8;

verus! {

/// Commands of the dialogue dispatcher; `Pay` carries its deep-link
/// argument.
#[derive(Clone, Debug, PartialEq, Eq)]
pub enum Commands {
    Start,
    Help,
    SetPrice,
    Info,
    Pay(String),
}

/// The wallet address that receives subscription payments.
#[derive(Clone)]
pub struct GateCryptoAddress(pub Arc<String>);

/// The base URL of the payment web page.
#[derive(Clone)]
pub struct PaymentGateway(pub Arc<String>);

impl GateCryptoAddress {
    /// The address as text.
    pub fn as_str(&self) -> (r: &str)
        ensures
            r@ == (*self.0)@,
    {
        self.0.as_str()
    }
}

impl PaymentGateway {
    /// The base URL as text.
    pub fn as_str(&self) -> (r: &str)
        ensures
            r@ == (*self.0)@,
    {
        self.0.as_str()
    }

    /// The page where the payer completes transaction `transaction_id`:
    /// `<base>/<id>`.
    pub fn payment_page_link(&self, transaction_id: i64) -> (r: String)
        ensures
            r@ == (*self.0)@ + "/"@ + ascii_chars(i64_text(transaction_id)),
    {
        let mut link = String::from_str(self.0.as_str());
        link.append("/");
        let id = i64_to_string(transaction_id);
        link.append(id.as_str());
        link
    }
}

/// The channel that a `/start pay_channel_<id>` deep-link message asks to
/// pay for.
pub fn pay_channel_from_start(text: &str) -> (r: Option<i64>)
    ensures
        r == prefixed_i64(encode_utf8(text@), encode_utf8("/start pay_channel_"@)),
{
    parse_prefixed_i64(text.as_bytes(), "/start pay_channel_".as_bytes())
}

/// The channel that a `channel_<id>` button press selects.
pub fn channel_from_callback(data: &str) -> (r: Option<i64>)
    ensures
        r == prefixed_i64(encode_utf8(data@), encode_utf8("channel_"@)),
{
    parse_prefixed_i64(data.as_bytes(), "channel_".as_bytes())
}

} // verus!
