//! Clearing received messages on the phone once they are stored locally.

use vstd::prelude::*;
use crate::command::{request_line, CommandSend};
use crate::exchange::{Action, ActionView, Exchange, Stage};

verus! {

/// How many messages the phone removed, with the phone's clock time.
#[derive(Clone, Debug, PartialEq, Eq, Default)]
pub struct SmsCount {
    pub time: String,
    pub sms: usize,
}

/// A decoded removal count together with the reply text it came from.
#[derive(Clone, Debug, PartialEq, Eq, Default)]
pub struct SmsInputDelete {
    pub sms: SmsCount,
    pub json: String,
}

impl SmsInputDelete {
    /// Starts the exchange that removes the messages that `param` selects with the server at `address`
    /// (command `DelSmsInput`).
    pub fn connect(address: String, param: &str) -> (r: (Exchange, Action))
        ensures
            r.0.stage() == Stage::Connecting,
            r.0.address() == address@,
            r.0.request() == request_line(CommandSend::DelSmsInput, param@),
            r.1@ == ActionView::Connect(address@),
    {
        Exchange::start(address, CommandSend::DelSmsInput, param)
    }

    /// The log of a finished exchange: the decoded removal count with its reply
    /// text, or the exchange's error message unchanged.
    pub fn finish(reply: Result<(SmsCount, String), String>) -> (r: Result<SmsInputDelete, String>)
        ensures
            match reply {
                Ok((v, json)) => r == Ok::<SmsInputDelete, String>(SmsInputDelete { sms: v, json }),
                Err(e) => r == Err::<SmsInputDelete, String>(e),
            },
    {
        match reply {
            Ok((v, json)) => Ok(SmsInputDelete { sms: v, json }),
            Err(e) => Err(e),
        }
    }
}

} // verus!
