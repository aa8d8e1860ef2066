//! Text messages received by the phone.

use vstd::prelude::*;
use crate::command::{request_line, CommandSend};
use crate::exchange::{Action, ActionView, Exchange, Stage};

verus! {

/// One received message.
#[derive(Clone, Debug, PartialEq, Eq, Default)]
pub struct Sms {
    pub id: String,
    pub time: String,
    pub phone: String,
    pub body: String,
}

/// The received messages as the phone sends them, with its clock time.
#[derive(Clone, Debug, PartialEq, Eq, Default)]
pub struct SmsInput {
    pub time: String,
    pub sms: Vec<Sms>,
}

/// Decoded messages together with the reply text they came from.
#[derive(Clone, Debug, PartialEq, Eq, Default)]
pub struct SmsInputLog {
    pub sms_input: SmsInput,
    pub json: String,
}

impl SmsInputLog {
    /// Starts the exchange that fetches the received messages with the server at `address`
    /// (command `SmsInput`).
    pub fn connect(address: String) -> (r: (Exchange, Action))
        ensures
            r.0.stage() == Stage::Connecting,
            r.0.address() == address@,
            r.0.request() == request_line(CommandSend::SmsInput, ""@),
            r.1@ == ActionView::Connect(address@),
    {
        Exchange::start(address, CommandSend::SmsInput, "")
    }

    /// The log of a finished exchange: the decoded messages with its reply
    /// text, or the exchange's error message unchanged.
    pub fn finish(reply: Result<(SmsInput, String), String>) -> (r: Result<SmsInputLog, String>)
        ensures
            match reply {
                Ok((v, json)) => r == Ok::<SmsInputLog, String>(SmsInputLog { sms_input: v, json }),
                Err(e) => r == Err::<SmsInputLog, String>(e),
            },
    {
        match reply {
            Ok((v, json)) => Ok(SmsInputLog { sms_input: v, json }),
            Err(e) => Err(e),
        }
    }
}

} // verus!
