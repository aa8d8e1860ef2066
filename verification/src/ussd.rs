//! USSD requests (such as `*100#`) run by the phone.

use vstd::prelude::*;
use crate::command::{request_line, CommandSend};
use crate::exchange::{Action, ActionView, Exchange, Stage};

verus! {

/// The phone's answer to a USSD request: a failure text or the response.
#[derive(Clone, Debug, PartialEq, Eq, Default)]
pub struct Ussd {
    pub failure: String,
    pub response: String,
}

/// A decoded USSD answer together with the reply text it came from.
#[derive(Clone, Debug, PartialEq, Eq, Default)]
pub struct UssdLog {
    pub ussd: Ussd,
    pub json: String,
}

impl UssdLog {
    /// Starts the exchange that has the phone run the USSD request `ussd_text` with the server at `address`
    /// (command `UssdSend`).
    pub fn send(address: String, ussd_text: String) -> (r: (Exchange, Action))
        ensures
            r.0.stage() == Stage::Connecting,
            r.0.address() == address@,
            r.0.request() == request_line(CommandSend::UssdSend, ussd_text@),
            r.1@ == ActionView::Connect(address@),
    {
        Exchange::start(address, CommandSend::UssdSend, ussd_text.as_str())
    }

    /// Starts the exchange that reads the answer to the last USSD request with the server at `address`
    /// (command `UssdRespond`).
    pub fn response(address: String) -> (r: (Exchange, Action))
        ensures
            r.0.stage() == Stage::Connecting,
            r.0.address() == address@,
            r.0.request() == request_line(CommandSend::UssdRespond, ""@),
            r.1@ == ActionView::Connect(address@),
    {
        Exchange::start(address, CommandSend::UssdRespond, "")
    }

    /// The log of a finished exchange: the decoded USSD answer with its reply
    /// text, or the exchange's error message unchanged.
    pub fn finish(reply: Result<(Ussd, String), String>) -> (r: Result<UssdLog, String>)
        ensures
            match reply {
                Ok((v, json)) => r == Ok::<UssdLog, String>(UssdLog { ussd: v, json }),
                Err(e) => r == Err::<UssdLog, String>(e),
            },
    {
        match reply {
            Ok((v, json)) => Ok(UssdLog { ussd: v, json }),
            Err(e) => Err(e),
        }
    }
}

} // verus!
