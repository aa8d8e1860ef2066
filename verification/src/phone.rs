//! The phone's log of calls.

use vstd::prelude::*;
use crate::command::{request_line, CommandSend};
use crate::exchange::{Action, ActionView, Exchange, Stage};

verus! {

/// One call: its id on the phone, when it happened, the number, and the
/// line's state.
#[derive(Clone, Debug, PartialEq, Eq, Default)]
pub struct Phone {
    pub id: String,
    pub time: String,
    pub phone: String,
    pub status: String,
}

/// The calls as the phone sends them, with the phone's clock time.
#[derive(Clone, Debug, PartialEq, Eq, Default)]
pub struct Phones {
    pub time: String,
    pub phone: Vec<Phone>,
}

/// Decoded calls together with the reply text they came from.
#[derive(Clone, Debug, PartialEq, Eq, Default)]
pub struct PhoneLog {
    pub phones: Phones,
    pub json: String,
}

impl PhoneLog {
    /// Starts the exchange that fetches the calls with the server at `address`
    /// (command `PHONE`).
    pub fn connect(address: String) -> (r: (Exchange, Action))
        ensures
            r.0.stage() == Stage::Connecting,
            r.0.address() == address@,
            r.0.request() == request_line(CommandSend::PHONE, ""@),
            r.1@ == ActionView::Connect(address@),
    {
        Exchange::start(address, CommandSend::PHONE, "")
    }

    /// The log of a finished exchange: the decoded calls with its reply
    /// text, or the exchange's error message unchanged.
    pub fn finish(reply: Result<(Phones, String), String>) -> (r: Result<PhoneLog, String>)
        ensures
            match reply {
                Ok((v, json)) => r == Ok::<PhoneLog, String>(PhoneLog { phones: v, json }),
                Err(e) => r == Err::<PhoneLog, String>(e),
            },
    {
        match reply {
            Ok((v, json)) => Ok(PhoneLog { phones: v, json }),
            Err(e) => Err(e),
        }
    }
}

} // verus!
