//! Clearing calls on the phone once they are stored locally.

use vstd::prelude::*;
use crate::command::{request_line, CommandSend};
use crate::exchange::{Action, ActionView, Exchange, Stage};

verus! {

/// How many calls the phone removed, with the phone's clock time.
#[derive(Clone, Debug, PartialEq, Eq, Default)]
pub struct PhoneCount {
    pub time: String,
    pub phone: usize,
}

/// A decoded removal count together with the reply text it came from.
#[derive(Clone, Debug, PartialEq, Eq, Default)]
pub struct PhoneDelete {
    pub phone: PhoneCount,
    pub json: String,
}

impl PhoneDelete {
    /// Starts the exchange that removes the calls that `param` selects with the server at `address`
    /// (command `DelPhone`).
    pub fn connect(address: String, param: &str) -> (r: (Exchange, Action))
        ensures
            r.0.stage() == Stage::Connecting,
            r.0.address() == address@,
            r.0.request() == request_line(CommandSend::DelPhone, param@),
            r.1@ == ActionView::Connect(address@),
    {
        Exchange::start(address, CommandSend::DelPhone, param)
    }

    /// The log of a finished exchange: the decoded removal count with its reply
    /// text, or the exchange's error message unchanged.
    pub fn finish(reply: Result<(PhoneCount, String), String>) -> (r: Result<PhoneDelete, String>)
        ensures
            match reply {
                Ok((v, json)) => r == Ok::<PhoneDelete, String>(PhoneDelete { phone: v, json }),
                Err(e) => r == Err::<PhoneDelete, String>(e),
            },
    {
        match reply {
            Ok((v, json)) => Ok(PhoneDelete { phone: v, json }),
            Err(e) => Err(e),
        }
    }
}

} // verus!
