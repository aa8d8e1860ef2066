//! Removing address-book entries on the phone.

use vstd::prelude::*;
use crate::command::{request_line, CommandSend};
use crate::exchange::{Action, ActionView, Exchange, Stage};

verus! {

/// How many entries the phone removed, with the phone's clock time.
#[derive(Clone, Debug, PartialEq, Eq, Default)]
pub struct ContactsDelete {
    pub time: String,
    pub count: usize,
}

/// A decoded removal count together with the reply text it came from.
#[derive(Clone, Debug, PartialEq, Eq, Default)]
pub struct ContactDeleteLog {
    pub contacts: ContactsDelete,
    pub json: String,
}

impl ContactDeleteLog {
    /// Starts the exchange that removes the entries that `param` selects with the server at `address`
    /// (command `DelContact`).
    pub fn connect(address: String, param: &str) -> (r: (Exchange, Action))
        ensures
            r.0.stage() == Stage::Connecting,
            r.0.address() == address@,
            r.0.request() == request_line(CommandSend::DelContact, param@),
            r.1@ == ActionView::Connect(address@),
    {
        Exchange::start(address, CommandSend::DelContact, param)
    }

    /// The log of a finished exchange: the decoded removal count with its reply
    /// text, or the exchange's error message unchanged.
    pub fn finish(reply: Result<(ContactsDelete, String), String>) -> (r: Result<ContactDeleteLog, String>)
        ensures
            match reply {
                Ok((v, json)) => r == Ok::<ContactDeleteLog, String>(ContactDeleteLog { contacts: v, json }),
                Err(e) => r == Err::<ContactDeleteLog, String>(e),
            },
    {
        match reply {
            Ok((v, json)) => Ok(ContactDeleteLog { contacts: v, json }),
            Err(e) => Err(e),
        }
    }
}

} // verus!
