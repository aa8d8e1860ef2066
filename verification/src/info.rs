//! The phone's radio state, and the exchange that asks for it.

use vstd::prelude::*;
use crate::command::{request_line, CommandSend};
use crate::exchange::{Action, ActionView, Exchange, Stage};

verus! {

/// Parameters of the active mobile connection.
#[derive(Clone, Debug, PartialEq, Eq, Default)]
pub struct Signal {
    pub rsrp: i64,
    pub rsrq: i64,
    pub rssi: i64,
    pub network_type: String,
    pub sim_county_iso: String,
    pub sim_operator: String,
    pub sim_operator_name: String,
}

/// Starts the exchange that asks the server at `address` for the phone's
/// state (battery and radio; command `INFO`, empty parameter).
pub fn connect_info(address: String) -> (r: (Exchange, Action))
    ensures
        r.0.stage() == Stage::Connecting,
        r.0.address() == address@,
        r.0.request() == request_line(CommandSend::INFO, ""@),
        r.1@ == ActionView::Connect(address@),
{
    Exchange::start(address, CommandSend::INFO, "")
}

} // verus!
