//! The periodic watch over the phone's state: what each answer shows and
//! whether the watch goes on, and the button that starts and stops it.

use vstd::prelude::*;
use crate::text::same_text;

verus! {

/// What one tick of the watch leads to.
#[derive(Clone, Copy, Debug, PartialEq, Eq, Structural)]
pub struct Tick {
    /// Show the battery and radio panels.
    pub show_panels: bool,
    /// Mark that new messages wait on the phone (and allow fetching them).
    pub new_sms: bool,
    /// Mark that new calls wait on the phone.
    pub new_call: bool,
    /// Run the next tick.
    pub keep_running: bool,
}

/// Decides after asking the phone for its state. `counts` holds the
/// numbers of waiting messages and calls, or nothing when the exchange
/// failed; `address_editable` says whether the address field is shown,
/// which it is once the watch has been stopped.
pub fn after_info(counts: Option<(usize, usize)>, address_editable: bool) -> (t: Tick)
    ensures
        counts is None ==> t == (Tick { show_panels: false, new_sms: false, new_call: false, keep_running: false }),
        counts matches Some((sms, phone)) ==> t == (Tick {
            show_panels: true,
            new_sms: sms > 0,
            new_call: phone > 0,
            keep_running: !address_editable,
        }),
{
    match counts {
        None => Tick { show_panels: false, new_sms: false, new_call: false, keep_running: false },
        Some((sms, phone)) => Tick {
            show_panels: true,
            new_sms: sms > 0,
            new_call: phone > 0,
            keep_running: !address_editable,
        },
    }
}

/// What pressing the start/stop button does.
#[derive(Clone, Copy, Debug, PartialEq, Eq, Structural)]
pub struct Toggle {
    /// Start the watch (otherwise it is being stopped).
    pub start: bool,
    /// Show the address field.
    pub address_editable: bool,
}

/// Decides on a press of the button labelled `label`: `▶` starts the
/// watch and hides the address field; any other label stops it and shows
/// the field again.
pub fn toggle_monitoring(label: &str) -> (t: Toggle)
    ensures
        label@ == "▶"@ ==> t == (Toggle { start: true, address_editable: false }),
        label@ != "▶"@ ==> t == (Toggle { start: false, address_editable: true }),
{
    if same_text(label, "▶") {
        Toggle { start: true, address_editable: false }
    } else {
        Toggle { start: false, address_editable: true }
    }
}

/// The label of the start/stop button: `▶` while the address field is
/// shown (the watch is stopped), `⏹` while the watch runs.
pub fn monitoring_label(address_editable: bool) -> (label: &'static str)
    ensures
        address_editable ==> label@ == "▶"@,
        !address_editable ==> label@ == "⏹"@,
{
    if address_editable {
        "▶"
    } else {
        "⏹"
    }
}

} // verus!
