//! The states every polled dock panel moves through and the placeholder it
//! shows while it can't render real rows. No state is "green" of its own: a
//! panel renders rows only after a real engine round-trip.

use vstd::prelude::*;
use crate::strs;

verus! {

/// The four connection states of a polled panel.
#[derive(Clone, Debug, PartialEq, Eq)]
pub enum PanelStatus {
    NotConnected,
    Loading,
    Connected,
    Unreachable,
}

impl PanelStatus {
    /// The status a freshly-loaded panel starts in: `Loading` when a key is
    /// already saved (a poll is imminent), else `NotConnected`.
    pub fn initial(has_saved_key: bool) -> (r: Self)
        ensures
            r == if has_saved_key { PanelStatus::Loading } else { PanelStatus::NotConnected },
    {
        if has_saved_key {
            PanelStatus::Loading
        } else {
            PanelStatus::NotConnected
        }
    }
}

/// The lines a panel shows in its non-connected states and when connected
/// but empty.
#[derive(Clone, Debug, PartialEq, Eq)]
pub struct PlaceholderLabels {
    /// Stable element id for the Connect button.
    pub connect_button_id: &'static str,
    /// Shown while the first poll is in flight.
    pub loading: String,
    /// Shown when the engine is reachable but the feed is empty.
    pub empty: String,
    /// Shown when no key is saved yet.
    pub not_connected: String,
    /// Shown when a saved key's engine didn't answer.
    pub unreachable: String,
}

impl PlaceholderLabels {
    /// The common defaults: the standard not-connected and unreachable lines
    /// plus the given connect-button id, loading and empty lines.
    pub fn new(connect_button_id: &'static str, loading: &str, empty: &str) -> (r: Self)
        ensures
            r.connect_button_id == connect_button_id,
            r.loading@ == loading@,
            r.empty@ == empty@,
            r.not_connected@ == "Not connected to your Auracle engine yet."@,
            r.unreachable@ == "Your engine didn't answer. It may be stopped."@,
    {
        PlaceholderLabels {
            connect_button_id,
            loading: strs::own(loading),
            empty: strs::own(empty),
            not_connected: strs::own("Not connected to your Auracle engine yet."),
            unreachable: strs::own("Your engine didn't answer. It may be stopped."),
        }
    }
}

/// A placeholder body: its line, and whether it carries the Connect button.
#[derive(Clone, Debug, PartialEq, Eq)]
pub struct Placeholder {
    pub text: String,
    pub connect_button: bool,
}

/// The placeholder for a status, or `None` when the panel renders its rows.
pub open spec fn placeholder_of(status: PanelStatus, is_empty: bool, labels: PlaceholderLabels) -> Option<(Seq<char>, bool)> {
    match status {
        PanelStatus::NotConnected => Some((labels.not_connected@, true)),
        PanelStatus::Loading => Some((labels.loading@, false)),
        PanelStatus::Unreachable => Some((labels.unreachable@, false)),
        PanelStatus::Connected => if is_empty { Some((labels.empty@, false)) } else { None },
    }
}

/// The four-state placeholder: `None` when connected with rows, so the
/// caller renders its own; otherwise the matching line (with the Connect
/// button when no key is saved).
pub fn placeholder_body(status: &PanelStatus, is_empty: bool, labels: &PlaceholderLabels) -> (r: Option<Placeholder>)
    ensures
        match r {
            Some(p) => placeholder_of(*status, is_empty, *labels) == Some((p.text@, p.connect_button)),
            None => placeholder_of(*status, is_empty, *labels) is None,
        },
{
    match status {
        PanelStatus::NotConnected => Some(Placeholder { text: labels.not_connected.clone(), connect_button: true }),
        PanelStatus::Loading => Some(Placeholder { text: labels.loading.clone(), connect_button: false }),
        PanelStatus::Unreachable => Some(Placeholder { text: labels.unreachable.clone(), connect_button: false }),
        PanelStatus::Connected => {
            if is_empty {
                Some(Placeholder { text: labels.empty.clone(), connect_button: false })
            } else {
                None
            }
        },
    }
}

} // verus!
