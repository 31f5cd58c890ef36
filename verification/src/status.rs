//! The status-bar engine chip: what one poll of the capability API tells,
//! and how each state reads. It never claims a connection it did not see.

use vstd::prelude::*;
use crate::json::{self, JsonValue};
use crate::strs;

verus! {

/// What the chip knows about the engine.
#[derive(Clone, Debug, PartialEq, Eq)]
pub enum EngineState {
    NotConnected,
    Checking,
    Connected {
        broker: String,
        live_allowed: bool,
        /// The engine's plain capability sentence for the active broker (or
        /// the "no broker yet" line).
        capability_plain: String,
    },
    Unreachable,
}

/// The state a chip opens in: checking when a key is saved, else not
/// connected.
pub fn initial_state(has_saved_key: bool) -> (r: EngineState)
    ensures
        r == if has_saved_key { EngineState::Checking } else { EngineState::NotConnected },
{
    if has_saved_key {
        EngineState::Checking
    } else {
        EngineState::NotConnected
    }
}

/// The first broker entry marked `active: true`.
pub open spec fn first_active(items: Seq<JsonValue>) -> Option<JsonValue>
    decreases items.len(),
{
    if items.len() == 0 {
        None
    } else if json::bool_of(json::field(items[0], "active"@)) == Some(true) {
        Some(items[0])
    } else {
        first_active(items.drop_first())
    }
}

/// The capability sentence of a reply: the active broker's own plain
/// sentence, else the top-level one, else empty.
pub open spec fn capability_plain_of(value: JsonValue) -> Seq<char> {
    let from_broker = match json::items_of(json::field(value, "brokers"@)) {
        Some(items) => match first_active(items) {
            Some(b) => json::str_of(json::field(b, "plain"@)),
            None => None,
        },
        None => None,
    };
    match from_broker {
        Some(p) => p,
        None => match json::str_of(json::field(value, "plain"@)) {
            Some(p) => p,
            None => Seq::<char>::empty(),
        },
    }
}

/// The state one poll yields, as plain values: without a usable key, not
/// connected; a failed fetch, unreachable; a reply, connected with its
/// active broker (or "none yet"), live permission and capability sentence.
pub open spec fn polled_state(key_usable: bool, reply: Option<JsonValue>) -> (int, Seq<char>, bool, Seq<char>) {
    if !key_usable {
        (0, Seq::<char>::empty(), false, Seq::<char>::empty())
    } else {
        match reply {
            None => (3, Seq::<char>::empty(), false, Seq::<char>::empty()),
            Some(v) => (
                2,
                match json::str_of(json::field(v, "active_broker"@)) {
                    Some(b) => b,
                    None => "none yet"@,
                },
                json::bool_of(json::field(v, "live_allowed"@)) == Some(true),
                capability_plain_of(v),
            ),
        }
    }
}

/// The plain-value form of a state: 0 not connected, 1 checking, 2
/// connected (with its broker, live permission and sentence), 3 unreachable.
pub open spec fn state_view(s: EngineState) -> (int, Seq<char>, bool, Seq<char>) {
    match s {
        EngineState::NotConnected => (0, Seq::<char>::empty(), false, Seq::<char>::empty()),
        EngineState::Checking => (1, Seq::<char>::empty(), false, Seq::<char>::empty()),
        EngineState::Connected { broker, live_allowed, capability_plain } => (2, broker@, live_allowed, capability_plain@),
        EngineState::Unreachable => (3, Seq::<char>::empty(), false, Seq::<char>::empty()),
    }
}

fn active_broker_plain(items: &Vec<JsonValue>) -> (r: Option<&str>)
    ensures
        match r {
            Some(p) => (match first_active(items@) {
                Some(b) => json::str_of(json::field(b, "plain"@)),
                None => None,
            }) == Some(p@),
            None => (match first_active(items@) {
                Some(b) => json::str_of(json::field(b, "plain"@)),
                None => None,
            }) is None,
        },
{
    let mut i: usize = 0;
    assert(items@.skip(0) =~= items@);
    while i < items.len()
        invariant
            i <= items@.len(),
            first_active(items@) == first_active(items@.skip(i as int)),
        decreases items@.len() - i,
    {
        assert(items@.skip(i as int)[0] == items@[i as int]);
        assert(items@.skip(i as int).drop_first() =~= items@.skip(i + 1));
        let active = match items[i].get("active") {
            Some(a) => match a.as_bool() {
                Some(b) => b,
                None => false,
            },
            None => false,
        };
        if active {
            return match items[i].get("plain") {
                Some(p) => p.as_str(),
                None => None,
            };
        }
        i = i + 1;
    }
    assert(items@.skip(i as int).len() == 0);
    None
}

/// The state one poll of the capability API yields. `api_key` is the saved
/// key; `reply` is the engine's answer, or `None` when the fetch failed (or
/// was not made for want of a key).
pub fn engine_state_from(api_key: Option<&str>, reply: Option<&JsonValue>) -> (r: EngineState)
    ensures
        state_view(r) == polled_state(
            match api_key {
                Some(k) => strs::trim(k@).len() > 0,
                None => false,
            },
            match reply {
                Some(v) => Some(*v),
                None => None,
            },
        ),
{
    let usable = match api_key {
        Some(k) => !strs::is_blank(k),
        None => false,
    };
    if !usable {
        return EngineState::NotConnected;
    }
    let value = match reply {
        Some(v) => v,
        None => return EngineState::Unreachable,
    };
    let broker = match value.get("active_broker") {
        Some(b) => match b.as_str() {
            Some(s) => strs::own(s),
            None => strs::own("none yet"),
        },
        None => strs::own("none yet"),
    };
    let live_allowed = match value.get("live_allowed") {
        Some(b) => match b.as_bool() {
            Some(x) => x,
            None => false,
        },
        None => false,
    };
    let from_broker = match value.get("brokers") {
        Some(bs) => match bs.as_array() {
            Some(items) => active_broker_plain(items),
            None => None,
        },
        None => None,
    };
    let capability_plain = match from_broker {
        Some(p) => strs::own(p),
        None => match value.get("plain") {
            Some(p) => match p.as_str() {
                Some(s) => strs::own(s),
                None => String::new(),
            },
            None => String::new(),
        },
    };
    EngineState::Connected { broker, live_allowed, capability_plain }
}

/// The colour of the chip's dot.
#[derive(Clone, Copy, Debug, PartialEq, Eq)]
pub enum DotTone {
    Muted,
    Warning,
    Error,
    Success,
}

/// The license note the connected tooltip ends with.
pub open spec fn license_note_of(live_allowed: bool) -> Seq<char> {
    if live_allowed {
        "Real-money trading is allowed by your license — paper stays the default."@
    } else {
        "Real-money trading is not yet enabled on your license; paper trading works."@
    }
}

/// The chip's dot tone, text and tooltip for a state.
pub open spec fn chip_of(s: EngineState) -> (DotTone, Seq<char>, Seq<char>) {
    match s {
        EngineState::NotConnected => (
            DotTone::Muted,
            "engine: not connected"@,
            "Your Auracle engine isn't connected yet. Click to connect."@,
        ),
        EngineState::Checking => (
            DotTone::Warning,
            "engine: checking…"@,
            "Asking your engine how it's doing — usually a moment."@,
        ),
        EngineState::Unreachable => (
            DotTone::Error,
            "engine: unreachable"@,
            "Your engine didn't answer. It may be stopped — start it, or click to check the connection details."@,
        ),
        EngineState::Connected { broker, live_allowed, capability_plain } => (
            DotTone::Success,
            "engine: on · broker: "@ + broker@ + " · "@ + (if live_allowed { "live ok"@ } else { "paper only"@ }),
            if capability_plain@.len() == 0 {
                license_note_of(live_allowed)
            } else {
                capability_plain@ + " "@ + license_note_of(live_allowed)
            },
        ),
    }
}

/// What the chip shows for a state: dot tone, glance text, tooltip.
pub fn chip(state: &EngineState) -> (r: (DotTone, String, String))
    ensures
        (r.0, r.1@, r.2@) == chip_of(*state),
{
    match state {
        EngineState::NotConnected => (
            DotTone::Muted,
            strs::own("engine: not connected"),
            strs::own("Your Auracle engine isn't connected yet. Click to connect."),
        ),
        EngineState::Checking => (
            DotTone::Warning,
            strs::own("engine: checking…"),
            strs::own("Asking your engine how it's doing — usually a moment."),
        ),
        EngineState::Unreachable => (
            DotTone::Error,
            strs::own("engine: unreachable"),
            strs::own("Your engine didn't answer. It may be stopped — start it, or click to check the connection details."),
        ),
        EngineState::Connected { broker, live_allowed, capability_plain } => {
            let mut text = strs::own("engine: on · broker: ");
            strs::append_str(&mut text, broker.as_str());
            strs::append_str(&mut text, " · ");
            strs::append_str(&mut text, if *live_allowed { "live ok" } else { "paper only" });
            let note = if *live_allowed {
                "Real-money trading is allowed by your license — paper stays the default."
            } else {
                "Real-money trading is not yet enabled on your license; paper trading works."
            };
            let tip = if strs::chars_of(capability_plain.as_str()).len() == 0 {
                strs::own(note)
            } else {
                let mut t = capability_plain.clone();
                strs::append_str(&mut t, " ");
                strs::append_str(&mut t, note);
                t
            };
            (DotTone::Success, text, tip)
        },
    }
}

} // verus!
