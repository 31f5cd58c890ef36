//! The unified connector data model and the decisions the connect surface
//! makes over it. Every connector — broker, data provider or integration —
//! arrives in the same shape, so one flow (list → fields → test → save →
//! disconnect) covers all three.
//!
//! Honesty laws: a connector reads "connected" only when the engine's status
//! says so, and a test result comes only from a real engine round-trip.

use vstd::prelude::*;
use crate::json::{self, JsonValue};
use crate::strs;

verus! {

/// The most credential fields a connector form shows.
pub const MAX_FIELDS: usize = 10;

/// One connector's live status, exactly as the engine reports it. `state` is
/// the engine's vocabulary (`connected`, `not_configured`, `error`, …).
#[derive(Clone, Debug, PartialEq, Eq)]
pub struct ConnStatus {
    pub state: String,
    pub detail: Option<String>,
}

impl Default for ConnStatus {
    fn default() -> (s: Self)
        ensures
            s.state@.len() == 0,
            s.detail is None,
    {
        ConnStatus { state: String::new(), detail: None }
    }
}

/// Whether a status state reads as connected.
pub open spec fn connected_state(state: Seq<char>) -> bool {
    state == "connected"@
}

impl ConnStatus {
    /// True only when the engine reports a live, configured connection.
    pub fn is_connected(&self) -> (r: bool)
        ensures
            r == connected_state(self.state@),
    {
        strs::eq_str(self.state.as_str(), "connected")
    }
}

/// One credential field of a connector.
#[derive(Clone, Debug, PartialEq, Eq)]
pub struct FieldMeta {
    pub name: String,
    pub label: String,
    pub kind: String,
    pub required: bool,
    pub has_value: bool,
    pub preview: String,
    pub options: Vec<String>,
}

impl Default for FieldMeta {
    fn default() -> (s: Self)
        ensures
            s.name@.len() == 0 && s.label@.len() == 0 && s.kind@.len() == 0 && s.preview@.len() == 0,
            !s.required && !s.has_value,
            s.options@.len() == 0,
    {
        FieldMeta {
            name: String::new(),
            label: String::new(),
            kind: String::new(),
            required: false,
            has_value: false,
            preview: String::new(),
            options: Vec::new(),
        }
    }
}

/// One connector in the unified registry.
#[derive(Clone, Debug, PartialEq, Eq)]
pub struct Connector {
    pub id: String,
    pub display_label: String,
    pub blurb: String,
    /// `broker` | `data_provider` | `integration`.
    pub kind: String,
    pub status: ConnStatus,
    /// Credential fields — empty in list responses, populated in detail.
    pub fields: Vec<FieldMeta>,
    pub asset_kinds: Vec<String>,
    /// Whether the engine exposes a real Test probe for this connector.
    pub test_supported: bool,
    /// Whether the operator's tier blocks connecting this connector.
    pub gated: bool,
    pub gated_reason: String,
}

/// What the engine verified a connector can do: each leg (`data`, `paper`,
/// `live`) with its state (`yes`, `no`, or anything else for unverified),
/// and the asset kinds it trades.
#[derive(Clone, Debug, PartialEq, Eq)]
pub struct Capability {
    pub capabilities: Vec<(String, String)>,
    pub asset_kinds: Vec<String>,
    pub unsupported: Vec<String>,
    pub ok: bool,
    pub reason: String,
    pub error: Option<String>,
}

/// The license block of the operator's account: `state` is `active`,
/// `expired` or `none`.
#[derive(Clone, Debug, PartialEq, Eq)]
pub struct LicenseStatus {
    pub state: String,
    pub expiry: Option<String>,
}

/// The operator's account as the engine reports it; it carries no secret.
/// `manage_url` is the billing portal, when one is configured.
#[derive(Clone, Debug, PartialEq, Eq)]
pub struct Account {
    pub email: String,
    pub tier: String,
    pub license_status: LicenseStatus,
    pub manage_url: Option<String>,
}

impl Default for Connector {
    fn default() -> (s: Self)
        ensures
            s.id@.len() == 0 && s.display_label@.len() == 0 && s.blurb@.len() == 0 && s.kind@.len() == 0,
            s.status.state@.len() == 0 && s.status.detail is None,
            s.fields@.len() == 0 && s.asset_kinds@.len() == 0,
            !s.test_supported && !s.gated && s.gated_reason@.len() == 0,
    {
        Connector {
            id: String::new(),
            display_label: String::new(),
            blurb: String::new(),
            kind: String::new(),
            status: ConnStatus::default(),
            fields: Vec::new(),
            asset_kinds: Vec::new(),
            test_supported: false,
            gated: false,
            gated_reason: String::new(),
        }
    }
}

/// How many of `cs` read as connected.
pub open spec fn connected_count(cs: Seq<Connector>) -> nat
    decreases cs.len(),
{
    if cs.len() == 0 {
        0
    } else {
        connected_count(cs.drop_last()) + if connected_state(cs.last().status.state@) { 1nat } else { 0nat }
    }
}

proof fn lemma_connected_count_bound(cs: Seq<Connector>)
    ensures
        connected_count(cs) <= cs.len(),
    decreases cs.len(),
{
    if cs.len() > 0 {
        lemma_connected_count_bound(cs.drop_last());
    }
}

/// The one-line summary of a section with `n` of `total` connected.
pub open spec fn summary_of(n: nat, total: nat) -> Seq<char> {
    if total == 0 {
        "None available"@
    } else if n == 0 {
        "None connected"@
    } else if n == total && total == 1 {
        "Connected"@
    } else if n == total {
        "All "@ + strs::decimal(total) + " connected"@
    } else {
        strs::decimal(n) + " of "@ + strs::decimal(total) + " connected"@
    }
}

fn count_connected(connectors: &[Connector]) -> (r: usize)
    ensures
        r == connected_count(connectors@),
        r <= connectors@.len(),
{
    let mut n: usize = 0;
    let mut i: usize = 0;
    while i < connectors.len()
        invariant
            i <= connectors@.len(),
            n == connected_count(connectors@.take(i as int)),
            n <= i,
        decreases connectors@.len() - i,
    {
        assert(connectors@.take(i + 1).drop_last() =~= connectors@.take(i as int));
        if connectors[i].status.is_connected() {
            n = n + 1;
        }
        i = i + 1;
    }
    assert(connectors@.take(i as int) =~= connectors@);
    n
}

/// A one-line, honest status summary for a section of connectors.
pub fn section_summary(connectors: &[Connector]) -> (r: String)
    ensures
        r@ == summary_of(connected_count(connectors@), connectors@.len()),
{
    if connectors.len() == 0 {
        return strs::own("None available");
    }
    let connected = count_connected(connectors);
    let total = connectors.len();
    if connected == 0 {
        strs::own("None connected")
    } else if connected == total && total == 1 {
        strs::own("Connected")
    } else if connected == total {
        let mut r = strs::own("All ");
        strs::push_decimal(&mut r, total as u64);
        strs::append_str(&mut r, " connected");
        r
    } else {
        let mut r = strs::decimal_string(connected as u64);
        strs::append_str(&mut r, " of ");
        strs::push_decimal(&mut r, total as u64);
        strs::append_str(&mut r, " connected");
        r
    }
}

/// Whether a section should start expanded: one with nothing connected opens
/// to invite the operator to connect; an already-set-up one stays collapsed.
pub fn default_expanded(connectors: &[Connector]) -> (r: bool)
    ensures
        r == (connectors@.len() > 0 && connected_count(connectors@) == 0),
{
    connectors.len() > 0 && count_connected(connectors) == 0
}

/// The path that lists connectors of a kind; an empty kind is the engine's
/// brokers-only default.
pub fn connections_path(kind: &str) -> (r: String)
    ensures
        r@ == if kind@.len() == 0 { "/ui/api/connections"@ } else { "/ui/api/connections?kind="@ + kind@ },
{
    if strs::chars_of(kind).len() == 0 {
        strs::own("/ui/api/connections")
    } else {
        let mut r = strs::own("/ui/api/connections?kind=");
        strs::append_str(&mut r, kind);
        r
    }
}

/// The result a credentials test reports: the engine's verdict `ok` with its
/// message, or a stock sentence when the message is empty.
pub open spec fn test_result_of(value: JsonValue) -> Result<Seq<char>, Seq<char>> {
    let ok = match json::bool_of(json::field(value, "ok"@)) {
        Some(b) => b,
        None => false,
    };
    let message = match json::str_of(json::field(value, "message"@)) {
        Some(m) => m,
        None => Seq::<char>::empty(),
    };
    if ok {
        Ok(if message.len() == 0 { "Connected — the engine accepted these credentials."@ } else { message })
    } else {
        Err(if message.len() == 0 { "the engine did not accept these credentials"@ } else { message })
    }
}

/// Read a credentials-test reply: `Ok` with the engine's message only when it
/// says `ok: true`; anything else is an error carrying its message.
pub fn test_result(value: &JsonValue) -> (r: Result<String, String>)
    ensures
        match r {
            Ok(m) => test_result_of(*value) == Ok::<Seq<char>, Seq<char>>(m@),
            Err(m) => test_result_of(*value) == Err::<Seq<char>, Seq<char>>(m@),
        },
{
    let ok = match value.get("ok") {
        Some(v) => match v.as_bool() {
            Some(b) => b,
            None => false,
        },
        None => false,
    };
    let message = match value.get("message") {
        Some(v) => match v.as_str() {
            Some(s) => strs::own(s),
            None => String::new(),
        },
        None => String::new(),
    };
    let empty = strs::chars_of(message.as_str()).len() == 0;
    if ok {
        Ok(if empty { strs::own("Connected — the engine accepted these credentials.") } else { message })
    } else {
        Err(if empty { strs::own("the engine did not accept these credentials") } else { message })
    }
}

/// The CSRF token a `Set-Cookie` value carries: the text after
/// `auracle_csrf=` up to the first `;`.
pub open spec fn csrf_of(cookie: Seq<char>) -> Option<Seq<char>> {
    let p = "auracle_csrf="@;
    if strs::has_prefix(cookie, p) {
        Some(strs::split(cookie.skip(p.len() as int), ';')[0])
    } else {
        None
    }
}

/// The CSRF token of a `Set-Cookie` header value, if it sets `auracle_csrf`.
pub fn csrf_from_cookie(cookie: &str) -> (r: Option<String>)
    ensures
        strs::opt_view(r) == csrf_of(cookie@),
{
    let v = strs::chars_of(cookie);
    let p = strs::chars_of("auracle_csrf=");
    if !strs::starts_with(&v, &p) {
        return None;
    }
    let rest = strs::sub_chars(&v, p.len(), v.len());
    assert(rest@ =~= v@.skip(p@.len() as int));
    let parts = strs::split_exec(&rest, ';');
    proof {
        strs::lemma_split_len(rest@, ';');
        assert(strs::views(parts@)[0] == parts@[0]@);
    }
    Some(strs::string_of_chars(&parts[0]))
}

/// The `(provider, key)` pair an AI-key handoff reply carries: the reply's
/// provider (or the one asked for) and its key, which must be present.
pub open spec fn ai_key_of(value: JsonValue, provider: Seq<char>) -> Option<(Seq<char>, Seq<char>)> {
    let p = match json::str_of(json::field(value, "provider"@)) {
        Some(s) => s,
        None => provider,
    };
    match json::str_of(json::field(value, "key"@)) {
        Some(k) => Some((p, k)),
        None => None,
    }
}

/// Read an AI-key handoff reply; `None` when the engine returned no key.
pub fn ai_key_from(value: &JsonValue, provider: &str) -> (r: Option<(String, String)>)
    ensures
        match r {
            Some(pk) => ai_key_of(*value, provider@) == Some((pk.0@, pk.1@)),
            None => ai_key_of(*value, provider@) is None,
        },
{
    let p = match value.get("provider") {
        Some(v) => match v.as_str() {
            Some(s) => strs::own(s),
            None => strs::own(provider),
        },
        None => strs::own(provider),
    };
    match value.get("key") {
        Some(v) => match v.as_str() {
            Some(k) => Some((p, strs::own(k))),
            None => None,
        },
        None => None,
    }
}

/// The bundled logo of a connector, when one ships.
pub open spec fn logo_of(id: Seq<char>) -> Option<Seq<char>> {
    if id == "ibkr"@ || id == "ibkr_cp"@ {
        Some("icons/brokers/interactive-brokers.svg"@)
    } else if id == "alpaca"@ {
        Some("icons/brokers/alpaca.svg"@)
    } else if id == "quantconnect"@ {
        Some("icons/brokers/quantconnect.svg"@)
    } else {
        None
    }
}

/// The bundled official logo for a connection, or `None` for a connector
/// that falls back to a monogram tile.
pub fn broker_logo_path(id: &str) -> (r: Option<&'static str>)
    ensures
        strs::opt_str_view(r) == logo_of(id@),
{
    if strs::eq_str(id, "ibkr") || strs::eq_str(id, "ibkr_cp") {
        Some("icons/brokers/interactive-brokers.svg")
    } else if strs::eq_str(id, "alpaca") {
        Some("icons/brokers/alpaca.svg")
    } else if strs::eq_str(id, "quantconnect") {
        Some("icons/brokers/quantconnect.svg")
    } else {
        None
    }
}

/// The brand colour (`0xRRGGBB`) of a monogram tile.
pub fn brand_rgb(id: &str) -> (r: u32)
    ensures
        r == if id@ == "clearstreet"@ {
            0x1466FFu32
        } else if id@ == "hyperliquid"@ {
            0x0E9C84u32
        } else if id@ == "polygon"@ {
            0x5B3DF5u32
        } else {
            0x6B7280u32
        },
{
    if strs::eq_str(id, "clearstreet") {
        0x1466FF
    } else if strs::eq_str(id, "hyperliquid") {
        0x0E9C84
    } else if strs::eq_str(id, "polygon") {
        0x5B3DF5
    } else {
        0x6B7280
    }
}

/// The alphanumeric characters of `s`, in order.
pub open spec fn alnum_chars(s: Seq<char>) -> Seq<char>
    decreases s.len(),
{
    if s.len() == 0 {
        s
    } else if strs::is_alnum(s.last()) {
        alnum_chars(s.drop_last()).push(s.last())
    } else {
        alnum_chars(s.drop_last())
    }
}

/// At most the first two characters of `s`.
pub open spec fn first_two(s: Seq<char>) -> Seq<char> {
    if s.len() <= 2 { s } else { s.take(2) }
}

/// The monogram of a connector without a bundled logo: a curated mark for
/// known connectors, else the first two alphanumeric characters of the label
/// (or of the id when the label is empty), uppercased; `?` when there are
/// none.
pub open spec fn monogram_of(id: Seq<char>, label: Seq<char>) -> Seq<char> {
    if id == "clearstreet"@ {
        "CS"@
    } else if id == "hyperliquid"@ {
        "HL"@
    } else if id == "polygon"@ {
        "PG"@
    } else {
        let source = if label.len() == 0 { id } else { label };
        let mono = first_two(alnum_chars(source));
        if mono.len() == 0 { "?"@ } else { strs::uppercase_str_of(mono) }
    }
}

/// A short, stable monogram for the fallback tile.
pub fn brand_monogram(id: &str, label: &str) -> (r: String)
    ensures
        r@ == monogram_of(id@, label@),
{
    if strs::eq_str(id, "clearstreet") {
        return strs::own("CS");
    } else if strs::eq_str(id, "hyperliquid") {
        return strs::own("HL");
    } else if strs::eq_str(id, "polygon") {
        return strs::own("PG");
    }
    let source = if strs::chars_of(label).len() == 0 { strs::chars_of(id) } else { strs::chars_of(label) };
    let mut mono = String::new();
    let mut i: usize = 0;
    assert(source@.take(0) =~= Seq::<char>::empty());
    while i < source.len()
        invariant
            i <= source@.len(),
            mono@ == first_two(alnum_chars(source@.take(i as int))),
        decreases source@.len() - i,
    {
        let ghost before = alnum_chars(source@.take(i as int));
        assert(source@.take(i + 1).drop_last() =~= source@.take(i as int));
        assert(source@.take(i + 1).last() == source@[i as int]);
        if strs::char_is_alphanumeric(source[i]) && strs::chars_of(mono.as_str()).len() < 2 {
            strs::push_char(&mut mono, source[i]);
            assert(before.push(source@[i as int]).take(before.len() as int + 1) =~= before.push(source@[i as int]));
        }
        proof {
            let after = alnum_chars(source@.take(i + 1));
            if strs::is_alnum(source@[i as int]) {
                assert(after == before.push(source@[i as int]));
                if before.len() >= 2 {
                    assert(after.take(2) =~= before.take(2));
                }
            }
        }
        i = i + 1;
    }
    assert(source@.take(i as int) =~= source@);
    if strs::chars_of(mono.as_str()).len() == 0 {
        strs::own("?")
    } else {
        strs::str_to_uppercase(mono.as_str())
    }
}

} // verus!
