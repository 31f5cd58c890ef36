//! The credentials form of one connector, as the settings panel and the
//! first-run wizard both drive it: open a connector, receive its fields,
//! choose options, then test, save or disconnect through the engine.
//!
//! Honesty rule: a connector reads as set up only after the engine accepted
//! a save, and a test verdict is only ever the engine's own answer.

use vstd::prelude::*;
use crate::connections::{self, Capability, Connector, FieldMeta};
use crate::json::JsonValue;
use crate::model_setup::Surface;
use crate::onboarding;
use crate::strs;

verus! {

/// Where a test, save or disconnect stands.
#[derive(Debug, Clone, PartialEq, Eq)]
pub enum TestState {
    Idle,
    Working,
    Verdict { ok: bool, plain: String },
}

/// The open connector's form; `C` is the connector's capability record.
#[derive(Debug, Clone, PartialEq, Eq)]
pub struct ConnectorForm<C> {
    /// The connector whose form is open.
    pub connector: Option<String>,
    pub fields: Vec<FieldMeta>,
    /// Whether the engine's field list arrived, so a connector with no
    /// fields reads "ready to use" rather than loading forever.
    pub fields_loaded: bool,
    /// The option chosen for each select field; a later entry for the same
    /// field replaces an earlier one.
    pub selections: Vec<(String, String)>,
    pub capability: Option<C>,
    /// Whether the engine accepted a save of this connector.
    pub saved: bool,
    pub test_state: TestState,
}

/// The option a freshly loaded form starts with for each select field: its
/// first option, for the select fields that have one, in field order.
pub open spec fn default_choices(fields: Seq<FieldMeta>) -> Seq<(Seq<char>, Seq<char>)>
    decreases fields.len(),
{
    if fields.len() == 0 {
        Seq::empty()
    } else {
        let before = default_choices(fields.drop_last());
        let f = fields.last();
        if f.kind@ == "select"@ && f.options@.len() > 0 {
            before.push((f.name@, f.options@[0]@))
        } else {
            before
        }
    }
}

/// A list of string pairs by their characters.
pub open spec fn pair_views(v: Seq<(String, String)>) -> Seq<(Seq<char>, Seq<char>)> {
    v.map_values(|e: (String, String)| (e.0@, e.1@))
}

/// The default choices of `fields`.
pub fn default_selections(fields: &[FieldMeta]) -> (r: Vec<(String, String)>)
    ensures
        pair_views(r@) == default_choices(fields@),
{
    let mut r: Vec<(String, String)> = Vec::new();
    let mut i: usize = 0;
    while i < fields.len()
        invariant
            i <= fields@.len(),
            pair_views(r@) == default_choices(fields@.take(i as int)),
        decreases fields@.len() - i,
    {
        assert(fields@.take(i + 1).drop_last() =~= fields@.take(i as int));
        assert(fields@.take(i + 1).last() == fields@[i as int]);
        let f = &fields[i];
        if strs::eq_str(f.kind.as_str(), "select") && f.options.len() > 0 {
            let ghost before = pair_views(r@);
            r.push((f.name.clone(), f.options[0].clone()));
            assert(pair_views(r@) =~= before.push((f.name@, f.options@[0]@)));
        }
        i = i + 1;
    }
    assert(fields@.take(i as int) =~= fields@);
    r
}

/// `prefix` + the error + ".".
pub open spec fn error_line(prefix: Seq<char>, error: Seq<char>) -> Seq<char> {
    prefix + error + "."@
}

fn error_text(prefix: &str, error: &str) -> (r: String)
    ensures
        r@ == error_line(prefix@, error@),
{
    let mut s = strs::own(prefix);
    strs::append_str(&mut s, error);
    strs::append_str(&mut s, ".");
    s
}

/// What a successful save reads on each surface.
pub open spec fn saved_text(surface: Surface) -> Seq<char> {
    match surface {
        Surface::SettingsPanel => "Saved — this connection is set up."@,
        Surface::Onboarding => "Saved — this broker is connected."@,
    }
}

impl<C> ConnectorForm<C> {
    /// No connector open.
    pub fn new() -> (f: Self)
        ensures
            f.connector is None,
            f.fields@.len() == 0,
            !f.fields_loaded,
            f.selections@.len() == 0,
            f.capability is None,
            !f.saved,
            f.test_state == TestState::Idle,
    {
        ConnectorForm {
            connector: None,
            fields: Vec::new(),
            fields_loaded: false,
            selections: Vec::new(),
            capability: None,
            saved: false,
            test_state: TestState::Idle,
        }
    }

    /// Open `connector`'s form: everything from the previously open one is
    /// dropped, so one connector's input never bleeds into another's. Its
    /// fields and capability are then fetched.
    pub fn open(&mut self, connector: &str)
        ensures
            final(self).connector matches Some(c) && c@ == connector@,
            final(self).fields@.len() == 0,
            !final(self).fields_loaded,
            final(self).selections@.len() == 0,
            final(self).capability is None,
            !final(self).saved,
            final(self).test_state == TestState::Idle,
    {
        self.connector = Some(strs::own(connector));
        self.fields = Vec::new();
        self.fields_loaded = false;
        self.selections = Vec::new();
        self.capability = None;
        self.saved = false;
        self.test_state = TestState::Idle;
    }

    /// Back to the connector list.
    pub fn close(&mut self)
        ensures
            final(self).connector is None,
            final(self).test_state == TestState::Idle,
            final(self).fields == old(self).fields,
            final(self).fields_loaded == old(self).fields_loaded,
            final(self).selections == old(self).selections,
            final(self).capability == old(self).capability,
            final(self).saved == old(self).saved,
    {
        self.connector = None;
        self.test_state = TestState::Idle;
    }

    /// The open connector's fields (empty when the fetch failed) and
    /// capability arrived: each select field starts on its first option.
    pub fn detail_loaded(&mut self, fields: Vec<FieldMeta>, capability: Option<C>)
        ensures
            final(self).fields == fields,
            final(self).fields_loaded,
            pair_views(final(self).selections@) == default_choices(fields@),
            final(self).capability == capability,
            final(self).connector == old(self).connector,
            final(self).saved == old(self).saved,
            final(self).test_state == old(self).test_state,
    {
        self.selections = default_selections(&fields);
        self.fields = fields;
        self.fields_loaded = true;
        self.capability = capability;
    }

    /// The operator picked `option` for the select field `name`.
    pub fn choose_option(&mut self, name: &str, option: &str)
        ensures
            onboarding::choice_of(final(self).selections@, name@) == Some(option@),
            pair_views(final(self).selections@) == pair_views(old(self).selections@).push((name@, option@)),
            final(self).fields == old(self).fields,
            final(self).connector == old(self).connector,
            final(self).test_state == old(self).test_state,
            final(self).saved == old(self).saved,
    {
        let ghost before = self.selections@;
        self.selections.push((strs::own(name), strs::own(option)));
        assert(self.selections@.drop_last() =~= before);
        assert(pair_views(self.selections@) =~= pair_views(before).push((name@, option@)));
    }

    /// The credentials body the form sends; `texts[i]` is what was typed for
    /// the `i`-th field.
    pub fn body(&self, texts: &[String]) -> (r: JsonValue)
        ensures
            r matches JsonValue::Object(entries) && entries@.len() == onboarding::body_entries(self.fields@, self.selections@, texts@, self.fields@.len() as int).len()
                && forall|k: int| 0 <= k < entries@.len() ==> {
                    let want = onboarding::body_entries(self.fields@, self.selections@, texts@, self.fields@.len() as int)[k];
                    &&& (#[trigger] entries@[k]).0@ == want.0
                    &&& entries@[k].1 matches JsonValue::Str(v) && v@ == want.1
                },
    {
        onboarding::credentials_body(self.fields.as_slice(), self.selections.as_slice(), texts)
    }

    /// Test, Save or Disconnect clicked: the connector to send it for, with
    /// the form working; `None`, changing nothing, when no connector is open.
    pub fn begin_request(&mut self) -> (r: Option<String>)
        ensures
            strs::opt_view(r) == strs::opt_view(old(self).connector),
            r is Some ==> *final(self) == (ConnectorForm { test_state: TestState::Working, ..*old(self) }),
            r is None ==> *final(self) == *old(self),
    {
        let c = match &self.connector {
            Some(c) => strs::own(c.as_str()),
            None => return None,
        };
        self.test_state = TestState::Working;
        Some(c)
    }

    /// The engine answered a test: its own message, or why it could not
    /// connect.
    pub fn test_finished(&mut self, result: Result<String, &str>)
        ensures
            final(self).connector == old(self).connector,
            final(self).fields == old(self).fields,
            final(self).selections == old(self).selections,
            final(self).saved == old(self).saved,
            match result {
                Ok(m) => final(self).test_state == (TestState::Verdict { ok: true, plain: m }),
                Err(e) => final(self).test_state matches TestState::Verdict { ok, plain }
                    && !ok && plain@ == error_line("Couldn't connect: "@, e@),
            },
    {
        self.test_state = match result {
            Ok(m) => TestState::Verdict { ok: true, plain: m },
            Err(e) => TestState::Verdict { ok: false, plain: error_text("Couldn't connect: ", e) },
        };
    }

    /// The engine answered a save. Returns whether the connection changed,
    /// so every open surface reloads its connectors.
    pub fn save_finished(&mut self, result: Result<(), &str>, surface: Surface) -> (changed: bool)
        ensures
            changed == result is Ok,
            final(self).connector == old(self).connector,
            final(self).fields == old(self).fields,
            final(self).selections == old(self).selections,
            match result {
                Ok(_) => final(self).saved && (final(self).test_state matches TestState::Verdict { ok, plain }
                    && ok && plain@ == saved_text(surface)),
                Err(e) => final(self).saved == old(self).saved && (final(self).test_state matches TestState::Verdict { ok, plain }
                    && !ok && plain@ == error_line("Couldn't save: "@, e@)),
            },
    {
        match result {
            Ok(_) => {
                self.saved = true;
                let plain = match surface {
                    Surface::SettingsPanel => strs::own("Saved — this connection is set up."),
                    Surface::Onboarding => strs::own("Saved — this broker is connected."),
                };
                self.test_state = TestState::Verdict { ok: true, plain };
                true
            },
            Err(e) => {
                self.test_state = TestState::Verdict { ok: false, plain: error_text("Couldn't save: ", e) };
                false
            },
        }
    }

    /// The engine answered a disconnect. Returns whether the connection
    /// changed, so every open surface reloads its connectors.
    pub fn disconnect_finished(&mut self, result: Result<(), &str>) -> (changed: bool)
        ensures
            changed == result is Ok,
            final(self).connector == old(self).connector,
            final(self).fields == old(self).fields,
            final(self).selections == old(self).selections,
            match result {
                Ok(_) => !final(self).saved && (final(self).test_state matches TestState::Verdict { ok, plain }
                    && ok && plain@ == "Disconnected — credentials cleared."@),
                Err(e) => final(self).saved == old(self).saved && (final(self).test_state matches TestState::Verdict { ok, plain }
                    && !ok && plain@ == error_line("Couldn't disconnect: "@, e@)),
            },
    {
        match result {
            Ok(_) => {
                self.saved = false;
                self.test_state = TestState::Verdict { ok: true, plain: strs::own("Disconnected — credentials cleared.") };
                true
            },
            Err(e) => {
                self.test_state = TestState::Verdict { ok: false, plain: error_text("Couldn't disconnect: ", e) };
                false
            },
        }
    }
}

// ── The open connector's detail pane ───────────────────────────────────

/// How a field is filled in.
#[derive(Debug, Clone, PartialEq, Eq)]
pub enum FieldInput {
    /// One button per option; `selected` is the chosen one (empty if none).
    Select { options: Vec<String>, selected: String },
    /// The single-line box at this index of the form's editor pool.
    Editor(usize),
    /// More fields than the form has boxes for: set elsewhere for now.
    Elsewhere,
}

/// One field as the form shows it.
#[derive(Debug, Clone, PartialEq, Eq)]
pub struct FieldView {
    pub label: String,
    pub input: FieldInput,
}

/// The tint of a capability chip or a status line.
#[derive(Debug, Clone, Copy, PartialEq, Eq)]
pub enum LineTint {
    Success,
    Muted,
    Warning,
    Error,
}

/// Everything the detail pane of an open connector shows.
#[derive(Debug, Clone, PartialEq, Eq)]
pub struct ConnectorDetail {
    pub title: String,
    /// When the operator's plan blocks the connector: the message, and
    /// nothing below it (no dead credential form).
    pub gated: Option<String>,
    /// A setup hint for connectors that need something running first.
    pub setup_note: Option<String>,
    /// "Loading…" until the fields arrive, or the note that none are needed.
    pub notice: Option<(String, LineTint)>,
    pub fields: Vec<FieldView>,
    /// One chip per capability leg, only from the engine's verified answer.
    pub chips: Vec<(String, LineTint)>,
    /// The asset kinds the connector trades.
    pub trades: Option<String>,
    pub show_test: bool,
    /// A connector without credentials has nothing to save: no Connect.
    pub show_connect: bool,
    pub show_disconnect: bool,
    pub verdict: Option<(String, LineTint)>,
}

/// Index of the first connector with id `id`.
pub open spec fn first_connector(cs: Seq<Connector>, id: Seq<char>) -> Option<int>
    decreases cs.len(),
{
    if cs.len() == 0 {
        None
    } else if cs[0].id@ == id {
        Some(0)
    } else {
        match first_connector(cs.drop_first(), id) {
            Some(k) => Some(k + 1),
            None => None,
        }
    }
}

proof fn lemma_first_connector(cs: Seq<Connector>, id: Seq<char>)
    ensures
        match first_connector(cs, id) {
            Some(k) => 0 <= k < cs.len() && cs[k].id@ == id
                && forall|j: int| 0 <= j < k ==> (#[trigger] cs[j]).id@ != id,
            None => forall|j: int| 0 <= j < cs.len() ==> (#[trigger] cs[j]).id@ != id,
        },
    decreases cs.len(),
{
    if cs.len() > 0 {
        lemma_first_connector(cs.drop_first(), id);
        assert forall|j: int| 1 <= j < cs.len() implies (#[trigger] cs[j]).id@ == cs.drop_first()[j - 1].id@ by {}
    }
}

fn find_connector<'a>(cs: &'a [Connector], id: &str) -> (r: Option<&'a Connector>)
    ensures
        match first_connector(cs@, id@) {
            Some(k) => r == Some(&cs@[k]),
            None => r is None,
        },
{
    proof {
        lemma_first_connector(cs@, id@);
    }
    let mut i: usize = 0;
    while i < cs.len()
        invariant
            i <= cs@.len(),
            forall|j: int| 0 <= j < i ==> (#[trigger] cs@[j]).id@ != id@,
            match first_connector(cs@, id@) {
                Some(k) => 0 <= k < cs@.len() && cs@[k].id@ == id@
                    && forall|j: int| 0 <= j < k ==> (#[trigger] cs@[j]).id@ != id@,
                None => forall|j: int| 0 <= j < cs@.len() ==> (#[trigger] cs@[j]).id@ != id@,
            },
        decreases cs@.len() - i,
    {
        if strs::eq_str(cs[i].id.as_str(), id) {
            return Some(&cs[i]);
        }
        i = i + 1;
    }
    None
}

/// A field's caption: its label (or name), marked saved — in the settings
/// panel with the saved value's preview when there is one — or optional.
pub open spec fn field_caption(f: FieldMeta, surface: Surface) -> Seq<char> {
    let base = if f.label@.len() == 0 { f.name@ } else { f.label@ };
    if f.has_value {
        if f.preview@.len() == 0 || surface == Surface::Onboarding {
            base + "  (saved — leave blank to keep)"@
        } else {
            base + "  (saved: "@ + f.preview@ + " — leave blank to keep)"@
        }
    } else if !f.required {
        base + "  (optional)"@
    } else {
        base
    }
}

/// The caption of one field on `surface`.
pub fn field_label(f: &FieldMeta, surface: Surface) -> (r: String)
    ensures
        r@ == field_caption(*f, surface),
{
    let mut label = if f.label.as_str().unicode_len() == 0 { strs::own(f.name.as_str()) } else { strs::own(f.label.as_str()) };
    let onboarding = match surface {
        Surface::Onboarding => true,
        Surface::SettingsPanel => false,
    };
    if f.has_value {
        if f.preview.as_str().unicode_len() == 0 || onboarding {
            strs::append_str(&mut label, "  (saved — leave blank to keep)");
        } else {
            strs::append_str(&mut label, "  (saved: ");
            strs::append_str(&mut label, f.preview.as_str());
            strs::append_str(&mut label, " — leave blank to keep)");
        }
    } else if !f.required {
        strs::append_str(&mut label, "  (optional)");
    }
    label
}

/// How the `i`-th field is filled in: a select by its options (with the
/// chosen one), any other field by the `i`-th box while the pool lasts.
pub open spec fn input_of(f: FieldMeta, i: int, selections: Seq<(String, String)>) -> (bool, Seq<Seq<char>>, Seq<char>, int) {
    if f.kind@ == "select"@ {
        (true, strs::views_of_strings(f.options@), match onboarding::choice_of(selections, f.name@) {
            Some(c) => c,
            None => Seq::empty(),
        }, -1)
    } else if i < connections::MAX_FIELDS {
        (false, Seq::empty(), Seq::empty(), i)
    } else {
        (false, Seq::empty(), Seq::empty(), -1)
    }
}

/// A field input as plain values: select?, options, chosen, box index (-1
/// for none).
pub open spec fn input_view(x: FieldInput) -> (bool, Seq<Seq<char>>, Seq<char>, int) {
    match x {
        FieldInput::Select { options, selected } => (true, strs::views_of_strings(options@), selected@, -1),
        FieldInput::Editor(k) => (false, Seq::empty(), Seq::empty(), k as int),
        FieldInput::Elsewhere => (false, Seq::empty(), Seq::empty(), -1),
    }
}

fn copy_strings(v: &Vec<String>) -> (r: Vec<String>)
    ensures
        strs::views_of_strings(r@) == strs::views_of_strings(v@),
{
    let mut r: Vec<String> = Vec::new();
    let mut i: usize = 0;
    while i < v.len()
        invariant
            i <= v@.len(),
            strs::views_of_strings(r@) == strs::views_of_strings(v@.take(i as int)),
        decreases v@.len() - i,
    {
        r.push(strs::own(v[i].as_str()));
        assert(strs::views_of_strings(v@.take(i + 1)) =~= strs::views_of_strings(v@.take(i as int)).push(v@[i as int]@));
        assert(strs::views_of_strings(r@) =~= strs::views_of_strings(v@.take(i as int)).push(v@[i as int]@));
        i = i + 1;
    }
    assert(v@.take(i as int) =~= v@);
    r
}

/// Every field of the form with its caption on `surface` and its input, in
/// order.
pub fn field_views(fields: &[FieldMeta], selections: &[(String, String)], surface: Surface) -> (r: Vec<FieldView>)
    ensures
        r@.len() == fields@.len(),
        forall|i: int| 0 <= i < fields@.len() ==> {
            &&& (#[trigger] r@[i]).label@ == field_caption(fields@[i], surface)
            &&& input_view(r@[i].input) == input_of(fields@[i], i, selections@)
        },
{
    let mut r: Vec<FieldView> = Vec::new();
    let mut i: usize = 0;
    while i < fields.len()
        invariant
            i <= fields@.len(),
            r@.len() == i,
            forall|j: int| 0 <= j < i ==> {
                &&& (#[trigger] r@[j]).label@ == field_caption(fields@[j], surface)
                &&& input_view(r@[j].input) == input_of(fields@[j], j, selections@)
            },
        decreases fields@.len() - i,
    {
        let f = &fields[i];
        let input = if strs::eq_str(f.kind.as_str(), "select") {
            let selected = match onboarding::choice_for(selections, f.name.as_str()) {
                Some(c) => strs::own(c.as_str()),
                None => String::new(),
            };
            FieldInput::Select { options: copy_strings(&f.options), selected }
        } else if i < connections::MAX_FIELDS {
            FieldInput::Editor(i)
        } else {
            FieldInput::Elsewhere
        };
        r.push(FieldView { label: field_label(f, surface), input });
        i = i + 1;
    }
    r
}

/// The state a capability reports for `leg`, or `unknown`.
pub open spec fn leg_state(caps: Seq<(String, String)>, leg: Seq<char>) -> Seq<char> {
    match onboarding::choice_of(caps, leg) {
        Some(s) => s,
        None => "unknown"@,
    }
}

/// The chip for one capability leg.
pub open spec fn chip_of(leg: Seq<char>, state: Seq<char>) -> (Seq<char>, LineTint) {
    if state == "yes"@ {
        (leg + ": yes"@, LineTint::Success)
    } else if state == "no"@ {
        (leg + ": no"@, LineTint::Muted)
    } else {
        (leg + ": not verified yet"@, LineTint::Warning)
    }
}

fn chip(caps: &[(String, String)], leg: &str) -> (r: (String, LineTint))
    ensures
        (r.0@, r.1) == chip_of(leg@, leg_state(caps@, leg@)),
{
    let state = match onboarding::choice_for(caps, leg) {
        Some(s) => strs::own(s.as_str()),
        None => strs::own("unknown"),
    };
    let mut text = strs::own(leg);
    if strs::eq_str(state.as_str(), "yes") {
        strs::append_str(&mut text, ": yes");
        (text, LineTint::Success)
    } else if strs::eq_str(state.as_str(), "no") {
        strs::append_str(&mut text, ": no");
        (text, LineTint::Muted)
    } else {
        strs::append_str(&mut text, ": not verified yet");
        (text, LineTint::Warning)
    }
}

/// The three capability chips — data, paper, live — and the "Trades:" line
/// when the engine names asset kinds.
pub fn capability_lines(cap: &Capability) -> (r: (Vec<(String, LineTint)>, Option<String>))
    ensures
        r.0@.len() == 3,
        ((r.0@[0].0@, r.0@[0].1)) == chip_of("data"@, leg_state(cap.capabilities@, "data"@)),
        ((r.0@[1].0@, r.0@[1].1)) == chip_of("paper"@, leg_state(cap.capabilities@, "paper"@)),
        ((r.0@[2].0@, r.0@[2].1)) == chip_of("live"@, leg_state(cap.capabilities@, "live"@)),
        strs::opt_view(r.1) == if cap.asset_kinds@.len() == 0 {
            None
        } else {
            Some("Trades: "@ + strs::join(strs::views_of_strings(cap.asset_kinds@), ", "@))
        },
{
    let chips = vec![
        chip(cap.capabilities.as_slice(), "data"),
        chip(cap.capabilities.as_slice(), "paper"),
        chip(cap.capabilities.as_slice(), "live"),
    ];
    let trades = if cap.asset_kinds.len() == 0 {
        None
    } else {
        let mut line = strs::own("Trades: ");
        let kinds = strs::join_strings(cap.asset_kinds.as_slice(), ", ");
        strs::append_str(&mut line, kinds.as_str());
        Some(line)
    };
    (chips, trades)
}

/// The message a plan-gated connector shows.
pub open spec fn gated_text(reason: Seq<char>) -> Seq<char> {
    if reason.len() == 0 {
        "Your plan doesn't include this connector. Upgrade to connect it."@
    } else {
        reason
    }
}

/// What the test/save/disconnect state shows under the buttons.
pub open spec fn verdict_of(t: TestState) -> Option<(Seq<char>, LineTint)> {
    match t {
        TestState::Idle => None,
        TestState::Working => Some(("Working…"@, LineTint::Muted)),
        TestState::Verdict { ok, plain } => Some((plain@, if ok { LineTint::Success } else { LineTint::Error })),
    }
}

/// A line with its tint, as plain values.
pub open spec fn line_view(x: Option<(String, LineTint)>) -> Option<(Seq<char>, LineTint)> {
    match x {
        Some((t, c)) => Some((t@, c)),
        None => None,
    }
}

impl ConnectorForm<Capability> {
    /// The detail pane of connector `id`, looked up among `connectors` (its
    /// section's list). A plan-gated connector shows only its message.
    pub fn detail(&self, id: &str, connectors: &[Connector]) -> (r: ConnectorDetail)
        ensures
            r.title@ == match first_connector(connectors@, id@) {
                Some(k) => if connectors@[k].display_label@.len() == 0 { connectors@[k].id@ } else { connectors@[k].display_label@ },
                None => id@,
            },
            strs::opt_view(r.gated) == match first_connector(connectors@, id@) {
                Some(k) => if connectors@[k].gated { Some(gated_text(connectors@[k].gated_reason@)) } else { None },
                None => None,
            },
            r.gated is Some ==> r.setup_note is None && r.notice is None && r.fields@.len() == 0
                && r.chips@.len() == 0 && r.trades is None && !r.show_test && !r.show_connect
                && !r.show_disconnect && r.verdict is None,
            r.gated is None ==> {
                &&& strs::opt_view(r.setup_note) == if id@ == "ibkr"@ {
                    Some("IBKR needs the IB Gateway or Client Portal running and logged in before these credentials will verify."@)
                } else {
                    None
                }
                &&& line_view(r.notice) == if !self.fields_loaded {
                    Some(("Loading…"@, LineTint::Muted))
                } else if self.fields@.len() == 0 {
                    Some(("No credentials needed — this connector is ready to use."@, LineTint::Success))
                } else {
                    None
                }
                &&& r.fields@.len() == self.fields@.len()
                &&& forall|i: int| 0 <= i < self.fields@.len() ==> {
                    &&& (#[trigger] r.fields@[i]).label@ == field_caption(self.fields@[i], Surface::SettingsPanel)
                    &&& input_view(r.fields@[i].input) == input_of(self.fields@[i], i, self.selections@)
                }
                &&& match self.capability {
                    None => r.chips@.len() == 0 && r.trades is None,
                    Some(cap) => r.chips@.len() == 3
                        && (r.chips@[0].0@, r.chips@[0].1) == chip_of("data"@, leg_state(cap.capabilities@, "data"@))
                        && (r.chips@[1].0@, r.chips@[1].1) == chip_of("paper"@, leg_state(cap.capabilities@, "paper"@))
                        && (r.chips@[2].0@, r.chips@[2].1) == chip_of("live"@, leg_state(cap.capabilities@, "live"@))
                        && strs::opt_view(r.trades) == if cap.asset_kinds@.len() == 0 {
                            None
                        } else {
                            Some("Trades: "@ + strs::join(strs::views_of_strings(cap.asset_kinds@), ", "@))
                        },
                }
                &&& r.show_test == match first_connector(connectors@, id@) {
                    Some(k) => connectors@[k].test_supported,
                    None => false,
                }
                &&& r.show_connect == (self.fields@.len() > 0)
                &&& r.show_disconnect == match first_connector(connectors@, id@) {
                    Some(k) => connections::connected_state(connectors@[k].status.state@),
                    None => false,
                }
                &&& line_view(r.verdict) == verdict_of(self.test_state)
            },
    {
        let found = find_connector(connectors, id);
        let title = match found {
            Some(c) => if c.display_label.as_str().unicode_len() == 0 { strs::own(c.id.as_str()) } else { strs::own(c.display_label.as_str()) },
            None => strs::own(id),
        };
        let (test_supported, connected, gated, reason) = match found {
            Some(c) => (c.test_supported, c.status.is_connected(), c.gated, strs::own(c.gated_reason.as_str())),
            None => (false, false, false, String::new()),
        };
        if gated {
            let message = if reason.as_str().unicode_len() == 0 {
                strs::own("Your plan doesn't include this connector. Upgrade to connect it.")
            } else {
                reason
            };
            return ConnectorDetail {
                title,
                gated: Some(message),
                setup_note: None,
                notice: None,
                fields: Vec::new(),
                chips: Vec::new(),
                trades: None,
                show_test: false,
                show_connect: false,
                show_disconnect: false,
                verdict: None,
            };
        }
        let setup_note = if strs::eq_str(id, "ibkr") {
            Some(strs::own("IBKR needs the IB Gateway or Client Portal running and logged in before these credentials will verify."))
        } else {
            None
        };
        let notice = if !self.fields_loaded {
            Some((strs::own("Loading…"), LineTint::Muted))
        } else if self.fields.len() == 0 {
            Some((strs::own("No credentials needed — this connector is ready to use."), LineTint::Success))
        } else {
            None
        };
        let fields = field_views(self.fields.as_slice(), self.selections.as_slice(), Surface::SettingsPanel);
        let (chips, trades) = match &self.capability {
            Some(cap) => capability_lines(cap),
            None => (Vec::new(), None),
        };
        let verdict = match &self.test_state {
            TestState::Idle => None,
            TestState::Working => Some((strs::own("Working…"), LineTint::Muted)),
            TestState::Verdict { ok, plain } => Some((strs::own(plain.as_str()), if *ok { LineTint::Success } else { LineTint::Error })),
        };
        ConnectorDetail {
            title,
            gated: None,
            setup_note,
            notice,
            fields,
            chips,
            trades,
            show_test: test_supported,
            show_connect: self.fields.len() > 0,
            show_disconnect: connected,
            verdict,
        }
    }
}

/// Where a field with no box is set for now, on each surface.
pub fn elsewhere_text(surface: Surface) -> (r: &'static str)
    ensures
        r@ == match surface {
            Surface::SettingsPanel => "Set this field from the launcher for now."@,
            Surface::Onboarding => "Set this field from the web console for now."@,
        },
{
    match surface {
        Surface::SettingsPanel => "Set this field from the launcher for now.",
        Surface::Onboarding => "Set this field from the web console for now.",
    }
}

/// A connector's title: its display label, or its id when it has none.
pub open spec fn title_of(c: Connector) -> Seq<char> {
    if c.display_label@.len() == 0 { c.id@ } else { c.display_label@ }
}

/// The first-run wizard's broker step.
#[derive(Debug, Clone, PartialEq, Eq)]
pub enum BrokerPane {
    /// Pick a broker: one button per broker — id, title, and whether it is
    /// already connected (drawn filled) — or a loading line while none
    /// arrived yet.
    Choose { loading: bool, choices: Vec<(String, String, bool)> },
    /// The chosen broker's credentials.
    Credentials {
        heading: String,
        setup_note: Option<String>,
        /// "Loading…" until its fields arrive.
        loading: bool,
        fields: Vec<FieldView>,
    },
}

/// One broker button per broker, in order.
pub fn broker_choices(brokers: &[Connector]) -> (r: Vec<(String, String, bool)>)
    ensures
        r@.len() == brokers@.len(),
        forall|i: int| 0 <= i < brokers@.len() ==> {
            &&& (#[trigger] r@[i]).0@ == brokers@[i].id@
            &&& r@[i].1@ == title_of(brokers@[i])
            &&& r@[i].2 == connections::connected_state(brokers@[i].status.state@)
        },
{
    let mut r: Vec<(String, String, bool)> = Vec::new();
    let mut i: usize = 0;
    while i < brokers.len()
        invariant
            i <= brokers@.len(),
            r@.len() == i,
            forall|j: int| 0 <= j < i ==> {
                &&& (#[trigger] r@[j]).0@ == brokers@[j].id@
                &&& r@[j].1@ == title_of(brokers@[j])
                &&& r@[j].2 == connections::connected_state(brokers@[j].status.state@)
            },
        decreases brokers@.len() - i,
    {
        let b = &brokers[i];
        let title = if b.display_label.as_str().unicode_len() == 0 { strs::own(b.id.as_str()) } else { strs::own(b.display_label.as_str()) };
        r.push((strs::own(b.id.as_str()), title, b.status.is_connected()));
        i = i + 1;
    }
    r
}

impl<C> ConnectorForm<C> {
    /// The wizard's broker step: the chooser while no broker is open, else
    /// the open broker's credentials form.
    pub fn broker_pane(&self, brokers: &[Connector]) -> (r: BrokerPane)
        ensures
            match self.connector {
                None => r matches BrokerPane::Choose { loading, choices } && loading == (brokers@.len() == 0)
                    && choices@.len() == brokers@.len()
                    && forall|i: int| 0 <= i < brokers@.len() ==> {
                        &&& (#[trigger] choices@[i]).0@ == brokers@[i].id@
                        &&& choices@[i].1@ == title_of(brokers@[i])
                        &&& choices@[i].2 == connections::connected_state(brokers@[i].status.state@)
                    },
                Some(b) => r matches BrokerPane::Credentials { heading, setup_note, loading, fields }
                    && heading@ == "Connect "@ + b@
                    && strs::opt_view(setup_note) == (if b@ == "ibkr"@ {
                        Some("IBKR needs the IB Gateway or Client Portal running and logged in before these credentials will verify."@)
                    } else {
                        None
                    })
                    && loading == (self.fields@.len() == 0)
                    && fields@.len() == self.fields@.len()
                    && forall|i: int| 0 <= i < self.fields@.len() ==> {
                        &&& (#[trigger] fields@[i]).label@ == field_caption(self.fields@[i], Surface::Onboarding)
                        &&& input_view(fields@[i].input) == input_of(self.fields@[i], i, self.selections@)
                    },
            },
    {
        match &self.connector {
            None => BrokerPane::Choose { loading: brokers.len() == 0, choices: broker_choices(brokers) },
            Some(b) => {
                let mut heading = strs::own("Connect ");
                strs::append_str(&mut heading, b.as_str());
                let setup_note = if strs::eq_str(b.as_str(), "ibkr") {
                    Some(strs::own("IBKR needs the IB Gateway or Client Portal running and logged in before these credentials will verify."))
                } else {
                    None
                };
                BrokerPane::Credentials {
                    heading,
                    setup_note,
                    loading: self.fields.len() == 0,
                    fields: field_views(self.fields.as_slice(), self.selections.as_slice(), Surface::Onboarding),
                }
            },
        }
    }

    /// What the test/save state shows under the buttons.
    pub fn verdict_line(&self) -> (r: Option<(String, LineTint)>)
        ensures
            line_view(r) == verdict_of(self.test_state),
    {
        match &self.test_state {
            TestState::Idle => None,
            TestState::Working => Some((strs::own("Working…"), LineTint::Muted)),
            TestState::Verdict { ok, plain } => Some((strs::own(plain.as_str()), if *ok { LineTint::Success } else { LineTint::Error })),
        }
    }
}

} // verus!
