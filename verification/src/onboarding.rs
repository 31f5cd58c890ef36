//! First-run setup: the wizard's steps and how each step's marker reads, and
//! the credentials body a connector form sends.

use vstd::prelude::*;
use crate::connections::FieldMeta;
use crate::json::JsonValue;
use crate::strs;

verus! {

/// A step of the first-run wizard, in order.
#[derive(Clone, Copy, Debug, PartialEq, Eq, Structural)]
pub enum Step {
    Broker,
    Model,
    GitHub,
}

/// How a step's marker is coloured.
#[derive(Clone, Copy, Debug, PartialEq, Eq)]
pub enum StepTone {
    Accent,
    Success,
    Muted,
}

impl Step {
    /// The step's 1-based position.
    pub fn index(self) -> (r: usize)
        ensures
            r == match self {
                Step::Broker => 1usize,
                Step::Model => 2usize,
                Step::GitHub => 3usize,
            },
    {
        match self {
            Step::Broker => 1,
            Step::Model => 2,
            Step::GitHub => 3,
        }
    }

    /// The step's marker caption.
    pub fn label(self) -> (r: &'static str)
        ensures
            r@ == match self {
                Step::Broker => "1 Broker"@,
                Step::Model => "2 AI model"@,
                Step::GitHub => "3 GitHub"@,
            },
    {
        match self {
            Step::Broker => "1 Broker",
            Step::Model => "2 AI model",
            Step::GitHub => "3 GitHub",
        }
    }
}

/// The step Next leads to: Broker → AI model → GitHub, which stays put.
pub open spec fn next_step(step: Step) -> Step {
    match step {
        Step::Broker => Step::Model,
        _ => Step::GitHub,
    }
}

/// The step Back leads to: GitHub → AI model → Broker, which stays put.
pub open spec fn back_step(step: Step) -> Step {
    match step {
        Step::GitHub => Step::Model,
        _ => Step::Broker,
    }
}

impl Step {
    /// The step the Next button leads to.
    pub fn next(self) -> (r: Step)
        ensures
            r == next_step(self),
    {
        match self {
            Step::Broker => Step::Model,
            _ => Step::GitHub,
        }
    }

    /// The step the Back button leads to.
    pub fn back(self) -> (r: Step)
        ensures
            r == back_step(self),
    {
        match self {
            Step::GitHub => Step::Model,
            _ => Step::Broker,
        }
    }

    /// Whether this is the last step: it shows Done instead of Next.
    pub fn is_last(self) -> (r: bool)
        ensures
            r == (self == Step::GitHub),
    {
        match self {
            Step::GitHub => true,
            _ => false,
        }
    }

    /// Whether the Back button shows: on every step but the first.
    pub fn has_back(self) -> (r: bool)
        ensures
            r == (self != Step::Broker),
    {
        match self {
            Step::Broker => false,
            _ => true,
        }
    }
}

/// Back undoes Next on every step that has a Next, and Next undoes Back on
/// every step that has a Back.
pub proof fn lemma_back_undoes_next(step: Step)
    ensures
        step != Step::GitHub ==> back_step(next_step(step)) == step,
        step != Step::Broker ==> next_step(back_step(step)) == step,
{
}

/// The skip button's label: "Skip" on the last step, else "Skip for now".
pub fn skip_label(step: Step) -> (r: &'static str)
    ensures
        r@ == if step == Step::GitHub { "Skip"@ } else { "Skip for now"@ },
{
    match step {
        Step::GitHub => "Skip",
        _ => "Skip for now",
    }
}

/// What has actually landed in the wizard: a saved broker, a default model
/// written to settings, a saved git identity.
#[derive(Clone, Copy, Debug, PartialEq, Eq)]
pub struct Landed {
    pub broker_saved: bool,
    pub model_configured: bool,
    pub git_identity_saved: bool,
}

/// Whether a step's setup landed.
pub open spec fn confirmed(landed: Landed, step: Step) -> bool {
    match step {
        Step::Broker => landed.broker_saved,
        Step::Model => landed.model_configured,
        Step::GitHub => landed.git_identity_saved,
    }
}

/// The three step markers of the header, in order, for the wizard on
/// `current`: each step's label and tone.
pub fn step_markers(current: Step, landed: Landed) -> (r: Vec<(&'static str, StepTone)>)
    ensures
        r@.len() == 3,
        forall|i: int| 0 <= i < 3 ==> {
            let step = if i == 0 { Step::Broker } else if i == 1 { Step::Model } else { Step::GitHub };
            &&& (#[trigger] r@[i]).0@ == match step {
                Step::Broker => "1 Broker"@,
                Step::Model => "2 AI model"@,
                Step::GitHub => "3 GitHub"@,
            }
            &&& r@[i].1 == if step == current {
                StepTone::Accent
            } else if confirmed(landed, step) {
                StepTone::Success
            } else {
                StepTone::Muted
            }
        },
{
    let b = Step::Broker;
    let m = Step::Model;
    let g = Step::GitHub;
    let r = vec![
        (b.label(), step_tone(current == b, landed.broker_saved)),
        (m.label(), step_tone(current == m, landed.model_configured)),
        (g.label(), step_tone(current == g, landed.git_identity_saved)),
    ];
    r
}

/// The tone of a step's marker: the active step is accented; another step
/// turns Success only when its setup actually landed, never merely because
/// the user clicked past it.
pub fn step_tone(active: bool, confirmed: bool) -> (r: StepTone)
    ensures
        r == if active { StepTone::Accent } else if confirmed { StepTone::Success } else { StepTone::Muted },
        r == StepTone::Success ==> confirmed,
{
    if active {
        StepTone::Accent
    } else if confirmed {
        StepTone::Success
    } else {
        StepTone::Muted
    }
}

/// The "Step N of 3" caption.
pub fn step_caption(step: Step) -> (r: String)
    ensures
        r@ == "Step "@ + strs::decimal(match step {
            Step::Broker => 1nat,
            Step::Model => 2nat,
            Step::GitHub => 3nat,
        }) + " of 3"@,
{
    let mut r = strs::own("Step ");
    strs::push_decimal(&mut r, step.index() as u64);
    strs::append_str(&mut r, " of 3");
    r
}

/// The value chosen for `name`: the last selection recorded for it.
pub open spec fn choice_of(selections: Seq<(String, String)>, name: Seq<char>) -> Option<Seq<char>>
    decreases selections.len(),
{
    if selections.len() == 0 {
        None
    } else if selections.last().0@ == name {
        Some(selections.last().1@)
    } else {
        choice_of(selections.drop_last(), name)
    }
}

/// The entries a connector form sends for its first `n` fields: a select
/// field sends its chosen option (if any); any other field sends its typed
/// text when there is an input for it and the text is non-empty.
pub open spec fn body_entries(
    fields: Seq<FieldMeta>,
    selections: Seq<(String, String)>,
    texts: Seq<String>,
    n: int,
) -> Seq<(Seq<char>, Seq<char>)>
    decreases n,
{
    if n <= 0 {
        Seq::empty()
    } else {
        let before = body_entries(fields, selections, texts, n - 1);
        let f = fields[n - 1];
        if f.kind@ == "select"@ {
            match choice_of(selections, f.name@) {
                Some(c) => before.push((f.name@, c)),
                None => before,
            }
        } else if n - 1 < texts.len() && texts[n - 1]@.len() > 0 {
            before.push((f.name@, texts[n - 1]@))
        } else {
            before
        }
    }
}

/// The chosen option recorded for `name`.
pub fn choice_for<'a>(selections: &'a [(String, String)], name: &str) -> (r: Option<&'a String>)
    ensures
        match r {
            Some(c) => choice_of(selections@, name@) == Some(c@),
            None => choice_of(selections@, name@) is None,
        },
{
    let mut i = selections.len();
    assert(selections@.take(i as int) =~= selections@);
    while i > 0
        invariant
            i <= selections@.len(),
            choice_of(selections@, name@) == choice_of(selections@.take(i as int), name@),
        decreases i,
    {
        let ghost pre = selections@.take(i as int);
        assert(pre.last() == selections@[i - 1]);
        assert(pre.drop_last() =~= selections@.take(i - 1));
        if strs::eq_str(selections[i - 1].0.as_str(), name) {
            return Some(&selections[i - 1].1);
        }
        i = i - 1;
    }
    None
}

/// The credentials body a connector form sends, as `(name, value)` entries
/// in field order; `texts[i]` is what was typed for `fields[i]`.
pub fn credentials_entries(fields: &[FieldMeta], selections: &[(String, String)], texts: &[String]) -> (r: Vec<(String, String)>)
    ensures
        r@.map_values(|e: (String, String)| (e.0@, e.1@)) == body_entries(fields@, selections@, texts@, fields@.len() as int),
{
    let mut out: Vec<(String, String)> = Vec::new();
    let mut i: usize = 0;
    while i < fields.len()
        invariant
            i <= fields@.len(),
            out@.map_values(|e: (String, String)| (e.0@, e.1@)) == body_entries(fields@, selections@, texts@, i as int),
        decreases fields@.len() - i,
    {
        let field = &fields[i];
        let ghost before = out@.map_values(|e: (String, String)| (e.0@, e.1@));
        if strs::eq_str(field.kind.as_str(), "select") {
            if let Some(choice) = choice_for(selections, field.name.as_str()) {
                out.push((field.name.clone(), choice.clone()));
                assert(out@.map_values(|e: (String, String)| (e.0@, e.1@)) =~= before.push((field.name@, choice@)));
            }
        } else if i < texts.len() && strs::chars_of(texts[i].as_str()).len() > 0 {
            out.push((field.name.clone(), texts[i].clone()));
            assert(out@.map_values(|e: (String, String)| (e.0@, e.1@)) =~= before.push((field.name@, texts@[i as int]@)));
        }
        i = i + 1;
    }
    out
}

/// The credentials body as a JSON object of strings.
pub fn credentials_body(fields: &[FieldMeta], selections: &[(String, String)], texts: &[String]) -> (r: JsonValue)
    ensures
        r matches JsonValue::Object(entries) && entries@.len() == body_entries(fields@, selections@, texts@, fields@.len() as int).len()
            && forall|k: int| 0 <= k < entries@.len() ==> {
                let want = body_entries(fields@, selections@, texts@, fields@.len() as int)[k];
                &&& (#[trigger] entries@[k]).0@ == want.0
                &&& entries@[k].1 matches JsonValue::Str(v) && v@ == want.1
            },
{
    let entries = credentials_entries(fields, selections, texts);
    let ghost ev = entries@.map_values(|e: (String, String)| (e.0@, e.1@));
    let mut obj: Vec<(String, JsonValue)> = Vec::new();
    let mut i: usize = 0;
    while i < entries.len()
        invariant
            i <= entries@.len(),
            ev == entries@.map_values(|e: (String, String)| (e.0@, e.1@)),
            obj@.len() == i,
            forall|k: int| 0 <= k < i ==> ((#[trigger] obj@[k]).0@ == ev[k].0
                && (obj@[k].1 matches JsonValue::Str(v) && v@ == ev[k].1)),
        decreases entries@.len() - i,
    {
        let name = entries[i].0.clone();
        let value = entries[i].1.clone();
        assert(ev[i as int] == (entries@[i as int].0@, entries@[i as int].1@));
        obj.push((name, JsonValue::Str(value)));
        i = i + 1;
    }
    JsonValue::Object(obj)
}

} // verus!
