//! The AI "Model providers" subpage: the engine's designated default model and
//! the provider list with that default marked, both resolved through the same
//! lookup so the header can never claim a default the list does not show.

use vstd::prelude::*;
use crate::strs;

verus! {

/// Tone for a status row.
#[derive(Debug, Clone, Copy, PartialEq, Eq)]
pub enum StatusTone {
    /// No default designated.
    Neutral,
    /// A default with a usable key.
    Positive,
    /// A default whose key isn't configured.
    Caution,
}

/// How the engine's designated default AI model reads.
#[derive(Debug, Clone, PartialEq, Eq)]
pub struct EngineDefaultStatus {
    pub label: String,
    pub detail: Option<String>,
    pub tone: StatusTone,
}

/// A provider as extracted from the language-model registry.
#[derive(Debug, Clone, PartialEq, Eq)]
pub struct ProviderDescriptor {
    pub id: String,
    pub display: String,
    pub authenticated: bool,
}

/// One row in the provider list.
#[derive(Debug, Clone, PartialEq, Eq)]
pub struct AiProviderRow {
    pub id: String,
    pub display: String,
    pub authenticated: bool,
    pub is_engine_default: bool,
}

/// Index of the first provider whose trimmed id is `key`, or -1.
pub open spec fn first_with_id(ps: Seq<ProviderDescriptor>, key: Seq<char>) -> int
    decreases ps.len(),
{
    if ps.len() == 0 {
        -1
    } else if strs::trim(ps[0].id@) == key {
        0
    } else {
        let r = first_with_id(ps.drop_first(), key);
        if r < 0 { -1 } else { r + 1 }
    }
}

/// The index of the engine default among `ps`: `None` for an absent or blank
/// default, or one that matches no provider (ids compared trimmed,
/// case-sensitively).
pub open spec fn default_position(ps: Seq<ProviderDescriptor>, d: Option<Seq<char>>) -> Option<int> {
    match d {
        None => None,
        Some(x) => if strs::trim(x).len() == 0 {
            None
        } else {
            let k = first_with_id(ps, strs::trim(x));
            if k < 0 { None } else { Some(k) }
        },
    }
}

proof fn lemma_first_with_id(ps: Seq<ProviderDescriptor>, key: Seq<char>)
    ensures
        -1 <= first_with_id(ps, key) < ps.len(),
        first_with_id(ps, key) >= 0 ==> strs::trim(ps[first_with_id(ps, key)].id@) == key,
        first_with_id(ps, key) >= 0 ==> forall|j: int| 0 <= j < first_with_id(ps, key) ==> strs::trim(#[trigger] ps[j].id@) != key,
        first_with_id(ps, key) < 0 ==> forall|j: int| 0 <= j < ps.len() ==> strs::trim(#[trigger] ps[j].id@) != key,
    decreases ps.len(),
{
    if ps.len() > 0 {
        lemma_first_with_id(ps.drop_first(), key);
        assert forall|j: int| 1 <= j < ps.len() implies #[trigger] ps[j] == ps.drop_first()[j - 1] by {}
    }
}

/// Whether two provider ids match: equal after trimming, case-sensitive.
fn ids_match(default: &str, candidate: &str) -> (r: bool)
    ensures
        r == (strs::trim(default@) == strs::trim(candidate@)),
{
    strs::eq_str(strs::trim_str(default), strs::trim_str(candidate))
}

fn default_index(providers: &[ProviderDescriptor], engine_default_ide_id: Option<&str>) -> (r: Option<usize>)
    ensures
        match r {
            Some(i) => default_position(providers@, strs::opt_str_view(engine_default_ide_id)) == Some(i as int),
            None => default_position(providers@, strs::opt_str_view(engine_default_ide_id)) is None,
        },
{
    let d = match engine_default_ide_id {
        Some(d) => d,
        None => return None,
    };
    let key = strs::trim_str(d);
    if key.unicode_len() == 0 {
        return None;
    }
    proof {
        lemma_first_with_id(providers@, key@);
    }
    let mut i: usize = 0;
    while i < providers.len()
        invariant
            i <= providers@.len(),
            key@ == strs::trim(d@),
            engine_default_ide_id == Some(d),
            key@.len() > 0,
            forall|j: int| 0 <= j < i ==> strs::trim(#[trigger] providers@[j].id@) != key@,
            -1 <= first_with_id(providers@, key@) < providers@.len(),
            first_with_id(providers@, key@) >= 0 ==> strs::trim(providers@[first_with_id(providers@, key@)].id@) == key@,
            first_with_id(providers@, key@) >= 0 ==> forall|j: int| 0 <= j < first_with_id(providers@, key@) ==> strs::trim(#[trigger] providers@[j].id@) != key@,
            first_with_id(providers@, key@) < 0 ==> forall|j: int| 0 <= j < providers@.len() ==> strs::trim(#[trigger] providers@[j].id@) != key@,
        decreases providers@.len() - i,
    {
        if ids_match(d, providers[i].id.as_str()) {
            return Some(i);
        }
        i = i + 1;
    }
    None
}

/// What a row shows: id, display, authenticated, default mark.
pub open spec fn row_view(r: AiProviderRow) -> (Seq<char>, Seq<char>, bool, bool) {
    (r.id@, r.display@, r.authenticated, r.is_engine_default)
}

/// Build the provider rows, marking only the first provider matching the
/// engine default; order and fields are preserved verbatim.
pub fn derive_provider_rows(providers: &[ProviderDescriptor], engine_default_ide_id: Option<&str>) -> (r: Vec<AiProviderRow>)
    ensures
        r@.len() == providers@.len(),
        forall|i: int| 0 <= i < providers@.len() ==> #[trigger] row_view(r@[i]) == (
            providers@[i].id@,
            providers@[i].display@,
            providers@[i].authenticated,
            default_position(providers@, strs::opt_str_view(engine_default_ide_id)) == Some(i),
        ),
{
    let marked = default_index(providers, engine_default_ide_id);
    let mut rows: Vec<AiProviderRow> = Vec::new();
    let mut i: usize = 0;
    while i < providers.len()
        invariant
            i <= providers@.len(),
            rows@.len() == i,
            match marked {
                Some(m) => default_position(providers@, strs::opt_str_view(engine_default_ide_id)) == Some(m as int),
                None => default_position(providers@, strs::opt_str_view(engine_default_ide_id)) is None,
            },
            forall|j: int| 0 <= j < i ==> #[trigger] row_view(rows@[j]) == (
                providers@[j].id@,
                providers@[j].display@,
                providers@[j].authenticated,
                default_position(providers@, strs::opt_str_view(engine_default_ide_id)) == Some(j),
            ),
        decreases providers@.len() - i,
    {
        let p = &providers[i];
        let is_default = match marked {
            Some(m) => m == i,
            None => false,
        };
        rows.push(AiProviderRow {
            id: strs::own(p.id.as_str()),
            display: strs::own(p.display.as_str()),
            authenticated: p.authenticated,
            is_engine_default: is_default,
        });
        i = i + 1;
    }
    rows
}

/// The summary label, detail and tone for the engine default.
pub open spec fn summary_view(
    ps: Seq<ProviderDescriptor>,
    d: Option<Seq<char>>,
    model: Option<Seq<char>>,
    key_configured: bool,
) -> (Seq<char>, Option<Seq<char>>, StatusTone) {
    match default_position(ps, d) {
        None => ("No engine default set"@, None, StatusTone::Neutral),
        Some(k) => {
            let shown = strs::trim(ps[k].display@);
            let label = match model {
                Some(m) => if strs::trim(m).len() > 0 { shown + " · "@ + strs::trim(m) } else { shown },
                None => shown,
            };
            if key_configured {
                (label, Some("Key configured"@), StatusTone::Positive)
            } else {
                (label, Some("No key configured"@), StatusTone::Caution)
            }
        },
    }
}

/// Summarise the engine's designated default model, reading the same
/// providers and id the list uses.
pub fn engine_default_summary(
    providers: &[ProviderDescriptor],
    engine_default_ide_id: Option<&str>,
    model_id: Option<&str>,
    key_configured: bool,
) -> (r: EngineDefaultStatus)
    ensures
        (r.label@, strs::opt_view(r.detail), r.tone) == summary_view(
            providers@,
            strs::opt_str_view(engine_default_ide_id),
            strs::opt_str_view(model_id),
            key_configured,
        ),
{
    let k = match default_index(providers, engine_default_ide_id) {
        Some(k) => k,
        None => {
            return EngineDefaultStatus {
                label: strs::own("No engine default set"),
                detail: None,
                tone: StatusTone::Neutral,
            };
        },
    };
    proof {
        lemma_first_with_id(providers@, strs::trim(engine_default_ide_id.unwrap()@));
    }
    let provider = &providers[k];
    let mut label = strs::own(strs::trim_str(provider.display.as_str()));
    match model_id {
        Some(m) => {
            let t = strs::trim_str(m);
            if t.unicode_len() > 0 {
                strs::append_str(&mut label, " · ");
                strs::append_str(&mut label, t);
            }
        },
        None => {},
    }
    if key_configured {
        EngineDefaultStatus { label, detail: Some(strs::own("Key configured")), tone: StatusTone::Positive }
    } else {
        EngineDefaultStatus { label, detail: Some(strs::own("No key configured")), tone: StatusTone::Caution }
    }
}

/// The header and the list agree: the summary names a default exactly when
/// some row is marked, at most one row is marked, and the named provider is
/// the marked one.
pub proof fn lemma_header_agrees_with_list(
    ps: Seq<ProviderDescriptor>,
    d: Option<Seq<char>>,
    model: Option<Seq<char>>,
    key_configured: bool,
)
    ensures
        (summary_view(ps, d, model, key_configured).2 == StatusTone::Neutral) <==> (forall|i: int|
            0 <= i < ps.len() ==> default_position(ps, d) != Some(i)),
        forall|i: int, j: int|
            0 <= i < ps.len() && 0 <= j < ps.len() && default_position(ps, d) == Some(i) && default_position(ps, d)
                == Some(j) ==> i == j,
{
    match d {
        Some(x) => {
            lemma_first_with_id(ps, strs::trim(x));
            if let Some(k) = default_position(ps, d) {
                assert(default_position(ps, d) == Some(k) && 0 <= k < ps.len());
            }
        },
        None => {},
    }
}

} // verus!
