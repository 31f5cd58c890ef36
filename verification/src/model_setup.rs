//! Choosing the shared default AI model: what "Set as default" decides from
//! the provider the operator picked and the model id they typed, which
//! provider a cold start seeds the default from, and when the first-run
//! banner is raised.
//!
//! The providers themselves live in the editor's model registry; the surfaces
//! read what each one offers into a [`ProviderOffer`] and hand it here.

use vstd::prelude::*;
use crate::ai_settings::ProviderDescriptor;
use crate::connections::{self, Connector};
use crate::strs;

verus! {

/// The registry id of the editor's own cloud provider, never a seed candidate.
pub const ZED_CLOUD_PROVIDER_ID: &'static str = "zed.dev";

/// The registry id of the Anthropic provider, tried first when the engine
/// designates no default.
pub const ANTHROPIC_PROVIDER_ID: &'static str = "anthropic";

/// What one visible provider offers, as read from the model registry.
#[derive(Debug, Clone, PartialEq, Eq)]
pub struct ProviderOffer {
    /// Registry id (`anthropic`, `openai`, …).
    pub id: String,
    /// Display name, which the provider picker keys on.
    pub name: String,
    /// Whether the provider holds a usable credential.
    pub authenticated: bool,
    /// The provider's own default model id, if it has one.
    pub default_model: Option<String>,
    /// Recommended model ids, best first.
    pub recommended: Vec<String>,
    /// Every model id the provider serves.
    pub provided: Vec<String>,
}

/// Why "Set as default" did not set a model.
#[derive(Debug, Clone, Copy, PartialEq, Eq)]
pub enum ModelRefusal {
    /// No provider has been picked yet.
    NoProvider,
    /// The picked provider is no longer in the registry.
    ProviderGone,
    /// The picked provider holds no credential.
    NoKey,
    /// The typed model id is not one the provider serves, or the provider
    /// offers no model at all.
    NoSuchModel,
    /// The settings file could not be reached.
    NoSettingsFile,
}

/// Which surface is asking, for the wording of a refusal.
#[derive(Debug, Clone, Copy, PartialEq, Eq)]
pub enum Surface {
    SettingsPanel,
    Onboarding,
}

/// The ids of a list of strings.
pub open spec fn ids(v: Seq<String>) -> Seq<Seq<char>> {
    strs::views_of_strings(v)
}

/// The model a provider falls back to: its own default, else its first
/// recommended model, else its first served model.
pub open spec fn fallback_model(p: ProviderOffer) -> Option<Seq<char>> {
    match p.default_model {
        Some(m) => Some(m@),
        None => if p.recommended@.len() > 0 {
            Some(p.recommended@[0]@)
        } else if p.provided@.len() > 0 {
            Some(p.provided@[0]@)
        } else {
            None
        },
    }
}

/// The model "Set as default" picks: the fallback when nothing was typed,
/// else the typed id when the provider serves it.
pub open spec fn picked_model(p: ProviderOffer, typed: Seq<char>) -> Option<Seq<char>> {
    if typed.len() == 0 {
        fallback_model(p)
    } else if ids(p.provided@).contains(typed) {
        Some(typed)
    } else {
        None
    }
}

/// Index of the first provider whose display name is `name`.
pub open spec fn first_named(ps: Seq<ProviderOffer>, name: Seq<char>) -> Option<int>
    decreases ps.len(),
{
    if ps.len() == 0 {
        None
    } else if ps[0].name@ == name {
        Some(0)
    } else {
        match first_named(ps.drop_first(), name) {
            Some(k) => Some(k + 1),
            None => None,
        }
    }
}

/// What "Set as default" decides: the provider's index and the model id, or
/// the first check that failed, in the order the surfaces make them.
pub open spec fn model_choice(
    picked: Option<Seq<char>>,
    ps: Seq<ProviderOffer>,
    typed: Seq<char>,
    settings_file: bool,
) -> Result<(int, Seq<char>), ModelRefusal> {
    match picked {
        None => Err(ModelRefusal::NoProvider),
        Some(name) => match first_named(ps, name) {
            None => Err(ModelRefusal::ProviderGone),
            Some(k) => if !ps[k].authenticated {
                Err(ModelRefusal::NoKey)
            } else {
                match picked_model(ps[k], typed) {
                    None => Err(ModelRefusal::NoSuchModel),
                    Some(m) => if !settings_file {
                        Err(ModelRefusal::NoSettingsFile)
                    } else {
                        Ok((k, m))
                    },
                }
            },
        },
    }
}

proof fn lemma_first_named(ps: Seq<ProviderOffer>, name: Seq<char>)
    ensures
        match first_named(ps, name) {
            Some(k) => 0 <= k < ps.len() && ps[k].name@ == name
                && forall|j: int| 0 <= j < k ==> (#[trigger] ps[j]).name@ != name,
            None => forall|j: int| 0 <= j < ps.len() ==> (#[trigger] ps[j]).name@ != name,
        },
    decreases ps.len(),
{
    if ps.len() > 0 {
        lemma_first_named(ps.drop_first(), name);
        assert forall|j: int| 1 <= j < ps.len() implies (#[trigger] ps[j]).name@ == ps.drop_first()[j - 1].name@ by {}
    }
}

/// Position of the first provider named `name`.
fn find_named(ps: &[ProviderOffer], name: &str) -> (r: Option<usize>)
    ensures
        match r {
            Some(k) => first_named(ps@, name@) == Some(k as int) && k < ps@.len(),
            None => first_named(ps@, name@) is None,
        },
{
    proof {
        lemma_first_named(ps@, name@);
    }
    let mut i: usize = 0;
    while i < ps.len()
        invariant
            i <= ps@.len(),
            forall|j: int| 0 <= j < i ==> (#[trigger] ps@[j]).name@ != name@,
            match first_named(ps@, name@) {
                Some(k) => 0 <= k < ps@.len() && ps@[k].name@ == name@
                    && forall|j: int| 0 <= j < k ==> (#[trigger] ps@[j]).name@ != name@,
                None => forall|j: int| 0 <= j < ps@.len() ==> (#[trigger] ps@[j]).name@ != name@,
            },
        decreases ps@.len() - i,
    {
        if strs::eq_str(ps[i].name.as_str(), name) {
            return Some(i);
        }
        i = i + 1;
    }
    None
}

/// Whether `id` is one of `models`.
fn serves(models: &Vec<String>, id: &str) -> (r: bool)
    ensures
        r == ids(models@).contains(id@),
{
    let ghost v = ids(models@);
    let mut i: usize = 0;
    while i < models.len()
        invariant
            i <= models@.len(),
            v == ids(models@),
            forall|j: int| 0 <= j < i ==> v[j] != id@,
        decreases models@.len() - i,
    {
        if strs::eq_str(models[i].as_str(), id) {
            assert(v[i as int] == id@);
            return true;
        }
        i = i + 1;
    }
    false
}

/// The model a provider falls back to when no id was typed: its default,
/// else its first recommended model, else its first served model.
pub fn seed_model(p: &ProviderOffer) -> (r: Option<String>)
    ensures
        strs::opt_view(r) == fallback_model(*p),
{
    match &p.default_model {
        Some(m) => Some(strs::own(m.as_str())),
        None => if p.recommended.len() > 0 {
            Some(strs::own(p.recommended[0].as_str()))
        } else if p.provided.len() > 0 {
            Some(strs::own(p.provided[0].as_str()))
        } else {
            None
        },
    }
}

/// Decide what "Set as default" does. `picked` is the display name of the
/// provider whose configuration is open, `typed` the model-id box (empty for
/// the provider's own pick), and `settings_file` whether the settings file
/// can be written. Returns the provider's index and the model id to store.
pub fn choose_default_model(
    picked: Option<&str>,
    providers: &[ProviderOffer],
    typed: &str,
    settings_file: bool,
) -> (r: Result<(usize, String), ModelRefusal>)
    ensures
        match r {
            Ok((k, m)) => model_choice(strs::opt_str_view(picked), providers@, typed@, settings_file) == Ok::<(int, Seq<char>), ModelRefusal>((k as int, m@)),
            Err(e) => model_choice(strs::opt_str_view(picked), providers@, typed@, settings_file) == Err::<(int, Seq<char>), ModelRefusal>(e),
        },
        r matches Ok((k, m)) ==> k < providers@.len() && providers@[k as int].authenticated
            && (typed@.len() > 0 ==> m@ == typed@ && ids(providers@[k as int].provided@).contains(m@)),
{
    let name = match picked {
        None => return Err(ModelRefusal::NoProvider),
        Some(n) => n,
    };
    let k = match find_named(providers, name) {
        None => return Err(ModelRefusal::ProviderGone),
        Some(k) => k,
    };
    let p = &providers[k];
    if !p.authenticated {
        return Err(ModelRefusal::NoKey);
    }
    let model = if typed.unicode_len() == 0 {
        seed_model(p)
    } else if serves(&p.provided, typed) {
        Some(strs::own(typed))
    } else {
        None
    };
    let model = match model {
        None => return Err(ModelRefusal::NoSuchModel),
        Some(m) => m,
    };
    if !settings_file {
        return Err(ModelRefusal::NoSettingsFile);
    }
    Ok((k, model))
}

/// The status line for a refusal, in the asking surface's wording.
pub fn refusal_text(refusal: ModelRefusal, surface: Surface) -> (r: &'static str)
    ensures
        r@ == match refusal {
            ModelRefusal::NoProvider => "Pick a provider first."@,
            ModelRefusal::ProviderGone => "That provider is no longer available."@,
            ModelRefusal::NoKey => match surface {
                Surface::SettingsPanel => "Add this provider's API key to use the shared default."@,
                Surface::Onboarding => "Add and confirm an API key above first."@,
            },
            ModelRefusal::NoSuchModel => "Couldn't find that model for this provider."@,
            ModelRefusal::NoSettingsFile => "Couldn't reach the settings file."@,
        },
{
    match refusal {
        ModelRefusal::NoProvider => "Pick a provider first.",
        ModelRefusal::ProviderGone => "That provider is no longer available.",
        ModelRefusal::NoKey => match surface {
            Surface::SettingsPanel => "Add this provider's API key to use the shared default.",
            Surface::Onboarding => "Add and confirm an API key above first.",
        },
        ModelRefusal::NoSuchModel => "Couldn't find that model for this provider.",
        ModelRefusal::NoSettingsFile => "Couldn't reach the settings file.",
    }
}

/// The status line once a default was stored.
pub fn model_set_text(provider_name: &str, model_id: &str) -> (r: String)
    ensures
        r@ == "Default model set to "@ + provider_name@ + " · "@ + model_id@ + "."@,
{
    let mut s = strs::own("Default model set to ");
    strs::append_str(&mut s, provider_name);
    strs::append_str(&mut s, " · ");
    strs::append_str(&mut s, model_id);
    strs::append_str(&mut s, ".");
    s
}

// ── Seeding the shared default on a cold start ─────────────────────────

/// Whether a registry provider may seed the shared default: every visible
/// provider but the editor's own cloud.
pub open spec fn seed_candidate(id: Seq<char>) -> bool {
    id != ZED_CLOUD_PROVIDER_ID@
}

/// A candidate's place in the seed order: the engine-preferred provider
/// before the others, and within each of those two groups Anthropic first.
pub open spec fn seed_rank(id: Seq<char>, preferred: Option<Seq<char>>) -> int {
    (if preferred == Some(id) { 0int } else { 2int }) + (if id == ANTHROPIC_PROVIDER_ID@ { 0int } else { 1int })
}

/// The indices below `n` of the candidates of rank `rank`, ascending.
pub open spec fn ranked(ids: Seq<Seq<char>>, preferred: Option<Seq<char>>, rank: int, n: nat) -> Seq<int>
    decreases n,
{
    if n == 0 {
        Seq::empty()
    } else {
        let prev = ranked(ids, preferred, rank, (n - 1) as nat);
        let i = n - 1;
        if seed_candidate(ids[i]) && seed_rank(ids[i], preferred) == rank {
            prev.push(i)
        } else {
            prev
        }
    }
}

/// The order in which a cold start tries the registry's providers: the
/// candidates, stably sorted by [`seed_rank`].
pub open spec fn seed_order(ids: Seq<Seq<char>>, preferred: Option<Seq<char>>) -> Seq<int> {
    let n = ids.len();
    ranked(ids, preferred, 0, n) + ranked(ids, preferred, 1, n) + ranked(ids, preferred, 2, n) + ranked(ids, preferred, 3, n)
}

proof fn lemma_ranked(ids: Seq<Seq<char>>, preferred: Option<Seq<char>>, rank: int, n: nat)
    requires
        n <= ids.len(),
    ensures
        forall|k: int| 0 <= k < ranked(ids, preferred, rank, n).len() ==> {
            let i = #[trigger] ranked(ids, preferred, rank, n)[k];
            0 <= i < n && seed_candidate(ids[i]) && seed_rank(ids[i], preferred) == rank
        },
        forall|a: int, b: int| 0 <= a < b < ranked(ids, preferred, rank, n).len()
            ==> #[trigger] ranked(ids, preferred, rank, n)[a] < #[trigger] ranked(ids, preferred, rank, n)[b],
        forall|i: int| 0 <= i < n && seed_candidate(ids[i]) && #[trigger] seed_rank(ids[i], preferred) == rank
            ==> ranked(ids, preferred, rank, n).contains(i),
        ranked(ids, preferred, rank, n).len() > 0 ==> forall|j: int| 0 <= j < ranked(ids, preferred, rank, n)[0]
            ==> !(seed_candidate(ids[j]) && #[trigger] seed_rank(ids[j], preferred) == rank),
    decreases n,
{
    if n > 0 {
        let m = (n - 1) as nat;
        lemma_ranked(ids, preferred, rank, m);
        let prev = ranked(ids, preferred, rank, m);
        let cur = ranked(ids, preferred, rank, n);
        if seed_candidate(ids[m as int]) && seed_rank(ids[m as int], preferred) == rank {
            assert(cur == prev.push(m as int));
            assert forall|i: int| 0 <= i < n && seed_candidate(ids[i]) && #[trigger] seed_rank(ids[i], preferred) == rank
                implies cur.contains(i) by {
                if i < m {
                    let k = choose|k: int| 0 <= k < prev.len() && prev[k] == i;
                    assert(cur[k] == i);
                } else {
                    assert(cur[prev.len() as int] == i);
                }
            }
            if prev.len() == 0 {
                assert forall|j: int| 0 <= j < cur[0]
                    implies !(seed_candidate(ids[j]) && #[trigger] seed_rank(ids[j], preferred) == rank) by {
                    if seed_candidate(ids[j]) && seed_rank(ids[j], preferred) == rank {
                        assert(prev.contains(j));
                    }
                }
            } else {
                assert(cur[0] == prev[0]);
            }
        } else {
            assert forall|i: int| 0 <= i < n && seed_candidate(ids[i]) && #[trigger] seed_rank(ids[i], preferred) == rank
                implies cur.contains(i) by {
                assert(i < m);
            }
        }
    }
}

/// Every candidate is tried exactly once, and nothing else is.
pub proof fn lemma_seed_order_tries_each_candidate_once(ids: Seq<Seq<char>>, preferred: Option<Seq<char>>)
    ensures
        forall|i: int| 0 <= i < ids.len() ==> (seed_candidate(ids[i]) <==> #[trigger] seed_order(ids, preferred).contains(i)),
        forall|k: int| 0 <= k < seed_order(ids, preferred).len()
            ==> 0 <= #[trigger] seed_order(ids, preferred)[k] < ids.len(),
        seed_order(ids, preferred).no_duplicates(),
{
    let n = ids.len();
    let r0 = ranked(ids, preferred, 0, n);
    let r1 = ranked(ids, preferred, 1, n);
    let r2 = ranked(ids, preferred, 2, n);
    let r3 = ranked(ids, preferred, 3, n);
    lemma_ranked(ids, preferred, 0, n);
    lemma_ranked(ids, preferred, 1, n);
    lemma_ranked(ids, preferred, 2, n);
    lemma_ranked(ids, preferred, 3, n);
    let so = seed_order(ids, preferred);
    assert(so == r0 + r1 + r2 + r3);
    assert forall|i: int| 0 <= i < ids.len() implies (seed_candidate(ids[i]) <==> #[trigger] so.contains(i)) by {
        vstd::seq_lib::lemma_seq_concat_contains_all_elements(r0, r1, i);
        vstd::seq_lib::lemma_seq_concat_contains_all_elements(r0 + r1, r2, i);
        vstd::seq_lib::lemma_seq_concat_contains_all_elements(r0 + r1 + r2, r3, i);
        if seed_candidate(ids[i]) {
            let rk = seed_rank(ids[i], preferred);
            assert(0 <= rk <= 3);
        }
        if so.contains(i) {
            if r0.contains(i) {
                let k = choose|k: int| 0 <= k < r0.len() && r0[k] == i;
                assert(r0[k] == i);
            } else if r1.contains(i) {
                let k = choose|k: int| 0 <= k < r1.len() && r1[k] == i;
                assert(r1[k] == i);
            } else if r2.contains(i) {
                let k = choose|k: int| 0 <= k < r2.len() && r2[k] == i;
                assert(r2[k] == i);
            } else {
                let k = choose|k: int| 0 <= k < r3.len() && r3[k] == i;
                assert(r3[k] == i);
            }
        }
    }
    assert forall|k: int| 0 <= k < so.len() implies 0 <= #[trigger] so[k] < ids.len() by {
        if k < r0.len() {
            assert(so[k] == r0[k]);
        } else if k < r0.len() + r1.len() {
            assert(so[k] == r1[k - r0.len()]);
        } else if k < r0.len() + r1.len() + r2.len() {
            assert(so[k] == r2[k - r0.len() - r1.len()]);
        } else {
            assert(so[k] == r3[k - r0.len() - r1.len() - r2.len()]);
        }
    }
    assert(r0.no_duplicates());
    assert(r1.no_duplicates());
    assert(r2.no_duplicates());
    assert(r3.no_duplicates());
    vstd::seq_lib::lemma_no_dup_in_concat(r0, r1);
    assert forall|a: int, b: int| 0 <= a < (r0 + r1).len() && 0 <= b < r2.len() implies (r0 + r1)[a] != r2[b] by {
        if a < r0.len() {
            assert((r0 + r1)[a] == r0[a]);
        } else {
            assert((r0 + r1)[a] == r1[a - r0.len()]);
        }
    }
    vstd::seq_lib::lemma_no_dup_in_concat(r0 + r1, r2);
    assert forall|a: int, b: int| 0 <= a < (r0 + r1 + r2).len() && 0 <= b < r3.len() implies (r0 + r1 + r2)[a] != r3[b] by {
        if a < r0.len() {
            assert((r0 + r1 + r2)[a] == r0[a]);
        } else if a < r0.len() + r1.len() {
            assert((r0 + r1 + r2)[a] == r1[a - r0.len()]);
        } else {
            assert((r0 + r1 + r2)[a] == r2[a - r0.len() - r1.len()]);
        }
    }
    vstd::seq_lib::lemma_no_dup_in_concat(r0 + r1 + r2, r3);
}

/// The launcher's choice wins: when the engine-preferred provider is a
/// visible candidate, the first provider tried is it (its first listing).
pub proof fn lemma_seed_order_tries_preferred_first(ids: Seq<Seq<char>>, p: Seq<char>)
    requires
        seed_candidate(p),
        ids.contains(p),
    ensures
        seed_order(ids, Some(p)).len() > 0,
        ids[seed_order(ids, Some(p))[0]] == p,
        forall|j: int| 0 <= j < seed_order(ids, Some(p))[0] ==> #[trigger] ids[j] != p,
{
    let n = ids.len();
    let pre = Some(p);
    let i = choose|i: int| 0 <= i < ids.len() && ids[i] == p;
    let r0 = ranked(ids, pre, 0, n);
    let r1 = ranked(ids, pre, 1, n);
    lemma_ranked(ids, pre, 0, n);
    lemma_ranked(ids, pre, 1, n);
    let so = seed_order(ids, pre);
    assert(so == r0 + r1 + ranked(ids, pre, 2, n) + ranked(ids, pre, 3, n));
    // An id has rank 0 or 1 exactly when it is the preferred one.
    let rk = seed_rank(p, pre);
    assert(rk == 0 || rk == 1);
    if rk == 0 {
        assert(r0.contains(i));
        assert(so[0] == r0[0]);
        assert forall|j: int| 0 <= j < so[0] implies #[trigger] ids[j] != p by {
            if ids[j] == p {
                assert(seed_rank(ids[j], pre) == 0);
            }
        }
    } else {
        assert(r1.contains(i));
        if r0.len() > 0 {
            let x = r0[0];
            assert(seed_rank(ids[x], pre) == 0);
            assert(ids[x] == p);
        }
        assert(r0.len() == 0);
        assert(so[0] == r1[0]);
        assert forall|j: int| 0 <= j < so[0] implies #[trigger] ids[j] != p by {
            if ids[j] == p {
                assert(seed_rank(ids[j], pre) == 1);
            }
        }
    }
}

/// With no engine preference among the candidates, Anthropic is tried
/// first whenever it is listed.
pub proof fn lemma_seed_order_falls_back_to_anthropic(ids: Seq<Seq<char>>, preferred: Option<Seq<char>>)
    requires
        forall|i: int| 0 <= i < ids.len() && seed_candidate(ids[i]) ==> preferred != Some(#[trigger] ids[i]),
        ids.contains(ANTHROPIC_PROVIDER_ID@),
    ensures
        seed_order(ids, preferred).len() > 0,
        ids[seed_order(ids, preferred)[0]] == ANTHROPIC_PROVIDER_ID@,
        forall|j: int| 0 <= j < seed_order(ids, preferred)[0] ==> #[trigger] ids[j] != ANTHROPIC_PROVIDER_ID@,
{
    reveal_strlit("anthropic");
    reveal_strlit("zed.dev");
    let n = ids.len();
    let a = ANTHROPIC_PROVIDER_ID@;
    assert(a == "anthropic"@);
    assert(ZED_CLOUD_PROVIDER_ID@ == "zed.dev"@);
    assert(a.len() != ZED_CLOUD_PROVIDER_ID@.len());
    assert(seed_candidate(a));
    let i = choose|i: int| 0 <= i < ids.len() && ids[i] == a;
    let r0 = ranked(ids, preferred, 0, n);
    let r1 = ranked(ids, preferred, 1, n);
    let r2 = ranked(ids, preferred, 2, n);
    lemma_ranked(ids, preferred, 0, n);
    lemma_ranked(ids, preferred, 1, n);
    lemma_ranked(ids, preferred, 2, n);
    let so = seed_order(ids, preferred);
    assert(so == r0 + r1 + r2 + ranked(ids, preferred, 3, n));
    if r0.len() > 0 {
        let x = r0[0];
        assert(seed_rank(ids[x], preferred) == 0);
    }
    if r1.len() > 0 {
        let x = r1[0];
        assert(seed_rank(ids[x], preferred) == 1);
    }
    assert(seed_rank(ids[i], preferred) == 2);
    assert(r2.contains(i));
    assert(so[0] == r2[0]);
    assert forall|j: int| 0 <= j < so[0] implies #[trigger] ids[j] != a by {
        if ids[j] == a {
            assert(seed_rank(ids[j], preferred) == 2);
        }
    }
}

/// The rank of one provider id.
fn rank_of(id: &str, preferred: Option<&str>) -> (r: u8)
    ensures
        r as int == seed_rank(id@, strs::opt_str_view(preferred)),
{
    let is_preferred = match preferred {
        Some(p) => strs::eq_str(id, p),
        None => false,
    };
    let is_anthropic = strs::eq_str(id, ANTHROPIC_PROVIDER_ID);
    (if is_preferred { 0u8 } else { 2u8 }) + (if is_anthropic { 0u8 } else { 1u8 })
}

/// Append the indices of the candidates of rank `rank`, in registry order.
fn push_ranked(ids: &[String], preferred: Option<&str>, rank: u8, out: &mut Vec<usize>)
    ensures
        final(out)@.len() == old(out)@.len() + ranked(strs::views_of_strings(ids@), strs::opt_str_view(preferred), rank as int, ids@.len()).len(),
        forall|k: int| 0 <= k < old(out)@.len() ==> #[trigger] final(out)@[k] == old(out)@[k],
        forall|k: int| 0 <= k < ranked(strs::views_of_strings(ids@), strs::opt_str_view(preferred), rank as int, ids@.len()).len()
            ==> final(out)@[old(out)@.len() + k] as int
                == #[trigger] ranked(strs::views_of_strings(ids@), strs::opt_str_view(preferred), rank as int, ids@.len())[k],
{
    let ghost v = strs::views_of_strings(ids@);
    let ghost pre = strs::opt_str_view(preferred);
    let ghost base = out@;
    let mut i: usize = 0;
    while i < ids.len()
        invariant
            i <= ids@.len(),
            v == strs::views_of_strings(ids@),
            pre == strs::opt_str_view(preferred),
            out@.len() == base.len() + ranked(v, pre, rank as int, i as nat).len(),
            forall|k: int| 0 <= k < base.len() ==> #[trigger] out@[k] == base[k],
            forall|k: int| 0 <= k < ranked(v, pre, rank as int, i as nat).len()
                ==> out@[base.len() + k] as int == #[trigger] ranked(v, pre, rank as int, i as nat)[k],
        decreases ids@.len() - i,
    {
        let id = ids[i].as_str();
        let keep = !strs::eq_str(id, ZED_CLOUD_PROVIDER_ID) && rank_of(id, preferred) == rank;
        let ghost prev = ranked(v, pre, rank as int, i as nat);
        assert(ranked(v, pre, rank as int, (i + 1) as nat) == if seed_candidate(v[i as int]) && seed_rank(v[i as int], pre) == rank as int {
            prev.push(i as int)
        } else {
            prev
        });
        if keep {
            out.push(i);
        }
        i = i + 1;
    }
}

/// The order in which a cold start tries the registry's providers, as
/// indices into `ids`: the editor's own cloud is left out, the provider the
/// engine designated (already mapped to its registry id) comes first, then
/// Anthropic, and otherwise the registry's order is kept.
pub fn seed_candidate_order(ids: &[String], preferred: Option<&str>) -> (r: Vec<usize>)
    ensures
        r@.len() == seed_order(strs::views_of_strings(ids@), strs::opt_str_view(preferred)).len(),
        forall|k: int| 0 <= k < r@.len()
            ==> #[trigger] r@[k] as int == seed_order(strs::views_of_strings(ids@), strs::opt_str_view(preferred))[k],
{
    let ghost v = strs::views_of_strings(ids@);
    let ghost pre = strs::opt_str_view(preferred);
    let ghost n = ids@.len();
    let mut r: Vec<usize> = Vec::new();
    push_ranked(ids, preferred, 0, &mut r);
    push_ranked(ids, preferred, 1, &mut r);
    push_ranked(ids, preferred, 2, &mut r);
    push_ranked(ids, preferred, 3, &mut r);
    let ghost so = seed_order(v, pre);
    let ghost r0 = ranked(v, pre, 0, n);
    let ghost r1 = ranked(v, pre, 1, n);
    let ghost r2 = ranked(v, pre, 2, n);
    let ghost r3 = ranked(v, pre, 3, n);
    assert(so == r0 + r1 + r2 + r3);
    assert forall|k: int| 0 <= k < r@.len() implies #[trigger] r@[k] as int == so[k] by {
        if k < r0.len() {
            assert(so[k] == r0[k]);
        } else if k < r0.len() + r1.len() {
            assert(so[k] == r1[k - r0.len()]);
        } else if k < r0.len() + r1.len() + r2.len() {
            assert(so[k] == r2[k - r0.len() - r1.len()]);
        } else {
            assert(so[k] == r3[k - r0.len() - r1.len() - r2.len()]);
        }
    }
    r
}

/// The first candidate, in the order given, that holds a credential and
/// offers a model: its index and that model.
pub open spec fn first_seedable_spec(ps: Seq<ProviderOffer>) -> Option<(int, Seq<char>)>
    decreases ps.len(),
{
    if ps.len() == 0 {
        None
    } else if ps[0].authenticated && fallback_model(ps[0]) is Some {
        Some((0, fallback_model(ps[0])->0))
    } else {
        match first_seedable_spec(ps.drop_first()) {
            Some((k, m)) => Some((k + 1, m)),
            None => None,
        }
    }
}

proof fn lemma_first_seedable(ps: Seq<ProviderOffer>)
    ensures
        match first_seedable_spec(ps) {
            Some((k, m)) => 0 <= k < ps.len() && ps[k].authenticated && fallback_model(ps[k]) == Some(m)
                && forall|j: int| 0 <= j < k ==> !((#[trigger] ps[j]).authenticated && fallback_model(ps[j]) is Some),
            None => forall|j: int| 0 <= j < ps.len() ==> !((#[trigger] ps[j]).authenticated && fallback_model(ps[j]) is Some),
        },
    decreases ps.len(),
{
    if ps.len() > 0 {
        lemma_first_seedable(ps.drop_first());
        assert forall|j: int| 1 <= j < ps.len() implies #[trigger] ps[j] == ps.drop_first()[j - 1] by {}
    }
}

/// Which provider seeds the shared default, from the candidates in seed
/// order, each read after its stored credential has finished loading: the
/// first that holds a credential and offers a model. A provider without a
/// credential is never seeded.
pub fn first_seedable(candidates: &[ProviderOffer]) -> (r: Option<(usize, String)>)
    ensures
        match r {
            Some((k, m)) => first_seedable_spec(candidates@) == Some((k as int, m@)),
            None => first_seedable_spec(candidates@) is None,
        },
        r matches Some((k, m)) ==> k < candidates@.len() && candidates@[k as int].authenticated,
{
    proof {
        lemma_first_seedable(candidates@);
    }
    let mut i: usize = 0;
    while i < candidates.len()
        invariant
            i <= candidates@.len(),
            forall|j: int| 0 <= j < i ==> !((#[trigger] candidates@[j]).authenticated && fallback_model(candidates@[j]) is Some),
            match first_seedable_spec(candidates@) {
                Some((k, m)) => 0 <= k < candidates@.len() && candidates@[k].authenticated && fallback_model(candidates@[k]) == Some(m)
                    && forall|j: int| 0 <= j < k ==> !((#[trigger] candidates@[j]).authenticated && fallback_model(candidates@[j]) is Some),
                None => forall|j: int| 0 <= j < candidates@.len() ==> !((#[trigger] candidates@[j]).authenticated && fallback_model(candidates@[j]) is Some),
            },
        decreases candidates@.len() - i,
    {
        let p = &candidates[i];
        if p.authenticated {
            match seed_model(p) {
                Some(m) => return Some((i, m)),
                None => {},
            }
        }
        i = i + 1;
    }
    None
}

// ── First run ──────────────────────────────────────────────────────────

/// Whether one of `bs` reads as connected.
fn any_connected(bs: &[Connector]) -> (r: bool)
    ensures
        r == exists|i: int| 0 <= i < bs@.len() && connections::connected_state(#[trigger] bs@[i].status.state@),
{
    let mut i: usize = 0;
    while i < bs.len()
        invariant
            i <= bs@.len(),
            forall|j: int| 0 <= j < i ==> !connections::connected_state(#[trigger] bs@[j].status.state@),
        decreases bs@.len() - i,
    {
        if bs[i].status.is_connected() {
            assert(connections::connected_state(bs@[i as int].status.state@));
            return true;
        }
        i = i + 1;
    }
    false
}

/// Whether the engine reports a connected broker. A failed listing
/// (`None`, engine down) counts as none, so a cold start still shows setup.
pub fn any_broker_connected(listed: Option<&[Connector]>) -> (r: bool)
    ensures
        r == match listed {
            Some(bs) => exists|i: int| 0 <= i < bs@.len() && connections::connected_state(#[trigger] bs@[i].status.state@),
            None => false,
        },
{
    match listed {
        Some(bs) => any_connected(bs),
        None => false,
    }
}

/// Whether some provider other than the editor's own cloud already holds a
/// credential.
pub fn any_provider_ready(providers: &[ProviderDescriptor]) -> (r: bool)
    ensures
        r == exists|i: int| 0 <= i < providers@.len()
            && (#[trigger] providers@[i]).authenticated && seed_candidate(providers@[i].id@),
{
    let mut i: usize = 0;
    while i < providers.len()
        invariant
            i <= providers@.len(),
            forall|j: int| 0 <= j < i ==> !((#[trigger] providers@[j]).authenticated && seed_candidate(providers@[j].id@)),
        decreases providers@.len() - i,
    {
        let p = &providers[i];
        if p.authenticated && !strs::eq_str(p.id.as_str(), ZED_CLOUD_PROVIDER_ID) {
            return true;
        }
        i = i + 1;
    }
    false
}

/// Whether a workspace opening raises the first-run setup banner: only on
/// the launch's first check, only while the operator has not dismissed it,
/// and only when neither a broker nor an AI provider is set up yet.
pub fn raise_first_run_banner(checked_this_launch: bool, dismissed: bool, any_broker: bool, any_model: bool) -> (r: bool)
    ensures
        r == (!checked_this_launch && !dismissed && !any_broker && !any_model),
{
    !checked_this_launch && !dismissed && !any_broker && !any_model
}

// ── The provider picker ────────────────────────────────────────────────

/// The picker's buttons for `ps`: every provider but the editor's own cloud,
/// in order, labelled by name with a check mark once it holds a credential,
/// and marked when it is the picked one.
pub open spec fn picker_buttons(ps: Seq<ProviderDescriptor>, picked: Option<Seq<char>>) -> Seq<(Seq<char>, bool)>
    decreases ps.len(),
{
    if ps.len() == 0 {
        Seq::empty()
    } else {
        let before = picker_buttons(ps.drop_last(), picked);
        let p = ps.last();
        if !seed_candidate(p.id@) {
            before
        } else {
            before.push((
                if p.authenticated { p.display@ + " ✓"@ } else { p.display@ },
                picked == Some(p.display@),
            ))
        }
    }
}

/// The provider picker's buttons, `(label, picked)`.
pub fn provider_buttons(providers: &[ProviderDescriptor], picked: Option<&str>) -> (r: Vec<(String, bool)>)
    ensures
        r@.map_values(|b: (String, bool)| (b.0@, b.1)) == picker_buttons(providers@, strs::opt_str_view(picked)),
{
    let mut r: Vec<(String, bool)> = Vec::new();
    let mut i: usize = 0;
    while i < providers.len()
        invariant
            i <= providers@.len(),
            r@.map_values(|b: (String, bool)| (b.0@, b.1)) == picker_buttons(providers@.take(i as int), strs::opt_str_view(picked)),
        decreases providers@.len() - i,
    {
        let p = &providers[i];
        assert(providers@.take(i + 1).drop_last() =~= providers@.take(i as int));
        assert(providers@.take(i + 1).last() == providers@[i as int]);
        if !strs::eq_str(p.id.as_str(), ZED_CLOUD_PROVIDER_ID) {
            let mut label = strs::own(p.display.as_str());
            if p.authenticated {
                strs::append_str(&mut label, " ✓");
            }
            let is_picked = match picked {
                Some(n) => strs::eq_str(n, p.display.as_str()),
                None => false,
            };
            let ghost before = r@.map_values(|b: (String, bool)| (b.0@, b.1));
            r.push((label, is_picked));
            assert(r@.map_values(|b: (String, bool)| (b.0@, b.1)) =~= before.push((
                if p.authenticated { p.display@ + " ✓"@ } else { p.display@ },
                strs::opt_str_view(picked) == Some(p.display@),
            )));
        }
        i = i + 1;
    }
    assert(providers@.take(i as int) =~= providers@);
    r
}

/// The heading over the picked provider's own credential view.
pub fn configure_heading(picked: &str) -> (r: String)
    ensures
        r@ == "Configure "@ + picked@,
{
    let mut h = strs::own("Configure ");
    strs::append_str(&mut h, picked);
    h
}

// ── Importing the engine's AI key ──────────────────────────────────────

/// The provider whose key the settings panel imports from the engine: the
/// engine's designated provider, trimmed, when it names one.
pub fn import_provider_id(engine_provider: Option<&str>) -> (r: Option<String>)
    ensures
        strs::opt_view(r) == match engine_provider {
            Some(p) => if strs::trim(p@).len() > 0 { Some(strs::trim(p@)) } else { None },
            None => None,
        },
{
    match engine_provider {
        Some(p) => {
            let t = strs::trim_str(p);
            if t.unicode_len() > 0 {
                Some(strs::own(t))
            } else {
                None
            }
        },
        None => None,
    }
}

/// Index of the first provider whose registry id is `id`.
pub open spec fn first_with_id(ps: Seq<ProviderDescriptor>, id: Seq<char>) -> Option<int>
    decreases ps.len(),
{
    if ps.len() == 0 {
        None
    } else if ps[0].id@ == id {
        Some(0)
    } else {
        match first_with_id(ps.drop_first(), id) {
            Some(k) => Some(k + 1),
            None => None,
        }
    }
}

proof fn lemma_first_with_id(ps: Seq<ProviderDescriptor>, id: Seq<char>)
    ensures
        match first_with_id(ps, id) {
            Some(k) => 0 <= k < ps.len() && ps[k].id@ == id
                && forall|j: int| 0 <= j < k ==> (#[trigger] ps[j]).id@ != id,
            None => forall|j: int| 0 <= j < ps.len() ==> (#[trigger] ps[j]).id@ != id,
        },
    decreases ps.len(),
{
    if ps.len() > 0 {
        lemma_first_with_id(ps.drop_first(), id);
        assert forall|j: int| 1 <= j < ps.len() implies (#[trigger] ps[j]).id@ == ps.drop_first()[j - 1].id@ by {}
    }
}

/// The visible provider with registry id `id`; the editor's own cloud is
/// never one.
pub fn find_provider(providers: &[ProviderDescriptor], id: &str) -> (r: Option<usize>)
    ensures
        match r {
            Some(k) => seed_candidate(id@) && first_with_id(providers@, id@) == Some(k as int) && k < providers@.len(),
            None => !seed_candidate(id@) || first_with_id(providers@, id@) is None,
        },
{
    if strs::eq_str(id, ZED_CLOUD_PROVIDER_ID) {
        return None;
    }
    proof {
        lemma_first_with_id(providers@, id@);
    }
    let mut i: usize = 0;
    while i < providers.len()
        invariant
            i <= providers@.len(),
            seed_candidate(id@),
            forall|j: int| 0 <= j < i ==> (#[trigger] providers@[j]).id@ != id@,
            match first_with_id(providers@, id@) {
                Some(k) => 0 <= k < providers@.len() && providers@[k].id@ == id@
                    && forall|j: int| 0 <= j < k ==> (#[trigger] providers@[j]).id@ != id@,
                None => forall|j: int| 0 <= j < providers@.len() ==> (#[trigger] providers@[j]).id@ != id@,
            },
        decreases providers@.len() - i,
    {
        if strs::eq_str(providers[i].id.as_str(), id) {
            return Some(i);
        }
        i = i + 1;
    }
    None
}

} // verus!
