//! Brand identifiers and the legacy values they replace, paired so existing
//! installs keep working ("dual-read": canonical first, legacy as fallback).

use vstd::prelude::*;
use crate::strs;

verus! {

/// The product's display name.
pub const DISPLAY_NAME: &'static str = "Auracle";
/// Canonical project-local settings folder.
pub const LOCAL_SETTINGS_FOLDER: &'static str = ".auracle";
/// Legacy project-local settings folder, still read as a fallback.
pub const LEGACY_LOCAL_SETTINGS_FOLDER: &'static str = ".zed";
/// Canonical deep-link URL scheme.
pub const URL_SCHEME: &'static str = "auracle";
/// Legacy deep-link URL scheme, still resolved as a fallback.
pub const LEGACY_URL_SCHEME: &'static str = "zed";
/// Canonical environment / task variable prefix.
pub const ENV_PREFIX: &'static str = "AURACLE_";
/// Legacy environment / task variable prefix, still read as a fallback.
pub const LEGACY_ENV_PREFIX: &'static str = "ZED_";
/// Base URL for Auracle documentation.
pub const DOCS_BASE: &'static str = "https://docs.aurapointcapital.com";
/// The legacy documentation host that links are migrated away from.
pub const LEGACY_DOCS_HOST: &'static str = "zed.dev";

/// `s` with every leading `c` removed (`str::trim_start_matches`).
pub open spec fn strip_leading(s: Seq<char>, c: char) -> Seq<char>
    decreases s.len(),
{
    if s.len() > 0 && s[0] == c {
        strip_leading(s.drop_first(), c)
    } else {
        s
    }
}

/// The documentation URL for a doc path: the base, one slash, the path with
/// its leading slashes removed.
pub open spec fn docs_text(path: Seq<char>) -> Seq<char> {
    "https://docs.aurapointcapital.com"@ + "/"@ + strip_leading(path, '/')
}

proof fn lemma_strip_leading_at(s: Seq<char>, c: char, lo: int)
    requires
        0 <= lo <= s.len(),
        forall|i: int| 0 <= i < lo ==> #[trigger] s[i] == c,
        lo == s.len() || s[lo] != c,
    ensures
        strip_leading(s, c) == s.subrange(lo, s.len() as int),
    decreases lo,
{
    if lo == 0 {
        assert(s.subrange(0, s.len() as int) =~= s);
    } else {
        let t = s.drop_first();
        assert forall|i: int| 0 <= i < lo - 1 implies #[trigger] t[i] == c by {
            assert(t[i] == s[i + 1]);
        }
        if lo - 1 < t.len() {
            assert(t[lo - 1] == s[lo]);
        }
        lemma_strip_leading_at(t, c, lo - 1);
        assert(t.subrange(lo - 1, t.len() as int) =~= s.subrange(lo, s.len() as int));
    }
}

/// Build an Auracle documentation URL for a doc `path`, with or without a
/// leading slash: the result always has exactly one separating slash.
pub fn docs_url(path: &str) -> (r: String)
    ensures
        r@ == docs_text(path@),
{
    let v = strs::chars_of(path);
    let mut lo: usize = 0;
    while lo < v.len() && v[lo] == '/'
        invariant
            lo <= v@.len(),
            forall|i: int| 0 <= i < lo ==> #[trigger] v@[i] == '/',
        decreases v@.len() - lo,
    {
        lo = lo + 1;
    }
    proof {
        lemma_strip_leading_at(v@, '/', lo as int);
    }
    let mut s = strs::own(DOCS_BASE);
    strs::append_str(&mut s, "/");
    strs::append_str(&mut s, path.substring_char(lo, v.len()));
    s
}

/// What `rewrite_legacy_docs_url` returns for a URL.
pub open spec fn rewrite_view(url: Seq<char>) -> Option<Seq<char>> {
    if strs::has_prefix(url, "https://zed.dev/"@) {
        Some(docs_text(url.subrange("https://zed.dev/"@.len() as int, url.len() as int)))
    } else if strs::has_prefix(url, "http://zed.dev/"@) {
        Some(docs_text(url.subrange("http://zed.dev/"@.len() as int, url.len() as int)))
    } else if strs::has_prefix(url, "https://www.zed.dev/"@) {
        Some(docs_text(url.subrange("https://www.zed.dev/"@.len() as int, url.len() as int)))
    } else {
        None
    }
}

/// Rewrite a legacy `zed.dev` documentation URL to the Auracle docs base,
/// preserving the path; `None` when `url` is not one.
pub fn rewrite_legacy_docs_url(url: &str) -> (r: Option<String>)
    ensures
        strs::opt_view(r) == rewrite_view(url@),
{
    let v = strs::chars_of(url);
    let prefixes: [&str; 3] = ["https://zed.dev/", "http://zed.dev/", "https://www.zed.dev/"];
    let a = strs::chars_of(prefixes[0]);
    if strs::starts_with(&v, &a) {
        return Some(docs_url(url.substring_char(a.len(), v.len())));
    }
    let b = strs::chars_of(prefixes[1]);
    if strs::starts_with(&v, &b) {
        return Some(docs_url(url.substring_char(b.len(), v.len())));
    }
    let c = strs::chars_of(prefixes[2]);
    if strs::starts_with(&v, &c) {
        return Some(docs_url(url.substring_char(c.len(), v.len())));
    }
    None
}

/// The canonical and legacy names for an env/task variable `suffix`, canonical
/// first.
pub fn env_var_names(suffix: &str) -> (r: [String; 2])
    ensures
        r@[0]@ == "AURACLE_"@ + suffix@,
        r@[1]@ == "ZED_"@ + suffix@,
{
    let mut a = strs::own(ENV_PREFIX);
    strs::append_str(&mut a, suffix);
    let mut b = strs::own(LEGACY_ENV_PREFIX);
    strs::append_str(&mut b, suffix);
    [a, b]
}

/// The project-local settings folder names to probe, canonical first.
pub fn local_settings_folders() -> (r: [&'static str; 2])
    ensures
        r@[0]@ == ".auracle"@,
        r@[1]@ == ".zed"@,
{
    [LOCAL_SETTINGS_FOLDER, LEGACY_LOCAL_SETTINGS_FOLDER]
}

/// Whether `scheme` is the canonical Auracle scheme or the legacy Zed one.
pub fn is_known_url_scheme(scheme: &str) -> (r: bool)
    ensures
        r == (scheme@ == "auracle"@ || scheme@ == "zed"@),
{
    strs::eq_str(scheme, URL_SCHEME) || strs::eq_str(scheme, LEGACY_URL_SCHEME)
}

} // verus!
