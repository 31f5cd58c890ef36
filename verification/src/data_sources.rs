//! Read-only "Data sources" rows: the engine's vendor keys humanized
//! mechanically, with `configured` passed through verbatim.

use vstd::prelude::*;
use crate::strs;

verus! {

/// One read-only data-source row.
#[derive(Debug, Clone, PartialEq, Eq)]
pub struct DataSourceRow {
    pub name: String,
    pub configured: bool,
}

/// A word with its first character uppercased and the rest as given.
pub open spec fn capitalize(w: Seq<char>) -> Seq<char> {
    if w.len() == 0 {
        w
    } else {
        strs::uppercase_of(w[0]) + w.drop_first()
    }
}

/// The humanized label of a vendor key: split on `_`, empty words dropped,
/// each word capitalized, joined with single spaces.
pub open spec fn humanized(key: Seq<char>) -> Seq<char> {
    strs::join(strs::non_empty(strs::split(key, '_')).map_values(|w: Seq<char>| capitalize(w)), " "@)
}

fn capitalize_exec(w: &Vec<char>) -> (r: Vec<char>)
    ensures
        r@ == capitalize(w@),
{
    if w.len() == 0 {
        return Vec::new();
    }
    let up = strs::char_to_uppercase(w[0]);
    let mut r = strs::chars_of(up.as_str());
    let mut i: usize = 1;
    while i < w.len()
        invariant
            1 <= i <= w@.len(),
            r@ == strs::uppercase_of(w@[0]) + w@.subrange(1, i as int),
        decreases w@.len() - i,
    {
        r.push(w[i]);
        i = i + 1;
        assert(r@ =~= strs::uppercase_of(w@[0]) + w@.subrange(1, i as int));
    }
    assert(w@.subrange(1, w@.len() as int) =~= w@.drop_first());
    r
}

/// Humanize an engine vendor key for display (`nasdaq_data_link` →
/// "Nasdaq Data Link"): only the first letter of each word is uppercased.
pub fn humanize_vendor(key: &str) -> (r: String)
    ensures
        r@ == humanized(key@),
{
    let v = strs::chars_of(key);
    let words = strs::non_empty_exec(strs::split_exec(&v, '_'));
    let ghost wv = strs::views(words@);
    let mut caps: Vec<Vec<char>> = Vec::new();
    let mut i: usize = 0;
    while i < words.len()
        invariant
            i <= words@.len(),
            wv == strs::views(words@),
            strs::views(caps@) == wv.subrange(0, i as int).map_values(|w: Seq<char>| capitalize(w)),
        decreases words@.len() - i,
    {
        let c = capitalize_exec(&words[i]);
        assert(words@[i as int]@ == wv[i as int]);
        let ghost before = strs::views(caps@);
        caps.push(c);
        i = i + 1;
        assert(strs::views(caps@) =~= before.push(capitalize(wv[i - 1])));
        assert(strs::views(caps@) =~= wv.subrange(0, i as int).map_values(|w: Seq<char>| capitalize(w)));
    }
    assert(wv.subrange(0, wv.len() as int) =~= wv);
    let joined = strs::join_exec(&caps, &strs::chars_of(" "));
    strs::string_of_chars(&joined)
}

/// What a row shows: humanized name and the configured flag.
pub open spec fn row_view(r: DataSourceRow) -> (Seq<char>, bool) {
    (r.name@, r.configured)
}

/// Build the read-only rows from `(vendor_key, configured)` entries, in the
/// given order; `configured` is passed through verbatim.
pub fn data_source_rows(entries: &[(&str, bool)]) -> (r: Vec<DataSourceRow>)
    ensures
        r@.len() == entries@.len(),
        forall|i: int| 0 <= i < entries@.len() ==> #[trigger] row_view(r@[i]) == (
            humanized(entries@[i].0@),
            entries@[i].1,
        ),
{
    let mut rows: Vec<DataSourceRow> = Vec::new();
    let mut i: usize = 0;
    while i < entries.len()
        invariant
            i <= entries@.len(),
            rows@.len() == i,
            forall|j: int| 0 <= j < i ==> #[trigger] row_view(rows@[j]) == (
                humanized(entries@[j].0@),
                entries@[j].1,
            ),
        decreases entries@.len() - i,
    {
        let (key, configured) = entries[i];
        rows.push(DataSourceRow { name: humanize_vendor(key), configured });
        i = i + 1;
    }
    rows
}

} // verus!
