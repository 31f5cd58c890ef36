//! Row-building for the Strategies navigator: display names, first docstring
//! line, dropping path-less entries, and ordering user strategies before
//! bundled examples, then by case-insensitive name (stably).

use vstd::prelude::*;
use crate::strs;

verus! {

/// One strategy navigator row.
#[derive(Debug, Clone, PartialEq, Eq)]
pub struct StrategyListItem {
    /// Last dotted segment of `path`.
    pub name: String,
    /// Full dotted module path, verbatim.
    pub path: String,
    /// First non-empty line of the docstring, or "".
    pub doc: String,
    pub bundled: bool,
}

/// What a row shows: name, path, doc, bundled.
pub type ItemView = (Seq<char>, Seq<char>, Seq<char>, bool);

/// The characters of a row.
pub open spec fn item_view(i: StrategyListItem) -> ItemView {
    (i.name@, i.path@, i.doc@, i.bundled)
}

/// Derive the display name (last `.`-segment) from a dotted path; the whole
/// path if it has no dot, "" for "".
pub fn display_name(path: &str) -> (r: String)
    ensures
        r@ == strs::after_last(path@, '.'),
{
    let v = strs::chars_of(path);
    let tail = strs::after_last_exec(&v, '.');
    strs::string_of_chars(&tail)
}

/// The first line whose trimmed text is non-empty, trimmed; "" if none.
pub open spec fn first_nonblank(ls: Seq<Seq<char>>) -> Seq<char>
    decreases ls.len(),
{
    if ls.len() == 0 {
        Seq::<char>::empty()
    } else if strs::trim(ls[0]).len() > 0 {
        strs::trim(ls[0])
    } else {
        first_nonblank(ls.drop_first())
    }
}

/// First non-empty line of a docstring, trimmed; "" if none.
pub fn first_doc_line(doc: &str) -> (r: String)
    ensures
        r@ == first_nonblank(strs::lines(doc@)),
{
    let v = strs::chars_of(doc);
    let ls = strs::lines_exec(&v);
    let ghost lv = strs::views(ls@);
    let mut i: usize = 0;
    assert(lv.subrange(0, lv.len() as int) =~= lv);
    while i < ls.len()
        invariant
            i <= ls@.len(),
            lv == strs::views(ls@),
            lv == strs::lines(doc@),
            first_nonblank(lv) == first_nonblank(lv.subrange(i as int, lv.len() as int)),
        decreases ls@.len() - i,
    {
        let line = &ls[i];
        let ghost rest = lv.subrange(i as int, lv.len() as int);
        assert(strs::views(ls@)[i as int] == ls@[i as int]@);
        assert(rest[0] == line@);
        let (lo, hi) = strs::trim_bounds(line);
        if lo < hi {
            assert(rest.len() > 0);
            assert(strs::trim(line@).len() > 0);
            assert(first_nonblank(rest) == strs::trim(rest[0]));
            return strs::string_of_range(line, lo, hi);
        }
        assert(rest.drop_first() =~= lv.subrange(i + 1, lv.len() as int));
        i = i + 1;
    }
    String::new()
}

/// Strict ordering of rows: user-written before bundled, then by lowercased
/// name.
pub open spec fn sorts_before(a: ItemView, b: ItemView) -> bool {
    (!a.3 && b.3) || (a.3 == b.3 && strs::lex_less(strs::lowercase_of(a.0), strs::lowercase_of(b.0)))
}

/// `x` placed after every row it does not sort strictly before.
pub open spec fn insert_sorted(s: Seq<ItemView>, x: ItemView) -> Seq<ItemView>
    decreases s.len(),
{
    if s.len() == 0 {
        seq![x]
    } else if sorts_before(x, s[0]) {
        seq![x] + s
    } else {
        seq![s[0]] + insert_sorted(s.drop_first(), x)
    }
}

/// The stable sort of `s` by [`sorts_before`].
pub open spec fn sorted_rows(s: Seq<ItemView>) -> Seq<ItemView>
    decreases s.len(),
{
    if s.len() == 0 {
        s
    } else {
        insert_sorted(sorted_rows(s.drop_last()), s.last())
    }
}

/// The row an entry becomes.
pub open spec fn entry_row(e: (&str, &str, bool)) -> ItemView {
    (strs::after_last(e.0@, '.'), e.0@, first_nonblank(strs::lines(e.1@)), e.2)
}

/// The rows for `entries`, entries with an empty path dropped, engine order.
pub open spec fn built_rows(entries: Seq<(&str, &str, bool)>) -> Seq<ItemView>
    decreases entries.len(),
{
    if entries.len() == 0 {
        Seq::<ItemView>::empty()
    } else if entries.last().0@.len() == 0 {
        built_rows(entries.drop_last())
    } else {
        built_rows(entries.drop_last()).push(entry_row(entries.last()))
    }
}

proof fn lemma_insert_at(s: Seq<ItemView>, x: ItemView, j: int)
    requires
        0 <= j <= s.len(),
        forall|k: int| 0 <= k < j ==> !sorts_before(x, #[trigger] s[k]),
        j == s.len() || sorts_before(x, s[j]),
    ensures
        insert_sorted(s, x) == s.subrange(0, j).push(x) + s.subrange(j, s.len() as int),
    decreases j,
{
    if j == 0 {
        assert(s.subrange(0, 0).push(x) + s.subrange(0, s.len() as int) =~= seq![x] + s);
    } else {
        let t = s.drop_first();
        assert forall|k: int| 0 <= k < j - 1 implies !sorts_before(x, #[trigger] t[k]) by {
            assert(t[k] == s[k + 1]);
        }
        if j - 1 < t.len() {
            assert(t[j - 1] == s[j]);
        }
        lemma_insert_at(t, x, j - 1);
        assert(seq![s[0]] + (t.subrange(0, j - 1).push(x) + t.subrange(j - 1, t.len() as int))
            =~= s.subrange(0, j).push(x) + s.subrange(j, s.len() as int));
    }
}

fn sorts_before_exec(a: &StrategyListItem, b: &StrategyListItem) -> (r: bool)
    ensures
        r == sorts_before(item_view(*a), item_view(*b)),
{
    if a.bundled != b.bundled {
        return !a.bundled;
    }
    let la = strs::str_to_lowercase(a.name.as_str());
    let lb = strs::str_to_lowercase(b.name.as_str());
    strs::lex_less_exec(&strs::chars_of(la.as_str()), &strs::chars_of(lb.as_str()))
}

/// Build and sort the navigator rows from raw `(path, doc, bundled)` entries:
/// entries with an empty path are dropped; user-written rows come before
/// bundled ones, then by case-insensitive name, keeping engine order for equal
/// keys.
pub fn strategy_rows(entries: &[(&str, &str, bool)]) -> (r: Vec<StrategyListItem>)
    ensures
        r@.map_values(|i: StrategyListItem| item_view(i)) == sorted_rows(built_rows(entries@)),
{
    let mut sorted: Vec<StrategyListItem> = Vec::new();
    let mut i: usize = 0;
    while i < entries.len()
        invariant
            i <= entries@.len(),
            sorted@.map_values(|x: StrategyListItem| item_view(x)) == sorted_rows(built_rows(entries@.subrange(0, i as int))),
        decreases entries@.len() - i,
    {
        let e = entries[i];
        let ghost pre = entries@.subrange(0, i as int);
        assert(entries@.subrange(0, i + 1).drop_last() =~= pre);
        assert(entries@.subrange(0, i + 1).last() == e);
        let ghost old_built = built_rows(pre);
        if e.0.unicode_len() > 0 {
            assert(built_rows(entries@.subrange(0, i + 1)) == old_built.push(entry_row(e)));
            assert(old_built.push(entry_row(e)).drop_last() =~= old_built);
            let item = StrategyListItem {
                name: display_name(e.0),
                path: strs::own(e.0),
                doc: first_doc_line(e.1),
                bundled: e.2,
            };
            let ghost s = sorted@.map_values(|x: StrategyListItem| item_view(x));
            let ghost xv = item_view(item);
            assert(xv == entry_row(e));
            let mut j: usize = 0;
            while j < sorted.len() && !sorts_before_exec(&item, &sorted[j])
                invariant
                    j <= sorted@.len(),
                    s == sorted@.map_values(|x: StrategyListItem| item_view(x)),
                    xv == item_view(item),
                    forall|k: int| 0 <= k < j ==> !sorts_before(xv, #[trigger] s[k]),
                decreases sorted@.len() - j,
            {
                j = j + 1;
            }
            proof {
                lemma_insert_at(s, xv, j as int);
            }
            sorted.insert(j, item);
            assert(sorted@.map_values(|x: StrategyListItem| item_view(x))
                =~= s.subrange(0, j as int).push(xv) + s.subrange(j as int, s.len() as int));
        }
        i = i + 1;
    }
    assert(entries@.subrange(0, entries@.len() as int) =~= entries@);
    sorted
}

/// Two rows share a sort key: the same bundled flag and the same lowercased
/// name.
pub open spec fn same_key(a: ItemView, b: ItemView) -> bool {
    a.3 == b.3 && strs::lowercase_of(a.0) == strs::lowercase_of(b.0)
}

/// No row sorts strictly before an earlier one.
pub open spec fn rows_ordered(r: Seq<ItemView>) -> bool {
    forall|i: int, j: int| 0 <= i < j < r.len() ==> !sorts_before(r[j], r[i])
}

/// The rows of `s` that share `y`'s sort key, in their order in `s`.
pub open spec fn key_class(s: Seq<ItemView>, y: ItemView) -> Seq<ItemView> {
    s.filter(|v: ItemView| same_key(v, y))
}

/// Whether an entry is kept: its path is not empty.
pub open spec fn kept(e: (&str, &str, bool)) -> bool {
    e.0@.len() > 0
}

proof fn lemma_lex_irrefl(a: Seq<char>)
    ensures
        !strs::lex_less(a, a),
    decreases a.len(),
{
    if a.len() > 0 {
        lemma_lex_irrefl(a.drop_first());
    }
}

proof fn lemma_lex_trans(a: Seq<char>, b: Seq<char>, c: Seq<char>)
    requires
        strs::lex_less(a, b),
        strs::lex_less(b, c),
    ensures
        strs::lex_less(a, c),
    decreases a.len(),
{
    if a.len() > 0 && b.len() > 0 && c.len() > 0 && a[0] == b[0] && b[0] == c[0] {
        lemma_lex_trans(a.drop_first(), b.drop_first(), c.drop_first());
    }
}

proof fn lemma_lex_total(a: Seq<char>, b: Seq<char>)
    requires
        a != b,
    ensures
        strs::lex_less(a, b) || strs::lex_less(b, a),
    decreases a.len(),
{
    if a.len() > 0 && b.len() > 0 && a[0] == b[0] {
        if a.drop_first() == b.drop_first() {
            assert(a =~= b) by {
                assert(a.drop_first().len() == b.drop_first().len());
                assert(a.len() == b.len());
                assert forall|i: int| 0 <= i < a.len() implies a[i] == b[i] by {
                    if i > 0 {
                        assert(a[i] == a.drop_first()[i - 1]);
                        assert(b[i] == b.drop_first()[i - 1]);
                    }
                }
            }
        }
        lemma_lex_total(a.drop_first(), b.drop_first());
    } else if a.len() == 0 && b.len() == 0 {
        assert(a =~= b);
    }
}

/// `x < a` and `a` not after `b` give `x < b`.
proof fn lemma_sorts_before_left(x: ItemView, a: ItemView, b: ItemView)
    requires
        sorts_before(x, a),
        !sorts_before(b, a),
    ensures
        sorts_before(x, b),
{
    let (la, lb, lx) = (strs::lowercase_of(a.0), strs::lowercase_of(b.0), strs::lowercase_of(x.0));
    if la != lb {
        lemma_lex_total(la, lb);
    }
    if x.3 == a.3 && a.3 == b.3 && strs::lex_less(la, lb) {
        lemma_lex_trans(lx, la, lb);
    }
}

/// `a < b < c` gives `a < c`; nothing sorts before itself.
proof fn lemma_sorts_before_order(a: ItemView, b: ItemView, c: ItemView)
    ensures
        !sorts_before(a, a),
        sorts_before(a, b) && sorts_before(b, c) ==> sorts_before(a, c),
        same_key(a, b) ==> !sorts_before(a, b),
{
    lemma_lex_irrefl(strs::lowercase_of(a.0));
    if sorts_before(a, b) && sorts_before(b, c) && a.3 == b.3 && b.3 == c.3 {
        lemma_lex_trans(strs::lowercase_of(a.0), strs::lowercase_of(b.0), strs::lowercase_of(c.0));
    }
}

proof fn lemma_insert_sorted(s: Seq<ItemView>, x: ItemView)
    requires
        rows_ordered(s),
    ensures
        rows_ordered(insert_sorted(s, x)),
        insert_sorted(s, x).to_multiset() == s.to_multiset().insert(x),
    decreases s.len(),
{
    broadcast use vstd::seq_lib::group_to_multiset_ensures, vstd::seq_lib::lemma_multiset_commutative, vstd::multiset::group_multiset_axioms;
    let r = insert_sorted(s, x);
    if s.len() == 0 {
        assert(seq![x] =~= Seq::<ItemView>::empty().push(x));
        assert(s =~= Seq::<ItemView>::empty());
    } else if sorts_before(x, s[0]) {
        assert(r.to_multiset() =~= s.to_multiset().insert(x));
        assert forall|i: int, j: int| 0 <= i < j < r.len() implies !sorts_before(r[j], r[i]) by {
            if i == 0 {
                assert(r[j] == s[j - 1]);
                lemma_sorts_before_order(s[j - 1], x, s[0]);
            } else {
                assert(r[j] == s[j - 1] && r[i] == s[i - 1]);
            }
        }
    } else {
        let t = s.drop_first();
        assert(s =~= seq![s[0]] + t);
        lemma_insert_sorted(t, x);
        let it = insert_sorted(t, x);
        assert(r.to_multiset() =~= s.to_multiset().insert(x));
        assert forall|i: int, j: int| 0 <= i < j < r.len() implies !sorts_before(r[j], r[i]) by {
            assert(r[j] == it[j - 1]);
            if i == 0 {
                let e = it[j - 1];
                assert(it.contains(e));
                assert(it.to_multiset().count(e) > 0);
                if e != x {
                    assert(t.to_multiset().count(e) > 0);
                    assert(t.contains(e));
                    let k = choose|k: int| 0 <= k < t.len() && t[k] == e;
                    assert(t[k] == s[k + 1]);
                }
            } else {
                assert(r[i] == it[i - 1]);
            }
        }
    }
}

proof fn lemma_insert_class(s: Seq<ItemView>, x: ItemView, y: ItemView)
    requires
        rows_ordered(s),
    ensures
        key_class(insert_sorted(s, x), y) == if same_key(x, y) {
            key_class(s, y).push(x)
        } else {
            key_class(s, y)
        },
    decreases s.len(),
{
    broadcast use vstd::seq_lib::group_filter_ensures;
    let p = |v: ItemView| same_key(v, y);
    let r = insert_sorted(s, x);
    if s.len() == 0 {
        assert(seq![x] =~= seq![x] + s);
        s.lemma_filter_prepend(x, p);
        assert(s.filter(p) =~= s) by {
            reveal(Seq::filter);
        }
        if same_key(x, y) {
            assert(seq![x] + s.filter(p) =~= s.filter(p).push(x));
        } else {
            assert(Seq::<ItemView>::empty() + s.filter(p) =~= s.filter(p));
        }
    } else if sorts_before(x, s[0]) {
        s.lemma_filter_prepend(x, p);
        if same_key(x, y) {
            if s.filter(p).len() > 0 {
                let e = s.filter(p)[0];
                assert(p(e));
                assert(s.filter(p).contains(e));
                s.lemma_filter_contains_rev(p, e);
                let k = choose|k: int| 0 <= k < s.len() && s[k] == e;
                lemma_sorts_before_order(s[k], s[k], s[k]);
                lemma_sorts_before_left(x, s[0], s[k]);
                lemma_sorts_before_order(x, s[k], s[k]);
                assert(false);
            }
            assert(seq![x] + s.filter(p) =~= s.filter(p).push(x));
        } else {
            assert(Seq::<ItemView>::empty() + s.filter(p) =~= s.filter(p));
        }
    } else {
        let t = s.drop_first();
        assert(s =~= seq![s[0]] + t);
        lemma_insert_class(t, x, y);
        let it = insert_sorted(t, x);
        assert(r == seq![s[0]] + it);
        it.lemma_filter_prepend(s[0], p);
        t.lemma_filter_prepend(s[0], p);
        let head = if p(s[0]) { seq![s[0]] } else { Seq::<ItemView>::empty() };
        if same_key(x, y) {
            assert(head + t.filter(p).push(x) =~= (head + t.filter(p)).push(x));
        }
    }
}

/// The stable sort of any rows is ordered, holds the same rows, and keeps the
/// order of rows that share a sort key.
proof fn lemma_sorted_rows(s: Seq<ItemView>)
    ensures
        rows_ordered(sorted_rows(s)),
        sorted_rows(s).to_multiset() == s.to_multiset(),
        forall|y: ItemView| #[trigger] key_class(sorted_rows(s), y) == key_class(s, y),
    decreases s.len(),
{
    broadcast use vstd::seq_lib::group_to_multiset_ensures;
    if s.len() > 0 {
        let dl = s.drop_last();
        assert(s =~= dl.push(s.last()));
        lemma_sorted_rows(dl);
        lemma_insert_sorted(sorted_rows(dl), s.last());
        assert forall|y: ItemView| #[trigger] key_class(sorted_rows(s), y) == key_class(s, y) by {
            lemma_insert_class(sorted_rows(dl), s.last(), y);
            assert(key_class(sorted_rows(dl), y) == key_class(dl, y));
            dl.lemma_filter_push(s.last(), |v: ItemView| same_key(v, y));
        }
    }
}

/// The rows before sorting are the kept entries, in input order, each mapped
/// to its row.
proof fn lemma_built_rows(entries: Seq<(&str, &str, bool)>)
    ensures
        built_rows(entries) == entries.filter(|e: (&str, &str, bool)| kept(e)).map_values(|e: (&str, &str, bool)| entry_row(e)),
    decreases entries.len(),
{
    if entries.len() > 0 {
        let dl = entries.drop_last();
        assert(entries =~= dl.push(entries.last()));
        dl.lemma_filter_push(entries.last(), |e: (&str, &str, bool)| kept(e));
        lemma_built_rows(dl);
        let f = dl.filter(|e: (&str, &str, bool)| kept(e));
        assert(f.push(entries.last()).map_values(|e: (&str, &str, bool)| entry_row(e))
            =~= f.map_values(|e: (&str, &str, bool)| entry_row(e)).push(entry_row(entries.last())));
    } else {
        assert(entries.filter(|e: (&str, &str, bool)| kept(e)) =~= entries) by {
            reveal(Seq::filter);
        }
    }
}

/// The navigator rows (what [`strategy_rows`] returns) are the kept entries,
/// each mapped to its row, rearranged: as a multiset they are unchanged; they
/// are ordered, user-written before bundled, then by case-insensitive name;
/// and rows that share a sort key keep their input order.
pub proof fn lemma_strategy_rows_sorted_stable(entries: Seq<(&str, &str, bool)>)
    ensures
        built_rows(entries) == entries.filter(|e: (&str, &str, bool)| kept(e)).map_values(|e: (&str, &str, bool)| entry_row(e)),
        sorted_rows(built_rows(entries)).to_multiset() == built_rows(entries).to_multiset(),
        rows_ordered(sorted_rows(built_rows(entries))),
        forall|y: ItemView| #[trigger] key_class(sorted_rows(built_rows(entries)), y) == key_class(built_rows(entries), y),
{
    lemma_built_rows(entries);
    lemma_sorted_rows(built_rows(entries));
}

/// The relative file path of a dotted strategy path: its non-empty segments,
/// the last (class or function) dropped, joined with `/`, plus `.py`; `None`
/// with fewer than two non-empty segments.
pub open spec fn relpath_view(dotted_path: Seq<char>) -> Option<Seq<char>> {
    let parts = strs::non_empty(strs::split(dotted_path, '.'));
    if parts.len() < 2 {
        None
    } else {
        Some(strs::join(parts.drop_last(), "/"@) + ".py"@)
    }
}

/// `strategies.example_ma.MACrossover` → `Some("strategies/example_ma.py")`.
pub fn module_to_relpath(dotted_path: &str) -> (r: Option<String>)
    ensures
        strs::opt_view(r) == relpath_view(dotted_path@),
{
    let v = strs::chars_of(dotted_path);
    let mut parts = strs::non_empty_exec(strs::split_exec(&v, '.'));
    if parts.len() < 2 {
        return None;
    }
    let ghost pv = strs::views(parts@);
    parts.pop();
    assert(strs::views(parts@) =~= pv.drop_last());
    let joined = strs::join_exec(&parts, &strs::chars_of("/"));
    let mut s = strs::string_of_chars(&joined);
    strs::append_str(&mut s, ".py");
    Some(s)
}

} // verus!
