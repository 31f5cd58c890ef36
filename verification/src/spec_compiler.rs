//! The one-file `# %%spec` strategy compiler.
//!
//! A strategy is a single `.py`. A delimited header block
//!
//! ```text
//! # %%spec
//! # name: OvernightGapReversion
//! # universe: liquid_megacap_200
//! # param.lookback: 20
//! # param.gap_z: 1.5
//! # signal: gap z-score > gap_z
//! # %%end
//! ```
//!
//! compiles into a `Strategy` subclass written immediately below the header.
//! Everything from a `# %%eject` marker line onward is hand-owned Python that
//! the compiler preserves verbatim across recompiles.

use vstd::prelude::*;
use crate::strs;

verus! {

/// Markers that delimit the three regions of a one-file strategy.
const SPEC_OPEN: &'static str = "# %%spec";
const SPEC_CLOSE: &'static str = "# %%end";
/// Boundary between the compiler-owned generated region and the user-owned tail.
pub const EJECT_MARKER: &'static str = "# %%eject";

/// A parsed strategy spec. Field order is preserved so a render → parse round
/// trip is stable.
#[derive(Debug, Clone, PartialEq, Eq)]
pub struct Spec {
    /// The generated class name.
    pub name: String,
    /// A named universe resolved via `resolve_universe(...)`.
    pub universe: String,
    /// Tunable knobs emitted as class-level attributes. Values are emitted
    /// verbatim.
    pub params: Vec<(String, String)>,
    /// Free-form sections (signal/exit/sizing/validate/…).
    pub sections: Vec<(String, String)>,
}

/// A spec as plain character sequences.
pub struct SpecModel {
    pub name: Seq<char>,
    pub universe: Seq<char>,
    pub params: Seq<(Seq<char>, Seq<char>)>,
    pub sections: Seq<(Seq<char>, Seq<char>)>,
}

/// The characters of each key/value pair.
pub open spec fn pairs_view(v: Seq<(String, String)>) -> Seq<(Seq<char>, Seq<char>)> {
    v.map_values(|p: (String, String)| (p.0@, p.1@))
}

impl View for Spec {
    type V = SpecModel;

    open spec fn view(&self) -> SpecModel {
        SpecModel {
            name: self.name@,
            universe: self.universe@,
            params: pairs_view(self.params@),
            sections: pairs_view(self.sections@),
        }
    }
}

/// The spec with every field empty.
pub open spec fn empty_model() -> SpecModel {
    SpecModel {
        name: Seq::empty(),
        universe: Seq::empty(),
        params: Seq::empty(),
        sections: Seq::empty(),
    }
}

impl Default for Spec {
    fn default() -> (s: Self)
        ensures
            s@ == empty_model(),
    {
        let s = Spec { name: String::new(), universe: String::new(), params: Vec::new(), sections: Vec::new() };
        assert(s@.params =~= Seq::<(Seq<char>, Seq<char>)>::empty());
        assert(s@.sections =~= Seq::<(Seq<char>, Seq<char>)>::empty());
        s
    }
}

/// The optional spec as plain values.
pub open spec fn opt_model(o: Option<Spec>) -> Option<SpecModel> {
    match o {
        Some(s) => Some(s@),
        None => None,
    }
}

// ── Parsing ────────────────────────────────────────────────────────────

/// Index of the first `c` in `s`, as `str::find` / `split_once` locate it.
pub open spec fn find_char(s: Seq<char>, c: char) -> Option<int>
    decreases s.len(),
{
    if s.len() == 0 {
        None
    } else if s[0] == c {
        Some(0)
    } else {
        match find_char(s.drop_first(), c) {
            Some(k) => Some(k + 1),
            None => None,
        }
    }
}

/// `(key, value)` of a trimmed `# key: value` header line: after the `#`, the
/// trimmed text split at its first `:`, each side trimmed.
pub open spec fn header_entry(t: Seq<char>) -> Option<(Seq<char>, Seq<char>)> {
    if t.len() > 0 && t[0] == '#' {
        let body = strs::trim(t.drop_first());
        match find_char(body, ':') {
            Some(c) => Some((strs::trim(body.take(c)), strs::trim(body.skip(c + 1)))),
            None => None,
        }
    } else {
        None
    }
}

/// The spec after reading one header entry: `name` and `universe` set their
/// field, `param.<k>` appends a parameter `<k>`, anything else a section.
pub open spec fn apply_entry(acc: SpecModel, key: Seq<char>, value: Seq<char>) -> SpecModel {
    if key == "name"@ {
        SpecModel { name: value, ..acc }
    } else if key == "universe"@ {
        SpecModel { universe: value, ..acc }
    } else if strs::has_prefix(key, "param."@) {
        SpecModel { params: acc.params.push((key.skip("param."@.len() as int), value)), ..acc }
    } else {
        SpecModel { sections: acc.sections.push((key, value)), ..acc }
    }
}

/// The spec after reading one header line (lines that are no entry are
/// skipped).
pub open spec fn apply_line(acc: SpecModel, line: Seq<char>) -> SpecModel {
    match header_entry(strs::trim(line)) {
        Some(kv) => apply_entry(acc, kv.0, kv.1),
        None => acc,
    }
}

/// Reading header lines into `acc` up to the closing marker; `None` when the
/// lines run out first.
pub open spec fn fold_header(ls: Seq<Seq<char>>, acc: SpecModel) -> Option<SpecModel>
    decreases ls.len(),
{
    if ls.len() == 0 {
        None
    } else if strs::trim(ls[0]) == "# %%end"@ {
        Some(acc)
    } else {
        fold_header(ls.drop_first(), apply_line(acc, ls[0]))
    }
}

/// Index of the first line that trims to `m`.
pub open spec fn first_line_is(ls: Seq<Seq<char>>, m: Seq<char>) -> Option<int>
    decreases ls.len(),
{
    if ls.len() == 0 {
        None
    } else if strs::trim(ls[0]) == m {
        Some(0)
    } else {
        match first_line_is(ls.drop_first(), m) {
            Some(k) => Some(k + 1),
            None => None,
        }
    }
}

/// The spec read from a one-file strategy: the lines after the first line
/// that trims to `# %%spec`, up to one that trims to `# %%end`.
pub open spec fn parse_model(src: Seq<char>) -> Option<SpecModel> {
    let ls = strs::lines(src);
    match first_line_is(ls, "# %%spec"@) {
        Some(o) => fold_header(ls.skip(o + 1), empty_model()),
        None => None,
    }
}

/// `find_char` is the first occurrence.
pub proof fn lemma_find_char(s: Seq<char>, c: char, i: int)
    requires
        0 <= i <= s.len(),
        forall|j: int| 0 <= j < i ==> s[j] != c,
        i == s.len() || s[i] == c,
    ensures
        find_char(s, c) == (if i == s.len() { None } else { Some(i) }),
    decreases i,
{
    if i > 0 {
        let t = s.drop_first();
        assert forall|j: int| 0 <= j < i - 1 implies t[j] != c by {
            assert(t[j] == s[j + 1]);
        }
        if i < s.len() {
            assert(t[i - 1] == s[i]);
        }
        lemma_find_char(t, c, i - 1);
        assert(s[0] != c);
    }
}

/// Index of the first `c` in `v`.
fn find_char_exec(v: &Vec<char>, c: char) -> (r: Option<usize>)
    ensures
        match r {
            Some(i) => find_char(v@, c) == Some(i as int) && i < v@.len(),
            None => find_char(v@, c) is None,
        },
{
    let mut i: usize = 0;
    while i < v.len() && v[i] != c
        invariant
            i <= v@.len(),
            forall|j: int| 0 <= j < i ==> v@[j] != c,
        decreases v@.len() - i,
    {
        i = i + 1;
    }
    proof {
        lemma_find_char(v@, c, i as int);
    }
    if i < v.len() {
        Some(i)
    } else {
        None
    }
}

/// Parse a trimmed `# key: value` header line into `(key, value)`.
fn parse_header_line(trimmed: &Vec<char>) -> (r: Option<(Vec<char>, Vec<char>)>)
    ensures
        match r {
            Some(kv) => header_entry(trimmed@) == Some((kv.0@, kv.1@)),
            None => header_entry(trimmed@) is None,
        },
{
    if trimmed.len() == 0 || trimmed[0] != '#' {
        return None;
    }
    let rest = strs::sub_chars(trimmed, 1, trimmed.len());
    assert(rest@ =~= trimmed@.drop_first());
    let body = strs::trimmed(&rest);
    match find_char_exec(&body, ':') {
        Some(c) => {
            let k = strs::sub_chars(&body, 0, c);
            let v = strs::sub_chars(&body, c + 1, body.len());
            assert(k@ =~= body@.take(c as int));
            assert(v@ =~= body@.skip(c + 1));
            Some((strs::trimmed(&k), strs::trimmed(&v)))
        },
        None => None,
    }
}

/// Index of the first line of `ls` that trims to `m`.
fn first_line_exec(ls: &Vec<Vec<char>>, m: &Vec<char>) -> (r: Option<usize>)
    ensures
        match r {
            Some(i) => first_line_is(strs::views(ls@), m@) == Some(i as int) && i < ls@.len(),
            None => first_line_is(strs::views(ls@), m@) is None,
        },
{
    let ghost lv = strs::views(ls@);
    let mut i: usize = 0;
    assert(lv.skip(0) =~= lv);
    while i < ls.len()
        invariant
            i <= ls@.len() == lv.len(),
            lv == strs::views(ls@),
            first_line_is(lv, m@) == (match first_line_is(lv.skip(i as int), m@) {
                Some(k) => Some(k + i),
                None => None,
            }),
        decreases ls@.len() - i,
    {
        let t = strs::trimmed(&ls[i]);
        assert(lv.skip(i as int)[0] == ls@[i as int]@);
        assert(lv.skip(i as int).drop_first() =~= lv.skip(i + 1));
        if strs::eq_chars(&t, m) {
            return Some(i);
        }
        i = i + 1;
    }
    assert(lv.skip(i as int).len() == 0);
    None
}

/// Parse the `# %%spec … # %%end` header out of a one-file strategy. Returns
/// `None` if no well-formed header is present.
pub fn parse_spec(source: &str) -> (r: Option<Spec>)
    ensures
        opt_model(r) == parse_model(source@),
{
    let chars = strs::chars_of(source);
    let ls = strs::lines_exec(&chars);
    let ghost lv = strs::views(ls@);
    let open = strs::chars_of(SPEC_OPEN);
    let close = strs::chars_of(SPEC_CLOSE);
    let name_key = strs::chars_of("name");
    let universe_key = strs::chars_of("universe");
    let param_prefix = strs::chars_of("param.");
    let found = first_line_exec(&ls, &open);
    if found.is_none() {
        return None;
    }
    let o = found.unwrap();
    assert(o < ls@.len());
    let mut spec = Spec::default();
    let mut i = o + 1;
    assert(lv.skip(o + 1) =~= lv.skip(i as int));
    while i < ls.len()
        invariant
            o < i <= ls@.len() == lv.len(),
            lv == strs::views(ls@),
            lv == strs::lines(source@),
            close@ == "# %%end"@,
            first_line_is(lv, "# %%spec"@) == Some(o as int),
            name_key@ == "name"@,
            universe_key@ == "universe"@,
            param_prefix@ == "param."@,
            fold_header(lv.skip(o + 1), empty_model()) == fold_header(lv.skip(i as int), spec@),
        decreases ls@.len() - i,
    {
        let t = strs::trimmed(&ls[i]);
        let ghost before = spec@;
        assert(lv.skip(i as int)[0] == ls@[i as int]@);
        assert(lv.skip(i as int).drop_first() =~= lv.skip(i + 1));
        if strs::eq_chars(&t, &close) {
            assert(strs::trim(lv.skip(i as int)[0]) == "# %%end"@);
            assert(fold_header(lv.skip(i as int), spec@) == Some(spec@));
            return Some(spec);
        }
        match parse_header_line(&t) {
            Some((k, v)) => {
                if strs::eq_chars(&k, &name_key) {
                    spec.name = strs::string_of_chars(&v);
                } else if strs::eq_chars(&k, &universe_key) {
                    spec.universe = strs::string_of_chars(&v);
                } else if strs::starts_with(&k, &param_prefix) {
                    let pk = strs::sub_chars(&k, param_prefix.len(), k.len());
                    assert(pk@ =~= k@.skip("param."@.len() as int));
                    spec.params.push((strs::string_of_chars(&pk), strs::string_of_chars(&v)));
                    assert(spec@.params =~= before.params.push((pk@, v@)));
                } else {
                    spec.sections.push((strs::string_of_chars(&k), strs::string_of_chars(&v)));
                    assert(spec@.sections =~= before.sections.push((k@, v@)));
                }
                assert(spec@ == apply_line(before, lv[i as int]));
            },
            None => {
                assert(spec@ == apply_line(before, lv[i as int]));
            },
        }
        i = i + 1;
    }
    assert(lv.skip(i as int).len() == 0);
    None
}


// ── Rendering ──────────────────────────────────────────────────────────

/// The lines of `ls`, each followed by `\n`.
pub open spec fn terminated(ls: Seq<Seq<char>>) -> Seq<char>
    decreases ls.len(),
{
    if ls.len() == 0 {
        Seq::empty()
    } else {
        terminated(ls.drop_last()) + ls.last() + seq!['\n']
    }
}

/// `# param.<key>: <value>`
pub open spec fn param_header_line(p: (Seq<char>, Seq<char>)) -> Seq<char> {
    "# param."@ + p.0 + ": "@ + p.1
}

/// `# <key>: <value>`
pub open spec fn section_header_line(p: (Seq<char>, Seq<char>)) -> Seq<char> {
    "# "@ + p.0 + ": "@ + p.1
}

/// `    <key> = <value>`, a class-level attribute.
pub open spec fn param_attr_line(p: (Seq<char>, Seq<char>)) -> Seq<char> {
    "    "@ + p.0 + " = "@ + p.1
}

/// The header block: markers around the name, universe, parameters and
/// sections, in order.
pub open spec fn header_lines(m: SpecModel) -> Seq<Seq<char>> {
    seq!["# %%spec"@, "# name: "@ + m.name, "# universe: "@ + m.universe]
        + m.params.map_values(|p: (Seq<char>, Seq<char>)| param_header_line(p))
        + m.sections.map_values(|p: (Seq<char>, Seq<char>)| section_header_line(p))
        + seq!["# %%end"@]
}

/// An ASCII letter or `_`.
pub open spec fn ident_start(c: char) -> bool {
    ('a' <= c && c <= 'z') || ('A' <= c && c <= 'Z') || c == '_'
}

/// An ASCII letter, digit or `_`.
pub open spec fn ident_char(c: char) -> bool {
    ident_start(c) || ('0' <= c && c <= '9')
}

/// A Python identifier of ASCII letters, digits and `_`, not starting with a
/// digit.
pub open spec fn is_identifier(s: Seq<char>) -> bool {
    s.len() > 0 && ident_start(s[0]) && forall|i: int| 0 <= i < s.len() ==> ident_char(#[trigger] s[i])
}

/// The class name: the trimmed spec name when it is an identifier, else a
/// fixed fallback.
pub open spec fn class_name_model(name: Seq<char>) -> Seq<char> {
    let c = strs::trim(name);
    if is_identifier(c) {
        c
    } else {
        "GeneratedStrategy"@
    }
}

/// The value of the first pair whose key is `key`.
pub open spec fn first_value(ps: Seq<(Seq<char>, Seq<char>)>, key: Seq<char>) -> Option<Seq<char>>
    decreases ps.len(),
{
    if ps.len() == 0 {
        None
    } else if ps[0].0 == key {
        Some(ps[0].1)
    } else {
        first_value(ps.drop_first(), key)
    }
}

/// The lines of the generated `Strategy` subclass.
pub open spec fn body_lines(m: SpecModel) -> Seq<Seq<char>> {
    seq![
        "from auracle.backtest import Strategy"@,
        "from auracle.master.universe import resolve_universe"@,
        Seq::<char>::empty(),
        Seq::<char>::empty(),
        "class "@ + class_name_model(m.name) + "(Strategy):"@,
    ]
        + m.params.map_values(|p: (Seq<char>, Seq<char>)| param_attr_line(p))
        + seq![
        "    universe = resolve_universe(\""@ + m.universe + "\")"@,
        Seq::<char>::empty(),
        "    def prices_to_signals(self, prices):"@,
    ]
        + match first_value(m.sections, "signal"@) {
        Some(v) => seq!["        # signal: "@ + v],
        None => Seq::<Seq<char>>::empty(),
    }
        + seq!["        raise NotImplementedError(\"Fill prices_to_signals, or ask the assistant.\")"@]
}

/// The rendered file: header block, then the generated class.
pub open spec fn render_model(m: SpecModel) -> Seq<char> {
    terminated(header_lines(m) + body_lines(m))
}

/// The line that fills a generated `prices_to_signals` until it is written.
pub open spec fn raise_line() -> Seq<char> {
    "        raise NotImplementedError(\"Fill prices_to_signals, or ask the assistant.\")"@
}

proof fn lemma_terminated_append(a: Seq<Seq<char>>, b: Seq<Seq<char>>)
    ensures
        terminated(a + b) == terminated(a) + terminated(b),
    decreases b.len(),
{
    if b.len() == 0 {
        assert(a + b =~= a);
        assert(terminated(a) + terminated(b) =~= terminated(a));
    } else {
        assert((a + b).drop_last() =~= a + b.drop_last());
        lemma_terminated_append(a, b.drop_last());
        assert((a + b).last() == b.last());
        assert(terminated(a) + terminated(b.drop_last()) + b.last() + seq!['\n']
            =~= terminated(a) + (terminated(b.drop_last()) + b.last() + seq!['\n']));
    }
}

proof fn lemma_first_value_at(ps: Seq<(Seq<char>, Seq<char>)>, key: Seq<char>, k: int)
    requires
        0 <= k < ps.len(),
        ps[k].0 == key,
        forall|j: int| 0 <= j < k ==> ps[j].0 != key,
    ensures
        first_value(ps, key) == Some(ps[k].1),
    decreases k,
{
    if k > 0 {
        let t = ps.drop_first();
        assert forall|j: int| 0 <= j < k - 1 implies t[j].0 != key by {
            assert(t[j] == ps[j + 1]);
        }
        lemma_first_value_at(t, key, k - 1);
    }
}

proof fn lemma_no_value(ps: Seq<(Seq<char>, Seq<char>)>, key: Seq<char>)
    requires
        forall|j: int| 0 <= j < ps.len() ==> ps[j].0 != key,
    ensures
        first_value(ps, key) is None,
    decreases ps.len(),
{
    if ps.len() > 0 {
        let t = ps.drop_first();
        assert forall|j: int| 0 <= j < t.len() implies t[j].0 != key by {
            assert(t[j] == ps[j + 1]);
        }
        lemma_no_value(t, key);
    }
}

/// The generated `prices_to_signals` carries the spec's signal guidance: when
/// the first section keyed `signal` has value `v`, the rendered file ends with
/// the method's header line, then `        # signal: v`, then the placeholder
/// raise; with no `signal` section it ends with the header line followed
/// directly by the raise.
pub proof fn lemma_render_signal_guidance(m: SpecModel)
    ensures
        forall|k: int|
            0 <= k < m.sections.len() && m.sections[k].0 == "signal"@ && (forall|j: int| 0 <= j < k ==> m.sections[j].0 != "signal"@)
                ==> exists|pre: Seq<char>| render_model(m) == pre + "    def prices_to_signals(self, prices):"@ + seq!['\n']
                    + "        # signal: "@ + #[trigger] m.sections[k].1 + seq!['\n'] + raise_line() + seq!['\n'],
        (forall|j: int| 0 <= j < m.sections.len() ==> m.sections[j].0 != "signal"@) ==> exists|pre: Seq<char>|
            render_model(m) == pre + "    def prices_to_signals(self, prices):"@ + seq!['\n'] + raise_line() + seq!['\n'],
{
    let def_line = "    def prices_to_signals(self, prices):"@;
    let front = seq![
        "from auracle.backtest import Strategy"@,
        "from auracle.master.universe import resolve_universe"@,
        Seq::<char>::empty(),
        Seq::<char>::empty(),
        "class "@ + class_name_model(m.name) + "(Strategy):"@,
    ]
        + m.params.map_values(|p: (Seq<char>, Seq<char>)| param_attr_line(p))
        + seq![
        "    universe = resolve_universe(\""@ + m.universe + "\")"@,
        Seq::<char>::empty(),
    ];
    let pre_lines = header_lines(m) + front;
    assert forall|k: int|
        0 <= k < m.sections.len() && m.sections[k].0 == "signal"@ && (forall|j: int| 0 <= j < k ==> m.sections[j].0 != "signal"@)
            implies exists|pre: Seq<char>| render_model(m) == pre + def_line + seq!['\n']
                + "        # signal: "@ + #[trigger] m.sections[k].1 + seq!['\n'] + raise_line() + seq!['\n'] by {
        lemma_first_value_at(m.sections, "signal"@, k);
        let v = m.sections[k].1;
        let sig = "        # signal: "@ + v;
        assert(header_lines(m) + body_lines(m) =~= pre_lines + seq![def_line, sig, raise_line()]);
        lemma_terminated_append(pre_lines, seq![def_line, sig, raise_line()]);
        let t3 = seq![def_line, sig, raise_line()];
        assert(t3.drop_last().drop_last().drop_last() =~= Seq::<Seq<char>>::empty());
        assert(t3.drop_last() =~= seq![def_line, sig]);
        assert(t3.drop_last().drop_last() =~= seq![def_line]);
        assert(terminated(t3.drop_last().drop_last().drop_last()) =~= Seq::<char>::empty());
        assert(terminated(t3.drop_last().drop_last()) =~= def_line + seq!['\n']);
        assert(terminated(t3.drop_last()) =~= def_line + seq!['\n'] + sig + seq!['\n']);
        assert(terminated(t3) =~= def_line + seq!['\n'] + sig + seq!['\n'] + raise_line() + seq!['\n']);
        let pre = terminated(pre_lines);
        assert(render_model(m) =~= pre + def_line + seq!['\n'] + "        # signal: "@ + v + seq!['\n'] + raise_line() + seq!['\n']);
    }
    if forall|j: int| 0 <= j < m.sections.len() ==> m.sections[j].0 != "signal"@ {
        lemma_no_value(m.sections, "signal"@);
        assert(header_lines(m) + body_lines(m) =~= pre_lines + seq![def_line, raise_line()]);
        lemma_terminated_append(pre_lines, seq![def_line, raise_line()]);
        let t2 = seq![def_line, raise_line()];
        assert(t2.drop_last().drop_last() =~= Seq::<Seq<char>>::empty());
        assert(t2.drop_last() =~= seq![def_line]);
        assert(terminated(t2.drop_last().drop_last()) =~= Seq::<char>::empty());
        assert(terminated(t2.drop_last()) =~= def_line + seq!['\n']);
        assert(terminated(t2) =~= def_line + seq!['\n'] + raise_line() + seq!['\n']);
        let pre = terminated(pre_lines);
        assert(render_model(m) =~= pre + def_line + seq!['\n'] + raise_line() + seq!['\n']);
    }
}

/// `a + b + c` as a new string.
fn cat3(a: &str, b: &str, c: &str) -> (r: String)
    ensures
        r@ == a@ + b@ + c@,
{
    let mut r = strs::own(a);
    strs::append_str(&mut r, b);
    strs::append_str(&mut r, c);
    r
}

/// `a + b + c + d` as a new string.
fn cat4(a: &str, b: &str, c: &str, d: &str) -> (r: String)
    ensures
        r@ == a@ + b@ + c@ + d@,
{
    let mut r = cat3(a, b, c);
    strs::append_str(&mut r, d);
    r
}

/// Append `line` and a newline.
fn emit(out: &mut String, line: &str, Ghost(done): Ghost<Seq<Seq<char>>>)
    requires
        old(out)@ == terminated(done),
    ensures
        final(out)@ == terminated(done.push(line@)),
{
    strs::append_str(out, line);
    strs::push_char(out, '\n');
    assert(done.push(line@).drop_last() =~= done);
}

/// A safe Python class name: the spec name if it's a valid identifier, else a
/// stable fallback so generated code always parses.
fn class_name(spec: &Spec) -> (r: String)
    ensures
        r@ == class_name_model(spec@.name),
{
    let candidate = strs::trim_str(spec.name.as_str());
    let cs = strs::chars_of(candidate);
    let mut valid = cs.len() > 0 && (('a' <= cs[0] && cs[0] <= 'z') || ('A' <= cs[0] && cs[0] <= 'Z') || cs[0] == '_');
    let mut i: usize = 0;
    while i < cs.len()
        invariant
            i <= cs@.len(),
            cs@ == strs::trim(spec.name@),
            valid == (cs@.len() > 0 && ident_start(cs@[0]) && forall|j: int| 0 <= j < i ==> ident_char(#[trigger] cs@[j])),
        decreases cs@.len() - i,
    {
        let c = cs[i];
        let ok = ('a' <= c && c <= 'z') || ('A' <= c && c <= 'Z') || c == '_' || ('0' <= c && c <= '9');
        proof {
            if valid && ok {
                assert forall|j: int| 0 <= j < i + 1 implies ident_char(#[trigger] cs@[j]) by {
                    if j == i {
                        assert(cs@[j] == c);
                    }
                }
            }
        }
        valid = valid && ok;
        i = i + 1;
    }
    if valid {
        strs::own(candidate)
    } else {
        strs::own("GeneratedStrategy")
    }
}

/// The value of the first section named `signal`.
fn signal_value(sections: &Vec<(String, String)>) -> (r: Option<&String>)
    ensures
        match r {
            Some(v) => first_value(pairs_view(sections@), "signal"@) == Some(v@),
            None => first_value(pairs_view(sections@), "signal"@) is None,
        },
{
    let ghost pv = pairs_view(sections@);
    let key = strs::chars_of("signal");
    let mut i: usize = 0;
    assert(pv.skip(0) =~= pv);
    while i < sections.len()
        invariant
            i <= sections@.len() == pv.len(),
            pv == pairs_view(sections@),
            key@ == "signal"@,
            first_value(pv, "signal"@) == first_value(pv.skip(i as int), "signal"@),
        decreases sections@.len() - i,
    {
        let k = strs::chars_of(sections[i].0.as_str());
        assert(pv.skip(i as int)[0] == pv[i as int]);
        assert(pv.skip(i as int).drop_first() =~= pv.skip(i + 1));
        if strs::eq_chars(&k, &key) {
            return Some(&sections[i].1);
        }
        i = i + 1;
    }
    assert(pv.skip(i as int).len() == 0);
    None
}

/// `a + b` as a new string.
fn cat2(a: &str, b: &str) -> (r: String)
    ensures
        r@ == a@ + b@,
{
    let mut r = strs::own(a);
    strs::append_str(&mut r, b);
    r
}

/// Render the spec header + the generated `Strategy` subclass. Does NOT include
/// any ejected tail (see [`recompile`] to preserve one).
pub fn render(spec: &Spec) -> (out: String)
    ensures
        out@ == render_model(spec@),
{
    let ghost m = spec@;
    let ghost pmap = m.params.map_values(|p: (Seq<char>, Seq<char>)| param_header_line(p));
    let ghost smap = m.sections.map_values(|p: (Seq<char>, Seq<char>)| section_header_line(p));
    let ghost amap = m.params.map_values(|p: (Seq<char>, Seq<char>)| param_attr_line(p));
    let mut out = String::new();
    let ghost mut done: Seq<Seq<char>> = Seq::empty();
    proof {
        reveal_strlit("");
        assert(""@ =~= Seq::<char>::empty());
    }

    emit(&mut out, SPEC_OPEN, Ghost(done));
    proof { done = done.push(SPEC_OPEN@); }
    let l = cat2("# name: ", spec.name.as_str());
    emit(&mut out, l.as_str(), Ghost(done));
    proof { done = done.push(l@); }
    let l = cat2("# universe: ", spec.universe.as_str());
    emit(&mut out, l.as_str(), Ghost(done));
    proof { done = done.push(l@); }
    let ghost h3 = done;
    assert(h3 =~= seq!["# %%spec"@, "# name: "@ + m.name, "# universe: "@ + m.universe]);

    let mut i: usize = 0;
    assert(h3 + pmap.take(0) =~= h3);
    while i < spec.params.len()
        invariant
            i <= spec.params@.len() == pmap.len(),
            m == spec@,
            pmap == m.params.map_values(|p: (Seq<char>, Seq<char>)| param_header_line(p)),
            done == h3 + pmap.take(i as int),
            out@ == terminated(done),
        decreases spec.params@.len() - i,
    {
        let l = cat4("# param.", spec.params[i].0.as_str(), ": ", spec.params[i].1.as_str());
        emit(&mut out, l.as_str(), Ghost(done));
        proof {
            assert(m.params[i as int] == (spec.params@[i as int].0@, spec.params@[i as int].1@));
            assert(l@ == pmap[i as int]);
            assert(done.push(l@) =~= h3 + pmap.take(i + 1));
            done = done.push(l@);
        }
        i = i + 1;
    }
    assert(pmap.take(i as int) =~= pmap);
    let ghost hp = done;

    let mut i: usize = 0;
    assert(hp + smap.take(0) =~= hp);
    while i < spec.sections.len()
        invariant
            i <= spec.sections@.len() == smap.len(),
            m == spec@,
            smap == m.sections.map_values(|p: (Seq<char>, Seq<char>)| section_header_line(p)),
            done == hp + smap.take(i as int),
            out@ == terminated(done),
        decreases spec.sections@.len() - i,
    {
        let l = cat4("# ", spec.sections[i].0.as_str(), ": ", spec.sections[i].1.as_str());
        emit(&mut out, l.as_str(), Ghost(done));
        proof {
            assert(m.sections[i as int] == (spec.sections@[i as int].0@, spec.sections@[i as int].1@));
            assert(l@ == smap[i as int]);
            assert(done.push(l@) =~= hp + smap.take(i + 1));
            done = done.push(l@);
        }
        i = i + 1;
    }
    assert(smap.take(i as int) =~= smap);
    emit(&mut out, SPEC_CLOSE, Ghost(done));
    proof { done = done.push(SPEC_CLOSE@); }
    assert(done =~= header_lines(m));
    let ghost hl = done;

    emit(&mut out, "from auracle.backtest import Strategy", Ghost(done));
    proof { done = done.push("from auracle.backtest import Strategy"@); }
    emit(&mut out, "from auracle.master.universe import resolve_universe", Ghost(done));
    proof { done = done.push("from auracle.master.universe import resolve_universe"@); }
    emit(&mut out, "", Ghost(done));
    proof { done = done.push(""@); }
    emit(&mut out, "", Ghost(done));
    proof { done = done.push(""@); }
    let cn = class_name(spec);
    let l = cat3("class ", cn.as_str(), "(Strategy):");
    emit(&mut out, l.as_str(), Ghost(done));
    proof { done = done.push(l@); }
    let ghost b5 = done;
    let ghost five = seq![
        "from auracle.backtest import Strategy"@,
        "from auracle.master.universe import resolve_universe"@,
        Seq::<char>::empty(),
        Seq::<char>::empty(),
        "class "@ + class_name_model(m.name) + "(Strategy):"@,
    ];
    assert(b5 =~= hl + five);

    let mut i: usize = 0;
    assert(b5 + amap.take(0) =~= b5);
    while i < spec.params.len()
        invariant
            i <= spec.params@.len() == amap.len(),
            m == spec@,
            amap == m.params.map_values(|p: (Seq<char>, Seq<char>)| param_attr_line(p)),
            done == b5 + amap.take(i as int),
            out@ == terminated(done),
        decreases spec.params@.len() - i,
    {
        let l = cat4("    ", spec.params[i].0.as_str(), " = ", spec.params[i].1.as_str());
        emit(&mut out, l.as_str(), Ghost(done));
        proof {
            assert(m.params[i as int] == (spec.params@[i as int].0@, spec.params@[i as int].1@));
            assert(l@ == amap[i as int]);
            assert(done.push(l@) =~= b5 + amap.take(i + 1));
            done = done.push(l@);
        }
        i = i + 1;
    }
    assert(amap.take(i as int) =~= amap);
    let ghost ba = done;

    let l = cat3("    universe = resolve_universe(\"", spec.universe.as_str(), "\")");
    emit(&mut out, l.as_str(), Ghost(done));
    proof { done = done.push(l@); }
    emit(&mut out, "", Ghost(done));
    proof { done = done.push(""@); }
    emit(&mut out, "    def prices_to_signals(self, prices):", Ghost(done));
    proof { done = done.push("    def prices_to_signals(self, prices):"@); }
    let ghost b3 = done;
    let ghost three = seq![
        "    universe = resolve_universe(\""@ + m.universe + "\")"@,
        Seq::<char>::empty(),
        "    def prices_to_signals(self, prices):"@,
    ];
    assert(b3 =~= ba + three);
    let ghost sig = match first_value(m.sections, "signal"@) {
        Some(v) => seq!["        # signal: "@ + v],
        None => Seq::<Seq<char>>::empty(),
    };
    let ghost raise = seq!["        raise NotImplementedError(\"Fill prices_to_signals, or ask the assistant.\")"@];
    assert(body_lines(m) == five + amap + three + sig + raise);
    match signal_value(&spec.sections) {
        Some(v) => {
            let l = cat2("        # signal: ", v.as_str());
            emit(&mut out, l.as_str(), Ghost(done));
            proof { done = done.push(l@); }
        },
        None => {},
    }
    emit(&mut out, "        raise NotImplementedError(\"Fill prices_to_signals, or ask the assistant.\")", Ghost(done));
    proof {
        done = done.push("        raise NotImplementedError(\"Fill prices_to_signals, or ask the assistant.\")"@);
        assert(done =~= b3 + sig + raise);
        assert(done =~= hl + (five + amap + three + sig + raise));
    }
    out
}


// ── Ejected tail and recompiling ───────────────────────────────────────

/// Whether an eject marker starts a line at `i`.
pub open spec fn marker_line_at(s: Seq<char>, i: int) -> bool {
    strs::occurs_at(s, "# %%eject"@, i) && (i == 0 || s[i - 1] == '\n')
}

/// The first index at or after `i` where an eject marker starts a line.
pub open spec fn first_marker_from(s: Seq<char>, i: int) -> Option<int>
    decreases s.len() - i,
{
    if i < 0 || i >= s.len() {
        None
    } else if marker_line_at(s, i) {
        Some(i)
    } else {
        first_marker_from(s, i + 1)
    }
}

/// Everything after the first eject marker line (the rest of the marker line
/// and its newline skipped); `None` without a marker line.
pub open spec fn ejected_tail_model(s: Seq<char>) -> Option<Seq<char>> {
    match first_marker_from(s, 0) {
        Some(i) => {
            let after = s.skip(i + "# %%eject"@.len());
            Some(
                match find_char(after, '\n') {
                    Some(j) => after.skip(j + 1),
                    None => Seq::<char>::empty(),
                },
            )
        },
        None => None,
    }
}

/// The recompiled file: the rendered spec, then, when `existing` has an
/// ejected tail, a marker line and that tail verbatim.
pub open spec fn recompile_model(existing: Seq<char>, m: SpecModel) -> Seq<char> {
    let out = render_model(m);
    match ejected_tail_model(existing) {
        Some(tail) => {
            let base = if out.len() > 0 && out.last() == '\n' { out } else { out.push('\n') };
            base + "# %%eject"@ + seq!['\n'] + tail
        },
        None => out,
    }
}

/// Index of the first eject marker line in `v`.
fn first_marker_exec(v: &Vec<char>, mk: &Vec<char>) -> (r: Option<usize>)
    requires
        mk@ == "# %%eject"@,
    ensures
        match r {
            Some(i) => first_marker_from(v@, 0) == Some(i as int) && strs::occurs_at(v@, mk@, i as int),
            None => first_marker_from(v@, 0) is None,
        },
{
    let mut i: usize = 0;
    while i < v.len()
        invariant
            i <= v@.len(),
            mk@ == "# %%eject"@,
            first_marker_from(v@, 0) == first_marker_from(v@, i as int),
        decreases v@.len() - i,
    {
        if strs::occurs_at_exec(v, mk, i) && (i == 0 || v[i - 1] == '\n') {
            return Some(i);
        }
        i = i + 1;
    }
    None
}

/// The hand-owned region of a one-file strategy: everything after the first
/// `# %%eject` marker line, verbatim. `None` if the file has no eject marker.
pub fn ejected_tail(source: &str) -> (r: Option<&str>)
    ensures
        strs::opt_str_view(r) == ejected_tail_model(source@),
{
    let v = strs::chars_of(source);
    let mk = strs::chars_of(EJECT_MARKER);
    match first_marker_exec(&v, &mk) {
        Some(i) => {
            let n = v.len();
            let after = i + mk.len();
            let rest = strs::sub_chars(&v, after, n);
            assert(rest@ =~= v@.skip(after as int));
            let start = match find_char_exec(&rest, '\n') {
                Some(j) => after + j + 1,
                None => n,
            };
            let tail = source.substring_char(start, n);
            proof {
                let after_s = v@.skip(after as int);
                match find_char(after_s, '\n') {
                    Some(j) => {
                        assert(after_s.skip(j + 1) =~= v@.subrange(start as int, n as int));
                    },
                    None => {
                        assert(v@.subrange(n as int, n as int) =~= Seq::<char>::empty());
                    },
                }
            }
            Some(tail)
        },
        None => None,
    }
}

/// Compile `spec` into a full file, **preserving** any user-owned tail from
/// `existing` (everything after the first `# %%eject` marker line). The
/// generated region is replaced; the ejected region is never touched.
pub fn recompile(existing: &str, spec: &Spec) -> (out: String)
    ensures
        out@ == recompile_model(existing@, spec@),
{
    let mut out = render(spec);
    match ejected_tail(existing) {
        Some(tail) => {
            let v = strs::chars_of(out.as_str());
            if !(v.len() > 0 && v[v.len() - 1] == '\n') {
                strs::push_char(&mut out, '\n');
            }
            strs::append_str(&mut out, EJECT_MARKER);
            strs::push_char(&mut out, '\n');
            strs::append_str(&mut out, tail);
        },
        None => {},
    }
    out
}


// ── Laws ───────────────────────────────────────────────────────────────

/// No `\n` in `s`.
pub open spec fn no_newline(s: Seq<char>) -> bool {
    forall|i: int| 0 <= i < s.len() ==> s[i] != '\n'
}

/// No `:` in `s`.
pub open spec fn no_colon(s: Seq<char>) -> bool {
    forall|i: int| 0 <= i < s.len() ==> s[i] != ':'
}

/// `s` is empty or starts and ends with a non-whitespace character, so
/// trimming keeps it whole.
pub open spec fn edge_trimmed(s: Seq<char>) -> bool {
    s.len() == 0 || (!strs::is_space(s[0]) && !strs::is_space(s.last()))
}

/// A value that one header line carries back unchanged.
pub open spec fn field_ok(s: Seq<char>) -> bool {
    no_newline(s) && edge_trimmed(s)
}

/// A parameter whose header line reads back as itself.
pub open spec fn param_ok(p: (Seq<char>, Seq<char>)) -> bool {
    &&& no_newline(p.0)
    &&& no_colon(p.0)
    &&& (p.0.len() == 0 || !strs::is_space(p.0.last()))
    &&& field_ok(p.1)
}

/// A section whose header line reads back as the same section.
pub open spec fn section_ok(p: (Seq<char>, Seq<char>)) -> bool {
    &&& field_ok(p.0)
    &&& no_colon(p.0)
    &&& p.0 != "name"@
    &&& p.0 != "universe"@
    &&& !strs::has_prefix(p.0, "param."@)
    &&& field_ok(p.1)
}

/// A spec its header block writes back unchanged: fields without line
/// breaks or surrounding whitespace, keys without `:`, and sections that
/// cannot be mistaken for the name, the universe or a parameter.
pub open spec fn canonical(m: SpecModel) -> bool {
    &&& field_ok(m.name)
    &&& field_ok(m.universe)
    &&& forall|i: int| 0 <= i < m.params.len() ==> param_ok(#[trigger] m.params[i])
    &&& forall|i: int| 0 <= i < m.sections.len() ==> section_ok(#[trigger] m.sections[i])
}

proof fn lemma_terminated_concat(a: Seq<Seq<char>>, b: Seq<Seq<char>>)
    ensures
        terminated(a + b) == terminated(a) + terminated(b),
    decreases b.len(),
{
    if b.len() == 0 {
        assert(a + b =~= a);
        assert(terminated(a) + terminated(b) =~= terminated(a));
    } else {
        let b1 = b.drop_last();
        assert((a + b).drop_last() =~= a + b1);
        assert((a + b).last() == b.last());
        lemma_terminated_concat(a, b1);
        assert(terminated(a + b) =~= terminated(a) + terminated(b));
    }
}

/// Lines free of line breaks, each terminated, read back as themselves.
proof fn lemma_lines_terminated(a: Seq<Seq<char>>, rest: Seq<char>)
    requires
        forall|i: int| 0 <= i < a.len() ==> no_newline(#[trigger] a[i]),
        forall|i: int| 0 <= i < a.len() ==> (#[trigger] a[i]).len() == 0 || a[i].last() != '\r',
    ensures
        strs::lines(terminated(a) + rest) == a + strs::lines(rest),
    decreases a.len(),
{
    if a.len() == 0 {
        assert(terminated(a) + rest =~= rest);
        assert(a + strs::lines(rest) =~= strs::lines(rest));
    } else {
        let x = a[0];
        let a1 = a.drop_first();
        assert(seq![x] + a1 =~= a);
        lemma_terminated_concat(seq![x], a1);
        assert(seq![x].drop_last() =~= Seq::<Seq<char>>::empty());
        assert(terminated(Seq::<Seq<char>>::empty()) =~= Seq::<char>::empty());
        assert(seq![x].last() == x);
        assert(terminated(seq![x]) =~= x + seq!['\n']);
        assert(terminated(a) + rest =~= x + seq!['\n'] + (terminated(a1) + rest));
        assert(no_newline(a[0]));
        strs::lemma_lines_cons(x, terminated(a1) + rest);
        assert forall|i: int| 0 <= i < a1.len() implies no_newline(#[trigger] a1[i]) by {
            assert(a1[i] == a[i + 1]);
        }
        assert forall|i: int| 0 <= i < a1.len() implies (#[trigger] a1[i]).len() == 0 || a1[i].last() != '\r' by {
            assert(a1[i] == a[i + 1]);
        }
        lemma_lines_terminated(a1, rest);
        assert(seq![x] + (a1 + strs::lines(rest)) =~= a + strs::lines(rest));
    }
}

/// The header line `# key: value`.
pub open spec fn entry_line(key: Seq<char>, value: Seq<char>) -> Seq<char> {
    "# "@ + key + ": "@ + value
}

/// Where the trimmed `entry_line` ends: after the value, or after the `:`
/// when the value is empty.
spec fn entry_end(key: Seq<char>, value: Seq<char>) -> int {
    if value.len() > 0 { 4 + key.len() as int + value.len() as int } else { 3 + key.len() as int }
}

proof fn lemma_entry_shape(key: Seq<char>, value: Seq<char>)
    ensures
        entry_line(key, value).len() == 4 + key.len() + value.len(),
        entry_line(key, value)[0] == '#',
        entry_line(key, value)[1] == ' ',
        entry_line(key, value)[key.len() as int + 2] == ':',
        entry_line(key, value)[key.len() as int + 3] == ' ',
        forall|j: int| 0 <= j < key.len() ==> entry_line(key, value)[j + 2] == #[trigger] key[j],
        forall|j: int| 0 <= j < value.len() ==> entry_line(key, value)[key.len() as int + 4 + j] == #[trigger] value[j],
{
    reveal_strlit("# ");
    reveal_strlit(": ");
}

proof fn lemma_entry_trim(key: Seq<char>, value: Seq<char>)
    requires
        edge_trimmed(value),
    ensures
        strs::trim(entry_line(key, value)) == entry_line(key, value).subrange(0, entry_end(key, value)),
{
    lemma_entry_shape(key, value);
    let l = entry_line(key, value);
    let n = l.len() as int;
    let hi = entry_end(key, value);
    if value.len() > 0 {
        assert(l[n - 1] == value[value.len() - 1]);
        assert(hi == n);
    } else {
        assert(hi == n - 1);
    }
    strs::lemma_trim_exact(l, 0, hi);
}

proof fn lemma_entry_body(key: Seq<char>, value: Seq<char>)
    requires
        edge_trimmed(key),
        edge_trimmed(value),
    ensures
        strs::trim(strs::trim(entry_line(key, value)).drop_first())
            == entry_line(key, value).subrange(2, entry_end(key, value)),
{
    lemma_entry_shape(key, value);
    lemma_entry_trim(key, value);
    let l = entry_line(key, value);
    let kl = key.len() as int;
    let hi = entry_end(key, value);
    let t = l.subrange(0, hi);
    let body0 = t.drop_first();
    assert(body0 =~= l.subrange(1, hi));
    if kl > 0 {
        assert(body0[1] == key[0]);
    } else {
        assert(body0[1] == ':');
    }
    if value.len() > 0 {
        assert(body0[hi - 2] == value[value.len() - 1]);
    } else {
        assert(body0[hi - 2] == ':');
    }
    strs::lemma_trim_exact(body0, 1, hi - 1);
    assert(body0.subrange(1, hi - 1) =~= l.subrange(2, hi));
}

/// A `# key: value` line reads back as `(key, value)`.
proof fn lemma_entry_reads(key: Seq<char>, value: Seq<char>)
    requires
        no_colon(key),
        edge_trimmed(key),
        edge_trimmed(value),
    ensures
        header_entry(strs::trim(entry_line(key, value))) == Some((key, value)),
{
    lemma_entry_shape(key, value);
    lemma_entry_trim(key, value);
    lemma_entry_body(key, value);
    let l = entry_line(key, value);
    let kl = key.len() as int;
    let hi = entry_end(key, value);
    let t = strs::trim(l);
    assert(t[0] == '#');
    let b = l.subrange(2, hi);
    assert forall|j: int| 0 <= j < kl implies b[j] != ':' by {
        assert(b[j] == key[j]);
    }
    assert(b[kl] == ':');
    lemma_find_char(b, ':', kl);
    assert(b.take(kl) =~= key);
    strs::lemma_trim_exact(key, 0, kl);
    assert(key.subrange(0, kl) =~= key);
    let vpart = b.skip(kl + 1);
    if value.len() > 0 {
        assert(vpart =~= seq![' '] + value);
        assert(vpart[vpart.len() - 1] == value[value.len() - 1]);
        strs::lemma_trim_exact(vpart, 1, vpart.len() as int);
        assert(vpart.subrange(1, vpart.len() as int) =~= value);
    } else {
        assert(vpart.len() == 0);
        strs::lemma_trim_exact(vpart, 0, 0);
        assert(vpart.subrange(0, 0) =~= value);
    }
}

/// A `# key: value` line is no closing marker.
proof fn lemma_entry_not_end(key: Seq<char>, value: Seq<char>)
    requires
        edge_trimmed(value),
    ensures
        strs::trim(entry_line(key, value)) != "# %%end"@,
{
    lemma_entry_shape(key, value);
    lemma_entry_trim(key, value);
    let kl = key.len() as int;
    let t = strs::trim(entry_line(key, value));
    assert(t[kl + 2] == ':');
    let e = "# %%end"@;
    reveal_strlit("# %%end");
    assert(e.len() == 7);
    assert(e[2] == '%' && e[3] == '%' && e[4] == 'e' && e[5] == 'n' && e[6] == 'd');
    if t == e {
        assert(kl + 2 < 7);
        assert(e[kl + 2] == ':');
    }
}

/// A `# key: value` line has no line break when its parts have none, and
/// does not end in `\r`.
proof fn lemma_entry_plain(key: Seq<char>, value: Seq<char>)
    requires
        edge_trimmed(value),
        no_newline(key),
        no_newline(value),
    ensures
        no_newline(entry_line(key, value)),
        entry_line(key, value).last() != '\r',
{
    lemma_entry_shape(key, value);
    let l = entry_line(key, value);
    let kl = key.len() as int;
    let n = l.len() as int;
    if value.len() > 0 {
        assert(l[n - 1] == value[value.len() - 1]);
    }
    assert forall|j: int| 0 <= j < n implies l[j] != '\n' by {
        if 2 <= j < kl + 2 {
            assert(l[j] == key[j - 2]);
        } else if kl + 4 <= j {
            assert(l[j] == value[j - kl - 4]);
        }
    }
}

proof fn lemma_fold_cons(x: Seq<char>, rest: Seq<Seq<char>>, acc: SpecModel)
    requires
        strs::trim(x) != "# %%end"@,
    ensures
        fold_header(seq![x] + rest, acc) == fold_header(rest, apply_line(acc, x)),
{
    let ls = seq![x] + rest;
    assert(ls[0] == x);
    assert(ls.drop_first() =~= rest);
}

/// The parameter key as its header line spells it.
spec fn param_key(k: Seq<char>) -> Seq<char> {
    "param."@ + k
}

proof fn lemma_param_line(p: (Seq<char>, Seq<char>))
    requires
        param_ok(p),
    ensures
        param_header_line(p) == entry_line(param_key(p.0), p.1),
        no_colon(param_key(p.0)),
        edge_trimmed(param_key(p.0)),
        no_newline(param_key(p.0)),
        param_key(p.0) != "name"@,
        param_key(p.0) != "universe"@,
        strs::has_prefix(param_key(p.0), "param."@),
        param_key(p.0).skip("param."@.len() as int) == p.0,
{
    reveal_strlit("# param.");
    reveal_strlit("# ");
    reveal_strlit(": ");
    reveal_strlit("param.");
    reveal_strlit("name");
    reveal_strlit("universe");
    let k = p.0;
    let key = param_key(k);
    assert(param_header_line(p) =~= entry_line(key, p.1));
    assert(key.len() == 6 + k.len());
    assert(key[0] == 'p');
    assert forall|j: int| 0 <= j < key.len() implies key[j] != ':' && key[j] != '\n' by {
        if j >= 6 {
            assert(key[j] == k[j - 6]);
        }
    }
    if k.len() > 0 {
        assert(key.last() == k.last());
    } else {
        assert(key.last() == '.');
    }
    assert(key.subrange(0, 6) =~= "param."@);
    assert(key.skip(6) =~= k);
    if key == "universe"@ {
        assert("universe"@[0] == 'u');
    }
}

proof fn lemma_fold_params(ps: Seq<(Seq<char>, Seq<char>)>, rest: Seq<Seq<char>>, acc: SpecModel)
    requires
        forall|i: int| 0 <= i < ps.len() ==> param_ok(#[trigger] ps[i]),
    ensures
        fold_header(ps.map_values(|p: (Seq<char>, Seq<char>)| param_header_line(p)) + rest, acc)
            == fold_header(rest, SpecModel { params: acc.params + ps, ..acc }),
    decreases ps.len(),
{
    let f = |p: (Seq<char>, Seq<char>)| param_header_line(p);
    if ps.len() == 0 {
        assert(ps.map_values(f) + rest =~= rest);
        assert(acc.params + ps =~= acc.params);
    } else {
        let p = ps[0];
        let ps1 = ps.drop_first();
        assert(param_ok(ps[0]));
        lemma_param_line(p);
        lemma_entry_reads(param_key(p.0), p.1);
        lemma_entry_not_end(param_key(p.0), p.1);
        assert(ps.map_values(f) + rest =~= seq![param_header_line(p)] + (ps1.map_values(f) + rest));
        lemma_fold_cons(param_header_line(p), ps1.map_values(f) + rest, acc);
        let acc1 = SpecModel { params: acc.params.push(p), ..acc };
        assert(apply_line(acc, param_header_line(p)) == acc1);
        assert forall|i: int| 0 <= i < ps1.len() implies param_ok(#[trigger] ps1[i]) by {
            assert(ps1[i] == ps[i + 1]);
        }
        lemma_fold_params(ps1, rest, acc1);
        assert(acc1.params + ps1 =~= acc.params + ps);
    }
}

proof fn lemma_fold_sections(ss: Seq<(Seq<char>, Seq<char>)>, rest: Seq<Seq<char>>, acc: SpecModel)
    requires
        forall|i: int| 0 <= i < ss.len() ==> section_ok(#[trigger] ss[i]),
    ensures
        fold_header(ss.map_values(|p: (Seq<char>, Seq<char>)| section_header_line(p)) + rest, acc)
            == fold_header(rest, SpecModel { sections: acc.sections + ss, ..acc }),
    decreases ss.len(),
{
    let f = |p: (Seq<char>, Seq<char>)| section_header_line(p);
    if ss.len() == 0 {
        assert(ss.map_values(f) + rest =~= rest);
        assert(acc.sections + ss =~= acc.sections);
    } else {
        let p = ss[0];
        let ss1 = ss.drop_first();
        assert(section_ok(ss[0]));
        assert(section_header_line(p) == entry_line(p.0, p.1));
        lemma_entry_reads(p.0, p.1);
        lemma_entry_not_end(p.0, p.1);
        assert(ss.map_values(f) + rest =~= seq![section_header_line(p)] + (ss1.map_values(f) + rest));
        lemma_fold_cons(section_header_line(p), ss1.map_values(f) + rest, acc);
        let acc1 = SpecModel { sections: acc.sections.push(p), ..acc };
        assert(apply_line(acc, section_header_line(p)) == acc1);
        assert forall|i: int| 0 <= i < ss1.len() implies section_ok(#[trigger] ss1[i]) by {
            assert(ss1[i] == ss[i + 1]);
        }
        lemma_fold_sections(ss1, rest, acc1);
        assert(acc1.sections + ss1 =~= acc.sections + ss);
    }
}

/// The fixed lines of the header block as `# key: value` lines.
proof fn lemma_fixed_lines(m: SpecModel)
    ensures
        "# name: "@ + m.name == entry_line("name"@, m.name),
        "# universe: "@ + m.universe == entry_line("universe"@, m.universe),
        no_colon("name"@) && edge_trimmed("name"@) && no_newline("name"@),
        no_colon("universe"@) && edge_trimmed("universe"@) && no_newline("universe"@),
        "universe"@ != "name"@,
        !strs::has_prefix("name"@, "param."@),
        !strs::has_prefix("universe"@, "param."@),
        strs::trim("# %%spec"@) == "# %%spec"@,
        strs::trim("# %%end"@) == "# %%end"@,
        no_newline("# %%spec"@) && "# %%spec"@.last() != '\r',
        no_newline("# %%end"@) && "# %%end"@.last() != '\r',
{
    reveal_strlit("# name: ");
    reveal_strlit("# universe: ");
    reveal_strlit("# ");
    reveal_strlit(": ");
    reveal_strlit("name");
    reveal_strlit("universe");
    reveal_strlit("param.");
    reveal_strlit("# %%spec");
    reveal_strlit("# %%end");
    assert("# name: "@ + m.name =~= entry_line("name"@, m.name));
    assert("# universe: "@ + m.universe =~= entry_line("universe"@, m.universe));
    strs::lemma_trim_exact("# %%spec"@, 0, 8);
    assert("# %%spec"@.subrange(0, 8) =~= "# %%spec"@);
    strs::lemma_trim_exact("# %%end"@, 0, 7);
    assert("# %%end"@.subrange(0, 7) =~= "# %%end"@);
    assert("universe"@[0] != "name"@[0]);
    assert("name"@[0] != "param."@[0]);
    assert("universe"@[0] != "param."@[0]);
}

/// A canonical spec's header block, followed by anything, reads back as the
/// spec.
proof fn lemma_header_reads(m: SpecModel, rest: Seq<char>)
    requires
        canonical(m),
    ensures
        parse_model(terminated(header_lines(m)) + rest) == Some(m),
{
    let h = header_lines(m);
    let nl = "# name: "@ + m.name;
    let ul = "# universe: "@ + m.universe;
    let pmap = m.params.map_values(|p: (Seq<char>, Seq<char>)| param_header_line(p));
    let smap = m.sections.map_values(|p: (Seq<char>, Seq<char>)| section_header_line(p));
    let pl = m.params.len() as int;
    let sl = m.sections.len() as int;
    lemma_fixed_lines(m);
    lemma_entry_plain("name"@, m.name);
    lemma_entry_plain("universe"@, m.universe);
    assert(h.len() == 4 + pl + sl);
    assert forall|i: int| 0 <= i < h.len() implies no_newline(#[trigger] h[i]) && (h[i].len() == 0 || h[i].last() != '\r') by {
        if i == 0 {
            assert(h[i] == "# %%spec"@);
        } else if i == 1 {
            assert(h[i] == nl);
        } else if i == 2 {
            assert(h[i] == ul);
        } else if i < 3 + pl {
            let p = m.params[i - 3];
            assert(param_ok(m.params[i - 3]));
            assert(h[i] == param_header_line(p));
            lemma_param_line(p);
            lemma_entry_plain(param_key(p.0), p.1);
        } else if i < 3 + pl + sl {
            let p = m.sections[i - 3 - pl];
            assert(section_ok(m.sections[i - 3 - pl]));
            assert(h[i] == section_header_line(p));
            lemma_entry_plain(p.0, p.1);
        } else {
            assert(h[i] == "# %%end"@);
        }
    }
    lemma_lines_terminated(h, rest);
    let ls = h + strs::lines(rest);
    assert(strs::lines(terminated(h) + rest) == ls);
    assert(ls[0] == "# %%spec"@);
    assert(first_line_is(ls, "# %%spec"@) == Some(0int));
    let tail = smap + seq!["# %%end"@] + strs::lines(rest);
    assert(ls.skip(1) =~= seq![nl] + (seq![ul] + (pmap + tail)));
    lemma_entry_reads("name"@, m.name);
    lemma_entry_not_end("name"@, m.name);
    lemma_entry_reads("universe"@, m.universe);
    lemma_entry_not_end("universe"@, m.universe);
    let acc1 = SpecModel { name: m.name, ..empty_model() };
    lemma_fold_cons(nl, seq![ul] + (pmap + tail), empty_model());
    assert(apply_line(empty_model(), nl) == acc1);
    let acc2 = SpecModel { universe: m.universe, ..acc1 };
    lemma_fold_cons(ul, pmap + tail, acc1);
    assert(apply_line(acc1, ul) == acc2);
    lemma_fold_params(m.params, tail, acc2);
    let acc3 = SpecModel { params: acc2.params + m.params, ..acc2 };
    assert(acc2.params + m.params =~= m.params);
    assert(smap + seq!["# %%end"@] + strs::lines(rest) =~= smap + (seq!["# %%end"@] + strs::lines(rest)));
    lemma_fold_sections(m.sections, seq!["# %%end"@] + strs::lines(rest), acc3);
    let acc4 = SpecModel { sections: acc3.sections + m.sections, ..acc3 };
    assert(acc3.sections + m.sections =~= m.sections);
    let fin = seq!["# %%end"@] + strs::lines(rest);
    assert(fin[0] == "# %%end"@);
    assert(fold_header(fin, acc4) == Some(acc4));
    assert(acc4 == m);
}

/// Rendered output ends with a newline.
proof fn lemma_render_ends_newline(m: SpecModel)
    ensures
        render_model(m).len() > 0,
        render_model(m).last() == '\n',
{
    let ls = header_lines(m) + body_lines(m);
    assert(ls.len() > 0);
}

/// Reading back what `render` wrote gives the spec again, for every spec
/// whose fields the header block can carry unchanged.
pub proof fn lemma_render_round_trip(m: SpecModel)
    requires
        canonical(m),
    ensures
        parse_model(render_model(m)) == Some(m),
{
    lemma_terminated_concat(header_lines(m), body_lines(m));
    lemma_header_reads(m, terminated(body_lines(m)));
}

/// A recompiled file carries the new spec in its header.
pub proof fn lemma_recompile_reads_spec(existing: Seq<char>, m: SpecModel)
    requires
        canonical(m),
    ensures
        parse_model(recompile_model(existing, m)) == Some(m),
{
    let out = render_model(m);
    lemma_render_ends_newline(m);
    lemma_terminated_concat(header_lines(m), body_lines(m));
    let hb = terminated(header_lines(m));
    let bb = terminated(body_lines(m));
    match ejected_tail_model(existing) {
        Some(tail) => {
            let r = recompile_model(existing, m);
            assert(r =~= hb + (bb + "# %%eject"@ + seq!['\n'] + tail));
            lemma_header_reads(m, bb + "# %%eject"@ + seq!['\n'] + tail);
        },
        None => {
            lemma_header_reads(m, bb);
        },
    }
}

proof fn lemma_no_marker(s: Seq<char>, i: int, j: int)
    requires
        0 <= i <= j < s.len(),
        first_marker_from(s, i) is None,
    ensures
        !marker_line_at(s, j),
    decreases j - i,
{
    if i < j {
        lemma_no_marker(s, i + 1, j);
    }
}

proof fn lemma_first_marker_at(s: Seq<char>, i: int, k: int)
    requires
        0 <= i <= k < s.len(),
        forall|j: int| i <= j < k ==> !marker_line_at(s, j),
        marker_line_at(s, k),
    ensures
        first_marker_from(s, i) == Some(k),
    decreases k - i,
{
    if i < k {
        lemma_first_marker_at(s, i + 1, k);
    }
}

/// Recompiling never touches the ejected region: the tail read from the
/// recompiled file is the tail of the existing file, whenever the generated
/// region itself holds no marker line.
pub proof fn lemma_recompile_keeps_tail(existing: Seq<char>, m: SpecModel)
    requires
        ejected_tail_model(render_model(m)) is None,
    ensures
        ejected_tail_model(recompile_model(existing, m)) == ejected_tail_model(existing),
{
    let out = render_model(m);
    lemma_render_ends_newline(m);
    match ejected_tail_model(existing) {
        Some(tail) => {
            let mk = "# %%eject"@;
            reveal_strlit("# %%eject");
            assert(mk.len() == 9);
            assert forall|k: int| 0 <= k < 9 implies mk[k] != '\n' by {
                if k == 0 {} else if k == 1 {} else if k == 2 {} else if k == 3 {} else if k == 4 {}
                else if k == 5 {} else if k == 6 {} else if k == 7 {} else {}
            }
            let r = out + mk + seq!['\n'] + tail;
            assert(recompile_model(existing, m) == r);
            let n = out.len() as int;
            assert forall|j: int| 0 <= j < n implies !marker_line_at(r, j) by {
                lemma_no_marker(out, 0, j);
                if marker_line_at(r, j) {
                    if j + 9 <= n {
                        assert(r.subrange(j, j + 9) =~= out.subrange(j, j + 9));
                        if j > 0 {
                            assert(r[j - 1] == out[j - 1]);
                        }
                        assert(marker_line_at(out, j));
                    } else {
                        assert(r[n - 1] == '\n');
                        assert(r.subrange(j, j + 9)[n - 1 - j] == r[n - 1]);
                        assert(mk[n - 1 - j] != '\n');
                    }
                }
            }
            assert(r.subrange(n, n + 9) =~= mk);
            assert(r[n - 1] == '\n');
            assert(marker_line_at(r, n));
            lemma_first_marker_at(r, 0, n);
            let after = r.skip(n + 9);
            assert(after =~= seq!['\n'] + tail);
            lemma_find_char(after, '\n', 0);
            assert(after.skip(1) =~= tail);
        },
        None => {},
    }
}

/// The generated class name is always a Python identifier.
pub proof fn lemma_class_name_is_identifier(name: Seq<char>)
    ensures
        is_identifier(class_name_model(name)),
{
    reveal_strlit("GeneratedStrategy");
    let g = "GeneratedStrategy"@;
    assert forall|i: int| 0 <= i < g.len() implies ident_char(#[trigger] g[i]) by {
        if i == 0 {} else if i == 1 {} else if i == 2 {} else if i == 3 {} else if i == 4 {}
        else if i == 5 {} else if i == 6 {} else if i == 7 {} else if i == 8 {} else if i == 9 {}
        else if i == 10 {} else if i == 11 {} else if i == 12 {} else if i == 13 {} else if i == 14 {}
        else if i == 15 {} else {}
    }
}

} // verus!
