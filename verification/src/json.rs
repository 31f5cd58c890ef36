//! A plain JSON document model for the engine payloads the reducers read.
//! Numbers keep the text the engine sent; an object keeps its entries in
//! order, and a lookup finds the last entry with the key (later duplicates
//! replace earlier ones, as when a JSON object is parsed into a map).

use vstd::prelude::*;

verus! {

/// A JSON value.
#[derive(Debug, PartialEq)]
pub enum JsonValue {
    Null,
    Bool(bool),
    /// A number, as the text the engine sent.
    Number(String),
    Str(String),
    Array(Vec<JsonValue>),
    Object(Vec<(String, JsonValue)>),
}

/// The value of the last entry named `key`, if any.
pub open spec fn entry_of(entries: Seq<(String, JsonValue)>, key: Seq<char>) -> Option<JsonValue>
    decreases entries.len(),
{
    if entries.len() == 0 {
        None
    } else if entries.last().0@ == key {
        Some(entries.last().1)
    } else {
        entry_of(entries.drop_last(), key)
    }
}

/// `value[key]` for an object; `None` for anything else or a missing key.
pub open spec fn field(value: JsonValue, key: Seq<char>) -> Option<JsonValue> {
    match value {
        JsonValue::Object(entries) => entry_of(entries@, key),
        _ => None,
    }
}

/// The boolean held by a value, if it is one.
pub open spec fn bool_of(value: Option<JsonValue>) -> Option<bool> {
    match value {
        Some(JsonValue::Bool(b)) => Some(b),
        _ => None,
    }
}

/// The string held by a value, if it is one.
pub open spec fn str_of(value: Option<JsonValue>) -> Option<Seq<char>> {
    match value {
        Some(JsonValue::Str(s)) => Some(s@),
        _ => None,
    }
}

/// The items of a value, if it is an array.
pub open spec fn items_of(value: Option<JsonValue>) -> Option<Seq<JsonValue>> {
    match value {
        Some(JsonValue::Array(items)) => Some(items@),
        _ => None,
    }
}


/// Whether every character of `s` is an ASCII digit.
pub open spec fn all_digits(s: Seq<char>) -> bool {
    forall|i: int| 0 <= i < s.len() ==> '0' <= #[trigger] s[i] <= '9'
}

/// The value of a string of decimal digits.
pub open spec fn digits_value(s: Seq<char>) -> int
    decreases s.len(),
{
    if s.len() == 0 {
        0
    } else {
        digits_value(s.drop_last()) * 10 + (s.last() as int - '0' as int)
    }
}

/// The integer a number's text spells: an optional `-`, then one or more
/// decimal digits.
pub open spec fn integer_of(t: Seq<char>) -> Option<int> {
    if t.len() > 0 && t[0] == '-' {
        let d = t.drop_first();
        if d.len() > 0 && all_digits(d) { Some(-digits_value(d)) } else { None }
    } else if t.len() > 0 && all_digits(t) {
        Some(digits_value(t))
    } else {
        None
    }
}

/// The `i64` a value holds: a number whose text spells an integer in range.
pub open spec fn i64_of(value: Option<JsonValue>) -> Option<int> {
    match value {
        Some(JsonValue::Number(t)) => match integer_of(t@) {
            Some(v) => if i64::MIN <= v <= i64::MAX { Some(v) } else { None },
            None => None,
        },
        _ => None,
    }
}

proof fn lemma_digits_monotone(s: Seq<char>, i: int, j: int)
    requires
        0 <= i <= j <= s.len(),
        all_digits(s),
    ensures
        0 <= digits_value(s.take(i)) <= digits_value(s.take(j)),
    decreases j,
{
    if j == 0 {
        assert(s.take(0).len() == 0);
    } else {
        assert(s.take(j).drop_last() =~= s.take(j - 1));
        assert(s.take(j).last() == s[j - 1]);
        assert('0' <= s[j - 1] <= '9');
        if i < j {
            lemma_digits_monotone(s, i, j - 1);
        } else {
            lemma_digits_monotone(s, j - 1, j - 1);
        }
    }
}

/// The value of the digits `v[from..]`, when all are digits and the value is
/// at most `bound`.
fn digits_up_to(v: &Vec<char>, from: usize, bound: u128) -> (r: Option<u128>)
    requires
        from <= v@.len(),
        bound <= 0x1_0000_0000_0000_0000,
    ensures
        match r {
            Some(n) => all_digits(v@.skip(from as int)) && n == digits_value(v@.skip(from as int)) && n <= bound,
            None => !all_digits(v@.skip(from as int)) || digits_value(v@.skip(from as int)) > bound,
        },
{
    let ghost d = v@.skip(from as int);
    let mut acc: u128 = 0;
    let mut i = from;
    while i < v.len()
        invariant
            from <= i <= v@.len(),
            bound <= 0x1_0000_0000_0000_0000,
            d == v@.skip(from as int),
            all_digits(d.take(i - from)),
            acc == digits_value(d.take(i - from)),
            acc <= bound,
        decreases v@.len() - i,
    {
        let c = v[i];
        assert(d[i - from] == c);
        if !('0' <= c && c <= '9') {
            assert(!all_digits(d));
            return None;
        }
        let digit = (c as u32 - '0' as u32) as u128;
        let next = acc * 10 + digit;
        proof {
            let k = i - from;
            assert(d.take(k + 1).drop_last() =~= d.take(k));
            assert(d.take(k + 1).last() == c);
            assert forall|j: int| 0 <= j < k + 1 implies '0' <= #[trigger] d.take(k + 1)[j] <= '9' by {
                if j < k {
                    assert(d.take(k + 1)[j] == d.take(k)[j]);
                }
            }
        }
        if next > bound {
            proof {
                let k = i - from;
                if all_digits(d) {
                    lemma_digits_monotone(d, k + 1, d.len() as int);
                    assert(d.take(d.len() as int) =~= d);
                }
            }
            return None;
        }
        acc = next;
        i = i + 1;
    }
    assert(d.take(i - from) =~= d);
    Some(acc)
}

impl JsonValue {
    /// `value.get(key)`: the entry named `key` of an object.
    pub fn get(&self, key: &str) -> (r: Option<&JsonValue>)
        ensures
            match r {
                Some(v) => field(*self, key@) == Some(*v),
                None => field(*self, key@) is None,
            },
    {
        match self {
            JsonValue::Object(entries) => {
                let mut i = entries.len();
                assert(entries@.subrange(0, i as int) =~= entries@);
                while i > 0
                    invariant
                        i <= entries@.len(),
                        field(*self, key@) == entry_of(entries@, key@),
                        entry_of(entries@, key@) == entry_of(entries@.subrange(0, i as int), key@),
                    decreases i,
                {
                    let ghost pre = entries@.subrange(0, i as int);
                    assert(pre.last() == entries@[i - 1]);
                    assert(pre.drop_last() =~= entries@.subrange(0, i - 1));
                    let name = entries[i - 1].0.as_str();
                    if crate::strs::eq_str(name, key) {
                        return Some(&entries[i - 1].1);
                    }
                    i = i - 1;
                }
                None
            },
            _ => None,
        }
    }

    /// `value.as_bool()`.
    pub fn as_bool(&self) -> (r: Option<bool>)
        ensures
            r == bool_of(Some(*self)),
    {
        match self {
            JsonValue::Bool(b) => Some(*b),
            _ => None,
        }
    }

    /// `value.as_str()`.
    pub fn as_str(&self) -> (r: Option<&str>)
        ensures
            match r {
                Some(s) => str_of(Some(*self)) == Some(s@),
                None => str_of(Some(*self)) is None,
            },
    {
        match self {
            JsonValue::Str(s) => Some(s.as_str()),
            _ => None,
        }
    }

    /// `value.as_i64()`: a number whose text spells an integer within `i64`.
    pub fn as_i64(&self) -> (r: Option<i64>)
        ensures
            match r {
                Some(n) => i64_of(Some(*self)) == Some(n as int),
                None => i64_of(Some(*self)) is None,
            },
    {
        match self {
            JsonValue::Number(text) => {
                let v = crate::strs::chars_of(text.as_str());
                if v.len() > 0 && v[0] == '-' {
                    match digits_up_to(&v, 1, 9223372036854775808u128) {
                        Some(n) => {
                            if v.len() == 1 {
                                return None;
                            }
                            assert(v@.skip(1) =~= v@.drop_first());
                            if n == 9223372036854775808u128 {
                                Some(i64::MIN)
                            } else {
                                Some(-(n as i64))
                            }
                        },
                        None => {
                            assert(v@.skip(1) =~= v@.drop_first());
                            None
                        },
                    }
                } else {
                    match digits_up_to(&v, 0, 9223372036854775807u128) {
                        Some(n) => {
                            assert(v@.skip(0) =~= v@);
                            if v.len() == 0 {
                                return None;
                            }
                            Some(n as i64)
                        },
                        None => {
                            assert(v@.skip(0) =~= v@);
                            None
                        },
                    }
                }
            },
            _ => None,
        }
    }

    /// `value.as_array()`.
    pub fn as_array(&self) -> (r: Option<&Vec<JsonValue>>)
        ensures
            match r {
                Some(v) => items_of(Some(*self)) == Some(v@),
                None => items_of(Some(*self)) is None,
            },
    {
        match self {
            JsonValue::Array(items) => Some(items),
            _ => None,
        }
    }
}

} // verus!
