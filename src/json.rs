//! A JSON document model that the decision logic reads.
//!
//! Numbers keep the distinction the rules depend on: a literal written as an
//! integer stays an exact integer, any other literal is held in millionths.

use vstd::prelude::*;

verus! {

broadcast use {
    vstd::std_specs::vec::axiom_vec_index_decreases,
    vstd::std_specs::vec::axiom_vec_decreases_to_view,
};

/// A JSON number.
pub enum Num {
    /// An integer literal that fits `i64`.
    Int(i64),
    /// An integer literal above `i64::MAX`.
    UInt(u64),
    /// Any other literal, in millionths (truncated toward zero).
    Frac(i64),
}

/// A JSON value.
pub enum Json {
    Null,
    Bool(bool),
    Number(Num),
    Str(String),
    Array(Vec<Json>),
    Object(Vec<JsonEntry>),
}

/// One member of a JSON object.
pub struct JsonEntry {
    pub key: String,
    pub value: Json,
}

/// Structural equality: the same tree of values, members in the same order.
pub open spec fn same(a: Json, b: Json) -> bool
    decreases a, 0nat,
{
    match a {
        Json::Array(x) => match b {
            Json::Array(y) => same_items(x@, y@),
            _ => false,
        },
        Json::Object(x) => match b {
            Json::Object(y) => same_entries(x@, y@),
            _ => false,
        },
        _ => a == b,
    }
}

pub open spec fn same_items(x: Seq<Json>, y: Seq<Json>) -> bool
    decreases x, x.len(),
    via same_items_decreases
{
    if x.len() == 0 {
        y.len() == 0
    } else {
        y.len() > 0 && same(x.last(), y.last()) && same_items(x.drop_last(), y.drop_last())
    }
}

pub open spec fn same_entries(x: Seq<JsonEntry>, y: Seq<JsonEntry>) -> bool
    decreases x, x.len(),
    via same_entries_decreases
{
    if x.len() == 0 {
        y.len() == 0
    } else {
        y.len() > 0 && x.last().key@ == y.last().key@ && same(x.last().value, y.last().value)
            && same_entries(x.drop_last(), y.drop_last())
    }
}

#[via_fn]
proof fn same_items_decreases(x: Seq<Json>, y: Seq<Json>) {
    if x.len() > 0 {
        vstd::seq::axiom_seq_len_decreases(x, x.drop_last());
        assert(decreases_to!(x => x[x.len() - 1]));
    }
}

#[via_fn]
proof fn same_entries_decreases(x: Seq<JsonEntry>, y: Seq<JsonEntry>) {
    if x.len() > 0 {
        vstd::seq::axiom_seq_len_decreases(x, x.drop_last());
        assert(decreases_to!(x => x[x.len() - 1]));
        assert(decreases_to!(x[x.len() - 1] => x[x.len() - 1].value));
    }
}

/// The value of the first member named `key` at or after position `i`.
pub open spec fn lookup_from(es: Seq<JsonEntry>, key: Seq<char>, i: int) -> Option<Json>
    decreases es.len() - i,
{
    if i < 0 || i >= es.len() {
        None
    } else if es[i].key@ == key {
        Some(es[i].value)
    } else {
        lookup_from(es, key, i + 1)
    }
}

/// Member lookup: `None` unless the value is an object holding `key`.
pub open spec fn field(v: Json, key: Seq<char>) -> Option<Json> {
    match v {
        Json::Object(es) => lookup_from(es@, key, 0),
        _ => None,
    }
}

/// The value behind an optional reference.
pub open spec fn deref_opt(r: Option<&Json>) -> Option<Json> {
    match r {
        Some(x) => Some(*x),
        None => None,
    }
}

/// Member lookup on an optional value.
pub open spec fn opt_field(v: Option<Json>, key: Seq<char>) -> Option<Json> {
    match v {
        Some(j) => field(j, key),
        None => None,
    }
}

pub open spec fn bool_of(v: Option<Json>) -> Option<bool> {
    match v {
        Some(Json::Bool(b)) => Some(b),
        _ => None,
    }
}

pub open spec fn str_of(v: Option<Json>) -> Option<Seq<char>> {
    match v {
        Some(Json::Str(s)) => Some(s@),
        _ => None,
    }
}

pub open spec fn array_of(v: Option<Json>) -> Option<Seq<Json>> {
    match v {
        Some(Json::Array(a)) => Some(a@),
        _ => None,
    }
}

/// An integer literal that fits `i64`.
pub open spec fn i64_of(v: Option<Json>) -> Option<int> {
    match v {
        Some(Json::Number(Num::Int(n))) => Some(n as int),
        Some(Json::Number(Num::UInt(n))) => if n <= i64::MAX {
            Some(n as int)
        } else {
            None
        },
        _ => None,
    }
}

/// An integer literal that fits `u64`.
pub open spec fn u64_of(v: Option<Json>) -> Option<int> {
    match v {
        Some(Json::Number(Num::Int(n))) => if 0 <= n {
            Some(n as int)
        } else {
            None
        },
        Some(Json::Number(Num::UInt(n))) => Some(n as int),
        _ => None,
    }
}

/// Any number, in millionths.
pub open spec fn micros_of(v: Option<Json>) -> Option<int> {
    match v {
        Some(Json::Number(Num::Int(n))) => Some(n * 1_000_000),
        Some(Json::Number(Num::UInt(n))) => Some(n * 1_000_000),
        Some(Json::Number(Num::Frac(m))) => Some(m as int),
        _ => None,
    }
}

/// Whether `a` holds a string equal to `s`.
pub open spec fn has_str(a: Seq<Json>, s: Seq<char>) -> bool {
    exists|k: int| 0 <= k < a.len() && #[trigger] str_of(Some(a[k])) == Some(s)
}

/// Whether the optional array `a` holds a string equal to `s`.
pub open spec fn opt_has_str(a: Option<Seq<Json>>, s: Seq<char>) -> bool {
    match a {
        Some(items) => has_str(items, s),
        None => false,
    }
}

/// Character-wise equality of two strings.
pub fn str_eq(a: &str, b: &str) -> (r: bool)
    ensures
        r == (a@ == b@),
{
    let n = a.unicode_len();
    let m = b.unicode_len();
    if n != m {
        return false;
    }
    let mut i: usize = 0;
    while i < n
        invariant
            n == a@.len(),
            m == b@.len(),
            n == m,
            i <= n,
            a@.subrange(0, i as int) == b@.subrange(0, i as int),
        decreases n - i,
    {
        if a.get_char(i) != b.get_char(i) {
            return false;
        }
        assert(a@.subrange(0, i + 1) == a@.subrange(0, i as int).push(a@[i as int]));
        assert(b@.subrange(0, i + 1) == b@.subrange(0, i as int).push(b@[i as int]));
        i = i + 1;
    }
    assert(a@ == a@.subrange(0, n as int));
    assert(b@ == b@.subrange(0, n as int));
    true
}

impl Json {
    /// The member named `key`, if this is an object that has one.
    pub fn get(&self, key: &str) -> (r: Option<&Json>)
        ensures
            deref_opt(r) == field(*self, key@),
    {
        match self {
            Json::Object(es) => {
                let mut i: usize = 0;
                while i < es.len()
                    invariant
                        i <= es@.len(),
                        field(*self, key@) == lookup_from(es@, key@, 0),
                        lookup_from(es@, key@, 0) == lookup_from(es@, key@, i as int),
                    decreases es.len() - i,
                {
                    if str_eq(es[i].key.as_str(), key) {
                        assert(es@[i as int].key@ == key@);
                        assert(lookup_from(es@, key@, i as int) == Some(es@[i as int].value));
                        return Some(&es[i].value);
                    }
                    i = i + 1;
                }
                None
            },
            _ => None,
        }
    }

    pub fn as_bool(&self) -> (r: Option<bool>)
        ensures
            r == bool_of(Some(*self)),
    {
        match self {
            Json::Bool(b) => Some(*b),
            _ => None,
        }
    }

    pub fn as_str(&self) -> (r: Option<&str>)
        ensures
            r.is_some() == str_of(Some(*self)).is_some(),
            r.is_some() ==> r.unwrap()@ == str_of(Some(*self)).unwrap(),
    {
        match self {
            Json::Str(s) => Some(s.as_str()),
            _ => None,
        }
    }

    pub fn as_array(&self) -> (r: Option<&Vec<Json>>)
        ensures
            r.is_some() == array_of(Some(*self)).is_some(),
            r.is_some() ==> r.unwrap()@ == array_of(Some(*self)).unwrap(),
    {
        match self {
            Json::Array(a) => Some(a),
            _ => None,
        }
    }

    pub fn as_i64(&self) -> (r: Option<i64>)
        ensures
            r.is_some() == i64_of(Some(*self)).is_some(),
            r.is_some() ==> r.unwrap() as int == i64_of(Some(*self)).unwrap(),
    {
        match self {
            Json::Number(Num::Int(n)) => Some(*n),
            Json::Number(Num::UInt(n)) => if *n <= i64::MAX as u64 {
                Some(*n as i64)
            } else {
                None
            },
            _ => None,
        }
    }

    pub fn as_u64(&self) -> (r: Option<u64>)
        ensures
            r.is_some() == u64_of(Some(*self)).is_some(),
            r.is_some() ==> r.unwrap() as int == u64_of(Some(*self)).unwrap(),
    {
        match self {
            Json::Number(Num::Int(n)) => if 0 <= *n {
                Some(*n as u64)
            } else {
                None
            },
            Json::Number(Num::UInt(n)) => Some(*n),
            _ => None,
        }
    }

    /// Any number, in millionths.
    pub fn as_micros(&self) -> (r: Option<i128>)
        ensures
            r.is_some() == micros_of(Some(*self)).is_some(),
            r.is_some() ==> r.unwrap() as int == micros_of(Some(*self)).unwrap(),
    {
        match self {
            Json::Number(Num::Int(n)) => Some(*n as i128 * 1_000_000),
            Json::Number(Num::UInt(n)) => Some(*n as i128 * 1_000_000),
            Json::Number(Num::Frac(m)) => Some(*m as i128),
            _ => None,
        }
    }
}

impl Json {
    pub fn get_bool(&self, key: &str) -> (r: Option<bool>)
        ensures
            r == bool_of(field(*self, key@)),
    {
        match self.get(key) {
            Some(v) => v.as_bool(),
            None => None,
        }
    }

    pub fn get_str(&self, key: &str) -> (r: Option<&str>)
        ensures
            r.is_some() == str_of(field(*self, key@)).is_some(),
            r.is_some() ==> r.unwrap()@ == str_of(field(*self, key@)).unwrap(),
    {
        match self.get(key) {
            Some(v) => v.as_str(),
            None => None,
        }
    }

    pub fn get_array(&self, key: &str) -> (r: Option<&Vec<Json>>)
        ensures
            r.is_some() == array_of(field(*self, key@)).is_some(),
            r.is_some() ==> r.unwrap()@ == array_of(field(*self, key@)).unwrap(),
    {
        match self.get(key) {
            Some(v) => v.as_array(),
            None => None,
        }
    }

    pub fn get_i64(&self, key: &str) -> (r: Option<i64>)
        ensures
            r.is_some() == i64_of(field(*self, key@)).is_some(),
            r.is_some() ==> r.unwrap() as int == i64_of(field(*self, key@)).unwrap(),
    {
        match self.get(key) {
            Some(v) => v.as_i64(),
            None => None,
        }
    }

    pub fn get_u64(&self, key: &str) -> (r: Option<u64>)
        ensures
            r.is_some() == u64_of(field(*self, key@)).is_some(),
            r.is_some() ==> r.unwrap() as int == u64_of(field(*self, key@)).unwrap(),
    {
        match self.get(key) {
            Some(v) => v.as_u64(),
            None => None,
        }
    }

    pub fn get_micros(&self, key: &str) -> (r: Option<i128>)
        ensures
            r.is_some() == micros_of(field(*self, key@)).is_some(),
            r.is_some() ==> r.unwrap() as int == micros_of(field(*self, key@)).unwrap(),
    {
        match self.get(key) {
            Some(v) => v.as_micros(),
            None => None,
        }
    }

    /// A copy of this value.
    pub fn duplicate(&self) -> (r: Json)
        ensures
            same(r, *self),
        decreases self,
    {
        match self {
            Json::Null => Json::Null,
            Json::Bool(b) => Json::Bool(*b),
            Json::Number(Num::Int(n)) => Json::Number(Num::Int(*n)),
            Json::Number(Num::UInt(n)) => Json::Number(Num::UInt(*n)),
            Json::Number(Num::Frac(n)) => Json::Number(Num::Frac(*n)),
            Json::Str(s) => Json::Str(s.clone()),
            Json::Array(a) => {
                assert(decreases_to!(*self => *a));
                let mut out: Vec<Json> = Vec::new();
                let mut i: usize = 0;
                while i < a.len()
                    invariant
                        i <= a@.len(),
                        *self == Json::Array(*a),
                        decreases_to!(*self => *a),
                        same_items(out@, a@.subrange(0, i as int)),
                    decreases a.len() - i,
                {
                    proof {
                        assert(decreases_to!(*a => a[i as int]));
                        assert(decreases_to!(*self => a[i as int]));
                    }
                    let v = a[i].duplicate();
                    let ghost old_out = out@;
                    out.push(v);
                    proof {
                        let t = a@.subrange(0, i + 1);
                        assert(t.drop_last() == a@.subrange(0, i as int));
                        assert(out@.drop_last() == old_out);
                    }
                    i = i + 1;
                }
                assert(a@.subrange(0, a@.len() as int) == a@);
                let r = Json::Array(out);
                r
            },
            Json::Object(es) => {
                assert(decreases_to!(*self => *es));
                let mut out: Vec<JsonEntry> = Vec::new();
                let mut i: usize = 0;
                while i < es.len()
                    invariant
                        i <= es@.len(),
                        *self == Json::Object(*es),
                        decreases_to!(*self => *es),
                        same_entries(out@, es@.subrange(0, i as int)),
                    decreases es.len() - i,
                {
                    proof {
                        assert(decreases_to!(*es => es[i as int]));
                        assert(decreases_to!(es[i as int] => es[i as int].value));
                        assert(decreases_to!(*self => es[i as int].value));
                    }
                    let v = es[i].value.duplicate();
                    let ghost old_out = out@;
                    out.push(JsonEntry { key: es[i].key.clone(), value: v });
                    proof {
                        let t = es@.subrange(0, i + 1);
                        assert(t.drop_last() == es@.subrange(0, i as int));
                        assert(out@.drop_last() == old_out);
                    }
                    i = i + 1;
                }
                assert(es@.subrange(0, es@.len() as int) == es@);
                let r = Json::Object(out);
                r
            },
        }
    }

    /// `enable` set to `true`: the switch every configured rule carries.
    pub fn enabled(&self) -> (r: bool)
        ensures
            r == (bool_of(field(*self, "enable"@)) == Some(true)),
    {
        match self.get_bool("enable") {
            Some(b) => b,
            None => false,
        }
    }
}

/// Whether `a` holds a string equal to `s`.
pub fn contains_str(a: &Vec<Json>, s: &str) -> (r: bool)
    ensures
        r == has_str(a@, s@),
{
    let mut k: usize = 0;
    while k < a.len()
        invariant
            k <= a@.len(),
            forall|j: int| 0 <= j < k ==> #[trigger] str_of(Some(a@[j])) != Some(s@),
        decreases a.len() - k,
    {
        match a[k].as_str() {
            Some(t) => {
                if str_eq(t, s) {
                    assert(str_of(Some(a@[k as int])) == Some(s@));
                    return true;
                }
            },
            None => {},
        }
        k = k + 1;
    }
    false
}

/// Whether the optional array holds a string equal to `s`.
pub fn opt_contains_str(a: Option<&Vec<Json>>, s: &str) -> (r: bool)
    ensures
        r == (a.is_some() && has_str(a.unwrap()@, s@)),
{
    match a {
        Some(items) => contains_str(items, s),
        None => false,
    }
}

/// Structural equality of optional values.
pub open spec fn same_opt(a: Option<Json>, b: Option<Json>) -> bool {
    match (a, b) {
        (Some(x), Some(y)) => same(x, y),
        (None, None) => true,
        _ => false,
    }
}

/// A copy of an optional value.
pub fn duplicate_opt(o: &Option<Json>) -> (r: Option<Json>)
    ensures
        same_opt(r, *o),
{
    match o {
        Some(j) => Some(j.duplicate()),
        None => None,
    }
}

} // verus!
