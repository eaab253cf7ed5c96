//! The JSON values that travel between TDLib, the daemon and its clients.
//!
//! `Json` is the executable value; `JsonView` is its mathematical model.
//! Lookups follow the conventions of the protocol code: a field of a
//! non-object, or a missing field, reads as `null`.

use vstd::prelude::*;
use crate::text::str_eq;

verus! {

/// An executable JSON value.
#[derive(Debug, PartialEq)]
pub enum Json {
    Null,
    Bool(bool),
    /// An integer that fits in `i64`.
    Int(i64),
    /// Any other number (a larger unsigned integer or a fraction), kept as its text.
    Num(String),
    Str(String),
    Array(Vec<Json>),
    /// Fields in order; the protocol never repeats a key.
    Object(Vec<(String, Json)>),
}

/// The mathematical model of a JSON value.
pub enum JsonView {
    Null,
    Bool(bool),
    Int(i64),
    Num(Seq<char>),
    Str(Seq<char>),
    Array(Seq<JsonView>),
    Object(Seq<(Seq<char>, JsonView)>),
}

pub open spec fn json_view(j: Json) -> JsonView
    decreases j, 0nat,
{
    match j {
        Json::Null => JsonView::Null,
        Json::Bool(b) => JsonView::Bool(b),
        Json::Int(n) => JsonView::Int(n),
        Json::Num(t) => JsonView::Num(t@),
        Json::Str(s) => JsonView::Str(s@),
        Json::Array(v) => JsonView::Array(items_view(v@, v@.len())),
        Json::Object(fs) => JsonView::Object(fields_view(fs@, fs@.len())),
    }
}

/// The models of the first `n` items of `s`.
pub open spec fn items_view(s: Seq<Json>, n: nat) -> Seq<JsonView>
    decreases s, n,
{
    if n == 0 || n > s.len() {
        Seq::empty()
    } else {
        items_view(s, (n - 1) as nat).push(json_view(s[n - 1]))
    }
}

/// The models of the first `n` fields of `s`.
pub open spec fn fields_view(s: Seq<(String, Json)>, n: nat) -> Seq<(Seq<char>, JsonView)>
    decreases s, n,
{
    if n == 0 || n > s.len() {
        Seq::empty()
    } else {
        fields_view(s, (n - 1) as nat).push((s[n - 1].0@, json_view(s[n - 1].1)))
    }
}

impl View for Json {
    type V = JsonView;

    open spec fn view(&self) -> JsonView {
        json_view(*self)
    }
}

pub proof fn lemma_items_view(s: Seq<Json>, n: nat)
    requires
        n <= s.len(),
    ensures
        items_view(s, n).len() == n,
        forall|i: int| 0 <= i < n ==> #[trigger] items_view(s, n)[i] == json_view(s[i]),
    decreases n,
{
    if n > 0 {
        lemma_items_view(s, (n - 1) as nat);
    }
}

pub proof fn lemma_fields_view(s: Seq<(String, Json)>, n: nat)
    requires
        n <= s.len(),
    ensures
        fields_view(s, n).len() == n,
        forall|i: int|
            0 <= i < n ==> #[trigger] fields_view(s, n)[i] == (s[i].0@, json_view(s[i].1)),
    decreases n,
{
    if n > 0 {
        lemma_fields_view(s, (n - 1) as nat);
    }
}

/// The value stored under `key`, the first such field if several.
pub open spec fn find_field(fs: Seq<(Seq<char>, JsonView)>, key: Seq<char>) -> Option<JsonView>
    decreases fs.len(),
{
    if fs.len() == 0 {
        None
    } else if fs[0].0 == key {
        Some(fs[0].1)
    } else {
        find_field(fs.drop_first(), key)
    }
}

/// `j.get(key)`: the field `key` of an object; `None` for a missing key or a non-object.
pub open spec fn get(j: JsonView, key: Seq<char>) -> Option<JsonView> {
    match j {
        JsonView::Object(fs) => find_field(fs, key),
        _ => None,
    }
}

/// `j[key]`: the field `key`, or `null` where there is none.
pub open spec fn at(j: JsonView, key: Seq<char>) -> JsonView {
    match get(j, key) {
        Some(v) => v,
        None => JsonView::Null,
    }
}

pub open spec fn as_i64(j: JsonView) -> Option<i64> {
    match j {
        JsonView::Int(n) => Some(n),
        _ => None,
    }
}

pub open spec fn as_str(j: JsonView) -> Option<Seq<char>> {
    match j {
        JsonView::Str(s) => Some(s),
        _ => None,
    }
}

pub open spec fn as_bool(j: JsonView) -> Option<bool> {
    match j {
        JsonView::Bool(b) => Some(b),
        _ => None,
    }
}

pub open spec fn is_object(j: JsonView) -> bool {
    j is Object
}

/// The model of an optional reference to a value.
pub open spec fn opt_view(o: Option<&Json>) -> Option<JsonView> {
    match o {
        Some(v) => Some(v@),
        None => None,
    }
}

/// The model of an optional string.
pub open spec fn opt_str_view(o: Option<&String>) -> Option<Seq<char>> {
    match o {
        Some(s) => Some(s@),
        None => None,
    }
}

pub proof fn lemma_find_field_index(fs: Seq<(Seq<char>, JsonView)>, key: Seq<char>, i: int)
    requires
        0 <= i < fs.len(),
        fs[i].0 == key,
        forall|k: int| 0 <= k < i ==> fs[k].0 != key,
    ensures
        find_field(fs, key) == Some(fs[i].1),
    decreases i,
{
    if i > 0 {
        lemma_find_field_index(fs.drop_first(), key, i - 1);
    }
}

proof fn lemma_find_field_none(fs: Seq<(Seq<char>, JsonView)>, key: Seq<char>)
    requires
        forall|k: int| 0 <= k < fs.len() ==> fs[k].0 != key,
    ensures
        find_field(fs, key) is None,
    decreases fs.len(),
{
    if fs.len() > 0 {
        lemma_find_field_none(fs.drop_first(), key);
    }
}

/// The value an optional reference stands for, `null` for none.
pub open spec fn or_null(o: Option<JsonView>) -> JsonView {
    match o {
        Some(v) => v,
        None => JsonView::Null,
    }
}

/// `j[key]` on a value that may be absent (read as `null`); `None` stands for `null`.
pub fn at_ref<'a>(j: Option<&'a Json>, key: &str) -> (r: Option<&'a Json>)
    ensures
        or_null(opt_view(r)) == at(or_null(opt_view(j)), key@),
{
    match j {
        Some(v) => v.get(key),
        None => None,
    }
}

/// `as_i64` on a value that may be absent.
pub fn opt_i64(j: Option<&Json>) -> (r: Option<i64>)
    ensures
        r == as_i64(or_null(opt_view(j))),
{
    match j {
        Some(v) => v.as_i64(),
        None => None,
    }
}

/// `as_str` on a value that may be absent.
pub fn opt_str<'a>(j: Option<&'a Json>) -> (r: Option<&'a String>)
    ensures
        opt_str_view(r) == as_str(or_null(opt_view(j))),
{
    match j {
        Some(v) => v.as_str(),
        None => None,
    }
}

/// `as_bool` on a value that may be absent.
pub fn opt_bool(j: Option<&Json>) -> (r: Option<bool>)
    ensures
        r == as_bool(or_null(opt_view(j))),
{
    match j {
        Some(v) => v.as_bool(),
        None => None,
    }
}

/// A copy of a value.
pub fn clone_json(j: &Json) -> (r: Json)
    ensures
        r@ == j@,
    decreases j,
{
    match j {
        Json::Null => Json::Null,
        Json::Bool(b) => Json::Bool(*b),
        Json::Int(n) => Json::Int(*n),
        Json::Num(t) => Json::Num(t.clone()),
        Json::Str(t) => Json::Str(t.clone()),
        Json::Array(v) => {
            let mut out: Vec<Json> = Vec::new();
            let mut i: usize = 0;
            proof {
                lemma_items_view(v@, v@.len());
            }
            while i < v.len()
                invariant
                    i <= v@.len(),
                    out@.len() == i,
                    forall|k: int| 0 <= k < i ==> #[trigger] out@[k]@ == v@[k]@,
                    *j == Json::Array(*v),
                decreases v.len() - i,
            {
                proof {
                    assert(decreases_to!(*j => (*j)->Array_0));
                    assert((*j)->Array_0 == *v);
                    assert(decreases_to!(*v => v@));
                    assert(decreases_to!(v@ => v@[i as int]));
                    assert(decreases_to!(*j => v@[i as int]));
                }
                let c = clone_json(&v[i]);
                out.push(c);
                i = i + 1;
            }
            proof {
                lemma_items_view(out@, out@.len());
                lemma_items_view(v@, v@.len());
                assert forall|k: int| 0 <= k < v@.len() implies items_view(out@, out@.len())[k] == items_view(v@, v@.len())[k] by {
                    assert(out@[k]@ == v@[k]@);
                }
                assert(items_view(out@, out@.len()) =~= items_view(v@, v@.len()));
            }
            Json::Array(out)
        },
        Json::Object(fs) => {
            let mut out: Vec<(String, Json)> = Vec::new();
            let mut i: usize = 0;
            proof {
                lemma_fields_view(fs@, fs@.len());
            }
            while i < fs.len()
                invariant
                    i <= fs@.len(),
                    out@.len() == i,
                    forall|k: int|
                        0 <= k < i ==> (#[trigger] out@[k]).0@ == fs@[k].0@ && out@[k].1@
                            == fs@[k].1@,
                    *j == Json::Object(*fs),
                decreases fs.len() - i,
            {
                proof {
                    assert(decreases_to!(*j => (*j)->Object_0));
                    assert((*j)->Object_0 == *fs);
                    assert(decreases_to!(*fs => fs@));
                    assert(decreases_to!(fs@ => fs@[i as int]));
                    assert(decreases_to!(fs@[i as int] => fs@[i as int].1));
                    assert(decreases_to!(*j => fs@[i as int].1));
                }
                let c = clone_json(&fs[i].1);
                let k = fs[i].0.clone();
                out.push((k, c));
                i = i + 1;
            }
            proof {
                lemma_fields_view(out@, out@.len());
                lemma_fields_view(fs@, fs@.len());
                assert forall|k: int| 0 <= k < fs@.len() implies fields_view(out@, out@.len())[k] == fields_view(fs@, fs@.len())[k] by {
                    assert(out@[k].0@ == fs@[k].0@ && out@[k].1@ == fs@[k].1@);
                }
                assert(fields_view(out@, out@.len()) =~= fields_view(fs@, fs@.len()));
            }
            Json::Object(out)
        },
    }
}

impl Clone for Json {
    fn clone(&self) -> (r: Self)
        ensures
            r@ == self@,
    {
        clone_json(self)
    }
}

impl Json {
    /// The field `key` of an object value.
    pub fn get<'a>(&'a self, key: &str) -> (r: Option<&'a Json>)
        ensures
            opt_view(r) == get(self@, key@),
    {
        match self {
            Json::Object(fs) => {
                let ghost gs = fields_view(fs@, fs@.len());
                proof {
                    lemma_fields_view(fs@, fs@.len());
                }
                assert(self@ == JsonView::Object(gs));
                let mut i: usize = 0;
                while i < fs.len()
                    invariant
                        self@ == JsonView::Object(gs),
                        i <= fs.len(),
                        gs == fields_view(fs@, fs@.len()),
                        gs.len() == fs@.len(),
                        forall|k: int|
                            0 <= k < fs@.len() ==> #[trigger] gs[k] == (fs@[k].0@, json_view(fs@[k].1)),
                        forall|k: int| 0 <= k < i ==> gs[k].0 != key@,
                    decreases fs.len() - i,
                {
                    if str_eq(fs[i].0.as_str(), key) {
                        proof {
                            assert(gs[i as int] == (fs@[i as int].0@, json_view(fs@[i as int].1)));
                            lemma_find_field_index(gs, key@, i as int);
                        }
                        return Some(&fs[i].1);
                    }
                    i = i + 1;
                }
                proof {
                    lemma_find_field_none(gs, key@);
                }
                None
            },
            _ => None,
        }
    }

    pub fn as_i64(&self) -> (r: Option<i64>)
        ensures
            r == as_i64(self@),
    {
        match self {
            Json::Int(n) => Some(*n),
            _ => None,
        }
    }

    pub fn as_str(&self) -> (r: Option<&String>)
        ensures
            opt_str_view(r) == as_str(self@),
    {
        match self {
            Json::Str(s) => Some(s),
            _ => None,
        }
    }

    pub fn as_bool(&self) -> (r: Option<bool>)
        ensures
            r == as_bool(self@),
    {
        match self {
            Json::Bool(b) => Some(*b),
            _ => None,
        }
    }

    pub fn as_array(&self) -> (r: Option<&Vec<Json>>)
        ensures
            r matches Some(v) ==> self@ == JsonView::Array(items_view(v@, v@.len())),
            r is None <==> !(self@ is Array),
    {
        match self {
            Json::Array(v) => Some(v),
            _ => None,
        }
    }

    pub fn is_object(&self) -> (r: bool)
        ensures
            r == is_object(self@),
    {
        match self {
            Json::Object(_) => true,
            _ => false,
        }
    }
}

} // verus!
