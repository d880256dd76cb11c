//! JSON documents as the library reads and writes them.
//!
//! Pipeline definitions, stage configurations and stage outputs are JSON
//! documents. `JsonValue` holds one as plain values; an object keeps its
//! members in a vector of (name, value) pairs. Its view, `Json`, is the
//! same tree with texts as character sequences and vectors as sequences.

use vstd::prelude::*;

verus! {

broadcast use vstd::std_specs::vec::group_vec_axioms;

/// A JSON number: a non-negative integer, a negative integer, or a floating
/// point number held by its IEEE-754 bit pattern.
#[derive(PartialEq, Eq, Structural)]
pub enum JsonNumber {
    PosInt(u64),
    NegInt(i64),
    FloatBits(u64),
}

/// A JSON value.
pub enum JsonValue {
    Null,
    Bool(bool),
    Number(JsonNumber),
    String(String),
    Array(Vec<JsonValue>),
    Object(Vec<(String, JsonValue)>),
}

/// The mathematical form of a JSON value.
pub enum Json {
    Null,
    Bool(bool),
    Number(JsonNumber),
    Str(Seq<char>),
    Array(Seq<Json>),
    Object(Seq<(Seq<char>, Json)>),
}

/// The view of a JSON value.
pub open spec fn json_view(v: JsonValue) -> Json
    decreases v, 0int,
{
    match v {
        JsonValue::Null => Json::Null,
        JsonValue::Bool(b) => Json::Bool(b),
        JsonValue::Number(n) => Json::Number(n),
        JsonValue::String(s) => Json::Str(s@),
        JsonValue::Array(items) => {
            proof {
                assert(decreases_to!(items => items@));
            }
            Json::Array(array_view(items@))
        },
        JsonValue::Object(members) => {
            proof {
                assert(decreases_to!(members => members@));
            }
            Json::Object(members_view(members@))
        },
    }
}

/// The views of a sequence of JSON values.
pub open spec fn array_view(s: Seq<JsonValue>) -> Seq<Json>
    decreases s, 0int,
{
    if s.len() == 0 {
        seq![]
    } else {
        proof {
            assert(decreases_to!(s => s[0]));
            assert(decreases_to!(s => s.drop_first()));
        }
        seq![json_view(s[0])] + array_view(s.drop_first())
    }
}

/// The views of a sequence of object members.
pub open spec fn members_view(s: Seq<(String, JsonValue)>) -> Seq<(Seq<char>, Json)>
    decreases s, 0int,
{
    if s.len() == 0 {
        seq![]
    } else {
        proof {
            assert(decreases_to!(s => s[0]));
            assert(decreases_to!(s[0] => s[0].1));
            assert(decreases_to!(s => s.drop_first()));
        }
        seq![(s[0].0@, json_view(s[0].1))] + members_view(s.drop_first())
    }
}

impl View for JsonValue {
    type V = Json;

    open spec fn view(&self) -> Json {
        json_view(*self)
    }
}


/// The view of a sequence of JSON values has one entry per value.
pub proof fn lemma_array_view(s: Seq<JsonValue>)
    ensures
        array_view(s).len() == s.len(),
        forall|i: int| 0 <= i < s.len() ==> #[trigger] array_view(s)[i] == json_view(s[i]),
    decreases s.len(),
{
    if s.len() > 0 {
        lemma_array_view(s.drop_first());
        assert forall|i: int| 0 <= i < s.len() implies #[trigger] array_view(s)[i] == json_view(s[i]) by {
            if i > 0 {
                assert(s.drop_first()[i - 1] == s[i]);
            }
        }
    }
}

/// The view of a sequence of members has one entry per member.
pub proof fn lemma_members_view(s: Seq<(String, JsonValue)>)
    ensures
        members_view(s).len() == s.len(),
        forall|i: int| 0 <= i < s.len() ==> #[trigger] members_view(s)[i] == (s[i].0@, json_view(s[i].1)),
    decreases s.len(),
{
    if s.len() > 0 {
        lemma_members_view(s.drop_first());
        assert forall|i: int| 0 <= i < s.len() implies #[trigger] members_view(s)[i] == (s[i].0@, json_view(s[i].1)) by {
            if i > 0 {
                assert(s.drop_first()[i - 1] == s[i]);
            }
        }
    }
}

/// The view of a sequence of JSON values, element by element.
pub broadcast proof fn lemma_array_view_len_index(s: Seq<JsonValue>)
    ensures
        #[trigger] array_view(s).len() == s.len(),
        forall|i: int| 0 <= i < s.len() ==> #[trigger] array_view(s)[i] == json_view(s[i]),
{
    lemma_array_view(s);
}

/// The view of a sequence of object members, member by member.
pub broadcast proof fn lemma_members_view_len_index(s: Seq<(String, JsonValue)>)
    ensures
        #[trigger] members_view(s).len() == s.len(),
        forall|i: int| 0 <= i < s.len() ==> #[trigger] members_view(s)[i] == (s[i].0@, json_view(s[i].1)),
{
    lemma_members_view(s);
}

pub broadcast group group_json_view {
    lemma_array_view_len_index,
    lemma_members_view_len_index,
}

impl Json {
    /// The text of a JSON string (`Value::as_str`).
    pub open spec fn text(self) -> Option<Seq<char>> {
        match self {
            Json::Str(s) => Some(s),
            _ => None,
        }
    }
}

/// The value of the first member of `members` named `key`. (A JSON object
/// read by `serde_json` has each name once, the last of duplicates; on
/// such members this is what `serde_json::Value::get` finds.)
pub open spec fn field(members: Seq<(Seq<char>, Json)>, key: Seq<char>) -> Option<Json>
    decreases members.len(),
{
    if members.len() == 0 {
        None
    } else if members[0].0 == key {
        Some(members[0].1)
    } else {
        field(members.drop_first(), key)
    }
}

/// Whether `members` has a member named `key` (`Map::contains_key`).
pub open spec fn has_field(members: Seq<(Seq<char>, Json)>, key: Seq<char>) -> bool {
    field(members, key) is Some
}

/// The value of member `key` of a JSON object; `None` for other values.
pub open spec fn get(v: Json, key: Seq<char>) -> Option<Json> {
    match v {
        Json::Object(m) => field(m, key),
        _ => None,
    }
}

impl JsonValue {
    /// Whether the value is JSON `null`.
    pub fn is_null(&self) -> (r: bool)
        ensures
            r == (self@ is Null),
    {
        match self {
            JsonValue::Null => true,
            _ => false,
        }
    }

    /// Whether the value is a JSON string.
    pub fn is_string(&self) -> (r: bool)
        ensures
            r == (self@ is Str),
    {
        match self {
            JsonValue::String(_) => true,
            _ => false,
        }
    }

    /// The text of a JSON string, if the value is one.
    pub fn as_text(&self) -> (r: Option<&String>)
        ensures
            match r {
                Some(s) => self@.text() == Some(s@),
                None => self@.text() is None,
            },
    {
        match self {
            JsonValue::String(s) => Some(s),
            _ => None,
        }
    }

}

/// The value of the first member named `key` (on members with names that
/// occur once, what `serde_json::Value::get` finds).
pub fn get_field<'a>(members: &'a Vec<(String, JsonValue)>, key: &str) -> (r: Option<&'a JsonValue>)
    ensures
        match r {
            Some(v) => field(members_view(members@), key@) == Some(v@),
            None => field(members_view(members@), key@) is None,
        },
{
    broadcast use group_json_view;

    let k = key.to_owned();
    let n = members.len();
    let mut i: usize = 0;
    let ghost mv = members_view(members@);
    assert(mv.subrange(0, n as int) =~= mv);
    while i < n
        invariant
            n == members@.len(),
            mv == members_view(members@),
            mv.len() == n,
            i <= n,
            k@ == key@,
            field(mv, key@) == field(mv.subrange(i as int, n as int), key@),
        decreases n - i,
    {
        let ghost rest = mv.subrange(i as int, n as int);
        assert(rest.drop_first() =~= mv.subrange(i + 1, n as int));
        proof {
            lemma_members_view(members@);
        }
        assert(rest[0] == mv[i as int]);
        if members[i].0 == k {
            return Some(&members[i].1);
        }
        i = i + 1;
    }
    None
}

/// The value of member `key` if `v` is an object.
pub fn get_member<'a>(v: &'a JsonValue, key: &str) -> (r: Option<&'a JsonValue>)
    ensures
        match r {
            Some(x) => get(v@, key@) == Some(x@),
            None => get(v@, key@) is None,
        },
{
    match v {
        JsonValue::Object(members) => get_field(members, key),
        _ => None,
    }
}

/// A JSON string holding the given characters.
pub fn json_from_chars(v: &[char]) -> (r: JsonValue)
    ensures
        r@ == Json::Str(v@),
{
    JsonValue::String(crate::text::string_of(v))
}

/// A JSON string holding the given text.
pub fn json_from_str(s: &str) -> (r: JsonValue)
    ensures
        r@ == Json::Str(s@),
{
    JsonValue::String(s.to_owned())
}

/// A JSON array of the given values.
pub fn json_array(items: Vec<JsonValue>) -> (r: JsonValue)
    ensures
        r@ == Json::Array(array_view(items@)),
{
    JsonValue::Array(items)
}

/// A JSON array of strings.
pub fn json_text_array(items: &Vec<Vec<char>>) -> (r: JsonValue)
    ensures
        r@ == Json::Array(crate::text::views(items@).map_values(|t: Seq<char>| Json::Str(t))),
{
    broadcast use group_json_view;

    let mut out: Vec<JsonValue> = Vec::new();
    let n = items.len();
    for i in 0..n
        invariant
            n == items@.len(),
            out@.len() == i,
            forall|k: int| 0 <= k < i ==> json_view(#[trigger] out@[k]) == Json::Str(items@[k]@),
    {
        out.push(json_from_chars(&items[i]));
    }
    assert(array_view(out@) =~= crate::text::views(items@).map_values(|t: Seq<char>| Json::Str(t)));
    JsonValue::Array(out)
}


/// `members` after `serde_json::Map::insert(key, value)`: the value of a
/// member named `key` is replaced, or a new member is added.
pub open spec fn members_insert(m: Seq<(Seq<char>, Json)>, key: Seq<char>, value: Json) -> Seq<(Seq<char>, Json)>
    decreases m.len(),
{
    if m.len() == 0 {
        seq![(key, value)]
    } else if m[0].0 == key {
        seq![(key, value)] + m.drop_first()
    } else {
        seq![m[0]] + members_insert(m.drop_first(), key, value)
    }
}

/// After an insertion, the member named `key` has the inserted value.
pub proof fn lemma_insert_sets_field(m: Seq<(Seq<char>, Json)>, key: Seq<char>, value: Json)
    ensures
        field(members_insert(m, key, value), key) == Some(value),
    decreases m.len(),
{
    if m.len() > 0 && m[0].0 != key {
        lemma_insert_sets_field(m.drop_first(), key, value);
        assert(members_insert(m, key, value).drop_first() =~= members_insert(m.drop_first(), key, value));
    }
}

/// An insertion leaves every member with another name as it was.
pub proof fn lemma_insert_keeps_other_fields(m: Seq<(Seq<char>, Json)>, key: Seq<char>, value: Json, other: Seq<char>)
    requires
        other != key,
    ensures
        field(members_insert(m, key, value), other) == field(m, other),
    decreases m.len(),
{
    let r = members_insert(m, key, value);
    if m.len() == 0 {
        assert(r.drop_first() =~= Seq::<(Seq<char>, Json)>::empty());
        assert(field(r.drop_first(), other) is None);
    } else {
        if m[0].0 == key {
            assert(r.drop_first() =~= m.drop_first());
            assert(r[0].0 == key);
        } else {
            lemma_insert_keeps_other_fields(m.drop_first(), key, value, other);
            assert(members_insert(m, key, value).drop_first() =~= members_insert(m.drop_first(), key, value));
        }
    }
}

/// Sets member `key` of an object to `value`, replacing an earlier value
/// (`serde_json::Map::insert`).
pub fn object_insert(members: &mut Vec<(String, JsonValue)>, key: String, value: JsonValue)
    ensures
        members_view(final(members)@) == members_insert(members_view(old(members)@), key@, value@),
{
    proof {
        lemma_members_view(members@);
    }
    let ghost m0 = members_view(members@);
    let n = members.len();
    let mut i: usize = 0;
    assert(m0.subrange(0, n as int) =~= m0);
    assert(m0.take(0) + m0.subrange(0, n as int) =~= m0);
    while i < n
        invariant
            n == members@.len() == m0.len(),
            m0 == members_view(members@),
            members@ == old(members)@,
            i <= n,
            members_insert(m0, key@, value@) == m0.take(i as int) + members_insert(m0.subrange(i as int, n as int), key@, value@),
            forall|q: int| 0 <= q < i ==> m0[q].0 != key@,
        decreases n - i,
    {
        proof {
            lemma_members_view(members@);
        }
        let ghost rest = m0.subrange(i as int, n as int);
        assert(rest.drop_first() =~= m0.subrange(i + 1, n as int));
        assert(rest[0] == m0[i as int]);
        if members[i].0 == key {
            let ghost before = members@;
            members.set(i, (key, value));
            proof {
                lemma_members_view(members@);
                lemma_members_view(before);
                assert(members_view(members@) =~= m0.take(i as int) + (seq![(key@, value@)] + rest.drop_first()));
            }
            return;
        }
        assert(m0.take(i + 1) =~= m0.take(i as int) + seq![m0[i as int]]);
        i = i + 1;
    }
    let ghost before = members@;
    members.push((key, value));
    proof {
        lemma_members_view(members@);
        lemma_members_view(before);
        assert(m0.subrange(n as int, n as int).len() == 0);
        assert(m0.take(n as int) =~= m0);
        assert(members_view(members@) =~= m0 + seq![(key@, value@)]);
    }
}

} // verus!
