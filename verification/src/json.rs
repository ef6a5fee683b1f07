//! A model of JSON values, and the calls into `serde_json` that read and
//! write them as text.

use crate::text::str_eq;
use vstd::prelude::*;

verus! {

/// A JSON value. A number holds the text that `serde_json` prints for it; an
/// object holds its members in the order in which `serde_json` yields them.
#[derive(Debug, PartialEq)]
pub enum Json {
    Null,
    Bool(bool),
    Number(String),
    Text(String),
    Array(Vec<Json>),
    Object(Vec<Member>),
}

/// One member of a JSON object.
#[derive(Debug, PartialEq)]
pub struct Member {
    pub key: String,
    pub value: Json,
}

/// The mathematical value of a [`Member`].
pub struct MemberV {
    pub key: Seq<char>,
    pub value: JsonV,
}

/// The mathematical value of a [`Json`].
pub enum JsonV {
    Null,
    Bool(bool),
    Number(Seq<char>),
    Text(Seq<char>),
    Array(Seq<JsonV>),
    Object(Seq<MemberV>),
}

impl View for Json {
    type V = JsonV;

    open spec fn view(&self) -> JsonV
        decreases self,
    {
        match self {
            Json::Null => JsonV::Null,
            Json::Bool(b) => JsonV::Bool(*b),
            Json::Number(n) => JsonV::Number(n@),
            Json::Text(t) => JsonV::Text(t@),
            Json::Array(items) => JsonV::Array(
                Seq::new(
                    items@.len(),
                    |i: int|
                        if 0 <= i < items@.len() {
                            items@[i].view()
                        } else {
                            JsonV::Null
                        },
                ),
            ),
            Json::Object(members) => JsonV::Object(
                Seq::new(
                    members@.len(),
                    |i: int|
                        if 0 <= i < members@.len() {
                            MemberV { key: members@[i].key@, value: members@[i].value.view() }
                        } else {
                            MemberV { key: Seq::empty(), value: JsonV::Null }
                        },
                ),
            ),
        }
    }
}

/// The values of a list of JSON values.
pub open spec fn values(items: Seq<Json>) -> Seq<JsonV> {
    items.map_values(|j: Json| j@)
}

/// The keys and values of a list of members.
pub open spec fn members_of(members: Seq<Member>) -> Seq<MemberV> {
    members.map_values(|m: Member| MemberV { key: m.key@, value: m.value@ })
}

/// The value of an array is the list of its items' values; that of an object
/// the list of its members' keys and values.
pub proof fn lemma_view(j: Json)
    ensures
        j matches Json::Array(items) ==> j@ == JsonV::Array(values(items@)),
        j matches Json::Object(members) ==> j@ == JsonV::Object(members_of(members@)),
{
    match j {
        Json::Array(items) => {
            assert(j@->Array_0 =~= values(items@));
        },
        Json::Object(members) => {
            assert(j@->Object_0 =~= members_of(members@));
        },
        _ => {},
    }
}

/// What `serde_json::from_str` makes of a text: the value it holds, or `None`
/// where the text is no JSON document.
pub uninterp spec fn json_value(text: Seq<char>) -> Option<JsonV>;

/// The text that `serde_json::to_string` writes for a value.
pub uninterp spec fn json_text(value: JsonV) -> Seq<char>;

/// The text that `serde_json::to_string_pretty` writes for a value.
pub uninterp spec fn json_pretty(value: JsonV) -> Seq<char>;

/// `serde_json::Value`, carried through as it is.
#[verifier::external_type_specification]
#[verifier::external_body]
pub struct ExValue(serde_json::Value);

/// Tells the variants of `serde_json::Value` apart and moves their fields
/// into the model, item by item; a number becomes the text that
/// `serde_json::Number` displays.
#[verifier::external_body]
fn from_value(v: serde_json::Value) -> (out: Json) {
    match v {
        serde_json::Value::Null => Json::Null,
        serde_json::Value::Bool(b) => Json::Bool(b),
        serde_json::Value::Number(n) => Json::Number(n.to_string()),
        serde_json::Value::String(s) => Json::Text(s),
        serde_json::Value::Array(a) => Json::Array(a.into_iter().map(from_value).collect()),
        serde_json::Value::Object(o) => Json::Object(
            o.into_iter().map(|(key, v)| Member { key, value: from_value(v) }).collect(),
        ),
    }
}

/// The `serde_json::Value` of a model value, built variant by variant; a
/// number is read back from its text by `str::parse::<serde_json::Number>`.
#[verifier::external_body]
fn to_value(j: &Json) -> (out: serde_json::Value) {
    match j {
        Json::Null => serde_json::Value::Null,
        Json::Bool(b) => serde_json::Value::Bool(*b),
        Json::Number(n) => n.parse::<serde_json::Number>().map_or(
            serde_json::Value::Null,
            serde_json::Value::Number,
        ),
        Json::Text(s) => serde_json::Value::String(s.clone()),
        Json::Array(a) => serde_json::Value::Array(a.iter().map(to_value).collect()),
        Json::Object(o) => serde_json::Value::Object(
            o.iter().map(|m| (m.key.clone(), to_value(&m.value))).collect(),
        ),
    }
}

/// `serde_json::from_str::<Value>`: reads one JSON document. The result is a
/// function of the text alone.
#[verifier::external_body]
pub(crate) fn parse_json(text: &str) -> (out: Option<Json>)
    ensures
        match out {
            Some(j) => json_value(text@) == Some(j@),
            None => json_value(text@) is None,
        },
{
    match serde_json::from_str::<serde_json::Value>(text) {
        Ok(v) => Some(from_value(v)),
        Err(_) => None,
    }
}

/// `serde_json::to_string` on a `Value`: the compact text of the value.
#[verifier::external_body]
pub(crate) fn print_json(j: &Json) -> (out: String)
    ensures
        out@ == json_text(j@),
{
    serde_json::to_string(&to_value(j)).unwrap_or_default()
}

/// `serde_json::to_string_pretty` on a `Value`: the indented text of the
/// value.
#[verifier::external_body]
pub(crate) fn print_json_pretty(j: &Json) -> (out: String)
    ensures
        out@ == json_pretty(j@),
{
    serde_json::to_string_pretty(&to_value(j)).unwrap_or_default()
}


/// The value of the last member under `key`, if there is one.
pub open spec fn lookup(members: Seq<MemberV>, key: Seq<char>) -> Option<JsonV>
    decreases members.len(),
{
    if members.len() == 0 {
        None
    } else if members.last().key == key {
        Some(members.last().value)
    } else {
        lookup(members.drop_last(), key)
    }
}

/// The member of an object under `key`; `None` where there is none or the
/// value is no object.
pub open spec fn field(v: JsonV, key: Seq<char>) -> Option<JsonV> {
    match v {
        JsonV::Object(members) => lookup(members, key),
        _ => None,
    }
}

/// The text of a member that must be a string.
pub open spec fn text_field(v: JsonV, key: Seq<char>) -> Option<Seq<char>> {
    match field(v, key) {
        Some(JsonV::Text(t)) => Some(t),
        _ => None,
    }
}

/// The text of a member that is a string, or the empty text.
pub open spec fn text_or_empty(v: JsonV, key: Seq<char>) -> Seq<char> {
    match text_field(v, key) {
        Some(t) => t,
        None => Seq::empty(),
    }
}

impl Json {
    /// The member of an object under `key`.
    pub fn get(&self, key: &str) -> (out: Option<&Json>)
        ensures
            match out {
                Some(j) => field(self@, key@) == Some(j@),
                None => field(self@, key@) is None,
            },
    {
        proof {
            lemma_view(*self);
        }
        match self {
            Json::Object(members) => {
                let ghost all = members_of(members@);
                let mut i: usize = members.len();
                assert(all.take(i as int) =~= all);
                while i > 0
                    invariant
                        i <= members.len(),
                        all == members_of(members@),
                        self@ == JsonV::Object(all),
                        lookup(all, key@) == lookup(all.take(i as int), key@),
                    decreases i,
                {
                    i -= 1;
                    assert(all.take(i + 1).drop_last() =~= all.take(i as int));
                    assert(all.take(i + 1).last() == all[i as int]);
                    assert(all[i as int].key == members@[i as int].key@);
                    assert(all[i as int].value == members@[i as int].value@);
                    if str_eq(members[i].key.as_str(), key) {
                        return Some(&members[i].value);
                    }
                }
                None
            },
            _ => None,
        }
    }

    /// The text of a string value.
    pub fn as_text(&self) -> (out: Option<&String>)
        ensures
            match out {
                Some(t) => self@ == JsonV::Text(t@),
                None => !(self@ is Text),
            },
    {
        match self {
            Json::Text(t) => Some(t),
            _ => None,
        }
    }

    /// The items of an array.
    pub fn as_items(&self) -> (out: Option<&Vec<Json>>)
        ensures
            match out {
                Some(items) => self@ == JsonV::Array(values(items@)),
                None => !(self@ is Array),
            },
    {
        proof {
            lemma_view(*self);
        }
        match self {
            Json::Array(items) => Some(items),
            _ => None,
        }
    }

    /// The text of a member that must be a string.
    pub fn text_at(&self, key: &str) -> (out: Option<&String>)
        ensures
            match out {
                Some(t) => text_field(self@, key@) == Some(t@),
                None => text_field(self@, key@) is None,
            },
    {
        match self.get(key) {
            Some(j) => j.as_text(),
            None => None,
        }
    }

    /// A copy of this value.
    pub fn duplicate(&self) -> (out: Json)
        ensures
            out@ == self@,
        decreases self,
    {
        proof {
            lemma_view(*self);
        }
        match self {
            Json::Null => Json::Null,
            Json::Bool(b) => Json::Bool(*b),
            Json::Number(n) => Json::Number(n.clone()),
            Json::Text(t) => Json::Text(t.clone()),
            Json::Array(items) => {
                let mut copy: Vec<Json> = Vec::new();
                let mut i: usize = 0;
                while i < items.len()
                    invariant
                        i <= items.len(),
                        *self == Json::Array(*items),
                        values(copy@) == values(items@).take(i as int),
                    decreases items.len() - i,
                {
                    assert(decreases_to!(self => items@[i as int])) by {
                        assert(self->Array_0 == *items);
                        assert(decreases_to!(*items => items@[i as int]));
                    }
                    let item = items[i].duplicate();
                    let ghost before = copy@;
                    copy.push(item);
                    assert(values(copy@) =~= values(before).push(item@));
                    assert(values(items@).take(i + 1) =~= values(items@).take(i as int).push(
                        items@[i as int]@,
                    ));
                    i += 1;
                }
                assert(values(items@).take(items.len() as int) =~= values(items@));
                let out = Json::Array(copy);
                proof {
                    lemma_view(out);
                }
                out
            },
            Json::Object(members) => {
                let mut copy: Vec<Member> = Vec::new();
                let mut i: usize = 0;
                while i < members.len()
                    invariant
                        i <= members.len(),
                        *self == Json::Object(*members),
                        members_of(copy@) == members_of(members@).take(i as int),
                    decreases members.len() - i,
                {
                    assert(decreases_to!(self => members@[i as int].value)) by {
                        assert(self->Object_0 == *members);
                        assert(decreases_to!(*members => members@[i as int]));
                    }
                    let value = members[i].value.duplicate();
                    let ghost before = copy@;
                    let member = Member { key: members[i].key.clone(), value };
                    copy.push(member);
                    assert(members_of(copy@) =~= members_of(before).push(
                        MemberV { key: member.key@, value: member.value@ },
                    ));
                    assert(members_of(members@).take(i + 1) =~= members_of(members@).take(
                        i as int,
                    ).push(
                        MemberV { key: members@[i as int].key@, value: members@[i as int].value@ },
                    ));
                    i += 1;
                }
                assert(members_of(members@).take(members.len() as int) =~= members_of(members@));
                let out = Json::Object(copy);
                proof {
                    lemma_view(out);
                }
                out
            },
        }
    }
}

/// The value of an object with one member.
pub open spec fn object1(key: Seq<char>, value: JsonV) -> JsonV {
    JsonV::Object(seq![MemberV { key, value }])
}

/// The value of an object with two members.
pub open spec fn object2(k0: Seq<char>, v0: JsonV, k1: Seq<char>, v1: JsonV) -> JsonV {
    JsonV::Object(seq![MemberV { key: k0, value: v0 }, MemberV { key: k1, value: v1 }])
}

/// The value of an array of strings.
pub open spec fn text_array(list: Seq<Seq<char>>) -> JsonV {
    JsonV::Array(list.map_values(|t: Seq<char>| JsonV::Text(t)))
}

impl Json {
    /// The string value with the text `s`.
    pub fn text(s: &str) -> (out: Json)
        ensures
            out@ == JsonV::Text(s@),
    {
        Json::Text(crate::text::copy_str(s))
    }

    /// The array of the given items.
    pub fn array(items: Vec<Json>) -> (out: Json)
        ensures
            out@ == JsonV::Array(values(items@)),
    {
        let out = Json::Array(items);
        proof {
            lemma_view(out);
        }
        out
    }

    /// The object of the given members.
    pub fn object(members: Vec<Member>) -> (out: Json)
        ensures
            out@ == JsonV::Object(members_of(members@)),
    {
        let out = Json::Object(members);
        proof {
            lemma_view(out);
        }
        out
    }

    /// The object without members.
    pub fn empty_object() -> (out: Json)
        ensures
            out@ == JsonV::Object(Seq::empty()),
    {
        let members: Vec<Member> = Vec::new();
        assert(members_of(members@) =~= Seq::<MemberV>::empty());
        Json::object(members)
    }

    /// The object with the one member `key`.
    pub fn object_of(key: &str, value: Json) -> (out: Json)
        ensures
            out@ == object1(key@, value@),
    {
        let mut members: Vec<Member> = Vec::new();
        members.push(Member { key: crate::text::copy_str(key), value });
        assert(members_of(members@) =~= seq![MemberV { key: key@, value: value@ }]);
        Json::object(members)
    }

    /// The object with the two members `k0` and `k1`, in this order.
    pub fn object_of2(k0: &str, v0: Json, k1: &str, v1: Json) -> (out: Json)
        ensures
            out@ == object2(k0@, v0@, k1@, v1@),
    {
        let mut members: Vec<Member> = Vec::new();
        members.push(Member { key: crate::text::copy_str(k0), value: v0 });
        members.push(Member { key: crate::text::copy_str(k1), value: v1 });
        assert(members_of(members@) =~= seq![
            MemberV { key: k0@, value: v0@ },
            MemberV { key: k1@, value: v1@ },
        ]);
        Json::object(members)
    }

    /// The array of the strings of `list`.
    pub fn strings(list: &Vec<String>) -> (out: Json)
        ensures
            out@ == text_array(crate::text::texts(list@)),
    {
        let mut items: Vec<Json> = Vec::new();
        let mut i: usize = 0;
        while i < list.len()
            invariant
                i <= list.len(),
                values(items@) == text_array(crate::text::texts(list@))->Array_0.take(i as int),
            decreases list.len() - i,
        {
            let ghost before = values(items@);
            let item = Json::Text(list[i].clone());
            items.push(item);
            assert(values(items@) =~= before.push(item@));
            assert(text_array(crate::text::texts(list@))->Array_0.take(i + 1) =~= before.push(
                JsonV::Text(list@[i as int]@),
            ));
            i += 1;
        }
        assert(text_array(crate::text::texts(list@))->Array_0.take(list.len() as int)
            =~= text_array(crate::text::texts(list@))->Array_0);
        Json::array(items)
    }
}

impl Json {
    /// Reads one JSON document from a text; `None` where the text is none.
    pub fn parse(text: &str) -> (out: Option<Json>)
        ensures
            match out {
                Some(j) => json_value(text@) == Some(j@),
                None => json_value(text@) is None,
            },
    {
        parse_json(text)
    }

    /// The compact text of this value.
    pub fn to_text(&self) -> (out: String)
        ensures
            out@ == json_text(self@),
    {
        print_json(self)
    }

    /// The indented text of this value.
    pub fn to_pretty_text(&self) -> (out: String)
        ensures
            out@ == json_pretty(self@),
    {
        print_json_pretty(self)
    }
}

impl Clone for Json {
    fn clone(&self) -> (out: Self)
        ensures
            out@ == self@,
    {
        self.duplicate()
    }
}

} // verus!
