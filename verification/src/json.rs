//! JSON documents as a tree of plain values.

use vstd::prelude::*;
use crate::text::str_eq;

verus! {

/// A JSON document.
#[derive(Debug)]
pub enum Json {
    Null,
    Bool(bool),
    /// A number that fits in an `i64`.
    Int(i64),
    /// Any other number, held by its JSON text.
    Number(String),
    String(String),
    Array(Vec<Json>),
    /// The members of an object, in the order in which they are kept.
    Object(Vec<Member>),
}

/// One member of a JSON object.
#[derive(Debug)]
pub struct Member {
    pub name: String,
    pub value: Json,
}

/// What a [`Json`] document stands for.
pub ghost enum JsonModel {
    Null,
    Bool(bool),
    Int(int),
    Number(Seq<char>),
    String(Seq<char>),
    Array(Seq<JsonModel>),
    Object(Seq<MemberModel>),
}

/// What a [`Member`] stands for.
pub ghost struct MemberModel {
    pub name: Seq<char>,
    pub value: JsonModel,
}

/// The value of the first member of `members` from index `from` on whose name
/// is `key`.
pub open spec fn lookup_from(
    members: Seq<MemberModel>,
    key: Seq<char>,
    from: int,
) -> Option<JsonModel>
    decreases members.len() - from,
{
    if from < 0 || from >= members.len() {
        None
    } else if members[from].name == key {
        Some(members[from].value)
    } else {
        lookup_from(members, key, from + 1)
    }
}

impl JsonModel {
    /// The value of the member `key`, where this is an object that has one.
    pub open spec fn field(self, key: Seq<char>) -> Option<JsonModel> {
        match self {
            JsonModel::Object(members) => lookup_from(members, key, 0),
            _ => None,
        }
    }

    /// The number that this document holds, where it is an integer.
    pub open spec fn integer(self) -> Option<int> {
        match self {
            JsonModel::Int(i) => Some(i),
            _ => None,
        }
    }

    /// The characters of this document, where it is a string.
    pub open spec fn text(self) -> Option<Seq<char>> {
        match self {
            JsonModel::String(s) => Some(s),
            _ => None,
        }
    }

    /// The characters of the member `key`, where this is an object whose
    /// member `key` is a string.
    pub open spec fn text_field(self, key: Seq<char>) -> Option<Seq<char>> {
        match self.field(key) {
            Some(JsonModel::String(s)) => Some(s),
            _ => None,
        }
    }
}

impl View for Json {
    type V = JsonModel;

    open spec fn view(&self) -> JsonModel
        decreases self,
    {
        match self {
            Json::Null => JsonModel::Null,
            Json::Bool(b) => JsonModel::Bool(*b),
            Json::Int(i) => JsonModel::Int(*i as int),
            Json::Number(t) => JsonModel::Number(t@),
            Json::String(s) => JsonModel::String(s@),
            Json::Array(items) => JsonModel::Array(
                Seq::new(
                    items.len() as nat,
                    |i: int|
                        if 0 <= i < items.len() {
                            items[i]@
                        } else {
                            JsonModel::Null
                        },
                ),
            ),
            Json::Object(members) => JsonModel::Object(
                Seq::new(
                    members.len() as nat,
                    |i: int|
                        if 0 <= i < members.len() {
                            MemberModel { name: members[i].name@, value: members[i].value@ }
                        } else {
                            MemberModel { name: Seq::empty(), value: JsonModel::Null }
                        },
                ),
            ),
        }
    }
}

impl View for Member {
    type V = MemberModel;

    open spec fn view(&self) -> MemberModel {
        MemberModel { name: self.name@, value: self.value@ }
    }
}

/// The models of `members`, one for one.
pub open spec fn member_models(members: Seq<Member>) -> Seq<MemberModel> {
    Seq::new(members.len(), |i: int| members[i]@)
}

/// The models of `items`, one for one.
pub open spec fn item_models(items: Seq<Json>) -> Seq<JsonModel> {
    Seq::new(items.len(), |i: int| items[i]@)
}

/// The JSON strings that hold `texts`, one for one.
pub open spec fn string_models(texts: Seq<Seq<char>>) -> Seq<JsonModel> {
    Seq::new(texts.len(), |i: int| JsonModel::String(texts[i]))
}

/// The member `name` with the value `value`.
pub open spec fn entry(name: Seq<char>, value: JsonModel) -> MemberModel {
    MemberModel { name, value }
}

/// The members of an object's model are the members that it holds, one for
/// one.
pub proof fn lemma_object_model(members: Vec<Member>)
    ensures
        Json::Object(members)@ is Object,
        Json::Object(members)@->Object_0.len() == members.len(),
        forall|i: int|
            0 <= i < members.len() ==> #[trigger] Json::Object(members)@->Object_0[i]
                == (MemberModel { name: members[i].name@, value: members[i].value@ }),
{
}

/// The items of an array's model are the models of the items that it holds,
/// one for one.
pub proof fn lemma_array_model(items: Vec<Json>)
    ensures
        Json::Array(items)@ is Array,
        Json::Array(items)@->Array_0.len() == items.len(),
        forall|i: int| 0 <= i < items.len() ==> #[trigger] Json::Array(items)@->Array_0[i] == items[i]@,
{
}

impl Clone for Json {
    fn clone(&self) -> (copy: Json)
        ensures
            copy@ == self@,
        decreases self,
    {
        match self {
            Json::Null => Json::Null,
            Json::Bool(b) => Json::Bool(*b),
            Json::Int(i) => Json::Int(*i),
            Json::Number(t) => Json::Number(t.clone()),
            Json::String(s) => Json::String(s.clone()),
            Json::Array(items) => {
                let mut copies: Vec<Json> = Vec::new();
                let mut i: usize = 0;
                while i < items.len()
                    invariant
                        i <= items.len(),
                        copies.len() == i,
                        *self == Json::Array(*items),
                        forall|k: int| 0 <= k < i ==> copies@[k]@ == items@[k]@,
                    decreases items.len() - i,
                {
                    proof {
                        assert(self->Array_0 == *items);
                        assert(decreases_to!(*self => self->Array_0[i as int]));
                    }
                    copies.push(items[i].clone());
                    i += 1;
                }
                let copy = Json::Array(copies);
                assert(copy@ == self@) by {
                    assert(copy@->Array_0 =~= self@->Array_0);
                }
                copy
            },
            Json::Object(members) => {
                let mut copies: Vec<Member> = Vec::new();
                let mut i: usize = 0;
                while i < members.len()
                    invariant
                        i <= members.len(),
                        copies.len() == i,
                        *self == Json::Object(*members),
                        forall|k: int|
                            0 <= k < i ==> copies@[k].name@ == members@[k].name@
                                && copies@[k].value@ == members@[k].value@,
                    decreases members.len() - i,
                {
                    proof {
                        assert(self->Object_0 == *members);
                        assert(decreases_to!(*self => self->Object_0[i as int].value));
                    }
                    copies.push(
                        Member { name: members[i].name.clone(), value: members[i].value.clone() },
                    );
                    i += 1;
                }
                let copy = Json::Object(copies);
                assert(copy@ == self@) by {
                    assert(copy@->Object_0 =~= self@->Object_0);
                }
                copy
            },
        }
    }
}

/// The document that `serde_json::from_str` reads from a text, or `None`
/// where it reports an error.
pub uninterp spec fn parsed_json(text: Seq<char>) -> Option<JsonModel>;

/// The compact text that `serde_json::to_string` writes for a document.
pub uninterp spec fn json_text(doc: JsonModel) -> Seq<char>;

/// The document of an outside value, variant by variant. A number that is
/// no `i64` is held by the text that `serde_json` writes for it.
#[verifier::external_body]
fn from_value(value: &serde_json::Value) -> Json {
    match value {
        serde_json::Value::Null => Json::Null,
        serde_json::Value::Bool(b) => Json::Bool(*b),
        serde_json::Value::Number(n) => match n.as_i64() {
            Some(i) => Json::Int(i),
            None => Json::Number(n.to_string()),
        },
        serde_json::Value::String(s) => Json::String(s.clone()),
        serde_json::Value::Array(a) => Json::Array(a.iter().map(from_value).collect()),
        serde_json::Value::Object(o) => Json::Object(
            o.iter().map(|(k, v)| Member { name: k.clone(), value: from_value(v) }).collect(),
        ),
    }
}

/// Calls `serde_json::from_str` for a `serde_json::Value`. The result is the
/// document that the named function gives for this text.
#[verifier::external_body]
fn parse_value(text: &str) -> (doc: Option<Json>)
    ensures
        match doc {
            Some(d) => parsed_json(text@) == Some(d@),
            None => parsed_json(text@) is None,
        },
{
    match serde_json::from_str::<serde_json::Value>(text) {
        Ok(value) => Some(from_value(&value)),
        Err(_) => None,
    }
}

/// The outside value of a document, variant by variant. A number that is
/// held by its text is read back by `serde_json`; a text that it does not
/// read as a number gives `null`.
#[verifier::external_body]
fn to_value(doc: &Json) -> serde_json::Value {
    match doc {
        Json::Null => serde_json::Value::Null,
        Json::Bool(b) => serde_json::Value::Bool(*b),
        Json::Int(i) => serde_json::Value::from(*i),
        Json::Number(t) => serde_json::from_str::<serde_json::Number>(t).map_or(
            serde_json::Value::Null,
            serde_json::Value::Number,
        ),
        Json::String(s) => serde_json::Value::String(s.clone()),
        Json::Array(a) => serde_json::Value::Array(a.iter().map(to_value).collect()),
        Json::Object(o) => serde_json::Value::Object(
            o.iter().map(|m| (m.name.clone(), to_value(&m.value))).collect(),
        ),
    }
}

/// Writes a document through `Display` of `serde_json::Value`, which gives
/// the compact text of `serde_json::to_string`.
#[verifier::external_body]
fn write_value(doc: &Json) -> (text: String)
    ensures
        text@ == json_text(doc@),
{
    to_value(doc).to_string()
}

impl Json {
    /// The compact text of this document.
    pub fn to_text(&self) -> (text: String)
        ensures
            text@ == json_text(self@),
    {
        write_value(self)
    }

    /// Reads one JSON document from `text`.
    pub fn parse(text: &str) -> (doc: Option<Json>)
        ensures
            match doc {
                Some(d) => parsed_json(text@) == Some(d@),
                None => parsed_json(text@) is None,
            },
    {
        parse_value(text)
    }

    /// The JSON string with the characters of `s`.
    pub fn string(s: &str) -> (doc: Json)
        ensures
            doc@ == JsonModel::String(s@),
    {
        Json::String(s.to_string())
    }

    /// The value of the member `key`, where this is an object that has one.
    pub fn get(&self, key: &str) -> (value: Option<&Json>)
        ensures
            match value {
                Some(v) => self@.field(key@) == Some(v@),
                None => self@.field(key@) is None,
            },
    {
        match self {
            Json::Object(members) => {
                let mut i: usize = 0;
                while i < members.len()
                    invariant
                        i <= members.len(),
                        *self == Json::Object(*members),
                        self@.field(key@) == lookup_from(self@->Object_0, key@, i as int),
                    decreases members.len() - i,
                {
                    proof {
                        lemma_object_model(*members);
                    }
                    if str_eq(members[i].name.as_str(), key) {
                        return Some(&members[i].value);
                    }
                    i += 1;
                }
                proof {
                    lemma_object_model(*members);
                }
                None
            },
            _ => None,
        }
    }

    /// The number that this document holds, where it is an integer that fits
    /// in an `i64`.
    pub fn as_i64(&self) -> (number: Option<i64>)
        ensures
            match number {
                Some(i) => self@.integer() == Some(i as int),
                None => self@.integer() is None,
            },
    {
        match self {
            Json::Int(i) => Some(*i),
            _ => None,
        }
    }

    /// The characters of this document, where it is a string.
    pub fn as_str(&self) -> (s: Option<&str>)
        ensures
            match s {
                Some(t) => self@.text() == Some(t@),
                None => self@.text() is None,
            },
    {
        match self {
            Json::String(s) => Some(s.as_str()),
            _ => None,
        }
    }

    /// The characters of the member `key`, where this is an object whose
    /// member `key` is a string.
    pub fn get_str(&self, key: &str) -> (s: Option<&str>)
        ensures
            match s {
                Some(t) => self@.text_field(key@) == Some(t@),
                None => self@.text_field(key@) is None,
            },
    {
        match self.get(key) {
            Some(value) => value.as_str(),
            None => None,
        }
    }

    /// Whether this is the JSON `null`.
    pub fn is_null(&self) -> (r: bool)
        ensures
            r == (self@ is Null),
    {
        match self {
            Json::Null => true,
            _ => false,
        }
    }
}

impl Json {
    /// The object that holds `members`, in their order.
    pub fn object(members: Vec<Member>) -> (doc: Json)
        ensures
            doc@ == JsonModel::Object(member_models(members@)),
    {
        proof {
            lemma_object_model(members);
            assert(Json::Object(members)@->Object_0 =~= member_models(members@));
        }
        Json::Object(members)
    }

    /// The array that holds `items`, in their order.
    pub fn array(items: Vec<Json>) -> (doc: Json)
        ensures
            doc@ == JsonModel::Array(item_models(items@)),
    {
        proof {
            lemma_array_model(items);
            assert(Json::Array(items)@->Array_0 =~= item_models(items@));
        }
        Json::Array(items)
    }

    /// The object without members.
    pub fn empty_object() -> (doc: Json)
        ensures
            doc@ == JsonModel::Object(Seq::empty()),
    {
        let members: Vec<Member> = Vec::new();
        let doc = Json::object(members);
        proof {
            assert(member_models(Seq::<Member>::empty()) =~= Seq::<MemberModel>::empty());
        }
        doc
    }

    /// The object with the one member `a`.
    pub fn object1(a: Member) -> (doc: Json)
        ensures
            doc@ == JsonModel::Object(seq![a@]),
    {
        let mut members: Vec<Member> = Vec::new();
        members.push(a);
        let doc = Json::object(members);
        proof {
            assert(member_models(members@) =~= seq![a@]);
        }
        doc
    }

    /// The object with the members `a` and `b`.
    pub fn object2(a: Member, b: Member) -> (doc: Json)
        ensures
            doc@ == JsonModel::Object(seq![a@, b@]),
    {
        let mut members: Vec<Member> = Vec::new();
        members.push(a);
        members.push(b);
        let doc = Json::object(members);
        proof {
            assert(member_models(members@) =~= seq![a@, b@]);
        }
        doc
    }

    /// The object with the members `a`, `b` and `c`.
    pub fn object3(a: Member, b: Member, c: Member) -> (doc: Json)
        ensures
            doc@ == JsonModel::Object(seq![a@, b@, c@]),
    {
        let mut members: Vec<Member> = Vec::new();
        members.push(a);
        members.push(b);
        members.push(c);
        let doc = Json::object(members);
        proof {
            assert(member_models(members@) =~= seq![a@, b@, c@]);
        }
        doc
    }

    /// The array of the JSON strings that hold `texts`, one for one.
    pub fn strings(texts: &Vec<String>) -> (doc: Json)
        ensures
            doc@ == JsonModel::Array(string_models(crate::text::views(texts@))),
    {
        let mut items: Vec<Json> = Vec::new();
        let mut i: usize = 0;
        while i < texts.len()
            invariant
                i <= texts.len(),
                items.len() == i,
                forall|k: int| 0 <= k < i ==> items@[k]@ == JsonModel::String(texts@[k]@),
            decreases texts.len() - i,
        {
            items.push(Json::string(texts[i].as_str()));
            i += 1;
        }
        let doc = Json::array(items);
        proof {
            assert(item_models(items@) =~= string_models(crate::text::views(texts@)));
        }
        doc
    }
}

impl Member {
    /// The member `name` with the value `value`.
    pub fn new(name: &str, value: Json) -> (m: Member)
        ensures
            m@ == entry(name@, value@),
    {
        Member { name: name.to_string(), value }
    }
}

/// Declares `serde_json::Value`, of which nothing is known but that the
/// functions above take and give it.
#[verifier::external_type_specification]
#[verifier::external_body]
pub struct ExValue(serde_json::Value);

} // verus!
