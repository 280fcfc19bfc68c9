//! JSON values as the client builds and reads them.
use serde_json::Value;
use vstd::prelude::*;

verus! {

/// A JSON number, held without loss.
#[derive(Clone, Copy, Debug, PartialEq, Eq, Structural)]
pub enum JsonNumber {
    /// A non-negative integer.
    Unsigned(u64),
    /// A negative integer.
    Signed(i64),
    /// Any other number, by the bit pattern of its IEEE 754 binary64 value.
    Binary64(u64),
}

/// A JSON value.
#[derive(Debug, PartialEq, Eq)]
pub enum Json {
    Null,
    Bool(bool),
    Number(JsonNumber),
    Str(String),
    Array(Vec<Json>),
    /// An object, as its members in order.
    Object(Vec<(String, Json)>),
}

/// The mathematical form of a JSON value, with strings as `char` sequences.
pub enum JsonModel {
    Null,
    Bool(bool),
    Number(JsonNumber),
    Str(Seq<char>),
    Array(Seq<JsonModel>),
    Object(Seq<(Seq<char>, JsonModel)>),
}

/// The mathematical form of `j`.
pub open spec fn json_model(j: Json) -> JsonModel
    decreases j, 1int,
{
    match j {
        Json::Null => JsonModel::Null,
        Json::Bool(b) => JsonModel::Bool(b),
        Json::Number(n) => JsonModel::Number(n),
        Json::Str(s) => JsonModel::Str(s@),
        Json::Array(items) => JsonModel::Array(items_model(items@)),
        Json::Object(members) => JsonModel::Object(members_model(members@)),
    }
}

/// The mathematical forms of the items of an array.
pub open spec fn items_model(items: Seq<Json>) -> Seq<JsonModel>
    decreases items, 0int,
{
    if items.len() == 0 {
        Seq::empty()
    } else {
        seq![json_model(items[0])] + items_model(items.drop_first())
    }
}

/// The mathematical forms of the members of an object.
pub open spec fn members_model(members: Seq<(String, Json)>) -> Seq<(Seq<char>, JsonModel)>
    decreases members, 0int,
{
    if members.len() == 0 {
        Seq::empty()
    } else {
        seq![(members[0].0@, json_model(members[0].1))] + members_model(members.drop_first())
    }
}


impl View for Json {
    type V = JsonModel;

    open spec fn view(&self) -> JsonModel {
        json_model(*self)
    }
}

/// `null` for no text, else the JSON string of the text.
pub open spec fn text_or_null(t: Option<Seq<char>>) -> JsonModel {
    match t {
        Some(s) => JsonModel::Str(s),
        None => JsonModel::Null,
    }
}

/// The text of an optional string.
pub open spec fn opt_text(o: Option<String>) -> Option<Seq<char>> {
    match o {
        Some(s) => Some(s@),
        None => None,
    }
}

/// The value of the first member named `key` among `members`.
pub open spec fn first_member(members: Seq<(Seq<char>, JsonModel)>, key: Seq<char>) -> Option<JsonModel>
    decreases members.len(),
{
    if members.len() == 0 {
        None
    } else if members[0].0 == key {
        Some(members[0].1)
    } else {
        first_member(members.drop_first(), key)
    }
}

/// The member of `j` named `key`: `None` when `j` is no object or has no such member.
pub open spec fn member(j: JsonModel, key: Seq<char>) -> Option<JsonModel> {
    match j {
        JsonModel::Object(members) => first_member(members, key),
        _ => None,
    }
}

/// The value reached from `j` by following the member names of `path`, when each exists.
pub open spec fn member_path(j: JsonModel, path: Seq<Seq<char>>) -> Option<JsonModel>
    decreases path.len(),
{
    if path.len() == 0 {
        Some(j)
    } else {
        match member(j, path[0]) {
            Some(inner) => member_path(inner, path.drop_first()),
            None => None,
        }
    }
}

/// The text of `j` when it is a JSON string.
pub open spec fn text_of(j: JsonModel) -> Option<Seq<char>> {
    match j {
        JsonModel::Str(s) => Some(s),
        _ => None,
    }
}

/// The text at the end of `path` inside `j`, when there is a string there.
pub open spec fn text_at(j: JsonModel, path: Seq<Seq<char>>) -> Option<Seq<char>> {
    match member_path(j, path) {
        Some(v) => text_of(v),
        None => None,
    }
}

#[verifier::external_type_specification]
#[verifier::external_body]
pub struct ExValue(serde_json::Value);

/// What `serde_json::from_str::<serde_json::Value>` makes of `text`: the value it reads, in
/// the library's form, or the text (`to_string`) of its error.
pub uninterp spec fn json_reading(text: Seq<char>) -> Result<JsonModel, Seq<char>>;

/// What `serde_json::to_string` writes for the `serde_json::Value` whose form is `value`:
/// `None` when it returns an error.
pub uninterp spec fn compact_json(value: JsonModel) -> Option<Seq<char>>;

#[verifier::external_type_specification]
#[verifier::external_body]
pub struct ExNumber(serde_json::Number);

/// The library's form of a `serde_json::Number`: `Unsigned` when `as_u64` gives a value, else
/// `Signed` when `as_i64` does, else the bits of what `as_f64` gives. Nothing is claimed of it:
/// it only carries the number over.
#[verifier::external_body]
fn json_number(n: &serde_json::Number) -> JsonNumber {
    match (n.as_u64(), n.as_i64()) {
        (Some(u), _) => JsonNumber::Unsigned(u),
        (None, Some(i)) => JsonNumber::Signed(i),
        (None, None) => JsonNumber::Binary64(n.as_f64().map_or(0, |x| x.to_bits())),
    }
}

/// The library's form of a `serde_json::Value`, variant by variant, with the items of an array
/// and the members of an object in the order in which serde_json hands them out. Nothing is
/// claimed of it: it only carries the value over, and `parse_response_body` in `client` states
/// what the value is.
#[verifier::external_body]
pub(crate) fn json_from_value(v: &Value) -> Json {
    match v {
        Value::Null => Json::Null,
        Value::Bool(b) => Json::Bool(*b),
        Value::Number(n) => Json::Number(json_number(n)),
        Value::String(s) => Json::Str(s.clone()),
        Value::Array(items) => Json::Array(items.iter().map(json_from_value).collect()),
        Value::Object(m) => Json::Object(m.iter().map(|(k, x)| (k.clone(), json_from_value(x))).collect()),
    }
}

/// The form of each member of an object, one by one.
pub proof fn lemma_members_model(members: Seq<(String, Json)>)
    ensures
        members_model(members).len() == members.len(),
        forall|k: int|
            0 <= k < members.len() ==> #[trigger] members_model(members)[k] == (
            members[k].0@,
            json_model(members[k].1),
        ),
    decreases members.len(),
{
    if members.len() > 0 {
        lemma_members_model(members.drop_first());
        assert forall|k: int| 0 <= k < members.len() implies #[trigger] members_model(members)[k]
            == (members[k].0@, json_model(members[k].1)) by {
            if k > 0 {
                assert(members.drop_first()[k - 1] == members[k]);
            }
        }
    }
}

impl Json {
    /// The member named `key`, when `self` is an object that has one.
    pub fn get<'a>(&'a self, key: &str) -> (r: Option<&'a Json>)
        ensures
            match r {
                Some(v) => member(self@, key@) == Some(v@),
                None => member(self@, key@) is None,
            },
    {
        match self {
            Json::Object(members) => {
                let ghost m = members_model(members@);
                proof {
                    lemma_members_model(members@);
                    assert(m.skip(0) =~= m);
                }
                let mut i: usize = 0;
                while i < members.len()
                    invariant
                        m == members_model(members@),
                        m.len() == members@.len(),
                        forall|k: int|
                            0 <= k < members@.len() ==> #[trigger] m[k] == (
                            members@[k].0@,
                            json_model(members@[k].1),
                        ),
                        i <= members.len(),
                        first_member(m, key@) == first_member(m.skip(i as int), key@),
                        json_model(*self) == JsonModel::Object(m),
                    decreases members.len() - i,
                {
                    assert(m.skip(i as int)[0] == m[i as int]);
                    if crate::text::str_eq(members[i].0.as_str(), key) {
                        return Some(&members[i].1);
                    }
                    assert(m.skip(i as int).drop_first() =~= m.skip(i + 1));
                    i = i + 1;
                }
                None
            },
            _ => None,
        }
    }

    /// The text of `self` when it is a JSON string.
    pub fn as_str(&self) -> (r: Option<&str>)
        ensures
            match r {
                Some(s) => text_of(self@) == Some(s@),
                None => text_of(self@) is None,
            },
    {
        match self {
            Json::Str(s) => Some(s.as_str()),
            _ => None,
        }
    }
}

} // verus!
