//! JSON documents, as the thread files hold them and the JSON-RPC peers send them.
use vstd::prelude::*;
use vstd::utf8::{decode_utf8, valid_utf8};
use crate::text::{optional_str, same_text, trimmed};

verus! {

/// A number that is no `i64`, kept as the text it is written with.
pub struct WideNumber {
    text: String,
}

impl View for WideNumber {
    type V = Seq<char>;

    closed spec fn view(&self) -> Seq<char> {
        self.text@
    }
}

/// A JSON document.
pub enum Json {
    Null,
    Bool(bool),
    Int(i64),
    Number(WideNumber),
    Text(String),
    Array(Vec<Json>),
    Object(Vec<(String, Json)>),
}

/// What a JSON document says, with its strings as sequences of characters.
pub enum JsonModel {
    Null,
    Bool(bool),
    Int(i64),
    Number(Seq<char>),
    Text(Seq<char>),
    Array(Seq<JsonModel>),
    Object(Seq<(Seq<char>, JsonModel)>),
}

/// What a JSON document says.
pub open spec fn document_model(json: Json) -> JsonModel
    decreases json,
{
    match json {
        Json::Null => JsonModel::Null,
        Json::Bool(b) => JsonModel::Bool(b),
        Json::Int(n) => JsonModel::Int(n),
        Json::Number(n) => JsonModel::Number(n@),
        Json::Text(s) => JsonModel::Text(s@),
        Json::Array(items) => JsonModel::Array(
            Seq::new(
                items@.len(),
                |i: int|
                    if 0 <= i < items@.len() {
                        document_model(items@[i])
                    } else {
                        JsonModel::Null
                    },
            ),
        ),
        Json::Object(members) => JsonModel::Object(
            Seq::new(
                members@.len(),
                |i: int|
                    if 0 <= i < members@.len() {
                        (members@[i].0@, document_model(members@[i].1))
                    } else {
                        (Seq::empty(), JsonModel::Null)
                    },
            ),
        ),
    }
}

impl View for Json {
    type V = JsonModel;

    open spec fn view(&self) -> JsonModel {
        document_model(*self)
    }
}

/// The value of the last of `members` that is called `key`.
pub open spec fn find_member(members: Seq<(Seq<char>, JsonModel)>, key: Seq<char>) -> Option<
    JsonModel,
>
    decreases members.len(),
{
    if members.len() == 0 {
        None
    } else if members.last().0 == key {
        Some(members.last().1)
    } else {
        find_member(members.drop_last(), key)
    }
}

impl JsonModel {
    /// The member of an object, the last one where several have that name;
    /// nothing else has members.
    pub open spec fn get(self, key: Seq<char>) -> Option<JsonModel> {
        match self {
            JsonModel::Object(members) => find_member(members, key),
            _ => None,
        }
    }

    /// The member called `first` or, where there is none, the one called `second`.
    pub open spec fn get_either(self, first: Seq<char>, second: Seq<char>) -> Option<JsonModel> {
        match self.get(first) {
            Some(value) => Some(value),
            None => self.get(second),
        }
    }

    /// The characters of a string.
    pub open spec fn as_text(self) -> Option<Seq<char>> {
        match self {
            JsonModel::Text(s) => Some(s),
            _ => None,
        }
    }

    /// The elements of an array.
    pub open spec fn as_array(self) -> Option<Seq<JsonModel>> {
        match self {
            JsonModel::Array(items) => Some(items),
            _ => None,
        }
    }

    /// The string that the member `key` is, if there is such a member and it is one.
    pub open spec fn get_text(self, key: Seq<char>) -> Option<Seq<char>> {
        match self.get(key) {
            Some(value) => value.as_text(),
            None => None,
        }
    }
}

/// What a document that was read says, or why none was read.
pub open spec fn read_model(read: Result<Json, String>) -> Result<JsonModel, Seq<char>> {
    match read {
        Ok(value) => Ok(value@),
        Err(cause) => Err(cause@),
    }
}

/// What an optional reference to a document says.
pub open spec fn optional_ref_model(json: Option<&Json>) -> Option<JsonModel> {
    match json {
        Some(value) => Some(value@),
        None => None,
    }
}

impl Json {
    /// The member of an object that is called `key`, the last one where there are
    /// several; `None` for anything that is no object.
    pub fn get(&self, key: &str) -> (res: Option<&Json>)
        ensures
            optional_ref_model(res) == self@.get(key@),
    {
        match self {
            Json::Object(members) => {
                let ghost model = self@->Object_0;
                let mut i: usize = members.len();
                assert(model.take(i as int) =~= model);
                while i > 0
                    invariant
                        i <= members@.len(),
                        model.len() == members@.len(),
                        forall|k: int|
                            0 <= k < members@.len() ==> #[trigger] model[k] == (
                                members@[k].0@,
                                members@[k].1@,
                            ),
                        find_member(model, key@) == find_member(model.take(i as int), key@),
                        self@ == JsonModel::Object(model),
                    decreases i,
                {
                    assert(model.take(i as int).last() == model[i - 1]);
                    if same_text(members[i - 1].0.as_str(), key) {
                        return Some(&members[i - 1].1);
                    }
                    assert(model.take(i as int).drop_last() =~= model.take(i - 1));
                    i -= 1;
                }
                None
            },
            _ => None,
        }
    }

    /// The member called `first` or, where there is none, the one called `second`.
    pub fn get_either(&self, first: &str, second: &str) -> (res: Option<&Json>)
        ensures
            optional_ref_model(res) == self@.get_either(first@, second@),
    {
        match self.get(first) {
            Some(value) => Some(value),
            None => self.get(second),
        }
    }

    /// The characters of a string; `None` for anything else.
    pub fn as_text(&self) -> (res: Option<&str>)
        ensures
            optional_str(res) == self@.as_text(),
    {
        match self {
            Json::Text(s) => Some(s.as_str()),
            _ => None,
        }
    }

    /// The elements of an array; `None` for anything else.
    pub fn as_array(&self) -> (res: Option<&Vec<Json>>)
        ensures
            match (res, self@.as_array()) {
                (Some(items), Some(models)) => {
                    &&& items@.len() == models.len()
                    &&& forall|i: int| 0 <= i < items@.len() ==> #[trigger] items@[i]@ == models[i]
                },
                (None, None) => true,
                _ => false,
            },
    {
        match self {
            Json::Array(items) => Some(items),
            _ => None,
        }
    }

    /// The string that the member `key` is, if there is such a member and it is one.
    pub fn get_text(&self, key: &str) -> (res: Option<&str>)
        ensures
            optional_str(res) == self@.get_text(key@),
    {
        match self.get(key) {
            Some(value) => value.as_text(),
            None => None,
        }
    }

    /// Whether this is the integer `n`.
    pub fn is_int(&self, n: i64) -> (res: bool)
        ensures
            res == (self@ == JsonModel::Int(n)),
    {
        match self {
            Json::Int(m) => *m == n,
            _ => false,
        }
    }
}

/// What a document stands for: as what it says, but for the order of the members
/// of objects, and without members that a later one of the same name replaces.
pub enum JsonValue {
    Null,
    Bool(bool),
    Int(i64),
    Number(Seq<char>),
    Text(Seq<char>),
    Array(Seq<JsonValue>),
    Object(Map<Seq<char>, JsonValue>),
}

/// What a document stands for.
pub open spec fn value_of(document: JsonModel) -> JsonValue
    decreases document,
{
    match document {
        JsonModel::Null => JsonValue::Null,
        JsonModel::Bool(b) => JsonValue::Bool(b),
        JsonModel::Int(n) => JsonValue::Int(n),
        JsonModel::Number(n) => JsonValue::Number(n),
        JsonModel::Text(text) => JsonValue::Text(text),
        JsonModel::Array(items) => JsonValue::Array(
            Seq::new(
                items.len(),
                |i: int|
                    if 0 <= i < items.len() {
                        value_of(items[i])
                    } else {
                        JsonValue::Null
                    },
            ),
        ),
        JsonModel::Object(members) => JsonValue::Object(value_of_members(members)),
    }
}

/// What the members of an object stand for.
pub open spec fn value_of_members(members: Seq<(Seq<char>, JsonModel)>) -> Map<
    Seq<char>,
    JsonValue,
>
    decreases members,
{
    if members.len() == 0 {
        Map::empty()
    } else {
        value_of_members(members.drop_last()).insert(
            members[members.len() - 1].0,
            value_of(members[members.len() - 1].1),
        )
    }
}

/// What stands under a key of an object is what its member of that name stands
/// for, so documents that stand for the same have the same members.
pub proof fn members_are_found_by_their_value(
    members: Seq<(Seq<char>, JsonModel)>,
    key: Seq<char>,
)
    ensures
        value_of_members(members).contains_key(key) <==> find_member(members, key) is Some,
        find_member(members, key) matches Some(member) ==> value_of_members(members)[key]
            == value_of(member),
    decreases members.len(),
{
    if members.len() > 0 {
        members_are_found_by_their_value(members.drop_last(), key);
    }
}

/// The number of arrays and objects within one another up to which
/// `serde_json` reads a text.
pub const READ_DEPTH: u64 = 127;

/// Whether the arrays and objects of a document stand within one another at most
/// `depth` deep, and each of its numbers is a whole one.
pub open spec fn is_plain(document: JsonModel, depth: nat) -> bool
    decreases document,
{
    match document {
        JsonModel::Number(text) => forall|i: int|
            0 <= i < text.len() ==> '0' <= #[trigger] text[i] <= '9',
        JsonModel::Array(items) => depth > 0 && forall|i: int|
            0 <= i < items.len() ==> #[trigger] is_plain(items[i], (depth - 1) as nat),
        JsonModel::Object(members) => depth > 0 && forall|i: int|
            0 <= i < members.len() ==> #[trigger] is_plain(members[i].1, (depth - 1) as nat),
        _ => true,
    }
}

/// Whether what is read from `bytes` stands for the same as a document, where this
/// nests no deeper than documents are read and its numbers are whole.
pub open spec fn reads_back(bytes: Seq<u8>, document: JsonModel) -> bool {
    is_plain(document, READ_DEPTH as nat) ==> match parsed_json(decode_utf8(bytes)) {
        Ok(read) => value_of(read) == value_of(document),
        Err(_) => false,
    }
}

/// What the members of an object say.
pub open spec fn member_models(members: Seq<(String, Json)>) -> Seq<(Seq<char>, JsonModel)> {
    members.map_values(|member: (String, Json)| (member.0@, member.1@))
}

/// An object of these members.
pub fn object(members: Vec<(String, Json)>) -> (res: Json)
    ensures
        res@ == JsonModel::Object(member_models(members@)),
        res == Json::Object(members),
{
    let res = Json::Object(members);
    assert(res@->Object_0 =~= member_models(members@));
    res
}

/// A string.
pub fn text_value(text: &str) -> (res: Json)
    ensures
        res@ == JsonModel::Text(text@),
{
    Json::Text(text.to_owned())
}

/// `serde_json::Value`, which `serde_json` reads documents into and writes them from.
#[verifier::external_type_specification]
#[verifier::external_body]
pub struct ExValue(serde_json::Value);

/// The document that `serde_json::from_str` reads from a text or, where it reads
/// none, the text of its error.
pub uninterp spec fn parsed_json(text: Seq<char>) -> Result<JsonModel, Seq<char>>;

/// The compact text, as bytes, that `serde_json::to_vec` writes of a document.
pub uninterp spec fn json_bytes(document: JsonModel) -> Seq<u8>;

/// The indented text that `serde_json::to_string_pretty` writes of a document.
pub uninterp spec fn json_pretty(document: JsonModel) -> Seq<char>;

/// Turns a `serde_json::Value` into a `Json`, one for one: each kind of value
/// into the variant of that kind, a number by `Number::as_i64` where that gives
/// one and by its text where not, an object member by member. Nothing is
/// promised of it here: `parse_json` says what comes of a text.
#[verifier::external_body]
fn json_of_value(value: serde_json::Value) -> Json {
    match value {
        serde_json::Value::Null => Json::Null,
        serde_json::Value::Bool(b) => Json::Bool(b),
        serde_json::Value::Number(n) => match n.as_i64() {
            Some(i) => Json::Int(i),
            None => Json::Number(WideNumber { text: n.to_string() }),
        },
        serde_json::Value::String(s) => Json::Text(s),
        serde_json::Value::Array(a) => Json::Array(a.into_iter().map(json_of_value).collect()),
        serde_json::Value::Object(o) => {
            Json::Object(o.into_iter().map(|(k, v)| (k, json_of_value(v))).collect())
        },
    }
}

/// Turns a `Json` back into a `serde_json::Value`, one for one. The text of a
/// `WideNumber` was written by `serde_json` itself, so `serde_json` reads it.
/// Nothing is promised of it here: `encode_json` and `pretty_json` say what is
/// written.
#[verifier::external_body]
fn value_of_json(json: &Json) -> serde_json::Value {
    match json {
        Json::Null => serde_json::Value::Null,
        Json::Bool(b) => serde_json::Value::Bool(*b),
        Json::Int(n) => serde_json::Value::from(*n),
        Json::Number(n) => n.text.parse().unwrap(),
        Json::Text(s) => serde_json::Value::String(s.clone()),
        Json::Array(a) => serde_json::Value::Array(a.iter().map(value_of_json).collect()),
        Json::Object(o) => {
            serde_json::Value::Object(o.iter().map(|(k, v)| (k.clone(), value_of_json(v))).collect())
        },
    }
}

/// Calls `serde_json::from_str`: whether a text is a JSON document, which it is,
/// and what is said of it where it is none, depends on the text alone.
#[verifier::external_body]
pub(crate) fn parse_json(text: &str) -> (res: Result<Json, String>)
    ensures
        read_model(res) == parsed_json(text@),
{
    serde_json::from_str(text).map(json_of_value).map_err(|error| error.to_string())
}

/// Calls `serde_json::to_vec`, which does not fail on a document: the bytes
/// depend on the document alone, are UTF-8 and at least one, and there is no line
/// feed among them and no white space around them, because the compact form has
/// none and a line feed in a string is escaped. Where the document nests no
/// deeper than `serde_json` reads and its numbers are whole, `from_str` reads from
/// the bytes a document that stands for the same. What it reads of other numbers
/// is left unsaid.
#[verifier::external_body]
pub(crate) fn encode_json(json: &Json) -> (res: Vec<u8>)
    ensures
        res@ == json_bytes(json@),
        forall|i: int| 0 <= i < res@.len() ==> #[trigger] res@[i] != 10u8,
        res@.len() > 0,
        valid_utf8(res@),
        trimmed(decode_utf8(res@)) == decode_utf8(res@),
        reads_back(res@, json@),
{
    serde_json::to_vec(&value_of_json(json)).unwrap()
}

/// Calls `serde_json::to_string_pretty`, which does not fail on a document: the
/// text depends on the document alone.
#[verifier::external_body]
pub(crate) fn pretty_json(json: &Json) -> (res: String)
    ensures
        res@ == json_pretty(json@),
{
    serde_json::to_string_pretty(&value_of_json(json)).unwrap()
}

/// What is found under a name is the last member of that name.
pub proof fn the_last_member_of_a_name_is_found(
    members: Seq<(Seq<char>, JsonModel)>,
    i: int,
)
    requires
        0 <= i < members.len(),
        forall|j: int| i < j < members.len() ==> (#[trigger] members[j]).0 != members[i].0,
    ensures
        JsonModel::Object(members).get(members[i].0) == Some(members[i].1),
    decreases members.len(),
{
    if i < members.len() - 1 {
        let fewer = members.drop_last();
        assert(members[members.len() - 1].0 != members[i].0);
        assert forall|j: int| i < j < fewer.len() implies (#[trigger] fewer[j]).0 != fewer[i].0 by {
            assert(fewer[j] == members[j]);
        }
        the_last_member_of_a_name_is_found(fewer, i);
    }
}

/// Nothing is found under a name that no member has, nor in what is no object.
pub proof fn what_has_no_such_member_gives_none(document: JsonModel, key: Seq<char>)
    requires
        document matches JsonModel::Object(members) ==> forall|j: int|
            0 <= j < members.len() ==> (#[trigger] members[j]).0 != key,
    ensures
        document.get(key) is None,
        document.get_text(key) is None,
{
    if let JsonModel::Object(members) = document {
        no_member_no_value(members, key);
    }
}

proof fn no_member_no_value(members: Seq<(Seq<char>, JsonModel)>, key: Seq<char>)
    requires
        forall|j: int| 0 <= j < members.len() ==> (#[trigger] members[j]).0 != key,
    ensures
        find_member(members, key) is None,
    decreases members.len(),
{
    if members.len() > 0 {
        assert(members[members.len() - 1].0 != key);
        let fewer = members.drop_last();
        assert forall|j: int| 0 <= j < fewer.len() implies (#[trigger] fewer[j]).0 != key by {
            assert(fewer[j] == members[j]);
        }
        no_member_no_value(fewer, key);
    }
}

/// Of two names the first goes before the second; a string is read from a member
/// that is one, and an array from what is one.
pub proof fn members_are_read_by_name_and_kind(
    document: JsonModel,
    first: Seq<char>,
    second: Seq<char>,
    text: Seq<char>,
    items: Seq<JsonModel>,
)
    ensures
        document.get(first) is Some ==> document.get_either(first, second) == document.get(first),
        document.get(first) is None ==> document.get_either(first, second) == document.get(second),
        document.get_text(first) == Some(text) <==> document.get(first) == Some(
            JsonModel::Text(text),
        ),
        document.as_text() == Some(text) <==> document == JsonModel::Text(text),
        document.as_array() == Some(items) <==> document == JsonModel::Array(items),
{
}

/// A document says what it holds, each part at its place.
pub proof fn documents_say_what_they_hold(json: Json)
    ensures
        match json {
            Json::Null => json@ == JsonModel::Null,
            Json::Bool(b) => json@ == JsonModel::Bool(b),
            Json::Int(n) => json@ == JsonModel::Int(n),
            Json::Number(n) => json@ == JsonModel::Number(n@),
            Json::Text(text) => json@ == JsonModel::Text(text@),
            Json::Array(items) => {
                &&& json@ matches JsonModel::Array(models)
                &&& models.len() == items@.len()
                &&& forall|i: int| 0 <= i < items@.len() ==> #[trigger] models[i] == items@[i]@
            },
            Json::Object(members) => {
                &&& json@ matches JsonModel::Object(models)
                &&& models.len() == members@.len()
                &&& forall|i: int|
                    0 <= i < members@.len() ==> #[trigger] models[i] == (
                        members@[i].0@,
                        members@[i].1@,
                    )
            },
        },
{
}

/// What was read says what it holds, and so do the members of an object.
pub proof fn what_was_read_says_what_it_holds(
    read: Result<Json, String>,
    found: Option<&Json>,
    members: Seq<(String, Json)>,
    i: int,
)
    requires
        0 <= i < members.len(),
    ensures
        read matches Ok(json) ==> read_model(read) == Ok::<JsonModel, Seq<char>>(json@),
        read matches Err(cause) ==> read_model(read) == Err::<JsonModel, Seq<char>>(cause@),
        found matches Some(json) ==> optional_ref_model(found) == Some(json@),
        found is None ==> optional_ref_model(found) is None,
        member_models(members).len() == members.len(),
        member_models(members)[i] == (members[i].0@, members[i].1@),
{
}

} // verus!
