//! JSON values as the protocol code reads them, and the calls into
//! `serde_json` that parse a line and write a string literal.

use vstd::prelude::*;

verus! {

/// A JSON value. A number is kept only as far as the protocol reads
/// numbers: as a 64-bit integer, or `None` for a number that is not one.
#[derive(Debug, PartialEq, Eq)]
pub enum Json {
    Null,
    Bool(bool),
    Number(Option<i64>),
    Text(String),
    List(Vec<Json>),
    Object(Vec<(String, Json)>),
}

/// The mathematical value of a `Json`.
pub enum JsonView {
    Null,
    Bool(bool),
    Number(Option<i64>),
    Text(Seq<char>),
    List(Seq<JsonView>),
    Object(Seq<(Seq<char>, JsonView)>),
}

/// The value that a `Json` stands for.
pub open spec fn json_view(json: Json) -> JsonView
    decreases json,
{
    match json {
        Json::Null => JsonView::Null,
        Json::Bool(b) => JsonView::Bool(b),
        Json::Number(n) => JsonView::Number(n),
        Json::Text(s) => JsonView::Text(s@),
        Json::List(items) => JsonView::List(
            Seq::new(
                items@.len(),
                |i: int|
                    if 0 <= i < items@.len() {
                        json_view(items@[i])
                    } else {
                        JsonView::Null
                    },
            ),
        ),
        Json::Object(members) => JsonView::Object(
            Seq::new(
                members@.len(),
                |i: int|
                    if 0 <= i < members@.len() {
                        (members@[i].0@, json_view(members@[i].1))
                    } else {
                        (Seq::empty(), JsonView::Null)
                    },
            ),
        ),
    }
}

impl DeepView for Json {
    type V = JsonView;

    open spec fn deep_view(&self) -> JsonView {
        json_view(*self)
    }
}

/// The value of the first member named `key` among `members`.
pub open spec fn find_member(members: Seq<(Seq<char>, JsonView)>, key: Seq<char>) -> Option<
    JsonView,
>
    decreases members.len(),
{
    if members.len() == 0 {
        None
    } else if members[0].0 == key {
        Some(members[0].1)
    } else {
        find_member(members.drop_first(), key)
    }
}

impl JsonView {
    /// The member named `key`, if this is an object that has one.
    pub open spec fn member(self, key: Seq<char>) -> Option<JsonView> {
        match self {
            JsonView::Object(members) => find_member(members, key),
            _ => None,
        }
    }

    /// The text, if this is a string.
    pub open spec fn text(self) -> Option<Seq<char>> {
        match self {
            JsonView::Text(s) => Some(s),
            _ => None,
        }
    }

    /// The integer, if this is a number that is one.
    pub open spec fn integer(self) -> Option<i64> {
        match self {
            JsonView::Number(n) => n,
            _ => None,
        }
    }

    /// The items, if this is an array.
    pub open spec fn items(self) -> Option<Seq<JsonView>> {
        match self {
            JsonView::List(items) => Some(items),
            _ => None,
        }
    }
}

/// Makes `serde_json::Value` known as a type whose inside is not looked
/// at: the verified code only carries such a value from the parser to the
/// conversion below.
#[verifier::external_type_specification]
#[verifier::external_body]
pub struct ExValue(serde_json::Value);

/// The value that `serde_json::from_slice` reads from `bytes`, or `None`
/// where it reports an error: the bytes are not one JSON value, nest too
/// deeply, or are followed by anything but white space.
pub uninterp spec fn json_parse(bytes: Seq<u8>) -> Option<JsonView>;

/// The value that a `serde_json::Value` holds.
pub uninterp spec fn json_tree(value: serde_json::Value) -> JsonView;

/// The JSON string literal, quotation marks included, that
/// `serde_json::to_string` writes for `text`.
pub uninterp spec fn json_quoted(text: Seq<char>) -> Seq<char>;

/// Calls `serde_json::from_slice` for a `serde_json::Value`. The contract
/// only names the outcome: a value is returned exactly when the parser
/// accepts the bytes, and it holds what the parser read.
#[verifier::external_body]
fn parse_value(bytes: &[u8]) -> (r: Option<serde_json::Value>)
    ensures
        match r {
            Some(value) => json_parse(bytes@) == Some(json_tree(value)),
            None => json_parse(bytes@) is None,
        },
{
    serde_json::from_slice::<serde_json::Value>(bytes).ok()
}

/// Turns a `serde_json::Value` into a `Json`, variant by variant; a number
/// goes through `serde_json::Number::as_i64`, and the members of an object
/// come in the order in which `serde_json::Map` hands them out. The
/// contract names the result as the value that the `serde_json::Value`
/// holds.
#[verifier::external_body]
fn lift_value(value: serde_json::Value) -> (json: Json)
    ensures
        json.deep_view() == json_tree(value),
{
    match value {
        serde_json::Value::Null => Json::Null,
        serde_json::Value::Bool(b) => Json::Bool(b),
        serde_json::Value::Number(n) => Json::Number(n.as_i64()),
        serde_json::Value::String(s) => Json::Text(s),
        serde_json::Value::Array(items) => Json::List(items.into_iter().map(lift_value).collect()),
        serde_json::Value::Object(members) => Json::Object(
            members.into_iter().map(|(k, v)| (k, lift_value(v))).collect(),
        ),
    }
}

/// Whether `text` holds no line feed.
pub open spec fn single_line(text: Seq<char>) -> bool {
    forall|i: int| 0 <= i < text.len() ==> text[i] != '\n'
}

/// Calls `serde_json::to_string` on a string slice, which cannot fail for
/// one: a string always serializes, and the text is written to memory.
/// The result is the string's JSON literal; it holds no line feed,
/// because the serializer writes every control character as an escape.
#[verifier::external_body]
pub(crate) fn quote_text(text: &str) -> (literal: String)
    ensures
        literal@ == json_quoted(text@),
        single_line(literal@),
{
    serde_json::to_string(text).unwrap_or_default()
}

impl Json {
    /// Parses one JSON value from `bytes`.
    pub fn parse(bytes: &[u8]) -> (r: Option<Json>)
        ensures
            r.deep_view() == json_parse(bytes@),
    {
        match parse_value(bytes) {
            Some(value) => Some(lift_value(value)),
            None => None,
        }
    }

    /// The member named `key`, if this is an object that has one; the
    /// first such member if there are several.
    pub fn get(&self, key: &str) -> (r: Option<&Json>)
        ensures
            r.deep_view() == self.deep_view().member(key@),
    {
        match self {
            Json::Object(members) => {
                let wanted = String::from_str(key);
                let ghost all = self.deep_view()->Object_0;
                let mut i: usize = 0;
                assert(all.skip(0) =~= all);
                while i < members.len()
                    invariant
                        i <= members.len(),
                        wanted@ == key@,
                        all == self.deep_view()->Object_0,
                        self.deep_view() is Object,
                        all.len() == members@.len(),
                        forall|j: int|
                            0 <= j < members@.len() ==> #[trigger] all[j] == (
                                members@[j].0@,
                                json_view(members@[j].1),
                            ),
                        find_member(all, key@) == find_member(all.skip(i as int), key@),
                    decreases members.len() - i,
                {
                    if members[i].0 == wanted {
                        return Some(&members[i].1);
                    }
                    assert(all.skip(i as int).drop_first() =~= all.skip(i as int + 1));
                    i += 1;
                }
                None
            },
            _ => None,
        }
    }

    /// The text, if this is a string.
    pub fn as_text(&self) -> (r: Option<&String>)
        ensures
            r.deep_view() == self.deep_view().text(),
    {
        match self {
            Json::Text(s) => Some(s),
            _ => None,
        }
    }

    /// The integer, if this is a number that is one.
    pub fn as_int(&self) -> (r: Option<i64>)
        ensures
            r == self.deep_view().integer(),
    {
        match self {
            Json::Number(n) => *n,
            _ => None,
        }
    }

    /// The items, if this is an array.
    pub fn as_list(&self) -> (r: Option<&Vec<Json>>)
        ensures
            r.deep_view() == self.deep_view().items(),
    {
        match self {
            Json::List(items) => {
                assert(items.deep_view() =~= self.deep_view()->List_0);
                Some(items)
            },
            _ => None,
        }
    }

    /// Whether this is `null`.
    pub fn is_null(&self) -> (r: bool)
        ensures
            r == (self.deep_view() is Null),
    {
        match self {
            Json::Null => true,
            _ => false,
        }
    }
}

impl Clone for Json {
    fn clone(&self) -> (copy: Json)
        ensures
            copy.deep_view() == self.deep_view(),
        decreases self,
    {
        match self {
            Json::Null => Json::Null,
            Json::Bool(b) => Json::Bool(*b),
            Json::Number(n) => Json::Number(*n),
            Json::Text(s) => Json::Text(s.clone()),
            Json::List(items) => {
                let mut copy: Vec<Json> = Vec::new();
                let mut i: usize = 0;
                while i < items.len()
                    invariant
                        i <= items.len(),
                        copy@.len() == i,
                        *self == Json::List(*items),
                        forall|j: int|
                            0 <= j < i ==> json_view(#[trigger] copy@[j]) == json_view(items@[j]),
                    decreases items.len() - i,
                {
                    proof {
                        vstd::std_specs::vec::axiom_vec_index_decreases(*items, i as int);
                        assert(decreases_to!(*self => self->List_0));
                    }
                    copy.push(items[i].clone());
                    i += 1;
                }
                let copy = Json::List(copy);
                assert(copy.deep_view()->List_0 =~= self.deep_view()->List_0);
                copy
            },
            Json::Object(members) => {
                let mut copy: Vec<(String, Json)> = Vec::new();
                let mut i: usize = 0;
                while i < members.len()
                    invariant
                        i <= members.len(),
                        copy@.len() == i,
                        *self == Json::Object(*members),
                        forall|j: int|
                            0 <= j < i ==> (#[trigger] copy@[j]).0@ == members@[j].0@ && json_view(
                                copy@[j].1,
                            ) == json_view(members@[j].1),
                    decreases members.len() - i,
                {
                    proof {
                        vstd::std_specs::vec::axiom_vec_index_decreases(*members, i as int);
                        assert(decreases_to!(*self => self->Object_0));
                        assert(decreases_to!(members[i as int] => members[i as int].1));
                    }
                    copy.push((members[i].0.clone(), members[i].1.clone()));
                    i += 1;
                }
                let copy = Json::Object(copy);
                assert(copy.deep_view()->Object_0 =~= self.deep_view()->Object_0);
                copy
            },
        }
    }
}

} // verus!
