//! JSON documents as a tree of plain values, and the reading of JSON text.

use crate::text::signed_decimal;
use crate::text::signed_decimal_of;
use vstd::prelude::*;

verus! {

/// A JSON document. A number is held as its decimal text, an object as the
/// list of its members.
#[derive(Debug, PartialEq, Eq)]
pub enum Json {
    Null,
    Bool(bool),
    Number(String),
    String(String),
    Array(Vec<Json>),
    Object(Vec<(String, Json)>),
}

/// The mathematical value of a [`Json`] document.
pub enum JsonTree {
    Null,
    Bool(bool),
    Number(Seq<char>),
    String(Seq<char>),
    Array(Seq<JsonTree>),
    Object(Seq<(Seq<char>, JsonTree)>),
}

/// The tree of values that a document holds.
pub open spec fn tree_of(json: Json) -> JsonTree
    decreases json,
{
    match json {
        Json::Null => JsonTree::Null,
        Json::Bool(b) => JsonTree::Bool(b),
        Json::Number(n) => JsonTree::Number(n@),
        Json::String(s) => JsonTree::String(s@),
        Json::Array(items) => JsonTree::Array(
            Seq::new(
                items@.len(),
                |i: int|
                    if 0 <= i < items@.len() {
                        tree_of(items@[i])
                    } else {
                        JsonTree::Null
                    },
            ),
        ),
        Json::Object(members) => JsonTree::Object(
            Seq::new(
                members@.len(),
                |i: int|
                    if 0 <= i < members@.len() {
                        (members@[i].0@, tree_of(members@[i].1))
                    } else {
                        (Seq::empty(), JsonTree::Null)
                    },
            ),
        ),
    }
}

impl View for Json {
    type V = JsonTree;

    open spec fn view(&self) -> JsonTree {
        tree_of(*self)
    }
}

impl DeepView for Json {
    type V = JsonTree;

    open spec fn deep_view(&self) -> JsonTree {
        tree_of(*self)
    }
}

/// An array holds the trees of its items.
pub proof fn lemma_array_tree(items: Vec<Json>)
    ensures
        Json::Array(items)@ == JsonTree::Array(items.deep_view()),
{
    assert(Json::Array(items)@->Array_0 =~= items.deep_view());
}

/// An object holds the names and the trees of its members.
pub proof fn lemma_object_tree(members: Vec<(String, Json)>)
    ensures
        Json::Object(members)@ == JsonTree::Object(members.deep_view()),
{
    assert(Json::Object(members)@->Object_0 =~= members.deep_view());
}

/// The document type of `serde_json`, carried between reading and lifting.
#[verifier::external_type_specification]
#[verifier::external_body]
pub struct ExValue(serde_json::Value);

/// The document that `serde_json::from_str` reads from a text, where it
/// accepts the text.
pub uninterp spec fn json_from_text(text: Seq<char>) -> Option<JsonTree>;

/// The tree that a `serde_json::Value` holds.
pub uninterp spec fn value_tree(value: serde_json::Value) -> JsonTree;

/// `serde_json::from_str` at `serde_json::Value`: the outcome depends on the
/// text alone. It is an error where `serde_json` does not accept the text,
/// which it hands on as the `Display` text of its error.
#[verifier::external_body]
fn read_value(text: &str) -> (r: Result<serde_json::Value, String>)
    ensures
        match r {
            Ok(value) => json_from_text(text@) == Some(value_tree(value)),
            Err(_) => json_from_text(text@) is None,
        },
{
    serde_json::from_str::<serde_json::Value>(text).map_err(|e| e.to_string())
}

/// Copies a `serde_json::Value` into a [`Json`], variant by variant: a number
/// by its `Display` text, the members of an object in the order in which
/// `serde_json::Map::iter` yields them.
#[verifier::external_body]
fn lift(value: &serde_json::Value) -> (json: Json)
    ensures
        json@ == value_tree(*value),
{
    match value {
        serde_json::Value::Null => Json::Null,
        serde_json::Value::Bool(b) => Json::Bool(*b),
        serde_json::Value::Number(n) => Json::Number(n.to_string()),
        serde_json::Value::String(s) => Json::String(s.clone()),
        serde_json::Value::Array(a) => Json::Array(a.iter().map(lift).collect()),
        serde_json::Value::Object(m) => Json::Object(
            m.iter().map(|(k, v)| (k.clone(), lift(v))).collect(),
        ),
    }
}

/// The first member named `key` among `members[from..]`.
pub open spec fn member_from(members: Seq<(Seq<char>, JsonTree)>, key: Seq<char>, from: int)
    -> Option<JsonTree>
    decreases members.len() - from,
{
    if from < 0 || from >= members.len() {
        None
    } else if members[from].0 == key {
        Some(members[from].1)
    } else {
        member_from(members, key, from + 1)
    }
}

impl JsonTree {
    /// The first member named `key`, where this is an object that has one.
    pub open spec fn get(self, key: Seq<char>) -> Option<JsonTree> {
        match self {
            JsonTree::Object(members) => member_from(members, key, 0),
            _ => None,
        }
    }

    /// The text, where this is a string.
    pub open spec fn as_str(self) -> Option<Seq<char>> {
        match self {
            JsonTree::String(s) => Some(s),
            _ => None,
        }
    }

    /// The truth value, where this is one.
    pub open spec fn as_bool(self) -> Option<bool> {
        match self {
            JsonTree::Bool(b) => Some(b),
            _ => None,
        }
    }

    /// The items, where this is an array.
    pub open spec fn as_array(self) -> Option<Seq<JsonTree>> {
        match self {
            JsonTree::Array(items) => Some(items),
            _ => None,
        }
    }

    /// The string member named `key`, where this is an object that has one.
    pub open spec fn str_member(self, key: Seq<char>) -> Option<Seq<char>> {
        match self.get(key) {
            Some(member) => member.as_str(),
            None => None,
        }
    }
}

impl Json {
    /// Reads a JSON text.
    pub fn parse(text: &str) -> (r: Result<Json, String>)
        ensures
            match r {
                Ok(json) => json_from_text(text@) == Some(json@),
                Err(_) => json_from_text(text@) is None,
            },
    {
        match read_value(text) {
            Ok(value) => Ok(lift(&value)),
            Err(e) => Err(e),
        }
    }

    /// The first member named `key`, where this is an object that has one.
    pub fn get(&self, key: &str) -> (r: Option<&Json>)
        ensures
            match r {
                Some(member) => self@.get(key@) == Some(member@),
                None => self@.get(key@) is None,
            },
    {
        match self {
            Json::Object(members) => {
                let wanted = key.to_owned();
                let n: usize = members.len();
                let mut i: usize = 0;
                while i < n
                    invariant
                        n == members@.len(),
                        i <= n,
                        wanted@ == key@,
                        self@ matches JsonTree::Object(ms) && ms.len() == n && member_from(
                            ms,
                            key@,
                            0,
                        ) == member_from(ms, key@, i as int) && forall|k: int|
                            0 <= k < n ==> ms[k] == (members@[k].0@, members@[k].1@),
                    decreases n - i,
                {
                    if members[i].0 == wanted {
                        return Some(&members[i].1);
                    }
                    i = i + 1;
                }
                None
            },
            _ => None,
        }
    }

    /// The text, where this is a string.
    pub fn as_str(&self) -> (r: Option<&str>)
        ensures
            match r {
                Some(s) => self@.as_str() == Some(s@),
                None => self@.as_str() is None,
            },
    {
        match self {
            Json::String(s) => Some(s.as_str()),
            _ => None,
        }
    }

    /// The truth value, where this is one.
    pub fn as_bool(&self) -> (r: Option<bool>)
        ensures
            r == self@.as_bool(),
    {
        match self {
            Json::Bool(b) => Some(*b),
            _ => None,
        }
    }

    /// The items, where this is an array.
    pub fn as_array(&self) -> (r: Option<&Vec<Json>>)
        ensures
            match r {
                Some(items) => self@.as_array() matches Some(trees) && trees.len() == items@.len()
                    && forall|i: int| 0 <= i < items@.len() ==> trees[i] == items@[i]@,
                None => self@.as_array() is None,
            },
    {
        match self {
            Json::Array(items) => Some(items),
            _ => None,
        }
    }

    /// Whether this is an object.
    pub fn is_object(&self) -> (r: bool)
        ensures
            r == (self@ is Object),
    {
        match self {
            Json::Object(_) => true,
            _ => false,
        }
    }
}

impl Json {
    /// A copy of the document.
    pub fn duplicate(&self) -> (r: Json)
        ensures
            r@ == self@,
        decreases self,
    {
        match self {
            Json::Null => Json::Null,
            Json::Bool(b) => Json::Bool(*b),
            Json::Number(n) => Json::Number(n.clone()),
            Json::String(s) => Json::String(s.clone()),
            Json::Array(items) => {
                let n: usize = items.len();
                let mut out: Vec<Json> = Vec::new();
                let mut i: usize = 0;
                while i < n
                    invariant
                        n == items@.len(),
                        i <= n,
                        out@.len() == i,
                        *self == Json::Array(*items),
                        decreases_to!(*self => *items),
                        forall|k: int| 0 <= k < i ==> out@[k]@ == items@[k]@,
                    decreases n - i,
                {
                    let item = &items[i];
                    assert(decreases_to!(*items => items@[i as int]));
                    out.push(item.duplicate());
                    i = i + 1;
                }
                proof {
                    lemma_array_tree(out);
                    lemma_array_tree(*items);
                    assert(out.deep_view() =~= items.deep_view());
                }
                Json::Array(out)
            },
            Json::Object(members) => {
                let n: usize = members.len();
                let mut out: Vec<(String, Json)> = Vec::new();
                let mut i: usize = 0;
                while i < n
                    invariant
                        n == members@.len(),
                        i <= n,
                        out@.len() == i,
                        *self == Json::Object(*members),
                        decreases_to!(*self => *members),
                        forall|k: int|
                            0 <= k < i ==> out@[k].0@ == members@[k].0@ && out@[k].1@
                                == members@[k].1@,
                    decreases n - i,
                {
                    let member = &members[i];
                    assert(decreases_to!(*members => members@[i as int]));
                    out.push((member.0.clone(), member.1.duplicate()));
                    i = i + 1;
                }
                proof {
                    lemma_object_tree(out);
                    lemma_object_tree(*members);
                    assert(out.deep_view() =~= members.deep_view());
                }
                Json::Object(out)
            },
        }
    }
}

impl Json {
    /// The string with the given text.
    pub fn text(text: &str) -> (r: Json)
        ensures
            r@ == JsonTree::String(text@),
    {
        Json::String(text.to_owned())
    }

    /// The number `i`.
    pub fn integer(i: i64) -> (r: Json)
        ensures
            r@ == JsonTree::Number(signed_decimal(i as int)),
    {
        Json::Number(signed_decimal_of(i))
    }

    /// The array of the given items.
    pub fn array(items: Vec<Json>) -> (r: Json)
        ensures
            r@ == JsonTree::Array(items.deep_view()),
    {
        proof {
            lemma_array_tree(items);
        }
        Json::Array(items)
    }

    /// The object of the given members, in their order.
    pub fn object(members: Vec<(String, Json)>) -> (r: Json)
        ensures
            r@ == JsonTree::Object(members.deep_view()),
    {
        proof {
            lemma_object_tree(members);
        }
        Json::Object(members)
    }

    /// The array of the given texts, as strings.
    pub fn texts(texts: &Vec<String>) -> (r: Json)
        ensures
            r@ == JsonTree::Array(text_items(texts.deep_view())),
    {
        let n: usize = texts.len();
        let mut items: Vec<Json> = Vec::new();
        let mut i: usize = 0;
        while i < n
            invariant
                n == texts@.len(),
                i <= n,
                items@.len() == i,
                forall|k: int| 0 <= k < i ==> items@[k]@ == JsonTree::String(texts@[k]@),
            decreases n - i,
        {
            items.push(Json::String(texts[i].clone()));
            i = i + 1;
        }
        proof {
            lemma_array_tree(items);
            assert(items.deep_view() =~= text_items(texts.deep_view()));
        }
        Json::Array(items)
    }
}

/// The strings of the given texts.
pub open spec fn text_items(texts: Seq<Seq<char>>) -> Seq<JsonTree> {
    Seq::new(texts.len(), |i: int| JsonTree::String(texts[i]))
}

/// A member of an object: a name and a document.
pub fn member(name: &str, value: Json) -> (r: (String, Json))
    ensures
        r.deep_view() == (name@, value@),
{
    (name.to_owned(), value)
}

impl JsonTree {
    /// The object without members.
    pub open spec fn empty_object() -> JsonTree {
        JsonTree::Object(Seq::empty())
    }

    /// An object with one more member at its end; anything else unchanged.
    pub open spec fn with(self, name: Seq<char>, value: JsonTree) -> JsonTree {
        match self {
            JsonTree::Object(members) => JsonTree::Object(members.push((name, value))),
            other => other,
        }
    }

    /// An object with one more member at its end, a string.
    pub open spec fn with_text(self, name: Seq<char>, text: Seq<char>) -> JsonTree {
        self.with(name, JsonTree::String(text))
    }
}

impl Json {
    /// The object without members.
    pub fn empty_object() -> (r: Json)
        ensures
            r@ == JsonTree::empty_object(),
    {
        let members: Vec<(String, Json)> = Vec::new();
        proof {
            lemma_object_tree(members);
            assert(members.deep_view() =~= Seq::empty());
        }
        Json::Object(members)
    }

    /// Adds a member at the end of an object; leaves anything else as it is.
    pub fn with(self, name: &str, value: Json) -> (r: Json)
        ensures
            r@ == self@.with(name@, value@),
    {
        match self {
            Json::Object(members) => {
                let mut members = members;
                let ghost before = members;
                members.push((name.to_owned(), value));
                proof {
                    lemma_object_tree(before);
                    lemma_object_tree(members);
                    assert(members.deep_view() =~= before.deep_view().push((name@, value@)));
                }
                Json::Object(members)
            },
            other => other,
        }
    }

    /// Adds a string member at the end of an object.
    pub fn with_text(self, name: &str, text: &str) -> (r: Json)
        ensures
            r@ == self@.with_text(name@, text@),
    {
        self.with(name, Json::text(text))
    }
}

impl JsonTree {
    /// The members, where this is an object.
    pub open spec fn as_object(self) -> Option<Seq<(Seq<char>, JsonTree)>> {
        match self {
            JsonTree::Object(members) => Some(members),
            _ => None,
        }
    }
}

impl Json {
    /// The members, where this is an object.
    pub fn as_object(&self) -> (r: Option<&Vec<(String, Json)>>)
        ensures
            r.deep_view() == self@.as_object(),
    {
        match self {
            Json::Object(members) => {
                proof {
                    lemma_object_tree(*members);
                }
                Some(members)
            },
            _ => None,
        }
    }
}

impl Clone for Json {
    fn clone(&self) -> (r: Json)
        ensures
            r@ == self@,
    {
        self.duplicate()
    }
}

impl Json {
    /// The text of the string member named `key`, where this is an object
    /// that has one.
    pub fn str_member(&self, key: &str) -> (r: Option<&str>)
        ensures
            r.deep_view() == self@.str_member(key@),
    {
        match self.get(key) {
            None => None,
            Some(member) => member.as_str(),
        }
    }
}

} // verus!
