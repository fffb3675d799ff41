//! The reading of replies: the status class, the JSON body, and the member
//! that an envelope holds.

use crate::error::outcome;
use crate::error::Error;
use crate::error::ErrorKind;
use crate::json::json_from_text;
use crate::json::Json;
use crate::json::JsonTree;
use crate::json_map::map_of;
use crate::json_map::JsonMap;
use vstd::prelude::*;

verus! {

/// Whether a status code is of the success class.
pub open spec fn is_success(status: u16) -> bool {
    200 <= status < 300
}

/// What the status of a reply decides: outside the success class the reply is
/// an error of the service, with the status and the body as they came.
pub open spec fn accepted(status: u16, body: Seq<char>) -> Result<(), ErrorKind> {
    if is_success(status) {
        Ok(())
    } else {
        Err(ErrorKind::Api { status, message: body })
    }
}

/// The document of a reply: the body of a successful reply, read as JSON.
pub open spec fn document(status: u16, body: Seq<char>) -> Result<JsonTree, ErrorKind> {
    if !is_success(status) {
        Err(ErrorKind::Api { status, message: body })
    } else {
        match json_from_text(body) {
            Some(tree) => Ok(tree),
            None => Err(ErrorKind::Json),
        }
    }
}

/// The string member `key` of an envelope.
pub open spec fn text_field(doc: JsonTree, key: Seq<char>) -> Result<Seq<char>, ErrorKind> {
    match doc.str_member(key) {
        Some(text) => Ok(text),
        None => Err(ErrorKind::Json),
    }
}

/// The text of an optional member: nothing where the member is missing or
/// null, the text where it is a string. Anything else is malformed, which the
/// outer `None` says.
pub open spec fn optional_text(doc: JsonTree, key: Seq<char>) -> Option<Option<Seq<char>>> {
    match doc.get(key) {
        None => Some(None),
        Some(JsonTree::Null) => Some(None),
        Some(JsonTree::String(text)) => Some(Some(text)),
        Some(_) => None,
    }
}

/// Whether all the items are strings.
pub open spec fn all_strings(items: Seq<JsonTree>) -> bool {
    forall|i: int| 0 <= i < items.len() ==> (#[trigger] items[i]) is String
}

/// The texts of items that are strings.
pub open spec fn strings_of(items: Seq<JsonTree>) -> Seq<Seq<char>> {
    Seq::new(items.len(), |i: int| items[i]->String_0)
}

/// The member `key` of an envelope, where it is an array of strings.
pub open spec fn texts_field(doc: JsonTree, key: Seq<char>) -> Result<Seq<Seq<char>>, ErrorKind> {
    match doc.get(key) {
        Some(JsonTree::Array(items)) => if all_strings(items) {
            Ok(strings_of(items))
        } else {
            Err(ErrorKind::Json)
        },
        _ => Err(ErrorKind::Json),
    }
}

/// The member `key` of an envelope, where it is a map: an object in which
/// no name occurs twice.
pub open spec fn map_field(doc: JsonTree, key: Seq<char>) -> Result<
    Seq<(Seq<char>, JsonTree)>,
    ErrorKind,
> {
    match doc.get(key) {
        Some(member) => match map_of(member) {
            Some(members) => Ok(members),
            None => Err(ErrorKind::Json),
        },
        None => Err(ErrorKind::Json),
    }
}

/// Whether all the items are maps.
pub open spec fn all_maps(items: Seq<JsonTree>) -> bool {
    forall|i: int| 0 <= i < items.len() ==> map_of(#[trigger] items[i]) is Some
}

/// The members of items that are maps.
pub open spec fn maps_of(items: Seq<JsonTree>) -> Seq<Seq<(Seq<char>, JsonTree)>> {
    Seq::new(items.len(), |i: int| map_of(items[i])->Some_0)
}

/// The member `key` of an envelope, where it is an array of maps.
pub open spec fn maps_field(doc: JsonTree, key: Seq<char>) -> Result<
    Seq<Seq<(Seq<char>, JsonTree)>>,
    ErrorKind,
> {
    match doc.get(key) {
        Some(JsonTree::Array(items)) => if all_maps(items) {
            Ok(maps_of(items))
        } else {
            Err(ErrorKind::Json)
        },
        _ => Err(ErrorKind::Json),
    }
}

/// Whether a status code is of the success class.
pub fn is_success_status(status: u16) -> (r: bool)
    ensures
        r == is_success(status),
{
    200 <= status && status < 300
}

/// The error for an envelope without a usable member `key`.
pub fn shape_error(key: &str) -> (e: Error)
    ensures
        e@ == ErrorKind::Json,
        e.detail() == "missing or unexpected member: "@ + key@,
{
    let mut text = "missing or unexpected member: ".to_owned();
    text.append(key);
    Error::JsonError(text)
}

/// Turns a reply outside the success class into the error of the service.
pub fn check_status(status: u16, body: &str) -> (r: Result<(), Error>)
    ensures
        outcome(r) == accepted(status, body@),
{
    if is_success_status(status) {
        Ok(())
    } else {
        Err(Error::ApiError { status, message: body.to_owned() })
    }
}

/// Reads the body of a successful reply as JSON.
pub fn read_document(status: u16, body: &str) -> (r: Result<Json, Error>)
    ensures
        outcome(r) == document(status, body@),
{
    match check_status(status, body) {
        Err(e) => Err(e),
        Ok(_) => match Json::parse(body) {
            Ok(doc) => Ok(doc),
            Err(text) => Err(Error::JsonError(text)),
        },
    }
}

/// Takes the string member `key` out of an envelope.
pub fn text_member(doc: &Json, key: &str) -> (r: Result<String, Error>)
    ensures
        outcome(r) == text_field(doc@, key@),
{
    match doc.get(key) {
        None => Err(shape_error(key)),
        Some(member) => match member.as_str() {
            None => Err(shape_error(key)),
            Some(text) => Ok(text.to_owned()),
        },
    }
}

/// Reads an optional text member of a document.
pub fn optional_text_member(doc: &Json, key: &str) -> (r: Option<Option<String>>)
    ensures
        r.deep_view() == optional_text(doc@, key@),
{
    match doc.get(key) {
        None => Some(None),
        Some(member) => match member {
            Json::Null => Some(None),
            Json::String(text) => Some(Some(text.clone())),
            _ => None,
        },
    }
}

/// Takes the member `key` out of an envelope, where it is an array of
/// strings.
pub fn texts_member(doc: &Json, key: &str) -> (r: Result<Vec<String>, Error>)
    ensures
        outcome(r) == texts_field(doc@, key@),
{
    let items = match doc.get(key) {
        None => { return Err(shape_error(key)); },
        Some(member) => match member.as_array() {
            None => { return Err(shape_error(key)); },
            Some(items) => items,
        },
    };
    let ghost trees = doc@.get(key@)->Some_0->Array_0;
    let n: usize = items.len();
    let mut out: Vec<String> = Vec::new();
    let mut i: usize = 0;
    while i < n
        invariant
            n == items@.len(),
            doc@.get(key@) == Some(JsonTree::Array(trees)),
            trees.len() == n,
            i <= n,
            out@.len() == i,
            forall|k: int| 0 <= k < n ==> trees[k] == items@[k]@,
            forall|k: int| 0 <= k < i ==> (#[trigger] trees[k]) is String,
            forall|k: int| 0 <= k < i ==> (#[trigger] out@[k])@ == trees[k]->String_0,
        decreases n - i,
    {
        match items[i].as_str() {
            None => {
                assert(!(trees[i as int] is String));
                return Err(shape_error(key));
            },
            Some(text) => {
                out.push(text.to_owned());
            },
        }
        i = i + 1;
    }
    assert(out.deep_view() =~= strings_of(trees));
    Ok(out)
}

/// Takes the member `key` out of an envelope, where it is a map.
pub fn map_member(doc: &Json, key: &str) -> (r: Result<JsonMap, Error>)
    ensures
        outcome(r) == map_field(doc@, key@),
{
    match doc.get(key) {
        None => Err(shape_error(key)),
        Some(member) => match JsonMap::from_json(member) {
            Some(map) => Ok(map),
            None => Err(shape_error(key)),
        },
    }
}

/// Takes the member `key` out of an envelope, where it is an array of maps.
pub fn maps_member(doc: &Json, key: &str) -> (r: Result<Vec<JsonMap>, Error>)
    ensures
        outcome(r) == maps_field(doc@, key@),
{
    let items = match doc.get(key) {
        None => { return Err(shape_error(key)); },
        Some(member) => match member.as_array() {
            None => { return Err(shape_error(key)); },
            Some(items) => items,
        },
    };
    let ghost trees = doc@.get(key@)->Some_0->Array_0;
    let n: usize = items.len();
    let mut out: Vec<JsonMap> = Vec::new();
    let mut i: usize = 0;
    while i < n
        invariant
            n == items@.len(),
            doc@.get(key@) == Some(JsonTree::Array(trees)),
            trees.len() == n,
            i <= n,
            out@.len() == i,
            forall|k: int| 0 <= k < n ==> trees[k] == items@[k]@,
            forall|k: int| 0 <= k < i ==> map_of(#[trigger] trees[k]) is Some,
            forall|k: int|
                0 <= k < i ==> (#[trigger] out@[k]).deep_view() == map_of(trees[k])->Some_0,
        decreases n - i,
    {
        match JsonMap::from_json(&items[i]) {
            None => {
                assert(map_of(trees[i as int]) is None);
                return Err(shape_error(key));
            },
            Some(map) => {
                out.push(map);
            },
        }
        i = i + 1;
    }
    assert(out.deep_view() =~= maps_of(trees));
    Ok(out)
}

/// What a reply yields whose envelope holds a text under `key`.
pub open spec fn text_reply(status: u16, body: Seq<char>, key: Seq<char>) -> Result<
    Seq<char>,
    ErrorKind,
> {
    match document(status, body) {
        Ok(doc) => text_field(doc, key),
        Err(e) => Err(e),
    }
}

/// What a reply yields whose envelope holds an array of strings under `key`.
pub open spec fn texts_reply(status: u16, body: Seq<char>, key: Seq<char>) -> Result<
    Seq<Seq<char>>,
    ErrorKind,
> {
    match document(status, body) {
        Ok(doc) => texts_field(doc, key),
        Err(e) => Err(e),
    }
}

/// What a reply yields whose envelope holds a map under `key`.
pub open spec fn map_reply(status: u16, body: Seq<char>, key: Seq<char>) -> Result<
    Seq<(Seq<char>, JsonTree)>,
    ErrorKind,
> {
    match document(status, body) {
        Ok(doc) => map_field(doc, key),
        Err(e) => Err(e),
    }
}

/// What a reply yields whose envelope holds an array of maps under `key`.
pub open spec fn maps_reply(status: u16, body: Seq<char>, key: Seq<char>) -> Result<
    Seq<Seq<(Seq<char>, JsonTree)>>,
    ErrorKind,
> {
    match document(status, body) {
        Ok(doc) => maps_field(doc, key),
        Err(e) => Err(e),
    }
}

/// Reads a reply whose envelope holds a text under `key`.
pub fn read_text(status: u16, body: &str, key: &str) -> (r: Result<String, Error>)
    ensures
        outcome(r) == text_reply(status, body@, key@),
{
    match read_document(status, body) {
        Ok(doc) => text_member(&doc, key),
        Err(e) => Err(e),
    }
}

/// Reads a reply whose envelope holds an array of strings under `key`.
pub fn read_texts(status: u16, body: &str, key: &str) -> (r: Result<Vec<String>, Error>)
    ensures
        outcome(r) == texts_reply(status, body@, key@),
{
    match read_document(status, body) {
        Ok(doc) => texts_member(&doc, key),
        Err(e) => Err(e),
    }
}

/// Reads a reply whose envelope holds a map under `key`.
pub fn read_map(status: u16, body: &str, key: &str) -> (r: Result<JsonMap, Error>)
    ensures
        outcome(r) == map_reply(status, body@, key@),
{
    match read_document(status, body) {
        Ok(doc) => map_member(&doc, key),
        Err(e) => Err(e),
    }
}

/// Reads a reply whose envelope holds an array of maps under `key`.
pub fn read_maps(status: u16, body: &str, key: &str) -> (r: Result<Vec<JsonMap>, Error>)
    ensures
        outcome(r) == maps_reply(status, body@, key@),
{
    match read_document(status, body) {
        Ok(doc) => maps_member(&doc, key),
        Err(e) => Err(e),
    }
}

/// A reply outside the success class is an error of the service that holds
/// the status and the body as they came, whatever the envelope.
pub proof fn lemma_failure_is_api_error(status: u16, body: Seq<char>, key: Seq<char>)
    requires
        status >= 400,
    ensures
        accepted(status, body) == Err::<(), ErrorKind>(ErrorKind::Api { status, message: body }),
        document(status, body) == Err::<JsonTree, ErrorKind>(
            ErrorKind::Api { status, message: body },
        ),
        text_reply(status, body, key) == Err::<Seq<char>, ErrorKind>(
            ErrorKind::Api { status, message: body },
        ),
        texts_reply(status, body, key) == Err::<Seq<Seq<char>>, ErrorKind>(
            ErrorKind::Api { status, message: body },
        ),
        map_reply(status, body, key) == Err::<Seq<(Seq<char>, JsonTree)>, ErrorKind>(
            ErrorKind::Api { status, message: body },
        ),
        maps_reply(status, body, key) == Err::<Seq<Seq<(Seq<char>, JsonTree)>>, ErrorKind>(
            ErrorKind::Api { status, message: body },
        ),
{
}

} // verus!
