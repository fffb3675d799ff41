//! The lookup of a resource by its name in a listing.

use crate::error::outcome;
use crate::error::Error;
use crate::error::ErrorKind;
use crate::json::member_from;
use crate::json::JsonTree;
use crate::json_map::JsonMap;
use crate::reply::shape_error;
use crate::text::same_text;
use vstd::prelude::*;

verus! {

/// The text under `key` among the members of an item, where what stands
/// there is a text.
pub open spec fn text_under(item: Seq<(Seq<char>, JsonTree)>, key: Seq<char>) -> Option<
    Seq<char>,
> {
    match member_from(item, key, 0) {
        Some(JsonTree::String(text)) => Some(text),
        _ => None,
    }
}

/// Whether an item of a listing is named `wanted`: whether its member `name`
/// is that text, character for character.
pub open spec fn is_named(item: Seq<(Seq<char>, JsonTree)>, wanted: Seq<char>) -> bool {
    text_under(item, "name"@) == Some(wanted)
}

/// The identifier of an item: its member `id`, which must be a text.
pub open spec fn id_of(item: Seq<(Seq<char>, JsonTree)>) -> Result<Option<Seq<char>>, ErrorKind> {
    match text_under(item, "id"@) {
        Some(id) => Ok(Some(id)),
        None => Err(ErrorKind::Json),
    }
}

/// The position of the first item at or after `from` that is named `wanted`.
pub open spec fn first_named(
    items: Seq<Seq<(Seq<char>, JsonTree)>>,
    wanted: Seq<char>,
    from: int,
) -> Option<int>
    decreases items.len() - from,
{
    if from < 0 || from >= items.len() {
        None
    } else if is_named(items[from], wanted) {
        Some(from)
    } else {
        first_named(items, wanted, from + 1)
    }
}

/// The identifier of the first item named `wanted`. Where no item has the
/// name, there is no identifier, and that is no error.
pub open spec fn id_by_name(items: Seq<Seq<(Seq<char>, JsonTree)>>, wanted: Seq<char>) -> Result<
    Option<Seq<char>>,
    ErrorKind,
> {
    match first_named(items, wanted, 0) {
        Some(at) => id_of(items[at]),
        None => Ok(None),
    }
}

/// `first_named` gives the least position of an item of that name, and
/// `None` only where no item has it.
pub proof fn lemma_first_named(
    items: Seq<Seq<(Seq<char>, JsonTree)>>,
    wanted: Seq<char>,
    from: int,
)
    requires
        0 <= from,
    ensures
        match first_named(items, wanted, from) {
            Some(i) => from <= i < items.len() && is_named(items[i], wanted) && forall|j: int|
                from <= j < i ==> !is_named(#[trigger] items[j], wanted),
            None => forall|j: int|
                from <= j < items.len() ==> !is_named(#[trigger] items[j], wanted),
        },
    decreases items.len() - from,
{
    if from >= items.len() {
    } else if is_named(items[from], wanted) {
    } else {
        lemma_first_named(items, wanted, from + 1);
    }
}

/// The lookup finds nothing exactly where no item of the listing has the
/// name.
pub proof fn lemma_missing_name_is_absent(
    items: Seq<Seq<(Seq<char>, JsonTree)>>,
    wanted: Seq<char>,
)
    ensures
        id_by_name(items, wanted) == Ok::<Option<Seq<char>>, ErrorKind>(None) <==> forall|j: int|
            0 <= j < items.len() ==> !is_named(#[trigger] items[j], wanted),
{
    lemma_first_named(items, wanted, 0);
}

/// Where exactly one item of a listing has the name, the lookup finds the
/// identifier of that item.
pub proof fn lemma_single_name_is_found(
    items: Seq<Seq<(Seq<char>, JsonTree)>>,
    wanted: Seq<char>,
    at: int,
)
    requires
        0 <= at < items.len(),
        is_named(items[at], wanted),
        forall|j: int| 0 <= j < items.len() && j != at ==> !is_named(#[trigger] items[j], wanted),
    ensures
        id_by_name(items, wanted) == id_of(items[at]),
{
    lemma_first_named(items, wanted, 0);
}

/// Where several items of a listing have the name, the lookup finds the
/// identifier of the first of them in the order of the listing.
pub proof fn lemma_first_name_wins(
    items: Seq<Seq<(Seq<char>, JsonTree)>>,
    wanted: Seq<char>,
    at: int,
)
    requires
        0 <= at < items.len(),
        is_named(items[at], wanted),
        forall|j: int| 0 <= j < at ==> !is_named(#[trigger] items[j], wanted),
    ensures
        id_by_name(items, wanted) == id_of(items[at]),
{
    lemma_first_named(items, wanted, 0);
}

fn text_of<'a>(item: &'a JsonMap, key: &str) -> (r: Option<&'a str>)
    ensures
        r.deep_view() == text_under(item.deep_view(), key@),
{
    match item.get(key) {
        None => None,
        Some(member) => member.as_str(),
    }
}

/// Looks a resource up by its name: scans the listing in its order and takes
/// the identifier of the first item of that name. An item of that name
/// without a text for its identifier is malformed.
pub fn find_id_by_name(items: &Vec<JsonMap>, wanted: &str) -> (r: Result<Option<String>, Error>)
    ensures
        outcome(r) == id_by_name(items.deep_view(), wanted@),
{
    let ghost listing = items.deep_view();
    let n: usize = items.len();
    let mut i: usize = 0;
    while i < n
        invariant
            n == items@.len(),
            i <= n,
            listing == items.deep_view(),
            first_named(listing, wanted@, 0) == first_named(listing, wanted@, i as int),
        decreases n - i,
    {
        assert(listing[i as int] == items@[i as int].deep_view());
        let named = match text_of(&items[i], "name") {
            None => false,
            Some(text) => same_text(text, wanted),
        };
        if named {
            return match text_of(&items[i], "id") {
                None => Err(shape_error("id")),
                Some(id) => Ok(Some(id.to_owned())),
            };
        }
        i = i + 1;
    }
    Ok(None)
}

} // verus!
