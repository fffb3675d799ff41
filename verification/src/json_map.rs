//! Maps from names to documents, in which no name occurs twice.

use crate::json::lemma_object_tree;
use crate::json::member_from;
use crate::json::Json;
use crate::json::JsonTree;
use vstd::prelude::*;

verus! {

/// Whether no name occurs twice among the members.
pub open spec fn distinct_names(members: Seq<(Seq<char>, JsonTree)>) -> bool {
    forall|i: int, j: int|
        0 <= i < j < members.len() ==> (#[trigger] members[i]).0 != (#[trigger] members[j]).0
}

/// The position of the first member named `name` among `members[from..]`.
pub open spec fn position_from(members: Seq<(Seq<char>, JsonTree)>, name: Seq<char>, from: int)
    -> Option<int>
    decreases members.len() - from,
{
    if from < 0 || from >= members.len() {
        None
    } else if members[from].0 == name {
        Some(from)
    } else {
        position_from(members, name, from + 1)
    }
}

/// The members with `value` under `name`: in the place of the member of that
/// name, where there is one, and at the end, where there is none.
pub open spec fn put(members: Seq<(Seq<char>, JsonTree)>, name: Seq<char>, value: JsonTree) -> Seq<
    (Seq<char>, JsonTree),
> {
    match position_from(members, name, 0) {
        Some(at) => members.update(at, (name, value)),
        None => members.push((name, value)),
    }
}

/// The members of a document that is a map: an object in which no name
/// occurs twice.
pub open spec fn map_of(doc: JsonTree) -> Option<Seq<(Seq<char>, JsonTree)>> {
    match doc {
        JsonTree::Object(members) => if distinct_names(members) {
            Some(members)
        } else {
            None
        },
        _ => None,
    }
}

/// `position_from` gives the least position of a member of that name, and
/// `None` only where no member has it.
pub proof fn lemma_position_from(members: Seq<(Seq<char>, JsonTree)>, name: Seq<char>, from: int)
    requires
        0 <= from,
    ensures
        match position_from(members, name, from) {
            Some(at) => from <= at < members.len() && members[at].0 == name && member_from(
                members,
                name,
                from,
            ) == Some(members[at].1),
            None => member_from(members, name, from) is None && forall|j: int|
                from <= j < members.len() ==> (#[trigger] members[j]).0 != name,
        },
    decreases members.len() - from,
{
    if from >= members.len() {
    } else if members[from].0 == name {
    } else {
        lemma_position_from(members, name, from + 1);
    }
}

/// Putting a value under a name keeps the names distinct, and the value is
/// then what stands under the name.
pub proof fn lemma_put(members: Seq<(Seq<char>, JsonTree)>, name: Seq<char>, value: JsonTree)
    requires
        distinct_names(members),
    ensures
        distinct_names(put(members, name, value)),
        member_from(put(members, name, value), name, 0) == Some(value),
{
    let after = put(members, name, value);
    lemma_position_from(members, name, 0);
    lemma_position_from(after, name, 0);
    match position_from(members, name, 0) {
        Some(at) => {
            assert forall|i: int, j: int| 0 <= i < j < after.len() implies (#[trigger] after[i]).0
                != (#[trigger] after[j]).0 by {
                assert(after[i].0 == members[i].0);
                assert(after[j].0 == members[j].0);
            }
            assert(after[at].0 == name);
            if position_from(after, name, 0) != Some(at) {
                let other = position_from(after, name, 0)->Some_0;
                assert(after[other].0 == after[at].0);
            }
        },
        None => {
            assert forall|i: int, j: int| 0 <= i < j < after.len() implies (#[trigger] after[i]).0
                != (#[trigger] after[j]).0 by {
                assert(after[i] == members[i]);
                if j < members.len() {
                    assert(after[j] == members[j]);
                }
            }
            let last = members.len() as int;
            assert(after[last].0 == name);
            if position_from(after, name, 0) != Some(last) {
                let other = position_from(after, name, 0)->Some_0;
                assert(after[other] == members[other]);
            }
        },
    }
}

/// A map from names to documents. No name occurs twice; the members stand in
/// the order in which their names were first put.
#[derive(Debug, PartialEq, Eq)]
pub struct JsonMap {
    entries: Vec<(String, Json)>,
}

impl DeepView for JsonMap {
    type V = Seq<(Seq<char>, JsonTree)>;

    open spec fn deep_view(&self) -> Seq<(Seq<char>, JsonTree)> {
        self.members()
    }
}

impl JsonMap {
    /// No name occurs twice.
    #[verifier::type_invariant]
    spec fn distinct(self) -> bool {
        distinct_names(self.entries.deep_view())
    }

    /// The members of the map, in their order.
    pub closed spec fn members(&self) -> Seq<(Seq<char>, JsonTree)> {
        self.entries.deep_view()
    }

    /// The map without members.
    pub fn new() -> (r: JsonMap)
        ensures
            r.members() == Seq::<(Seq<char>, JsonTree)>::empty(),
    {
        let entries: Vec<(String, Json)> = Vec::new();
        assert(entries.deep_view() =~= Seq::empty());
        JsonMap { entries }
    }

    /// The number of members.
    pub fn len(&self) -> (r: usize)
        ensures
            r == self.members().len(),
    {
        self.entries.len()
    }

    /// The members, in their order; no name occurs twice among them.
    pub fn entries(&self) -> (r: &Vec<(String, Json)>)
        ensures
            r.deep_view() == self.members(),
            distinct_names(self.members()),
    {
        proof {
            use_type_invariant(self);
        }
        &self.entries
    }

    fn position(&self, name: &str) -> (r: Option<usize>)
        ensures
            match r {
                Some(at) => position_from(self.members(), name@, 0) == Some(at as int),
                None => position_from(self.members(), name@, 0) is None,
            },
    {
        let wanted = name.to_owned();
        let n: usize = self.entries.len();
        let mut i: usize = 0;
        while i < n
            invariant
                n == self.entries@.len(),
                i <= n,
                wanted@ == name@,
                position_from(self.members(), name@, 0) == position_from(
                    self.members(),
                    name@,
                    i as int,
                ),
            decreases n - i,
        {
            assert(self.members()[i as int] == self.entries@[i as int].deep_view());
            if self.entries[i].0 == wanted {
                return Some(i);
            }
            i = i + 1;
        }
        None
    }

    /// The document under `name`, where there is one.
    pub fn get(&self, name: &str) -> (r: Option<&Json>)
        ensures
            r.deep_view() == member_from(self.members(), name@, 0),
    {
        proof {
            lemma_position_from(self.members(), name@, 0);
        }
        match self.position(name) {
            Some(at) => {
                assert(self.members()[at as int] == self.entries@[at as int].deep_view());
                Some(&self.entries[at].1)
            },
            None => None,
        }
    }

    /// The map with `value` under `name`: in the place of what stood under
    /// that name, or at the end where nothing did.
    pub fn with(self, name: &str, value: Json) -> (r: JsonMap)
        ensures
            r.members() == put(self.members(), name@, value@),
    {
        proof {
            use_type_invariant(&self);
            lemma_put(self.members(), name@, value@);
            lemma_position_from(self.members(), name@, 0);
        }
        let found = self.position(name);
        let ghost before = self.members();
        let mut entries = self.entries;
        match found {
            Some(at) => {
                entries.set(at, (name.to_owned(), value));
                assert(entries.deep_view() =~= before.update(at as int, (name@, value@)));
            },
            None => {
                entries.push((name.to_owned(), value));
                assert(entries.deep_view() =~= before.push((name@, value@)));
            },
        }
        JsonMap { entries }
    }

    /// The object of the members; no name occurs twice in it.
    pub fn into_json(self) -> (r: Json)
        ensures
            r@ == JsonTree::Object(self.members()),
            distinct_names(self.members()),
    {
        proof {
            use_type_invariant(&self);
            lemma_object_tree(self.entries);
        }
        Json::Object(self.entries)
    }

    /// Reads a map from a document: an object in which no name occurs twice.
    pub fn from_json(doc: &Json) -> (r: Option<JsonMap>)
        ensures
            r.deep_view() == map_of(doc@),
    {
        let members = match doc.as_object() {
            None => { return None; },
            Some(members) => members,
        };
        let ghost trees = doc@->Object_0;
        let n: usize = members.len();
        let mut map = JsonMap::new();
        let mut i: usize = 0;
        assert(trees.subrange(0, 0) =~= Seq::empty());
        while i < n
            invariant
                n == members@.len(),
                doc@ == JsonTree::Object(trees),
                trees == members.deep_view(),
                i <= n,
                map.members() == trees.subrange(0, i as int),
            decreases n - i,
        {
            assert(trees[i as int] == members@[i as int].deep_view());
            proof {
                lemma_position_from(map.members(), trees[i as int].0, 0);
            }
            match map.position(members[i].0.as_str()) {
                Some(at) => {
                    assert(trees.subrange(0, i as int)[at as int] == trees[at as int]);
                    assert(trees[at as int].0 == trees[i as int].0);
                    return None;
                },
                None => {},
            }
            map = map.with(members[i].0.as_str(), members[i].1.duplicate());
            assert(map.members() =~= trees.subrange(0, i + 1));
            i = i + 1;
        }
        proof {
            use_type_invariant(&map);
            assert(trees.subrange(0, n as int) =~= trees);
        }
        Some(map)
    }
}

impl Clone for JsonMap {
    fn clone(&self) -> (r: JsonMap)
        ensures
            r.members() == self.members(),
    {
        proof {
            use_type_invariant(self);
        }
        let n: usize = self.entries.len();
        let mut entries: Vec<(String, Json)> = Vec::new();
        let mut i: usize = 0;
        while i < n
            invariant
                n == self.entries@.len(),
                i <= n,
                entries@.len() == i,
                forall|k: int|
                    0 <= k < i ==> (#[trigger] entries@[k]).deep_view()
                        == self.entries@[k].deep_view(),
            decreases n - i,
        {
            entries.push((self.entries[i].0.clone(), self.entries[i].1.duplicate()));
            i = i + 1;
        }
        assert(entries.deep_view() =~= self.entries.deep_view());
        JsonMap { entries }
    }
}

} // verus!
