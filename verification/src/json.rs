//! JSON documents, as trees.
//!
//! Geography is stored as a JSON document and request bodies arrive as one.
//! What the service decides about such a document depends on its shape alone,
//! so the tree is held as plain values.

use vstd::prelude::*;
use crate::number::Real;

verus! {

/// A JSON document.
#[derive(Debug, PartialEq)]
pub enum Json {
    Null,
    Bool(bool),
    Number(Real),
    Text(String),
    Array(Vec<Json>),
    Object(Vec<Member>),
}

/// One member of a JSON object.
#[derive(Debug, PartialEq)]
pub struct Member {
    pub key: String,
    pub value: Json,
}

/// What a JSON document holds.
pub enum JsonTree {
    Null,
    Bool(bool),
    Number(Real),
    Text(Seq<char>),
    Array(Seq<JsonTree>),
    Object(Seq<(Seq<char>, JsonTree)>),
}

impl Json {
    /// What the document holds.
    pub open spec fn tree(self) -> JsonTree
        decreases self,
    {
        match self {
            Json::Null => JsonTree::Null,
            Json::Bool(b) => JsonTree::Bool(b),
            Json::Number(r) => JsonTree::Number(r),
            Json::Text(s) => JsonTree::Text(s@),
            Json::Array(items) => JsonTree::Array(
                Seq::new(
                    items@.len(),
                    |i: int|
                        if 0 <= i < items@.len() {
                            items@[i].tree()
                        } else {
                            JsonTree::Null
                        },
                ),
            ),
            Json::Object(members) => JsonTree::Object(
                Seq::new(
                    members@.len(),
                    |i: int|
                        if 0 <= i < members@.len() {
                            (members@[i].key@, members@[i].value.tree())
                        } else {
                            (Seq::empty(), JsonTree::Null)
                        },
                ),
            ),
        }
    }
}

impl View for Json {
    type V = JsonTree;

    open spec fn view(&self) -> JsonTree {
        self.tree()
    }
}

impl View for Member {
    type V = (Seq<char>, JsonTree);

    open spec fn view(&self) -> (Seq<char>, JsonTree) {
        (self.key@, self.value@)
    }
}

/// What the items of an array hold.
pub open spec fn items_view(items: Seq<Json>) -> Seq<JsonTree> {
    Seq::new(items.len(), |i: int| items[i]@)
}

/// What the members of an object hold.
pub open spec fn members_view(members: Seq<Member>) -> Seq<(Seq<char>, JsonTree)> {
    Seq::new(members.len(), |i: int| members[i]@)
}

/// An array holds what its items hold, in their order.
pub proof fn array_view(items: Vec<Json>)
    ensures
        Json::Array(items)@ == JsonTree::Array(items_view(items@)),
{
    assert(Json::Array(items)@->Array_0 =~= items_view(items@));
}

/// An object holds what its members hold, in their order.
pub proof fn object_view(members: Vec<Member>)
    ensures
        Json::Object(members)@ == JsonTree::Object(members_view(members@)),
{
    assert(Json::Object(members)@->Object_0 =~= members_view(members@));
}

impl Clone for Json {
    fn clone(&self) -> (copy: Json)
        ensures
            copy@ == self@,
        decreases self,
    {
        match self {
            Json::Null => Json::Null,
            Json::Bool(b) => Json::Bool(*b),
            Json::Number(r) => Json::Number(*r),
            Json::Text(s) => Json::Text(s.clone()),
            Json::Array(items) => {
                let mut copies: Vec<Json> = Vec::new();
                let mut i: usize = 0;
                while i < items.len()
                    invariant
                        *self == Json::Array(*items),
                        i <= items.len(),
                        copies@.len() == i,
                        forall|k: int| 0 <= k < i ==> (#[trigger] copies@[k])@ == items@[k]@,
                    decreases items.len() - i,
                {
                    proof {
                        vstd::std_specs::vec::axiom_vec_index_decreases(*items, i as int);
                        assert(decreases_to!(*self => self->Array_0));
                    }
                    copies.push(items[i].clone());
                    i = i + 1;
                }
                proof {
                    array_view(*items);
                    array_view(copies);
                    assert(items_view(copies@) =~= items_view(items@));
                }
                Json::Array(copies)
            },
            Json::Object(members) => {
                let mut copies: Vec<Member> = Vec::new();
                let mut i: usize = 0;
                while i < members.len()
                    invariant
                        *self == Json::Object(*members),
                        i <= members.len(),
                        copies@.len() == i,
                        forall|k: int| 0 <= k < i ==> (#[trigger] copies@[k])@ == members@[k]@,
                    decreases members.len() - i,
                {
                    proof {
                        vstd::std_specs::vec::axiom_vec_index_decreases(*members, i as int);
                        assert(decreases_to!(*self => self->Object_0));
                        assert(decreases_to!(members[i as int] => members[i as int].value));
                    }
                    copies.push(
                        Member { key: members[i].key.clone(), value: members[i].value.clone() },
                    );
                    i = i + 1;
                }
                proof {
                    object_view(*members);
                    object_view(copies);
                    assert(members_view(copies@) =~= members_view(members@));
                }
                Json::Object(copies)
            },
        }
    }
}

/// The values, in document order, of the members of an object whose key is
/// `name` or its alias.
pub open spec fn values_named(
    members: Seq<(Seq<char>, JsonTree)>,
    name: Seq<char>,
    alias: Seq<char>,
) -> Seq<JsonTree>
    decreases members.len(),
{
    if members.len() == 0 {
        Seq::empty()
    } else {
        let before = values_named(members.drop_last(), name, alias);
        let last = members.last();
        if last.0 == name || last.0 == alias {
            before.push(last.1)
        } else {
            before
        }
    }
}

/// The one value that an object gives for a field: the object holds exactly
/// one member under the field's name or its alias. Members under other keys
/// are passed over.
pub open spec fn field(members: Seq<(Seq<char>, JsonTree)>, name: Seq<char>, alias: Seq<char>) -> Option<
    JsonTree,
> {
    let values = values_named(members, name, alias);
    if values.len() == 1 {
        Some(values[0])
    } else {
        None
    }
}

/// The one value that an object gives under a name that has no alias.
pub open spec fn member(members: Seq<(Seq<char>, JsonTree)>, name: Seq<char>) -> Option<JsonTree> {
    field(members, name, name)
}

/// `==` of `str`: whether two texts hold the same characters.
#[verifier::external_body]
pub(crate) fn same_text(a: &str, b: &str) -> (same: bool)
    ensures
        same == (a@ == b@),
{
    a == b
}

/// Looks a field up in an object; see [`field`].
pub fn find_field<'a>(members: &'a Vec<Member>, name: &str, alias: &str) -> (found: Option<&'a Json>)
    ensures
        match found {
            Some(value) => field(members_view(members@), name@, alias@) == Some(value@),
            None => field(members_view(members@), name@, alias@) is None,
        },
{
    let ghost all = members_view(members@);
    let mut count: usize = 0;
    let mut last: Option<&'a Json> = None;
    let mut i: usize = 0;
    while i < members.len()
        invariant
            all == members_view(members@),
            i <= members.len(),
            count == values_named(all.take(i as int), name@, alias@).len(),
            count <= i,
            count > 0 ==> last is Some && last->Some_0@ == values_named(
                all.take(i as int),
                name@,
                alias@,
            ).last(),
        decreases members.len() - i,
    {
        proof {
            assert(all.take(i + 1).drop_last() == all.take(i as int));
            assert(all.take(i + 1).last() == members@[i as int]@);
        }
        let member = &members[i];
        if same_text(member.key.as_str(), name) || same_text(member.key.as_str(), alias) {
            count = count + 1;
            last = Some(&member.value);
        }
        i = i + 1;
    }
    proof {
        assert(all.take(i as int) == all);
    }
    if count == 1 {
        last
    } else {
        None
    }
}

} // verus!
