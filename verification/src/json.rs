//! JSON documents as a tree of plain values.

use vstd::prelude::*;

verus! {

/// One member of an object: a name and the value that stands under it.
pub struct Field {
    pub name: Seq<char>,
    pub value: Tree,
}

/// The mathematical model of a JSON document.
pub enum Tree {
    Null,
    Bool(bool),
    /// A number, held as the decimal text that denotes it.
    Number(Seq<char>),
    Text(Seq<char>),
    Array(Seq<Tree>),
    /// The members of an object, in the order in which they are held.
    Object(Seq<Field>),
}

/// A JSON document.
#[derive(Debug, PartialEq, Eq)]
pub enum Json {
    Null,
    Bool(bool),
    /// A number, held as the decimal text that denotes it.
    Number(String),
    Text(String),
    Array(Vec<Json>),
    /// The members of an object, in the order in which they are held.
    Object(Vec<(String, Json)>),
}

impl View for Json {
    type V = Tree;

    open spec fn view(&self) -> Tree
        decreases self,
    {
        match self {
            Json::Null => Tree::Null,
            Json::Bool(b) => Tree::Bool(*b),
            Json::Number(n) => Tree::Number(n@),
            Json::Text(s) => Tree::Text(s@),
            Json::Array(items) => Tree::Array(
                Seq::new(
                    items@.len(),
                    |i: int|
                        if 0 <= i < items@.len() {
                            items@[i]@
                        } else {
                            Tree::Null
                        },
                ),
            ),
            Json::Object(members) => Tree::Object(
                Seq::new(
                    members@.len(),
                    |i: int|
                        if 0 <= i < members@.len() {
                            Field { name: members@[i].0@, value: members@[i].1@ }
                        } else {
                            Field { name: Seq::empty(), value: Tree::Null }
                        },
                ),
            ),
        }
    }
}

/// The value of the first member called `name` among `members`.
pub open spec fn find(members: Seq<Field>, name: Seq<char>) -> Option<Tree>
    decreases members.len(),
{
    if members.len() == 0 {
        None
    } else if members[0].name == name {
        Some(members[0].value)
    } else {
        find(members.drop_first(), name)
    }
}

impl Tree {
    /// The member called `name`, where this is an object that has one.
    pub open spec fn member(self, name: Seq<char>) -> Option<Tree> {
        match self {
            Tree::Object(members) => find(members, name),
            _ => None,
        }
    }

    /// The truth value, where this is one.
    pub open spec fn truth(self) -> Option<bool> {
        match self {
            Tree::Bool(b) => Some(b),
            _ => None,
        }
    }

    /// The text, where this is a string.
    pub open spec fn text(self) -> Option<Seq<char>> {
        match self {
            Tree::Text(s) => Some(s),
            _ => None,
        }
    }

    /// The elements, where this is an array.
    pub open spec fn items(self) -> Option<Seq<Tree>> {
        match self {
            Tree::Array(items) => Some(items),
            _ => None,
        }
    }
}

/// The views of the documents in `items`, in the same order.
pub open spec fn trees(items: Seq<Json>) -> Seq<Tree> {
    Seq::new(items.len(), |i: int| items[i]@)
}

impl Json {
    /// The member called `name`, where this is an object that has one.
    pub fn get(&self, name: &str) -> (r: Option<&Json>)
        ensures
            match r {
                Some(found) => self@.member(name@) == Some(found@),
                None => self@.member(name@) is None,
            },
    {
        match self {
            Json::Object(members) => {
                let key = String::from_str(name);
                let ghost all = self@->Object_0;
                let mut i: usize = 0;
                assert(all.skip(0) =~= all);
                while i < members.len()
                    invariant
                        i <= members.len(),
                        key@ == name@,
                        self@ == Tree::Object(all),
                        all.len() == members.len(),
                        forall|k: int|
                            0 <= k < members.len() ==> #[trigger] all[k] == (Field {
                                name: members[k].0@,
                                value: members[k].1@,
                            }),
                        find(all, name@) == find(all.skip(i as int), name@),
                    decreases members.len() - i,
                {
                    proof {
                        let rest = all.skip(i as int);
                        assert(rest.drop_first() == all.skip(i + 1));
                    }
                    if members[i].0 == key {
                        return Some(&members[i].1);
                    }
                    i += 1;
                }
                None
            },
            _ => None,
        }
    }

    /// The truth value, where this is one.
    pub fn as_bool(&self) -> (r: Option<bool>)
        ensures
            r == self@.truth(),
    {
        match self {
            Json::Bool(b) => Some(*b),
            _ => None,
        }
    }

    /// The text, where this is a string.
    pub fn as_str(&self) -> (r: Option<&String>)
        ensures
            match r {
                Some(s) => self@.text() == Some(s@),
                None => self@.text() is None,
            },
    {
        match self {
            Json::Text(s) => Some(s),
            _ => None,
        }
    }

    /// The elements, where this is an array.
    pub fn as_array(&self) -> (r: Option<&Vec<Json>>)
        ensures
            match r {
                Some(items) => self@.items() == Some(trees(items@)),
                None => self@.items() is None,
            },
    {
        match self {
            Json::Array(items) => Some(items),
            _ => None,
        }
    }
}

impl Clone for Json {
    /// A copy that denotes the same document.
    fn clone(&self) -> (r: Json)
        ensures
            r@ == self@,
        decreases self,
    {
        match self {
            Json::Null => Json::Null,
            Json::Bool(b) => Json::Bool(*b),
            Json::Number(n) => Json::Number(n.clone()),
            Json::Text(s) => Json::Text(s.clone()),
            Json::Array(items) => {
                let mut copy: Vec<Json> = Vec::new();
                let mut i: usize = 0;
                while i < items.len()
                    invariant
                        *self == Json::Array(*items),
                        i <= items.len(),
                        copy.len() == i,
                        forall|k: int| 0 <= k < i ==> (#[trigger] copy[k])@ == items[k]@,
                    decreases items.len() - i,
                {
                    proof {
                        vstd::std_specs::vec::axiom_vec_index_decreases(*items, i as int);
                        assert(decreases_to!(*self => self->Array_0));
                    }
                    copy.push(items[i].clone());
                    i += 1;
                }
                let r = Json::Array(copy);
                assert(r@->Array_0 =~= self@->Array_0);
                r
            },
            Json::Object(members) => {
                let mut copy: Vec<(String, Json)> = Vec::new();
                let mut i: usize = 0;
                while i < members.len()
                    invariant
                        *self == Json::Object(*members),
                        i <= members.len(),
                        copy.len() == i,
                        forall|k: int|
                            0 <= k < i ==> (#[trigger] copy[k]).0@ == members[k].0@ && copy[k].1@
                                == members[k].1@,
                    decreases members.len() - i,
                {
                    proof {
                        vstd::std_specs::vec::axiom_vec_index_decreases(*members, i as int);
                        assert(decreases_to!(*self => self->Object_0));
                    }
                    copy.push((members[i].0.clone(), members[i].1.clone()));
                    i += 1;
                }
                let r = Json::Object(copy);
                assert(r@->Object_0 =~= self@->Object_0);
                r
            },
        }
    }
}

/// `serde_json::Value`, of which nothing is known here but that it exists.
#[verifier::external_type_specification]
#[verifier::external_body]
pub struct ExValue(serde_json::Value);

/// What `serde_json::from_slice` makes of the bytes `body` when asked for a
/// `serde_json::Value`: the document they denote, or the text of its error.
pub uninterp spec fn parsed(body: Seq<u8>) -> Result<Tree, Seq<char>>;

/// Turns a `serde_json::Value` into a `Json`, variant by variant: a number
/// becomes the text that `serde_json::Number` displays, an object its members
/// in the order in which `serde_json::Map` walks them. Nothing is claimed of
/// the result here; `parse` names it.
#[verifier::external_body]
fn from_value(value: &serde_json::Value) -> Json {
    match value {
        serde_json::Value::Null => Json::Null,
        serde_json::Value::Bool(b) => Json::Bool(*b),
        serde_json::Value::Number(n) => Json::Number(n.to_string()),
        serde_json::Value::String(s) => Json::Text(s.clone()),
        serde_json::Value::Array(items) => Json::Array(items.iter().map(from_value).collect()),
        serde_json::Value::Object(members) => Json::Object(
            members.iter().map(|(name, value)| (name.clone(), from_value(value))).collect(),
        ),
    }
}

/// Calls `serde_json::from_slice` for a `serde_json::Value`. The contract only
/// gives the outcome its name: the same bytes always yield the same document
/// or the same error text. Which bytes denote which document is not stated.
#[verifier::external_body]
pub(crate) fn parse(body: &[u8]) -> (r: Result<Json, String>)
    ensures
        parsed(body@) == match r {
            Ok(document) => Ok::<Tree, Seq<char>>(document@),
            Err(reason) => Err::<Tree, Seq<char>>(reason@),
        },
{
    match serde_json::from_slice::<serde_json::Value>(body) {
        Ok(value) => Ok(from_value(&value)),
        Err(e) => Err(e.to_string()),
    }
}

} // verus!
