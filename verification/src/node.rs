//! The payload of an element-open event: the element's name together
//! with its attributes as an unordered name/value bag.

use vstd::prelude::*;

use crate::text::str_eq;

verus! {

/// An opened element: its local name and its attribute bag, both as
/// plain strings.
pub struct Node {
    pub name: String,
    pub attrs: Vec<(String, String)>,
}

/// Mathematical image of `Node`.
#[verifier::ext_equal]
pub struct NodeV {
    pub name: Seq<char>,
    pub attrs: Seq<(Seq<char>, Seq<char>)>,
}

impl View for Node {
    type V = NodeV;

    open spec fn view(&self) -> NodeV {
        NodeV { name: self.name@, attrs: self.attrs.deep_view() }
    }
}

/// The value of the first attribute named `key`, if any.
pub open spec fn find_attr_spec(attrs: Seq<(Seq<char>, Seq<char>)>, key: Seq<char>) -> Option<
    Seq<char>,
>
    decreases attrs.len(),
{
    if attrs.len() == 0 {
        None
    } else if attrs[0].0 == key {
        Some(attrs[0].1)
    } else {
        find_attr_spec(attrs.drop_first(), key)
    }
}

/// When no attribute among the first `i` is named `key`, the lookup is
/// decided by the rest of the bag.
proof fn lemma_find_attr_skip(attrs: Seq<(Seq<char>, Seq<char>)>, key: Seq<char>, i: int)
    requires
        0 <= i <= attrs.len(),
        forall|j: int| 0 <= j < i ==> attrs[j].0 != key,
    ensures
        find_attr_spec(attrs, key) == find_attr_spec(attrs.skip(i), key),
    decreases i,
{
    if i == 0 {
        assert(attrs.skip(0) =~= attrs);
    } else {
        lemma_find_attr_skip(attrs, key, i - 1);
        assert(attrs.skip(i - 1).drop_first() =~= attrs.skip(i));
        assert(attrs.skip(i - 1)[0] == attrs[i - 1]);
    }
}

impl Node {
    pub fn new(name: String, attrs: Vec<(String, String)>) -> (n: Node)
        ensures
            n.name == name,
            n.attrs == attrs,
    {
        Node { name, attrs }
    }

    /// The element's name as a string slice.
    pub fn name_str(&self) -> (s: &str)
        ensures
            s@ == self@.name,
    {
        self.name.as_str()
    }

    /// Whether the element's name is exactly `name`.
    pub fn has_name(&self, name: &str) -> (r: bool)
        ensures
            r == (self@.name == name@),
    {
        str_eq(self.name.as_str(), name)
    }

    /// The value of the first attribute named `key`, if any.
    pub fn find(&self, key: &str) -> (r: Option<String>)
        ensures
            match r {
                Some(v) => find_attr_spec(self@.attrs, key@) == Some(v@),
                None => find_attr_spec(self@.attrs, key@) is None,
            },
    {
        let mut i: usize = 0;
        while i < self.attrs.len()
            invariant
                0 <= i <= self.attrs.len(),
                forall|j: int| 0 <= j < i ==> self@.attrs[j].0 != key@,
            decreases self.attrs.len() - i,
        {
            let hit = str_eq(self.attrs[i].0.as_str(), key);
            if hit {
                proof {
                    lemma_find_attr_skip(self@.attrs, key@, i as int);
                    assert(self@.attrs.skip(i as int)[0] == self@.attrs[i as int]);
                }
                return Some(self.attrs[i].1.clone());
            }
            i = i + 1;
        }
        proof {
            lemma_find_attr_skip(self@.attrs, key@, i as int);
            assert(self@.attrs.skip(i as int) =~= Seq::<(Seq<char>, Seq<char>)>::empty());
        }
        None
    }
}

} // verus!
