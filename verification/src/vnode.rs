//! Virtual nodes: the immutable trees a render function hands back to the
//! host framework for reconciliation.
//!
//! The binding layer never interprets an element's type or properties; it
//! only builds the tree and passes it through, so a node is plain data: a
//! tag with properties and children, a text node, a named component
//! instance, or the empty node that renders nothing.

use vstd::prelude::*;

use crate::boundary::BoundaryValue;
use crate::boundary::dec_text;
use crate::boundary::int_to_text;

verus! {

/// Properties attached to a node: an ordered list of name/value pairs where
/// the entry inserted last wins a lookup.
#[derive(Clone, PartialEq, Eq, Debug)]
pub struct Props {
    entries: Vec<(String, BoundaryValue)>,
}

/// What looking a key up in properties yields: the value of the last entry
/// carrying the key, or nothing when no entry does.
pub open spec fn props_lookup(entries: Seq<(String, BoundaryValue)>, key: Seq<char>) -> Option<
    BoundaryValue,
>
    decreases entries.len(),
{
    if entries.len() == 0 {
        None
    } else if entries.last().0@ == key {
        Some(entries.last().1)
    } else {
        props_lookup(entries.drop_last(), key)
    }
}

impl View for Props {
    type V = Seq<(String, BoundaryValue)>;

    closed spec fn view(&self) -> Seq<(String, BoundaryValue)> {
        self.entries@
    }
}

impl Props {
    /// Properties with no entries.
    pub fn new() -> (r: Props)
        ensures
            r@ == Seq::<(String, BoundaryValue)>::empty(),
    {
        Props { entries: Vec::new() }
    }

    /// Adds an entry; it shadows every earlier entry with the same name.
    pub fn insert(self, key: String, value: BoundaryValue) -> (r: Props)
        ensures
            r@ == self@.push((key, value)),
    {
        let mut entries = self.entries;
        entries.push((key, value));
        Props { entries }
    }

    /// The number of entries.
    pub fn len(&self) -> (n: usize)
        ensures
            n == self@.len(),
    {
        self.entries.len()
    }

    /// The entry at the given position, in insertion order.
    pub fn entry(&self, i: usize) -> (r: &(String, BoundaryValue))
        requires
            i < self@.len(),
        ensures
            *r == self@[i as int],
    {
        &self.entries[i]
    }

    /// Looks a name up; the entry inserted last wins.
    pub fn get<'a>(&'a self, key: &String) -> (r: Option<&'a BoundaryValue>)
        ensures
            match r {
                Some(v) => props_lookup(self@, key@) == Some(*v),
                None => props_lookup(self@, key@) is None,
            },
    {
        let mut i = self.entries.len();
        proof {
            assert(self@.take(self@.len() as int) =~= self@);
        }
        while i > 0
            invariant
                i <= self.entries.len(),
                props_lookup(self@, key@) == props_lookup(self@.take(i as int), key@),
            decreases i,
        {
            i = i - 1;
            proof {
                assert(self@.take(i + 1).last() == self@[i as int]);
                assert(self@.take(i + 1).drop_last() =~= self@.take(i as int));
            }
            if self.entries[i].0 == *key {
                return Some(&self.entries[i].1);
            }
        }
        proof {
            assert(self@.take(0) =~= Seq::<(String, BoundaryValue)>::empty());
        }
        None
    }
}

/// A node in the virtual tree handed to the host framework.
#[derive(PartialEq, Eq, Debug)]
pub enum VNode {
    /// A node that renders nothing.
    Empty,
    /// A text node.
    Text(String),
    /// A host-framework element: a type tag, its properties and its
    /// children, all passed through uninterpreted.
    Element { element_type: String, props: Props, children: VNodeList },
    /// A component instance keyed by its stable name, with the properties
    /// its adapter will convert on render.
    Component { name: String, props: Props },
}

impl VNode {
    /// An empty node that doesn't render anything.
    pub fn empty() -> (r: VNode)
        ensures
            r == VNode::Empty,
    {
        VNode::Empty
    }

    /// A text node holding the given text.
    pub fn text(s: String) -> (r: VNode)
        ensures
            r matches VNode::Text(t) && t@ == s@,
    {
        VNode::Text(s)
    }

    /// A text node rendering an integer the way the host runtime displays
    /// one: its decimal digits, with a leading minus sign when negative.
    pub fn from_int(n: i64) -> (r: VNode)
        ensures
            r matches VNode::Text(t) && t@ == dec_text(n as int),
    {
        VNode::Text(int_to_text(n))
    }

    /// A text node for an optional boundary value, rendering text and
    /// integers and falling back to the empty node for every other shape —
    /// absent values render nothing.
    pub fn from_boundary(value: &BoundaryValue) -> (r: VNode)
        ensures
            match value@ {
                crate::boundary::BoundaryVal::Text(s) => r matches VNode::Text(t) && t@ == s,
                crate::boundary::BoundaryVal::Int(n) => r matches VNode::Text(t) && t@ == dec_text(
                    n,
                ),
                _ => r == VNode::Empty,
            },
    {
        match value {
            BoundaryValue::Text(s) => VNode::Text(s.clone()),
            BoundaryValue::Int(n) => VNode::from_int(*n),
            _ => VNode::Empty,
        }
    }
}

/// A list of nodes in the virtual tree handed to the host framework.
#[derive(PartialEq, Eq, Debug)]
pub struct VNodeList {
    nodes: Vec<VNode>,
}

impl View for VNodeList {
    type V = Seq<VNode>;

    closed spec fn view(&self) -> Seq<VNode> {
        self.nodes@
    }
}

impl VNodeList {
    /// Creates a new, empty list.
    pub fn new() -> (r: VNodeList)
        ensures
            r@ == Seq::<VNode>::empty(),
    {
        VNodeList { nodes: Vec::new() }
    }

    /// Adds the given node to the end of the list.
    pub fn push(&mut self, node: VNode)
        ensures
            final(self)@ == old(self)@.push(node),
    {
        self.nodes.push(node);
    }

    /// Adds every node of the given list to the end of the list, in order.
    pub fn extend(&mut self, other: VNodeList)
        ensures
            final(self)@ == old(self)@ + other@,
    {
        let mut incoming = other.nodes;
        self.nodes.append(&mut incoming);
    }

    /// Collects already-built nodes into a list, keeping their order.
    pub fn from_vec(nodes: Vec<VNode>) -> (r: VNodeList)
        ensures
            r@ == nodes@,
    {
        VNodeList { nodes }
    }

    /// The number of nodes in the list.
    pub fn len(&self) -> (n: usize)
        ensures
            n == self@.len(),
    {
        self.nodes.len()
    }

    /// The node at the given position.
    pub fn get(&self, i: usize) -> (r: &VNode)
        requires
            i < self@.len(),
        ensures
            *r == self@[i as int],
    {
        &self.nodes[i]
    }
}

} // verus!
