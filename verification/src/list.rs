//! The chain of key/value groups that a logger inherits from its ancestors.

use crate::ser::SyncSerialize;
use std::sync::Arc;
use vstd::prelude::*;

verus! {

/// Key/value pair that a logger owns.
pub type OwnedKeyValue = (&'static str, Box<dyn SyncSerialize>);

/// Chain of key/value groups of a logger and its ancestors.
///
/// A node holds the group added at one level and shares its parent's node.
/// Nothing in a node changes once it is built.
pub struct OwnedKeyValueList {
    parent: Option<Arc<OwnedKeyValueList>>,
    values: Vec<OwnedKeyValue>,
}

impl OwnedKeyValueList {
    /// The group that this node holds itself, in insertion order.
    pub closed spec fn own_values(&self) -> Seq<OwnedKeyValue> {
        self.values@
    }

    /// The parent's node, if this is not a root.
    pub closed spec fn parent_node(&self) -> Option<OwnedKeyValueList> {
        match self.parent {
            Some(p) => Some(*p),
            None => None,
        }
    }

    /// Number of ancestors of this node.
    pub closed spec fn depth(&self) -> nat
        decreases self,
    {
        match self.parent {
            Some(p) => 1 + p.depth(),
            None => 0,
        }
    }

    /// Every pair of the chain: this node's group first, then the parent's,
    /// and so on to the root. Nothing is merged or dropped.
    pub closed spec fn entries(&self) -> Seq<OwnedKeyValue>
        decreases self,
    {
        match self.parent {
            Some(p) => self.values@ + p.entries(),
            None => self.values@,
        }
    }

    /// How `entries` and `depth` are made of a node's group and its parent.
    pub proof fn lemma_entries_unfold(&self)
        ensures
            self.entries() == match self.parent_node() {
                Some(p) => self.own_values() + p.entries(),
                None => self.own_values(),
            },
            self.depth() == match self.parent_node() {
                Some(p) => 1 + p.depth(),
                None => 0,
            },
    {
    }

    /// New chain node with a parent, which it shares.
    pub fn new(values: Vec<OwnedKeyValue>, parent: Arc<OwnedKeyValueList>) -> (r: Self)
        ensures
            r.own_values() == values@,
            r.parent_node() == Some(*parent),
            r.entries() == values@ + parent.entries(),
            r.depth() == parent.depth() + 1,
    {
        OwnedKeyValueList { parent: Some(parent), values: values }
    }

    /// New chain node without a parent.
    pub fn root(values: Vec<OwnedKeyValue>) -> (r: Self)
        ensures
            r.own_values() == values@,
            r.parent_node().is_none(),
            r.entries() == values@,
            r.depth() == 0,
    {
        OwnedKeyValueList { parent: None, values: values }
    }

    /// The parent's node, if there is one.
    pub fn parent(&self) -> (r: &Option<Arc<OwnedKeyValueList>>)
        ensures
            match *r {
                Some(p) => self.parent_node() == Some(*p),
                None => self.parent_node().is_none(),
            },
    {
        &self.parent
    }

    /// The group of this node alone, without the ancestors'.
    pub fn values(&self) -> (r: &Vec<OwnedKeyValue>)
        ensures
            r@ == self.own_values(),
    {
        &self.values
    }

    /// A traversal of the whole chain that starts at this node's first pair.
    pub fn iter(&self) -> (r: OwnedKeyValueListIterator<'_>)
        ensures
            r.remaining() == self.entries(),
    {
        OwnedKeyValueListIterator::new(self)
    }
}

/// A traversal of a chain: the pairs of a node, then those of its ancestors.
pub struct OwnedKeyValueListIterator<'a> {
    next_node: &'a Option<Arc<OwnedKeyValueList>>,
    group: &'a Vec<OwnedKeyValue>,
    pos: usize,
}

impl<'a> OwnedKeyValueListIterator<'a> {
    #[verifier::type_invariant]
    spec fn wf(&self) -> bool {
        self.pos <= self.group@.len()
    }

    /// The pairs that the following steps yield, in that order.
    pub closed spec fn remaining(&self) -> Seq<OwnedKeyValue> {
        self.group@.skip(self.pos as int) + match *self.next_node {
            Some(n) => n.entries(),
            None => Seq::empty(),
        }
    }

    fn new(node: &'a OwnedKeyValueList) -> (r: Self)
        ensures
            r.remaining() == node.entries(),
    {
        OwnedKeyValueListIterator { next_node: &node.parent, group: &node.values, pos: 0 }
    }

    /// Yields the next pair of the chain, or `None` once the root's last
    /// pair has been yielded.
    pub fn next(&mut self) -> (r: Option<&'a OwnedKeyValue>)
        ensures
            match r {
                Some(x) => old(self).remaining().len() > 0 && *x == old(self).remaining()[0]
                    && final(self).remaining() == old(self).remaining().skip(1),
                None => old(self).remaining().len() == 0 && final(self).remaining().len() == 0,
            },
    {
        proof {
            use_type_invariant(&*self);
        }
        loop
            invariant
                self.pos <= self.group@.len(),
                self.remaining() == old(self).remaining(),
            decreases
                    match *self.next_node {
                        Some(n) => n.depth() + 1,
                        None => 0,
                    },
        {
            let group: &'a Vec<OwnedKeyValue> = self.group;
            if self.pos < group.len() {
                let x = &group[self.pos];
                self.pos += 1;
                return Some(x);
            }
            let next_node: &'a Option<Arc<OwnedKeyValueList>> = self.next_node;
            match next_node {
                Some(node) => {
                    self.pos = 0;
                    self.group = &node.values;
                    self.next_node = &node.parent;
                },
                None => {
                    return None;
                },
            }
        }
    }
}

/// A child's traversal yields the whole of its own group, in insertion
/// order, before anything of its parent, and then exactly what the parent's
/// traversal yields. Equal keys are all kept.
pub proof fn lemma_child_yields_own_group_first(child: OwnedKeyValueList, parent: OwnedKeyValueList)
    requires
        child.parent_node() == Some(parent),
    ensures
        child.entries() == child.own_values() + parent.entries(),
        child.entries().len() == child.own_values().len() + parent.entries().len(),
        forall|i: int|
            0 <= i < child.own_values().len() ==> child.entries()[i] == child.own_values()[i],
        forall|j: int|
            0 <= j < parent.entries().len() ==> child.entries()[child.own_values().len() + j]
                == parent.entries()[j],
{
    child.lemma_entries_unfold();
}

/// However many children share one parent, each of them inherits the same
/// pairs: what follows a child's own group is the parent's traversal.
pub proof fn lemma_siblings_inherit_alike(
    a: OwnedKeyValueList,
    b: OwnedKeyValueList,
    parent: OwnedKeyValueList,
)
    requires
        a.parent_node() == Some(parent),
        b.parent_node() == Some(parent),
    ensures
        a.entries().skip(a.own_values().len() as int) == parent.entries(),
        b.entries().skip(b.own_values().len() as int) == parent.entries(),
        a.depth() == b.depth(),
{
    a.lemma_entries_unfold();
    b.lemma_entries_unfold();
    assert(a.entries().skip(a.own_values().len() as int) =~= parent.entries());
    assert(b.entries().skip(b.own_values().len() as int) =~= parent.entries());
}

/// A root's traversal yields its own group and nothing else.
pub proof fn lemma_root_yields_own_group(root: OwnedKeyValueList)
    requires
        root.parent_node().is_none(),
    ensures
        root.entries() == root.own_values(),
        root.depth() == 0,
{
    root.lemma_entries_unfold();
}

} // verus!
