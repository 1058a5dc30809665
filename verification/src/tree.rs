//! The tree that ingestion fills: nodes addressed by id, each holding
//! its discovery-time parent edge.
//!
//! A node is inserted once under the parent it was discovered beneath
//! and never moved or altered afterwards.  Insertion under an id that
//! is not in the tree is the one fatal failure of a run.

use vstd::prelude::*;

use crate::error::LocalError;
use crate::node::Node;

verus! {

/// Identifier of one node in a tree: its insertion rank.
#[derive(Clone, Copy, Debug, PartialEq, Eq, Structural)]
pub struct TreeNodeId {
    pub index: usize,
}

/// One stored node together with its parent edge (`None` for a root).
pub struct TreeEntry {
    pub node: Node,
    pub parent: Option<usize>,
}

/// A tree of nodes; ids are stable and children keep insertion order.
pub struct Tree {
    entries: Vec<TreeEntry>,
}

impl View for Tree {
    type V = Seq<TreeEntry>;

    closed spec fn view(&self) -> Seq<TreeEntry> {
        self.entries@
    }
}

/// The ids of the children of node `p` in `s`, in insertion order.
pub open spec fn children_of(s: Seq<TreeEntry>, p: usize) -> Seq<usize>
    decreases s.len(),
{
    if s.len() == 0 {
        Seq::empty()
    } else {
        let rest = children_of(s.drop_last(), p);
        if s.last().parent == Some(p) {
            rest.push((s.len() - 1) as usize)
        } else {
            rest
        }
    }
}

/// Appending one entry extends exactly its own parent's child list and
/// no other: the new node becomes the last child of its parent, and
/// every other node's children are untouched.
pub proof fn lemma_children_after_insert(s: Seq<TreeEntry>, e: TreeEntry, p: usize)
    ensures
        e.parent == Some(p) ==> children_of(s.push(e), p) == children_of(s, p).push(
            s.len() as usize,
        ),
        e.parent != Some(p) ==> children_of(s.push(e), p) == children_of(s, p),
{
    assert(s.push(e).drop_last() =~= s);
}

/// Every parent edge points at an earlier node: nodes are only ever
/// inserted under parents that already existed.
pub open spec fn tree_wf(s: Seq<TreeEntry>) -> bool {
    forall|i: int|
        0 <= i < s.len() ==> match (#[trigger] s[i]).parent {
            Some(p) => p < i,
            None => true,
        }
}

/// In a well-formed tree an id not yet in the tree has no children:
/// in particular a freshly inserted node starts childless.
pub proof fn lemma_no_children_yet(s: Seq<TreeEntry>, q: usize)
    requires
        tree_wf(s),
        q >= s.len(),
    ensures
        children_of(s, q) == Seq::<usize>::empty(),
    decreases s.len(),
{
    if s.len() > 0 {
        assert(tree_wf(s.drop_last())) by {
            assert(forall|i: int|
                0 <= i < s.len() - 1 ==> #[trigger] s.drop_last()[i] == s[i]);
        }
        lemma_no_children_yet(s.drop_last(), q);
    }
}

impl Tree {
    /// Creates an empty tree.
    pub fn new() -> (r: Tree)
        ensures
            r@ == Seq::<TreeEntry>::empty(),
    {
        Tree { entries: Vec::new() }
    }

    /// The number of nodes.
    pub fn len(&self) -> (r: usize)
        ensures
            r == self@.len(),
    {
        self.entries.len()
    }

    /// Inserts a node with no parent and returns its id.  This is how
    /// the mount point of a run comes to exist.
    pub fn add_root(&mut self, node: Node) -> (r: TreeNodeId)
        ensures
            r.index == old(self)@.len(),
            final(self)@ == old(self)@.push(TreeEntry { node, parent: None }),
            tree_wf(old(self)@) ==> tree_wf(final(self)@),
    {
        let id = TreeNodeId { index: self.entries.len() };
        self.entries.push(TreeEntry { node, parent: None });
        id
    }

    /// Inserts `node` as the last child of `parent`.
    ///
    /// Succeeds exactly when `parent` is an id already in the tree; the
    /// new node then gets the next id and every existing node is left
    /// untouched.  Otherwise the tree is unchanged and the insertion
    /// failure — fatal to a run — is reported.
    pub fn add_child(&mut self, parent: TreeNodeId, node: Node) -> (r: Result<
        TreeNodeId,
        LocalError,
    >)
        ensures
            match r {
                Ok(id) => {
                    &&& parent.index < old(self)@.len()
                    &&& id.index == old(self)@.len()
                    &&& final(self)@ == old(self)@.push(
                        TreeEntry { node, parent: Some(parent.index) },
                    )
                    &&& tree_wf(old(self)@) ==> tree_wf(final(self)@)
                },
                Err(e) => {
                    &&& parent.index >= old(self)@.len()
                    &&& final(self)@ == old(self)@
                    &&& e.is_invalid_parent(parent.index)
                },
            },
    {
        if parent.index >= self.entries.len() {
            return Err(LocalError::InvalidParent(parent.index));
        }
        let id = TreeNodeId { index: self.entries.len() };
        self.entries.push(TreeEntry { node, parent: Some(parent.index) });
        Ok(id)
    }

    /// The node stored under `id`, when `id` is in the tree.
    pub fn get(&self, id: TreeNodeId) -> (r: Option<&Node>)
        ensures
            match r {
                Some(n) => id.index < self@.len() && *n == self@[id.index as int].node,
                None => id.index >= self@.len(),
            },
    {
        if id.index < self.entries.len() {
            Some(&self.entries[id.index].node)
        } else {
            None
        }
    }

    /// The parent edge stored under `id`, when `id` is in the tree.
    pub fn parent_of(&self, id: TreeNodeId) -> (r: Option<Option<usize>>)
        ensures
            match r {
                Some(p) => id.index < self@.len() && p == self@[id.index as int].parent,
                None => id.index >= self@.len(),
            },
    {
        if id.index < self.entries.len() {
            Some(self.entries[id.index].parent)
        } else {
            None
        }
    }

    /// The ids of the children of `p`, in insertion order.
    pub fn children(&self, p: TreeNodeId) -> (r: Vec<TreeNodeId>)
        ensures
            r@.map_values(|id: TreeNodeId| id.index) == children_of(self@, p.index),
    {
        let mut out: Vec<TreeNodeId> = Vec::new();
        let n = self.entries.len();
        let mut i: usize = 0;
        while i < n
            invariant
                n == self@.len(),
                0 <= i <= n,
                out@.map_values(|id: TreeNodeId| id.index) == children_of(
                    self@.subrange(0, i as int),
                    p.index,
                ),
            decreases n - i,
        {
            proof {
                let pre = self@.subrange(0, i as int);
                let ext = self@.subrange(0, i + 1 as int);
                assert(ext.drop_last() =~= pre);
                assert(ext.last() == self@[i as int]);
            }
            let is_child = match self.entries[i].parent {
                Some(q) => q == p.index,
                None => false,
            };
            if is_child {
                out.push(TreeNodeId { index: i });
                proof {
                    assert(out@.map_values(|id: TreeNodeId| id.index) =~= children_of(
                        self@.subrange(0, i + 1 as int),
                        p.index,
                    ));
                }
            }
            i = i + 1;
        }
        proof {
            assert(self@.subrange(0, n as int) =~= self@);
        }
        out
    }
}

} // verus!
