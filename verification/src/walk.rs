//! Discovery and insertion: the depth-first, pre-order walk over a
//! list of root paths.
//!
//! The walk is a state machine.  It keeps a stack of pending work
//! items; the caller repeatedly asks for the next pending path
//! (`Traversal::next_path`), queries the filesystem about it, and hands
//! the observed facts to `Local::step`, which makes every decision:
//! skip, build a node, insert it, and schedule a directory's entries
//! under the new node's id.  Every decision is verified for every
//! possible set of observed facts.

use vstd::prelude::*;

use crate::attribute::Attributes;
use crate::attribute::Value;
use crate::error::LocalError;
use crate::metadata::FsMetadata;
use crate::node::Node;
use crate::node::file_name_of;
use crate::node::is_dir_node;
use crate::node::is_file_node;
use crate::tree::Tree;
use crate::tree::TreeEntry;
use crate::tree::TreeNodeId;
use crate::tree::children_of;
use crate::tree::lemma_children_after_insert;
use crate::tree::lemma_no_children_yet;
use crate::tree::tree_wf;
use crate::vfile::LocalVFileBuilder;

verus! {

/// The ingestion component.
#[derive(Default)]
pub struct Local {}

/// Configuration of one run: the root paths to ingest and the id of
/// the existing node to attach them under.
#[derive(Debug)]
pub struct Arguments {
    pub files: Vec<String>,
    pub mount_point: TreeNodeId,
}

/// The empty success record of a completed run.
#[derive(Debug, Default)]
pub struct Results {}

/// What the caller's filesystem queries reported about one pending
/// path.
pub enum PathFacts {
    /// The metadata query failed: the path does not resolve.  The path
    /// is skipped; never an error.
    Missing,
    /// The metadata query succeeded.
    Found {
        /// The reported metadata.
        metadata: FsMetadata,
        /// For a regular file, the outcome of the probe open:
        /// `Some(size)` when the probe open succeeded and the follow-up
        /// metadata query reported `size`, `None` when either failed.
        /// Ignored for non-files.
        probe: Option<u64>,
        /// For a directory, its immediate entries as full path strings
        /// in listing order (entries whose path cannot be represented
        /// already dropped), or `None` when the listing failed.
        /// Ignored for non-directories.
        entries: Option<Vec<String>>,
    },
}

/// One pending unit of work: a path still to visit and the id of the
/// node its own node would be attached under.
pub struct WorkItem {
    pub parent: TreeNodeId,
    pub path: String,
}

/// The pending-work stack of one run.  The next path to visit is the
/// last item; a directory's entries are stacked in reverse so that
/// they are visited in listing order, giving a pre-order,
/// left-to-right walk.
pub struct Traversal {
    stack: Vec<WorkItem>,
}

impl View for Traversal {
    type V = Seq<WorkItem>;

    closed spec fn view(&self) -> Seq<WorkItem> {
        self.stack@
    }
}

impl Traversal {
    /// Starts a walk over `files`, each to be attached under
    /// `mount_point`: the stack holds one item per root path, the
    /// first root on top.
    pub fn new(mount_point: TreeNodeId, files: Vec<String>) -> (r: Traversal)
        ensures
            r@.len() == files@.len(),
            forall|j: int|
                0 <= j < files@.len() ==> r@[j].parent == mount_point && r@[j].path@
                    == files@[files@.len() - 1 - j]@,
    {
        let mut stack: Vec<WorkItem> = Vec::new();
        let n = files.len();
        let mut i: usize = n;
        while i > 0
            invariant
                n == files@.len(),
                0 <= i <= n,
                stack@.len() == n - i,
                forall|j: int|
                    0 <= j < stack@.len() ==> stack@[j].parent == mount_point && stack@[j].path@
                        == files@[n - 1 - j]@,
            decreases i,
        {
            i = i - 1;
            let path = files[i].clone();
            stack.push(WorkItem { parent: mount_point, path });
        }
        Traversal { stack }
    }

    /// The next path the caller must query the filesystem about, or
    /// `None` when the walk is complete.
    pub fn next_path(&self) -> (r: Option<String>)
        ensures
            match r {
                Some(p) => self@.len() > 0 && p@ == self@.last().path@,
                None => self@.len() == 0,
            },
    {
        if self.stack.len() == 0 {
            None
        } else {
            Some(self.stack[self.stack.len() - 1].path.clone())
        }
    }
}

/// What one `step` promises for the pending item `item`, given the
/// observed `facts`: which paths are skipped, what node is inserted
/// where, when the run aborts, and which entries are scheduled next.
pub open spec fn step_post(
    item: WorkItem,
    rest: Seq<WorkItem>,
    facts: PathFacts,
    tree0: Seq<TreeEntry>,
    tree1: Seq<TreeEntry>,
    stack1: Seq<WorkItem>,
    r: Result<(), LocalError>,
) -> bool {
    match facts {
        // An unresolvable path yields no node and leaves the rest of
        // the walk untouched.
        PathFacts::Missing => r is Ok && tree1 == tree0 && stack1 == rest,
        PathFacts::Found { metadata, probe, entries } => {
            if metadata.is_file && probe is None {
                // A file whose probe failed is not represented at all.
                r is Ok && tree1 == tree0 && stack1 == rest
            } else if item.parent.index >= tree0.len() {
                // Insertion failure: fatal, nothing changed.
                r matches Err(e) && e.is_invalid_parent(item.parent.index) && tree1 == tree0
                    && stack1 == rest
            } else {
                // Exactly one node is appended, as the last child of
                // the item's parent; nothing else in the tree moves.
                &&& r is Ok
                &&& tree1.len() == tree0.len() + 1
                &&& tree1.drop_last() == tree0
                &&& (tree_wf(tree0) ==> tree_wf(tree1))
                &&& tree1.last().parent == Some(item.parent.index)
                &&& (metadata.is_file ==> is_file_node(
                    tree1.last().node,
                    item.path@,
                    metadata,
                    probe->0,
                ))
                &&& (!metadata.is_file ==> is_dir_node(tree1.last().node, item.path@, metadata))
                &&& if metadata.is_dir && entries is Some {
                    // The directory's entries are scheduled under the
                    // new node's id, first entry on top.
                    let es = entries->0;
                    &&& stack1.len() == rest.len() + es@.len()
                    &&& stack1.subrange(0, rest.len() as int) == rest
                    &&& forall|j: int|
                        0 <= j < es@.len() ==> (#[trigger] stack1[rest.len() + j]).parent
                            == (TreeNodeId { index: tree0.len() as usize }) && stack1[rest.len()
                            + j].path@ == es@[es@.len() - 1 - j]@
                } else {
                    stack1 == rest
                }
            }
        },
    }
}

/// Law: stepping an existing, probe-readable regular file yields
/// exactly one new node — tagged `"file"`, named after the path, its
/// accessor caching exactly the probed size — attached as the last
/// child of the pending item's parent; every existing node, and every
/// other node's child list, is untouched.
pub proof fn lemma_file_ingestion(
    item: WorkItem,
    rest: Seq<WorkItem>,
    metadata: FsMetadata,
    size: u64,
    entries: Option<Vec<String>>,
    tree0: Seq<TreeEntry>,
    tree1: Seq<TreeEntry>,
    stack1: Seq<WorkItem>,
    r: Result<(), LocalError>,
)
    requires
        metadata.is_file,
        item.parent.index < tree0.len(),
        step_post(
            item,
            rest,
            PathFacts::Found { metadata, probe: Some(size), entries },
            tree0,
            tree1,
            stack1,
            r,
        ),
    ensures
        r is Ok,
        tree1.len() == tree0.len() + 1,
        is_file_node(tree1.last().node, item.path@, metadata, size),
        tree_wf(tree0) ==> tree_wf(tree1),
        forall|i: int| 0 <= i < tree0.len() ==> tree1[i] == tree0[i],
        children_of(tree1, item.parent.index) == children_of(tree0, item.parent.index).push(
            tree0.len() as usize,
        ),
        forall|p: usize|
            p != item.parent.index ==> #[trigger] children_of(tree1, p) == children_of(tree0, p),
{
    assert(tree1 =~= tree0.push(tree1.last()));
    lemma_children_after_insert(tree0, tree1.last(), item.parent.index);
    assert forall|p: usize|
        p != item.parent.index implies #[trigger] children_of(tree1, p) == children_of(
        tree0,
        p,
    ) by {
        lemma_children_after_insert(tree0, tree1.last(), p);
    }
}

/// Law: stepping an existing directory yields exactly one new node —
/// tagged `"directory"`, named after the path — attached as the last
/// child of the pending item's parent, and schedules one pending work
/// item per listed entry, in listing order, each under the new node's
/// id.  A failed listing schedules nothing, leaving the node present
/// but childless; in a well-formed tree the new node has no children
/// at this point either way.
pub proof fn lemma_directory_ingestion(
    item: WorkItem,
    rest: Seq<WorkItem>,
    metadata: FsMetadata,
    probe: Option<u64>,
    entries: Option<Vec<String>>,
    tree0: Seq<TreeEntry>,
    tree1: Seq<TreeEntry>,
    stack1: Seq<WorkItem>,
    r: Result<(), LocalError>,
)
    requires
        !metadata.is_file,
        metadata.is_dir,
        tree0.len() <= usize::MAX,
        item.parent.index < tree0.len(),
        step_post(
            item,
            rest,
            PathFacts::Found { metadata, probe, entries },
            tree0,
            tree1,
            stack1,
            r,
        ),
    ensures
        r is Ok,
        tree1.len() == tree0.len() + 1,
        is_dir_node(tree1.last().node, item.path@, metadata),
        tree_wf(tree0) ==> tree_wf(tree1),
        forall|i: int| 0 <= i < tree0.len() ==> tree1[i] == tree0[i],
        children_of(tree1, item.parent.index) == children_of(tree0, item.parent.index).push(
            tree0.len() as usize,
        ),
        tree_wf(tree0) ==> children_of(tree1, tree0.len() as usize) == Seq::<usize>::empty(),
        entries matches Some(es) ==> {
            &&& stack1.len() == rest.len() + es@.len()
            &&& stack1.subrange(0, rest.len() as int) == rest
            &&& forall|j: int|
                0 <= j < es@.len() ==> (#[trigger] stack1[rest.len() + j]).parent == (TreeNodeId {
                    index: tree0.len() as usize,
                }) && stack1[rest.len() + j].path@ == es@[es@.len() - 1 - j]@
        },
        entries is None ==> stack1 == rest,
{
    assert(tree1 =~= tree0.push(tree1.last()));
    lemma_children_after_insert(tree0, tree1.last(), item.parent.index);
    if tree_wf(tree0) {
        let q = tree0.len() as usize;
        lemma_no_children_yet(tree0, q);
        lemma_children_after_insert(tree0, tree1.last(), q);
    }
}

/// Law: a path that does not resolve, or a regular file whose probe
/// open failed, yields no node at all and leaves both the tree and
/// the remaining pending work untouched — the other listed paths are
/// processed exactly as they would have been.
pub proof fn lemma_skipped_path(
    item: WorkItem,
    rest: Seq<WorkItem>,
    facts: PathFacts,
    tree0: Seq<TreeEntry>,
    tree1: Seq<TreeEntry>,
    stack1: Seq<WorkItem>,
    r: Result<(), LocalError>,
)
    requires
        step_post(item, rest, facts, tree0, tree1, stack1, r),
        facts is Missing || (facts matches PathFacts::Found { metadata, probe, entries }
            && metadata.is_file && probe is None),
    ensures
        r is Ok,
        tree1 == tree0,
        stack1 == rest,
{
}

impl Local {
    /// Maps one metadata record to its attribute set: each of the
    /// three timestamps is present exactly when the platform reported
    /// it, and nothing else is.
    pub fn create_attributes(&self, metadata: &FsMetadata) -> (r: Attributes)
        ensures
            r@ == crate::attribute::time_attrs(*metadata),
    {
        let mut attributes = Attributes::new();
        if let Some(time) = metadata.accessed {
            attributes.add_attribute("accessed", Some(Value::DateTime(time)));
        }
        if let Some(time) = metadata.created {
            attributes.add_attribute("created", Some(Value::DateTime(time)));
        }
        if let Some(time) = metadata.modified {
            attributes.add_attribute("modified", Some(Value::DateTime(time)));
        }
        attributes
    }

    /// Builds the node for one discovered path, given its metadata and
    /// — for a regular file — the outcome of the probe open.
    ///
    /// A file whose probe failed yields no node at all: a file whose
    /// content can never be retrieved is not represented.  Every other
    /// outcome yields exactly the file node or directory node of the
    /// path.
    pub fn create_node(&self, file_path: String, metadata: &FsMetadata, probe: Option<u64>) -> (r:
        Option<Node>)
        ensures
            match r {
                Some(n) => {
                    &&& (metadata.is_file ==> probe is Some && is_file_node(
                        n,
                        file_path@,
                        *metadata,
                        probe->0,
                    ))
                    &&& (!metadata.is_file ==> is_dir_node(n, file_path@, *metadata))
                },
                None => metadata.is_file && probe is None,
            },
    {
        let file_name = file_name_of(file_path.as_str());
        let mut node = Node::new(file_name);
        let attributes = self.create_attributes(metadata);
        node.add_attribute("local", Some(Value::Attributes(attributes)));

        if metadata.is_file {
            let vfile_builder = match LocalVFileBuilder::new(file_path, probe) {
                Ok(vfile_builder) => vfile_builder,
                Err(_) => {
                    return None;
                },
            };
            node.add_attribute("file", None);
            node.add_attribute("data", Some(Value::VFileBuilder(vfile_builder)));
        } else {
            node.add_attribute("directory", None);
        }
        Some(node)
    }

    /// Performs one step of the walk: pops the pending item, applies
    /// the observed facts, and returns whether the run may continue.
    ///
    /// The contract (`step_post`) pins every outcome down: a missing
    /// path or failed probe is skipped with nothing changed; otherwise
    /// exactly one node is inserted under the item's parent — or, when
    /// that parent id is not in the tree, the run aborts with an
    /// insertion error and the tree untouched; a listable directory
    /// schedules its entries under the new node's id in listing order.
    pub fn step(&self, traversal: &mut Traversal, tree: &mut Tree, facts: PathFacts) -> (r: Result<
        (),
        LocalError,
    >)
        requires
            old(traversal)@.len() > 0,
        ensures
            step_post(
                old(traversal)@.last(),
                old(traversal)@.drop_last(),
                facts,
                old(tree)@,
                final(tree)@,
                final(traversal)@,
                r,
            ),
    {
        let item = traversal.stack.pop().unwrap();
        let ghost rest = old(traversal)@.drop_last();
        match facts {
            PathFacts::Missing => Ok(()),
            PathFacts::Found { metadata, probe, entries } => {
                match self.create_node(item.path, &metadata, probe) {
                    None => Ok(()),
                    Some(node) => {
                        let node_id = match tree.add_child(item.parent, node) {
                            Ok(node_id) => node_id,
                            Err(e) => {
                                return Err(e);
                            },
                        };
                        proof {
                            assert(tree@.drop_last() =~= old(tree)@);
                            assert(traversal@.subrange(0, rest.len() as int) =~= rest);
                        }
                        if metadata.is_dir {
                            if let Some(es) = entries {
                                let n = es.len();
                                let mut i: usize = n;
                                while i > 0
                                    invariant
                                        n == es@.len(),
                                        0 <= i <= n,
                                        traversal@.len() == rest.len() + n - i,
                                        traversal@.subrange(0, rest.len() as int) == rest,
                                        forall|j: int|
                                            0 <= j < n - i ==> (#[trigger] traversal@[rest.len()
                                                + j]).parent == node_id && traversal@[rest.len()
                                                + j].path@ == es@[n - 1 - j]@,
                                    decreases i,
                                {
                                    i = i - 1;
                                    let path = es[i].clone();
                                    traversal.stack.push(WorkItem { parent: node_id, path });
                                    proof {
                                        assert(traversal@.subrange(0, rest.len() as int)
                                            =~= rest);
                                    }
                                }
                            }
                        }
                        Ok(())
                    },
                }
            },
        }
    }
}

} // verus!
