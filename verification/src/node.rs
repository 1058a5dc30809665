//! Tree nodes and the display-name rule.
//!
//! A node carries a display name and an attribute set; parent/child
//! edges are owned by the tree.  The display name of a discovered path
//! is the substring after the last `/`, or the whole path when it has
//! none.

use vstd::prelude::*;

use crate::attribute::Attributes;
use crate::attribute::Value;
use crate::attribute::time_attrs;
use crate::metadata::FsMetadata;

verus! {

/// Index of the first character after the last `/` of `p`, or `0` when
/// `p` holds no `/`.
pub open spec fn name_start(p: Seq<char>) -> int
    decreases p.len(),
{
    if p.len() == 0 {
        0
    } else if p[p.len() - 1] == '/' {
        p.len() as int
    } else {
        name_start(p.drop_last())
    }
}

/// The display name of path `p`: everything after its last `/`, or all
/// of `p` when it holds none.
pub open spec fn base_name(p: Seq<char>) -> Seq<char> {
    p.subrange(name_start(p), p.len() as int)
}

/// `name_start` always lands inside the path.
pub proof fn lemma_name_start_in_range(p: Seq<char>)
    ensures
        0 <= name_start(p) <= p.len(),
    decreases p.len(),
{
    if p.len() > 0 && p[p.len() - 1] != '/' {
        lemma_name_start_in_range(p.drop_last());
    }
}

/// One tree node: a display name plus its attributes.
pub struct Node {
    pub name: String,
    pub attributes: Attributes,
}

impl Node {
    /// Creates a node with the given display name and no attributes.
    pub fn new(name: String) -> (r: Node)
        ensures
            r.name@ == name@,
            r.attributes@ == Seq::<(Seq<char>, Option<Value>)>::empty(),
    {
        Node { name, attributes: Attributes::new() }
    }

    /// Appends one attribute to this node.
    pub fn add_attribute(&mut self, name: &str, value: Option<Value>) -> (r: ())
        ensures
            final(self).name@ == old(self).name@,
            final(self).attributes@ == old(self).attributes@.push((name@, value)),
    {
        self.attributes.add_attribute(name, value);
    }
}

/// Computes the display name of `path`.
pub fn file_name_of(path: &str) -> (r: String)
    ensures
        r@ == base_name(path@),
{
    let n = path.unicode_len();
    let mut cut: usize = 0;
    let mut i: usize = 0;
    while i < n
        invariant
            n == path@.len(),
            0 <= i <= n,
            cut == name_start(path@.subrange(0, i as int)),
            cut <= i,
        decreases n - i,
    {
        let c = path.get_char(i);
        proof {
            let pre = path@.subrange(0, i as int);
            let ext = path@.subrange(0, i + 1 as int);
            assert(ext.drop_last() =~= pre);
            lemma_name_start_in_range(pre);
        }
        if c == '/' {
            cut = i + 1;
        }
        i = i + 1;
    }
    proof {
        assert(path@.subrange(0, n as int) =~= path@);
        lemma_name_start_in_range(path@);
    }
    let tail = path.substring_char(cut, n);
    tail.to_owned()
}

/// The attributes every discovered node starts with: exactly one
/// `"local"` attribute holding the nested time set of `m`.
pub open spec fn has_local_attrs(n: Node, m: FsMetadata) -> bool {
    &&& n.attributes@.len() >= 1
    &&& n.attributes@[0].0 == "local"@
    &&& match n.attributes@[0].1 {
        Some(Value::Attributes(inner)) => inner@ == time_attrs(m),
        _ => false,
    }
}

/// `n` is the node built for a regular file at `path` whose probe
/// reported `size`: named after the path, carrying the `"local"` time
/// set, a `"file"` marker, and a `"data"` accessor holding exactly
/// `{path, size}` — and nothing else.
pub open spec fn is_file_node(n: Node, path: Seq<char>, m: FsMetadata, size: u64) -> bool {
    &&& n.name@ == base_name(path)
    &&& n.attributes@.len() == 3
    &&& has_local_attrs(n, m)
    &&& n.attributes@[1] == ("file"@, None::<Value>)
    &&& n.attributes@[2].0 == "data"@
    &&& match n.attributes@[2].1 {
        Some(Value::VFileBuilder(b)) => b.path_spec() == path && b.size_spec() == size,
        _ => false,
    }
}

/// `n` is the node built for a non-file at `path`: named after the
/// path, carrying the `"local"` time set and a `"directory"` marker —
/// and nothing else.
pub open spec fn is_dir_node(n: Node, path: Seq<char>, m: FsMetadata) -> bool {
    &&& n.name@ == base_name(path)
    &&& n.attributes@.len() == 2
    &&& has_local_attrs(n, m)
    &&& n.attributes@[1] == ("directory"@, None::<Value>)
}

} // verus!
