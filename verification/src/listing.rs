//! The listing of a project as a tree of folders and files: which entries
//! are listed, how deep the listing goes, and the order of the entries of
//! a folder.
//!
//! Nothing here touches the file system. A caller reads the directories
//! and hands in what it found.

use vstd::prelude::*;
use crate::project::{is_generated, names_generated};
use crate::text::{lemma_text_order, lowercase, precedes, text_precedes, to_lowercase};

verus! {

/// Whether a listing leaves out the entry called `name`: every hidden
/// entry, and the directories of installed or built files.
pub open spec fn is_unlisted(name: Seq<char>) -> bool {
    (name.len() > 0 && name[0] == '.') || is_generated(name)
}

/// Whether a listing leaves out the entry called `name`.
pub fn hides_entry(name: &str) -> (hidden: bool)
    ensures
        hidden == is_unlisted(name@),
{
    if !name.is_empty() && name.get_char(0) == '.' {
        true
    } else {
        names_generated(name)
    }
}

/// How deep a listing goes where the caller names no depth.
pub const DEFAULT_MAX_DEPTH: u32 = 3;

/// The depth that a listing goes to.
pub fn depth_limit(max_depth: Option<u32>) -> (limit: u32)
    ensures
        limit == match max_depth {
            Some(depth) => depth,
            None => DEFAULT_MAX_DEPTH,
        },
{
    match max_depth {
        Some(depth) => depth,
        None => DEFAULT_MAX_DEPTH,
    }
}

/// Whether the folders found at `depth` are listed with what they hold.
/// The project's own entries are at depth 0; a folder that is not looked
/// into is listed as an empty one.
pub fn lists_children(depth: u32, limit: u32) -> (listed: bool)
    ensures
        listed == (depth + 1 < limit),
{
    depth < limit && depth + 1 < limit
}

/// What an entry of a listing is.
#[derive(Debug, Clone, Copy, PartialEq, Eq, Structural)]
pub enum NodeKind {
    Folder,
    File,
}

impl NodeKind {
    /// The word for the kind: `folder` or `file`.
    pub fn label(self) -> (word: &'static str)
        ensures
            word@ == match self {
                NodeKind::Folder => "folder"@,
                NodeKind::File => "file"@,
            },
    {
        match self {
            NodeKind::Folder => "folder",
            NodeKind::File => "file",
        }
    }
}

/// An entry of a listing. A folder has children, though there may be
/// none; a file has no children at all.
#[derive(Debug, PartialEq, Eq)]
pub struct FileNode {
    pub name: String,
    pub path: String,
    pub kind: NodeKind,
    pub children: Option<Vec<FileNode>>,
}

impl FileNode {
    /// A folder with the entries that it is listed with.
    pub fn folder(name: String, path: String, children: Vec<FileNode>) -> (node: FileNode)
        ensures
            node.name == name,
            node.path == path,
            node.kind == NodeKind::Folder,
            node.children == Some(children),
    {
        FileNode { name, path, kind: NodeKind::Folder, children: Some(children) }
    }

    /// A file.
    pub fn file(name: String, path: String) -> (node: FileNode)
        ensures
            node.name == name,
            node.path == path,
            node.kind == NodeKind::File,
            node.children is None,
    {
        FileNode { name, path, kind: NodeKind::File, children: None }
    }
}

/// Whether `a` is listed before `b`: a folder before a file, and two of a
/// kind by their names in lower case.
pub open spec fn node_precedes(a: FileNode, b: FileNode) -> bool {
    if a.kind != b.kind {
        a.kind == NodeKind::Folder
    } else {
        text_precedes(lowercase(a.name@), lowercase(b.name@))
    }
}

/// The order of listing never puts two entries each before the other,
/// and where a first entry is not before a second and the second not
/// before a third, the first is not before the third.
pub proof fn lemma_node_order(a: FileNode, b: FileNode, c: FileNode)
    ensures
        !(node_precedes(a, b) && node_precedes(b, a)),
        !node_precedes(a, b) && !node_precedes(b, c) ==> !node_precedes(a, c),
{
    let la = lowercase(a.name@);
    let lb = lowercase(b.name@);
    let lc = lowercase(c.name@);
    lemma_text_order(la, lb, lc);
    lemma_text_order(lb, la, lc);
    lemma_text_order(lc, lb, la);
    lemma_text_order(lb, lc, la);
    lemma_text_order(la, lc, lb);
}

/// Whether `a` is listed before `b`.
pub fn node_before(a: &FileNode, b: &FileNode) -> (before: bool)
    ensures
        before == node_precedes(*a, *b),
{
    if a.kind != b.kind {
        a.kind == NodeKind::Folder
    } else {
        let left = to_lowercase(a.name.as_str());
        let right = to_lowercase(b.name.as_str());
        precedes(left.as_str(), right.as_str())
    }
}

/// Whether `after` holds the entries of `before` in the order of listing,
/// with entries that the order does not tell apart left as they stood.
/// `origin` says for each place of `after` which place of `before` its
/// entry comes from.
pub open spec fn stably_sorts(before: Seq<FileNode>, after: Seq<FileNode>, origin: Seq<int>) -> bool {
    &&& origin.len() == before.len()
    &&& after.len() == before.len()
    &&& forall|i: int|
        0 <= i < after.len() ==> 0 <= #[trigger] origin[i] < before.len() && after[i]
            == before[origin[i]]
    &&& forall|i: int, j: int|
        0 <= i < j < after.len() ==> #[trigger] origin[i] != #[trigger] origin[j]
    &&& forall|i: int, j: int|
        0 <= i < j < after.len() ==> !node_precedes(#[trigger] after[j], #[trigger] after[i])
    &&& forall|i: int, j: int|
        0 <= i < j < after.len() && !node_precedes(#[trigger] after[i], #[trigger] after[j])
            ==> origin[i] < origin[j]
}

/// Puts the entries of a folder in the order of listing: folders first,
/// then files, each group by name without regard to case. Entries that
/// this order does not tell apart stay in the order in which they came.
pub fn sort_nodes(nodes: Vec<FileNode>) -> (sorted: Vec<FileNode>)
    ensures
        exists|origin: Seq<int>| stably_sorts(nodes@, sorted@, origin),
{
    let ghost input = nodes@;
    let mut rest = nodes;
    let mut sorted: Vec<FileNode> = Vec::new();
    let ghost mut origin: Seq<int> = Seq::empty();
    proof {
        assert(input.skip(0) =~= input);
    }
    while rest.len() > 0
        invariant
            sorted@.len() <= input.len(),
            rest@ == input.skip(sorted@.len() as int),
            stably_sorts(input.take(sorted@.len() as int), sorted@, origin),
        decreases rest@.len(),
    {
        let ghost done = sorted@;
        let ghost count = sorted@.len() as int;
        let ghost old_origin = origin;
        let node = rest.remove(0);
        proof {
            assert(node == input[count]);
            assert(rest@ =~= input.skip(count + 1));
        }
        let mut at: usize = sorted.len();
        while at > 0 && node_before(&node, &sorted[at - 1])
            invariant
                0 <= at <= sorted@.len(),
                forall|k: int| at <= k < sorted@.len() ==> node_precedes(node, #[trigger] sorted@[k]),
            decreases at,
        {
            at -= 1;
        }
        sorted.insert(at, node);
        proof {
            origin = old_origin.insert(at as int, count);
            let before = input.take(count + 1);
            let earlier = input.take(count);
            let after = sorted@;
            assert(after == done.insert(at as int, node));
            assert forall|i: int| 0 <= i < after.len() implies 0 <= #[trigger] origin[i]
                < before.len() && after[i] == before[origin[i]] by {
                if i < at {
                    assert(origin[i] == old_origin[i]);
                    assert(done[i] == earlier[old_origin[i]]);
                } else if i > at {
                    assert(origin[i] == old_origin[i - 1]);
                    assert(done[i - 1] == earlier[old_origin[i - 1]]);
                }
            }
            assert forall|i: int, j: int| 0 <= i < j < after.len() implies #[trigger] origin[i]
                != #[trigger] origin[j] by {
                let oi = if i < at { i } else { i - 1 };
                let oj = if j < at { j } else { j - 1 };
                if i != at {
                    assert(origin[i] == old_origin[oi]);
                    assert(0 <= old_origin[oi] < count);
                }
                if j != at {
                    assert(origin[j] == old_origin[oj]);
                    assert(0 <= old_origin[oj] < count);
                }
                if i != at && j != at {
                    assert(old_origin[oi] != old_origin[oj]);
                }
            }
            assert forall|i: int, j: int| 0 <= i < j < after.len() implies !node_precedes(
                #[trigger] after[j],
                #[trigger] after[i],
            ) by {
                let oi = if i < at { i } else { i - 1 };
                let oj = if j < at { j } else { j - 1 };
                if i != at && j != at {
                    assert(after[i] == done[oi]);
                    assert(after[j] == done[oj]);
                    assert(!node_precedes(done[oj], done[oi]));
                } else if j == at {
                    assert(after[i] == done[i]);
                    if i < at - 1 {
                        assert(!node_precedes(done[at - 1], done[i]));
                    }
                    lemma_node_order(node, done[at - 1], done[i]);
                } else {
                    assert(after[j] == done[j - 1]);
                    assert(node_precedes(node, done[j - 1]));
                    lemma_node_order(node, done[j - 1], node);
                }
            }
            assert forall|i: int, j: int|
                0 <= i < j < after.len() && !node_precedes(
                    #[trigger] after[i],
                    #[trigger] after[j],
                ) implies origin[i] < origin[j] by {
                let oi = if i < at { i } else { i - 1 };
                let oj = if j < at { j } else { j - 1 };
                if i != at && j != at {
                    assert(after[i] == done[oi]);
                    assert(after[j] == done[oj]);
                    assert(origin[i] == old_origin[oi]);
                    assert(origin[j] == old_origin[oj]);
                } else if j == at {
                    assert(origin[i] == old_origin[i]);
                    assert(0 <= old_origin[i] < count);
                } else {
                    assert(after[j] == done[j - 1]);
                    assert(node_precedes(node, done[j - 1]));
                }
            }
        }
    }
    proof {
        assert(input.take(sorted@.len() as int) =~= input);
    }
    sorted
}

} // verus!
