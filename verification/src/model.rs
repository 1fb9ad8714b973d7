//! The data model of what gets archived.
//!
//! An [`FsNode`] is a snapshot of one filesystem object: a regular file with
//! its content, a directory with its children, or a symlink with its target
//! (and, when the target resolves, a snapshot of what it resolves to). The
//! spec functions here say exactly which archive entries an `add` call emits
//! for a snapshot, so the writer's contracts can be stated over them.

use vstd::prelude::*;

use crate::names::nul_free;

verus! {

/// A snapshot of one filesystem object at the time of an `add` call.
pub enum FsNode {
    /// A regular file and its full content.
    File { mode: u32, mtime: u64, content: Vec<u8> },
    /// A directory and its immediate children.
    Dir { mode: u32, mtime: u64, children: Vec<DirChild> },
    /// A symbolic link: its stored target string and, when the target chain
    /// resolves to an existing object, a snapshot of that object.
    Symlink { mode: u32, mtime: u64, target: String, resolved: Option<Box<FsNode>> },
}

/// One directory entry: the child's own name (a single path component) and
/// its snapshot.
pub struct DirChild {
    pub name: String,
    pub node: FsNode,
}

/// What kind of entry a serialized archive record is.
#[derive(Clone, Copy, Debug, PartialEq, Eq, Structural)]
pub enum EntryKind {
    File,
    Dir,
    Symlink,
}

/// The mathematical model of one archive entry: what the serializer is told
/// to write.
pub ghost struct EntryModel {
    pub name: Seq<char>,
    pub kind: EntryKind,
    pub content: Seq<u8>,
    pub link: Seq<char>,
    pub mode: u32,
    pub mtime: u64,
}

/// The entry recorded for a regular file.
pub open spec fn file_entry(name: Seq<char>, content: Seq<u8>, mode: u32, mtime: u64) -> EntryModel {
    EntryModel { name, kind: EntryKind::File, content, link: Seq::empty(), mode, mtime }
}

/// The entry recorded for a directory (metadata only, no content).
pub open spec fn dir_entry(name: Seq<char>, mode: u32, mtime: u64) -> EntryModel {
    EntryModel { name, kind: EntryKind::Dir, content: Seq::empty(), link: Seq::empty(), mode, mtime }
}

/// The entry recorded for a symlink stored as itself.
pub open spec fn link_entry(name: Seq<char>, target: Seq<char>, mode: u32, mtime: u64) -> EntryModel {
    EntryModel { name, kind: EntryKind::Symlink, content: Seq::empty(), link: target, mode, mtime }
}

/// How a source object classifies once symlink chains are followed, the way
/// a `stat` call would.
#[derive(Clone, Copy, Debug, PartialEq, Eq, Structural)]
pub enum SourceClass {
    File,
    Dir,
    /// A broken symlink chain: nothing stat-able behind it.
    Missing,
}

/// Classifies a snapshot, following symlink chains.
pub open spec fn classify(node: FsNode) -> SourceClass
    decreases node,
{
    match node {
        FsNode::File { .. } => SourceClass::File,
        FsNode::Dir { .. } => SourceClass::Dir,
        FsNode::Symlink { resolved, .. } => match resolved {
            Some(inner) => classify(*inner),
            None => SourceClass::Missing,
        },
    }
}

/// The object a snapshot resolves to once symlink chains are followed; a
/// broken symlink resolves to itself.
pub open spec fn resolve(node: FsNode) -> FsNode
    decreases node,
{
    match node {
        FsNode::Symlink { resolved: Some(inner), .. } => resolve(*inner),
        _ => node,
    }
}

/// The entries a recursive walk of `node` emits under archive name `name`,
/// in order: a file is one content entry; a directory is its own entry
/// followed by its children, depth-first, each under `name/<child>`; a
/// symlink is followed when `deref` is set (nothing is emitted for a broken
/// one: the walk fails there instead) and stored as a link entry otherwise.
pub open spec fn walk_entries(name: Seq<char>, node: FsNode, deref: bool) -> Seq<EntryModel>
    decreases node, 0int,
{
    match node {
        FsNode::File { mode, mtime, content } => seq![file_entry(name, content@, mode, mtime)],
        FsNode::Dir { mode, mtime, children } => seq![dir_entry(name, mode, mtime)] + walk_children(
            name,
            children,
            0,
            deref,
        ),
        FsNode::Symlink { mode, mtime, target, resolved } => {
            if deref {
                match resolved {
                    Some(inner) => walk_entries(name, *inner, deref),
                    None => Seq::empty(),
                }
            } else {
                seq![link_entry(name, target@, mode, mtime)]
            }
        },
    }
}

/// The entries the children `children[i..]` of a directory named `prefix`
/// emit, in order.
pub open spec fn walk_children(prefix: Seq<char>, children: Vec<DirChild>, i: int, deref: bool) -> Seq<
    EntryModel,
>
    decreases children, children.len() - i,
{
    if 0 <= i < children.len() {
        walk_entries(prefix + seq!['/'] + children[i].name@, children[i].node, deref)
            + walk_children(prefix, children, i + 1, deref)
    } else {
        Seq::empty()
    }
}

/// A valid single path component for a directory child: non-empty, no slash,
/// no NUL, and neither `.` nor `..`.
pub open spec fn plain_component(s: Seq<char>) -> bool {
    &&& s.len() > 0
    &&& nul_free(s)
    &&& (forall|i: int| 0 <= i < s.len() ==> s[i] != '/')
    &&& s != seq!['.']
    &&& s != seq!['.', '.']
}

/// A symlink target the serializer accepts: non-empty and NUL-free.
pub open spec fn link_target_ok(s: Seq<char>) -> bool {
    s.len() > 0 && nul_free(s)
}

/// When a recursive walk of `node` runs to completion: under `deref` every
/// symlink in it resolves (recursively); otherwise every symlink has an
/// acceptable target; and every child name is a plain component.
pub open spec fn tree_ok(node: FsNode, deref: bool) -> bool
    decreases node, 0int,
{
    match node {
        FsNode::File { .. } => true,
        FsNode::Dir { children, .. } => children_ok(children, 0, deref),
        FsNode::Symlink { target, resolved, .. } => {
            if deref {
                match resolved {
                    Some(inner) => tree_ok(*inner, deref),
                    None => false,
                }
            } else {
                link_target_ok(target@)
            }
        },
    }
}

/// `tree_ok` over the children `children[i..]` of a directory.
pub open spec fn children_ok(children: Vec<DirChild>, i: int, deref: bool) -> bool
    decreases children, children.len() - i,
{
    if 0 <= i < children.len() {
        &&& plain_component(children[i].name@)
        &&& tree_ok(children[i].node, deref)
        &&& children_ok(children, i + 1, deref)
    } else {
        true
    }
}

/// The entries one `add(name, node, recursive, deref)` call emits when it
/// succeeds. Classification follows symlink chains, the way a `stat` call
/// does; a directory is walked (or recorded alone when `recursive` is
/// off); a file-like source becomes one content entry, except that a symlink
/// is stored as itself when `deref` is off.
pub open spec fn add_entries(name: Seq<char>, node: FsNode, recursive: bool, deref: bool) -> Seq<
    EntryModel,
> {
    match classify(node) {
        SourceClass::Dir => {
            if recursive {
                walk_entries(name, resolve(node), deref)
            } else {
                match resolve(node) {
                    FsNode::Dir { mode, mtime, .. } => seq![dir_entry(name, mode, mtime)],
                    _ => Seq::empty(),
                }
            }
        },
        SourceClass::File => {
            match node {
                FsNode::Symlink { mode, mtime, target, .. } => {
                    if deref {
                        resolved_file_entry(name, node)
                    } else {
                        seq![link_entry(name, target@, mode, mtime)]
                    }
                },
                _ => resolved_file_entry(name, node),
            }
        },
        SourceClass::Missing => Seq::empty(),
    }
}

/// The single content entry for a source that resolves to a regular file.
pub open spec fn resolved_file_entry(name: Seq<char>, node: FsNode) -> Seq<EntryModel> {
    match resolve(node) {
        FsNode::File { mode, mtime, content } => seq![file_entry(name, content@, mode, mtime)],
        _ => Seq::empty(),
    }
}

/// Whether one `add` call with these arguments runs to completion.
pub open spec fn add_ok(name: Seq<char>, node: FsNode, recursive: bool, deref: bool) -> bool {
    &&& tar_name_valid(name)
    &&& match classify(node) {
        SourceClass::Dir => !recursive || tree_ok(resolve(node), deref),
        SourceClass::File => match node {
            FsNode::Symlink { target, .. } => deref || link_target_ok(target@),
            _ => true,
        },
        SourceClass::Missing => false,
    }
}

/// An archive name the tar serializer accepts: non-empty, relative, NUL-free,
/// with no `..` component.
pub open spec fn tar_name_valid(name: Seq<char>) -> bool {
    &&& name.len() > 0
    &&& name[0] != '/'
    &&& nul_free(name)
    &&& !has_dotdot_component(name)
}

/// True when some slash-delimited component of `name` is exactly `..`.
pub open spec fn has_dotdot_component(name: Seq<char>) -> bool {
    exists|i: int|
        0 <= i && i + 2 <= name.len() && (#[trigger] name[i]) == '.' && name[i + 1] == '.' && (i == 0
            || name[i - 1] == '/') && (i + 2 == name.len() || name[i + 2] == '/')
}

/// Joining a serializer-valid name and a plain component with a slash gives
/// a serializer-valid name again.
pub proof fn lemma_join_name_valid(name: Seq<char>, child: Seq<char>)
    requires
        tar_name_valid(name),
        plain_component(child),
    ensures
        tar_name_valid(name + seq!['/'] + child),
{
    let j = name + seq!['/'] + child;
    assert(j[0] == name[0]);
    assert forall|i: int| 0 <= i < j.len() implies j[i] != '\0' by {
        if i < name.len() {
            assert(j[i] == name[i]);
        } else if i == name.len() {
            assert(j[i] == '/');
        } else {
            assert(j[i] == child[i - name.len() - 1]);
        }
    }
    if has_dotdot_component(j) {
        let i = choose|i: int|
            0 <= i && i + 2 <= j.len() && (#[trigger] j[i]) == '.' && j[i + 1] == '.' && (i == 0
                || j[i - 1] == '/') && (i + 2 == j.len() || j[i + 2] == '/');
        if i + 2 <= name.len() {
            assert(j[i] == name[i]);
            assert(j[i + 1] == name[i + 1]);
            if i > 0 {
                assert(j[i - 1] == name[i - 1]);
            }
            if i + 2 < name.len() {
                assert(j[i + 2] == name[i + 2]);
            }
            assert(has_dotdot_component(name));
        } else if i <= name.len() {
            // the pair would overlap the joining slash
            assert(j[name.len() as int] == '/');
        } else {
            // the pair lies inside the child component
            assert(j[i] == child[i - name.len() - 1]);
            assert(j[i + 1] == child[i + 1 - name.len() - 1]);
            if i + 2 < j.len() {
                assert(j[i + 2] == child[i + 2 - name.len() - 1]);
                assert(false);
            } else {
                if i - 1 > name.len() {
                    assert(j[i - 1] == child[i - 1 - name.len() - 1]);
                    assert(false);
                }
                assert(i == name.len() + 1);
                assert(child.len() == 2);
                assert(child[0] == '.' && child[1] == '.');
                assert(child =~= seq!['.', '.']);
            }
        }
    }
}

/// Classifies a snapshot, following symlink chains.
pub fn classify_node(node: &FsNode) -> (r: SourceClass)
    ensures
        r == classify(*node),
    decreases *node,
{
    match node {
        FsNode::File { .. } => SourceClass::File,
        FsNode::Dir { .. } => SourceClass::Dir,
        FsNode::Symlink { resolved, .. } => match resolved {
            Some(inner) => classify_node(inner),
            None => SourceClass::Missing,
        },
    }
}

} // verus!
