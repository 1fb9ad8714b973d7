//! Library-wide laws over the entry model, stated and proved once.
//!
//! Together with the writer's contracts (`add` appends exactly
//! `add_entries`, `close` stores exactly the serialized bytes of the entries
//! and is idempotent, and nothing changes after a failure or on a closed
//! writer), these pin down what every archive holds.

use vstd::prelude::*;

use crate::model::add_entries;
use crate::model::dir_entry;
use crate::model::file_entry;
use crate::model::walk_children;
use crate::model::walk_entries;
use crate::model::DirChild;
use crate::model::FsNode;

verus! {

/// Law: adding a regular file emits exactly one entry under the requested
/// name, whose content is the file's content at add time, whatever the
/// recursion and dereference flags say.
pub proof fn lemma_add_regular_file(
    name: Seq<char>,
    mode: u32,
    mtime: u64,
    content: Vec<u8>,
    recursive: bool,
    deref: bool,
)
    ensures
        add_entries(name, (FsNode::File { mode, mtime, content }), recursive, deref) =~= seq![
            file_entry(name, content@, mode, mtime),
        ],
{
}

/// Law: a recursive directory add emits the directory's own entry first,
/// followed by the walks of its children in order; a non-recursive add emits
/// exactly the directory entry and nothing else.
pub proof fn lemma_add_directory(
    name: Seq<char>,
    mode: u32,
    mtime: u64,
    children: Vec<DirChild>,
    deref: bool,
)
    ensures
        add_entries(name, (FsNode::Dir { mode, mtime, children }), true, deref) =~= seq![
            dir_entry(name, mode, mtime),
        ] + walk_children(name, children, 0, deref),
        add_entries(name, (FsNode::Dir { mode, mtime, children }), false, deref) =~= seq![
            dir_entry(name, mode, mtime),
        ],
{
}

/// Law: for a directory whose children are all regular files, the walk of
/// the children emits exactly one entry per child, index for index, each a
/// content entry under the slash-joined name.
pub proof fn lemma_walk_children_files(
    prefix: Seq<char>,
    children: Vec<DirChild>,
    i: int,
    deref: bool,
)
    requires
        0 <= i <= children.len(),
        forall|j: int| 0 <= j < children.len() ==> (#[trigger] children[j].node) is File,
    ensures
        walk_children(prefix, children, i, deref).len() == children.len() - i,
        forall|j: int|
            i <= j < children.len() ==> #[trigger] walk_children(prefix, children, i, deref)[j - i]
                == walk_entries(prefix + seq!['/'] + children[j].name@, children[j].node, deref)[0],
    decreases children.len() - i,
{
    if i < children.len() {
        lemma_walk_children_files(prefix, children, i + 1, deref);
        assert(children[i].node is File);
        match children[i].node {
            FsNode::File { mode, mtime, content } => {
                assert(walk_entries(prefix + seq!['/'] + children[i].name@, children[i].node, deref)
                    =~= seq![
                    file_entry(prefix + seq!['/'] + children[i].name@, content@, mode, mtime),
                ]);
            },
            _ => {},
        }
        let we = walk_entries(prefix + seq!['/'] + children[i].name@, children[i].node, deref);
        let rest = walk_children(prefix, children, i + 1, deref);
        assert(walk_children(prefix, children, i, deref) == we + rest);
        assert forall|j: int|
            i <= j < children.len() implies #[trigger] walk_children(prefix, children, i, deref)[j
            - i] == walk_entries(
            prefix + seq!['/'] + children[j].name@,
            children[j].node,
            deref,
        )[0] by {
            if j == i {
                assert((we + rest)[0] == we[0]);
            } else {
                assert(rest[j - (i + 1)] == walk_entries(
                    prefix + seq!['/'] + children[j].name@,
                    children[j].node,
                    deref,
                )[0]);
                assert((we + rest)[j - i] == rest[j - i - 1]);
                assert(rest[j - i - 1] == rest[j - (i + 1)]);
            }
        }
    }
}

/// Law: a regular-file child contributes exactly its own single content
/// entry to a walk.
pub proof fn lemma_walk_file_entry(name: Seq<char>, mode: u32, mtime: u64, content: Vec<u8>, deref: bool)
    ensures
        walk_entries(name, (FsNode::File { mode, mtime, content }), deref) =~= seq![
            file_entry(name, content@, mode, mtime),
        ],
{
}

} // verus!
