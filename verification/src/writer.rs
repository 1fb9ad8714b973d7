//! The archive writer: an explicit two-state lifecycle (`Open` / `Closed`)
//! around the in-memory tar serializer, with the entry-append algorithm.
//!
//! While open, the writer owns the serializer state and a ghost record of the
//! entries appended so far; `close` finalizes the stream (compressing it when
//! the writer was opened in gzip mode), stores the finished bytes, and is
//! idempotent. Every mutating call on a closed writer fails with
//! `ArchiveClosed` and changes nothing. A failed entry append leaves the
//! entries already written in the stream: nothing is rolled back.

use vstd::prelude::*;
use vstd::string::StrSliceExecFns;
use vstd::string::StringExecFns;

use crate::errors::ArchiveError;
use crate::model::add_entries;
use crate::model::add_ok;
use crate::model::children_ok;
use crate::model::classify;
use crate::model::classify_node;
use crate::model::lemma_join_name_valid;
use crate::model::link_target_ok;
use crate::model::plain_component;
use crate::model::resolve;
use crate::model::resolved_file_entry;
use crate::model::tar_name_valid;
use crate::model::tree_ok;
use crate::model::walk_children;
use crate::model::walk_entries;
use crate::model::EntryModel;
use crate::model::FsNode;
use crate::model::SourceClass;
use crate::names::derive_name;
use crate::names::derived_name_spec;
use crate::names::join_name;
use crate::names::str_eq;
use crate::tario::builder_entries;
use crate::tario::builder_new;
use crate::tario::gzip_bytes;
use crate::tario::gzip_compress;
use crate::tario::tar_append_dir;
use crate::tario::tar_append_file;
use crate::tario::tar_append_symlink;
use crate::tario::tar_bytes;
use crate::tario::tar_finish;
use crate::tario::TarSink;

verus! {

/// The abstract state of a writer: whether it is still open, whether its
/// stream is gzip compressed, the entries appended so far, and the finished
/// archive bytes (empty until `close`).
pub ghost struct WriterModel {
    pub open: bool,
    pub gz: bool,
    pub entries: Seq<EntryModel>,
    pub output: Seq<u8>,
}

/// The bytes a finished archive holds for a given entry sequence and mode.
pub open spec fn archive_bytes(gz: bool, entries: Seq<EntryModel>) -> Seq<u8> {
    if gz {
        gzip_bytes(tar_bytes(entries))
    } else {
        tar_bytes(entries)
    }
}

/// The archive name an `add` call uses: the explicit one when given,
/// otherwise the one derived from the source path.
pub open spec fn requested_name(path: Seq<char>, arcname: Option<&str>) -> Option<Seq<char>> {
    match arcname {
        Some(a) => Some(a@),
        None => derived_name_spec(path),
    }
}

/// `classify` and `resolve` agree: a source classifies as the kind of node
/// its symlink chain resolves to, and a broken chain resolves to a symlink.
pub proof fn lemma_classify_resolve(node: FsNode)
    ensures
        classify(node) is Dir <==> resolve(node) is Dir,
        classify(node) is File <==> resolve(node) is File,
        classify(node) is Missing <==> resolve(node) is Symlink,
    decreases node,
{
    match node {
        FsNode::Symlink { resolved, .. } => match resolved {
            Some(inner) => lemma_classify_resolve(*inner),
            None => {},
        },
        _ => {},
    }
}

/// The object a snapshot resolves to once symlink chains are followed.
pub fn resolve_node(node: &FsNode) -> (r: &FsNode)
    ensures
        *r == resolve(*node),
    decreases *node,
{
    match node {
        FsNode::Symlink { resolved: Some(inner), .. } => resolve_node(&**inner),
        _ => node,
    }
}

/// Whether the serializer accepts `s` as a symlink target: non-empty and
/// NUL-free.
pub fn check_link_target(s: &str) -> (r: bool)
    ensures
        r == link_target_ok(s@),
{
    let n = s.unicode_len();
    if n == 0 {
        return false;
    }
    let mut i: usize = 0;
    while i < n
        invariant
            i <= n,
            n == s@.len(),
            forall|j: int| 0 <= j < i ==> s@[j] != '\0',
        decreases n - i,
    {
        if s.get_char(i) == '\0' {
            return false;
        }
        i = i + 1;
    }
    true
}

/// Appends the recursive walk of `node` under archive name `name`: exactly
/// the sequence `walk_entries(name, node, deref)`, in order. It runs to
/// completion whenever the name is serializer-valid and the tree is walkable;
/// on failure the entries already written stay in the stream.
fn append_tree(b: &mut TarSink, name: &str, node: &FsNode, deref: bool) -> (r: Result<
    (),
    ArchiveError,
>)
    ensures
        r is Ok ==> builder_entries(*final(b)) == builder_entries(*old(b)) + walk_entries(
            name@,
            *node,
            deref,
        ),
        r is Err ==> r->Err_0 == ArchiveError::Io,
        tar_name_valid(name@) && tree_ok(*node, deref) ==> r is Ok,
    decreases *node,
{
    match node {
        FsNode::File { mode, mtime, content } => {
            let r = tar_append_file(b, name, content, *mode, *mtime);
            proof {
                if r is Ok {
                    assert(builder_entries(*b) =~= builder_entries(*old(b)) + walk_entries(
                        name@,
                        *node,
                        deref,
                    ));
                }
            }
            r
        },
        FsNode::Symlink { mode, mtime, target, resolved } => {
            if deref {
                match resolved {
                    Some(inner) => append_tree(b, name, &**inner, deref),
                    None => Err(ArchiveError::Io),
                }
            } else {
                if check_link_target(target.as_str()) {
                    let r = tar_append_symlink(b, name, target.as_str(), *mode, *mtime);
                    proof {
                        if r is Ok {
                            assert(builder_entries(*b) =~= builder_entries(*old(b)) + walk_entries(
                                name@,
                                *node,
                                deref,
                            ));
                        }
                    }
                    r
                } else {
                    Err(ArchiveError::Io)
                }
            }
        },
        FsNode::Dir { mode, mtime, children } => {
            let r0 = tar_append_dir(b, name, *mode, *mtime);
            match r0 {
                Err(e) => {
                    return Err(e);
                },
                Ok(_) => {},
            }
            proof {
                assert(builder_entries(*b) + walk_children(name@, *children, 0, deref)
                    =~= builder_entries(*old(b)) + walk_entries(name@, *node, deref));
                if tree_ok(*node, deref) {
                    assert(children_ok(*children, 0, deref));
                }
            }
            let mut i: usize = 0;
            while i < children.len()
                invariant
                    i <= children.len(),
                    *node == (FsNode::Dir { mode: *mode, mtime: *mtime, children: *children }),
                    builder_entries(*b) + walk_children(name@, *children, i as int, deref)
                        == builder_entries(*old(b)) + walk_entries(name@, *node, deref),
                    tree_ok(*node, deref) ==> children_ok(*children, i as int, deref),
                decreases children.len() - i,
            {
                let child = &children[i];
                let child_name = join_name(name, child.name.as_str());
                proof {
                    assert(decreases_to!(*children => children@[i as int]));
                    assert(decreases_to!(children@[i as int] => children@[i as int].node));
                }
                let rc = append_tree(b, child_name.as_str(), &child.node, deref);
                match rc {
                    Err(e) => {
                        proof {
                            if tar_name_valid(name@) && tree_ok(*node, deref) {
                                assert(children_ok(*children, i as int, deref));
                                assert(plain_component((*children)[i as int].name@));
                                lemma_join_name_valid(name@, (*children)[i as int].name@);
                                assert(false);
                            }
                        }
                        return Err(e);
                    },
                    Ok(_) => {},
                }
                proof {
                    assert(walk_children(name@, *children, i as int, deref) == walk_entries(
                        child_name@,
                        children@[i as int].node,
                        deref,
                    ) + walk_children(name@, *children, i as int + 1, deref));
                    assert(builder_entries(*b) + walk_children(name@, *children, i as int + 1, deref)
                        =~= builder_entries(*old(b)) + walk_entries(name@, *node, deref));
                    if tree_ok(*node, deref) {
                        assert(children_ok(*children, i as int, deref));
                        assert(children_ok(*children, i as int + 1, deref));
                    }
                }
                i = i + 1;
            }
            proof {
                assert(walk_children(name@, *children, i as int, deref)
                    =~= Seq::<EntryModel>::empty());
                assert(builder_entries(*b) =~= builder_entries(*b) + walk_children(
                    name@,
                    *children,
                    i as int,
                    deref,
                ));
            }
            Ok(())
        },
    }
}

/// Appends the single content entry for a source that resolves to a regular
/// file, with the resolved file's content and metadata.
fn append_resolved_file(b: &mut TarSink, name: &str, node: &FsNode) -> (r: Result<
    (),
    ArchiveError,
>)
    requires
        classify(*node) is File,
    ensures
        r is Ok ==> builder_entries(*final(b)) == builder_entries(*old(b)) + resolved_file_entry(
            name@,
            *node,
        ),
        r is Err ==> builder_entries(*final(b)) == builder_entries(*old(b)) && r->Err_0
            == ArchiveError::Io,
        tar_name_valid(name@) ==> r is Ok,
{
    let rf = resolve_node(node);
    proof {
        lemma_classify_resolve(*node);
    }
    match rf {
        FsNode::File { mode, mtime, content } => {
            let r = tar_append_file(b, name, content, *mode, *mtime);
            proof {
                if r is Ok {
                    assert(builder_entries(*b) =~= builder_entries(*old(b)) + resolved_file_entry(
                        name@,
                        *node,
                    ));
                }
            }
            r
        },
        _ => {
            proof {
                assert(false);
            }
            Err(ArchiveError::Io)
        },
    }
}

/// A streaming archive writer over an in-memory sink.
pub struct ArchiveWriter {
    builder: Option<TarSink>,
    gz: bool,
    finished: Vec<u8>,
    entries: Ghost<Seq<EntryModel>>,
}

impl View for ArchiveWriter {
    type V = WriterModel;

    closed spec fn view(&self) -> WriterModel {
        WriterModel {
            open: self.builder is Some,
            gz: self.gz,
            entries: self.entries@,
            output: self.finished@,
        }
    }
}

impl ArchiveWriter {
    /// The writer's internal consistency: while open, the ghost entry record
    /// matches the serializer state and no finished bytes exist yet.
    pub closed spec fn wf(self) -> bool {
        match self.builder {
            Some(b) => builder_entries(b) == self.entries@ && self.finished@.len() == 0,
            None => true,
        }
    }

    /// Opens a fresh writer. The mode must be `"w"` (a raw tar stream) or
    /// `"w:gz"` (the stream gzip compressed); anything else is rejected with
    /// `UnsupportedMode`.
    pub fn open(mode: &str) -> (r: Result<ArchiveWriter, ArchiveError>)
        ensures
            match r {
                Ok(w) => {
                    &&& (mode@ == "w"@ || mode@ == "w:gz"@)
                    &&& w.wf()
                    &&& w@.open
                    &&& w@.gz == (mode@ == "w:gz"@)
                    &&& w@.entries.len() == 0
                    &&& w@.output.len() == 0
                },
                Err(e) => {
                    &&& mode@ != "w"@
                    &&& mode@ != "w:gz"@
                    &&& e == ArchiveError::UnsupportedMode
                },
            },
    {
        let gz = str_eq(mode, "w:gz");
        if !gz && !str_eq(mode, "w") {
            return Err(ArchiveError::UnsupportedMode);
        }
        Ok(
            ArchiveWriter {
                builder: Some(builder_new()),
                gz,
                finished: Vec::new(),
                entries: Ghost(Seq::empty()),
            },
        )
    }

    /// Whether the writer is still open.
    pub fn is_open(&self) -> (r: bool)
        ensures
            r == self@.open,
    {
        self.builder.is_some()
    }

    /// The finished archive bytes; empty until the writer is closed.
    pub fn output_bytes(&self) -> (r: &Vec<u8>)
        ensures
            r@ == self@.output,
    {
        &self.finished
    }

    /// Appends one source to the archive. The archive name is `arcname` when
    /// given, otherwise the final component of `path`; `source` is a snapshot
    /// of what `path` names, or `None` when it names nothing. A directory is
    /// walked when `recursive` is set and recorded alone otherwise; symlinks
    /// are followed when `dereference` is set and stored as themselves
    /// otherwise.
    pub fn add(
        &mut self,
        path: &str,
        source: Option<&FsNode>,
        arcname: Option<&str>,
        recursive: bool,
        dereference: bool,
    ) -> (r: Result<(), ArchiveError>)
        requires
            old(self).wf(),
        ensures
            final(self).wf(),
            final(self)@.gz == old(self)@.gz,
            final(self)@.open == old(self)@.open,
            final(self)@.output == old(self)@.output,
            !old(self)@.open ==> r == Err::<(), ArchiveError>(ArchiveError::ArchiveClosed)
                && final(self)@ == old(self)@,
            old(self)@.open && requested_name(path@, arcname) is None ==> r == Err::<
                (),
                ArchiveError,
            >(ArchiveError::NameDerivation) && final(self)@ == old(self)@,
            old(self)@.open && requested_name(path@, arcname) is Some && source is None ==> r
                == Err::<(), ArchiveError>(ArchiveError::MissingSource) && final(self)@ == old(
                self,
            )@,
            old(self)@.open && requested_name(path@, arcname) is Some ==> (source matches Some(n)
                ==> (classify(*n) is Missing ==> r == Err::<(), ArchiveError>(
                ArchiveError::MissingSource,
            ) && final(self)@ == old(self)@)),
            old(self)@.open ==> (requested_name(path@, arcname) matches Some(nm) ==> (
            source matches Some(n) ==> (add_ok(nm, *n, recursive, dereference) ==> r is Ok))),
            old(self)@.open ==> (requested_name(path@, arcname) matches Some(nm) ==> (
            source matches Some(n) ==> (r is Ok ==> final(self)@.entries == old(self)@.entries
                + add_entries(nm, *n, recursive, dereference)))),
            old(self)@.open && requested_name(path@, arcname) is Some ==> (source matches Some(n)
                ==> (!(classify(*n) is Missing) && r is Err ==> r->Err_0 == ArchiveError::Io)),
    {
        if self.builder.is_none() {
            return Err(ArchiveError::ArchiveClosed);
        }
        let name: String = match arcname {
            Some(a) => a.to_owned(),
            None => match derive_name(path) {
                Some(n) => n,
                None => {
                    return Err(ArchiveError::NameDerivation);
                },
            },
        };
        let node: &FsNode = match source {
            Some(n) => n,
            None => {
                return Err(ArchiveError::MissingSource);
            },
        };
        let class = classify_node(node);
        if class == SourceClass::Missing {
            return Err(ArchiveError::MissingSource);
        }
        let mut b = self.builder.take().unwrap();
        let result: Result<(), ArchiveError> = match class {
            SourceClass::Dir => {
                if recursive {
                    let r = append_tree(&mut b, name.as_str(), resolve_node(node), dereference);
                    proof {
                        if add_ok(name@, *node, recursive, dereference) {
                            assert(tar_name_valid(name@));
                            assert(tree_ok(resolve(*node), dereference));
                            assert(r is Ok);
                        }
                    }
                    r
                } else {
                    let rd = resolve_node(node);
                    proof {
                        lemma_classify_resolve(*node);
                    }
                    match rd {
                        FsNode::Dir { mode, mtime, .. } => {
                            let r = tar_append_dir(&mut b, name.as_str(), *mode, *mtime);
                            proof {
                                if r is Ok {
                                    assert(builder_entries(b) =~= old(self)@.entries + add_entries(
                                        name@,
                                        *node,
                                        recursive,
                                        dereference,
                                    ));
                                }
                                if add_ok(name@, *node, recursive, dereference) {
                                    assert(r is Ok);
                                }
                            }
                            r
                        },
                        _ => {
                            proof {
                                assert(false);
                            }
                            Err(ArchiveError::Io)
                        },
                    }
                }
            },
            SourceClass::File => {
                match node {
                    FsNode::Symlink { mode, mtime, target, .. } => {
                        if !dereference {
                            if check_link_target(target.as_str()) {
                                let r = tar_append_symlink(
                                    &mut b,
                                    name.as_str(),
                                    target.as_str(),
                                    *mode,
                                    *mtime,
                                );
                                proof {
                                    if r is Ok {
                                        assert(builder_entries(b) =~= old(self)@.entries
                                            + add_entries(name@, *node, recursive, dereference));
                                    }
                                    if add_ok(name@, *node, recursive, dereference) {
                                        assert(r is Ok);
                                    }
                                }
                                r
                            } else {
                                proof {
                                    if add_ok(name@, *node, recursive, dereference) {
                                        assert(false);
                                    }
                                }
                                Err(ArchiveError::Io)
                            }
                        } else {
                            let r = append_resolved_file(&mut b, name.as_str(), node);
                            proof {
                                if add_ok(name@, *node, recursive, dereference) {
                                    assert(r is Ok);
                                }
                            }
                            r
                        }
                    },
                    _ => {
                        let r = append_resolved_file(&mut b, name.as_str(), node);
                        proof {
                            if add_ok(name@, *node, recursive, dereference) {
                                assert(r is Ok);
                            }
                        }
                        r
                    },
                }
            },
            SourceClass::Missing => {
                proof {
                    assert(false);
                }
                Err(ArchiveError::Io)
            },
        };
        self.entries = Ghost(builder_entries(b));
        self.builder = Some(b);
        result
    }

    /// Closes the writer: finalizes the tar stream with its trailer,
    /// compresses it when the writer was opened in gzip mode, and stores the
    /// finished bytes. Closing an already-closed writer changes nothing and
    /// succeeds; in this in-memory writer, `close` cannot fail.
    pub fn close(&mut self)
        requires
            old(self).wf(),
        ensures
            final(self).wf(),
            !final(self)@.open,
            final(self)@.gz == old(self)@.gz,
            final(self)@.entries == old(self)@.entries,
            old(self)@.open ==> final(self)@.output == archive_bytes(
                old(self)@.gz,
                old(self)@.entries,
            ),
            !old(self)@.open ==> final(self)@ == old(self)@,
    {
        match self.builder.take() {
            Some(b) => {
                let raw = tar_finish(b);
                if self.gz {
                    self.finished = gzip_compress(&raw);
                } else {
                    self.finished = raw;
                }
            },
            None => {},
        }
    }
}

} // verus!
