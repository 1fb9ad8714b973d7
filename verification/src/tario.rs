//! The trusted boundary to the `tar` and `flate2` crates.
//!
//! The serializer state is an in-memory `tar::Builder<Vec<u8>>`. Its logical
//! contents are named by `builder_entries`; the bytes a finished builder
//! yields are named by `tar_bytes`, and gzip compression by `gzip_bytes`.
//! Every wrapper here is believed, not verified: each doc comment names the
//! outside function relied on.

use vstd::prelude::*;

use crate::errors::ArchiveError;
use crate::model::dir_entry;
use crate::model::file_entry;
use crate::model::link_entry;
use crate::model::link_target_ok;
use crate::model::tar_name_valid;
use crate::model::EntryModel;

verus! {

/// The serializer state: a tar builder over an in-memory sink. The builder's
/// type cannot be declared to the verifier (its type parameter is bound by
/// `std::io::Write`), so it sits in an opaque struct and is reached only
/// through the trusted wrappers below.
#[verifier::external_body]
pub struct TarSink {
    inner: tar::Builder<Vec<u8>>,
}

/// The sequence of logical entries appended to an in-memory tar builder so
/// far, in order.
pub uninterp spec fn builder_entries(b: TarSink) -> Seq<EntryModel>;

/// The serialized tar stream (headers, padded content, long-name extensions,
/// and the two-zero-block trailer) for a sequence of entries. The builder
/// writes GNU headers with fixed owner fields, so the stream is a function of
/// the entries alone.
pub uninterp spec fn tar_bytes(entries: Seq<EntryModel>) -> Seq<u8>;

/// The gzip compression of a byte sequence at the default level with the
/// pure-Rust backend and a fixed header (mtime 0, unknown OS), a function of
/// the input bytes alone.
pub uninterp spec fn gzip_bytes(data: Seq<u8>) -> Seq<u8>;

/// Relies on `tar::Builder::new`: a fresh builder over an empty in-memory
/// sink holds no entries.
#[verifier::external_body]
pub(crate) fn builder_new() -> (b: TarSink)
    ensures
        builder_entries(b) == Seq::<EntryModel>::empty(),
{
    TarSink { inner: tar::Builder::new(Vec::new()) }
}

/// Relies on `tar::Builder::append_data` with a GNU header: it records one
/// regular-file entry with the given name, content, mode and mtime (emitting
/// a long-name extension when needed). With an in-memory sink it fails only
/// when the name is rejected (absolute, empty, `..`, or NUL), and then it
/// validates before writing, leaving the stream unchanged.
#[verifier::external_body]
pub(crate) fn tar_append_file(
    b: &mut TarSink,
    name: &str,
    content: &Vec<u8>,
    mode: u32,
    mtime: u64,
) -> (r: Result<(), ArchiveError>)
    ensures
        r is Ok ==> builder_entries(*final(b)) == builder_entries(*old(b)).push(
            file_entry(name@, content@, mode, mtime),
        ),
        r is Err ==> builder_entries(*final(b)) == builder_entries(*old(b)) && r->Err_0
            == ArchiveError::Io,
        tar_name_valid(name@) ==> r is Ok,
{
    let mut h = tar::Header::new_gnu();
    h.set_entry_type(tar::EntryType::file());
    h.set_mode(mode);
    h.set_mtime(mtime);
    h.set_size(content.len() as u64);
    match b.inner.append_data(&mut h, name, content.as_slice()) {
        Ok(()) => Ok(()),
        Err(_) => Err(ArchiveError::Io),
    }
}

/// Relies on `tar::Builder::append_data` with a directory-typed GNU header
/// and empty content: it records one directory entry, with the same name
/// handling and failure behavior as the file wrapper.
#[verifier::external_body]
pub(crate) fn tar_append_dir(
    b: &mut TarSink,
    name: &str,
    mode: u32,
    mtime: u64,
) -> (r: Result<(), ArchiveError>)
    ensures
        r is Ok ==> builder_entries(*final(b)) == builder_entries(*old(b)).push(
            dir_entry(name@, mode, mtime),
        ),
        r is Err ==> builder_entries(*final(b)) == builder_entries(*old(b)) && r->Err_0
            == ArchiveError::Io,
        tar_name_valid(name@) ==> r is Ok,
{
    let mut h = tar::Header::new_gnu();
    h.set_entry_type(tar::EntryType::dir());
    h.set_mode(mode);
    h.set_mtime(mtime);
    h.set_size(0);
    match b.inner.append_data(&mut h, name, std::io::empty()) {
        Ok(()) => Ok(()),
        Err(_) => Err(ArchiveError::Io),
    }
}

/// Relies on `tar::Builder::append_link` with a symlink-typed GNU header: it
/// records one symlink entry with the given name and target (emitting
/// long-name or long-link extensions when needed). A non-empty, NUL-free
/// target is always accepted; the name fails as in the file wrapper, and
/// failures write nothing.
#[verifier::external_body]
pub(crate) fn tar_append_symlink(
    b: &mut TarSink,
    name: &str,
    target: &str,
    mode: u32,
    mtime: u64,
) -> (r: Result<(), ArchiveError>)
    requires
        link_target_ok(target@),
    ensures
        r is Ok ==> builder_entries(*final(b)) == builder_entries(*old(b)).push(
            link_entry(name@, target@, mode, mtime),
        ),
        r is Err ==> builder_entries(*final(b)) == builder_entries(*old(b)) && r->Err_0
            == ArchiveError::Io,
        tar_name_valid(name@) ==> r is Ok,
{
    let mut h = tar::Header::new_gnu();
    h.set_entry_type(tar::EntryType::symlink());
    h.set_mode(mode);
    h.set_mtime(mtime);
    h.set_size(0);
    match b.inner.append_link(&mut h, name, target) {
        Ok(()) => Ok(()),
        Err(_) => Err(ArchiveError::Io),
    }
}

/// Relies on `tar::Builder::into_inner`: it writes the two-zero-block trailer
/// and hands back the sink; writing to a `Vec` cannot fail.
#[verifier::external_body]
pub(crate) fn tar_finish(b: TarSink) -> (r: Vec<u8>)
    ensures
        r@ == tar_bytes(builder_entries(b)),
{
    b.inner.into_inner().unwrap()
}

/// Relies on `flate2::write::GzEncoder` at the default compression level:
/// writing all input and finishing yields the gzip stream of the input bytes;
/// writing into a `Vec` cannot fail.
#[verifier::external_body]
pub(crate) fn gzip_compress(data: &Vec<u8>) -> (r: Vec<u8>)
    ensures
        r@ == gzip_bytes(data@),
{
    let mut enc = flate2::write::GzEncoder::new(Vec::new(), flate2::Compression::default());
    std::io::Write::write_all(&mut enc, data.as_slice()).unwrap();
    enc.finish().unwrap()
}

} // verus!
