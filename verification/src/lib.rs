//! A streaming archive writer: builds a tar archive (optionally gzip
//! compressed) in memory from filesystem snapshots, with a verified
//! open / add / close lifecycle.

pub mod errors;
pub mod laws;
pub mod model;
pub mod names;
pub mod tario;
pub mod writer;

pub use errors::ArchiveError;
pub use model::DirChild;
pub use model::FsNode;
pub use writer::ArchiveWriter;
