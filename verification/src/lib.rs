//! Collector for the textual contents of a directory tree.
//!
//! The collector walks a snapshot of a directory tree in depth-first
//! pre-order, decodes each regular file as UTF-8 text, and accumulates the
//! non-empty decoded contents, each prefixed with a header naming its path,
//! into an ordered result set.  Any directory that could not be listed and
//! any file that could not be read or decoded aborts the whole walk: the
//! caller gets either the complete result set or a single terminal error,
//! never a partial result.

pub mod collector;
pub mod laws;
pub mod tree;

pub use collector::collect;

pub use tree::CollectError;
pub use tree::CollectErrorModel;
pub use tree::CollectedFile;
pub use tree::CollectedFileModel;
pub use tree::FsNode;
pub use tree::ResultSet;
