//! The data the collector works on: a snapshot of a directory tree, the
//! records it produces, and the errors that abort a walk.

use vstd::prelude::*;

verus! {

/// One node of a directory-tree snapshot, as the walk will see it.
///
/// `name` is the node's path component; for the root node it is the full
/// root path as the caller supplied it.  A directory whose children could
/// not be enumerated is an `UnlistableDir`, and a file whose bytes could
/// not be read is an `UnreadableFile`: encountering either during a walk
/// is fatal.
#[derive(Debug, PartialEq, Eq)]
pub enum FsNode {
    /// A directory together with its children, in the order the
    /// filesystem listed them.
    Dir { name: String, entries: Vec<FsNode> },
    /// A directory that exists but whose children could not be listed
    /// (permission denied, removed concurrently, not readable).
    UnlistableDir { name: String },
    /// A regular (non-directory) entry whose raw bytes were read in full.
    File { name: String, data: Vec<u8> },
    /// A regular (non-directory) entry whose bytes could not be read.
    UnreadableFile { name: String },
}

impl FsNode {
    /// The path component of this node.
    pub open spec fn name_chars(self) -> Seq<char> {
        match self {
            FsNode::Dir { name, .. } => name@,
            FsNode::UnlistableDir { name } => name@,
            FsNode::File { name, .. } => name@,
            FsNode::UnreadableFile { name } => name@,
        }
    }

    /// The path component of this node.
    pub fn name(&self) -> (r: &String)
        ensures
            r@ == self.name_chars(),
    {
        match self {
            FsNode::Dir { name, .. } => name,
            FsNode::UnlistableDir { name } => name,
            FsNode::File { name, .. } => name,
            FsNode::UnreadableFile { name } => name,
        }
    }
}

/// Mathematical model of a [`CollectedFile`]: the path of the file it was
/// collected from, and its content, header included.
pub struct CollectedFileModel {
    pub path: Seq<char>,
    pub content: Seq<char>,
}

/// A record collected for one qualifying file: the file's path, and its
/// decoded text prefixed by a header naming that path.
#[derive(Debug, Clone, PartialEq, Eq)]
pub struct CollectedFile {
    pub path: String,
    pub content: String,
}

impl View for CollectedFile {
    type V = CollectedFileModel;

    open spec fn view(&self) -> CollectedFileModel {
        CollectedFileModel { path: self.path@, content: self.content@ }
    }
}

/// Mathematical model of a [`CollectError`].
pub enum CollectErrorModel {
    Listing { path: Seq<char> },
    FileRead { path: Seq<char> },
}

/// The terminal errors of a walk.  Either aborts the whole collection:
/// no partial result set survives.
#[derive(Debug, Clone, PartialEq, Eq)]
pub enum CollectError {
    /// A directory's children could not be enumerated, or the root path
    /// could not be looked up at all.
    Listing { path: String },
    /// A file's bytes could not be read, or they were not valid text.
    /// The two cases are deliberately not told apart: a binary file is
    /// indistinguishable from an unreadable one, and both abort the walk.
    FileRead { path: String },
}

impl View for CollectError {
    type V = CollectErrorModel;

    open spec fn view(&self) -> CollectErrorModel {
        match self {
            CollectError::Listing { path } => CollectErrorModel::Listing { path: path@ },
            CollectError::FileRead { path } => CollectErrorModel::FileRead { path: path@ },
        }
    }
}

impl CollectError {
    /// The path at which the walk failed.
    pub open spec fn path_chars(self) -> Seq<char> {
        match self {
            CollectError::Listing { path } => path@,
            CollectError::FileRead { path } => path@,
        }
    }

    /// The path at which the walk failed.
    pub fn path(&self) -> (r: &String)
        ensures
            r@ == self.path_chars(),
    {
        match self {
            CollectError::Listing { path } => path,
            CollectError::FileRead { path } => path,
        }
    }
}

/// The views of a sequence of collected files, in order.
pub open spec fn file_views(s: Seq<CollectedFile>) -> Seq<CollectedFileModel> {
    s.map_values(|f: CollectedFile| f@)
}

/// The ordered accumulation of the files one walk collected.  Insertion
/// order is exactly depth-first pre-order visitation order.
#[derive(Debug, Clone, PartialEq, Eq)]
pub struct ResultSet {
    pub entries: Vec<CollectedFile>,
}

impl View for ResultSet {
    type V = Seq<CollectedFileModel>;

    open spec fn view(&self) -> Seq<CollectedFileModel> {
        file_views(self.entries@)
    }
}

impl ResultSet {
    /// The number of collected files.
    pub fn len(&self) -> (r: usize)
        ensures
            r == self@.len(),
    {
        self.entries.len()
    }

    /// The record at position `i` of the visitation order.
    pub fn get(&self, i: usize) -> (r: &CollectedFile)
        requires
            i < self@.len(),
        ensures
            r@ == self@[i as int],
    {
        &self.entries[i]
    }
}

} // verus!
