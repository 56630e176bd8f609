//! The collector: a depth-first pre-order walk of a directory-tree
//! snapshot that gathers every non-empty text file, and aborts on the
//! first directory it cannot list or file it cannot read as text.

use vstd::prelude::*;
use vstd::string::StringExecFns;
use vstd::utf8::decode_utf8;
use vstd::utf8::valid_utf8;

use crate::tree::CollectError;
use crate::tree::CollectErrorModel;
use crate::tree::CollectedFile;
use crate::tree::CollectedFileModel;
use crate::tree::FsNode;
use crate::tree::ResultSet;
use crate::tree::file_views;

verus! {

broadcast use vstd::string::group_string_axioms;

/// The blank line that separates a record's path header from the file's
/// decoded text.
pub open spec fn blank_line() -> Seq<char> {
    seq!['\n', '\n']
}

/// The full path of a child entry: the parent's path, a slash, the
/// child's name.
pub open spec fn child_path(parent: Seq<char>, name: Seq<char>) -> Seq<char> {
    parent + seq!['/'] + name
}

/// The record collected for a qualifying file at `path` whose decoded
/// text is `text`: the content is the path header followed by the text.
pub open spec fn entry_model(path: Seq<char>, text: Seq<char>) -> CollectedFileModel {
    CollectedFileModel { path, content: path + blank_line() + text }
}

/// The outcome of walking the node `n`, whose own full path is `path`.
///
/// A listable directory contributes whatever its children contribute, in
/// listing order, left to right.  A file read in full contributes nothing
/// if its bytes are empty, one record if they are valid UTF-8, and aborts
/// the walk otherwise.  An unlistable directory or unreadable file aborts
/// the walk.  The first abort in visitation order is the outcome.
pub open spec fn walk_node(path: Seq<char>, n: FsNode) -> Result<
    Seq<CollectedFileModel>,
    CollectErrorModel,
>
    decreases n, 0int,
{
    match n {
        FsNode::Dir { name: _, entries } => walk_entries(path, entries, 0),
        FsNode::UnlistableDir { name: _ } => Err(CollectErrorModel::Listing { path }),
        FsNode::File { name: _, data } => {
            if data@.len() == 0 {
                Ok(Seq::empty())
            } else if valid_utf8(data@) {
                Ok(seq![entry_model(path, decode_utf8(data@))])
            } else {
                Err(CollectErrorModel::FileRead { path })
            }
        },
        FsNode::UnreadableFile { name: _ } => Err(CollectErrorModel::FileRead { path }),
    }
}

/// The outcome of walking the children `entries[i..]` of a directory
/// whose own full path is `path`: the concatenation of what each child
/// contributes, or the first abort among them.
pub open spec fn walk_entries(path: Seq<char>, entries: Vec<FsNode>, i: int) -> Result<
    Seq<CollectedFileModel>,
    CollectErrorModel,
>
    decreases entries, entries.len() - i,
{
    if i < 0 || i >= entries.len() {
        Ok(Seq::empty())
    } else {
        match walk_node(child_path(path, entries[i].name_chars()), entries[i]) {
            Err(e) => Err(e),
            Ok(first) => match walk_entries(path, entries, i + 1) {
                Err(e) => Err(e),
                Ok(rest) => Ok(first + rest),
            },
        }
    }
}

/// The outcome of one collection over the snapshot rooted at `root`.
///
/// The root's name is the path the caller supplied.  A root that exists
/// but is not a directory yields an empty result set without error; a
/// root that could not be listed (or looked up at all) is a listing
/// error.
pub open spec fn collect_spec(root: FsNode) -> Result<
    Seq<CollectedFileModel>,
    CollectErrorModel,
> {
    match root {
        FsNode::Dir { name, entries } => walk_entries(name@, entries, 0),
        FsNode::UnlistableDir { name } => Err(CollectErrorModel::Listing { path: name@ }),
        FsNode::File { .. } => Ok(Seq::empty()),
        FsNode::UnreadableFile { .. } => Ok(Seq::empty()),
    }
}

/// The aggregate text of the first `i` records of `s`: their contents in
/// order, a blank line between consecutive records.
pub open spec fn joined_upto(s: Seq<CollectedFileModel>, i: int) -> Seq<char>
    decreases i,
{
    if i <= 0 {
        Seq::empty()
    } else if i == 1 {
        s[0].content
    } else {
        joined_upto(s, i - 1) + blank_line() + s[i - 1].content
    }
}

/// The whole result set as one text blob, ready for a caller to stage.
pub open spec fn joined(s: Seq<CollectedFileModel>) -> Seq<char> {
    joined_upto(s, s.len() as int)
}

impl ResultSet {
    /// The whole collection as one blob: every record's content in
    /// visitation order, separated by blank lines.
    pub fn aggregate(&self) -> (r: String)
        ensures
            r@ == joined(self@),
    {
        let mut out = String::new();
        let n = self.entries.len();
        let mut i: usize = 0;
        while i < n
            invariant
                i <= n,
                n == self@.len(),
                out@ == joined_upto(self@, i as int),
            decreases n - i,
        {
            if i > 0 {
                out.append("\n\n");
            }
            out.append(self.entries[i].content.as_str());
            proof {
                reveal_strlit("\n\n");
                assert("\n\n"@ =~= blank_line());
                assert(out@ =~= joined_upto(self@, i as int + 1));
            }
            i = i + 1;
        }
        out
    }
}

/// Relies on str::from_utf8: it returns Ok exactly when the bytes are a
/// valid UTF-8 encoding, and then the string holds their decoding, as
/// vstd's model of str and String states it.
#[verifier::external_body]
fn decode_text(data: &Vec<u8>) -> (r: Option<String>)
    ensures
        r is Some <==> valid_utf8(data@),
        (r matches Some(s) ==> s@ == decode_utf8(data@)),
{
    match core::str::from_utf8(data.as_slice()) {
        Ok(s) => Some(s.to_string()),
        Err(_) => None,
    }
}

/// `parent`, a slash, `name`: the full path of a child entry.
fn join_path(parent: &String, name: &String) -> (r: String)
    ensures
        r@ == child_path(parent@, name@),
{
    let mut r = parent.clone();
    r.append("/");
    r.append(name.as_str());
    proof {
        reveal_strlit("/");
        assert("/"@ =~= seq!['/']);
        assert(r@ =~= child_path(parent@, name@));
    }
    r
}

/// The record for a qualifying file at `path` whose decoded text is
/// `text`.
fn make_entry(path: &String, text: &String) -> (r: CollectedFile)
    ensures
        r@ == entry_model(path@, text@),
{
    let mut content = path.clone();
    content.append("\n\n");
    content.append(text.as_str());
    proof {
        reveal_strlit("\n\n");
        assert("\n\n"@ =~= blank_line());
        assert(content@ =~= path@ + blank_line() + text@);
    }
    CollectedFile { path: path.clone(), content }
}

/// Walk the node `n`, whose full path is `path`, appending every record
/// it contributes to `acc` in visitation order; on the first failure,
/// return the abort error instead.
#[verifier::loop_isolation(false)]
fn walk(path: &String, n: &FsNode, acc: &mut Vec<CollectedFile>) -> (r: Result<(), CollectError>)
    ensures
        (walk_node(path@, *n) matches Ok(s) ==> r is Ok && file_views(final(acc)@) == file_views(
            old(acc)@,
        ) + s),
        (walk_node(path@, *n) matches Err(e) ==> r matches Err(a) && a@ == e),
    decreases *n,
{
    match n {
        FsNode::Dir { name: _, entries } => {
            let ghost p = path@;
            let ghost mut gathered: Seq<CollectedFileModel> = Seq::empty();
            let mut i: usize = 0;
            while i < entries.len()
                invariant
                    i <= entries.len(),
                    file_views(acc@) == file_views(old(acc)@) + gathered,
                    walk_entries(p, *entries, 0) == (match walk_entries(p, *entries, i as int) {
                        Ok(rest) => Ok::<Seq<CollectedFileModel>, CollectErrorModel>(
                            gathered + rest,
                        ),
                        Err(e) => Err(e),
                    }),
                    p == path@,
                    walk_node(p, *n) == walk_entries(p, *entries, 0),
                decreases entries.len() - i,
            {
                let child = &entries[i];
                let cpath = join_path(path, child.name());
                proof {
                    broadcast use vstd::std_specs::vec::group_vec_axioms;

                    assert(decreases_to!(*entries => entries@[i as int]));
                }
                match walk(&cpath, child, acc) {
                    Ok(()) => {
                        proof {
                            let s = walk_node(cpath@, *child)->Ok_0;
                            let old_gathered = gathered;
                            gathered = gathered + s;
                            assert(file_views(acc@) =~= file_views(old(acc)@) + gathered);
                            if walk_entries(p, *entries, i as int + 1) is Ok {
                                let rest = walk_entries(p, *entries, i as int + 1)->Ok_0;
                                assert(old_gathered + (s + rest) =~= gathered + rest);
                            }
                        }
                    },
                    Err(a) => {
                        return Err(a);
                    },
                }
                i = i + 1;
            }
            proof {
                assert(walk_entries(p, *entries, i as int) == Ok::<
                    Seq<CollectedFileModel>,
                    CollectErrorModel,
                >(Seq::empty()));
                assert(gathered + Seq::<CollectedFileModel>::empty() =~= gathered);
            }
            Ok(())
        },
        FsNode::UnlistableDir { name: _ } => Err(CollectError::Listing { path: path.clone() }),
        FsNode::File { name: _, data } => {
            if data.len() == 0 {
                proof {
                    assert(file_views(acc@) =~= file_views(old(acc)@) + Seq::<
                        CollectedFileModel,
                    >::empty());
                }
                Ok(())
            } else {
                match decode_text(data) {
                    Some(text) => {
                        let entry = make_entry(path, &text);
                        let ghost pre = acc@;
                        acc.push(entry);
                        proof {
                            assert(file_views(acc@) =~= file_views(pre) + seq![
                                entry_model(path@, text@),
                            ]);
                        }
                        Ok(())
                    },
                    None => Err(CollectError::FileRead { path: path.clone() }),
                }
            }
        },
        FsNode::UnreadableFile { name: _ } => Err(CollectError::FileRead { path: path.clone() }),
    }
}

/// Collect the textual contents of the tree rooted at `root`.
///
/// On success the result set holds one record per non-empty text file,
/// in depth-first pre-order visitation order; on failure no result set
/// is produced at all, only the error that aborted the walk.
pub fn collect(root: &FsNode) -> (r: Result<ResultSet, CollectError>)
    ensures
        (collect_spec(*root) matches Ok(s) ==> r matches Ok(rs) && rs@ == s),
        (collect_spec(*root) matches Err(e) ==> r matches Err(a) && a@ == e),
{
    match root {
        FsNode::Dir { name, .. } => {
            let mut acc: Vec<CollectedFile> = Vec::new();
            proof {
                assert(file_views(acc@) =~= Seq::<CollectedFileModel>::empty());
            }
            match walk(name, root, &mut acc) {
                Ok(()) => {
                    proof {
                        if collect_spec(*root) is Ok {
                            assert(file_views(acc@) =~= collect_spec(*root)->Ok_0);
                        }
                    }
                    Ok(ResultSet { entries: acc })
                },
                Err(a) => Err(a),
            }
        },
        FsNode::UnlistableDir { name } => Err(CollectError::Listing { path: name.clone() }),
        FsNode::File { .. } => {
            let rs = ResultSet { entries: Vec::new() };
            proof {
                assert(rs@ =~= Seq::<CollectedFileModel>::empty());
            }
            Ok(rs)
        },
        FsNode::UnreadableFile { .. } => {
            let rs = ResultSet { entries: Vec::new() };
            proof {
                assert(rs@ =~= Seq::<CollectedFileModel>::empty());
            }
            Ok(rs)
        },
    }
}

} // verus!
