//! Laws of the collector: when a walk succeeds, what it yields, and what
//! aborts it.

use vstd::prelude::*;
use vstd::utf8::valid_utf8;

use crate::collector::blank_line;
use crate::collector::child_path;
use crate::collector::collect_spec;
use crate::collector::entry_model;
use crate::collector::walk_entries;
use crate::collector::walk_node;
use crate::tree::CollectErrorModel;
use crate::tree::CollectedFileModel;
use crate::tree::FsNode;

verus! {

/// Every directory in the subtree could be listed, and every file's
/// bytes were read and are empty or valid text: nothing in the subtree
/// would abort a walk.
pub open spec fn node_ok(n: FsNode) -> bool
    decreases n, 0int,
{
    match n {
        FsNode::Dir { name: _, entries } => entries_ok(entries, 0),
        FsNode::UnlistableDir { .. } => false,
        FsNode::File { name: _, data } => data@.len() == 0 || valid_utf8(data@),
        FsNode::UnreadableFile { .. } => false,
    }
}

/// [`node_ok`] over the children `entries[i..]`.
pub open spec fn entries_ok(entries: Vec<FsNode>, i: int) -> bool
    decreases entries, entries.len() - i,
{
    if i < 0 || i >= entries.len() {
        true
    } else {
        node_ok(entries[i]) && entries_ok(entries, i + 1)
    }
}

/// A walk succeeds exactly when nothing in the subtree aborts it: every
/// directory listable, every file readable and empty or valid text.
pub proof fn lemma_walk_ok_iff_node_ok(path: Seq<char>, n: FsNode)
    ensures
        walk_node(path, n) is Ok <==> node_ok(n),
    decreases n, 0int,
{
    match n {
        FsNode::Dir { name: _, entries } => {
            lemma_walk_entries_ok_iff(path, entries, 0);
        },
        _ => {},
    }
}

/// [`lemma_walk_ok_iff_node_ok`] over the children `entries[i..]`.
pub proof fn lemma_walk_entries_ok_iff(path: Seq<char>, entries: Vec<FsNode>, i: int)
    ensures
        walk_entries(path, entries, i) is Ok <==> entries_ok(entries, i),
    decreases entries, entries.len() - i,
{
    if 0 <= i < entries.len() {
        lemma_walk_ok_iff_node_ok(child_path(path, entries[i].name_chars()), entries[i]);
        lemma_walk_entries_ok_iff(path, entries, i + 1);
    }
}

/// Only listable directories and non-empty valid-text files stand in the
/// subtree.
pub open spec fn only_text_files(n: FsNode) -> bool
    decreases n, 0int,
{
    match n {
        FsNode::Dir { name: _, entries } => only_text_files_from(entries, 0),
        FsNode::UnlistableDir { .. } => false,
        FsNode::File { name: _, data } => data@.len() > 0 && valid_utf8(data@),
        FsNode::UnreadableFile { .. } => false,
    }
}

/// [`only_text_files`] over the children `entries[i..]`.
pub open spec fn only_text_files_from(entries: Vec<FsNode>, i: int) -> bool
    decreases entries, entries.len() - i,
{
    if i < 0 || i >= entries.len() {
        true
    } else {
        only_text_files(entries[i]) && only_text_files_from(entries, i + 1)
    }
}

/// The number of regular files in the subtree, whatever their contents.
pub open spec fn file_count(n: FsNode) -> nat
    decreases n, 0int,
{
    match n {
        FsNode::Dir { name: _, entries } => file_count_from(entries, 0),
        FsNode::UnlistableDir { .. } => 0,
        FsNode::File { .. } => 1,
        FsNode::UnreadableFile { .. } => 1,
    }
}

/// [`file_count`] over the children `entries[i..]`.
pub open spec fn file_count_from(entries: Vec<FsNode>, i: int) -> nat
    decreases entries, entries.len() - i,
{
    if i < 0 || i >= entries.len() {
        0
    } else {
        file_count(entries[i]) + file_count_from(entries, i + 1)
    }
}

/// In a tree of nothing but listable directories and non-empty text
/// files, the walk succeeds and yields exactly one record per file,
/// whatever the nesting depth.
pub proof fn lemma_only_text_files_all_collected(path: Seq<char>, n: FsNode)
    requires
        only_text_files(n),
    ensures
        walk_node(path, n) matches Ok(s) && s.len() == file_count(n),
    decreases n, 0int,
{
    match n {
        FsNode::Dir { name: _, entries } => {
            lemma_only_text_files_entries(path, entries, 0);
        },
        _ => {},
    }
}

/// [`lemma_only_text_files_all_collected`] over the children
/// `entries[i..]`.
pub proof fn lemma_only_text_files_entries(path: Seq<char>, entries: Vec<FsNode>, i: int)
    requires
        only_text_files_from(entries, i),
    ensures
        walk_entries(path, entries, i) matches Ok(s) && s.len() == file_count_from(entries, i),
    decreases entries, entries.len() - i,
{
    if 0 <= i < entries.len() {
        lemma_only_text_files_all_collected(
            child_path(path, entries[i].name_chars()),
            entries[i],
        );
        lemma_only_text_files_entries(path, entries, i + 1);
    }
}

/// Every directory in the subtree is listable and every file in it is
/// empty.
pub open spec fn only_empty_files(n: FsNode) -> bool
    decreases n, 0int,
{
    match n {
        FsNode::Dir { name: _, entries } => only_empty_files_from(entries, 0),
        FsNode::UnlistableDir { .. } => false,
        FsNode::File { name: _, data } => data@.len() == 0,
        FsNode::UnreadableFile { .. } => false,
    }
}

/// [`only_empty_files`] over the children `entries[i..]`.
pub open spec fn only_empty_files_from(entries: Vec<FsNode>, i: int) -> bool
    decreases entries, entries.len() - i,
{
    if i < 0 || i >= entries.len() {
        true
    } else {
        only_empty_files(entries[i]) && only_empty_files_from(entries, i + 1)
    }
}

/// Walking a tree whose files are all empty succeeds and collects
/// nothing: an empty file is skipped, not reported.
pub proof fn lemma_only_empty_files_yields_nothing(path: Seq<char>, n: FsNode)
    requires
        only_empty_files(n),
    ensures
        walk_node(path, n) == Ok::<Seq<CollectedFileModel>, CollectErrorModel>(Seq::empty()),
    decreases n, 0int,
{
    match n {
        FsNode::Dir { name: _, entries } => {
            lemma_only_empty_files_entries(path, entries, 0);
        },
        _ => {},
    }
}

/// [`lemma_only_empty_files_yields_nothing`] over the children
/// `entries[i..]`.
pub proof fn lemma_only_empty_files_entries(path: Seq<char>, entries: Vec<FsNode>, i: int)
    requires
        only_empty_files_from(entries, i),
    ensures
        walk_entries(path, entries, i) == Ok::<Seq<CollectedFileModel>, CollectErrorModel>(
            Seq::empty(),
        ),
    decreases entries, entries.len() - i,
{
    if 0 <= i < entries.len() {
        lemma_only_empty_files_yields_nothing(
            child_path(path, entries[i].name_chars()),
            entries[i],
        );
        lemma_only_empty_files_entries(path, entries, i + 1);
        assert(Seq::<CollectedFileModel>::empty() + Seq::<CollectedFileModel>::empty()
            =~= Seq::<CollectedFileModel>::empty());
    }
}

/// No regular file stands anywhere in the subtree, and every directory
/// in it is listable.
pub open spec fn no_files(n: FsNode) -> bool
    decreases n, 0int,
{
    match n {
        FsNode::Dir { name: _, entries } => no_files_from(entries, 0),
        FsNode::UnlistableDir { .. } => false,
        FsNode::File { .. } => false,
        FsNode::UnreadableFile { .. } => false,
    }
}

/// [`no_files`] over the children `entries[i..]`.
pub open spec fn no_files_from(entries: Vec<FsNode>, i: int) -> bool
    decreases entries, entries.len() - i,
{
    if i < 0 || i >= entries.len() {
        true
    } else {
        no_files(entries[i]) && no_files_from(entries, i + 1)
    }
}

/// A tree of empty directories and no files at all has nothing a walk
/// could object to or collect.
proof fn lemma_no_files_only_empty(n: FsNode)
    requires
        no_files(n),
    ensures
        only_empty_files(n),
    decreases n, 0int,
{
    match n {
        FsNode::Dir { name: _, entries } => {
            lemma_no_files_only_empty_entries(entries, 0);
        },
        _ => {},
    }
}

proof fn lemma_no_files_only_empty_entries(entries: Vec<FsNode>, i: int)
    requires
        no_files_from(entries, i),
    ensures
        only_empty_files_from(entries, i),
    decreases entries, entries.len() - i,
{
    if 0 <= i < entries.len() {
        lemma_no_files_only_empty(entries[i]);
        lemma_no_files_only_empty_entries(entries, i + 1);
    }
}

/// Walking a tree of directories with no files at all succeeds with an
/// empty result, however many directories it holds.
pub proof fn lemma_no_files_yields_nothing(path: Seq<char>, n: FsNode)
    requires
        no_files(n),
    ensures
        walk_node(path, n) == Ok::<Seq<CollectedFileModel>, CollectErrorModel>(Seq::empty()),
{
    lemma_no_files_only_empty(n);
    lemma_only_empty_files_yields_nothing(path, n);
}

/// Somewhere in the subtree, below a chain of listable directories,
/// stands a non-empty file whose bytes are not valid text.
pub open spec fn has_undecodable_file(n: FsNode) -> bool
    decreases n, 0int,
{
    match n {
        FsNode::Dir { name: _, entries } => has_undecodable_file_in(entries, 0),
        FsNode::UnlistableDir { .. } => false,
        FsNode::File { name: _, data } => data@.len() > 0 && !valid_utf8(data@),
        FsNode::UnreadableFile { .. } => false,
    }
}

/// [`has_undecodable_file`] somewhere among the children `entries[i..]`.
pub open spec fn has_undecodable_file_in(entries: Vec<FsNode>, i: int) -> bool
    decreases entries, entries.len() - i,
{
    if i < 0 || i >= entries.len() {
        false
    } else {
        has_undecodable_file(entries[i]) || has_undecodable_file_in(entries, i + 1)
    }
}

proof fn lemma_undecodable_not_ok(n: FsNode)
    requires
        has_undecodable_file(n),
    ensures
        !node_ok(n),
    decreases n, 0int,
{
    match n {
        FsNode::Dir { name: _, entries } => {
            lemma_undecodable_not_ok_entries(entries, 0);
        },
        _ => {},
    }
}

proof fn lemma_undecodable_not_ok_entries(entries: Vec<FsNode>, i: int)
    requires
        has_undecodable_file_in(entries, i),
    ensures
        !entries_ok(entries, i),
    decreases entries, entries.len() - i,
{
    if 0 <= i < entries.len() {
        if has_undecodable_file(entries[i]) {
            lemma_undecodable_not_ok(entries[i]);
        } else {
            lemma_undecodable_not_ok_entries(entries, i + 1);
        }
    }
}

/// One undecodable file anywhere poisons the whole walk: the call fails,
/// even when every other file in the tree is individually fine.
pub proof fn lemma_undecodable_file_aborts(path: Seq<char>, n: FsNode)
    requires
        has_undecodable_file(n),
    ensures
        walk_node(path, n) is Err,
{
    lemma_undecodable_not_ok(n);
    lemma_walk_ok_iff_node_ok(path, n);
}

/// A collection over a directory root succeeds exactly when the whole
/// tree is listable and decodable; a non-directory root always succeeds
/// with an empty result; a root that cannot be listed always fails.
pub proof fn lemma_collect_ok_iff(root: FsNode)
    ensures
        collect_spec(root) is Ok <==> (match root {
            FsNode::Dir { .. } => node_ok(root),
            FsNode::UnlistableDir { .. } => false,
            FsNode::File { .. } => true,
            FsNode::UnreadableFile { .. } => true,
        }),
{
    match root {
        FsNode::Dir { name, entries } => {
            lemma_walk_entries_ok_iff(name@, entries, 0);
        },
        _ => {},
    }
}

/// In a directory tree of nothing but non-empty valid-text files, the
/// collection succeeds and the result set holds exactly one record per
/// file.
pub proof fn lemma_collect_only_text_files(root: FsNode)
    requires
        root matches FsNode::Dir { .. },
        only_text_files(root),
    ensures
        collect_spec(root) matches Ok(s) && s.len() == file_count(root),
{
    match root {
        FsNode::Dir { name, entries } => {
            lemma_only_text_files_entries(name@, entries, 0);
        },
        _ => {},
    }
}

/// A directory tree whose files are all empty collects successfully and
/// collects nothing.
pub proof fn lemma_collect_only_empty_files(root: FsNode)
    requires
        root matches FsNode::Dir { .. },
        only_empty_files(root),
    ensures
        collect_spec(root) == Ok::<Seq<CollectedFileModel>, CollectErrorModel>(Seq::empty()),
{
    match root {
        FsNode::Dir { name, entries } => {
            lemma_only_empty_files_entries(name@, entries, 0);
        },
        _ => {},
    }
}

/// A directory tree of empty directories and zero files collects
/// successfully and collects nothing.
pub proof fn lemma_collect_no_files(root: FsNode)
    requires
        root matches FsNode::Dir { .. },
        no_files(root),
    ensures
        collect_spec(root) == Ok::<Seq<CollectedFileModel>, CollectErrorModel>(Seq::empty()),
{
    lemma_no_files_only_empty(root);
    lemma_collect_only_empty_files(root);
}

/// One undecodable file anywhere below a directory root makes the whole
/// collection fail, even when another file beside it is fine: no partial
/// result set is owed.
pub proof fn lemma_collect_undecodable_aborts(root: FsNode)
    requires
        root matches FsNode::Dir { .. },
        has_undecodable_file(root),
    ensures
        collect_spec(root) is Err,
{
    lemma_undecodable_not_ok(root);
    lemma_collect_ok_iff(root);
}

/// The record's content carries its header: it begins with the record's
/// own path followed by a blank line, and so is never empty.
pub open spec fn has_header(r: CollectedFileModel) -> bool {
    &&& r.content.len() >= r.path.len() + 2
    &&& r.content.subrange(0, r.path.len() + 2int) == r.path + blank_line()
}

/// Every record of a successful walk carries its header: no record is
/// empty, and each one names the file it was collected from.
pub proof fn lemma_walk_records_have_headers(path: Seq<char>, n: FsNode)
    ensures
        walk_node(path, n) matches Ok(s) ==> forall|j: int|
            0 <= j < s.len() ==> has_header(#[trigger] s[j]),
    decreases n, 0int,
{
    match n {
        FsNode::Dir { name: _, entries } => {
            lemma_walk_entries_records_have_headers(path, entries, 0);
        },
        FsNode::File { name: _, data } => {
            if data@.len() > 0 && valid_utf8(data@) {
                let r = entry_model(path, vstd::utf8::decode_utf8(data@));
                assert(r.content.subrange(0, r.path.len() + 2int) =~= r.path + blank_line());
            }
        },
        _ => {},
    }
}

/// [`lemma_walk_records_have_headers`] over the children `entries[i..]`.
pub proof fn lemma_walk_entries_records_have_headers(
    path: Seq<char>,
    entries: Vec<FsNode>,
    i: int,
)
    ensures
        walk_entries(path, entries, i) matches Ok(s) ==> forall|j: int|
            0 <= j < s.len() ==> has_header(#[trigger] s[j]),
    decreases entries, entries.len() - i,
{
    if 0 <= i < entries.len() {
        lemma_walk_records_have_headers(child_path(path, entries[i].name_chars()), entries[i]);
        lemma_walk_entries_records_have_headers(path, entries, i + 1);
        if walk_entries(path, entries, i) is Ok {
            let s = walk_entries(path, entries, i)->Ok_0;
            let first = walk_node(child_path(path, entries[i].name_chars()), entries[i])->Ok_0;
            let rest = walk_entries(path, entries, i + 1)->Ok_0;
            assert forall|j: int| 0 <= j < s.len() implies has_header(#[trigger] s[j]) by {
                if j < first.len() {
                    assert(s[j] == first[j]);
                } else {
                    assert(s[j] == rest[j - first.len()]);
                }
            }
        }
    }
}

/// Every record of a successful collection carries its header: its
/// content begins with its own path and a blank line, and is non-empty.
pub proof fn lemma_collect_records_have_headers(root: FsNode)
    ensures
        collect_spec(root) matches Ok(s) ==> forall|j: int|
            0 <= j < s.len() ==> has_header(#[trigger] s[j]),
{
    match root {
        FsNode::Dir { name, entries } => {
            lemma_walk_entries_records_have_headers(name@, entries, 0);
        },
        _ => {},
    }
}

/// The outcome of a collection is a function of the snapshot alone:
/// two collections over the same unchanged tree yield the same records
/// in the same order, or the same error.
pub proof fn lemma_collect_deterministic(
    root: FsNode,
    r1: Result<Seq<CollectedFileModel>, CollectErrorModel>,
    r2: Result<Seq<CollectedFileModel>, CollectErrorModel>,
)
    requires
        r1 == collect_spec(root),
        r2 == collect_spec(root),
    ensures
        r1 == r2,
{
}

} // verus!
