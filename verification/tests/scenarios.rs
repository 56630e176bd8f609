//! Concrete end-to-end scenarios: exact records, exact aggregate blobs,
//! exact errors.

use clipfil::collect;
use clipfil::CollectError;
use clipfil::FsNode;

fn dir(name: &str, entries: Vec<FsNode>) -> FsNode {
    FsNode::Dir { name: name.to_string(), entries }
}

fn file(name: &str, content: &str) -> FsNode {
    FsNode::File { name: name.to_string(), data: content.as_bytes().to_vec() }
}

#[test]
fn two_text_files_collected_in_order() {
    let root = dir(
        "root",
        vec![file("a.txt", "hello"), dir("b", vec![file("c.txt", "world")])],
    );
    let result = collect(&root).unwrap();
    assert_eq!(result.len(), 2);
    assert_eq!(result.get(0).path, "root/a.txt");
    assert_eq!(result.get(0).content, "root/a.txt\n\nhello");
    assert_eq!(result.get(1).path, "root/b/c.txt");
    assert_eq!(result.get(1).content, "root/b/c.txt\n\nworld");
    assert!(result.get(0).content.starts_with("root/a.txt"));
    assert!(result.get(1).content.starts_with("root/b/c.txt"));
}

#[test]
fn empty_file_collects_nothing() {
    let root = dir("root", vec![file("empty.txt", "")]);
    let result = collect(&root).unwrap();
    assert_eq!(result.len(), 0);
}

#[test]
fn one_bad_file_fails_the_whole_call() {
    let root = dir(
        "root",
        vec![
            file("ok.txt", "x"),
            FsNode::File { name: "bad.bin".to_string(), data: vec![0xC3, 0x28] },
        ],
    );
    let result = collect(&root);
    assert_eq!(
        result.unwrap_err(),
        CollectError::FileRead { path: "root/bad.bin".to_string() }
    );
}

#[test]
fn missing_root_is_a_listing_error() {
    let root = FsNode::UnlistableDir { name: "no/such/path".to_string() };
    let result = collect(&root);
    assert_eq!(
        result.unwrap_err(),
        CollectError::Listing { path: "no/such/path".to_string() }
    );
}

#[test]
fn unreadable_file_is_a_file_read_error() {
    let root = dir("root", vec![FsNode::UnreadableFile { name: "secret.txt".to_string() }]);
    let result = collect(&root);
    assert_eq!(
        result.unwrap_err(),
        CollectError::FileRead { path: "root/secret.txt".to_string() }
    );
    match collect(&root) {
        Err(e) => assert_eq!(e.path(), "root/secret.txt"),
        Ok(_) => panic!("the walk must fail"),
    }
}

#[test]
fn unreadable_directory_is_a_listing_error() {
    let root = dir("root", vec![FsNode::UnlistableDir { name: "vault".to_string() }]);
    let result = collect(&root);
    assert_eq!(
        result.unwrap_err(),
        CollectError::Listing { path: "root/vault".to_string() }
    );
}

#[test]
fn empty_directories_collect_nothing() {
    let root = dir(
        "root",
        vec![dir("a", vec![]), dir("b", vec![dir("c", vec![])]), dir("d", vec![])],
    );
    let result = collect(&root).unwrap();
    assert_eq!(result.len(), 0);
}

#[test]
fn non_directory_root_is_an_empty_success() {
    let root = file("root.txt", "not a directory");
    let result = collect(&root).unwrap();
    assert_eq!(result.len(), 0);
}

#[test]
fn collecting_twice_yields_identical_results() {
    let root = dir(
        "root",
        vec![file("a.txt", "one"), dir("sub", vec![file("b.txt", "two")]), file("c.txt", "")],
    );
    let first = collect(&root).unwrap();
    let second = collect(&root).unwrap();
    assert_eq!(first, second);
    assert_eq!(first.aggregate(), second.aggregate());
}

#[test]
fn multibyte_text_is_decoded_exactly() {
    let root = dir("root", vec![file("greet.txt", "h\u{e9}llo \u{1F600}")]);
    let result = collect(&root).unwrap();
    assert_eq!(result.len(), 1);
    assert_eq!(result.get(0).content, "root/greet.txt\n\nh\u{e9}llo \u{1F600}");
}

#[test]
fn truncated_multibyte_sequence_fails() {
    let root = dir(
        "root",
        vec![FsNode::File { name: "cut.txt".to_string(), data: vec![0xE2, 0x82] }],
    );
    assert!(collect(&root).is_err());
}

#[test]
fn aggregate_joins_contents_with_blank_lines() {
    let root = dir(
        "root",
        vec![file("a.txt", "hello"), dir("b", vec![file("c.txt", "world")])],
    );
    let result = collect(&root).unwrap();
    assert_eq!(
        result.aggregate(),
        "root/a.txt\n\nhello\n\nroot/b/c.txt\n\nworld"
    );
}

#[test]
fn aggregate_of_nothing_is_empty() {
    let root = dir("root", vec![]);
    let result = collect(&root).unwrap();
    assert_eq!(result.aggregate(), "");
}

#[test]
fn depth_first_preorder_visits_a_subtree_before_the_next_sibling() {
    let root = dir(
        "root",
        vec![
            dir("a", vec![file("deep.txt", "1"), dir("inner", vec![file("deeper.txt", "2")])]),
            file("b.txt", "3"),
        ],
    );
    let result = collect(&root).unwrap();
    assert_eq!(result.len(), 3);
    assert_eq!(result.get(0).path, "root/a/deep.txt");
    assert_eq!(result.get(1).path, "root/a/inner/deeper.txt");
    assert_eq!(result.get(2).path, "root/b.txt");
}
