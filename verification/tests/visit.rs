//! The directory-walk behaviours, each exercised on an in-memory
//! snapshot of the tree the walk would see.

use clipfil::collect;
use clipfil::FsNode;

fn dir(name: &str, entries: Vec<FsNode>) -> FsNode {
    FsNode::Dir { name: name.to_string(), entries }
}

fn file(name: &str, content: &str) -> FsNode {
    FsNode::File { name: name.to_string(), data: content.as_bytes().to_vec() }
}

fn binary(name: &str) -> FsNode {
    FsNode::File { name: name.to_string(), data: vec![0_u8, 159, 146, 150] }
}

#[test]
fn test_visit_dirs_with_non_binary_files() {
    let root = dir("test_dir", vec![file("test.txt", "Test text content")]);
    let result = collect(&root).unwrap();
    assert!(result.len() != 0, "File contents should not be empty");
}

#[test]
fn test_visit_dirs_with_binary_file() {
    let root = dir("test_dir_with_binary", vec![binary("test.bin")]);
    let result = collect(&root);
    assert!(
        result.is_err(),
        "A file that does not decode as text is fatal for the whole walk"
    );
}

#[test]
fn test_visit_dirs_with_mixed_content() {
    let root = dir(
        "test_dir_mixed",
        vec![file("test.txt", "Test text content"), binary("test.bin")],
    );
    let result = collect(&root);
    assert!(
        result.is_err(),
        "One undecodable file aborts the walk even beside a fine one"
    );
}

#[test]
fn test_visit_dirs_with_empty_directory() {
    let root = dir("test_dir_empty", vec![]);
    let result = collect(&root).unwrap();
    assert!(
        result.len() == 0,
        "File contents should be empty when visiting an empty directory"
    );
}

#[test]
fn test_visit_dirs_with_nested_directories() {
    let root = dir(
        "test_dir_nested",
        vec![
            dir("dir1", vec![file("test.txt", "Test text content")]),
            dir("dir2", vec![binary("test.bin")]),
        ],
    );
    let result = collect(&root);
    assert!(
        result.is_err(),
        "An undecodable file in a nested directory aborts the walk"
    );
}

#[test]
fn test_visit_dirs_with_large_number_of_files() {
    let mut entries = Vec::new();
    for i in 0..1000 {
        entries.push(file(&format!("file{}.txt", i), "Some content"));
    }
    let root = dir("test_dir_large", entries);
    let result = collect(&root).unwrap();
    assert_eq!(
        result.len(),
        1000,
        "File contents should contain entries for all non-binary files"
    );
}

#[test]
fn test_visit_dirs_with_deep_nesting() {
    let root = dir(
        "test_dir_deep",
        vec![dir(
            "dir1",
            vec![dir("dir2", vec![dir("dir3", vec![file("test.txt", "Nested content")])])],
        )],
    );
    let result = collect(&root).unwrap();
    assert_eq!(
        result.len(),
        1,
        "File contents should contain one entry for the deeply nested non-binary file"
    );
}

#[test]
fn test_visit_dirs_with_varied_encodings() {
    let root = dir(
        "test_dir_encodings",
        vec![file("utf8.txt", "UTF-8 content"), file("latin1.txt", "Latin1 content")],
    );
    let result = collect(&root).unwrap();
    assert_eq!(
        result.len(),
        2,
        "File contents should contain entries for files with different encodings"
    );
}

#[test]
fn test_visit_dirs_with_permission_error() {
    let root = FsNode::UnlistableDir { name: "test_dir_no_permission".to_string() };
    let result = collect(&root);
    assert!(
        result.is_err(),
        "Should error when visiting a directory with no read permission"
    );
}

#[test]
fn test_visit_dirs_with_file_no_read_permission() {
    let root = dir(
        "test_dir_file_no_permission",
        vec![FsNode::UnreadableFile { name: "no_read.txt".to_string() }],
    );
    let result = collect(&root);
    assert!(
        result.is_err(),
        "Should error when visiting a file with no read permission"
    );
}

#[test]
fn test_visit_dirs_with_special_characters() {
    let root = dir(
        "test_dir_special_chars",
        vec![file("test_@!#&().txt", "Special characters in file name")],
    );
    let result = collect(&root).unwrap();
    assert_eq!(
        result.len(),
        1,
        "File contents should contain one entry for the file with special characters"
    );
}

#[test]
fn test_visit_dirs_with_empty_file() {
    let root = dir("test_dir_empty_file", vec![file("empty.txt", "")]);
    let result = collect(&root).unwrap();
    assert!(
        result.len() == 0,
        "File contents should be empty when visiting a directory with an empty file"
    );
}

#[test]
fn test_visit_dirs_with_mixed_binary_non_binary_files() {
    let root = dir(
        "test_dir_mixed_files",
        vec![file("test.txt", "Test text content"), binary("test.bin")],
    );
    let result = collect(&root);
    assert!(
        result.is_err(),
        "One undecodable file aborts the walk; no partial result survives"
    );
}
