use srow::error::AppError;
use srow::file_system::FileSystem;
use srow::file_system::copy_verified;
use srow::fs_model::DirEntry;
use srow::fs_model::DirTree;
use srow::fs_model::FsNode;

fn file(name: &str, content: &[u8]) -> DirEntry {
    DirEntry { name: name.to_string(), node: FsNode::File(content.to_vec()) }
}

fn dir(name: &str, entries: Vec<DirEntry>) -> DirEntry {
    DirEntry { name: name.to_string(), node: FsNode::Dir(DirTree { entries }) }
}

#[test]
fn copy_all_data_under_the_directory_with_hash_verification_successfully_copies_files_and_directories()
{
    let source = DirTree {
        entries: vec![
            file("file1.txt", b"content1"),
            file("file2.txt", b"content2"),
            dir("subdir", vec![file("file3.txt", b"content3")]),
        ],
    };
    let dest = copy_verified(&source);
    let result =
        FileSystem::copy_all_data_under_the_directory_with_hash_verification(&source, &dest);
    assert!(result.is_ok());
    assert_eq!(dest, source);
}

#[test]
fn copy_all_data_with_hash_verification_reports_missing_entries() {
    let source = DirTree { entries: vec![file("file1.txt", b"content1")] };
    let dest = DirTree { entries: vec![] };
    let result =
        FileSystem::copy_all_data_under_the_directory_with_hash_verification(&source, &dest);
    match result.unwrap_err() {
        AppError::NotFound(name) => assert_eq!(name, "file1.txt"),
        other => panic!("expected NotFound, got {:?}", other),
    }
}

#[test]
fn copy_all_data_with_hash_verification_reports_altered_content() {
    let source = DirTree { entries: vec![file("file1.txt", b"content1")] };
    let dest = DirTree { entries: vec![file("file1.txt", b"tampered")] };
    let result =
        FileSystem::copy_all_data_under_the_directory_with_hash_verification(&source, &dest);
    match result.unwrap_err() {
        AppError::IntegrityMismatch(expected, actual) => {
            assert_eq!(
                expected,
                FileSystem::calculate_hash_from_file_content(&b"content1".to_vec())
            );
            assert_eq!(
                actual,
                FileSystem::calculate_hash_from_file_content(&b"tampered".to_vec())
            );
            assert_ne!(expected, actual);
        }
        other => panic!("expected IntegrityMismatch, got {:?}", other),
    }
}

#[test]
fn copy_verified_preserves_nested_content() {
    let source = DirTree {
        entries: vec![file("a.txt", b"x"), dir("sub", vec![file("b.txt", b"y")])],
    };
    let copy = copy_verified(&source);
    assert_eq!(copy, source);
}

#[test]
fn verify_directory_contents_match_returns_true_for_identical_directories() {
    let dir1 = DirTree {
        entries: vec![
            dir("subdir", vec![file("file2.txt", b"content")]),
            file("file1.txt", b"content"),
        ],
    };
    let dir2 = DirTree {
        entries: vec![
            file("file1.txt", b"content"),
            dir("subdir", vec![file("file2.txt", b"content")]),
        ],
    };
    let result = FileSystem::verify_directory_contents_match(&dir1, &dir2);
    assert!(result);
}

#[test]
fn verify_directory_contents_match_returns_false_for_different_directories() {
    let dir1 = DirTree { entries: vec![file("file1.txt", b"content1")] };
    let dir2 = DirTree { entries: vec![file("file2.txt", b"content2")] };
    let result = FileSystem::verify_directory_contents_match(&dir1, &dir2);
    assert!(!result);
}

#[test]
fn verify_directory_contents_match_is_symmetric() {
    let a = DirTree { entries: vec![file("one", b""), file("two", b"")] };
    let b = DirTree { entries: vec![file("two", b""), file("three", b"")] };
    assert_eq!(
        FileSystem::verify_directory_contents_match(&a, &b),
        FileSystem::verify_directory_contents_match(&b, &a)
    );
    let c = DirTree { entries: vec![file("two", b""), file("one", b"")] };
    assert_eq!(
        FileSystem::verify_directory_contents_match(&a, &c),
        FileSystem::verify_directory_contents_match(&c, &a)
    );
}

#[test]
fn list_relative_paths_sorts_names() {
    let tree = DirTree {
        entries: vec![file("zeta", b""), dir("alpha", vec![]), file("mid", b"")],
    };
    let listed = FileSystem::list_relative_paths(&tree);
    assert_eq!(listed, vec!["alpha".to_string(), "mid".to_string(), "zeta".to_string()]);
}

#[test]
fn list_relative_paths_orders_by_each_character() {
    let tree = DirTree {
        entries: vec![file("b", b""), file("ab", b""), file("aa", b"")],
    };
    let listed = FileSystem::list_relative_paths(&tree);
    assert_eq!(listed, vec!["aa".to_string(), "ab".to_string(), "b".to_string()]);
}

#[test]
fn calculate_hash_from_file_content_returns_consistent_hash_for_same_content() {
    let content = b"test content".to_vec();
    let hash1 = FileSystem::calculate_hash_from_file_content(&content);
    let hash2 = FileSystem::calculate_hash_from_file_content(&content);
    assert_eq!(hash1, hash2);
}

#[test]
fn calculate_hash_from_file_content_returns_different_hash_for_different_content() {
    let hash1 = FileSystem::calculate_hash_from_file_content(&b"content1".to_vec());
    let hash2 = FileSystem::calculate_hash_from_file_content(&b"content2".to_vec());
    assert_ne!(hash1, hash2);
}

#[test]
fn calculate_hash_matches_known_digests() {
    let empty = FileSystem::calculate_hash_from_file_content(&Vec::new());
    assert_eq!(empty, "e3b0c44298fc1c149afbf4c8996fb92427ae41e4649b934ca495991b7852b855");
    let abc = FileSystem::calculate_hash_from_file_content(&b"abc".to_vec());
    assert_eq!(abc, "ba7816bf8f01cfea414140de5dae2223b00361a396177a9cb410ff61f20015ad");
}

#[test]
fn clear_directory_contents_removes_all_files_and_subdirectories() {
    let mut test_dir = DirTree {
        entries: vec![
            file("file1.txt", b"content1"),
            file("file2.txt", b"content2"),
            dir("subdir", vec![file("subfile.txt", b"subcontent")]),
        ],
    };
    FileSystem::clear_directory_contents(&mut test_dir);
    assert!(FileSystem::is_directory_empty(&test_dir));
}

#[test]
fn clear_directory_contents_works_with_empty_directory() {
    let mut empty_dir = DirTree { entries: vec![] };
    FileSystem::clear_directory_contents(&mut empty_dir);
    assert!(FileSystem::is_directory_empty(&empty_dir));
}

#[test]
fn is_directory_empty_returns_true_for_empty_directory() {
    let empty = DirTree { entries: vec![] };
    assert!(FileSystem::is_directory_empty(&empty));
}

#[test]
fn is_directory_empty_returns_false_for_non_empty_directory() {
    let non_empty = DirTree { entries: vec![file("file.txt", b"")] };
    assert!(!FileSystem::is_directory_empty(&non_empty));
}
