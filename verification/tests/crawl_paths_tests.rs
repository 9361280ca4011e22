use kanshi::crawl::{crawl_step, DirEntryInfo};
use kanshi::paths::{bytes_eq, has_path_prefix, join_path, rewrite_path};

fn entry(inode: u64, is_symlink: bool, is_dir: bool, path: &str) -> DirEntryInfo {
    DirEntryInfo { inode, is_symlink, is_dir, path: path.as_bytes().to_vec() }
}

#[test]
fn crawl_marks_directories_and_skips_cycles() {
    // the inotify walk: only directories are marked, visited inodes and
    // symlinks are skipped
    let mut visited: Vec<u64> = vec![10];
    let entries = vec![
        entry(11, false, true, "/t/a"),
        entry(12, false, false, "/t/file"),
        entry(10, false, true, "/t/seen"),
        entry(13, true, true, "/t/link"),
        entry(14, false, true, "/t/b"),
    ];
    let (marks, descend) = crawl_step(&mut visited, &entries, false);
    assert_eq!(marks, vec![b"/t/a".to_vec(), b"/t/b".to_vec()]);
    assert_eq!(descend, vec![b"/t/a".to_vec(), b"/t/b".to_vec()]);
    assert_eq!(visited, vec![10, 11, 12, 14]);
}

#[test]
fn crawl_marks_files_for_fanotify() {
    // the fanotify walk: every fresh entry is marked, directories descend
    let mut visited: Vec<u64> = Vec::new();
    let entries = vec![
        entry(1, false, true, "/t/a"),
        entry(2, false, false, "/t/file"),
    ];
    let (marks, descend) = crawl_step(&mut visited, &entries, true);
    assert_eq!(marks, vec![b"/t/a".to_vec(), b"/t/file".to_vec()]);
    assert_eq!(descend, vec![b"/t/a".to_vec()]);
}

#[test]
fn path_prefix_is_component_wise() {
    assert!(has_path_prefix(&b"/t/a".to_vec(), &b"/t/a".to_vec()));
    assert!(has_path_prefix(&b"/t/a".to_vec(), &b"/t/a/b".to_vec()));
    assert!(!has_path_prefix(&b"/t/a".to_vec(), &b"/t/ab".to_vec()));
    assert!(!has_path_prefix(&b"/t/a".to_vec(), &b"/t".to_vec()));
}

#[test]
fn rewrite_swaps_the_prefix() {
    assert_eq!(
        rewrite_path(&b"/t/a/b".to_vec(), &b"/t/a".to_vec(), &b"/t/c".to_vec()),
        b"/t/c/b".to_vec()
    );
    assert_eq!(
        rewrite_path(&b"/t/a".to_vec(), &b"/t/a".to_vec(), &b"/t/c".to_vec()),
        b"/t/c".to_vec()
    );
    assert_eq!(
        rewrite_path(&b"/t/ab".to_vec(), &b"/t/a".to_vec(), &b"/t/c".to_vec()),
        b"/t/ab".to_vec()
    );
}

#[test]
fn join_composes_base_slash_name() {
    assert_eq!(
        join_path(&Some(b"/t".to_vec()), &Some(b"a".to_vec())),
        b"/t/a".to_vec()
    );
    assert_eq!(join_path(&None, &Some(b"a".to_vec())), b"/a".to_vec());
    assert_eq!(join_path(&Some(b"/t".to_vec()), &None), b"/t/".to_vec());
}

#[test]
fn byte_equality() {
    assert!(bytes_eq(&b"abc".to_vec(), &b"abc".to_vec()));
    assert!(!bytes_eq(&b"abc".to_vec(), &b"abd".to_vec()));
    assert!(!bytes_eq(&b"abc".to_vec(), &b"ab".to_vec()));
}
