use fuzgit::git::status::{parse_paths, status_args};
use fuzgit::git::{ChangeScope, FileChange};

const SAMPLE: &[u8] =
    b"M  staged.txt\0 M changed.txt\0MM both.txt\0?? new file.txt\0UU ours.txt\0AA added.txt\0";

fn paths(scope: ChangeScope) -> Vec<String> {
    scope
        .parse_status(SAMPLE)
        .expect("the sample is well formed")
        .into_iter()
        .map(|change| change.path)
        .collect()
}

#[test]
fn each_scope_lists_its_own_changes() {
    assert_eq!(
        paths(ChangeScope::Worktree),
        ["changed.txt", "both.txt", "ours.txt", "added.txt"]
    );
    assert_eq!(
        paths(ChangeScope::Staged),
        ["staged.txt", "both.txt", "ours.txt", "added.txt"]
    );
    assert_eq!(
        paths(ChangeScope::Stageable),
        ["changed.txt", "both.txt", "new file.txt", "ours.txt", "added.txt"]
    );
    assert_eq!(paths(ChangeScope::Unmerged), ["ours.txt", "added.txt"]);
    assert_eq!(paths(ChangeScope::TrackedOrUntracked).len(), 6);
}

#[test]
fn a_renamed_file_brings_its_origin() {
    let changes = ChangeScope::TrackedOrUntracked
        .parse_status(b"R  new.txt\0old.txt\0 M other.txt\0")
        .expect("the origin is there");

    assert_eq!(
        changes,
        [
            FileChange {
                path: "new.txt".to_owned(),
                original_path: Some("old.txt".to_owned()),
                index_status: 'R',
                worktree_status: ' ',
            },
            FileChange {
                path: "other.txt".to_owned(),
                original_path: None,
                index_status: ' ',
                worktree_status: 'M',
            },
        ]
    );
}

#[test]
fn a_status_that_is_not_understood_is_refused() {
    for output in [
        &b" M cut off"[..],
        b"R  new.txt\0",
        b" M\0",
        b"  \0",
        b"\0",
        b"MMxpath\0",
    ] {
        assert_eq!(
            ChangeScope::TrackedOrUntracked.parse_status(output),
            None,
            "{output:?}"
        );
    }
    assert_eq!(ChangeScope::Staged.parse_status(b""), Some(Vec::new()));
}

#[test]
fn a_listing_is_read_record_by_record() {
    assert_eq!(
        parse_paths(b"a.txt\0dir/with space.txt\0"),
        Some(vec!["a.txt".to_owned(), "dir/with space.txt".to_owned()])
    );
    assert_eq!(parse_paths(b""), Some(Vec::new()));
    assert_eq!(parse_paths(b"a.txt"), None);
}

#[test]
fn a_path_that_is_not_utf8_is_read_with_a_replacement() {
    assert_eq!(
        parse_paths(&[b'a', 0xff, 0]),
        Some(vec!["a\u{fffd}".to_owned()])
    );
}

#[test]
fn the_status_is_asked_for_in_records() {
    assert_eq!(
        status_args(),
        ["status", "--porcelain=v1", "-z", "--untracked-files=all"]
    );
}
