use gfm::parse::GitService;
use gfm::status::FileStatus;
use gfm::status::FileStatusType;
use gfm::status::GitStatus;

fn service() -> GitService {
    GitService::new("/repo".to_string())
}

fn file_eq(a: &FileStatus, b: &FileStatus) -> bool {
    a.path == b.path && a.status == b.status && a.staged == b.staged && a.lines_added
        == b.lines_added && a.lines_deleted == b.lines_deleted && a.old_path == b.old_path
}

fn status_eq(a: &GitStatus, b: &GitStatus) -> bool {
    a.branch.name == b.branch.name && a.branch.upstream == b.branch.upstream && a.branch.ahead
        == b.branch.ahead && a.branch.behind == b.branch.behind
        && match (&a.last_commit, &b.last_commit) {
            (Some(x), Some(y)) => x.hash == y.hash && x.author == y.author && x.subject
                == y.subject,
            (None, None) => true,
            _ => false,
        }
        && a.staged_files.len() == b.staged_files.len()
        && a.unstaged_files.len() == b.unstaged_files.len()
        && a.staged_files.iter().zip(b.staged_files.iter()).all(|(x, y)| file_eq(x, y))
        && a.unstaged_files.iter().zip(b.unstaged_files.iter()).all(|(x, y)| file_eq(x, y))
}

#[test]
fn ordinary_line_yields_one_staged_entry() {
    let svc = service();
    let mut staged = Vec::new();
    let mut unstaged = Vec::new();
    svc.parse_changed_entry(
        "1 M. N... 100644 100644 100644 abc123 def456 file.txt",
        &mut staged,
        &mut unstaged,
    );
    assert_eq!(staged.len(), 1);
    assert_eq!(unstaged.len(), 0);
    assert_eq!(staged[0].path, "file.txt");
    assert_eq!(staged[0].status, FileStatusType::Modified);
    assert!(staged[0].staged);
    assert_eq!(staged[0].lines_added, 0);
    assert_eq!(staged[0].lines_deleted, 0);
    assert_eq!(staged[0].old_path, None);
}

#[test]
fn worktree_code_yields_unstaged_entry() {
    let svc = service();
    let mut staged = Vec::new();
    let mut unstaged = Vec::new();
    svc.parse_changed_entry(
        "1 MM N... 100644 100644 100644 abc123 def456 both.txt",
        &mut staged,
        &mut unstaged,
    );
    assert_eq!(staged.len(), 1);
    assert_eq!(unstaged.len(), 1);
    assert!(!unstaged[0].staged);
    assert_eq!(unstaged[0].path, "both.txt");
}

#[test]
fn rename_line_yields_new_path_with_old_path() {
    let svc = service();
    let mut staged = Vec::new();
    let mut unstaged = Vec::new();
    svc.parse_changed_entry(
        "2 R. N... 100644 100644 100644 abc def R100\told.txt\tnew.txt",
        &mut staged,
        &mut unstaged,
    );
    assert_eq!(staged.len(), 1);
    assert_eq!(unstaged.len(), 0);
    assert_eq!(staged[0].path, "new.txt");
    assert_eq!(staged[0].status, FileStatusType::Renamed);
    assert_eq!(staged[0].old_path.as_deref(), Some("old.txt"));
}

#[test]
fn unknown_code_is_skipped() {
    let svc = service();
    let mut staged = Vec::new();
    let mut unstaged = Vec::new();
    svc.parse_changed_entry(
        "1 X. N... 100644 100644 100644 abc123 def456 odd.txt",
        &mut staged,
        &mut unstaged,
    );
    assert_eq!(staged.len(), 0);
    assert_eq!(unstaged.len(), 0);
}

#[test]
fn untracked_and_unmerged_lines() {
    let svc = service();
    let text = "? brand-new.txt\nu UU N... 100644 100644 100644 100644 abc def ghi conflicted.txt\n";
    let (staged, unstaged) = svc.parse_file_statuses(text);
    assert_eq!(staged.len(), 0);
    assert_eq!(unstaged.len(), 2);
    assert_eq!(unstaged[0].path, "brand-new.txt");
    assert_eq!(unstaged[0].status, FileStatusType::Untracked);
    assert_eq!(unstaged[0].lines_added, 0);
    assert_eq!(unstaged[1].path, "conflicted.txt");
    assert_eq!(unstaged[1].status, FileStatusType::Unmerged);
}

#[test]
fn entry_count_matches_code_characters() {
    // Two ordinary lines with one and two non-'.' codes, plus one
    // untracked line: four entries in all.
    let svc = service();
    let text = "1 M. N... 100644 100644 100644 a b one.txt\n\
                1 MM N... 100644 100644 100644 a b two.txt\n\
                ? three.txt\n";
    let (staged, unstaged) = svc.parse_file_statuses(text);
    assert_eq!(staged.len() + unstaged.len(), 4);
}

#[test]
fn branch_info_is_parsed() {
    let svc = service();
    let text = "# branch.oid abc\n# branch.head main\n# branch.upstream origin/main\n# branch.ab +3 -1\n";
    let info = svc.parse_branch_info(text);
    assert_eq!(info.name, "main");
    assert_eq!(info.upstream.as_deref(), Some("origin/main"));
    assert_eq!(info.ahead, 3);
    assert_eq!(info.behind, 1);
}

#[test]
fn branch_info_degrades_to_default() {
    let svc = service();
    let info = svc.parse_branch_info("");
    assert_eq!(info.name, "");
    assert_eq!(info.upstream, None);
    assert_eq!(info.ahead, 0);
    assert_eq!(info.behind, 0);
}

#[test]
fn last_commit_is_split_on_pipes() {
    let svc = service();
    let commit = svc.parse_last_commit("ab12cd3|Jo Doe|Fix the thing | twice").unwrap();
    assert_eq!(commit.hash, "ab12cd3");
    assert_eq!(commit.author, "Jo Doe");
    assert_eq!(commit.subject, "Fix the thing | twice");
    assert!(service().parse_last_commit("no pipes here").is_none());
    assert!(service().parse_last_commit("one|pipe").is_none());
}

#[test]
fn numeric_diff_join_sets_counts() {
    let svc = service();
    let built = svc.build_status(
        None,
        None,
        "1 M. N... 100644 100644 100644 abc123 def456 file.txt",
        Some("5\t2\tfile.txt"),
        None,
    );
    assert_eq!(built.staged_files.len(), 1);
    assert_eq!(built.staged_files[0].lines_added, 5);
    assert_eq!(built.staged_files[0].lines_deleted, 2);
}

#[test]
fn absent_path_keeps_zero_counts() {
    let svc = service();
    let built = svc.build_status(
        None,
        None,
        "1 M. N... 100644 100644 100644 abc123 def456 kept.txt",
        Some("7\t4\tother.txt"),
        None,
    );
    assert_eq!(built.staged_files[0].lines_added, 0);
    assert_eq!(built.staged_files[0].lines_deleted, 0);
}

#[test]
fn binary_file_counts_read_as_zero() {
    let svc = service();
    let stats = svc.parse_diff_stats("-\t-\timage.png\n3\t1\tcode.rs\n");
    assert_eq!(stats.len(), 2);
    assert_eq!(stats[0].path, "image.png");
    assert_eq!(stats[0].added, 0);
    assert_eq!(stats[0].deleted, 0);
    assert_eq!(stats[1].added, 3);
    assert_eq!(stats[1].deleted, 1);
}

#[test]
fn reparsing_identical_input_is_identical() {
    let svc = service();
    let branch = "# branch.head main\n# branch.ab +1 -0\n";
    let commit = "abc|me|subject";
    let status = "1 M. N... 100644 100644 100644 a b one.txt\n? two.txt\n";
    let stats = "5\t2\tone.txt\n";
    let first = svc.build_status(Some(branch), Some(commit), status, Some(stats), Some(stats));
    let second = svc.build_status(Some(branch), Some(commit), status, Some(stats), Some(stats));
    assert!(status_eq(&first, &second));
}

#[test]
fn snapshot_totals_and_changes() {
    let svc = service();
    let built = svc.build_status(
        None,
        None,
        "1 M. N... 100644 100644 100644 a b one.txt\n? two.txt\n",
        None,
        None,
    );
    assert_eq!(built.total_files(), 2);
    assert!(built.has_changes());
    let empty = svc.build_status(None, None, "", None, None);
    assert_eq!(empty.total_files(), 0);
    assert!(!empty.has_changes());
}

#[test]
fn status_codes_round_trip() {
    for (code, kind) in [
        ('M', FileStatusType::Modified),
        ('A', FileStatusType::Added),
        ('D', FileStatusType::Deleted),
        ('R', FileStatusType::Renamed),
        ('C', FileStatusType::Copied),
        ('?', FileStatusType::Untracked),
        ('U', FileStatusType::Unmerged),
    ] {
        assert_eq!(FileStatusType::from_code(code), Some(kind));
        assert_eq!(kind.code(), code.to_string());
    }
    assert_eq!(FileStatusType::from_code('Z'), None);
}

#[test]
fn repeated_numstat_path_takes_the_last_record() {
    let svc = service();
    let built = svc.build_status(
        None,
        None,
        "1 M. N... 100644 100644 100644 a b dup.txt",
        Some("1\t1\tdup.txt\n9\t8\tdup.txt\n"),
        None,
    );
    assert_eq!(built.staged_files[0].lines_added, 9);
    assert_eq!(built.staged_files[0].lines_deleted, 8);
}

#[test]
fn short_records_are_skipped() {
    let svc = service();
    let (staged, unstaged) = svc.parse_file_statuses("1 M. too short\nu nope\nnoise line\n");
    assert_eq!(staged.len(), 0);
    assert_eq!(unstaged.len(), 0);
}

#[test]
fn rename_without_tab_joins_trailing_fields() {
    let svc = service();
    let mut staged = Vec::new();
    let mut unstaged = Vec::new();
    svc.parse_changed_entry(
        "2 R. N... 100644 100644 100644 abc def R100 odd path.txt",
        &mut staged,
        &mut unstaged,
    );
    assert_eq!(staged.len(), 1);
    assert_eq!(staged[0].path, "odd path.txt");
    assert_eq!(staged[0].old_path, None);
}

#[test]
fn partially_staged_file_appears_in_both_lists() {
    let svc = service();
    let (staged, unstaged) =
        svc.parse_file_statuses("1 MM N... 100644 100644 100644 a b same.txt\n");
    assert_eq!(staged.len(), 1);
    assert_eq!(unstaged.len(), 1);
    assert_eq!(staged[0].path, unstaged[0].path);
    assert!(staged[0].staged);
    assert!(!unstaged[0].staged);
}
