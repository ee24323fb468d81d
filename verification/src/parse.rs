//! The status parser: turns the raw text of the version-control tool's
//! machine-readable queries into a typed [`GitStatus`] snapshot.
//!
//! Every parser is total: a malformed record is skipped, a malformed
//! number reads as zero, and a missing sub-result degrades to an empty
//! default, so one bad line never fails a whole synchronization pass.

use crate::status::BranchInfoView;
use crate::status::CommitInfo;
use crate::status::CommitInfoView;
use crate::status::FileStatus;
use crate::status::FileStatusType;
use crate::status::FileStatusView;
use crate::status::BranchInfo;
use crate::status::GitStatus;
use crate::status::GitStatusView;
use crate::text::find_char;
use crate::text::first_index_of;
use crate::text::join_from;
use crate::text::spec_join;
use crate::text::spec_lines;
use crate::text::spec_split;
use crate::text::parse_usize_or_zero;
use crate::text::spec_fields;
use crate::text::spec_parse_usize_or_zero;
use crate::text::spec_starts_with;
use crate::text::spec_trim_char;
use crate::text::spec_trim_prefix;
use crate::text::split_fields;
use crate::text::split_lines;
use crate::text::split_on;
use crate::text::starts_with;
use crate::text::trim_char;
use crate::text::trim_prefix;
use crate::text::str_eq;
use crate::text::str_len;
use crate::text::substring;
use vstd::prelude::*;

verus! {

/// The empty sequence for `None`, the one element for `Some`.
pub open spec fn opt_to_seq<T>(o: Option<T>) -> Seq<T> {
    match o {
        Some(x) => seq![x],
        None => Seq::empty(),
    }
}

/// The index-state code character of a two-character status field:
/// its first character, or `'.'` if the field is empty.
pub open spec fn spec_index_code(xy: Seq<char>) -> char {
    if xy.len() >= 1 {
        xy[0]
    } else {
        '.'
    }
}

/// The worktree-state code character of a two-character status field:
/// its second character, or `'.'` if the field is shorter.
pub open spec fn spec_worktree_code(xy: Seq<char>) -> char {
    if xy.len() >= 2 {
        xy[1]
    } else {
        '.'
    }
}

/// The tab-separated path fields after the first tab of a rename/copy
/// record, or `None` if the record has no tab at all.
pub open spec fn spec_rename_paths(line: Seq<char>) -> Option<Seq<Seq<char>>> {
    let t = first_index_of(line, '\t');
    if t == line.len() {
        None
    } else {
        Some(spec_split(line.subrange(t + 1, line.len() as int), '\t'))
    }
}

/// The path of a changed record: for a rename/copy record the second
/// tab-separated path field; in every other case whatever follows the
/// fixed space-separated fields, spaces in the path preserved.
pub open spec fn spec_changed_path(line: Seq<char>, parts: Seq<Seq<char>>) -> Seq<char> {
    if spec_starts_with(line, "2 "@) {
        match spec_rename_paths(line) {
            Some(pp) => if pp.len() >= 2 {
                pp[1]
            } else {
                spec_join(parts.subrange(9, parts.len() as int), ' ')
            },
            None => spec_join(parts.subrange(9, parts.len() as int), ' '),
        }
    } else {
        spec_join(parts.subrange(8, parts.len() as int), ' ')
    }
}

/// The rename source path of a rename/copy record: the first
/// tab-separated path field, when the record has a tab.
pub open spec fn spec_old_path(line: Seq<char>) -> Option<Seq<char>> {
    if spec_starts_with(line, "2 "@) {
        match spec_rename_paths(line) {
            Some(pp) => Some(pp[0]),
            None => None,
        }
    } else {
        None
    }
}

/// What one ordinary or rename/copy record yields: at most one staged
/// entry (from the index-state code) and at most one unstaged entry
/// (from the worktree-state code). A record with fewer than nine
/// space-separated fields, and any unknown code character, yields
/// nothing.
pub open spec fn spec_parse_changed(line: Seq<char>) -> (Option<FileStatusView>, Option<
    FileStatusView,
>) {
    let parts = spec_split(line, ' ');
    if parts.len() < 9 {
        (None, None)
    } else {
        let xy = parts[1];
        let path = spec_changed_path(line, parts);
        let staged_entry = if spec_index_code(xy) != '.' {
            match FileStatusType::spec_from_code(spec_index_code(xy)) {
                Some(st) => Some(
                    FileStatusView {
                        path,
                        status: st,
                        staged: true,
                        lines_added: 0,
                        lines_deleted: 0,
                        old_path: spec_old_path(line),
                    },
                ),
                None => None,
            }
        } else {
            None
        };
        let unstaged_entry = if spec_worktree_code(xy) != '.' {
            match FileStatusType::spec_from_code(spec_worktree_code(xy)) {
                Some(st) => Some(
                    FileStatusView {
                        path,
                        status: st,
                        staged: false,
                        lines_added: 0,
                        lines_deleted: 0,
                        old_path: None,
                    },
                ),
                None => None,
            }
        } else {
            None
        };
        (staged_entry, unstaged_entry)
    }
}

/// What one unmerged record yields: one unstaged entry with the path
/// that follows the ten fixed fields, or nothing when fields are
/// missing.
pub open spec fn spec_parse_unmerged(line: Seq<char>) -> Option<FileStatusView> {
    let parts = spec_split(line, ' ');
    if parts.len() >= 11 {
        Some(
            FileStatusView {
                path: spec_join(parts.subrange(10, parts.len() as int), ' '),
                status: FileStatusType::Unmerged,
                staged: false,
                lines_added: 0,
                lines_deleted: 0,
                old_path: None,
            },
        )
    } else {
        None
    }
}

/// What one untracked record yields: one unstaged entry whose path is
/// everything after the two-character prefix.
pub open spec fn spec_untracked_entry(line: Seq<char>) -> FileStatusView {
    FileStatusView {
        path: line.subrange(2, line.len() as int),
        status: FileStatusType::Untracked,
        staged: false,
        lines_added: 0,
        lines_deleted: 0,
        old_path: None,
    }
}

/// The staged entries one line of file-status output yields.
pub open spec fn staged_of_line(line: Seq<char>) -> Seq<FileStatusView> {
    if spec_starts_with(line, "1 "@) || spec_starts_with(line, "2 "@) {
        opt_to_seq(spec_parse_changed(line).0)
    } else {
        Seq::empty()
    }
}

/// The unstaged entries one line of file-status output yields.
pub open spec fn unstaged_of_line(line: Seq<char>) -> Seq<FileStatusView> {
    if spec_starts_with(line, "1 "@) || spec_starts_with(line, "2 "@) {
        opt_to_seq(spec_parse_changed(line).1)
    } else if spec_starts_with(line, "? "@) {
        seq![spec_untracked_entry(line)]
    } else if spec_starts_with(line, "u "@) {
        opt_to_seq(spec_parse_unmerged(line))
    } else {
        Seq::empty()
    }
}

/// The staged and unstaged entries a sequence of lines yields, in
/// emission order.
pub open spec fn spec_status_pair(lines: Seq<Seq<char>>) -> (Seq<FileStatusView>, Seq<
    FileStatusView,
>)
    decreases lines.len(),
{
    if lines.len() == 0 {
        (Seq::empty(), Seq::empty())
    } else {
        let prev = spec_status_pair(lines.drop_last());
        (prev.0 + staged_of_line(lines.last()), prev.1 + unstaged_of_line(lines.last()))
    }
}

/// The staged and unstaged entries the raw file-status output yields.
pub open spec fn spec_parse_statuses(text: Seq<char>) -> (Seq<FileStatusView>, Seq<
    FileStatusView,
>) {
    spec_status_pair(spec_lines(text))
}

/// Issues the version-control queries (through its caller) and parses
/// their raw output.
pub struct GitService {
    /// Path to the repository.
    pub repo_path: String,
}

impl GitService {
    /// Create a new service for the given repository path.
    pub fn new(repo_path: String) -> (r: GitService)
        ensures
            r.repo_path == repo_path,
    {
        GitService { repo_path }
    }

    /// Parse one ordinary or rename/copy record, appending what it
    /// yields to the staged and unstaged lists.
    pub fn parse_changed_entry(
        &self,
        line: &str,
        staged: &mut Vec<FileStatus>,
        unstaged: &mut Vec<FileStatus>,
    )
        ensures
            final(staged).deep_view() == old(staged).deep_view() + opt_to_seq(
                spec_parse_changed(line@).0,
            ),
            final(unstaged).deep_view() == old(unstaged).deep_view() + opt_to_seq(
                spec_parse_changed(line@).1,
            ),
    {
        let ghost spec_pair = spec_parse_changed(line@);
        let parts = split_on(line, ' ');
        if parts.len() < 9 {
            proof {
                assert(staged.deep_view() =~= old(staged).deep_view() + opt_to_seq(spec_pair.0));
                assert(unstaged.deep_view() =~= old(unstaged).deep_view() + opt_to_seq(
                    spec_pair.1,
                ));
            }
            return ;
        }
        let is_rename = starts_with(line, "2 ");
        let path: String = if is_rename {
            match find_char(line, '\t') {
                Some(tab_pos) => {
                    let n = str_len(line);
                    let paths = substring(line, tab_pos + 1, n);
                    let path_parts = split_on(paths.as_str(), '\t');
                    if path_parts.len() >= 2 {
                        path_parts[1].clone()
                    } else {
                        join_from(&parts, 9, ' ')
                    }
                },
                None => join_from(&parts, 9, ' '),
            }
        } else {
            join_from(&parts, 8, ' ')
        };
        proof {
            assert(path@ == spec_changed_path(line@, parts.deep_view()));
        }
        let xy = parts[1].as_str();
        let xy_len = str_len(xy);
        let index_status = if xy_len >= 1 {
            xy.get_char(0)
        } else {
            '.'
        };
        let worktree_status = if xy_len >= 2 {
            xy.get_char(1)
        } else {
            '.'
        };
        proof {
            assert(index_status == spec_index_code(parts.deep_view()[1]));
            assert(worktree_status == spec_worktree_code(parts.deep_view()[1]));
        }

        // Staged changes (index side).
        let ghost staged_before = staged.deep_view();
        if index_status != '.' {
            if let Some(status_type) = FileStatusType::from_code(index_status) {
                let mut file = FileStatus::new(path.clone(), status_type, true);
                if is_rename {
                    if let Some(tab_pos) = find_char(line, '\t') {
                        let n = str_len(line);
                        let paths = substring(line, tab_pos + 1, n);
                        let path_parts = split_on(paths.as_str(), '\t');
                        file.old_path = Some(path_parts[0].clone());
                    }
                }
                proof {
                    assert(file@ =~= spec_pair.0->Some_0);
                }
                staged.push(file);
            }
        }
        proof {
            assert(staged.deep_view() =~= staged_before + opt_to_seq(spec_pair.0));
        }

        // Unstaged changes (worktree side).
        let ghost unstaged_before = unstaged.deep_view();
        if worktree_status != '.' {
            if let Some(status_type) = FileStatusType::from_code(worktree_status) {
                let file = FileStatus::new(path, status_type, false);
                proof {
                    assert(file@ =~= spec_pair.1->Some_0);
                }
                unstaged.push(file);
            }
        }
        proof {
            assert(unstaged.deep_view() =~= unstaged_before + opt_to_seq(spec_pair.1));
        }
    }

    /// Parse one unmerged record, appending what it yields to the
    /// unstaged list.
    pub fn parse_unmerged_entry(&self, line: &str, unstaged: &mut Vec<FileStatus>)
        ensures
            final(unstaged).deep_view() == old(unstaged).deep_view() + opt_to_seq(
                spec_parse_unmerged(line@),
            ),
    {
        let parts = split_on(line, ' ');
        let ghost unstaged_before = unstaged.deep_view();
        if parts.len() >= 11 {
            let path = join_from(&parts, 10, ' ');
            let file = FileStatus::new(path, FileStatusType::Unmerged, false);
            proof {
                assert(file@ =~= spec_parse_unmerged(line@)->Some_0);
            }
            unstaged.push(file);
        }
        proof {
            assert(unstaged.deep_view() =~= unstaged_before + opt_to_seq(
                spec_parse_unmerged(line@),
            ));
        }
    }

    /// Parse the whole file-status output into the staged and unstaged
    /// entry lists, in emission order.
    pub fn parse_file_statuses(&self, text: &str) -> (r: (Vec<FileStatus>, Vec<FileStatus>))
        ensures
            r.0.deep_view() == spec_parse_statuses(text@).0,
            r.1.deep_view() == spec_parse_statuses(text@).1,
    {
        let lines = split_lines(text);
        let mut staged: Vec<FileStatus> = Vec::new();
        let mut unstaged: Vec<FileStatus> = Vec::new();
        proof {
            assert(staged.deep_view() =~= spec_status_pair(
                lines.deep_view().subrange(0, 0),
            ).0);
            assert(unstaged.deep_view() =~= spec_status_pair(
                lines.deep_view().subrange(0, 0),
            ).1);
        }
        let mut i: usize = 0;
        while i < lines.len()
            invariant
                i <= lines.len(),
                lines.deep_view() == spec_lines(text@),
                staged.deep_view() == spec_status_pair(
                    lines.deep_view().subrange(0, i as int),
                ).0,
                unstaged.deep_view() == spec_status_pair(
                    lines.deep_view().subrange(0, i as int),
                ).1,
            decreases lines.len() - i,
        {
            let ghost pre = lines.deep_view().subrange(0, i as int);
            let ghost cur = lines.deep_view().subrange(0, i + 1);
            proof {
                assert(cur.drop_last() =~= pre);
                assert(cur.last() == lines.deep_view()[i as int]);
            }
            let line = lines[i].as_str();
            let ghost staged_before = staged.deep_view();
            let ghost unstaged_before = unstaged.deep_view();
            if starts_with(line, "1 ") || starts_with(line, "2 ") {
                self.parse_changed_entry(line, &mut staged, &mut unstaged);
            } else if starts_with(line, "? ") {
                proof {
                    reveal_strlit("? ");
                }
                let n = str_len(line);
                let path = substring(line, 2, n);
                let file = FileStatus::new(path, FileStatusType::Untracked, false);
                proof {
                    assert(file@ =~= spec_untracked_entry(line@));
                }
                unstaged.push(file);
                proof {
                    assert(unstaged.deep_view() =~= unstaged_before + seq![
                        spec_untracked_entry(line@),
                    ]);
                }
            } else if starts_with(line, "u ") {
                self.parse_unmerged_entry(line, &mut unstaged);
            }
            proof {
                assert(staged.deep_view() =~= staged_before + staged_of_line(line@));
                assert(unstaged.deep_view() =~= unstaged_before + unstaged_of_line(line@));
            }
            i += 1;
        }
        proof {
            assert(lines.deep_view().subrange(0, lines.len() as int) =~= lines.deep_view());
        }
        (staged, unstaged)
    }

    /// Parse the branch-summary output, taking the last header line of
    /// each kind; a line that parses badly leaves the default in place.
    pub fn parse_branch_info(&self, text: &str) -> (r: BranchInfo)
        ensures
            r@ == spec_parse_branch(text@),
    {
        let lines = split_lines(text);
        let mut info = BranchInfo::default();
        proof {
            assert(info@ =~= spec_branch_fold(lines.deep_view().subrange(0, 0)));
        }
        let mut i: usize = 0;
        while i < lines.len()
            invariant
                i <= lines.len(),
                lines.deep_view() == spec_lines(text@),
                info@ == spec_branch_fold(lines.deep_view().subrange(0, i as int)),
            decreases lines.len() - i,
        {
            let ghost pre = lines.deep_view().subrange(0, i as int);
            let ghost cur = lines.deep_view().subrange(0, i + 1);
            proof {
                assert(cur.drop_last() =~= pre);
                assert(cur.last() == lines.deep_view()[i as int]);
            }
            proof {
                reveal_strlit("# branch.head ");
                reveal_strlit("# branch.upstream ");
                reveal_strlit("# branch.ab ");
            }
            let line = lines[i].as_str();
            if starts_with(line, "# branch.head ") {
                info.name = trim_prefix(line, "# branch.head ");
            } else if starts_with(line, "# branch.upstream ") {
                info.upstream = Some(trim_prefix(line, "# branch.upstream "));
            } else if starts_with(line, "# branch.ab ") {
                let ab = trim_prefix(line, "# branch.ab ");
                let fields = split_fields(ab.as_str());
                if fields.len() >= 2 {
                    let ahead_digits = trim_char(fields[0].as_str(), '+');
                    let behind_digits = trim_char(fields[1].as_str(), '-');
                    info.ahead = parse_usize_or_zero(ahead_digits.as_str());
                    info.behind = parse_usize_or_zero(behind_digits.as_str());
                }
            }
            proof {
                assert(info@ =~= spec_branch_step(
                    spec_branch_fold(pre),
                    lines.deep_view()[i as int],
                ));
            }
            i += 1;
        }
        proof {
            assert(lines.deep_view().subrange(0, lines.len() as int) =~= lines.deep_view());
        }
        info
    }

    /// Parse the last-commit output: hash, author and subject separated
    /// by the first two pipe characters; `None` when a separator is
    /// missing.
    pub fn parse_last_commit(&self, text: &str) -> (r: Option<CommitInfo>)
        ensures
            r is Some <==> spec_parse_commit(text@) is Some,
            r is Some ==> r->Some_0@ == spec_parse_commit(text@)->Some_0,
    {
        let n = str_len(text);
        match find_char(text, '|') {
            None => None,
            Some(i) => {
                let hash = substring(text, 0, i);
                let rest = substring(text, i + 1, n);
                let rest_len = str_len(rest.as_str());
                match find_char(rest.as_str(), '|') {
                    None => None,
                    Some(j) => {
                        let author = substring(rest.as_str(), 0, j);
                        let subject = substring(rest.as_str(), j + 1, rest_len);
                        let c = CommitInfo { hash, author, subject };
                        proof {
                            assert(c@ =~= spec_parse_commit(text@)->Some_0);
                        }
                        Some(c)
                    },
                }
            },
        }
    }

    /// Parse the numeric-diff output into per-path line-change counts,
    /// in record order.
    pub fn parse_diff_stats(&self, text: &str) -> (r: Vec<StatEntry>)
        ensures
            r.deep_view() == spec_parse_stats(text@),
    {
        let lines = split_lines(text);
        let mut stats: Vec<StatEntry> = Vec::new();
        proof {
            assert(stats.deep_view() =~= spec_stats_fold(lines.deep_view().subrange(0, 0)));
        }
        let mut i: usize = 0;
        while i < lines.len()
            invariant
                i <= lines.len(),
                lines.deep_view() == spec_lines(text@),
                stats.deep_view() == spec_stats_fold(lines.deep_view().subrange(0, i as int)),
            decreases lines.len() - i,
        {
            let ghost pre = lines.deep_view().subrange(0, i as int);
            let ghost cur = lines.deep_view().subrange(0, i + 1);
            proof {
                assert(cur.drop_last() =~= pre);
                assert(cur.last() == lines.deep_view()[i as int]);
            }
            let line = lines[i].as_str();
            let ghost stats_before = stats.deep_view();
            let parts = split_on(line, '\t');
            if parts.len() >= 3 {
                let added = parse_usize_or_zero(parts[0].as_str());
                let deleted = parse_usize_or_zero(parts[1].as_str());
                let entry = StatEntry { path: parts[2].clone(), added, deleted };
                proof {
                    assert(entry@ =~= spec_stat_of_line(line@)->Some_0);
                }
                stats.push(entry);
            }
            proof {
                assert(stats.deep_view() =~= stats_before + opt_to_seq(
                    spec_stat_of_line(line@),
                ));
            }
            i += 1;
        }
        proof {
            assert(lines.deep_view().subrange(0, lines.len() as int) =~= lines.deep_view());
        }
        stats
    }

    /// Assemble one snapshot from the raw output of the four queries:
    /// a missing branch or commit result degrades to its default, a
    /// missing numeric-diff result leaves all counts zero, and the two
    /// entry lists are joined with their numeric-diff counts by exact
    /// path equality.
    pub fn build_status(
        &self,
        branch_raw: Option<&str>,
        commit_raw: Option<&str>,
        status_raw: &str,
        staged_stats_raw: Option<&str>,
        unstaged_stats_raw: Option<&str>,
    ) -> (r: GitStatus)
        ensures
            r@ == spec_build_status(
                opt_str_view(branch_raw),
                opt_str_view(commit_raw),
                status_raw@,
                opt_str_view(staged_stats_raw),
                opt_str_view(unstaged_stats_raw),
            ),
    {
        let branch = match branch_raw {
            Some(t) => self.parse_branch_info(t),
            None => BranchInfo::default(),
        };
        let last_commit = match commit_raw {
            Some(t) => self.parse_last_commit(t),
            None => None,
        };
        let (staged_plain, unstaged_plain) = self.parse_file_statuses(status_raw);
        let staged_stats = match staged_stats_raw {
            Some(t) => self.parse_diff_stats(t),
            None => Vec::new(),
        };
        let unstaged_stats = match unstaged_stats_raw {
            Some(t) => self.parse_diff_stats(t),
            None => Vec::new(),
        };
        let staged_files = merge_diff_stats(&staged_plain, &staged_stats);
        let unstaged_files = merge_diff_stats(&unstaged_plain, &unstaged_stats);
        let r = GitStatus { branch, last_commit, staged_files, unstaged_files };
        proof {
            let spec_r = spec_build_status(
                opt_str_view(branch_raw),
                opt_str_view(commit_raw),
                status_raw@,
                opt_str_view(staged_stats_raw),
                opt_str_view(unstaged_stats_raw),
            );
            assert forall|k: int|
                0 <= k < r@.staged_files.len() implies r@.staged_files[k]
                == spec_r.staged_files[k] by {
                assert(r@.staged_files[k] == spec_merge_entry(
                    staged_plain.deep_view()[k],
                    staged_stats.deep_view(),
                ));
            }
            assert(r@.staged_files =~= spec_r.staged_files);
            assert forall|k: int|
                0 <= k < r@.unstaged_files.len() implies r@.unstaged_files[k]
                == spec_r.unstaged_files[k] by {
                assert(r@.unstaged_files[k] == spec_merge_entry(
                    unstaged_plain.deep_view()[k],
                    unstaged_stats.deep_view(),
                ));
            }
            assert(r@.unstaged_files =~= spec_r.unstaged_files);
            assert(r@ =~= spec_r);
        }
        r
    }
}

/// One update of the branch summary by one header line: the branch
/// name, the upstream name, or the ahead/behind counts, each parsed
/// leniently; any other line changes nothing.
pub open spec fn spec_branch_step(b: BranchInfoView, line: Seq<char>) -> BranchInfoView {
    if spec_starts_with(line, "# branch.head "@) {
        BranchInfoView { name: spec_trim_prefix(line, "# branch.head "@), ..b }
    } else if spec_starts_with(line, "# branch.upstream "@) {
        BranchInfoView { upstream: Some(spec_trim_prefix(line, "# branch.upstream "@)), ..b }
    } else if spec_starts_with(line, "# branch.ab "@) {
        let ab = spec_trim_prefix(line, "# branch.ab "@);
        let fields = spec_fields(ab);
        if fields.len() >= 2 {
            BranchInfoView {
                ahead: spec_parse_usize_or_zero(spec_trim_char(fields[0], '+')),
                behind: spec_parse_usize_or_zero(spec_trim_char(fields[1], '-')),
                ..b
            }
        } else {
            b
        }
    } else {
        b
    }
}

/// The branch summary a sequence of header lines yields, later lines
/// overriding earlier ones.
pub open spec fn spec_branch_fold(lines: Seq<Seq<char>>) -> BranchInfoView
    decreases lines.len(),
{
    if lines.len() == 0 {
        BranchInfoView::empty()
    } else {
        spec_branch_step(spec_branch_fold(lines.drop_last()), lines.last())
    }
}

/// The branch summary the raw branch-query output yields.
pub open spec fn spec_parse_branch(text: Seq<char>) -> BranchInfoView {
    spec_branch_fold(spec_lines(text))
}

/// The commit summary the raw commit-query output yields: the text
/// before the first pipe, between the first and second pipes, and all
/// the rest; `None` when fewer than two pipes are there.
pub open spec fn spec_parse_commit(text: Seq<char>) -> Option<CommitInfoView> {
    let i = first_index_of(text, '|');
    if i == text.len() {
        None
    } else {
        let rest = text.subrange(i + 1, text.len() as int);
        let j = first_index_of(rest, '|');
        if j == rest.len() {
            None
        } else {
            Some(
                CommitInfoView {
                    hash: text.subrange(0, i),
                    author: rest.subrange(0, j),
                    subject: rest.subrange(j + 1, rest.len() as int),
                },
            )
        }
    }
}

/// Mathematical value of a [`StatEntry`].
#[verifier::ext_equal]
pub ghost struct StatView {
    pub path: Seq<char>,
    pub added: nat,
    pub deleted: nat,
}

/// One record of the numeric-diff output: a path with its added and
/// deleted line counts.
#[derive(Debug, Clone)]
pub struct StatEntry {
    /// Path the counts belong to.
    pub path: String,
    /// Number of lines added.
    pub added: usize,
    /// Number of lines deleted.
    pub deleted: usize,
}

impl View for StatEntry {
    type V = StatView;

    open spec fn view(&self) -> StatView {
        StatView { path: self.path@, added: self.added as nat, deleted: self.deleted as nat }
    }
}

impl DeepView for StatEntry {
    type V = StatView;

    open spec fn deep_view(&self) -> StatView {
        self.view()
    }
}

/// What one numeric-diff line yields: counts and path from the first
/// three tab-separated fields, a non-numeric count reading as zero;
/// nothing when fields are missing.
pub open spec fn spec_stat_of_line(line: Seq<char>) -> Option<StatView> {
    let parts = spec_split(line, '\t');
    if parts.len() >= 3 {
        Some(
            StatView {
                path: parts[2],
                added: spec_parse_usize_or_zero(parts[0]),
                deleted: spec_parse_usize_or_zero(parts[1]),
            },
        )
    } else {
        None
    }
}

/// The numeric-diff records a sequence of lines yields, in order.
pub open spec fn spec_stats_fold(lines: Seq<Seq<char>>) -> Seq<StatView>
    decreases lines.len(),
{
    if lines.len() == 0 {
        Seq::empty()
    } else {
        spec_stats_fold(lines.drop_last()) + opt_to_seq(spec_stat_of_line(lines.last()))
    }
}

/// The numeric-diff records the raw numeric-diff output yields.
pub open spec fn spec_parse_stats(text: Seq<char>) -> Seq<StatView> {
    spec_stats_fold(spec_lines(text))
}

/// The counts recorded for `path`, the last record winning when a path
/// repeats; `None` when no record names the path.
pub open spec fn stats_lookup(stats: Seq<StatView>, path: Seq<char>) -> Option<(nat, nat)>
    decreases stats.len(),
{
    if stats.len() == 0 {
        None
    } else if stats.last().path == path {
        Some((stats.last().added, stats.last().deleted))
    } else {
        stats_lookup(stats.drop_last(), path)
    }
}

/// An entry with the counts its path is recorded with; an entry whose
/// path no record names, unchanged.
pub open spec fn spec_merge_entry(e: FileStatusView, stats: Seq<StatView>) -> FileStatusView {
    match stats_lookup(stats, e.path) {
        Some(counts) => FileStatusView { lines_added: counts.0, lines_deleted: counts.1, ..e },
        None => e,
    }
}

/// The views of an optional string slice.
pub open spec fn opt_str_view(o: Option<&str>) -> Option<Seq<char>> {
    match o {
        Some(s) => Some(s@),
        None => None,
    }
}

/// The snapshot the five raw query outputs yield, as
/// [`GitService::build_status`] assembles it.
pub open spec fn spec_build_status(
    branch_raw: Option<Seq<char>>,
    commit_raw: Option<Seq<char>>,
    status_raw: Seq<char>,
    staged_stats_raw: Option<Seq<char>>,
    unstaged_stats_raw: Option<Seq<char>>,
) -> GitStatusView {
    let pair = spec_parse_statuses(status_raw);
    let staged_stats = match staged_stats_raw {
        Some(t) => spec_parse_stats(t),
        None => Seq::empty(),
    };
    let unstaged_stats = match unstaged_stats_raw {
        Some(t) => spec_parse_stats(t),
        None => Seq::empty(),
    };
    GitStatusView {
        branch: match branch_raw {
            Some(t) => spec_parse_branch(t),
            None => BranchInfoView::empty(),
        },
        last_commit: match commit_raw {
            Some(t) => spec_parse_commit(t),
            None => None,
        },
        staged_files: pair.0.map_values(|e: FileStatusView| spec_merge_entry(e, staged_stats)),
        unstaged_files: pair.1.map_values(
            |e: FileStatusView| spec_merge_entry(e, unstaged_stats),
        ),
    }
}

/// The counts recorded for `path`, as [`stats_lookup`] describes them.
pub fn stats_get(stats: &Vec<StatEntry>, path: &str) -> (r: Option<(usize, usize)>)
    ensures
        match r {
            Some(counts) => stats_lookup(stats.deep_view(), path@) == Some(
                (counts.0 as nat, counts.1 as nat),
            ),
            None => stats_lookup(stats.deep_view(), path@) is None,
        },
{
    let mut found: Option<(usize, usize)> = None;
    proof {
        assert(stats.deep_view().subrange(0, 0) =~= Seq::<StatView>::empty());
    }
    let mut i: usize = 0;
    while i < stats.len()
        invariant
            i <= stats.len(),
            match found {
                Some(counts) => stats_lookup(stats.deep_view().subrange(0, i as int), path@)
                    == Some((counts.0 as nat, counts.1 as nat)),
                None => stats_lookup(stats.deep_view().subrange(0, i as int), path@) is None,
            },
        decreases stats.len() - i,
    {
        let ghost pre = stats.deep_view().subrange(0, i as int);
        let ghost cur = stats.deep_view().subrange(0, i + 1);
        proof {
            assert(cur.drop_last() =~= pre);
            assert(cur.last() == stats.deep_view()[i as int]);
        }
        if str_eq(stats[i].path.as_str(), path) {
            found = Some((stats[i].added, stats[i].deleted));
        }
        i += 1;
    }
    proof {
        assert(stats.deep_view().subrange(0, stats.len() as int) =~= stats.deep_view());
    }
    found
}

/// A copy of `files` in which every entry whose path the numeric-diff
/// records name carries those counts, and every other entry stands
/// unchanged.
pub fn merge_diff_stats(files: &Vec<FileStatus>, stats: &Vec<StatEntry>) -> (r: Vec<FileStatus>)
    ensures
        r.deep_view().len() == files.deep_view().len(),
        forall|k: int|
            0 <= k < files.deep_view().len() ==> r.deep_view()[k] == spec_merge_entry(
                files.deep_view()[k],
                stats.deep_view(),
            ),
{
    let mut out: Vec<FileStatus> = Vec::new();
    let mut i: usize = 0;
    while i < files.len()
        invariant
            i <= files.len(),
            out.deep_view().len() == i,
            forall|k: int|
                0 <= k < i ==> out.deep_view()[k] == spec_merge_entry(
                    files.deep_view()[k],
                    stats.deep_view(),
                ),
        decreases files.len() - i,
    {
        let e = &files[i];
        proof {
            assert(e@ == files.deep_view()[i as int]);
        }
        let (lines_added, lines_deleted) = match stats_get(stats, e.path.as_str()) {
            Some(counts) => counts,
            None => (e.lines_added, e.lines_deleted),
        };
        let merged = FileStatus {
            path: e.path.clone(),
            status: e.status,
            staged: e.staged,
            lines_added,
            lines_deleted,
            old_path: match &e.old_path {
                Some(q) => Some(q.clone()),
                None => None,
            },
        };
        proof {
            let ghost target = spec_merge_entry(files.deep_view()[i as int], stats.deep_view());
            assert(merged@.path =~= target.path);
            assert(merged@.status == target.status);
            assert(merged@.staged == target.staged);
            assert(merged@.lines_added == target.lines_added);
            assert(merged@.lines_deleted == target.lines_deleted);
            assert(merged@.old_path == target.old_path);
            assert(merged@ =~= target);
        }
        let ghost out_before = out.deep_view();
        out.push(merged);
        proof {
            assert(out.deep_view() =~= out_before.push(merged@));
            assert forall|k: int|
                0 <= k < i + 1 implies out.deep_view()[k] == spec_merge_entry(
                files.deep_view()[k],
                stats.deep_view(),
            ) by {
                if k == i {
                    assert(out.deep_view()[k] == merged@);
                } else {
                    assert(out.deep_view()[k] == out_before[k]);
                }
            }
        }
        i += 1;
    }
    out
}


/// Number of entries one well-formed file-status line is owed: one per
/// non-`'.'` status-code character of an ordinary or rename/copy
/// record, one per untracked record, none otherwise.
pub open spec fn line_entry_count(line: Seq<char>) -> nat {
    if spec_starts_with(line, "1 "@) || spec_starts_with(line, "2 "@) {
        let xy = spec_split(line, ' ')[1];
        let from_index: nat = if spec_index_code(xy) != '.' {
            1
        } else {
            0
        };
        let from_worktree: nat = if spec_worktree_code(xy) != '.' {
            1
        } else {
            0
        };
        from_index + from_worktree
    } else if spec_starts_with(line, "? "@) {
        1
    } else {
        0
    }
}

/// A well-formed file-status line: an ordinary or rename/copy record
/// has its nine fixed fields, a two-character status field, and only
/// known (or `'.'`) code characters; an unmerged record is not among
/// the lines; anything else is unconstrained.
pub open spec fn wf_status_line(line: Seq<char>) -> bool {
    if spec_starts_with(line, "1 "@) || spec_starts_with(line, "2 "@) {
        let parts = spec_split(line, ' ');
        &&& parts.len() >= 9
        &&& parts[1].len() >= 2
        &&& (parts[1][0] == '.' || FileStatusType::spec_from_code(parts[1][0]) is Some)
        &&& (parts[1][1] == '.' || FileStatusType::spec_from_code(parts[1][1]) is Some)
    } else {
        !spec_starts_with(line, "u "@)
    }
}

/// Total number of entries a sequence of well-formed lines is owed.
pub open spec fn lines_entry_count(lines: Seq<Seq<char>>) -> nat
    decreases lines.len(),
{
    if lines.len() == 0 {
        0
    } else {
        lines_entry_count(lines.drop_last()) + line_entry_count(lines.last())
    }
}

proof fn lemma_status_pair_count(lines: Seq<Seq<char>>)
    requires
        forall|i: int| 0 <= i < lines.len() ==> wf_status_line(#[trigger] lines[i]),
    ensures
        spec_status_pair(lines).0.len() + spec_status_pair(lines).1.len() == lines_entry_count(
            lines,
        ),
    decreases lines.len(),
{
    if lines.len() > 0 {
        assert forall|i: int| 0 <= i < lines.drop_last().len() implies wf_status_line(
            #[trigger] lines.drop_last()[i],
        ) by {
            assert(lines.drop_last()[i] == lines[i]);
        }
        lemma_status_pair_count(lines.drop_last());
        let l = lines.last();
        assert(wf_status_line(l));
        if spec_starts_with(l, "1 "@) || spec_starts_with(l, "2 "@) {
            let parts = spec_split(l, ' ');
            let xy = parts[1];
            if spec_index_code(xy) != '.' {
                assert(FileStatusType::spec_from_code(spec_index_code(xy)) is Some);
            }
            if spec_worktree_code(xy) != '.' {
                assert(FileStatusType::spec_from_code(spec_worktree_code(xy)) is Some);
            }
            assert(staged_of_line(l).len() + unstaged_of_line(l).len() == line_entry_count(l));
        }
    }
}

/// For well-formed file-status input, the parser emits exactly one
/// entry per non-`'.'` status-code character of the ordinary and
/// rename/copy lines, plus one per untracked line.
pub proof fn lemma_entry_count(text: Seq<char>)
    requires
        forall|i: int|
            0 <= i < spec_lines(text).len() ==> wf_status_line(#[trigger] spec_lines(text)[i]),
    ensures
        spec_parse_statuses(text).0.len() + spec_parse_statuses(text).1.len()
            == lines_entry_count(spec_lines(text)),
{
    lemma_status_pair_count(spec_lines(text));
}

/// Parsing is deterministic: assembling a snapshot twice from equal
/// raw inputs yields structurally equal snapshots, so re-parsing
/// identical input reproduces the snapshot exactly.
pub proof fn lemma_parse_deterministic(
    branch_a: Option<Seq<char>>,
    commit_a: Option<Seq<char>>,
    status_a: Seq<char>,
    staged_stats_a: Option<Seq<char>>,
    unstaged_stats_a: Option<Seq<char>>,
    branch_b: Option<Seq<char>>,
    commit_b: Option<Seq<char>>,
    status_b: Seq<char>,
    staged_stats_b: Option<Seq<char>>,
    unstaged_stats_b: Option<Seq<char>>,
)
    requires
        branch_a == branch_b,
        commit_a == commit_b,
        status_a == status_b,
        staged_stats_a == staged_stats_b,
        unstaged_stats_a == unstaged_stats_b,
    ensures
        spec_build_status(branch_a, commit_a, status_a, staged_stats_a, unstaged_stats_a)
            == spec_build_status(branch_b, commit_b, status_b, staged_stats_b, unstaged_stats_b),
{
}

proof fn lemma_status_pair_zero(lines: Seq<Seq<char>>)
    ensures
        forall|k: int|
            0 <= k < spec_status_pair(lines).0.len() ==> (#[trigger] spec_status_pair(
                lines,
            ).0[k]).lines_added == 0 && spec_status_pair(lines).0[k].lines_deleted == 0,
        forall|k: int|
            0 <= k < spec_status_pair(lines).1.len() ==> (#[trigger] spec_status_pair(
                lines,
            ).1[k]).lines_added == 0 && spec_status_pair(lines).1[k].lines_deleted == 0,
    decreases lines.len(),
{
    if lines.len() > 0 {
        lemma_status_pair_zero(lines.drop_last());
    }
}

/// Joining the numeric-diff counts never invents counts: an entry
/// whose path no numeric-diff record names keeps zero added and zero
/// deleted lines in the assembled snapshot, in whichever of the two
/// lists it stands.
pub proof fn lemma_join_absent_keeps_zero(
    branch_raw: Option<Seq<char>>,
    commit_raw: Option<Seq<char>>,
    status_raw: Seq<char>,
    staged_stats_raw: Option<Seq<char>>,
    unstaged_stats_raw: Option<Seq<char>>,
    k: int,
)
    ensures
        ({
            let built = spec_build_status(
                branch_raw,
                commit_raw,
                status_raw,
                staged_stats_raw,
                unstaged_stats_raw,
            );
            let stats = match staged_stats_raw {
                Some(t) => spec_parse_stats(t),
                None => Seq::empty(),
            };
            0 <= k < built.staged_files.len() && stats_lookup(
                stats,
                built.staged_files[k].path,
            ) is None ==> built.staged_files[k].lines_added == 0
                && built.staged_files[k].lines_deleted == 0
        }),
        ({
            let built = spec_build_status(
                branch_raw,
                commit_raw,
                status_raw,
                staged_stats_raw,
                unstaged_stats_raw,
            );
            let stats = match unstaged_stats_raw {
                Some(t) => spec_parse_stats(t),
                None => Seq::empty(),
            };
            0 <= k < built.unstaged_files.len() && stats_lookup(
                stats,
                built.unstaged_files[k].path,
            ) is None ==> built.unstaged_files[k].lines_added == 0
                && built.unstaged_files[k].lines_deleted == 0
        }),
{
    let pair = spec_parse_statuses(status_raw);
    lemma_status_pair_zero(spec_lines(status_raw));
    let staged_stats = match staged_stats_raw {
        Some(t) => spec_parse_stats(t),
        None => Seq::<StatView>::empty(),
    };
    let unstaged_stats = match unstaged_stats_raw {
        Some(t) => spec_parse_stats(t),
        None => Seq::<StatView>::empty(),
    };
    if 0 <= k < pair.0.len() {
        assert(spec_merge_entry(pair.0[k], staged_stats).path == pair.0[k].path);
    }
    if 0 <= k < pair.1.len() {
        assert(spec_merge_entry(pair.1[k], unstaged_stats).path == pair.1[k].path);
    }
}

} // verus!
