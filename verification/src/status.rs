//! Typed model of one synchronization snapshot: branch summary, last
//! commit, and the staged / unstaged file lists.

use vstd::prelude::*;

verus! {

/// Kind of change a file underwent.
#[derive(Debug, Clone, Copy, PartialEq, Eq, Structural)]
pub enum FileStatusType {
    Modified,
    Added,
    Deleted,
    Renamed,
    Copied,
    Untracked,
    Unmerged,
}

impl FileStatusType {
    /// The single status-code character that stands for this kind.
    pub open spec fn spec_code(self) -> char {
        match self {
            FileStatusType::Modified => 'M',
            FileStatusType::Added => 'A',
            FileStatusType::Deleted => 'D',
            FileStatusType::Renamed => 'R',
            FileStatusType::Copied => 'C',
            FileStatusType::Untracked => '?',
            FileStatusType::Unmerged => 'U',
        }
    }

    /// The status kind a code character stands for, if any.
    pub open spec fn spec_from_code(code: char) -> Option<FileStatusType> {
        if code == 'M' {
            Some(FileStatusType::Modified)
        } else if code == 'A' {
            Some(FileStatusType::Added)
        } else if code == 'D' {
            Some(FileStatusType::Deleted)
        } else if code == 'R' {
            Some(FileStatusType::Renamed)
        } else if code == 'C' {
            Some(FileStatusType::Copied)
        } else if code == '?' {
            Some(FileStatusType::Untracked)
        } else if code == 'U' {
            Some(FileStatusType::Unmerged)
        } else {
            None
        }
    }

    /// Get the short code for this status type.
    pub fn code(&self) -> (r: &'static str)
        ensures
            r@ =~= seq![self.spec_code()],
    {
        match self {
            FileStatusType::Modified => {
                proof {
                    reveal_strlit("M");
                }
                "M"
            },
            FileStatusType::Added => {
                proof {
                    reveal_strlit("A");
                }
                "A"
            },
            FileStatusType::Deleted => {
                proof {
                    reveal_strlit("D");
                }
                "D"
            },
            FileStatusType::Renamed => {
                proof {
                    reveal_strlit("R");
                }
                "R"
            },
            FileStatusType::Copied => {
                proof {
                    reveal_strlit("C");
                }
                "C"
            },
            FileStatusType::Untracked => {
                proof {
                    reveal_strlit("?");
                }
                "?"
            },
            FileStatusType::Unmerged => {
                proof {
                    reveal_strlit("U");
                }
                "U"
            },
        }
    }

    /// Parse a status code character from the machine-readable output.
    pub fn from_code(code: char) -> (r: Option<FileStatusType>)
        ensures
            r == FileStatusType::spec_from_code(code),
    {
        if code == 'M' {
            Some(FileStatusType::Modified)
        } else if code == 'A' {
            Some(FileStatusType::Added)
        } else if code == 'D' {
            Some(FileStatusType::Deleted)
        } else if code == 'R' {
            Some(FileStatusType::Renamed)
        } else if code == 'C' {
            Some(FileStatusType::Copied)
        } else if code == '?' {
            Some(FileStatusType::Untracked)
        } else if code == 'U' {
            Some(FileStatusType::Unmerged)
        } else {
            None
        }
    }
}

/// Mathematical value of a [`FileStatus`].
#[verifier::ext_equal]
pub ghost struct FileStatusView {
    pub path: Seq<char>,
    pub status: FileStatusType,
    pub staged: bool,
    pub lines_added: nat,
    pub lines_deleted: nat,
    pub old_path: Option<Seq<char>>,
}

/// Status of a single file in the repository.
#[derive(Debug, Clone)]
pub struct FileStatus {
    /// Path to the file (relative to the repository root).
    pub path: String,
    /// Kind of change.
    pub status: FileStatusType,
    /// Whether this entry describes a staged change.
    pub staged: bool,
    /// Number of lines added.
    pub lines_added: usize,
    /// Number of lines deleted.
    pub lines_deleted: usize,
    /// Original path (for renames).
    pub old_path: Option<String>,
}

impl View for FileStatus {
    type V = FileStatusView;

    open spec fn view(&self) -> FileStatusView {
        FileStatusView {
            path: self.path@,
            status: self.status,
            staged: self.staged,
            lines_added: self.lines_added as nat,
            lines_deleted: self.lines_deleted as nat,
            old_path: match self.old_path {
                Some(p) => Some(p@),
                None => None,
            },
        }
    }
}

impl DeepView for FileStatus {
    type V = FileStatusView;

    open spec fn deep_view(&self) -> FileStatusView {
        self.view()
    }
}

impl FileStatus {
    /// Create a new file status with zero line-change counts and no
    /// rename source.
    pub fn new(path: String, status: FileStatusType, staged: bool) -> (r: FileStatus)
        ensures
            r@ == (FileStatusView {
                path: path@,
                status,
                staged,
                lines_added: 0,
                lines_deleted: 0,
                old_path: None,
            }),
    {
        FileStatus { path, status, staged, lines_added: 0, lines_deleted: 0, old_path: None }
    }
}

/// Mathematical value of a [`BranchInfo`].
#[verifier::ext_equal]
pub ghost struct BranchInfoView {
    pub name: Seq<char>,
    pub upstream: Option<Seq<char>>,
    pub ahead: nat,
    pub behind: nat,
}

impl BranchInfoView {
    /// The value an empty or failed branch query degrades to.
    pub open spec fn empty() -> BranchInfoView {
        BranchInfoView { name: Seq::empty(), upstream: None, ahead: 0, behind: 0 }
    }
}

/// Information about the current branch.
#[derive(Debug, Clone)]
pub struct BranchInfo {
    /// Name of the current branch.
    pub name: String,
    /// Name of the upstream branch (if any).
    pub upstream: Option<String>,
    /// Number of commits ahead of upstream.
    pub ahead: usize,
    /// Number of commits behind upstream.
    pub behind: usize,
}

impl View for BranchInfo {
    type V = BranchInfoView;

    open spec fn view(&self) -> BranchInfoView {
        BranchInfoView {
            name: self.name@,
            upstream: match self.upstream {
                Some(u) => Some(u@),
                None => None,
            },
            ahead: self.ahead as nat,
            behind: self.behind as nat,
        }
    }
}

impl Default for BranchInfo {
    /// An empty branch summary: no name, no upstream, no counts.
    fn default() -> (r: BranchInfo)
        ensures
            r@ == BranchInfoView::empty(),
    {
        let r = BranchInfo { name: String::new(), upstream: None, ahead: 0, behind: 0 };
        proof {
            assert(r@ =~= BranchInfoView::empty());
        }
        r
    }
}

/// Mathematical value of a [`CommitInfo`].
#[verifier::ext_equal]
pub ghost struct CommitInfoView {
    pub hash: Seq<char>,
    pub author: Seq<char>,
    pub subject: Seq<char>,
}

/// Information about the last commit.
#[derive(Debug, Clone)]
pub struct CommitInfo {
    /// Short hash of the commit.
    pub hash: String,
    /// Author name.
    pub author: String,
    /// Commit subject (first line of the message).
    pub subject: String,
}

impl View for CommitInfo {
    type V = CommitInfoView;

    open spec fn view(&self) -> CommitInfoView {
        CommitInfoView { hash: self.hash@, author: self.author@, subject: self.subject@ }
    }
}

/// Mathematical value of a [`GitStatus`].
#[verifier::ext_equal]
pub ghost struct GitStatusView {
    pub branch: BranchInfoView,
    pub last_commit: Option<CommitInfoView>,
    pub staged_files: Seq<FileStatusView>,
    pub unstaged_files: Seq<FileStatusView>,
}

/// Complete status snapshot for a repository.
#[derive(Debug, Clone)]
pub struct GitStatus {
    /// Branch information.
    pub branch: BranchInfo,
    /// Last commit information.
    pub last_commit: Option<CommitInfo>,
    /// List of staged files, in parser emission order.
    pub staged_files: Vec<FileStatus>,
    /// List of unstaged files, in parser emission order.
    pub unstaged_files: Vec<FileStatus>,
}

impl View for GitStatus {
    type V = GitStatusView;

    open spec fn view(&self) -> GitStatusView {
        GitStatusView {
            branch: self.branch@,
            last_commit: match self.last_commit {
                Some(c) => Some(c@),
                None => None,
            },
            staged_files: self.staged_files.deep_view(),
            unstaged_files: self.unstaged_files.deep_view(),
        }
    }
}

impl Default for GitStatus {
    /// A snapshot with no branch info, no commit and no files.
    fn default() -> (r: GitStatus)
        ensures
            r@.branch == BranchInfoView::empty(),
            r@.last_commit is None,
            r@.staged_files =~= Seq::<FileStatusView>::empty(),
            r@.unstaged_files =~= Seq::<FileStatusView>::empty(),
    {
        GitStatus {
            branch: BranchInfo::default(),
            last_commit: None,
            staged_files: Vec::new(),
            unstaged_files: Vec::new(),
        }
    }
}

impl GitStatus {
    /// Total number of changed files across both sections.
    pub fn total_files(&self) -> (r: usize)
        requires
            self@.staged_files.len() + self@.unstaged_files.len() <= usize::MAX,
        ensures
            r == self@.staged_files.len() + self@.unstaged_files.len(),
    {
        self.staged_files.len() + self.unstaged_files.len()
    }

    /// Whether the snapshot records any change at all.
    pub fn has_changes(&self) -> (r: bool)
        ensures
            r == (self@.staged_files.len() > 0 || self@.unstaged_files.len() > 0),
    {
        self.staged_files.len() > 0 || self.unstaged_files.len() > 0
    }
}

} // verus!
