//! Pure display helpers: text sanitizing and truncation, diff-line
//! classification, and the row arithmetic of the combined file list.

use crate::state::Section;
use vstd::prelude::*;

verus! {

/// Whether a character is safe for terminal rendering: ASCII, or one
/// of the Latin supplement and extension ranges; emojis, wide
/// characters and combining marks are not.
pub open spec fn keep_char(c: char) -> bool {
    (c as u32) < 0x80 || (0xA0 <= (c as u32) && (c as u32) <= 0x24F)
}

/// `s` with every character removed that [`keep_char`] refuses.
pub open spec fn spec_sanitize(s: Seq<char>) -> Seq<char>
    decreases s.len(),
{
    if s.len() == 0 {
        Seq::empty()
    } else {
        spec_sanitize(s.drop_last()) + (if keep_char(s.last()) {
            seq![s.last()]
        } else {
            Seq::<char>::empty()
        })
    }
}

/// Sanitize text for terminal rendering by dropping emojis and other
/// wide or combining characters, keeping ASCII and accented Latin
/// characters.
pub fn sanitize_text(text: &str) -> (r: String)
    ensures
        r@ == spec_sanitize(text@),
{
    let n = text.unicode_len();
    let mut out = String::new();
    proof {
        assert(out@ =~= spec_sanitize(text@.subrange(0, 0)));
    }
    let mut i: usize = 0;
    while i < n
        invariant
            i <= n,
            n == text@.len(),
            out@ == spec_sanitize(text@.subrange(0, i as int)),
        decreases n - i,
    {
        let ghost pre = text@.subrange(0, i as int);
        let ghost cur = text@.subrange(0, i + 1);
        proof {
            assert(cur.drop_last() =~= pre);
            assert(cur.last() == text@[i as int]);
        }
        let c = text.get_char(i);
        let code = c as u32;
        if code < 0x80 || (0xA0 <= code && code <= 0x24F) {
            out.push(c);
            proof {
                assert(out@ =~= spec_sanitize(pre) + seq![text@[i as int]]);
            }
        } else {
            proof {
                assert(out@ =~= spec_sanitize(pre) + Seq::<char>::empty());
            }
        }
        i += 1;
    }
    proof {
        assert(text@.subrange(0, n as int) =~= text@);
    }
    out
}

/// Truncate `s` to at most `max_len` characters: a longer string keeps
/// its first `max_len - 3` characters and ends in three dots.
pub fn truncate_string(s: &str, max_len: usize) -> (r: String)
    requires
        max_len >= 3,
    ensures
        s@.len() <= max_len ==> r@ == s@,
        s@.len() > max_len ==> r@ == s@.subrange(0, max_len - 3) + "..."@,
{
    let n = s.unicode_len();
    if n <= max_len {
        let r = String::from_str(s.substring_char(0, n));
        proof {
            assert(r@ =~= s@);
        }
        r
    } else {
        let mut r = String::from_str(s.substring_char(0, max_len - 3));
        r.append("...");
        r
    }
}

/// The kinds of line a unified diff is displayed with.
#[derive(Debug, Clone, Copy, PartialEq, Eq, Structural)]
pub enum DiffLineKind {
    /// An old-file or new-file header.
    FileHeader,
    /// A hunk header.
    HunkHeader,
    /// An added line.
    Added,
    /// A removed line.
    Removed,
    /// Other diff metadata.
    Meta,
    /// An ordinary context line.
    Context,
}

/// The display kind of one diff line, decided by its prefix: file
/// headers before hunk headers, added before removed, metadata before
/// context.
pub open spec fn spec_classify_diff_line(line: Seq<char>) -> DiffLineKind {
    if crate::text::spec_starts_with(line, "+++"@) || crate::text::spec_starts_with(
        line,
        "---"@,
    ) {
        DiffLineKind::FileHeader
    } else if crate::text::spec_starts_with(line, "@@"@) {
        DiffLineKind::HunkHeader
    } else if crate::text::spec_starts_with(line, "+"@) {
        DiffLineKind::Added
    } else if crate::text::spec_starts_with(line, "-"@) {
        DiffLineKind::Removed
    } else if crate::text::spec_starts_with(line, "diff "@) || crate::text::spec_starts_with(
        line,
        "index "@,
    ) {
        DiffLineKind::Meta
    } else {
        DiffLineKind::Context
    }
}

/// Classify one diff line for display, as [`spec_classify_diff_line`]
/// says.
pub fn classify_diff_line(line: &str) -> (r: DiffLineKind)
    ensures
        r == spec_classify_diff_line(line@),
{
    if crate::text::starts_with(line, "+++") || crate::text::starts_with(line, "---") {
        DiffLineKind::FileHeader
    } else if crate::text::starts_with(line, "@@") {
        DiffLineKind::HunkHeader
    } else if crate::text::starts_with(line, "+") {
        DiffLineKind::Added
    } else if crate::text::starts_with(line, "-") {
        DiffLineKind::Removed
    } else if crate::text::starts_with(line, "diff ") || crate::text::starts_with(
        line,
        "index ",
    ) {
        DiffLineKind::Meta
    } else {
        DiffLineKind::Context
    }
}

/// The list row the selected file occupies in the combined file list,
/// where a non-empty staged block contributes a header row, its files
/// and a blank separator, and a non-empty unstaged block contributes a
/// header row and its files; `None` when the selection is out of
/// bounds or its block is empty.
pub open spec fn spec_selection_row(
    staged_len: nat,
    unstaged_len: nat,
    section: Section,
    idx: nat,
) -> Option<nat> {
    match section {
        Section::Staged => if staged_len > 0 && idx < staged_len {
            Some((1 + idx) as nat)
        } else {
            None
        },
        Section::Unstaged => if unstaged_len > 0 && idx < unstaged_len {
            Some(
                ((if staged_len > 0 {
                    staged_len + 2
                } else {
                    0
                }) + 1 + idx) as nat,
            )
        } else {
            None
        },
    }
}

/// The list row the selected file occupies, as [`spec_selection_row`]
/// says.
pub fn list_selection_row(
    staged_len: usize,
    unstaged_len: usize,
    section: Section,
    idx: usize,
) -> (r: Option<usize>)
    requires
        staged_len + unstaged_len + 3 <= usize::MAX,
    ensures
        match r {
            Some(row) => spec_selection_row(
                staged_len as nat,
                unstaged_len as nat,
                section,
                idx as nat,
            ) == Some(row as nat),
            None => spec_selection_row(
                staged_len as nat,
                unstaged_len as nat,
                section,
                idx as nat,
            ) is None,
        },
{
    match section {
        Section::Staged => {
            if staged_len > 0 && idx < staged_len {
                Some(1 + idx)
            } else {
                None
            }
        },
        Section::Unstaged => {
            if unstaged_len > 0 && idx < unstaged_len {
                let offset = if staged_len > 0 {
                    staged_len + 2
                } else {
                    0
                };
                Some(offset + 1 + idx)
            } else {
                None
            }
        },
    }
}

} // verus!
