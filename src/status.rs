//! Parser for the two-column porcelain status listing.
use vstd::prelude::*;

use crate::model::{FileStatus, StatusFile, StatusFileView};
use crate::text::{chars_of, lines, lines_of, slice, string_of, views};

verus! {

/// The change kind that a status code stands for; unknown codes read as modified.
pub open spec fn status_of_code(c: char) -> FileStatus {
    if c == 'A' {
        FileStatus::Added
    } else if c == 'D' {
        FileStatus::Deleted
    } else if c == 'R' {
        FileStatus::Renamed
    } else {
        FileStatus::Modified
    }
}

/// The entries of one status line: none for a line under three characters; one
/// untracked, unstaged entry for `??`; otherwise a staged entry when the first
/// column is neither a space nor `?`, then an unstaged entry when the second
/// column is not a space. The path is everything from the fourth character on.
pub open spec fn line_entries(line: Seq<char>) -> Seq<StatusFileView> {
    if line.len() < 3 {
        seq![]
    } else {
        let x = line[0];
        let y = line[1];
        let path = line.skip(3);
        if x == '?' && y == '?' {
            seq![StatusFileView { path, status: FileStatus::Untracked, staged: false }]
        } else {
            let staged = if x != ' ' && x != '?' {
                seq![StatusFileView { path, status: status_of_code(x), staged: true }]
            } else {
                seq![]
            };
            let unstaged = if y != ' ' {
                seq![StatusFileView { path, status: status_of_code(y), staged: false }]
            } else {
                seq![]
            };
            staged + unstaged
        }
    }
}

/// The entries of the lines `ls`, line by line.
pub open spec fn entries_of_lines(ls: Seq<Seq<char>>) -> Seq<StatusFileView>
    decreases ls.len(),
{
    if ls.len() == 0 {
        seq![]
    } else {
        entries_of_lines(ls.drop_last()) + line_entries(ls.last())
    }
}

/// The entries of a porcelain status listing.
pub open spec fn parsed_status(s: Seq<char>) -> Seq<StatusFileView> {
    entries_of_lines(lines(s))
}

/// The views of a list of status entries.
pub open spec fn status_view(v: Seq<StatusFile>) -> Seq<StatusFileView> {
    v.map_values(|f: StatusFile| f@)
}

fn code_status(c: char) -> (r: FileStatus)
    ensures
        r == status_of_code(c),
{
    if c == 'A' {
        FileStatus::Added
    } else if c == 'D' {
        FileStatus::Deleted
    } else if c == 'R' {
        FileStatus::Renamed
    } else {
        FileStatus::Modified
    }
}

/// Parses a porcelain status listing; a path may give zero, one or two entries.
pub fn parse_status_output(output: &str) -> (r: Vec<StatusFile>)
    ensures
        status_view(r@) == parsed_status(output@),
{
    let s = chars_of(output);
    let ls = lines_of(&s);
    let ghost all = lines(output@);
    let mut files: Vec<StatusFile> = Vec::new();
    let mut i: usize = 0;
    assert(all.take(0) =~= Seq::<Seq<char>>::empty());
    assert(status_view(files@) =~= Seq::<StatusFileView>::empty());
    while i < ls.len()
        invariant
            i <= ls@.len(),
            views(ls@) == all,
            status_view(files@) == entries_of_lines(all.take(i as int)),
        decreases ls@.len() - i,
    {
        let line = &ls[i];
        assert(line@ == all[i as int]);
        assert(all.take(i + 1).drop_last() =~= all.take(i as int));
        let ghost before = status_view(files@);
        if line.len() >= 3 {
            let x = line[0];
            let y = line[1];
            let path = slice(line, 3, line.len());
            assert(path@ =~= line@.skip(3));
            if x == '?' && y == '?' {
                files.push(StatusFile { path: string_of(&path), status: FileStatus::Untracked, staged: false });
            } else {
                if x != ' ' && x != '?' {
                    files.push(StatusFile { path: string_of(&path), status: code_status(x), staged: true });
                }
                if y != ' ' {
                    files.push(StatusFile { path: string_of(&path), status: code_status(y), staged: false });
                }
            }
        }
        assert(status_view(files@) =~= before + line_entries(line@));
        i = i + 1;
    }
    assert(all.take(ls@.len() as int) =~= all);
    files
}

/// The number of entries of `files` whose staged flag is `staged`.
pub open spec fn count_with(files: Seq<StatusFile>, staged: bool) -> nat
    decreases files.len(),
{
    if files.len() == 0 {
        0
    } else {
        count_with(files.drop_last(), staged) + if files.last().staged == staged {
            1nat
        } else {
            0nat
        }
    }
}

/// Whether `files[i]` is entry number `m` (from 0) of the group with flag `staged`.
pub open spec fn is_nth_with(files: Seq<StatusFile>, i: int, staged: bool, m: int) -> bool {
    0 <= i < files.len() && files[i].staged == staged && count_with(files.take(i), staged) == m
}

/// The row of the "Unstaged Changes:" header: after the staged header and its
/// files when there are staged entries, else the first row.
pub open spec fn unstaged_header_row(files: Seq<StatusFile>) -> int {
    let s = count_with(files, true) as int;
    if s > 0 {
        s + 1
    } else {
        0
    }
}

/// The group and the position within it of the file shown at `row` of the status
/// list, or none for a header row or a row past the end. The staged group (with
/// its header) comes first, then the unstaged group; an empty group has no header.
pub open spec fn row_file(files: Seq<StatusFile>, row: int) -> Option<(bool, int)> {
    let s = count_with(files, true);
    let u = count_with(files, false);
    let h = unstaged_header_row(files);
    if s > 0 && 1 <= row <= s {
        Some((true, row - 1))
    } else if u > 0 && h + 1 <= row <= h + u {
        Some((false, row - h - 1))
    } else {
        None
    }
}

/// The number of rows of the status list: headers and files, or the one
/// "no changes" row when there is no entry.
pub open spec fn status_rows(files: Seq<StatusFile>) -> int {
    let s = count_with(files, true) as int;
    let u = count_with(files, false) as int;
    if files.len() == 0 {
        1
    } else {
        (if s > 0 {
            s + 1
        } else {
            0
        }) + (if u > 0 {
            u + 1
        } else {
            0
        })
    }
}

/// The row that shows the file at position `k` of the listing order (staged
/// entries first, then unstaged ones).
pub open spec fn row_of_position(files: Seq<StatusFile>, k: int) -> int {
    let s = count_with(files, true);
    if k < s {
        k + 1
    } else {
        unstaged_header_row(files) + 1 + (k - s)
    }
}

pub proof fn lemma_count_split(files: Seq<StatusFile>)
    ensures
        count_with(files, true) + count_with(files, false) == files.len(),
    decreases files.len(),
{
    if files.len() > 0 {
        lemma_count_split(files.drop_last());
    }
}

/// The number of entries of `files` in the group `staged`.
pub fn count_staged(files: &Vec<StatusFile>, staged: bool) -> (r: usize)
    ensures
        r == count_with(files@, staged),
{
    let mut n: usize = 0;
    let mut i: usize = 0;
    assert(files@.take(0) =~= Seq::<StatusFile>::empty());
    while i < files.len()
        invariant
            i <= files@.len(),
            n == count_with(files@.take(i as int), staged),
            n <= i,
        decreases files@.len() - i,
    {
        assert(files@.take(i + 1).drop_last() =~= files@.take(i as int));
        if files[i].staged == staged {
            n = n + 1;
        }
        i = i + 1;
    }
    assert(files@.take(files@.len() as int) =~= files@);
    n
}

/// The index of entry number `m` of the group `staged`.
pub fn nth_with(files: &Vec<StatusFile>, staged: bool, m: usize) -> (r: usize)
    requires
        m < count_with(files@, staged),
    ensures
        is_nth_with(files@, r as int, staged, m as int),
{
    let mut n: usize = 0;
    let mut i: usize = 0;
    assert(files@.take(0) =~= Seq::<StatusFile>::empty());
    while i < files.len()
        invariant
            i <= files@.len(),
            n == count_with(files@.take(i as int), staged),
            n <= m,
            m < count_with(files@, staged),
        decreases files@.len() - i,
    {
        assert(files@.take(i + 1).drop_last() =~= files@.take(i as int));
        if files[i].staged == staged {
            if n == m {
                return i;
            }
            n = n + 1;
        }
        i = i + 1;
    }
    assert(files@.take(files@.len() as int) =~= files@);
    0
}

/// The index in `files` of the entry shown at row `list_idx` of the status list,
/// or none for a header row or a row past the end.
pub fn list_index_to_file_index(files: &Vec<StatusFile>, list_idx: usize) -> (r: Option<usize>)
    ensures
        match row_file(files@, list_idx as int) {
            Some(g) => r is Some && is_nth_with(files@, r->0 as int, g.0, g.1),
            None => r is None,
        },
{
    let s = count_staged(files, true);
    let u = count_staged(files, false);
    proof {
        lemma_count_split(files@);
    }
    if s > 0 && list_idx >= 1 && list_idx - 1 < s {
        return Some(nth_with(files, true, list_idx - 1));
    }
    if u == 0 {
        return None;
    }
    let n = files.len();
    assert(s + u == n);
    let h = if s > 0 {
        s + 1
    } else {
        0
    };
    if list_idx > h && list_idx - h - 1 < u {
        Some(nth_with(files, false, list_idx - h - 1))
    } else {
        None
    }
}

/// The number of rows of the status list.
pub fn get_status_list_len(files: &Vec<StatusFile>) -> (r: usize)
    requires
        files@.len() + 2 <= usize::MAX,
    ensures
        r == status_rows(files@),
{
    if files.len() == 0 {
        return 1;
    }
    let s = count_staged(files, true);
    let u = count_staged(files, false);
    proof {
        lemma_count_split(files@);
    }
    let a = if s > 0 {
        s + 1
    } else {
        0
    };
    let b = if u > 0 {
        u + 1
    } else {
        0
    };
    a + b
}

/// The row that shows the file at position `k` of the listing order.
pub fn status_row_of(files: &Vec<StatusFile>, k: usize) -> (r: usize)
    requires
        k < files@.len(),
        files@.len() + 2 <= usize::MAX,
    ensures
        r == row_of_position(files@, k as int),
        row_file(files@, r as int) == (if k < count_with(files@, true) {
            Some((true, k as int))
        } else {
            Some((false, k - count_with(files@, true)))
        }),
{
    let s = count_staged(files, true);
    proof {
        lemma_count_split(files@);
    }
    if k < s {
        k + 1
    } else {
        let h = if s > 0 {
            s + 1
        } else {
            0
        };
        h + 1 + (k - s)
    }
}

} // verus!
