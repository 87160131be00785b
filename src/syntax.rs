//! What the diff highlighter needs to decide before it colours anything: the
//! file extension that picks a syntax, and the kind of each diff line.
use vstd::prelude::*;

use crate::text::{chars_of, slice, string_of};

verus! {

/// The extension that `std::path::Path::extension` finds in a path.
pub uninterp spec fn path_extension(path: Seq<char>) -> Option<Seq<char>>;

/// Relies on `Path::extension` (and `OsStr::to_str`, which cannot fail on text
/// that came from a `&str`): the extension of the path's file name, if any.
#[verifier::external_body]
fn extension_of(filename: &str) -> (r: Option<String>)
    ensures
        match r {
            Some(e) => path_extension(filename@) == Some(e@),
            None => path_extension(filename@) is None,
        },
{
    std::path::Path::new(filename).extension().and_then(|e| e.to_str()).map(|e| e.to_string())
}

/// The extension of a file name, which selects its syntax.
pub fn get_extension(filename: &str) -> (r: Option<String>)
    ensures
        match r {
            Some(e) => path_extension(filename@) == Some(e@),
            None => path_extension(filename@) is None,
        },
{
    extension_of(filename)
}

/// The kind of one line of a file's diff content, with the code it carries.
#[derive(Debug, Clone, PartialEq, Eq)]
pub enum DiffLine {
    /// A hunk header `@@ ... @@`, shown as it is.
    Hunk(String),
    /// An added line, without its `+`.
    Added(String),
    /// A removed line, without its `-`.
    Removed(String),
    /// A context line, without its leading space; an empty line is empty context.
    Context(String),
    /// Anything else, shown as it is.
    Other(String),
}

/// The view of a classified line: its kind (0 hunk, 1 added, 2 removed, 3 context,
/// 4 other) and its text.
pub open spec fn diff_line_view(d: DiffLine) -> (int, Seq<char>) {
    match d {
        DiffLine::Hunk(s) => (0, s@),
        DiffLine::Added(s) => (1, s@),
        DiffLine::Removed(s) => (2, s@),
        DiffLine::Context(s) => (3, s@),
        DiffLine::Other(s) => (4, s@),
    }
}

/// The classification of a diff line: `@@` starts a hunk header; `+`, `-` and a
/// space mark added, removed and context lines, whose code follows the marker;
/// an empty line is empty context; anything else is other.
pub open spec fn classify(line: Seq<char>) -> (int, Seq<char>) {
    if line.len() >= 2 && line[0] == '@' && line[1] == '@' {
        (0, line)
    } else if line.len() >= 1 && line[0] == '+' {
        (1, line.drop_first())
    } else if line.len() >= 1 && line[0] == '-' {
        (2, line.drop_first())
    } else if line.len() == 0 {
        (3, line)
    } else if line[0] == ' ' {
        (3, line.drop_first())
    } else {
        (4, line)
    }
}

/// Classifies one line of a file's diff content.
pub fn classify_diff_line(line: &str) -> (r: DiffLine)
    ensures
        diff_line_view(r) == classify(line@),
{
    let s = chars_of(line);
    let n = s.len();
    if n >= 2 && s[0] == '@' && s[1] == '@' {
        DiffLine::Hunk(string_of(&s))
    } else if n >= 1 && s[0] == '+' {
        let rest = slice(&s, 1, n);
        assert(rest@ =~= s@.drop_first());
        DiffLine::Added(string_of(&rest))
    } else if n >= 1 && s[0] == '-' {
        let rest = slice(&s, 1, n);
        assert(rest@ =~= s@.drop_first());
        DiffLine::Removed(string_of(&rest))
    } else if n == 0 {
        DiffLine::Context(string_of(&s))
    } else if s[0] == ' ' {
        let rest = slice(&s, 1, n);
        assert(rest@ =~= s@.drop_first());
        DiffLine::Context(string_of(&rest))
    } else {
        DiffLine::Other(string_of(&s))
    }
}

} // verus!
