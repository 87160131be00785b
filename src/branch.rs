//! Parser for the verbose local and remote branch listings.
use vstd::prelude::*;

use crate::diff::space_test;
use crate::model::{Branch, BranchView};
use crate::text::{
    chars_of, first_where, has_prefix, is_space, lemma_first_where_found, lines, lines_of,
    slice, string_of, trim, trim_start, trimmed, views, whitespace,
};

verus! {

/// The first whitespace-separated word of `s`, and the text after it.
pub open spec fn split_word(s: Seq<char>) -> (Seq<char>, Seq<char>) {
    let t = trim_start(s);
    let e = first_where(t, space_test());
    (t.take(e), t.skip(e))
}

/// Whether `p` occurs in `s` as a contiguous piece.
pub open spec fn contains_text(s: Seq<char>, p: Seq<char>) -> bool {
    exists|i: int| 0 <= i && i + p.len() <= s.len() && #[trigger] s.subrange(i, i + p.len()) == p
}

/// The branch of one listing line: lines naming the symbolic `HEAD ->` ref, and
/// lines with no name after the two-character marker column, give none. After
/// the marker come the name, the commit hash and the commit message; a local
/// line marked `*` is the current branch; a remote one never is.
pub open spec fn line_branch(line: Seq<char>, remote: bool) -> Seq<BranchView> {
    if line.len() < 2 || contains_text(line, "HEAD ->"@) {
        seq![]
    } else {
        let first = split_word(line.skip(2));
        let second = split_word(first.1);
        if first.0.len() == 0 {
            seq![]
        } else {
            seq![
                BranchView {
                    name: first.0,
                    is_current: !remote && line[0] == '*',
                    is_remote: remote,
                    commit_hash: second.0,
                    commit_message: trim(second.1),
                },
            ]
        }
    }
}

/// The branches of the lines `ls`, in order.
pub open spec fn branches_of_lines(ls: Seq<Seq<char>>, remote: bool) -> Seq<BranchView>
    decreases ls.len(),
{
    if ls.len() == 0 {
        seq![]
    } else {
        branches_of_lines(ls.drop_last(), remote) + line_branch(ls.last(), remote)
    }
}

/// The branches of a local listing followed by those of a remote listing.
pub open spec fn parsed_branches(local: Seq<char>, remote: Seq<char>) -> Seq<BranchView> {
    branches_of_lines(lines(local), false) + branches_of_lines(lines(remote), true)
}

/// The views of a list of branches.
pub open spec fn branches_view(v: Seq<Branch>) -> Seq<BranchView> {
    v.map_values(|b: Branch| b@)
}

/// The first word of `s` and the text after it.
fn next_word(s: &Vec<char>) -> (r: (Vec<char>, Vec<char>))
    ensures
        r.0@ == split_word(s@).0,
        r.1@ == split_word(s@).1,
{
    let mut j: usize = 0;
    assert(s@.skip(0) =~= s@);
    while j < s.len() && whitespace(s[j])
        invariant
            j <= s@.len(),
            trim_start(s@) == trim_start(s@.skip(j as int)),
        decreases s@.len() - j,
    {
        assert(s@.skip(j + 1) =~= s@.skip(j as int).drop_first());
        j = j + 1;
    }
    let ghost t = s@.skip(j as int);
    assert(trim_start(t) == t);
    let mut e = j;
    while e < s.len() && !whitespace(s[e])
        invariant
            j <= e <= s@.len(),
            forall|x: int| j <= x < e ==> !is_space(s@[x]),
        decreases s@.len() - e,
    {
        e = e + 1;
    }
    proof {
        lemma_first_where_found(t, space_test());
        assert forall|x: int| 0 <= x < e - j implies !space_test()(t[x]) by {
            assert(t[x] == s@[j + x]);
        }
        if e < s@.len() {
            assert(space_test()(t[e - j]));
        }
        if first_where(t, space_test()) < e - j {
            assert(t[first_where(t, space_test())] == s@[j + first_where(t, space_test())]);
        }
    }
    let w = slice(s, j, e);
    let rest = slice(s, e, s.len());
    assert(w@ =~= t.take(e - j));
    assert(rest@ =~= t.skip(e - j));
    (w, rest)
}

/// Whether `p` occurs in `s`.
pub fn has_text(s: &Vec<char>, p: &Vec<char>) -> (r: bool)
    ensures
        r == contains_text(s@, p@),
{
    if p.len() > s.len() {
        return false;
    }
    if p.len() == 0 {
        assert(s@.subrange(0, 0 + p@.len() as int) =~= p@);
        return true;
    }
    let mut i: usize = 0;
    let last = s.len() - p.len();
    while i <= last
        invariant
            1 <= p@.len() <= s@.len(),
            last == s@.len() - p@.len(),
            i <= last + 1,
            forall|j: int| 0 <= j < i ==> #[trigger] s@.subrange(j, j + p@.len()) != p@,
        decreases last + 1 - i,
    {
        let tail = slice(s, i, s.len());
        if has_prefix(&tail, p) {
            assert(tail@.take(p@.len() as int) =~= s@.subrange(i as int, i + p@.len()));
            return true;
        }
        assert(tail@.take(p@.len() as int) =~= s@.subrange(i as int, i + p@.len()));
        i = i + 1;
    }
    false
}

/// Parses one branch listing; `remote` tags every entry as a remote branch.
pub fn parse_branch_output(output: &str, remote: bool) -> (r: Vec<Branch>)
    ensures
        branches_view(r@) == branches_of_lines(lines(output@), remote),
{
    let s = chars_of(output);
    let ls = lines_of(&s);
    let ghost all = lines(output@);
    let head_ref = chars_of("HEAD ->");
    let mut out: Vec<Branch> = Vec::new();
    let mut i: usize = 0;
    assert(all.take(0) =~= Seq::<Seq<char>>::empty());
    assert(branches_view(out@) =~= Seq::<BranchView>::empty());
    while i < ls.len()
        invariant
            i <= ls@.len(),
            views(ls@) == all,
            head_ref@ == "HEAD ->"@,
            branches_view(out@) == branches_of_lines(all.take(i as int), remote),
        decreases ls@.len() - i,
    {
        let line = &ls[i];
        assert(line@ == all[i as int]);
        assert(all.take(i + 1).drop_last() =~= all.take(i as int));
        let ghost before = branches_view(out@);
        if line.len() >= 2 && !has_text(line, &head_ref) {
            let rest = slice(line, 2, line.len());
            assert(rest@ =~= line@.skip(2));
            let (name, after_name) = next_word(&rest);
            let (hash, after_hash) = next_word(&after_name);
            if name.len() > 0 {
                let message = trimmed(&after_hash);
                out.push(
                    Branch {
                        name: string_of(&name),
                        is_current: !remote && line[0] == '*',
                        is_remote: remote,
                        commit_hash: string_of(&hash),
                        commit_message: string_of(&message),
                    },
                );
            }
        }
        assert(branches_view(out@) =~= before + line_branch(line@, remote));
        i = i + 1;
    }
    assert(all.take(ls@.len() as int) =~= all);
    out
}

/// Parses the local listing and the remote listing, local branches first.
pub fn parse_branches(local: &str, remote: &str) -> (r: Vec<Branch>)
    ensures
        branches_view(r@) == parsed_branches(local@, remote@),
{
    let mut out = parse_branch_output(local, false);
    let mut remotes = parse_branch_output(remote, true);
    let ghost a = branches_view(out@);
    let ghost b = branches_view(remotes@);
    out.append(&mut remotes);
    assert(branches_view(out@) =~= a + b);
    out
}

proof fn lemma_lines_flags(ls: Seq<Seq<char>>, remote: bool)
    ensures
        forall|k: int|
            0 <= k < branches_of_lines(ls, remote).len() ==> #[trigger] branches_of_lines(
                ls,
                remote,
            )[k].is_remote == remote && (remote ==> !branches_of_lines(ls, remote)[k].is_current),
    decreases ls.len(),
{
    if ls.len() > 0 {
        let prev = ls.drop_last();
        lemma_lines_flags(prev, remote);
        let a = branches_of_lines(prev, remote);
        let b = line_branch(ls.last(), remote);
        assert forall|k: int| 0 <= k < (a + b).len() implies (a + b)[k].is_remote == remote && (
        remote ==> !(a + b)[k].is_current) by {
            if k >= a.len() {
                assert((a + b)[k] == b[k - a.len()]);
            }
        }
    }
}

/// In the combined listing the local branches come first and the remote ones
/// after them; a remote branch is never the current one.
pub proof fn lemma_remote_never_current(local: Seq<char>, remote: Seq<char>)
    ensures
        forall|k: int|
            0 <= k < parsed_branches(local, remote).len() ==> (#[trigger] parsed_branches(
                local,
                remote,
            )[k].is_remote <==> k >= branches_of_lines(lines(local), false).len()),
        forall|k: int|
            0 <= k < parsed_branches(local, remote).len() && #[trigger] parsed_branches(
                local,
                remote,
            )[k].is_remote ==> !parsed_branches(local, remote)[k].is_current,
{
    let a = branches_of_lines(lines(local), false);
    let b = branches_of_lines(lines(remote), true);
    lemma_lines_flags(lines(local), false);
    lemma_lines_flags(lines(remote), true);
    assert forall|k: int| 0 <= k < (a + b).len() implies ((a + b)[k].is_remote <==> k >= a.len())
        && ((a + b)[k].is_remote ==> !(a + b)[k].is_current) by {
        if k >= a.len() {
            assert((a + b)[k] == b[k - a.len()]);
        } else {
            assert((a + b)[k] == a[k]);
        }
    }
}

} // verus!
