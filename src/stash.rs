//! Parser for the stash listing.
use vstd::prelude::*;

use crate::model::{StashEntry, StashEntryView};
use crate::text::{
    chars_of, contains, equals, find, has_prefix, lemma_first_where_found, index_of, lines, lines_of, slice, starts_with,
    string_of, trim, trimmed, views,
};

verus! {

/// The branch and message of a descriptor body `<branch>: <message>`; without a
/// colon the branch is `unknown` and the body is the message.
pub open spec fn branch_and_message(body: Seq<char>) -> (Seq<char>, Seq<char>) {
    let c = find(body, ':');
    if c < body.len() {
        (trim(body.take(c)), trim(body.skip(c + 1)))
    } else {
        ("unknown"@, body)
    }
}

/// The branch and message of the text after `stash@{N}:` (trimmed here): the
/// descriptors `WIP on <branch>` and `On <branch>` name a branch; any other
/// text is the message of an `unknown` branch.
pub open spec fn descriptor(rest: Seq<char>) -> (Seq<char>, Seq<char>) {
    let r = trim(rest);
    if starts_with(r, "WIP on "@) {
        branch_and_message(r.skip("WIP on "@.len() as int))
    } else if starts_with(r, "On "@) {
        branch_and_message(r.skip("On "@.len() as int))
    } else {
        ("unknown"@, r)
    }
}

/// The entry of the line at position `index`, if the line has a colon.
pub open spec fn line_stash(line: Seq<char>, index: int) -> Seq<StashEntryView> {
    let c = find(line, ':');
    if c < line.len() {
        let d = descriptor(line.skip(c + 1));
        seq![StashEntryView { index, branch: d.0, message: d.1 }]
    } else {
        seq![]
    }
}

/// The entries of the lines `ls`; each takes the position of its line as index.
pub open spec fn stashes_of_lines(ls: Seq<Seq<char>>) -> Seq<StashEntryView>
    decreases ls.len(),
{
    if ls.len() == 0 {
        seq![]
    } else {
        stashes_of_lines(ls.drop_last()) + line_stash(ls.last(), ls.len() - 1)
    }
}

/// The entries of a stash listing.
pub open spec fn parsed_stashes(s: Seq<char>) -> Seq<StashEntryView> {
    stashes_of_lines(lines(s))
}

/// The views of a list of stash entries.
pub open spec fn stash_view(v: Seq<StashEntry>) -> Seq<StashEntryView> {
    v.map_values(|e: StashEntry| e@)
}

fn split_branch(body: &Vec<char>) -> (r: (Vec<char>, Vec<char>))
    ensures
        r.0@ == branch_and_message(body@).0,
        r.1@ == branch_and_message(body@).1,
{
    let c = index_of(body, ':');
    if c < body.len() {
        (trimmed(&slice(body, 0, c)), trimmed(&slice(body, c + 1, body.len())))
    } else {
        let m = slice(body, 0, body.len());
        assert(m@ =~= body@);
        (chars_of("unknown"), m)
    }
}

fn read_descriptor(rest: &Vec<char>) -> (r: (Vec<char>, Vec<char>))
    ensures
        r.0@ == descriptor(rest@).0,
        r.1@ == descriptor(rest@).1,
{
    let r = trimmed(rest);
    let wip = chars_of("WIP on ");
    let on = chars_of("On ");
    if has_prefix(&r, &wip) {
        let body = slice(&r, wip.len(), r.len());
        assert(body@ =~= r@.skip(wip@.len() as int));
        split_branch(&body)
    } else if has_prefix(&r, &on) {
        let body = slice(&r, on.len(), r.len());
        assert(body@ =~= r@.skip(on@.len() as int));
        split_branch(&body)
    } else {
        (chars_of("unknown"), r)
    }
}

/// Parses a stash listing; each entry's index is the position of its line,
/// whatever number the line itself shows.
pub fn parse_stash_output(output: &str) -> (r: Vec<StashEntry>)
    ensures
        stash_view(r@) == parsed_stashes(output@),
{
    let s = chars_of(output);
    let ls = lines_of(&s);
    let ghost all = lines(output@);
    let mut stashes: Vec<StashEntry> = Vec::new();
    let mut i: usize = 0;
    assert(all.take(0) =~= Seq::<Seq<char>>::empty());
    assert(stash_view(stashes@) =~= Seq::<StashEntryView>::empty());
    while i < ls.len()
        invariant
            i <= ls@.len(),
            views(ls@) == all,
            stash_view(stashes@) == stashes_of_lines(all.take(i as int)),
        decreases ls@.len() - i,
    {
        let line = &ls[i];
        assert(line@ == all[i as int]);
        assert(all.take(i + 1).drop_last() =~= all.take(i as int));
        let ghost before = stash_view(stashes@);
        let c = index_of(line, ':');
        if c < line.len() {
            let rest = slice(line, c + 1, line.len());
            assert(rest@ =~= line@.skip(c + 1));
            let (branch, message) = read_descriptor(&rest);
            stashes.push(StashEntry { index: i, branch: string_of(&branch), message: string_of(&message) });
        }
        assert(stash_view(stashes@) =~= before + line_stash(line@, i as int));
        i = i + 1;
    }
    assert(all.take(ls@.len() as int) =~= all);
    stashes
}

proof fn lemma_positions(ls: Seq<Seq<char>>)
    ensures
        forall|k: int|
            0 <= k < stashes_of_lines(ls).len() ==> 0 <= #[trigger] stashes_of_lines(ls)[k].index
                < ls.len(),
        forall|a: int, b: int|
            0 <= a < b < stashes_of_lines(ls).len() ==> #[trigger] stashes_of_lines(ls)[a].index
                < #[trigger] stashes_of_lines(ls)[b].index,
        (forall|j: int| 0 <= j < ls.len() ==> contains(#[trigger] ls[j], ':')) ==> {
            &&& stashes_of_lines(ls).len() == ls.len()
            &&& forall|k: int|
                0 <= k < ls.len() ==> #[trigger] stashes_of_lines(ls)[k].index == k
        },
    decreases ls.len(),
{
    if ls.len() > 0 {
        let prev = ls.drop_last();
        lemma_positions(prev);
        lemma_first_where_found(ls.last(), equals(':'));
        let p = stashes_of_lines(prev);
        let l = line_stash(ls.last(), ls.len() - 1);
        let r = stashes_of_lines(ls);
        assert(r == p + l);
        assert(l.len() <= 1);
        assert forall|k: int| 0 <= k < p.len() implies r[k] == p[k] by {}
        assert forall|k: int| p.len() <= k < r.len() implies r[k].index == ls.len() - 1 by {
            assert(r[k] == l[k - p.len()]);
        }
        if forall|j: int| 0 <= j < ls.len() ==> contains(#[trigger] ls[j], ':') {
            assert forall|j: int| 0 <= j < prev.len() implies contains(#[trigger] prev[j], ':') by {
                assert(prev[j] == ls[j]);
            }
            assert(contains(ls[ls.len() - 1], ':'));
        }
    }
}

/// Each stash entry's index is the position of the line it was read from, never
/// a number written in that line: indices lie within the listing and increase
/// strictly; when every line is a stash line they are exactly 0, 1, 2, ...
pub proof fn lemma_stash_index_is_position(s: Seq<char>)
    ensures
        forall|k: int|
            0 <= k < parsed_stashes(s).len() ==> 0 <= #[trigger] parsed_stashes(s)[k].index
                < lines(s).len(),
        forall|a: int, b: int|
            0 <= a < b < parsed_stashes(s).len() ==> #[trigger] parsed_stashes(s)[a].index
                < #[trigger] parsed_stashes(s)[b].index,
        (forall|j: int| 0 <= j < lines(s).len() ==> contains(#[trigger] lines(s)[j], ':')) ==> {
            &&& parsed_stashes(s).len() == lines(s).len()
            &&& forall|k: int|
                0 <= k < lines(s).len() ==> #[trigger] parsed_stashes(s)[k].index == k
        },
{
    lemma_positions(lines(s));
}

} // verus!
