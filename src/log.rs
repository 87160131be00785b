//! Parser for the graph history listing (`log --graph --oneline --decorate`).
use vstd::prelude::*;

use crate::model::{
    commits_view, decorations_view, Commit, CommitView, Decoration, DecorationView,
};
use crate::text::{
    chars_of, contains, equals, find, find_hex, first_where, has_char, has_prefix, index_of,
    index_of_hex, is_hex_digit, lemma_first_where_found, lines, lines_of, slice, split, split_on,
    starts_with, string_of, trim, trimmed, views,
};

verus! {

/// The decorations that one trimmed part of a decoration list stands for.
pub open spec fn part_decorations(part: Seq<char>) -> Seq<DecorationView> {
    if part.len() == 0 {
        seq![]
    } else if starts_with(part, "HEAD -> "@) {
        let b = trim(part.skip("HEAD -> "@.len() as int));
        if b.len() == 0 {
            seq![DecorationView::Head]
        } else if contains(b, '/') {
            seq![DecorationView::Head, DecorationView::RemoteBranch(b)]
        } else {
            seq![DecorationView::Head, DecorationView::Branch(b)]
        }
    } else if part == "HEAD"@ {
        seq![DecorationView::Head]
    } else if starts_with(part, "tag: "@) {
        let t = trim(part.skip("tag: "@.len() as int));
        if t.len() == 0 {
            seq![]
        } else {
            seq![DecorationView::Tag(t)]
        }
    } else if contains(part, '/') {
        seq![DecorationView::RemoteBranch(part)]
    } else {
        seq![DecorationView::Branch(part)]
    }
}

/// The decorations of a list of raw parts, in order.
pub open spec fn parts_decorations(parts: Seq<Seq<char>>) -> Seq<DecorationView>
    decreases parts.len(),
{
    if parts.len() == 0 {
        seq![]
    } else {
        parts_decorations(parts.drop_last()) + part_decorations(trim(parts.last()))
    }
}

/// The decorations of a comma-separated decoration list.
pub open spec fn decoration_list(s: Seq<char>) -> Seq<DecorationView> {
    parts_decorations(split(s, ','))
}

/// The decorations and message of the text that follows a hash: a leading
/// parenthesised list (after trimming) gives the decorations and the trimmed rest
/// the message; without one, there are no decorations and the text is the message.
pub open spec fn decorations_and_message(text: Seq<char>) -> (Seq<DecorationView>, Seq<char>) {
    let t = trim(text);
    let close = find(t, ')');
    if t.len() > 0 && t[0] == '(' && close < t.len() {
        (decoration_list(t.subrange(1, close)), trim(t.skip(close + 1)))
    } else {
        (seq![], text)
    }
}

/// Whether a history line holds a commit: it has a hex digit somewhere.
pub open spec fn is_commit_line(line: Seq<char>) -> bool {
    find_hex(line) < line.len()
}

/// The text of a commit line from its first hex digit on.
pub open spec fn after_graph(line: Seq<char>) -> Seq<char> {
    line.skip(find_hex(line))
}

/// The hash of a commit line: from the first hex digit up to the next space.
pub open spec fn line_hash(line: Seq<char>) -> Seq<char> {
    let rest = after_graph(line);
    rest.take(find(rest, ' '))
}

/// What follows the hash and its space.
pub open spec fn after_hash(line: Seq<char>) -> Seq<char> {
    let rest = after_graph(line);
    let sp = find(rest, ' ');
    if sp < rest.len() {
        rest.skip(sp + 1)
    } else {
        seq![]
    }
}

/// The commit that a commit line describes.
pub open spec fn line_commit(line: Seq<char>) -> CommitView {
    let dm = decorations_and_message(after_hash(line));
    CommitView {
        graph: line.take(find_hex(line)),
        hash: line_hash(line),
        message: dm.1,
        decorations: dm.0,
    }
}

/// The commit lines among `ls`, in order.
pub open spec fn commit_lines(ls: Seq<Seq<char>>) -> Seq<Seq<char>> {
    ls.filter(|l: Seq<char>| is_commit_line(l))
}

/// The commits that the lines `ls` describe, one per commit line, in line order.
pub open spec fn commits_of_lines(ls: Seq<Seq<char>>) -> Seq<CommitView> {
    commit_lines(ls).map_values(|l: Seq<char>| line_commit(l))
}

/// The commits of a history listing.
pub open spec fn parsed_log(s: Seq<char>) -> Seq<CommitView> {
    commits_of_lines(lines(s))
}

/// Appends the decorations of one part (trimmed here) to `out`.
fn push_part_decorations(part: &Vec<char>, out: &mut Vec<Decoration>)
    ensures
        decorations_view(final(out)@) == decorations_view(old(out)@) + part_decorations(
            trim(part@),
        ),
{
    let p = trimmed(part);
    let ghost before = decorations_view(out@);
    let head_arrow = chars_of("HEAD -> ");
    let head = chars_of("HEAD");
    let tag = chars_of("tag: ");
    let is_head = has_prefix(&p, &head) && p.len() == head.len();
    proof {
        if p@ == head@ {
            assert(p@.take(p@.len() as int) =~= p@);
        }
        if is_head {
            assert(p@ =~= p@.take(head@.len() as int));
        }
    }
    if p.len() == 0 {
    } else if has_prefix(&p, &head_arrow) {
        let rest = slice(&p, head_arrow.len(), p.len());
        assert(rest@ =~= p@.skip(head_arrow@.len() as int));
        let b = trimmed(&rest);
        out.push(Decoration::Head);
        if b.len() == 0 {
        } else if has_char(&b, '/') {
            out.push(Decoration::RemoteBranch(string_of(&b)));
        } else {
            out.push(Decoration::Branch(string_of(&b)));
        }
    } else if is_head {
        out.push(Decoration::Head);
    } else if has_prefix(&p, &tag) {
        let rest = slice(&p, tag.len(), p.len());
        assert(rest@ =~= p@.skip(tag@.len() as int));
        let t = trimmed(&rest);
        if t.len() > 0 {
            out.push(Decoration::Tag(string_of(&t)));
        }
    } else if has_char(&p, '/') {
        out.push(Decoration::RemoteBranch(string_of(&p)));
    } else {
        out.push(Decoration::Branch(string_of(&p)));
    }
    assert(decorations_view(out@) =~= before + part_decorations(trim(part@)));
}

/// The decorations of a decoration list held as characters.
fn decorations_in(s: &Vec<char>) -> (r: Vec<Decoration>)
    ensures
        decorations_view(r@) == decoration_list(s@),
{
    let parts = split_on(s, ',');
    let ghost ps = split(s@, ',');
    let mut out: Vec<Decoration> = Vec::new();
    let mut i: usize = 0;
    assert(ps.take(0) =~= Seq::<Seq<char>>::empty());
    assert(decorations_view(out@) =~= Seq::<DecorationView>::empty());
    while i < parts.len()
        invariant
            i <= parts@.len(),
            views(parts@) == ps,
            decorations_view(out@) == parts_decorations(ps.take(i as int)),
        decreases parts@.len() - i,
    {
        assert(parts@[i as int]@ == ps[i as int]);
        push_part_decorations(&parts[i], &mut out);
        assert(ps.take(i + 1).drop_last() =~= ps.take(i as int));
        i = i + 1;
    }
    assert(ps.take(parts@.len() as int) =~= ps);
    out
}

/// Parses a decoration list such as `HEAD -> main, origin/main, tag: v1.0`.
pub fn parse_decoration_string(decoration_str: &str) -> (r: Vec<Decoration>)
    ensures
        decorations_view(r@) == decoration_list(decoration_str@),
{
    let s = chars_of(decoration_str);
    decorations_in(&s)
}

/// The decorations and message of the text after a hash, held as characters.
fn split_decorations(text: &Vec<char>) -> (r: (Vec<Decoration>, Vec<char>))
    ensures
        decorations_view(r.0@) == decorations_and_message(text@).0,
        r.1@ == decorations_and_message(text@).1,
{
    let t = trimmed(text);
    let close = index_of(&t, ')');
    if t.len() > 0 && t[0] == '(' && close < t.len() {
        let inner = slice(&t, 1, close);
        let message = trimmed(&slice(&t, close + 1, t.len()));
        (decorations_in(&inner), message)
    } else {
        let d: Vec<Decoration> = Vec::new();
        assert(decorations_view(d@) =~= Seq::<DecorationView>::empty());
        (d, slice(text, 0, text.len()))
    }
}

/// Parses the text after a hash into its decorations and its message.
pub fn parse_decorations_and_message(text: &str) -> (r: (Vec<Decoration>, String))
    ensures
        decorations_view(r.0@) == decorations_and_message(text@).0,
        r.1@ == decorations_and_message(text@).1,
{
    let s = chars_of(text);
    let (d, m) = split_decorations(&s);
    (d, string_of(&m))
}

/// The commit of a commit line.
fn commit_of_line(line: &Vec<char>) -> (r: Commit)
    requires
        is_commit_line(line@),
    ensures
        r@ == line_commit(line@),
{
    let h = index_of_hex(line);
    let rest = slice(line, h, line.len());
    assert(rest@ =~= after_graph(line@));
    let sp = index_of(&rest, ' ');
    let hash = slice(&rest, 0, sp);
    let after = if sp < rest.len() {
        slice(&rest, sp + 1, rest.len())
    } else {
        Vec::new()
    };
    assert(after@ =~= after_hash(line@));
    let (decorations, message) = split_decorations(&after);
    Commit {
        graph: string_of(&slice(line, 0, h)),
        hash: string_of(&hash),
        message: string_of(&message),
        decorations,
    }
}

/// Parses a graph history listing into its commits, in listing order.
pub fn parse_log_output(output: &str) -> (r: Vec<Commit>)
    ensures
        commits_view(r@) == parsed_log(output@),
{
    let s = chars_of(output);
    let ls = lines_of(&s);
    let ghost all = lines(output@);
    let mut out: Vec<Commit> = Vec::new();
    let mut i: usize = 0;
    assert(all.take(0) =~= Seq::<Seq<char>>::empty());
    proof {
        reveal(Seq::filter);
    }
    assert(commits_view(out@) =~= commits_of_lines(all.take(0)));
    while i < ls.len()
        invariant
            i <= ls@.len(),
            views(ls@) == all,
            commits_view(out@) == commits_of_lines(all.take(i as int)),
        decreases ls@.len() - i,
    {
        let line = &ls[i];
        assert(line@ == all[i as int]);
        let ghost before = commits_view(out@);
        assert(all.take(i + 1).drop_last() =~= all.take(i as int));
        proof {
            reveal(Seq::filter);
        }
        assert(commit_lines(all.take(i + 1)) == if is_commit_line(all[i as int]) {
            commit_lines(all.take(i as int)).push(all[i as int])
        } else {
            commit_lines(all.take(i as int))
        });
        if index_of_hex(line) < line.len() {
            let c = commit_of_line(line);
            out.push(c);
            assert(commits_view(out@) =~= before.push(line_commit(all[i as int])));
            assert(commits_of_lines(all.take(i + 1)) =~= commits_of_lines(all.take(i as int)).push(
                line_commit(all[i as int]),
            ));
        } else {
            assert(commits_view(out@) =~= before);
        }
        i = i + 1;
    }
    assert(all.take(ls@.len() as int) =~= all);
    out
}

/// Whether some character of `l` is an ASCII hex digit.
pub open spec fn has_hex_digit(l: Seq<char>) -> bool {
    exists|i: int| 0 <= i < l.len() && is_hex_digit(l[i])
}

/// The non-empty lines among `ls` that hold a hex digit, in order.
pub open spec fn hex_lines(ls: Seq<Seq<char>>) -> Seq<Seq<char>> {
    ls.filter(|l: Seq<char>| l.len() > 0 && has_hex_digit(l))
}

proof fn lemma_commit_lines_are_hex_lines(ls: Seq<Seq<char>>)
    ensures
        commit_lines(ls) == hex_lines(ls),
    decreases ls.len(),
{
    reveal(Seq::filter);
    if ls.len() > 0 {
        lemma_commit_lines_are_hex_lines(ls.drop_last());
        lemma_first_where_found(ls.last(), |x: char| is_hex_digit(x));
    }
}

/// A history listing yields one commit for each non-empty line that holds a hex
/// digit, in line order; each commit's hash is the text of its line from the
/// first hex digit up to the next space, and its graph the text before that digit.
pub proof fn lemma_log_commit_per_hex_line(s: Seq<char>)
    ensures
        parsed_log(s).len() == hex_lines(lines(s)).len(),
        forall|k: int|
            0 <= k < parsed_log(s).len() ==> {
                let l = #[trigger] hex_lines(lines(s))[k];
                let h = find_hex(l);
                &&& parsed_log(s)[k].hash == l.skip(h).take(find(l.skip(h), ' '))
                &&& parsed_log(s)[k].graph == l.take(h)
            },
{
    lemma_commit_lines_are_hex_lines(lines(s));
}

proof fn lemma_parts_remote_names(parts: Seq<Seq<char>>)
    ensures
        forall|k: int|
            0 <= k < parts_decorations(parts).len() ==> (#[trigger] parts_decorations(parts)[k]
                matches DecorationView::RemoteBranch(n) ==> contains(n, '/')),
    decreases parts.len(),
{
    if parts.len() > 0 {
        let prev = parts.drop_last();
        lemma_parts_remote_names(prev);
        let a = parts_decorations(prev);
        let b = part_decorations(trim(parts.last()));
        assert forall|k: int| 0 <= k < (a + b).len() implies (#[trigger] (a + b)[k] matches DecorationView::RemoteBranch(
            n,
        ) ==> contains(n, '/')) by {
            if k >= a.len() {
                assert((a + b)[k] == b[k - a.len()]);
            }
        }
    }
}

/// Every remote-branch decoration that a decoration list yields names a ref
/// with a `/` in it.
pub proof fn lemma_remote_decorations_have_slash(s: Seq<char>)
    ensures
        forall|k: int|
            0 <= k < decoration_list(s).len() ==> (#[trigger] decoration_list(s)[k]
                matches DecorationView::RemoteBranch(n) ==> contains(n, '/')),
{
    lemma_parts_remote_names(split(s, ','));
}

proof fn lemma_line_hash_hex(l: Seq<char>)
    requires
        is_commit_line(l),
    ensures
        line_hash(l).len() > 0,
        is_hex_digit(line_hash(l)[0]),
{
    lemma_first_where_found(l, |x: char| is_hex_digit(x));
    let rest = after_graph(l);
    assert(rest[0] == l[find_hex(l)]);
    lemma_first_where_found(rest, equals(' '));
    assert(first_where(rest, equals(' ')) != 0);
}

/// Every commit of a history listing has a non-empty hash that starts with a
/// hex digit.
pub proof fn lemma_hashes_start_with_hex(s: Seq<char>)
    ensures
        forall|k: int|
            0 <= k < parsed_log(s).len() ==> #[trigger] parsed_log(s)[k].hash.len() > 0
                && is_hex_digit(parsed_log(s)[k].hash[0]),
{
    let cl = commit_lines(lines(s));
    assert forall|k: int| 0 <= k < parsed_log(s).len() implies #[trigger] parsed_log(s)[k].hash.len()
        > 0 && is_hex_digit(parsed_log(s)[k].hash[0]) by {
        lines(s).lemma_filter_pred(|l: Seq<char>| is_commit_line(l), k);
        lemma_line_hash_hex(cl[k]);
    }
}

} // verus!
