//! Parser for the full display of one commit, split into per-file diffs.
use vstd::prelude::*;

use crate::model::{CommitDiff, FileDiff, FileDiffView};
use crate::text::{
    chars_of, contains, first_where, is_space, lemma_first_where_found,
    lemma_lines_have_no_newline, lemma_split_append, lemma_split_nonempty, lines, lines_of, slice,
    split, starts_with, string_of, strip_cr, views, whitespace,
};

verus! {

/// The test "is whitespace" on characters.
pub open spec fn space_test() -> spec_fn(char) -> bool {
    |c: char| is_space(c)
}

/// The `n`-th whitespace-separated word of `s` (counting from 0), if there is one.
pub open spec fn nth_word(s: Seq<char>, n: nat) -> Option<Seq<char>>
    decreases s.len(),
    via nth_word_decreases
{
    if s.len() == 0 {
        None
    } else if is_space(s[0]) {
        nth_word(s.drop_first(), n)
    } else {
        let e = first_where(s, space_test());
        if n == 0 {
            Some(s.take(e))
        } else {
            nth_word(s.skip(e), (n - 1) as nat)
        }
    }
}

#[via_fn]
proof fn nth_word_decreases(s: Seq<char>, n: nat) {
    lemma_first_where_found(s, space_test());
}

/// The file name that a `diff --git a/<path> b/<path>` marker names: its third
/// word with one leading `a/` removed, or `unknown` when there is no third word.
pub open spec fn marker_filename(line: Seq<char>) -> Seq<char> {
    match nth_word(line, 2) {
        Some(w) => if starts_with(w, "a/"@) {
            w.skip(2)
        } else {
            w
        },
        None => "unknown"@,
    }
}

/// Whether a line starts a new file's diff.
pub open spec fn is_marker(line: Seq<char>) -> bool {
    starts_with(line, "diff --git"@)
}

/// Whether a line is diff metadata that is left out of a file's content.
pub open spec fn is_metadata(line: Seq<char>) -> bool {
    is_marker(line) || starts_with(line, "index "@) || starts_with(line, "--- "@) || starts_with(
        line,
        "+++ "@,
    )
}

/// The files closed so far, and the file being read, if any.
pub struct DiffScan {
    pub done: Seq<FileDiffView>,
    pub open: Option<FileDiffView>,
}

/// The files of a scan once the file being read is closed.
pub open spec fn closed(st: DiffScan) -> Seq<FileDiffView> {
    match st.open {
        Some(f) => st.done.push(f),
        None => st.done,
    }
}

/// The scan after one more line: a marker closes the open file and opens a new
/// one; before the first marker lines are skipped; after it, every line but
/// metadata is added to the open file's content with its newline.
pub open spec fn diff_step(st: DiffScan, line: Seq<char>) -> DiffScan {
    if is_marker(line) {
        DiffScan {
            done: closed(st),
            open: Some(FileDiffView { filename: marker_filename(line), diff_content: seq![] }),
        }
    } else {
        match st.open {
            None => st,
            Some(f) => if is_metadata(line) {
                st
            } else {
                DiffScan {
                    done: st.done,
                    open: Some(
                        FileDiffView {
                            filename: f.filename,
                            diff_content: f.diff_content + line.push('\n'),
                        },
                    ),
                }
            },
        }
    }
}

/// The scan after the lines `ls`.
pub open spec fn diff_scan(ls: Seq<Seq<char>>) -> DiffScan
    decreases ls.len(),
{
    if ls.len() == 0 {
        DiffScan { done: seq![], open: None }
    } else {
        diff_step(diff_scan(ls.drop_last()), ls.last())
    }
}

/// The placeholder file of a commit that touched no file.
pub open spec fn no_changes() -> FileDiffView {
    FileDiffView {
        filename: "(no changes)"@,
        diff_content: "No file changes in this commit.\n"@,
    }
}

/// The files of a commit display: one per marker, or the placeholder alone.
pub open spec fn parsed_diff(s: Seq<char>) -> Seq<FileDiffView> {
    let files = closed(diff_scan(lines(s)));
    if files.len() == 0 {
        seq![no_changes()]
    } else {
        files
    }
}

/// Appends `src` to `dst`.
pub fn append_chars(dst: &mut Vec<char>, src: &Vec<char>)
    ensures
        final(dst)@ == old(dst)@ + src@,
{
    let mut i: usize = 0;
    while i < src.len()
        invariant
            i <= src@.len(),
            dst@ == old(dst)@ + src@.take(i as int),
        decreases src@.len() - i,
    {
        dst.push(src[i]);
        i = i + 1;
        assert(dst@ =~= old(dst)@ + src@.take(i as int));
    }
    assert(src@.take(src@.len() as int) =~= src@);
}

/// The `n`-th whitespace-separated word of `s`.
fn nth_word_of(s: &Vec<char>, n: usize) -> (r: Option<Vec<char>>)
    ensures
        match r {
            Some(w) => nth_word(s@, n as nat) == Some(w@),
            None => nth_word(s@, n as nat) is None,
        },
{
    let mut i: usize = 0;
    let mut k: usize = n;
    assert(s@.skip(0) =~= s@);
    loop
        invariant
            i <= s@.len(),
            k <= n,
            nth_word(s@, n as nat) == nth_word(s@.skip(i as int), k as nat),
        decreases s@.len() - i,
    {
        let mut j = i;
        while j < s.len() && whitespace(s[j])
            invariant
                i <= j <= s@.len(),
                nth_word(s@, n as nat) == nth_word(s@.skip(j as int), k as nat),
            decreases s@.len() - j,
        {
            assert(s@.skip(j + 1) =~= s@.skip(j as int).drop_first());
            j = j + 1;
        }
        let ghost t = s@.skip(j as int);
        if j == s.len() {
            return None;
        }
        assert(!is_space(t[0]));
        let mut e = j;
        while e < s.len() && !whitespace(s[e])
            invariant
                j <= e <= s@.len(),
                forall|x: int| j <= x < e ==> !is_space(s@[x]),
            decreases s@.len() - e,
        {
            e = e + 1;
        }
        proof {
            lemma_first_where_found(t, space_test());
            assert forall|x: int| 0 <= x < e - j implies !space_test()(t[x]) by {
                assert(t[x] == s@[j + x]);
            }
            if e < s@.len() {
                assert(space_test()(t[e - j]));
            }
            if first_where(t, space_test()) < e - j {
                assert(t[first_where(t, space_test())] == s@[j + first_where(t, space_test())]);
            }
        }
        assert(first_where(t, space_test()) == e - j);
        if k == 0 {
            let w = slice(s, j, e);
            assert(w@ =~= t.take(e - j));
            return Some(w);
        }
        assert(t.skip(e - j) =~= s@.skip(e as int));
        i = e;
        k = k - 1;
    }
}

/// The file name that a marker line names.
fn filename_of(line: &Vec<char>) -> (r: Vec<char>)
    ensures
        r@ == marker_filename(line@),
{
    match nth_word_of(line, 2) {
        Some(w) => {
            if w.len() >= 2 && w[0] == 'a' && w[1] == '/' {
                proof {
                    reveal_strlit("a/");
                    assert(w@.take(2) =~= "a/"@);
                }
                slice(&w, 2, w.len())
            } else {
                proof {
                    reveal_strlit("a/");
                    if starts_with(w@, "a/"@) {
                        assert(w@.take(2)[0] == 'a' && w@.take(2)[1] == '/');
                    }
                }
                let r = slice(&w, 0, w.len());
                assert(r@ =~= w@);
                r
            }
        },
        None => chars_of("unknown"),
    }
}

/// Parses the full display of one commit into its per-file diffs.
pub fn parse_commit_diff(output: &str) -> (r: CommitDiff)
    ensures
        r@ == parsed_diff(output@),
        r@.len() >= 1,
{
    let s = chars_of(output);
    let ls = lines_of(&s);
    let ghost all = lines(output@);
    let marker = chars_of("diff --git");
    let index_tag = chars_of("index ");
    let minus = chars_of("--- ");
    let plus = chars_of("+++ ");
    let mut files: Vec<FileDiff> = Vec::new();
    let mut has_open = false;
    let mut name: Vec<char> = Vec::new();
    let mut content: Vec<char> = Vec::new();
    let mut i: usize = 0;
    assert(all.take(0) =~= Seq::<Seq<char>>::empty());
    assert(files@.map_values(|f: FileDiff| f@) =~= Seq::<FileDiffView>::empty());
    while i < ls.len()
        invariant
            i <= ls@.len(),
            views(ls@) == all,
            marker@ == "diff --git"@,
            index_tag@ == "index "@,
            minus@ == "--- "@,
            plus@ == "+++ "@,
            diff_scan(all.take(i as int)) == (DiffScan {
                done: files@.map_values(|f: FileDiff| f@),
                open: if has_open {
                    Some(FileDiffView { filename: name@, diff_content: content@ })
                } else {
                    None
                },
            }),
        decreases ls@.len() - i,
    {
        let line = &ls[i];
        assert(line@ == all[i as int]);
        assert(all.take(i + 1).drop_last() =~= all.take(i as int));
        let ghost before = files@.map_values(|f: FileDiff| f@);
        if crate::text::has_prefix(line, &marker) {
            if has_open {
                files.push(FileDiff { filename: string_of(&name), diff_content: string_of(&content) });
                assert(files@.map_values(|f: FileDiff| f@) =~= before.push(
                    FileDiffView { filename: name@, diff_content: content@ },
                ));
            }
            name = filename_of(line);
            content = Vec::new();
            has_open = true;
        } else if has_open {
            let meta = crate::text::has_prefix(line, &index_tag) || crate::text::has_prefix(
                line,
                &minus,
            ) || crate::text::has_prefix(line, &plus);
            if !meta {
                let ghost prev = content@;
                append_chars(&mut content, line);
                content.push('\n');
                assert(content@ =~= prev + line@.push('\n'));
            }
        }
        i = i + 1;
    }
    assert(all.take(ls@.len() as int) =~= all);
    if has_open {
        let ghost before = files@.map_values(|f: FileDiff| f@);
        files.push(FileDiff { filename: string_of(&name), diff_content: string_of(&content) });
        assert(files@.map_values(|f: FileDiff| f@) =~= before.push(
            FileDiffView { filename: name@, diff_content: content@ },
        ));
    }
    if files.len() == 0 {
        let name = "(no changes)".to_string();
        let content = "No file changes in this commit.\n".to_string();
        files.push(FileDiff { filename: name, diff_content: content });
        assert(files@.map_values(|f: FileDiff| f@) =~= seq![no_changes()]);
    }
    CommitDiff { files }
}

/// The marker lines among `ls`, in order.
pub open spec fn marker_lines(ls: Seq<Seq<char>>) -> Seq<Seq<char>> {
    ls.filter(|l: Seq<char>| is_marker(l))
}

proof fn lemma_scan_counts(ls: Seq<Seq<char>>)
    ensures
        closed(diff_scan(ls)).len() == marker_lines(ls).len(),
        diff_scan(ls).open is Some <==> marker_lines(ls).len() > 0,
    decreases ls.len(),
{
    reveal(Seq::filter);
    if ls.len() > 0 {
        lemma_scan_counts(ls.drop_last());
    }
}

/// A commit display yields one file per `diff --git` marker line; with no
/// marker line it yields exactly the placeholder file.
pub proof fn lemma_diff_file_per_marker(s: Seq<char>)
    ensures
        marker_lines(lines(s)).len() == 0 ==> parsed_diff(s) == seq![no_changes()],
        marker_lines(lines(s)).len() > 0 ==> parsed_diff(s).len() == marker_lines(lines(s)).len(),
{
    lemma_scan_counts(lines(s));
}

/// The lines `ls`, each followed by a newline, one after another.
pub open spec fn joined_lines(ls: Seq<Seq<char>>) -> Seq<char>
    decreases ls.len(),
{
    if ls.len() == 0 {
        seq![]
    } else {
        joined_lines(ls.drop_last()) + ls.last().push('\n')
    }
}

/// Whether `ls` are lines (no newline in any) none of which is diff metadata
/// (a `diff --git`, `index `, `--- ` or `+++ ` line).
pub open spec fn clean_lines(ls: Seq<Seq<char>>) -> bool {
    forall|j: int| 0 <= j < ls.len() ==> !is_metadata(#[trigger] ls[j]) && !contains(ls[j], '\n')
}

/// Whether `c` is made of whole lines none of which is diff metadata.
pub open spec fn metadata_free(c: Seq<char>) -> bool {
    exists|ls: Seq<Seq<char>>| #[trigger] joined_lines(ls) == c && clean_lines(ls)
}

/// Whether every file of a scan, closed or open, has metadata-free content.
pub open spec fn scan_metadata_free(st: DiffScan) -> bool {
    &&& forall|k: int| 0 <= k < st.done.len() ==> metadata_free(#[trigger] st.done[k].diff_content)
    &&& st.open matches Some(f) ==> metadata_free(f.diff_content)
}

proof fn lemma_scan_metadata_free(ls: Seq<Seq<char>>)
    requires
        forall|j: int| 0 <= j < ls.len() ==> !contains(#[trigger] ls[j], '\n'),
    ensures
        scan_metadata_free(diff_scan(ls)),
    decreases ls.len(),
{
    if ls.len() > 0 {
        let st = diff_scan(ls.drop_last());
        let line = ls.last();
        assert forall|j: int| 0 <= j < ls.drop_last().len() implies !contains(
            #[trigger] ls.drop_last()[j],
            '\n',
        ) by {
            assert(ls.drop_last()[j] == ls[j]);
        }
        lemma_scan_metadata_free(ls.drop_last());
        assert(!contains(ls[ls.len() - 1], '\n'));
        let post = diff_step(st, line);
        assert(post == diff_scan(ls));
        if is_marker(line) {
            let none = Seq::<Seq<char>>::empty();
            assert(joined_lines(none) == Seq::<char>::empty());
            assert(metadata_free(Seq::<char>::empty()));
            if let Some(f) = st.open {
                assert forall|k: int| 0 <= k < post.done.len() implies metadata_free(
                    #[trigger] post.done[k].diff_content,
                ) by {
                    if k < st.done.len() {
                        assert(post.done[k] == st.done[k]);
                    }
                }
            }
        } else if let Some(f) = st.open {
            if !is_metadata(line) {
                let w = choose|w: Seq<Seq<char>>|
                    #[trigger] joined_lines(w) == f.diff_content && clean_lines(w);
                let w2 = w.push(line);
                assert(w2.drop_last() =~= w);
                assert(joined_lines(w2) == f.diff_content + line.push('\n'));
                assert forall|j: int| 0 <= j < w2.len() implies !is_metadata(#[trigger] w2[j])
                    && !contains(w2[j], '\n') by {
                    if j < w.len() {
                        assert(w2[j] == w[j]);
                    }
                }
            }
        }
    }
}

proof fn lemma_lines_of_joined(ls: Seq<Seq<char>>)
    requires
        forall|j: int| 0 <= j < ls.len() ==> !contains(#[trigger] ls[j], '\n'),
    ensures
        split(joined_lines(ls), '\n') == ls.push(Seq::empty()),
        lines(joined_lines(ls)) == ls.map_values(|l: Seq<char>| strip_cr(l)),
    decreases ls.len(),
{
    if ls.len() == 0 {
        assert(joined_lines(ls) =~= Seq::<char>::empty());
        assert(ls.push(Seq::empty()) =~= seq![Seq::<char>::empty()]);
    } else {
        let prev = ls.drop_last();
        let l = ls.last();
        assert forall|j: int| 0 <= j < prev.len() implies !contains(#[trigger] prev[j], '\n') by {
            assert(prev[j] == ls[j]);
        }
        assert(!contains(ls[ls.len() - 1], '\n'));
        lemma_lines_of_joined(prev);
        let y = joined_lines(prev) + l;
        lemma_split_append(joined_lines(prev), l, '\n');
        lemma_split_nonempty(joined_lines(prev), '\n');
        assert(joined_lines(prev) + l.push('\n') =~= y.push('\n'));
        assert(y.push('\n').drop_last() =~= y);
        assert(Seq::<char>::empty() + l =~= l);
        assert(split(y, '\n') =~= ls);
        assert(split(joined_lines(ls), '\n') =~= ls.push(Seq::empty()));
    }
    let p = split(joined_lines(ls), '\n');
    assert(p.drop_last() =~= ls);
    assert(lines(joined_lines(ls)) =~= ls.map_values(|l: Seq<char>| strip_cr(l)));
}

proof fn lemma_strip_keeps_clean(l: Seq<char>)
    requires
        !is_metadata(l),
    ensures
        !is_metadata(strip_cr(l)),
{
    let t = strip_cr(l);
    assert forall|p: Seq<char>| starts_with(t, p) implies starts_with(l, p) by {
        assert(l.take(p.len() as int) =~= t.take(p.len() as int));
    }
}

/// The content of every file of a commit display is made of whole lines, none
/// of which is diff metadata, so no line of it (as `str::lines` yields them) is
/// a `diff --git`, `index `, `--- ` or `+++ ` line; the placeholder file stands
/// alone.
pub proof fn lemma_diff_content_has_no_metadata(s: Seq<char>)
    ensures
        forall|k: int|
            0 <= k < parsed_diff(s).len() ==> #[trigger] parsed_diff(s)[k] == no_changes()
                || metadata_free(parsed_diff(s)[k].diff_content),
        forall|k: int, m: int|
            0 <= k < parsed_diff(s).len() && parsed_diff(s)[k] != no_changes() && 0 <= m
                < lines(parsed_diff(s)[k].diff_content).len() ==> !is_metadata(
                #[trigger] lines(#[trigger] parsed_diff(s)[k].diff_content)[m],
            ),
{
    let st = diff_scan(lines(s));
    lemma_lines_have_no_newline(s);
    lemma_scan_metadata_free(lines(s));
    let files = closed(st);
    assert forall|k: int| 0 <= k < files.len() implies metadata_free(
        #[trigger] files[k].diff_content,
    ) by {
        if k < st.done.len() {
            assert(files[k] == st.done[k]);
        }
    }
    assert forall|k: int, m: int|
        0 <= k < parsed_diff(s).len() && parsed_diff(s)[k] != no_changes() && 0 <= m < lines(
            parsed_diff(s)[k].diff_content,
        ).len() implies !is_metadata(
        #[trigger] lines(#[trigger] parsed_diff(s)[k].diff_content)[m],
    ) by {
        let c = parsed_diff(s)[k].diff_content;
        assert(metadata_free(c));
        let w = choose|w: Seq<Seq<char>>| #[trigger] joined_lines(w) == c && clean_lines(w);
        assert forall|j: int| 0 <= j < w.len() implies !contains(#[trigger] w[j], '\n') by {
            assert(!is_metadata(w[j]) && !contains(w[j], '\n'));
        }
        lemma_lines_of_joined(w);
        assert(lines(c)[m] == strip_cr(w[m]));
        assert(!is_metadata(w[m]));
        lemma_strip_keeps_clean(w[m]);
    }
}

} // verus!
