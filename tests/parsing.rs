use gitview::branch::{parse_branch_output, parse_branches};
use gitview::diff::parse_commit_diff;
use gitview::log::{parse_decoration_string, parse_decorations_and_message, parse_log_output};
use gitview::model::{Decoration, FileStatus};
use gitview::stash::parse_stash_output;
use gitview::status::{
    get_status_list_len, list_index_to_file_index, parse_status_output, status_row_of,
};
use gitview::syntax::{classify_diff_line, get_extension, DiffLine};

#[test]
fn test_parse_simple_log() {
    let input = "* abc1234 Initial commit\n* def5678 Second commit";
    let commits = parse_log_output(input);

    assert_eq!(commits.len(), 2);
    assert_eq!(commits[0].hash, "abc1234");
    assert_eq!(commits[0].message, "Initial commit");
}

#[test]
fn test_parse_with_graph() {
    let input = "* | abc1234 Merge commit\n|\\ \n| * def5678 Feature branch";
    let commits = parse_log_output(input);

    assert!(commits.len() >= 2);
    assert_eq!(commits[0].hash, "abc1234");
}

#[test]
fn log_end_to_end_two_commits_in_order() {
    let commits = parse_log_output("* abc1234 Initial commit\n* def5678 Second commit");
    assert_eq!(commits.len(), 2);
    assert_eq!(commits[0].hash, "abc1234");
    assert_eq!(commits[1].hash, "def5678");
    assert_eq!(commits[1].message, "Second commit");
    assert!(commits[0].decorations.is_empty());
    assert!(commits[1].decorations.is_empty());
    assert_eq!(commits[0].graph, "* ");
}

#[test]
fn log_counts_only_lines_with_hex_digits() {
    let input = "* abc1234 One\n\n|\\ \n| * 0f00baa Two\n|/  \n* 1234567";
    let commits = parse_log_output(input);
    assert_eq!(commits.len(), 3);
    assert_eq!(commits[1].graph, "| * ");
    assert_eq!(commits[1].hash, "0f00baa");
    assert_eq!(commits[2].hash, "1234567");
    assert_eq!(commits[2].message, "");
}

#[test]
fn log_with_decorations() {
    let input = "* abc1234 (HEAD -> main, origin/main, tag: v1.0) Release";
    let commits = parse_log_output(input);
    assert_eq!(commits.len(), 1);
    assert_eq!(commits[0].message, "Release");
    assert_eq!(
        commits[0].decorations,
        vec![
            Decoration::Head,
            Decoration::Branch("main".to_string()),
            Decoration::RemoteBranch("origin/main".to_string()),
            Decoration::Tag("v1.0".to_string()),
        ]
    );
}

#[test]
fn head_arrow_local_branch() {
    assert_eq!(
        parse_decoration_string("HEAD -> main"),
        vec![Decoration::Head, Decoration::Branch("main".to_string())]
    );
}

#[test]
fn head_arrow_remote_branch() {
    assert_eq!(
        parse_decoration_string("HEAD -> origin/main"),
        vec![Decoration::Head, Decoration::RemoteBranch("origin/main".to_string())]
    );
}

#[test]
fn decoration_list_edge_cases() {
    assert_eq!(
        parse_decoration_string("HEAD, , feature ,tag: "),
        vec![
            Decoration::Head,
            Decoration::Branch("feature".to_string()),
            Decoration::Branch("tag:".to_string()),
        ]
    );
    assert!(parse_decoration_string("").is_empty());
}

#[test]
fn decorations_and_message_split() {
    let (d, m) = parse_decorations_and_message("  (tag: v2) Fix bug  ");
    assert_eq!(d, vec![Decoration::Tag("v2".to_string())]);
    assert_eq!(m, "Fix bug");
    let (d, m) = parse_decorations_and_message("Plain message");
    assert!(d.is_empty());
    assert_eq!(m, "Plain message");
    let (d, m) = parse_decorations_and_message("(unclosed message");
    assert!(d.is_empty());
    assert_eq!(m, "(unclosed message");
}

#[test]
fn commit_diff_two_files() {
    let text = "commit abc\nAuthor: Someone\n\n    Message\n\
diff --git a/x b/x\nindex 111..222 100644\n--- a/x\n+++ b/x\n@@ -1 +1 @@\n-old\n+new\n\
diff --git a/y b/y\nindex 333..444 100644\n--- a/y\n+++ b/y\n@@ -0,0 +1 @@\n+added\n";
    let diff = parse_commit_diff(text);
    assert_eq!(diff.files.len(), 2);
    assert_eq!(diff.files[0].filename, "x");
    assert_eq!(diff.files[1].filename, "y");
    assert_eq!(diff.files[0].diff_content, "@@ -1 +1 @@\n-old\n+new\n");
    assert_eq!(diff.files[1].diff_content, "@@ -0,0 +1 @@\n+added\n");
    for f in &diff.files {
        assert!(!f.diff_content.contains("index "));
        assert!(!f.diff_content.contains("--- "));
        assert!(!f.diff_content.contains("+++ "));
    }
}

#[test]
fn commit_diff_without_files_gives_placeholder() {
    let diff = parse_commit_diff("commit abc\nAuthor: Someone\n\n    Empty commit\n");
    assert_eq!(diff.files.len(), 1);
    assert_eq!(diff.files[0].filename, "(no changes)");
    assert_eq!(diff.files[0].diff_content, "No file changes in this commit.\n");
    let empty = parse_commit_diff("");
    assert_eq!(empty.files.len(), 1);
    assert_eq!(empty.files[0].filename, "(no changes)");
}

#[test]
fn commit_diff_strips_one_a_prefix() {
    let diff = parse_commit_diff("diff --git a/a/src/lib.rs b/a/src/lib.rs\n+x\n");
    assert_eq!(diff.files[0].filename, "a/src/lib.rs");
    let odd = parse_commit_diff("diff --git\n+x\n");
    assert_eq!(odd.files[0].filename, "unknown");
}

#[test]
fn status_staged_modified() {
    let files = parse_status_output("M  foo.txt");
    assert_eq!(files.len(), 1);
    assert_eq!(files[0].path, "foo.txt");
    assert_eq!(files[0].status, FileStatus::Modified);
    assert!(files[0].staged);
}

#[test]
fn status_unstaged_modified() {
    let files = parse_status_output(" M foo.txt");
    assert_eq!(files.len(), 1);
    assert_eq!(files[0].path, "foo.txt");
    assert_eq!(files[0].status, FileStatus::Modified);
    assert!(!files[0].staged);
}

#[test]
fn status_untracked_is_one_entry() {
    let files = parse_status_output("?? bar.txt");
    assert_eq!(files.len(), 1);
    assert_eq!(files[0].path, "bar.txt");
    assert_eq!(files[0].status, FileStatus::Untracked);
    assert!(!files[0].staged);
}

#[test]
fn status_both_columns_and_codes() {
    let files = parse_status_output("MM a.rs\nA  b.rs\n D c.rs\nR  d.rs\nX  e.rs\nab\n");
    assert_eq!(files.len(), 6);
    assert!(files[0].staged && files[0].status == FileStatus::Modified);
    assert!(!files[1].staged && files[1].path == "a.rs");
    assert_eq!(files[2].status, FileStatus::Added);
    assert_eq!(files[3].status, FileStatus::Deleted);
    assert!(!files[3].staged);
    assert_eq!(files[4].status, FileStatus::Renamed);
    assert_eq!(files[5].status, FileStatus::Modified);
}

#[test]
fn status_rows_with_headers() {
    let files = parse_status_output("M  s1\n M u1\nA  s2\n?? u2\n");
    // rows: 0 staged header, 1 s1, 2 s2, 3 unstaged header, 4 u1, 5 u2
    assert_eq!(get_status_list_len(&files), 6);
    assert_eq!(list_index_to_file_index(&files, 0), None);
    assert_eq!(list_index_to_file_index(&files, 1), Some(0));
    assert_eq!(list_index_to_file_index(&files, 2), Some(2));
    assert_eq!(list_index_to_file_index(&files, 3), None);
    assert_eq!(list_index_to_file_index(&files, 4), Some(1));
    assert_eq!(list_index_to_file_index(&files, 5), Some(3));
    assert_eq!(list_index_to_file_index(&files, 6), None);
    assert_eq!(status_row_of(&files, 2), 4);
    let none = parse_status_output("");
    assert_eq!(get_status_list_len(&none), 1);
}

#[test]
fn stash_index_is_position() {
    let stashes = parse_stash_output(
        "stash@{5}: WIP on main: abc123 work\nstash@{9}: On feature: saved\nstash@{0}: custom text",
    );
    assert_eq!(stashes.len(), 3);
    assert_eq!(stashes[0].index, 0);
    assert_eq!(stashes[1].index, 1);
    assert_eq!(stashes[2].index, 2);
    assert_eq!(stashes[0].branch, "main");
    assert_eq!(stashes[0].message, "abc123 work");
    assert_eq!(stashes[1].branch, "feature");
    assert_eq!(stashes[1].message, "saved");
    assert_eq!(stashes[2].branch, "unknown");
    assert_eq!(stashes[2].message, "custom text");
}

#[test]
fn stash_line_without_colon_keeps_positions() {
    let stashes = parse_stash_output("garbage\nstash@{0}: On dev: x");
    assert_eq!(stashes.len(), 1);
    assert_eq!(stashes[0].index, 1);
}

#[test]
fn branch_listings() {
    let local = "* main    abc1234 [origin/main] Latest work\n  feature def5678 Feature\n";
    let remote = "  origin/HEAD -> origin/main\n  origin/main abc1234 Latest work\n";
    let branches = parse_branches(local, remote);
    assert_eq!(branches.len(), 3);
    assert_eq!(branches[0].name, "main");
    assert!(branches[0].is_current && !branches[0].is_remote);
    assert_eq!(branches[0].commit_hash, "abc1234");
    assert_eq!(branches[0].commit_message, "[origin/main] Latest work");
    assert!(!branches[1].is_current);
    assert_eq!(branches[2].name, "origin/main");
    assert!(branches[2].is_remote && !branches[2].is_current);
    let remotes = parse_branch_output("* origin/x 1111111 m", true);
    assert!(!remotes[0].is_current);
}

#[test]
fn extension_and_line_kinds() {
    assert_eq!(get_extension("src/main.rs"), Some("rs".to_string()));
    assert_eq!(get_extension("Makefile"), None);
    assert_eq!(get_extension(".bashrc"), None);
    assert_eq!(classify_diff_line("@@ -1 +1 @@"), DiffLine::Hunk("@@ -1 +1 @@".to_string()));
    assert_eq!(classify_diff_line("+let x;"), DiffLine::Added("let x;".to_string()));
    assert_eq!(classify_diff_line("-y"), DiffLine::Removed("y".to_string()));
    assert_eq!(classify_diff_line(" z"), DiffLine::Context("z".to_string()));
    assert_eq!(classify_diff_line(""), DiffLine::Context(String::new()));
    assert_eq!(classify_diff_line("\\ No newline"), DiffLine::Other("\\ No newline".to_string()));
}

#[test]
fn crlf_lines_are_split() {
    let files = parse_status_output("M  a.txt\r\n M b.txt\r\n");
    assert_eq!(files.len(), 2);
    assert_eq!(files[0].path, "a.txt");
    assert_eq!(files[1].path, "b.txt");
}
