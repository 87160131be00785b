use gitview::cursor::{next_index, previous_index};
use gitview::input::{handle_key_event, Key};
use gitview::log::parse_log_output;
use gitview::model::SearchFilter;
use gitview::stash::parse_stash_output;
use gitview::state::{is_conflict, App, Awaiting, GitCommand, MessageType, Mode, Panel};
use gitview::status::parse_status_output;

fn sample_app() -> App {
    let commits = parse_log_output("* abc1234 (HEAD -> main) First\n* def5678 Second");
    let files = parse_status_output("M  a.rs\n M b.rs\n");
    let stashes = parse_stash_output("stash@{0}: On main: saved");
    App::new(commits, files, stashes, Vec::new())
}

fn fingerprint(app: &App) -> String {
    format!(
        "{:?}|{:?}|{}|{:?}|{:?}|{}|{:?}|{:?}|{:?}|{:?}|{:?}|{:?}|{}|{:?}",
        app.current_panel,
        app.selected_commit,
        app.show_diff,
        app.selected_file,
        app.active_filter,
        app.diff_scroll,
        app.selected_status,
        app.selected_stash,
        app.selected_branch,
        app.status_message,
        app.status_message_type,
        app.awaiting,
        app.help_visible,
        app.commits.len(),
    )
}

#[test]
fn cursor_wraps_both_ways() {
    assert_eq!(next_index(Some(4), 5), Some(0));
    assert_eq!(previous_index(Some(0), 5), Some(4));
    assert_eq!(next_index(Some(1), 5), Some(2));
    assert_eq!(previous_index(Some(3), 5), Some(2));
    assert_eq!(next_index(None, 0), None);
    assert_eq!(previous_index(None, 0), None);
    assert_eq!(next_index(None, 3), Some(0));
}

#[test]
fn app_cursor_wraps_on_commits() {
    let mut app = sample_app();
    assert_eq!(app.selected_commit, Some(0));
    app.previous();
    assert_eq!(app.selected_commit, Some(1));
    app.next();
    assert_eq!(app.selected_commit, Some(0));
    let mut empty = App::new(Vec::new(), Vec::new(), Vec::new(), Vec::new());
    empty.next();
    empty.previous();
    assert_eq!(empty.selected_commit, None);
    empty.next_stash();
    assert_eq!(empty.selected_stash, None);
}

#[test]
fn enter_then_cancel_restores_state() {
    let mut app = sample_app();
    let before = fingerprint(&app);
    app.enter_search_mode();
    app.add_search_char('x');
    assert!(matches!(app.mode, Mode::Search { .. }));
    app.exit_search_mode();
    assert!(matches!(app.mode, Mode::Normal));
    assert_eq!(fingerprint(&app), before);

    for key in ['c', 's'] {
        let mut app = sample_app();
        let before = fingerprint(&app);
        assert!(handle_key_event(&mut app, Key::Char(key)).is_none());
        assert!(matches!(
            app.mode,
            Mode::CommitMessageInput { .. } | Mode::StashMessageInput { .. }
        ));
        assert!(handle_key_event(&mut app, Key::Esc).is_none());
        assert!(matches!(app.mode, Mode::Normal));
        assert_eq!(fingerprint(&app), before);
    }
}

#[test]
fn search_query_sets_author_or_message_filter() {
    let mut app = sample_app();
    app.enter_search_mode();
    for c in "@alice".chars() {
        app.add_search_char(c);
    }
    let cmd = app.execute_search();
    assert!(matches!(app.mode, Mode::Normal));
    assert_eq!(app.active_filter, None);
    assert!(matches!(cmd, Some(GitCommand::Log { filter: Some(SearchFilter::Author(ref a)) }) if a == "alice"));
    app.handle_reply(Ok("* 1111111 Only one".to_string()));
    assert_eq!(app.active_filter, Some(SearchFilter::Author("alice".to_string())));
    assert_eq!(app.commits.len(), 1);
    assert_eq!(app.selected_commit, Some(0));

    app.enter_search_mode();
    app.add_search_char('f');
    app.add_search_char('x');
    app.delete_search_char();
    app.execute_search();
    app.handle_reply(Ok("* 2222222 Two".to_string()));
    assert_eq!(app.active_filter, Some(SearchFilter::Message("f".to_string())));

    app.enter_search_mode();
    let cmd = app.execute_search();
    assert!(matches!(cmd, Some(GitCommand::Log { filter: None })));
    app.handle_reply(Ok("* 2222222 Two".to_string()));
    assert_eq!(app.active_filter, None);
}

#[test]
fn failed_refresh_keeps_list_and_reports_error() {
    let mut app = sample_app();
    app.enter_search_mode();
    app.add_search_char('x');
    app.execute_search();
    app.handle_reply(Err("boom".to_string()));
    assert_eq!(app.commits.len(), 2);
    assert_eq!(app.active_filter, None);
    assert_eq!(app.status_message.as_deref(), Some("Failed to load commits: boom"));
    assert_eq!(app.status_message_type, MessageType::Error);
    assert_eq!(app.awaiting, Awaiting::Nothing);
}

#[test]
fn conflicts_are_information() {
    assert!(is_conflict("CONFLICT (content): Merge conflict in a.rs"));
    assert!(is_conflict("error: could not apply abc... conflict"));
    assert!(!is_conflict("fatal: bad revision"));
    assert!(is_conflict("Conflict in a.txt"));
    assert!(is_conflict("merge CoNfLiCt"));
    assert!(!is_conflict("conflic"));
    let mut app = sample_app();
    let cmd = app.cherry_pick_commit();
    assert!(matches!(cmd, Some(GitCommand::CherryPick { ref hash }) if hash == "abc1234"));
    app.handle_reply(Err("Cherry-pick failed: CONFLICT (content)".to_string()));
    assert_eq!(app.status_message_type, MessageType::Info);
    assert_eq!(
        app.status_message.as_deref(),
        Some("Cherry-pick has conflicts. Resolve them and run 'git cherry-pick --continue'")
    );
    app.checkout_selected_commit();
    app.handle_reply(Err("Checkout failed: CONFLICT".to_string()));
    assert_eq!(app.status_message_type, MessageType::Error);
    assert_eq!(app.status_message.as_deref(), Some("Error: Checkout failed: CONFLICT"));
}

#[test]
fn staging_reports_and_refreshes_status() {
    let mut app = sample_app();
    // listing order: staged a.rs, then unstaged b.rs
    app.next_status_file();
    let cmd = app.toggle_stage();
    assert!(matches!(cmd, Some(GitCommand::Stage { ref path }) if path == "b.rs"));
    app.handle_reply(Ok("Staged: b.rs".to_string()));
    assert_eq!(app.status_message.as_deref(), Some("Staged: b.rs"));
    assert_eq!(app.status_message_type, MessageType::Success);
    let next = app.next_request();
    assert!(matches!(next, Some(GitCommand::Status)));
    app.handle_reply(Ok("M  a.rs\nM  b.rs\n".to_string()));
    assert_eq!(app.status_files.len(), 2);
    assert!(app.status_files[1].staged);
    assert_eq!(app.selected_status, Some(0));
    assert!(app.next_request().is_none());
}

#[test]
fn pop_stash_refreshes_status_then_stashes() {
    let mut app = sample_app();
    let cmd = app.pop_selected_stash();
    assert!(matches!(cmd, Some(GitCommand::PopStash { index: 0 })));
    app.handle_reply(Ok("Popped stash@{0}".to_string()));
    assert!(matches!(app.next_request(), Some(GitCommand::Status)));
    app.handle_reply(Ok(String::new()));
    assert!(matches!(app.next_request(), Some(GitCommand::StashList)));
    app.handle_reply(Ok(String::new()));
    assert!(app.stashes.is_empty());
    assert_eq!(app.selected_stash, None);
    assert!(app.next_request().is_none());
}

#[test]
fn branch_refresh_reads_local_then_remote() {
    let mut app = sample_app();
    assert!(matches!(app.refresh_branches(), Some(GitCommand::LocalBranches)));
    app.handle_reply(Ok("* main abc1234 Msg\n".to_string()));
    assert!(matches!(app.next_request(), Some(GitCommand::RemoteBranches)));
    app.handle_reply(Ok("  origin/main abc1234 Msg\n".to_string()));
    assert_eq!(app.branches.len(), 2);
    assert_eq!(app.branches[0].name, "main");
    assert!(app.branches[1].is_remote);
    assert_eq!(app.selected_branch, Some(0));
    assert_eq!(app.delete_selected_branch().is_none(), true);
    assert_eq!(app.status_message.as_deref(), Some("Cannot delete current branch"));
}

#[test]
fn diff_view_and_tree_view() {
    let mut app = sample_app();
    app.switch_to_panel(Panel::Log);
    let cmd = handle_key_event(&mut app, Key::Enter);
    assert!(matches!(cmd, Some(GitCommand::Show { ref hash }) if hash == "abc1234"));
    app.handle_reply(Ok("diff --git a/x b/x\n+1\ndiff --git a/y b/y\n+2\n".to_string()));
    assert!(app.show_diff);
    assert_eq!(app.selected_file, Some(0));
    app.scroll_diff_down();
    app.scroll_diff_page_down();
    assert_eq!(app.diff_scroll, 11);
    app.scroll_diff_page_up();
    app.scroll_diff_page_up();
    assert_eq!(app.diff_scroll, 0);
    app.previous_file();
    assert_eq!(app.selected_file, Some(1));
    app.toggle_diff();
    assert!(!app.show_diff && app.current_diff.is_none());

    let cmd = app.toggle_tree_view();
    assert!(cmd.is_some());
    app.handle_reply(Ok(String::new()));
    assert!(matches!(app.mode, Mode::TreeView { file_selected: false }));
    assert_eq!(app.current_diff.as_ref().map(|d| d.files.len()), Some(1));
    handle_key_event(&mut app, Key::Enter);
    assert!(matches!(app.mode, Mode::TreeView { file_selected: true }));
    handle_key_event(&mut app, Key::Esc);
    assert!(matches!(app.mode, Mode::TreeView { file_selected: false }));
    handle_key_event(&mut app, Key::Esc);
    assert!(matches!(app.mode, Mode::Normal));
    assert!(app.current_diff.is_none());
}

#[test]
fn help_overlay_takes_every_key() {
    let mut app = sample_app();
    handle_key_event(&mut app, Key::Char('?'));
    assert!(app.help_visible);
    assert!(handle_key_event(&mut app, Key::Char('q')).is_none());
    assert!(!app.should_quit);
    assert!(handle_key_event(&mut app, Key::Char('2')).is_none());
    assert_eq!(app.current_panel, Panel::Status);
    handle_key_event(&mut app, Key::Esc);
    assert!(!app.help_visible);
    handle_key_event(&mut app, Key::Char('q'));
    assert!(app.should_quit);
}

#[test]
fn empty_names_and_messages_are_refused() {
    let mut app = sample_app();
    app.enter_commit_message_mode();
    assert!(app.execute_commit().is_none());
    assert!(matches!(app.mode, Mode::Normal));
    assert_eq!(app.status_message.as_deref(), Some("Commit message cannot be empty"));
    assert_eq!(app.status_message_type, MessageType::Error);
    app.enter_new_branch_mode();
    assert!(app.execute_create_new_branch().is_none());
    assert_eq!(app.status_message.as_deref(), Some("Branch name cannot be empty"));
    app.enter_branch_input_mode();
    app.add_branch_char('f');
    let cmd = app.create_branch_from_commit();
    assert!(matches!(cmd, Some(GitCommand::CreateBranch { ref name, ref hash }) if name == "f" && hash == "abc1234"));
}

#[test]
fn amend_opens_message_with_last_commit_text() {
    let mut app = sample_app();
    assert!(matches!(app.enter_amend_mode(), Some(GitCommand::LastCommitMessage)));
    app.handle_reply(Ok("Old message\n\n".to_string()));
    match &app.mode {
        Mode::CommitMessageInput { message, amend } => {
            assert_eq!(message, "Old message");
            assert!(*amend);
        }
        _ => panic!("not in commit message input"),
    }
    app.exit_commit_message_mode();
    assert!(matches!(app.mode, Mode::Normal));
}

#[test]
fn refusals_and_failures_report_errors() {
    let mut app = sample_app();
    app.refresh_branches();
    app.handle_reply(Ok("* main abc1234 Msg\n  topic 2222222 T\n".to_string()));
    app.next_request();
    app.handle_reply(Ok("  origin/main abc1234 Msg\n".to_string()));
    assert_eq!(app.branches.len(), 3);

    assert!(app.switch_to_selected_branch().is_none());
    assert_eq!(app.status_message.as_deref(), Some("Already on this branch"));
    assert_eq!(app.status_message_type, MessageType::Info);
    assert!(app.merge_selected_branch().is_none());
    assert_eq!(app.status_message.as_deref(), Some("Cannot merge a branch into itself"));
    app.next_branch();
    app.next_branch();
    assert!(app.delete_selected_branch().is_none());
    assert_eq!(
        app.status_message.as_deref(),
        Some("Cannot delete remote branches from this view")
    );
    app.previous_branch();
    assert!(matches!(app.delete_selected_branch(), Some(GitCommand::DeleteBranch { ref name }) if name == "topic"));
    app.handle_reply(Err("Delete branch failed: not merged".to_string()));
    assert_eq!(app.status_message.as_deref(), Some("Error: Delete branch failed: not merged"));
    assert_eq!(app.status_message_type, MessageType::Error);
    assert!(app.next_request().is_none());

    // the first listed status entry is the staged one
    assert!(app.discard_selected_file().is_none());
    assert_eq!(
        app.status_message.as_deref(),
        Some("Cannot discard staged file. Unstage it first.")
    );

    app.refresh_status();
    app.handle_reply(Err("x".to_string()));
    assert_eq!(app.status_message.as_deref(), Some("Failed to refresh status: x"));
    assert_eq!(app.status_files.len(), 2);
    app.refresh_stashes();
    app.handle_reply(Err("y".to_string()));
    assert_eq!(app.status_message.as_deref(), Some("Failed to refresh stashes: y"));
    app.refresh_branches();
    app.handle_reply(Err("z".to_string()));
    assert_eq!(app.status_message.as_deref(), Some("Failed to refresh branches: z"));
    assert_eq!(app.branches.len(), 3);

    let cmd = app.toggle_status_diff();
    assert!(matches!(cmd, Some(GitCommand::FileDiff { ref path, staged: true }) if path == "a.rs"));
    app.handle_reply(Err("w".to_string()));
    assert!(!app.status_show_diff);
    assert_eq!(app.status_message.as_deref(), Some("Failed to load diff: w"));
    app.toggle_status_diff();
    app.handle_reply(Ok("@@ -1 +1 @@\n".to_string()));
    assert!(app.status_show_diff);
    assert_eq!(app.status_diff_content.as_deref(), Some("@@ -1 +1 @@\n"));

    app.toggle_diff();
    app.handle_reply(Err("bad object".to_string()));
    assert!(!app.show_diff);
    assert_eq!(app.status_message.as_deref(), Some("Failed to load diff: bad object"));

    // Esc first clears the message, then, with no filter set, quits.
    handle_key_event(&mut app, Key::Esc);
    assert!(app.status_message.is_none());
    assert!(!app.should_quit);
    handle_key_event(&mut app, Key::Esc);
    assert!(app.should_quit);
}

#[test]
fn failed_search_keeps_the_old_filter() {
    let mut app = sample_app();
    app.enter_search_mode();
    app.add_search_char('a');
    app.execute_search();
    app.handle_reply(Ok("* 1111111 a".to_string()));
    assert_eq!(app.active_filter, Some(SearchFilter::Message("a".to_string())));
    app.enter_search_mode();
    app.add_search_char('b');
    app.execute_search();
    app.handle_reply(Err("boom".to_string()));
    assert_eq!(app.active_filter, Some(SearchFilter::Message("a".to_string())));
    assert_eq!(app.commits.len(), 1);
    assert_eq!(app.status_message_type, MessageType::Error);
}

#[test]
fn mixed_case_conflict_is_information() {
    let mut app = sample_app();
    app.revert_selected_commit();
    app.handle_reply(Err("Revert failed: Conflict in a.txt".to_string()));
    assert_eq!(app.status_message_type, MessageType::Info);
    assert_eq!(
        app.status_message.as_deref(),
        Some("Revert has conflicts. Resolve them and run 'git revert --continue'")
    );
}

#[test]
fn y_asks_to_copy_the_selected_hash() {
    let mut app = sample_app();
    handle_key_event(&mut app, Key::Char('2'));
    let cmd = handle_key_event(&mut app, Key::Char('y'));
    assert!(matches!(cmd, Some(GitCommand::CopyToClipboard { ref text }) if text == "abc1234"));
    app.handle_reply(Ok("Copied hash: abc1234".to_string()));
    assert_eq!(app.status_message.as_deref(), Some("Copied hash: abc1234"));
    assert_eq!(app.status_message_type, MessageType::Success);
}
