//! Maps a key press, in the current mode, to one transition of the state.
use vstd::prelude::*;

use crate::state::{
    App, GitCommand, Mode, Panel, apply_selected_stash_post, checkout_selected_commit_post,
    cherry_pick_commit_post, clear_search_post, clear_status_post, copy_commit_hash_post,
    create_branch_from_commit_post, delete_selected_branch_post, discard_selected_file_post,
    drop_selected_stash_post, enter_amend_mode_post, enter_branch_input_mode_post,
    enter_commit_message_mode_post, enter_new_branch_mode_post, enter_search_mode_post,
    enter_stash_input_mode_post, execute_commit_post, execute_create_new_branch_post,
    execute_create_stash_post, execute_search_post, exit_tree_view_post, fetch_from_remote_post,
    merge_selected_branch_post, mode_set, next_branch_post, next_file_post, next_post,
    next_stash_post, next_status_file_post, next_tree_file_post, pop_selected_stash_post,
    previous_branch_post, previous_file_post, previous_post, previous_stash_post,
    previous_status_file_post, previous_tree_file_post, pull_from_remote_post,
    push_to_remote_post, quit_post, revert_selected_commit_post, scroll_diff_down_post,
    scroll_diff_page_down_post, scroll_diff_page_up_post, scroll_diff_up_post,
    scroll_status_diff_down_post, scroll_status_diff_page_down_post,
    scroll_status_diff_page_up_post, scroll_status_diff_up_post, select_tree_file_post,
    stage_all_files_post, switch_to_selected_branch_post, toggle_diff_post, toggle_stage_post,
    toggle_status_diff_post, toggle_tree_view_post, unstage_all_files_post,
};

verus! {

/// A key press, as far as the interface tells keys apart.
#[derive(Debug, Clone, Copy, PartialEq, Eq, Structural)]
pub enum Key {
    Char(char),
    Enter,
    Esc,
    Backspace,
    Up,
    Down,
    Left,
    Right,
    PageUp,
    PageDown,
    Other,
}

/// The text being typed in an input mode.
pub open spec fn typed(m: Mode) -> Seq<char> {
    match m {
        Mode::Search { query } => query@,
        Mode::BranchNameInput { name, .. } => name@,
        Mode::CommitMessageInput { message, .. } => message@,
        Mode::StashMessageInput { message } => message@,
        Mode::NewBranchNameInput { name } => name@,
        _ => seq![],
    }
}

/// Whether `b` is the same input mode as `a`, with the same captured intent
/// (the commit of a new branch, plain commit or amend).
pub open spec fn same_input(a: Mode, b: Mode) -> bool {
    match a {
        Mode::Search { .. } => b is Search,
        Mode::BranchNameInput { hash, .. } => b matches Mode::BranchNameInput { hash: h, .. } && h
            == hash,
        Mode::CommitMessageInput { amend, .. } => b matches Mode::CommitMessageInput {
            amend: x,
            ..
        } && x == amend,
        Mode::StashMessageInput { .. } => b is StashMessageInput,
        Mode::NewBranchNameInput { .. } => b is NewBranchNameInput,
        _ => false,
    }
}

/// Nothing happens.
pub open spec fn ignored(pre: App, r: Option<GitCommand>, post: App) -> bool {
    r is None && post == pre
}

/// What a key does in an input mode: Esc leaves the mode and drops the text;
/// Enter confirms with the mode's own confirm action; a character is typed;
/// Backspace removes the last character; any other key does nothing.
pub open spec fn input_key_post(pre: App, key: Key, r: Option<GitCommand>, post: App) -> bool {
    if key == Key::Esc {
        r is None && post == (App { mode: Mode::Normal, ..pre })
    } else if key == Key::Enter {
        if pre.mode is Search {
            execute_search_post(pre, r, post)
        } else if pre.mode is BranchNameInput {
            create_branch_from_commit_post(pre, r, post)
        } else if pre.mode is CommitMessageInput {
            execute_commit_post(pre, r, post)
        } else if pre.mode is StashMessageInput {
            execute_create_stash_post(pre, r, post)
        } else {
            execute_create_new_branch_post(pre, r, post)
        }
    } else if key is Char {
        r is None && mode_set(pre, post) && same_input(pre.mode, post.mode) && typed(post.mode)
            == typed(pre.mode).push(key->0)
    } else if key == Key::Backspace {
        r is None && mode_set(pre, post) && same_input(pre.mode, post.mode) && typed(post.mode)
            == (if typed(pre.mode).len() > 0 {
            typed(pre.mode).drop_last()
        } else {
            typed(pre.mode)
        })
    } else {
        ignored(pre, r, post)
    }
}

/// What a key does in tree view: `q` quits, `?` shows help, `t` leaves tree
/// view, Esc steps out one level, Enter switches between the file list and the
/// file's diff; Up/Down (and `k`/`j`) move through the files, or scroll the diff
/// of the file shown, as PageUp/PageDown do by a page.
pub open spec fn tree_key_post(pre: App, key: Key, r: Option<GitCommand>, post: App) -> bool {
    let shows_file = pre.mode == (Mode::TreeView { file_selected: true });
    if key == Key::Char('q') {
        r is None && quit_post(pre, post)
    } else if key == Key::Char('?') {
        r is None && post == (App { help_visible: true, ..pre })
    } else if key == Key::Char('t') {
        toggle_tree_view_post(pre, r, post)
    } else if key == Key::Esc {
        r is None && exit_tree_view_post(pre, post)
    } else if key == Key::PageUp {
        if shows_file {
            r is None && scroll_diff_page_up_post(pre, post)
        } else {
            ignored(pre, r, post)
        }
    } else if key == Key::PageDown {
        if shows_file {
            r is None && scroll_diff_page_down_post(pre, post)
        } else {
            ignored(pre, r, post)
        }
    } else if key == Key::Down || key == Key::Char('j') {
        r is None && if shows_file {
            scroll_diff_down_post(pre, post)
        } else {
            next_tree_file_post(pre, post)
        }
    } else if key == Key::Up || key == Key::Char('k') {
        r is None && if shows_file {
            scroll_diff_up_post(pre, post)
        } else {
            previous_tree_file_post(pre, post)
        }
    } else if key == Key::Enter {
        r is None && select_tree_file_post(pre, post)
    } else {
        ignored(pre, r, post)
    }
}

/// What a key does on the status panel.
pub open spec fn status_key_post(pre: App, key: Key, r: Option<GitCommand>, post: App) -> bool {
    if key == Key::Char(' ') {
        toggle_stage_post(pre, r, post)
    } else if key == Key::Char('a') {
        stage_all_files_post(pre, r, post)
    } else if key == Key::Char('u') {
        unstage_all_files_post(pre, r, post)
    } else if key == Key::Char('c') {
        r is None && enter_commit_message_mode_post(pre, post)
    } else if key == Key::Char('A') {
        enter_amend_mode_post(pre, r, post)
    } else if key == Key::Char('x') {
        discard_selected_file_post(pre, r, post)
    } else if key == Key::Char('s') {
        r is None && enter_stash_input_mode_post(pre, post)
    } else if key == Key::Enter {
        toggle_status_diff_post(pre, r, post)
    } else if key == Key::PageUp {
        if pre.status_show_diff {
            r is None && scroll_status_diff_page_up_post(pre, post)
        } else {
            ignored(pre, r, post)
        }
    } else if key == Key::PageDown {
        if pre.status_show_diff {
            r is None && scroll_status_diff_page_down_post(pre, post)
        } else {
            ignored(pre, r, post)
        }
    } else if key == Key::Down || key == Key::Char('j') {
        r is None && if pre.status_show_diff {
            scroll_status_diff_down_post(pre, post)
        } else {
            next_status_file_post(pre, post)
        }
    } else if key == Key::Up || key == Key::Char('k') {
        r is None && if pre.status_show_diff {
            scroll_status_diff_up_post(pre, post)
        } else {
            previous_status_file_post(pre, post)
        }
    } else {
        ignored(pre, r, post)
    }
}

/// What a key does on the history panel.
pub open spec fn log_key_post(pre: App, key: Key, r: Option<GitCommand>, post: App) -> bool {
    if key == Key::Char('t') {
        toggle_tree_view_post(pre, r, post)
    } else if key == Key::Char('/') {
        r is None && enter_search_mode_post(pre, post)
    } else if key == Key::Char('y') {
        copy_commit_hash_post(pre, r, post)
    } else if key == Key::Char('c') {
        checkout_selected_commit_post(pre, r, post)
    } else if key == Key::Char('b') {
        r is None && enter_branch_input_mode_post(pre, post)
    } else if key == Key::Char('p') {
        cherry_pick_commit_post(pre, r, post)
    } else if key == Key::Char('r') {
        revert_selected_commit_post(pre, r, post)
    } else if key == Key::Char('f') {
        fetch_from_remote_post(pre, r, post)
    } else if key == Key::Char('P') {
        push_to_remote_post(pre, r, post)
    } else if key == Key::Char('U') {
        pull_from_remote_post(pre, r, post)
    } else if key == Key::PageUp {
        if pre.show_diff {
            r is None && scroll_diff_page_up_post(pre, post)
        } else {
            ignored(pre, r, post)
        }
    } else if key == Key::PageDown {
        if pre.show_diff {
            r is None && scroll_diff_page_down_post(pre, post)
        } else {
            ignored(pre, r, post)
        }
    } else if key == Key::Down || key == Key::Char('j') {
        r is None && if pre.show_diff {
            scroll_diff_down_post(pre, post)
        } else {
            next_post(pre, post)
        }
    } else if key == Key::Up || key == Key::Char('k') {
        r is None && if pre.show_diff {
            scroll_diff_up_post(pre, post)
        } else {
            previous_post(pre, post)
        }
    } else if key == Key::Left || key == Key::Char('h') {
        if pre.show_diff {
            r is None && previous_file_post(pre, post)
        } else {
            ignored(pre, r, post)
        }
    } else if key == Key::Right || key == Key::Char('l') {
        if pre.show_diff {
            r is None && next_file_post(pre, post)
        } else {
            ignored(pre, r, post)
        }
    } else if key == Key::Enter {
        toggle_diff_post(pre, r, post)
    } else {
        ignored(pre, r, post)
    }
}

/// What a key does on the stash panel.
pub open spec fn stash_key_post(pre: App, key: Key, r: Option<GitCommand>, post: App) -> bool {
    if key == Key::Char('a') {
        apply_selected_stash_post(pre, r, post)
    } else if key == Key::Char('p') {
        pop_selected_stash_post(pre, r, post)
    } else if key == Key::Char('d') {
        drop_selected_stash_post(pre, r, post)
    } else if key == Key::Down || key == Key::Char('j') {
        r is None && next_stash_post(pre, post)
    } else if key == Key::Up || key == Key::Char('k') {
        r is None && previous_stash_post(pre, post)
    } else {
        ignored(pre, r, post)
    }
}

/// What a key does on the branches panel.
pub open spec fn branch_key_post(pre: App, key: Key, r: Option<GitCommand>, post: App) -> bool {
    if key == Key::Enter {
        switch_to_selected_branch_post(pre, r, post)
    } else if key == Key::Char('d') {
        delete_selected_branch_post(pre, r, post)
    } else if key == Key::Char('n') {
        r is None && enter_new_branch_mode_post(pre, post)
    } else if key == Key::Char('m') {
        merge_selected_branch_post(pre, r, post)
    } else if key == Key::Down || key == Key::Char('j') {
        r is None && next_branch_post(pre, post)
    } else if key == Key::Up || key == Key::Char('k') {
        r is None && previous_branch_post(pre, post)
    } else {
        ignored(pre, r, post)
    }
}

/// What a key does in normal mode: `q` quits (or closes a shown diff), `?`
/// shows help, `1`-`4` switch panels, Esc clears the message, else the filter,
/// else quits; any other key goes to the active panel.
pub open spec fn normal_key_post(pre: App, key: Key, r: Option<GitCommand>, post: App) -> bool {
    if key == Key::Char('q') {
        r is None && quit_post(pre, post)
    } else if key == Key::Char('?') {
        r is None && post == (App { help_visible: true, ..pre })
    } else if key == Key::Char('1') {
        r is None && post == (App { current_panel: Panel::Status, ..pre })
    } else if key == Key::Char('2') {
        r is None && post == (App { current_panel: Panel::Log, ..pre })
    } else if key == Key::Char('3') {
        r is None && post == (App { current_panel: Panel::Stash, ..pre })
    } else if key == Key::Char('4') {
        r is None && post == (App { current_panel: Panel::Branches, ..pre })
    } else if key == Key::Esc {
        if pre.status_message is Some {
            r is None && clear_status_post(pre, post)
        } else if pre.active_filter is Some {
            clear_search_post(pre, r, post)
        } else {
            r is None && quit_post(pre, post)
        }
    } else if pre.current_panel == Panel::Status {
        status_key_post(pre, key, r, post)
    } else if pre.current_panel == Panel::Log {
        log_key_post(pre, key, r, post)
    } else if pre.current_panel == Panel::Stash {
        stash_key_post(pre, key, r, post)
    } else {
        branch_key_post(pre, key, r, post)
    }
}

fn handle_input_mode(app: &mut App, key: Key) -> (r: Option<GitCommand>)
    requires
        old(app).wf(),
        old(app).mode.is_input(),
    ensures
        final(app).wf(),
        input_key_post(*old(app), key, r, *final(app)),
{
    match app.mode {
        Mode::Search { .. } => match key {
            Key::Esc => {
                app.exit_search_mode();
                None
            },
            Key::Enter => app.execute_search(),
            Key::Backspace => {
                app.delete_search_char();
                None
            },
            Key::Char(c) => {
                app.add_search_char(c);
                None
            },
            _ => None,
        },
        Mode::BranchNameInput { .. } => match key {
            Key::Esc => {
                app.exit_branch_input_mode();
                None
            },
            Key::Enter => app.create_branch_from_commit(),
            Key::Backspace => {
                app.delete_branch_char();
                None
            },
            Key::Char(c) => {
                app.add_branch_char(c);
                None
            },
            _ => None,
        },
        Mode::CommitMessageInput { .. } => match key {
            Key::Esc => {
                app.exit_commit_message_mode();
                None
            },
            Key::Enter => app.execute_commit(),
            Key::Backspace => {
                app.delete_commit_char();
                None
            },
            Key::Char(c) => {
                app.add_commit_char(c);
                None
            },
            _ => None,
        },
        Mode::StashMessageInput { .. } => match key {
            Key::Esc => {
                app.exit_stash_input_mode();
                None
            },
            Key::Enter => app.execute_create_stash(),
            Key::Backspace => {
                app.delete_stash_char();
                None
            },
            Key::Char(c) => {
                app.add_stash_char(c);
                None
            },
            _ => None,
        },
        _ => match key {
            Key::Esc => {
                app.exit_new_branch_mode();
                None
            },
            Key::Enter => app.execute_create_new_branch(),
            Key::Backspace => {
                app.delete_new_branch_char();
                None
            },
            Key::Char(c) => {
                app.add_new_branch_char(c);
                None
            },
            _ => None,
        },
    }
}

fn handle_tree_view_mode(app: &mut App, key: Key) -> (r: Option<GitCommand>)
    requires
        old(app).wf(),
        old(app).mode is TreeView,
    ensures
        final(app).wf(),
        tree_key_post(*old(app), key, r, *final(app)),
{
    let file_selected = match app.mode {
        Mode::TreeView { file_selected } => file_selected,
        _ => false,
    };
    match key {
        Key::Char('q') => {
            app.quit();
            None
        },
        Key::Char('?') => {
            app.help_visible = true;
            None
        },
        Key::Char('t') => app.toggle_tree_view(),
        Key::Esc => {
            app.exit_tree_view();
            None
        },
        Key::PageUp => {
            if file_selected {
                app.scroll_diff_page_up();
            }
            None
        },
        Key::PageDown => {
            if file_selected {
                app.scroll_diff_page_down();
            }
            None
        },
        Key::Down | Key::Char('j') => {
            if file_selected {
                app.scroll_diff_down();
            } else {
                app.next_tree_file();
            }
            None
        },
        Key::Up | Key::Char('k') => {
            if file_selected {
                app.scroll_diff_up();
            } else {
                app.previous_tree_file();
            }
            None
        },
        Key::Enter => {
            app.select_tree_file();
            None
        },
        _ => None,
    }
}

fn handle_status_panel(app: &mut App, key: Key) -> (r: Option<GitCommand>)
    requires
        old(app).wf(),
    ensures
        final(app).wf(),
        status_key_post(*old(app), key, r, *final(app)),
{
    match key {
        Key::Char(' ') => app.toggle_stage(),
        Key::Char('a') => app.stage_all_files(),
        Key::Char('u') => app.unstage_all_files(),
        Key::Char('c') => {
            app.enter_commit_message_mode();
            None
        },
        Key::Char('A') => app.enter_amend_mode(),
        Key::Char('x') => app.discard_selected_file(),
        Key::Char('s') => {
            app.enter_stash_input_mode();
            None
        },
        Key::Enter => app.toggle_status_diff(),
        Key::PageUp => {
            if app.status_show_diff {
                app.scroll_status_diff_page_up();
            }
            None
        },
        Key::PageDown => {
            if app.status_show_diff {
                app.scroll_status_diff_page_down();
            }
            None
        },
        Key::Down | Key::Char('j') => {
            if app.status_show_diff {
                app.scroll_status_diff_down();
            } else {
                app.next_status_file();
            }
            None
        },
        Key::Up | Key::Char('k') => {
            if app.status_show_diff {
                app.scroll_status_diff_up();
            } else {
                app.previous_status_file();
            }
            None
        },
        _ => None,
    }
}

fn handle_log_panel(app: &mut App, key: Key) -> (r: Option<GitCommand>)
    requires
        old(app).wf(),
    ensures
        final(app).wf(),
        log_key_post(*old(app), key, r, *final(app)),
{
    match key {
        Key::Char('t') => app.toggle_tree_view(),
        Key::Char('y') => app.copy_commit_hash(),
        Key::Char('/') => {
            app.enter_search_mode();
            None
        },
        Key::Char('c') => app.checkout_selected_commit(),
        Key::Char('b') => {
            app.enter_branch_input_mode();
            None
        },
        Key::Char('p') => app.cherry_pick_commit(),
        Key::Char('r') => app.revert_selected_commit(),
        Key::Char('f') => app.fetch_from_remote(),
        Key::Char('P') => app.push_to_remote(),
        Key::Char('U') => app.pull_from_remote(),
        Key::PageUp => {
            if app.show_diff {
                app.scroll_diff_page_up();
            }
            None
        },
        Key::PageDown => {
            if app.show_diff {
                app.scroll_diff_page_down();
            }
            None
        },
        Key::Down | Key::Char('j') => {
            if app.show_diff {
                app.scroll_diff_down();
            } else {
                app.next();
            }
            None
        },
        Key::Up | Key::Char('k') => {
            if app.show_diff {
                app.scroll_diff_up();
            } else {
                app.previous();
            }
            None
        },
        Key::Left | Key::Char('h') => {
            if app.show_diff {
                app.previous_file();
            }
            None
        },
        Key::Right | Key::Char('l') => {
            if app.show_diff {
                app.next_file();
            }
            None
        },
        Key::Enter => app.toggle_diff(),
        _ => None,
    }
}

fn handle_stash_panel(app: &mut App, key: Key) -> (r: Option<GitCommand>)
    requires
        old(app).wf(),
    ensures
        final(app).wf(),
        stash_key_post(*old(app), key, r, *final(app)),
{
    match key {
        Key::Char('a') => app.apply_selected_stash(),
        Key::Char('p') => app.pop_selected_stash(),
        Key::Char('d') => app.drop_selected_stash(),
        Key::Down | Key::Char('j') => {
            app.next_stash();
            None
        },
        Key::Up | Key::Char('k') => {
            app.previous_stash();
            None
        },
        _ => None,
    }
}

fn handle_branches_panel(app: &mut App, key: Key) -> (r: Option<GitCommand>)
    requires
        old(app).wf(),
    ensures
        final(app).wf(),
        branch_key_post(*old(app), key, r, *final(app)),
{
    match key {
        Key::Enter => app.switch_to_selected_branch(),
        Key::Char('d') => app.delete_selected_branch(),
        Key::Char('n') => {
            app.enter_new_branch_mode();
            None
        },
        Key::Char('m') => app.merge_selected_branch(),
        Key::Down | Key::Char('j') => {
            app.next_branch();
            None
        },
        Key::Up | Key::Char('k') => {
            app.previous_branch();
            None
        },
        _ => None,
    }
}

fn handle_normal_mode(app: &mut App, key: Key) -> (r: Option<GitCommand>)
    requires
        old(app).wf(),
    ensures
        final(app).wf(),
        normal_key_post(*old(app), key, r, *final(app)),
{
    match key {
        Key::Char('q') => {
            app.quit();
            None
        },
        Key::Char('?') => {
            app.help_visible = true;
            None
        },
        Key::Char('1') => {
            app.switch_to_panel(Panel::Status);
            None
        },
        Key::Char('2') => {
            app.switch_to_panel(Panel::Log);
            None
        },
        Key::Char('3') => {
            app.switch_to_panel(Panel::Stash);
            None
        },
        Key::Char('4') => {
            app.switch_to_panel(Panel::Branches);
            None
        },
        Key::Esc => {
            if app.status_message.is_some() {
                app.clear_status();
                None
            } else if app.active_filter.is_some() {
                app.clear_search()
            } else {
                app.quit();
                None
            }
        },
        _ => match app.current_panel {
            Panel::Status => handle_status_panel(app, key),
            Panel::Log => handle_log_panel(app, key),
            Panel::Stash => handle_stash_panel(app, key),
            Panel::Branches => handle_branches_panel(app, key),
        },
    }
}

/// Handles one key press: the help overlay, when shown, takes every key and
/// closes on `?` or Esc; otherwise an input mode takes the key as text editing,
/// confirmation or cancellation; then tree view; then the normal mode's global
/// keys and the active panel's keys. Returns the gateway command to run, if any.
pub fn handle_key_event(app: &mut App, key: Key) -> (r: Option<GitCommand>)
    requires
        old(app).wf(),
    ensures
        final(app).wf(),
        old(app).help_visible ==> r is None && *final(app) == (App {
            help_visible: !(key is Esc || key == Key::Char('?')),
            ..*old(app)
        }),
        !old(app).help_visible && old(app).mode is Normal ==> normal_key_post(
            *old(app),
            key,
            r,
            *final(app),
        ),
        !old(app).help_visible && old(app).mode is TreeView ==> tree_key_post(
            *old(app),
            key,
            r,
            *final(app),
        ),
        !old(app).help_visible && old(app).mode.is_input() ==> input_key_post(
            *old(app),
            key,
            r,
            *final(app),
        ),
{
    if app.help_visible {
        match key {
            Key::Char('?') | Key::Esc => app.help_visible = false,
            _ => {},
        }
        return None;
    }
    match app.mode {
        Mode::Normal => handle_normal_mode(app, key),
        Mode::TreeView { .. } => handle_tree_view_mode(app, key),
        _ => handle_input_mode(app, key),
    }
}

} // verus!
