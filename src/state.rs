//! The application state: panels, selection cursors, transient input modes, and
//! the exchange with the repository gateway.
//!
//! Work that needs the repository is not done here. An operation that needs it
//! returns the [`GitCommand`] to run and records what it awaits; the caller runs
//! the command and hands the outcome to [`App::handle_reply`], then asks
//! [`App::next_request`] for any refresh that the outcome made due.
use vstd::prelude::*;

use crate::cursor::{
    first_index, first_of, in_range, next_index, previous_index, wrap_next, wrap_previous,
};
use crate::branch::{branches_of_lines, branches_view, contains_text, has_text, parse_branch_output};
use crate::diff::{parse_commit_diff, parsed_diff};
use crate::log::{parse_log_output, parsed_log};
use crate::model::{
    commits_view, Branch, Commit, CommitDiff, SearchFilter, StashEntry, StatusFile,
};
use crate::stash::{parse_stash_output, parsed_stashes, stash_view};
use crate::status::{
    count_with, is_nth_with, lemma_count_split, nth_with, parse_status_output, parsed_status,
    status_view,
};
use crate::text::{chars_of, lines, string_of, trim, trimmed};

verus! {

/// The persistent tabs of the interface.
#[derive(Debug, Clone, Copy, PartialEq, Eq, Structural)]
pub enum Panel {
    Status,
    Log,
    Stash,
    Branches,
}

/// The severity of the status message.
#[derive(Debug, Clone, Copy, PartialEq, Eq, Structural)]
pub enum MessageType {
    Success,
    Error,
    Info,
}

/// The transient mode above the panels; each carries only what it needs.
#[derive(Debug)]
pub enum Mode {
    Normal,
    /// Typing a history filter.
    Search { query: String },
    /// Naming a branch to create at the commit `hash`, chosen on entry.
    BranchNameInput { name: String, hash: String },
    /// Typing a commit message; `amend` replaces the last commit.
    CommitMessageInput { message: String, amend: bool },
    /// Typing the message of a new stash.
    StashMessageInput { message: String },
    /// Naming a branch to create at the current head.
    NewBranchNameInput { name: String },
    /// Browsing the files of a commit's diff; `file_selected` shows one file.
    TreeView { file_selected: bool },
}

impl Mode {
    /// Whether this is one of the text-input modes.
    pub open spec fn is_input(&self) -> bool {
        match self {
            Mode::Search { .. } => true,
            Mode::BranchNameInput { .. } => true,
            Mode::CommitMessageInput { .. } => true,
            Mode::StashMessageInput { .. } => true,
            Mode::NewBranchNameInput { .. } => true,
            _ => false,
        }
    }
}

/// A request to the repository gateway.
#[derive(Debug)]
pub enum GitCommand {
    /// The graph history listing, optionally filtered.
    Log { filter: Option<SearchFilter> },
    /// The full display of one commit.
    Show { hash: String },
    /// The porcelain status listing.
    Status,
    /// The stash listing.
    StashList,
    /// The verbose local branch listing.
    LocalBranches,
    /// The verbose remote branch listing.
    RemoteBranches,
    /// The diff of one working-tree file, staged or not.
    FileDiff { path: String, staged: bool },
    /// The message of the last commit.
    LastCommitMessage,
    Checkout { hash: String },
    CreateBranch { name: String, hash: String },
    CherryPick { hash: String },
    Revert { hash: String },
    Stage { path: String },
    Unstage { path: String },
    StageAll,
    UnstageAll,
    Commit { message: String, amend: bool },
    Discard { path: String },
    ApplyStash { index: usize },
    PopStash { index: usize },
    DropStash { index: usize },
    CreateStash { message: Option<String> },
    SwitchBranch { name: String },
    DeleteBranch { name: String },
    Merge { name: String },
    NewBranch { name: String },
    Fetch,
    Push,
    Pull,
    /// Put `text` on the clipboard.
    CopyToClipboard { text: String },
}

/// Which conflict guidance a failed action may turn into.
#[derive(Debug, Clone, Copy, PartialEq, Eq, Structural)]
pub enum Conflicts {
    Never,
    CherryPick,
    Revert,
    Merge,
}

/// How the outcome of a mutating action is reported, and what it makes stale.
#[derive(Debug, Clone, Copy, PartialEq, Eq, Structural)]
pub struct ActionPlan {
    /// Report success as information rather than success.
    pub info: bool,
    pub conflicts: Conflicts,
    pub status: bool,
    pub stashes: bool,
    pub branches: bool,
}

/// The gateway reply that the state waits for.
#[derive(Debug, Clone, Copy, PartialEq, Eq, Structural)]
pub enum Awaiting {
    Nothing,
    Log,
    Diff { tree: bool },
    Status,
    Stashes,
    LocalBranches,
    RemoteBranches,
    FileDiff,
    LastMessage,
    Action(ActionPlan),
}

/// Lines moved by a page scroll.
pub const PAGE: u16 = 10;

/// The whole interaction state.
pub struct App {
    pub current_panel: Panel,
    pub mode: Mode,
    /// The help overlay, drawn above every mode.
    pub help_visible: bool,
    pub commits: Vec<Commit>,
    pub selected_commit: Option<usize>,
    pub show_diff: bool,
    pub current_diff: Option<CommitDiff>,
    pub diff_scroll: u16,
    pub selected_file: Option<usize>,
    pub active_filter: Option<SearchFilter>,
    pub status_files: Vec<StatusFile>,
    /// Position of the selected entry in listing order: staged entries first.
    pub selected_status: Option<usize>,
    pub status_show_diff: bool,
    pub status_diff_content: Option<String>,
    pub status_diff_scroll: u16,
    pub stashes: Vec<StashEntry>,
    pub selected_stash: Option<usize>,
    pub branches: Vec<Branch>,
    pub selected_branch: Option<usize>,
    pub should_quit: bool,
    pub status_message: Option<String>,
    pub status_message_type: MessageType,
    pub awaiting: Awaiting,
    pub refresh_status_due: bool,
    pub refresh_stashes_due: bool,
    pub refresh_branches_due: bool,
    /// The local branch listing, kept while the remote one is fetched.
    pub fetched_local: Option<Vec<Branch>>,
    /// The filter that the awaited history listing was asked with; it becomes the
    /// active filter only when the listing arrives.
    pub pending_filter: Option<SearchFilter>,
}

/// The number of files of an optional diff.
pub open spec fn diff_len(d: Option<CommitDiff>) -> nat {
    match d {
        Some(d) => d.files@.len(),
        None => 0,
    }
}

/// `post` is `pre` with the status message set to `text`, of kind `kind`.
pub open spec fn says(pre: App, post: App, text: Seq<char>, kind: MessageType) -> bool {
    &&& post.status_message is Some
    &&& post.status_message->0@ == text
    &&& post == (App { status_message: post.status_message, status_message_type: kind, ..pre })
}

/// `post` is `pre` with the mode replaced.
pub open spec fn mode_set(pre: App, post: App) -> bool {
    post == (App { mode: post.mode, ..pre })
}

/// The text of `s` with `c` appended.
fn pushed(s: &String, c: char) -> (r: String)
    ensures
        r@ == s@.push(c),
{
    let mut v = chars_of(s.as_str());
    v.push(c);
    string_of(&v)
}

/// The text of `s` without its last character, if it has one.
fn popped(s: &String) -> (r: String)
    ensures
        r@ == (if s@.len() > 0 {
            s@.drop_last()
        } else {
            s@
        }),
{
    let mut v = chars_of(s.as_str());
    if v.len() > 0 {
        v.pop();
    }
    string_of(&v)
}

/// `a` followed by `b`.
pub fn joined(a: &str, b: &str) -> (r: String)
    ensures
        r@ == a@ + b@,
{
    let mut v = chars_of(a);
    let w = chars_of(b);
    crate::diff::append_chars(&mut v, &w);
    string_of(&v)
}

impl App {
    /// Selections lie within their lists, and a diff is held while one is shown.
    pub open spec fn wf(&self) -> bool {
        &&& in_range(self.selected_commit, self.commits@.len())
        &&& in_range(self.selected_status, self.status_files@.len())
        &&& in_range(self.selected_stash, self.stashes@.len())
        &&& in_range(self.selected_branch, self.branches@.len())
        &&& in_range(self.selected_file, diff_len(self.current_diff))
        &&& (self.show_diff ==> self.current_diff is Some)
        &&& (self.mode is TreeView ==> self.current_diff is Some && !self.show_diff)
    }

    /// The state at start-up: the status panel, normal mode, each list with its
    /// first item selected.
    pub fn new(
        commits: Vec<Commit>,
        status_files: Vec<StatusFile>,
        stashes: Vec<StashEntry>,
        branches: Vec<Branch>,
    ) -> (r: App)
        ensures
            r.wf(),
            r.commits == commits,
            r.status_files == status_files,
            r.stashes == stashes,
            r.branches == branches,
            r.selected_commit == first_of(commits@.len()),
            r.selected_status == first_of(status_files@.len()),
            r.selected_stash == first_of(stashes@.len()),
            r.selected_branch == first_of(branches@.len()),
            r.current_panel == Panel::Status,
            r.mode is Normal,
            !r.help_visible,
            !r.show_diff,
            r.current_diff is None,
            r.selected_file is None,
            r.diff_scroll == 0,
            r.active_filter is None,
            !r.status_show_diff,
            r.status_diff_content is None,
            r.status_diff_scroll == 0,
            !r.should_quit,
            r.status_message is None,
            r.awaiting == Awaiting::Nothing,
            !r.refresh_status_due && !r.refresh_stashes_due && !r.refresh_branches_due,
            r.fetched_local is None,
            r.pending_filter is None,
    {
        let selected_commit = first_index(commits.len());
        let selected_status = first_index(status_files.len());
        let selected_stash = first_index(stashes.len());
        let selected_branch = first_index(branches.len());
        App {
            current_panel: Panel::Status,
            mode: Mode::Normal,
            help_visible: false,
            commits,
            selected_commit,
            show_diff: false,
            current_diff: None,
            diff_scroll: 0,
            selected_file: None,
            active_filter: None,
            status_files,
            selected_status,
            status_show_diff: false,
            status_diff_content: None,
            status_diff_scroll: 0,
            stashes,
            selected_stash,
            branches,
            selected_branch,
            should_quit: false,
            status_message: None,
            status_message_type: MessageType::Info,
            awaiting: Awaiting::Nothing,
            refresh_status_due: false,
            refresh_stashes_due: false,
            refresh_branches_due: false,
            fetched_local: None,
            pending_filter: None,
        }
    }

    /// Moves the commit cursor down, wrapping, and resets the diff scroll.
    pub fn next(&mut self)
        requires
            old(self).wf(),
        ensures
            final(self).wf(),
            next_post(*old(self), *final(self)),
    {
        if self.commits.len() == 0 {
            return ;
        }
        self.selected_commit = next_index(self.selected_commit, self.commits.len());
        self.diff_scroll = 0;
    }

    /// Moves the commit cursor up, wrapping, and resets the diff scroll.
    pub fn previous(&mut self)
        requires
            old(self).wf(),
        ensures
            final(self).wf(),
            previous_post(*old(self), *final(self)),
    {
        if self.commits.len() == 0 {
            return ;
        }
        self.selected_commit = previous_index(self.selected_commit, self.commits.len());
        self.diff_scroll = 0;
    }

    /// Scrolls the commit diff up one line, stopping at the top.
    pub fn scroll_diff_up(&mut self)
        requires
            old(self).wf(),
        ensures
            final(self).wf(),
            scroll_diff_up_post(*old(self), *final(self)),
    {
        self.diff_scroll = self.diff_scroll.saturating_sub(1);
    }

    /// Scrolls the commit diff down one line.
    pub fn scroll_diff_down(&mut self)
        requires
            old(self).wf(),
        ensures
            final(self).wf(),
            scroll_diff_down_post(*old(self), *final(self)),
    {
        self.diff_scroll = self.diff_scroll.saturating_add(1);
    }

    /// Scrolls the commit diff up one page, stopping at the top.
    pub fn scroll_diff_page_up(&mut self)
        requires
            old(self).wf(),
        ensures
            final(self).wf(),
            scroll_diff_page_up_post(*old(self), *final(self)),
    {
        self.diff_scroll = self.diff_scroll.saturating_sub(PAGE);
    }

    /// Scrolls the commit diff down one page.
    pub fn scroll_diff_page_down(&mut self)
        requires
            old(self).wf(),
        ensures
            final(self).wf(),
            scroll_diff_page_down_post(*old(self), *final(self)),
    {
        self.diff_scroll = self.diff_scroll.saturating_add(PAGE);
    }

    /// Selects the next file of the shown diff, wrapping, and resets the scroll.
    pub fn next_file(&mut self)
        requires
            old(self).wf(),
        ensures
            final(self).wf(),
            next_file_post(*old(self), *final(self)),
    {
        let n = match &self.current_diff {
            Some(d) => d.files.len(),
            None => 0,
        };
        if n == 0 {
            return ;
        }
        self.selected_file = next_index(self.selected_file, n);
        self.diff_scroll = 0;
    }

    /// Selects the previous file of the shown diff, wrapping, and resets the scroll.
    pub fn previous_file(&mut self)
        requires
            old(self).wf(),
        ensures
            final(self).wf(),
            previous_file_post(*old(self), *final(self)),
    {
        let n = match &self.current_diff {
            Some(d) => d.files.len(),
            None => 0,
        };
        if n == 0 {
            return ;
        }
        self.selected_file = previous_index(self.selected_file, n);
        self.diff_scroll = 0;
    }

    /// Closes the commit diff if one is shown; otherwise asks to leave.
    pub fn quit(&mut self)
        requires
            old(self).wf(),
        ensures
            final(self).wf(),
            quit_post(*old(self), *final(self)),
    {
        if self.show_diff {
            self.show_diff = false;
            self.current_diff = None;
            self.diff_scroll = 0;
            self.selected_file = None;
        } else {
            self.should_quit = true;
        }
    }

    /// Sets the status message.
    pub fn set_status(&mut self, message: String, message_type: MessageType)
        ensures
            says(*old(self), *final(self), message@, message_type),
    {
        self.status_message = Some(message);
        self.status_message_type = message_type;
    }

    /// Clears the status message.
    pub fn clear_status(&mut self)
        requires
            old(self).wf(),
        ensures
            final(self).wf(),
            clear_status_post(*old(self), *final(self)),
    {
        self.status_message = None;
    }

    /// Shows another panel; every panel keeps its own state.
    pub fn switch_to_panel(&mut self, panel: Panel)
        requires
            old(self).wf(),
        ensures
            final(self).wf(),
            *final(self) == (App { current_panel: panel, ..*old(self) }),
    {
        self.current_panel = panel;
    }

    /// Enters search mode with an empty query.
    pub fn enter_search_mode(&mut self)
        requires
            old(self).wf(),
        ensures
            final(self).wf(),
            enter_search_mode_post(*old(self), *final(self)),
    {
        self.mode = Mode::Search { query: String::new() };
    }

    /// Leaves search mode, dropping the query.
    pub fn exit_search_mode(&mut self)
        requires
            old(self).wf(),
        ensures
            final(self).wf(),
            exit_search_mode_post(*old(self), *final(self)),
    {
        if let Mode::Search { .. } = self.mode {
            self.mode = Mode::Normal;
        }
    }

    /// Appends a character to the search query.
    pub fn add_search_char(&mut self, c: char)
        requires
            old(self).wf(),
        ensures
            final(self).wf(),
            mode_set(*old(self), *final(self)),
            old(self).mode matches Mode::Search { query } ==> final(self).mode matches Mode::Search {
                query: q,
            } && q@ == query@.push(c),
            !(old(self).mode is Search) ==> final(self).mode == old(self).mode,
    {
        if let Mode::Search { query } = &self.mode {
            let q = pushed(query, c);
            self.mode = Mode::Search { query: q };
        }
    }

    /// Removes the last character of the search query.
    pub fn delete_search_char(&mut self)
        requires
            old(self).wf(),
        ensures
            final(self).wf(),
            delete_search_char_post(*old(self), *final(self)),
    {
        if let Mode::Search { query } = &self.mode {
            let q = popped(query);
            self.mode = Mode::Search { query: q };
        }
    }

    /// Enters branch naming for the selected commit, which is remembered now;
    /// does nothing when no commit is selected.
    pub fn enter_branch_input_mode(&mut self)
        requires
            old(self).wf(),
        ensures
            final(self).wf(),
            enter_branch_input_mode_post(*old(self), *final(self)),
    {
        if let Some(i) = self.selected_commit {
            let hash = self.commits[i].hash.clone();
            self.mode = Mode::BranchNameInput { name: String::new(), hash };
        }
    }

    /// Leaves branch naming, dropping the name.
    pub fn exit_branch_input_mode(&mut self)
        requires
            old(self).wf(),
        ensures
            final(self).wf(),
            exit_branch_input_mode_post(*old(self), *final(self)),
    {
        if let Mode::BranchNameInput { .. } = self.mode {
            self.mode = Mode::Normal;
        }
    }

    /// Appends a character to the branch name being typed.
    pub fn add_branch_char(&mut self, c: char)
        requires
            old(self).wf(),
        ensures
            final(self).wf(),
            mode_set(*old(self), *final(self)),
            old(self).mode matches Mode::BranchNameInput { name, hash } ==> (final(self).mode matches Mode::BranchNameInput {
                name: n,
                hash: h,
            } && n@ == name@.push(c)
                && h == hash),
            !(old(self).mode is BranchNameInput) ==> final(self).mode == old(self).mode,
    {
        if let Mode::BranchNameInput { name, hash } = &self.mode {
            let n = pushed(name, c);
            let h = hash.clone();
            self.mode = Mode::BranchNameInput { name: n, hash: h };
        }
    }

    /// Removes the last character of the branch name being typed.
    pub fn delete_branch_char(&mut self)
        requires
            old(self).wf(),
        ensures
            final(self).wf(),
            delete_branch_char_post(*old(self), *final(self)),
    {
        if let Mode::BranchNameInput { name, hash } = &self.mode {
            let n = popped(name);
            let h = hash.clone();
            self.mode = Mode::BranchNameInput { name: n, hash: h };
        }
    }

    /// Enters commit-message input with an empty message.
    pub fn enter_commit_message_mode(&mut self)
        requires
            old(self).wf(),
        ensures
            final(self).wf(),
            enter_commit_message_mode_post(*old(self), *final(self)),
    {
        self.mode = Mode::CommitMessageInput { message: String::new(), amend: false };
    }

    /// Leaves commit-message input (plain or amend), dropping the message.
    pub fn exit_commit_message_mode(&mut self)
        requires
            old(self).wf(),
        ensures
            final(self).wf(),
            exit_commit_message_mode_post(*old(self), *final(self)),
    {
        if let Mode::CommitMessageInput { .. } = self.mode {
            self.mode = Mode::Normal;
        }
    }

    /// Appends a character to the commit message.
    pub fn add_commit_char(&mut self, c: char)
        requires
            old(self).wf(),
        ensures
            final(self).wf(),
            mode_set(*old(self), *final(self)),
            old(self).mode matches Mode::CommitMessageInput { message, amend } ==> (final(self).mode matches Mode::CommitMessageInput {
                message: m,
                amend: a,
            } && m@
                == message@.push(c) && a == amend),
            !(old(self).mode is CommitMessageInput) ==> final(self).mode == old(self).mode,
    {
        if let Mode::CommitMessageInput { message, amend } = &self.mode {
            let m = pushed(message, c);
            let a = *amend;
            self.mode = Mode::CommitMessageInput { message: m, amend: a };
        }
    }

    /// Removes the last character of the commit message.
    pub fn delete_commit_char(&mut self)
        requires
            old(self).wf(),
        ensures
            final(self).wf(),
            delete_commit_char_post(*old(self), *final(self)),
    {
        if let Mode::CommitMessageInput { message, amend } = &self.mode {
            let m = popped(message);
            let a = *amend;
            self.mode = Mode::CommitMessageInput { message: m, amend: a };
        }
    }

    /// Enters stash-message input with an empty message.
    pub fn enter_stash_input_mode(&mut self)
        requires
            old(self).wf(),
        ensures
            final(self).wf(),
            enter_stash_input_mode_post(*old(self), *final(self)),
    {
        self.mode = Mode::StashMessageInput { message: String::new() };
    }

    /// Leaves stash-message input, dropping the message.
    pub fn exit_stash_input_mode(&mut self)
        requires
            old(self).wf(),
        ensures
            final(self).wf(),
            exit_stash_input_mode_post(*old(self), *final(self)),
    {
        if let Mode::StashMessageInput { .. } = self.mode {
            self.mode = Mode::Normal;
        }
    }

    /// Appends a character to the stash message.
    pub fn add_stash_char(&mut self, c: char)
        requires
            old(self).wf(),
        ensures
            final(self).wf(),
            mode_set(*old(self), *final(self)),
            old(self).mode matches Mode::StashMessageInput { message } ==> (final(self).mode matches Mode::StashMessageInput {
                message: m,
            } && m@ == message@.push(c)),
            !(old(self).mode is StashMessageInput) ==> final(self).mode == old(self).mode,
    {
        if let Mode::StashMessageInput { message } = &self.mode {
            let m = pushed(message, c);
            self.mode = Mode::StashMessageInput { message: m };
        }
    }

    /// Removes the last character of the stash message.
    pub fn delete_stash_char(&mut self)
        requires
            old(self).wf(),
        ensures
            final(self).wf(),
            delete_stash_char_post(*old(self), *final(self)),
    {
        if let Mode::StashMessageInput { message } = &self.mode {
            let m = popped(message);
            self.mode = Mode::StashMessageInput { message: m };
        }
    }

    /// Enters new-branch naming with an empty name.
    pub fn enter_new_branch_mode(&mut self)
        requires
            old(self).wf(),
        ensures
            final(self).wf(),
            enter_new_branch_mode_post(*old(self), *final(self)),
    {
        self.mode = Mode::NewBranchNameInput { name: String::new() };
    }

    /// Leaves new-branch naming, dropping the name.
    pub fn exit_new_branch_mode(&mut self)
        requires
            old(self).wf(),
        ensures
            final(self).wf(),
            exit_new_branch_mode_post(*old(self), *final(self)),
    {
        if let Mode::NewBranchNameInput { .. } = self.mode {
            self.mode = Mode::Normal;
        }
    }

    /// Appends a character to the new branch's name.
    pub fn add_new_branch_char(&mut self, c: char)
        requires
            old(self).wf(),
        ensures
            final(self).wf(),
            mode_set(*old(self), *final(self)),
            old(self).mode matches Mode::NewBranchNameInput { name } ==> (final(self).mode matches Mode::NewBranchNameInput {
                name: n,
            } && n@ == name@.push(c)),
            !(old(self).mode is NewBranchNameInput) ==> final(self).mode == old(self).mode,
    {
        if let Mode::NewBranchNameInput { name } = &self.mode {
            let n = pushed(name, c);
            self.mode = Mode::NewBranchNameInput { name: n };
        }
    }

    /// Removes the last character of the new branch's name.
    pub fn delete_new_branch_char(&mut self)
        requires
            old(self).wf(),
        ensures
            final(self).wf(),
            delete_new_branch_char_post(*old(self), *final(self)),
    {
        if let Mode::NewBranchNameInput { name } = &self.mode {
            let n = popped(name);
            self.mode = Mode::NewBranchNameInput { name: n };
        }
    }
}

/// Whether `c` is the lower-case ASCII letter or character `l`, or its upper-case
/// form.
pub open spec fn folds_to(c: char, l: char) -> bool {
    c == l || ('a' <= l && l <= 'z' && (c as u32) + 32 == (l as u32))
}

/// Whether the lower-case text `p` occurs in `text` at `i`, ignoring ASCII case.
pub open spec fn folded_at(text: Seq<char>, p: Seq<char>, i: int) -> bool {
    0 <= i && i + p.len() <= text.len() && forall|j: int|
        0 <= j < p.len() ==> folds_to(#[trigger] text[i + j], p[j])
}

/// Whether the lower-case text `p` occurs in `text`, ignoring ASCII case.
pub open spec fn contains_folded(text: Seq<char>, p: Seq<char>) -> bool {
    exists|i: int| #[trigger] folded_at(text, p, i)
}

/// Whether an error text reports a conflict: it holds `conflict` in any mix of
/// upper and lower case.
pub open spec fn mentions_conflict(text: Seq<char>) -> bool {
    contains_folded(text, "conflict"@)
}

fn fold_eq(c: char, l: char) -> (r: bool)
    ensures
        r == folds_to(c, l),
{
    c == l || ('a' <= l && l <= 'z' && (c as u32) + 32 == (l as u32))
}

/// Whether the lower-case text `p` occurs in `s`, ignoring ASCII case.
fn has_folded(s: &Vec<char>, p: &Vec<char>) -> (r: bool)
    ensures
        r == contains_folded(s@, p@),
{
    if p.len() > s.len() {
        return false;
    }
    let n = s.len();
    let last = n - p.len();
    let mut i: usize = 0;
    loop
        invariant
            n == s@.len(),
            p@.len() <= s@.len(),
            last == s@.len() - p@.len(),
            i <= last,
            forall|k: int| 0 <= k < i ==> !#[trigger] folded_at(s@, p@, k),
        decreases last - i,
    {
        let mut j: usize = 0;
        while j < p.len() && fold_eq(s[i + j], p[j])
            invariant
                n == s@.len(),
                p@.len() <= s@.len(),
                i <= last,
                last == s@.len() - p@.len(),
                j <= p@.len(),
                forall|x: int| 0 <= x < j ==> folds_to(#[trigger] s@[i + x], p@[x]),
            decreases p@.len() - j,
        {
            j = j + 1;
        }
        if j == p.len() {
            assert(folded_at(s@, p@, i as int));
            return true;
        }
        assert(!folds_to(s@[i + j as int], p@[j as int]));
        assert(!folded_at(s@, p@, i as int));
        if i == last {
            assert forall|k: int| !#[trigger] folded_at(s@, p@, k) by {
                if folded_at(s@, p@, k) {
                    assert(k <= i);
                }
            }
            return false;
        }
        i = i + 1;
    }
}

/// Whether a failed command's error text reports a conflict. This is the one place
/// where conflicts are recognised, from the text alone.
pub fn is_conflict(text: &str) -> (r: bool)
    ensures
        r == mentions_conflict(text@),
{
    let s = chars_of(text);
    has_folded(&s, &chars_of("conflict"))
}

/// The guidance shown when an action stopped on conflicts.
pub open spec fn conflict_guidance(c: Conflicts) -> Seq<char> {
    match c {
        Conflicts::CherryPick => "Cherry-pick has conflicts. Resolve them and run 'git cherry-pick --continue'"@,
        Conflicts::Revert => "Revert has conflicts. Resolve them and run 'git revert --continue'"@,
        _ => "Merge has conflicts. Resolve them and commit the result"@,
    }
}

fn guidance(c: Conflicts) -> (r: String)
    ensures
        r@ == conflict_guidance(c),
{
    match c {
        Conflicts::CherryPick => "Cherry-pick has conflicts. Resolve them and run 'git cherry-pick --continue'".to_string(),
        Conflicts::Revert => "Revert has conflicts. Resolve them and run 'git revert --continue'".to_string(),
        _ => "Merge has conflicts. Resolve them and commit the result".to_string(),
    }
}

/// The plan of an action: how success is reported, which conflicts it may hit,
/// and which lists it makes stale.
pub open spec fn plan(info: bool, conflicts: Conflicts, status: bool, stashes: bool, branches: bool) -> ActionPlan {
    ActionPlan { info, conflicts, status, stashes, branches }
}

/// `post` is `pre` now waiting for `aw`.
pub open spec fn starts(pre: App, post: App, aw: Awaiting) -> bool {
    post == (App { awaiting: aw, ..pre })
}

/// `m` with tree view left for normal mode.
pub open spec fn leave_tree(m: Mode) -> Mode {
    if m is TreeView {
        Mode::Normal
    } else {
        m
    }
}

/// The filter that a confirmed search query sets: none for an empty query, the
/// author after a leading `@`, the message otherwise.
pub open spec fn filter_of(q: Seq<char>) -> Option<crate::model::SearchFilterView> {
    if q.len() == 0 {
        None
    } else if q[0] == '@' {
        Some(crate::model::SearchFilterView::Author(q.drop_first()))
    } else {
        Some(crate::model::SearchFilterView::Message(q))
    }
}

/// The view of an optional filter.
pub open spec fn filter_view(f: Option<SearchFilter>) -> Option<crate::model::SearchFilterView> {
    match f {
        Some(f) => Some(f@),
        None => None,
    }
}

/// The state after the reply `reply` to what `pre` awaited. Lists come back
/// parsed with their first item selected; a failure leaves them as they were and
/// sets an error message; a mutating action's success is reported and makes the
/// lists it touched due for a refresh; a conflict is reported as information.
/// The filter a history listing was asked with becomes active only when the
/// listing arrives; on failure the active filter stays as it was.
pub open spec fn after_reply(pre: App, reply: Result<String, String>, post: App) -> bool {
    let base = App { awaiting: Awaiting::Nothing, ..pre };
    match pre.awaiting {
        Awaiting::Nothing => post == pre,
        Awaiting::Log => match reply {
            Ok(out) => commits_view(post.commits@) == parsed_log(out@) && post == (App {
                commits: post.commits,
                selected_commit: first_of(post.commits@.len()),
                active_filter: pre.pending_filter,
                pending_filter: None,
                ..base
            }),
            Err(e) => says(
                App { pending_filter: None, ..base },
                post,
                "Failed to load commits: "@ + e@,
                MessageType::Error,
            ),
        },
        Awaiting::Diff { tree } => match reply {
            Ok(out) => (post.current_diff matches Some(d) && d@ == parsed_diff(out@)) && post == (App {
                current_diff: post.current_diff,
                selected_file: Some(0),
                diff_scroll: 0,
                show_diff: !tree,
                mode: if tree {
                    Mode::TreeView { file_selected: false }
                } else {
                    leave_tree(pre.mode)
                },
                ..base
            }),
            Err(e) => says(base, post, "Failed to load diff: "@ + e@, MessageType::Error),
        },
        Awaiting::Status => match reply {
            Ok(out) => status_view(post.status_files@) == parsed_status(out@) && post == (App {
                status_files: post.status_files,
                selected_status: first_of(post.status_files@.len()),
                ..base
            }),
            Err(e) => says(base, post, "Failed to refresh status: "@ + e@, MessageType::Error),
        },
        Awaiting::Stashes => match reply {
            Ok(out) => stash_view(post.stashes@) == parsed_stashes(out@) && post == (App {
                stashes: post.stashes,
                selected_stash: first_of(post.stashes@.len()),
                ..base
            }),
            Err(e) => says(base, post, "Failed to refresh stashes: "@ + e@, MessageType::Error),
        },
        Awaiting::LocalBranches => match reply {
            Ok(out) => (post.fetched_local matches Some(v) && branches_view(v@) == branches_of_lines(
                lines(out@),
                false,
            )) && post == (App { fetched_local: post.fetched_local, ..base }),
            Err(e) => says(base, post, "Failed to refresh branches: "@ + e@, MessageType::Error),
        },
        Awaiting::RemoteBranches => match reply {
            Ok(out) => branches_view(post.branches@) == (match pre.fetched_local {
                Some(v) => branches_view(v@),
                None => seq![],
            }) + branches_of_lines(lines(out@), true) && post == (App {
                branches: post.branches,
                selected_branch: first_of(post.branches@.len()),
                fetched_local: None,
                ..base
            }),
            Err(e) => says(
                App { fetched_local: None, ..base },
                post,
                "Failed to refresh branches: "@ + e@,
                MessageType::Error,
            ),
        },
        Awaiting::FileDiff => match reply {
            Ok(out) => post == (App {
                status_show_diff: true,
                status_diff_content: Some(out),
                status_diff_scroll: 0,
                ..base
            }),
            Err(e) => says(
                App { status_show_diff: false, status_diff_content: None, ..base },
                post,
                "Failed to load diff: "@ + e@,
                MessageType::Error,
            ),
        },
        Awaiting::LastMessage => match reply {
            Ok(out) => mode_set(base, post) && (post.mode matches Mode::CommitMessageInput {
                message,
                amend,
            } && amend && message@ == trim(out@)),
            Err(e) => says(base, post, "Error: "@ + e@, MessageType::Error),
        },
        Awaiting::Action(p) => match reply {
            Ok(msg) => says(
                App {
                    refresh_status_due: pre.refresh_status_due || p.status,
                    refresh_stashes_due: pre.refresh_stashes_due || p.stashes,
                    refresh_branches_due: pre.refresh_branches_due || p.branches,
                    ..base
                },
                post,
                msg@,
                if p.info {
                    MessageType::Info
                } else {
                    MessageType::Success
                },
            ),
            Err(e) => if p.conflicts != Conflicts::Never && mentions_conflict(e@) {
                says(base, post, conflict_guidance(p.conflicts), MessageType::Info)
            } else {
                says(base, post, "Error: "@ + e@, MessageType::Error)
            },
        },
    }
}


/// A copy of an optional filter.
fn copy_filter(f: &Option<SearchFilter>) -> (r: Option<SearchFilter>)
    ensures
        r == *f,
{
    match f {
        Some(SearchFilter::Message(q)) => Some(SearchFilter::Message(q.clone())),
        Some(SearchFilter::Author(q)) => Some(SearchFilter::Author(q.clone())),
        None => None,
    }
}

impl App {
    fn on_log(&mut self, reply: Result<String, String>)
        requires
            old(self).wf(),
            old(self).awaiting == Awaiting::Log,
        ensures
            final(self).wf(),
            final(self).awaiting == Awaiting::Nothing,
            after_reply(*old(self), reply, *final(self)),
    {
        self.awaiting = Awaiting::Nothing;
        match reply {
            Ok(out) => {
                let commits = parse_log_output(out.as_str());
                self.selected_commit = first_index(commits.len());
                self.commits = commits;
                self.active_filter = self.pending_filter.take();
            },
            Err(e) => {
                self.pending_filter = None;
                self.set_status(joined("Failed to load commits: ", e.as_str()), MessageType::Error);
            },
        }
    }

    fn on_diff(&mut self, tree: bool, reply: Result<String, String>)
        requires
            old(self).wf(),
            old(self).awaiting == (Awaiting::Diff { tree }),
        ensures
            final(self).wf(),
            final(self).awaiting == Awaiting::Nothing,
            after_reply(*old(self), reply, *final(self)),
    {
        self.awaiting = Awaiting::Nothing;
        match reply {
            Ok(out) => {
                let d = parse_commit_diff(out.as_str());
                self.current_diff = Some(d);
                self.selected_file = Some(0);
                self.diff_scroll = 0;
                self.show_diff = !tree;
                if tree {
                    self.mode = Mode::TreeView { file_selected: false };
                } else if let Mode::TreeView { .. } = self.mode {
                    self.mode = Mode::Normal;
                }
            },
            Err(e) => self.set_status(joined("Failed to load diff: ", e.as_str()), MessageType::Error),
        }
    }

    fn on_status(&mut self, reply: Result<String, String>)
        requires
            old(self).wf(),
            old(self).awaiting == Awaiting::Status,
        ensures
            final(self).wf(),
            final(self).awaiting == Awaiting::Nothing,
            after_reply(*old(self), reply, *final(self)),
    {
        self.awaiting = Awaiting::Nothing;
        match reply {
            Ok(out) => {
                let files = parse_status_output(out.as_str());
                self.selected_status = first_index(files.len());
                self.status_files = files;
            },
            Err(e) => self.set_status(joined("Failed to refresh status: ", e.as_str()), MessageType::Error),
        }
    }

    fn on_stashes(&mut self, reply: Result<String, String>)
        requires
            old(self).wf(),
            old(self).awaiting == Awaiting::Stashes,
        ensures
            final(self).wf(),
            final(self).awaiting == Awaiting::Nothing,
            after_reply(*old(self), reply, *final(self)),
    {
        self.awaiting = Awaiting::Nothing;
        match reply {
            Ok(out) => {
                let stashes = parse_stash_output(out.as_str());
                self.selected_stash = first_index(stashes.len());
                self.stashes = stashes;
            },
            Err(e) => self.set_status(joined("Failed to refresh stashes: ", e.as_str()), MessageType::Error),
        }
    }

    fn on_local_branches(&mut self, reply: Result<String, String>)
        requires
            old(self).wf(),
            old(self).awaiting == Awaiting::LocalBranches,
        ensures
            final(self).wf(),
            final(self).awaiting == Awaiting::Nothing,
            after_reply(*old(self), reply, *final(self)),
    {
        self.awaiting = Awaiting::Nothing;
        match reply {
            Ok(out) => {
                self.fetched_local = Some(parse_branch_output(out.as_str(), false));
            },
            Err(e) => self.set_status(joined("Failed to refresh branches: ", e.as_str()), MessageType::Error),
        }
    }

    fn on_remote_branches(&mut self, reply: Result<String, String>)
        requires
            old(self).wf(),
            old(self).awaiting == Awaiting::RemoteBranches,
        ensures
            final(self).wf(),
            final(self).awaiting == Awaiting::Nothing,
            after_reply(*old(self), reply, *final(self)),
    {
        self.awaiting = Awaiting::Nothing;
        let local = self.fetched_local.take();
        match reply {
            Ok(out) => {
                let mut all = match local {
                    Some(v) => v,
                    None => Vec::new(),
                };
                let mut remotes = parse_branch_output(out.as_str(), true);
                let ghost a = branches_view(all@);
                let ghost b = branches_view(remotes@);
                all.append(&mut remotes);
                assert(branches_view(all@) =~= a + b);
                self.selected_branch = first_index(all.len());
                self.branches = all;
            },
            Err(e) => self.set_status(joined("Failed to refresh branches: ", e.as_str()), MessageType::Error),
        }
    }

    fn on_file_diff(&mut self, reply: Result<String, String>)
        requires
            old(self).wf(),
            old(self).awaiting == Awaiting::FileDiff,
        ensures
            final(self).wf(),
            final(self).awaiting == Awaiting::Nothing,
            after_reply(*old(self), reply, *final(self)),
    {
        self.awaiting = Awaiting::Nothing;
        match reply {
            Ok(out) => {
                self.status_show_diff = true;
                self.status_diff_content = Some(out);
                self.status_diff_scroll = 0;
            },
            Err(e) => {
                self.status_show_diff = false;
                self.status_diff_content = None;
                self.set_status(joined("Failed to load diff: ", e.as_str()), MessageType::Error);
            },
        }
    }

    fn on_last_message(&mut self, reply: Result<String, String>)
        requires
            old(self).wf(),
            old(self).awaiting == Awaiting::LastMessage,
        ensures
            final(self).wf(),
            final(self).awaiting == Awaiting::Nothing,
            after_reply(*old(self), reply, *final(self)),
    {
        self.awaiting = Awaiting::Nothing;
        match reply {
            Ok(out) => {
                let m = trimmed(&chars_of(out.as_str()));
                self.mode = Mode::CommitMessageInput { message: string_of(&m), amend: true };
            },
            Err(e) => self.set_status(joined("Error: ", e.as_str()), MessageType::Error),
        }
    }

    fn on_action(&mut self, p: ActionPlan, reply: Result<String, String>)
        requires
            old(self).wf(),
            old(self).awaiting == Awaiting::Action(p),
        ensures
            final(self).wf(),
            final(self).awaiting == Awaiting::Nothing,
            after_reply(*old(self), reply, *final(self)),
    {
        self.awaiting = Awaiting::Nothing;
        match reply {
            Ok(msg) => {
                self.refresh_status_due = self.refresh_status_due || p.status;
                self.refresh_stashes_due = self.refresh_stashes_due || p.stashes;
                self.refresh_branches_due = self.refresh_branches_due || p.branches;
                let kind = if p.info {
                    MessageType::Info
                } else {
                    MessageType::Success
                };
                self.set_status(msg, kind);
            },
            Err(e) => {
                let never = match p.conflicts {
                    Conflicts::Never => true,
                    _ => false,
                };
                if !never && is_conflict(e.as_str()) {
                    self.set_status(guidance(p.conflicts), MessageType::Info);
                } else {
                    self.set_status(joined("Error: ", e.as_str()), MessageType::Error);
                }
            },
        }
    }

    /// Applies the gateway's reply to what the state awaited.
    pub fn handle_reply(&mut self, reply: Result<String, String>)
        requires
            old(self).wf(),
        ensures
            final(self).wf(),
            final(self).awaiting == Awaiting::Nothing,
            after_reply(*old(self), reply, *final(self)),
    {
        match self.awaiting {
            Awaiting::Nothing => {},
            Awaiting::Log => self.on_log(reply),
            Awaiting::Diff { tree } => self.on_diff(tree, reply),
            Awaiting::Status => self.on_status(reply),
            Awaiting::Stashes => self.on_stashes(reply),
            Awaiting::LocalBranches => self.on_local_branches(reply),
            Awaiting::RemoteBranches => self.on_remote_branches(reply),
            Awaiting::FileDiff => self.on_file_diff(reply),
            Awaiting::LastMessage => self.on_last_message(reply),
            Awaiting::Action(p) => self.on_action(p, reply),
        }
    }

    /// The next refresh that a reply made due, if any, now awaited: the remote
    /// half of a branch listing first, then status, stashes and branches.
    pub fn next_request(&mut self) -> (r: Option<GitCommand>)
        requires
            old(self).wf(),
        ensures
            final(self).wf(),
            old(self).fetched_local is Some ==> r == Some(GitCommand::RemoteBranches) && starts(
                *old(self),
                *final(self),
                Awaiting::RemoteBranches,
            ),
            old(self).fetched_local is None && old(self).refresh_status_due ==> r == Some(
                GitCommand::Status,
            ) && *final(self) == (App {
                awaiting: Awaiting::Status,
                refresh_status_due: false,
                ..*old(self)
            }),
            old(self).fetched_local is None && !old(self).refresh_status_due
                && old(self).refresh_stashes_due ==> r == Some(GitCommand::StashList) && *final(self) == (App { awaiting: Awaiting::Stashes, refresh_stashes_due: false, ..*old(self) }),
            old(self).fetched_local is None && !old(self).refresh_status_due
                && !old(self).refresh_stashes_due && old(self).refresh_branches_due ==> r == Some(
                GitCommand::LocalBranches,
            ) && *final(self) == (App {
                awaiting: Awaiting::LocalBranches,
                refresh_branches_due: false,
                ..*old(self)
            }),
            old(self).fetched_local is None && !old(self).refresh_status_due
                && !old(self).refresh_stashes_due && !old(self).refresh_branches_due ==> r is None
                && *final(self) == *old(self),
    {
        if self.fetched_local.is_some() {
            self.awaiting = Awaiting::RemoteBranches;
            Some(GitCommand::RemoteBranches)
        } else if self.refresh_status_due {
            self.refresh_status_due = false;
            self.awaiting = Awaiting::Status;
            Some(GitCommand::Status)
        } else if self.refresh_stashes_due {
            self.refresh_stashes_due = false;
            self.awaiting = Awaiting::Stashes;
            Some(GitCommand::StashList)
        } else if self.refresh_branches_due {
            self.refresh_branches_due = false;
            self.awaiting = Awaiting::LocalBranches;
            Some(GitCommand::LocalBranches)
        } else {
            None
        }
    }
}


/// Whether `files[i]` is the entry at position `k` of the listing order: the
/// staged entries in their order, then the unstaged ones.
pub open spec fn listed_at(files: Seq<StatusFile>, k: int, i: int) -> bool {
    let s = count_with(files, true) as int;
    if k < s {
        is_nth_with(files, i, true, k)
    } else {
        is_nth_with(files, i, false, k - s)
    }
}

/// The plan of an action that only makes the status list stale.
pub open spec fn status_plan() -> ActionPlan {
    plan(false, Conflicts::Never, true, false, false)
}

/// The plan of an action that only makes the branch list stale.
pub open spec fn branch_plan() -> ActionPlan {
    plan(false, Conflicts::Never, false, false, true)
}

impl App {
    /// The index in `status_files` of the selected entry.
    fn selected_entry(&self) -> (r: Option<usize>)
        requires
            self.wf(),
        ensures
            match self.selected_status {
                Some(k) => r matches Some(i) && listed_at(self.status_files@, k as int, i as int),
                None => r is None,
            },
    {
        match self.selected_status {
            Some(k) => {
                let s = crate::status::count_staged(&self.status_files, true);
                proof {
                    lemma_count_split(self.status_files@);
                }
                if k < s {
                    Some(nth_with(&self.status_files, true, k))
                } else {
                    Some(nth_with(&self.status_files, false, k - s))
                }
            },
            None => None,
        }
    }

    /// The hash of the selected commit.
    pub fn selected_commit_hash(&self) -> (r: Option<String>)
        requires
            self.wf(),
        ensures
            match self.selected_commit {
                Some(i) => r == Some(self.commits@[i as int].hash),
                None => r is None,
            },
    {
        match self.selected_commit {
            Some(i) => Some(self.commits[i].hash.clone()),
            None => None,
        }
    }

    /// Toggles the commit diff: closes a shown one, or asks for the display of the
    /// selected commit.
    pub fn toggle_diff(&mut self) -> (r: Option<GitCommand>)
        requires
            old(self).wf(),
        ensures
            final(self).wf(),
            toggle_diff_post(*old(self), r, *final(self)),
    {
        if self.show_diff {
            self.show_diff = false;
            self.current_diff = None;
            self.diff_scroll = 0;
            self.selected_file = None;
            None
        } else if let Some(i) = self.selected_commit {
            let hash = self.commits[i].hash.clone();
            self.awaiting = Awaiting::Diff { tree: false };
            Some(GitCommand::Show { hash })
        } else {
            None
        }
    }

    /// Toggles tree view: leaves it, dropping the diff, or asks for the display of
    /// the selected commit to browse.
    pub fn toggle_tree_view(&mut self) -> (r: Option<GitCommand>)
        requires
            old(self).wf(),
        ensures
            final(self).wf(),
            toggle_tree_view_post(*old(self), r, *final(self)),
    {
        if let Mode::TreeView { .. } = self.mode {
            self.mode = Mode::Normal;
            self.current_diff = None;
            self.selected_file = None;
            self.diff_scroll = 0;
            None
        } else if let Some(i) = self.selected_commit {
            let hash = self.commits[i].hash.clone();
            self.awaiting = Awaiting::Diff { tree: true };
            Some(GitCommand::Show { hash })
        } else {
            None
        }
    }

    /// Selects the next file in tree view, wrapping.
    pub fn next_tree_file(&mut self)
        requires
            old(self).wf(),
        ensures
            final(self).wf(),
            next_tree_file_post(*old(self), *final(self)),
    {
        let n = match &self.current_diff {
            Some(d) => d.files.len(),
            None => 0,
        };
        if n > 0 {
            self.selected_file = next_index(self.selected_file, n);
        }
    }

    /// Selects the previous file in tree view, wrapping.
    pub fn previous_tree_file(&mut self)
        requires
            old(self).wf(),
        ensures
            final(self).wf(),
            previous_tree_file_post(*old(self), *final(self)),
    {
        let n = match &self.current_diff {
            Some(d) => d.files.len(),
            None => 0,
        };
        if n > 0 {
            self.selected_file = previous_index(self.selected_file, n);
        }
    }

    /// In tree view, switches between the file list and the selected file's diff.
    pub fn select_tree_file(&mut self)
        requires
            old(self).wf(),
        ensures
            final(self).wf(),
            select_tree_file_post(*old(self), *final(self)),
    {
        if let Mode::TreeView { file_selected } = self.mode {
            self.mode = Mode::TreeView { file_selected: !file_selected };
            self.diff_scroll = 0;
        }
    }

    /// Steps out of tree view: from a file's diff back to the file list, from the
    /// file list out of tree view, dropping the diff.
    pub fn exit_tree_view(&mut self)
        requires
            old(self).wf(),
        ensures
            final(self).wf(),
            exit_tree_view_post(*old(self), *final(self)),
    {
        if let Mode::TreeView { file_selected } = self.mode {
            if file_selected {
                self.mode = Mode::TreeView { file_selected: false };
                self.diff_scroll = 0;
            } else {
                self.mode = Mode::Normal;
                self.current_diff = None;
                self.selected_file = None;
                self.diff_scroll = 0;
            }
        }
    }

    /// Confirms the search: leaves search mode and asks for the history with the
    /// filter that the query stands for, which becomes active once it arrives.
    pub fn execute_search(&mut self) -> (r: Option<GitCommand>)
        requires
            old(self).wf(),
        ensures
            final(self).wf(),
            execute_search_post(*old(self), r, *final(self)),
    {
        let filter = if let Mode::Search { query } = &self.mode {
            let q = chars_of(query.as_str());
            if q.len() == 0 {
                None
            } else if q[0] == '@' {
                let author = crate::text::slice(&q, 1, q.len());
                assert(author@ =~= q@.drop_first());
                Some(SearchFilter::Author(string_of(&author)))
            } else {
                Some(SearchFilter::Message(query.clone()))
            }
        } else {
            return None;
        };
        self.mode = Mode::Normal;
        let sent = copy_filter(&filter);
        self.pending_filter = filter;
        self.awaiting = Awaiting::Log;
        Some(GitCommand::Log { filter: sent })
    }

    /// Asks for the whole history again; the filter is dropped once it arrives.
    pub fn clear_search(&mut self) -> (r: Option<GitCommand>)
        requires
            old(self).wf(),
        ensures
            final(self).wf(),
            clear_search_post(*old(self), r, *final(self)),
    {
        self.pending_filter = None;
        self.awaiting = Awaiting::Log;
        Some(GitCommand::Log { filter: None })
    }

    /// Asks to check out the selected commit.
    pub fn checkout_selected_commit(&mut self) -> (r: Option<GitCommand>)
        requires
            old(self).wf(),
        ensures
            final(self).wf(),
            checkout_selected_commit_post(*old(self), r, *final(self)),
    {
        if let Some(i) = self.selected_commit {
            let hash = self.commits[i].hash.clone();
            self.awaiting = Awaiting::Action(
                ActionPlan {
                    info: false,
                    conflicts: Conflicts::Never,
                    status: false,
                    stashes: false,
                    branches: false,
                },
            );
            Some(GitCommand::Checkout { hash })
        } else {
            None
        }
    }

    /// Asks to cherry-pick the selected commit.
    pub fn cherry_pick_commit(&mut self) -> (r: Option<GitCommand>)
        requires
            old(self).wf(),
        ensures
            final(self).wf(),
            cherry_pick_commit_post(*old(self), r, *final(self)),
    {
        if let Some(i) = self.selected_commit {
            let hash = self.commits[i].hash.clone();
            self.awaiting = Awaiting::Action(
                ActionPlan {
                    info: true,
                    conflicts: Conflicts::CherryPick,
                    status: false,
                    stashes: false,
                    branches: false,
                },
            );
            Some(GitCommand::CherryPick { hash })
        } else {
            None
        }
    }

    /// Asks to revert the selected commit.
    pub fn revert_selected_commit(&mut self) -> (r: Option<GitCommand>)
        requires
            old(self).wf(),
        ensures
            final(self).wf(),
            revert_selected_commit_post(*old(self), r, *final(self)),
    {
        if let Some(i) = self.selected_commit {
            let hash = self.commits[i].hash.clone();
            self.awaiting = Awaiting::Action(
                ActionPlan {
                    info: true,
                    conflicts: Conflicts::Revert,
                    status: false,
                    stashes: false,
                    branches: false,
                },
            );
            Some(GitCommand::Revert { hash })
        } else {
            None
        }
    }

    /// Confirms branch naming: leaves the mode and asks to create the branch at
    /// the commit chosen on entry; an empty name is refused with an error.
    pub fn create_branch_from_commit(&mut self) -> (r: Option<GitCommand>)
        requires
            old(self).wf(),
        ensures
            final(self).wf(),
            create_branch_from_commit_post(*old(self), r, *final(self)),
    {
        let (name, hash) = if let Mode::BranchNameInput { name, hash } = &self.mode {
            (name.clone(), hash.clone())
        } else {
            return None;
        };
        self.mode = Mode::Normal;
        if name.as_str().is_empty() {
            self.set_status("Branch name cannot be empty".to_string(), MessageType::Error);
            return None;
        }
        self.awaiting = Awaiting::Action(
            ActionPlan {
                info: false,
                conflicts: Conflicts::Never,
                status: false,
                stashes: false,
                branches: true,
            },
        );
        Some(GitCommand::CreateBranch { name, hash })
    }
}


fn make_plan(info: bool, conflicts: Conflicts, status: bool, stashes: bool, branches: bool) -> (r:
    ActionPlan)
    ensures
        r == plan(info, conflicts, status, stashes, branches),
{
    ActionPlan { info, conflicts, status, stashes, branches }
}

impl App {
    /// Moves the status cursor down the listing, wrapping.
    pub fn next_status_file(&mut self)
        requires
            old(self).wf(),
        ensures
            final(self).wf(),
            next_status_file_post(*old(self), *final(self)),
    {
        self.selected_status = next_index(self.selected_status, self.status_files.len());
    }

    /// Moves the status cursor up the listing, wrapping.
    pub fn previous_status_file(&mut self)
        requires
            old(self).wf(),
        ensures
            final(self).wf(),
            previous_status_file_post(*old(self), *final(self)),
    {
        self.selected_status = previous_index(self.selected_status, self.status_files.len());
    }

    /// Asks to stage the selected entry, or to unstage it when it is staged.
    pub fn toggle_stage(&mut self) -> (r: Option<GitCommand>)
        requires
            old(self).wf(),
        ensures
            final(self).wf(),
            toggle_stage_post(*old(self), r, *final(self)),
    {
        let i = match self.selected_entry() {
            Some(i) => i,
            None => return None,
        };
        let path = self.status_files[i].path.clone();
        let staged = self.status_files[i].staged;
        self.awaiting = Awaiting::Action(make_plan(false, Conflicts::Never, true, false, false));
        if staged {
            Some(GitCommand::Unstage { path })
        } else {
            Some(GitCommand::Stage { path })
        }
    }

    /// Asks to stage every change.
    pub fn stage_all_files(&mut self) -> (r: Option<GitCommand>)
        requires
            old(self).wf(),
        ensures
            final(self).wf(),
            stage_all_files_post(*old(self), r, *final(self)),
    {
        self.awaiting = Awaiting::Action(make_plan(false, Conflicts::Never, true, false, false));
        Some(GitCommand::StageAll)
    }

    /// Asks to unstage every change.
    pub fn unstage_all_files(&mut self) -> (r: Option<GitCommand>)
        requires
            old(self).wf(),
        ensures
            final(self).wf(),
            unstage_all_files_post(*old(self), r, *final(self)),
    {
        self.awaiting = Awaiting::Action(make_plan(false, Conflicts::Never, true, false, false));
        Some(GitCommand::UnstageAll)
    }

    /// Confirms the commit message: leaves the mode and asks to commit (or amend);
    /// an empty message is refused with an error.
    pub fn execute_commit(&mut self) -> (r: Option<GitCommand>)
        requires
            old(self).wf(),
        ensures
            final(self).wf(),
            execute_commit_post(*old(self), r, *final(self)),
    {
        let (message, amend) = if let Mode::CommitMessageInput { message, amend } = &self.mode {
            (message.clone(), *amend)
        } else {
            return None;
        };
        self.mode = Mode::Normal;
        if message.as_str().is_empty() {
            self.set_status("Commit message cannot be empty".to_string(), MessageType::Error);
            return None;
        }
        self.awaiting = Awaiting::Action(make_plan(false, Conflicts::Never, true, false, false));
        Some(GitCommand::Commit { message, amend })
    }

    /// Asks for the last commit's message, to amend it; the reply opens the
    /// commit-message input with it.
    pub fn enter_amend_mode(&mut self) -> (r: Option<GitCommand>)
        requires
            old(self).wf(),
        ensures
            final(self).wf(),
            enter_amend_mode_post(*old(self), r, *final(self)),
    {
        self.awaiting = Awaiting::LastMessage;
        Some(GitCommand::LastCommitMessage)
    }

    /// Asks to discard the unstaged changes of the selected entry; a staged entry
    /// is refused with an error.
    pub fn discard_selected_file(&mut self) -> (r: Option<GitCommand>)
        requires
            old(self).wf(),
        ensures
            final(self).wf(),
            discard_selected_file_post(*old(self), r, *final(self)),
    {
        let i = match self.selected_entry() {
            Some(i) => i,
            None => return None,
        };
        if self.status_files[i].staged {
            self.set_status(
                "Cannot discard staged file. Unstage it first.".to_string(),
                MessageType::Error,
            );
            return None;
        }
        let path = self.status_files[i].path.clone();
        self.awaiting = Awaiting::Action(make_plan(false, Conflicts::Never, true, false, false));
        Some(GitCommand::Discard { path })
    }

    /// Toggles the diff of the selected entry: closes a shown one, or asks for it.
    pub fn toggle_status_diff(&mut self) -> (r: Option<GitCommand>)
        requires
            old(self).wf(),
        ensures
            final(self).wf(),
            toggle_status_diff_post(*old(self), r, *final(self)),
    {
        if self.status_show_diff {
            self.status_show_diff = false;
            self.status_diff_content = None;
            self.status_diff_scroll = 0;
            return None;
        }
        let i = match self.selected_entry() {
            Some(i) => i,
            None => return None,
        };
        let path = self.status_files[i].path.clone();
        let staged = self.status_files[i].staged;
        self.awaiting = Awaiting::FileDiff;
        Some(GitCommand::FileDiff { path, staged })
    }

    /// Scrolls the entry diff up one line, stopping at the top.
    pub fn scroll_status_diff_up(&mut self)
        requires
            old(self).wf(),
        ensures
            final(self).wf(),
            scroll_status_diff_up_post(*old(self), *final(self)),
    {
        self.status_diff_scroll = self.status_diff_scroll.saturating_sub(1);
    }

    /// Scrolls the entry diff down one line.
    pub fn scroll_status_diff_down(&mut self)
        requires
            old(self).wf(),
        ensures
            final(self).wf(),
            scroll_status_diff_down_post(*old(self), *final(self)),
    {
        self.status_diff_scroll = self.status_diff_scroll.saturating_add(1);
    }

    /// Scrolls the entry diff up one page, stopping at the top.
    pub fn scroll_status_diff_page_up(&mut self)
        requires
            old(self).wf(),
        ensures
            final(self).wf(),
            scroll_status_diff_page_up_post(*old(self), *final(self)),
    {
        self.status_diff_scroll = self.status_diff_scroll.saturating_sub(PAGE);
    }

    /// Scrolls the entry diff down one page.
    pub fn scroll_status_diff_page_down(&mut self)
        requires
            old(self).wf(),
        ensures
            final(self).wf(),
            scroll_status_diff_page_down_post(*old(self), *final(self)),
    {
        self.status_diff_scroll = self.status_diff_scroll.saturating_add(PAGE);
    }

    /// Moves the stash cursor down, wrapping.
    pub fn next_stash(&mut self)
        requires
            old(self).wf(),
        ensures
            final(self).wf(),
            next_stash_post(*old(self), *final(self)),
    {
        self.selected_stash = next_index(self.selected_stash, self.stashes.len());
    }

    /// Moves the stash cursor up, wrapping.
    pub fn previous_stash(&mut self)
        requires
            old(self).wf(),
        ensures
            final(self).wf(),
            previous_stash_post(*old(self), *final(self)),
    {
        self.selected_stash = previous_index(self.selected_stash, self.stashes.len());
    }

    /// Asks to apply the selected stash.
    pub fn apply_selected_stash(&mut self) -> (r: Option<GitCommand>)
        requires
            old(self).wf(),
        ensures
            final(self).wf(),
            apply_selected_stash_post(*old(self), r, *final(self)),
    {
        if let Some(i) = self.selected_stash {
            let index = self.stashes[i].index;
            self.awaiting = Awaiting::Action(make_plan(false, Conflicts::Never, true, false, false));
            Some(GitCommand::ApplyStash { index })
        } else {
            None
        }
    }

    /// Asks to apply and remove the selected stash.
    pub fn pop_selected_stash(&mut self) -> (r: Option<GitCommand>)
        requires
            old(self).wf(),
        ensures
            final(self).wf(),
            pop_selected_stash_post(*old(self), r, *final(self)),
    {
        if let Some(i) = self.selected_stash {
            let index = self.stashes[i].index;
            self.awaiting = Awaiting::Action(make_plan(false, Conflicts::Never, true, true, false));
            Some(GitCommand::PopStash { index })
        } else {
            None
        }
    }

    /// Asks to remove the selected stash.
    pub fn drop_selected_stash(&mut self) -> (r: Option<GitCommand>)
        requires
            old(self).wf(),
        ensures
            final(self).wf(),
            drop_selected_stash_post(*old(self), r, *final(self)),
    {
        if let Some(i) = self.selected_stash {
            let index = self.stashes[i].index;
            self.awaiting = Awaiting::Action(make_plan(false, Conflicts::Never, false, true, false));
            Some(GitCommand::DropStash { index })
        } else {
            None
        }
    }

    /// Confirms the stash message: leaves the mode and asks to stash the changes,
    /// with the message if one was typed.
    pub fn execute_create_stash(&mut self) -> (r: Option<GitCommand>)
        requires
            old(self).wf(),
        ensures
            final(self).wf(),
            execute_create_stash_post(*old(self), r, *final(self)),
    {
        let message = if let Mode::StashMessageInput { message } = &self.mode {
            message.clone()
        } else {
            return None;
        };
        self.mode = Mode::Normal;
        self.awaiting = Awaiting::Action(make_plan(false, Conflicts::Never, true, true, false));
        if message.as_str().is_empty() {
            Some(GitCommand::CreateStash { message: None })
        } else {
            Some(GitCommand::CreateStash { message: Some(message) })
        }
    }

    /// Moves the branch cursor down, wrapping.
    pub fn next_branch(&mut self)
        requires
            old(self).wf(),
        ensures
            final(self).wf(),
            next_branch_post(*old(self), *final(self)),
    {
        self.selected_branch = next_index(self.selected_branch, self.branches.len());
    }

    /// Moves the branch cursor up, wrapping.
    pub fn previous_branch(&mut self)
        requires
            old(self).wf(),
        ensures
            final(self).wf(),
            previous_branch_post(*old(self), *final(self)),
    {
        self.selected_branch = previous_index(self.selected_branch, self.branches.len());
    }

    /// Asks to switch to the selected branch; the current branch is reported as such.
    pub fn switch_to_selected_branch(&mut self) -> (r: Option<GitCommand>)
        requires
            old(self).wf(),
        ensures
            final(self).wf(),
            switch_to_selected_branch_post(*old(self), r, *final(self)),
    {
        if let Some(i) = self.selected_branch {
            if self.branches[i].is_current {
                self.set_status("Already on this branch".to_string(), MessageType::Info);
                return None;
            }
            let name = self.branches[i].name.clone();
            self.awaiting = Awaiting::Action(make_plan(false, Conflicts::Never, false, false, true));
            Some(GitCommand::SwitchBranch { name })
        } else {
            None
        }
    }

    /// Asks to delete the selected local branch; the current branch and remote
    /// branches are refused with an error.
    pub fn delete_selected_branch(&mut self) -> (r: Option<GitCommand>)
        requires
            old(self).wf(),
        ensures
            final(self).wf(),
            delete_selected_branch_post(*old(self), r, *final(self)),
    {
        if let Some(i) = self.selected_branch {
            if self.branches[i].is_current {
                self.set_status("Cannot delete current branch".to_string(), MessageType::Error);
                return None;
            }
            if self.branches[i].is_remote {
                self.set_status(
                    "Cannot delete remote branches from this view".to_string(),
                    MessageType::Error,
                );
                return None;
            }
            let name = self.branches[i].name.clone();
            self.awaiting = Awaiting::Action(make_plan(false, Conflicts::Never, false, false, true));
            Some(GitCommand::DeleteBranch { name })
        } else {
            None
        }
    }

    /// Asks to merge the selected branch into the current one; merging the current
    /// branch into itself is refused with an error.
    pub fn merge_selected_branch(&mut self) -> (r: Option<GitCommand>)
        requires
            old(self).wf(),
        ensures
            final(self).wf(),
            merge_selected_branch_post(*old(self), r, *final(self)),
    {
        if let Some(i) = self.selected_branch {
            if self.branches[i].is_current {
                self.set_status("Cannot merge a branch into itself".to_string(), MessageType::Error);
                return None;
            }
            let name = self.branches[i].name.clone();
            self.awaiting = Awaiting::Action(make_plan(false, Conflicts::Merge, true, false, true));
            Some(GitCommand::Merge { name })
        } else {
            None
        }
    }

    /// Confirms the new branch's name: leaves the mode and asks to create the
    /// branch; an empty name is refused with an error.
    pub fn execute_create_new_branch(&mut self) -> (r: Option<GitCommand>)
        requires
            old(self).wf(),
        ensures
            final(self).wf(),
            execute_create_new_branch_post(*old(self), r, *final(self)),
    {
        let name = if let Mode::NewBranchNameInput { name } = &self.mode {
            name.clone()
        } else {
            return None;
        };
        self.mode = Mode::Normal;
        if name.as_str().is_empty() {
            self.set_status("Branch name cannot be empty".to_string(), MessageType::Error);
            return None;
        }
        self.awaiting = Awaiting::Action(make_plan(false, Conflicts::Never, false, false, true));
        Some(GitCommand::NewBranch { name })
    }

    /// Asks to fetch from the remote.
    pub fn fetch_from_remote(&mut self) -> (r: Option<GitCommand>)
        requires
            old(self).wf(),
        ensures
            final(self).wf(),
            fetch_from_remote_post(*old(self), r, *final(self)),
    {
        self.awaiting = Awaiting::Action(make_plan(false, Conflicts::Never, false, false, true));
        Some(GitCommand::Fetch)
    }

    /// Asks to push to the remote.
    pub fn push_to_remote(&mut self) -> (r: Option<GitCommand>)
        requires
            old(self).wf(),
        ensures
            final(self).wf(),
            push_to_remote_post(*old(self), r, *final(self)),
    {
        self.awaiting = Awaiting::Action(make_plan(false, Conflicts::Never, false, false, false));
        Some(GitCommand::Push)
    }

    /// Asks to pull from the remote.
    pub fn pull_from_remote(&mut self) -> (r: Option<GitCommand>)
        requires
            old(self).wf(),
        ensures
            final(self).wf(),
            pull_from_remote_post(*old(self), r, *final(self)),
    {
        self.awaiting = Awaiting::Action(make_plan(false, Conflicts::Never, true, false, true));
        Some(GitCommand::Pull)
    }

    /// Asks for the status listing again.
    pub fn refresh_status(&mut self) -> (r: Option<GitCommand>)
        requires
            old(self).wf(),
        ensures
            final(self).wf(),
            refresh_status_post(*old(self), r, *final(self)),
    {
        self.awaiting = Awaiting::Status;
        Some(GitCommand::Status)
    }

    /// Asks for the stash listing again.
    pub fn refresh_stashes(&mut self) -> (r: Option<GitCommand>)
        requires
            old(self).wf(),
        ensures
            final(self).wf(),
            refresh_stashes_post(*old(self), r, *final(self)),
    {
        self.awaiting = Awaiting::Stashes;
        Some(GitCommand::StashList)
    }

    /// Asks for the branch listings again, local first.
    pub fn refresh_branches(&mut self) -> (r: Option<GitCommand>)
        requires
            old(self).wf(),
        ensures
            final(self).wf(),
            refresh_branches_post(*old(self), r, *final(self)),
    {
        self.awaiting = Awaiting::LocalBranches;
        Some(GitCommand::LocalBranches)
    }
}

/// The effect of [`App::next`].
pub open spec fn next_post(pre: App, post: App) -> bool {
    &&& pre.commits@.len() == 0 ==> post == pre
    &&& pre.commits@.len() > 0 ==> post == (App {
        selected_commit: wrap_next(pre.selected_commit, pre.commits@.len()),
        diff_scroll: 0,
        ..pre
    })
}

/// The effect of [`App::previous`].
pub open spec fn previous_post(pre: App, post: App) -> bool {
    &&& pre.commits@.len() == 0 ==> post == pre
    &&& pre.commits@.len() > 0 ==> post == (App {
        selected_commit: wrap_previous(pre.selected_commit, pre.commits@.len()),
        diff_scroll: 0,
        ..pre
    })
}

/// The effect of [`App::scroll_diff_up`].
pub open spec fn scroll_diff_up_post(pre: App, post: App) -> bool {
    &&& post == (App {
        diff_scroll: if pre.diff_scroll > 0 {
            (pre.diff_scroll - 1) as u16
        } else {
            0
        },
        ..pre
    })
}

/// The effect of [`App::scroll_diff_down`].
pub open spec fn scroll_diff_down_post(pre: App, post: App) -> bool {
    &&& post == (App {
        diff_scroll: if pre.diff_scroll < u16::MAX {
            (pre.diff_scroll + 1) as u16
        } else {
            u16::MAX
        },
        ..pre
    })
}

/// The effect of [`App::scroll_diff_page_up`].
pub open spec fn scroll_diff_page_up_post(pre: App, post: App) -> bool {
    &&& post == (App {
        diff_scroll: if pre.diff_scroll > PAGE {
            (pre.diff_scroll - PAGE) as u16
        } else {
            0
        },
        ..pre
    })
}

/// The effect of [`App::scroll_diff_page_down`].
pub open spec fn scroll_diff_page_down_post(pre: App, post: App) -> bool {
    &&& post == (App {
        diff_scroll: if pre.diff_scroll + PAGE <= u16::MAX {
            (pre.diff_scroll + PAGE) as u16
        } else {
            u16::MAX
        },
        ..pre
    })
}

/// The effect of [`App::next_file`].
pub open spec fn next_file_post(pre: App, post: App) -> bool {
    &&& diff_len(pre.current_diff) == 0 ==> post == pre
    &&& diff_len(pre.current_diff) > 0 ==> post == (App {
        selected_file: wrap_next(pre.selected_file, diff_len(pre.current_diff)),
        diff_scroll: 0,
        ..pre
    })
}

/// The effect of [`App::previous_file`].
pub open spec fn previous_file_post(pre: App, post: App) -> bool {
    &&& diff_len(pre.current_diff) == 0 ==> post == pre
    &&& diff_len(pre.current_diff) > 0 ==> post == (App {
        selected_file: wrap_previous(
            pre.selected_file,
            diff_len(pre.current_diff),
        ),
        diff_scroll: 0,
        ..pre
    })
}

/// The effect of [`App::quit`].
pub open spec fn quit_post(pre: App, post: App) -> bool {
    &&& pre.show_diff ==> post == (App {
        show_diff: false,
        current_diff: None,
        diff_scroll: 0,
        selected_file: None,
        ..pre
    })
    &&& !pre.show_diff ==> post == (App { should_quit: true, ..pre })
}

/// The effect of [`App::clear_status`].
pub open spec fn clear_status_post(pre: App, post: App) -> bool {
    &&& post == (App { status_message: None, ..pre })
}

/// The effect of [`App::enter_search_mode`].
pub open spec fn enter_search_mode_post(pre: App, post: App) -> bool {
    &&& mode_set(pre, post)
    &&& post.mode matches Mode::Search { query } && query@.len() == 0
}

/// The effect of [`App::exit_search_mode`].
pub open spec fn exit_search_mode_post(pre: App, post: App) -> bool {
    &&& pre.mode is Search ==> post == (App { mode: Mode::Normal, ..pre })
    &&& !(pre.mode is Search) ==> post == pre
}

/// The effect of [`App::delete_search_char`].
pub open spec fn delete_search_char_post(pre: App, post: App) -> bool {
    &&& mode_set(pre, post)
    &&& pre.mode matches Mode::Search { query } ==> post.mode matches Mode::Search {
        query: q,
    } && q@ == (if query@.len() > 0 {
        query@.drop_last()
    } else {
        query@
    })
    &&& !(pre.mode is Search) ==> post.mode == pre.mode
}

/// The effect of [`App::enter_branch_input_mode`].
pub open spec fn enter_branch_input_mode_post(pre: App, post: App) -> bool {
    &&& mode_set(pre, post)
    &&& match pre.selected_commit {
        Some(i) => post.mode matches Mode::BranchNameInput { name, hash } && name@.len()
            == 0 && hash == pre.commits@[i as int].hash,
        None => post == pre,
    }
}

/// The effect of [`App::exit_branch_input_mode`].
pub open spec fn exit_branch_input_mode_post(pre: App, post: App) -> bool {
    &&& pre.mode is BranchNameInput ==> post == (App {
        mode: Mode::Normal,
        ..pre
    })
    &&& !(pre.mode is BranchNameInput) ==> post == pre
}

/// The effect of [`App::delete_branch_char`].
pub open spec fn delete_branch_char_post(pre: App, post: App) -> bool {
    &&& mode_set(pre, post)
    &&& pre.mode matches Mode::BranchNameInput { name, hash } ==> (post.mode matches Mode::BranchNameInput {
        name: n,
        hash: h,
    } && n@ == (if name@.len() > 0 {
            name@.drop_last()
        } else {
            name@
        })
        && h == hash)
    &&& !(pre.mode is BranchNameInput) ==> post.mode == pre.mode
}

/// The effect of [`App::enter_commit_message_mode`].
pub open spec fn enter_commit_message_mode_post(pre: App, post: App) -> bool {
    &&& mode_set(pre, post)
    &&& post.mode matches Mode::CommitMessageInput { message, amend } && message@.len()
        == 0 && !amend
}

/// The effect of [`App::exit_commit_message_mode`].
pub open spec fn exit_commit_message_mode_post(pre: App, post: App) -> bool {
    &&& pre.mode is CommitMessageInput ==> post == (App {
        mode: Mode::Normal,
        ..pre
    })
    &&& !(pre.mode is CommitMessageInput) ==> post == pre
}

/// The effect of [`App::delete_commit_char`].
pub open spec fn delete_commit_char_post(pre: App, post: App) -> bool {
    &&& mode_set(pre, post)
    &&& pre.mode matches Mode::CommitMessageInput { message, amend } ==> (post.mode matches Mode::CommitMessageInput {
        message: m,
        amend: a,
    } && m@
        == (if message@.len() > 0 {
            message@.drop_last()
        } else {
            message@
        }) && a == amend)
    &&& !(pre.mode is CommitMessageInput) ==> post.mode == pre.mode
}

/// The effect of [`App::enter_stash_input_mode`].
pub open spec fn enter_stash_input_mode_post(pre: App, post: App) -> bool {
    &&& mode_set(pre, post)
    &&& post.mode matches Mode::StashMessageInput { message } && message@.len() == 0
}

/// The effect of [`App::exit_stash_input_mode`].
pub open spec fn exit_stash_input_mode_post(pre: App, post: App) -> bool {
    &&& pre.mode is StashMessageInput ==> post == (App {
        mode: Mode::Normal,
        ..pre
    })
    &&& !(pre.mode is StashMessageInput) ==> post == pre
}

/// The effect of [`App::delete_stash_char`].
pub open spec fn delete_stash_char_post(pre: App, post: App) -> bool {
    &&& mode_set(pre, post)
    &&& pre.mode matches Mode::StashMessageInput { message } ==> (post.mode matches Mode::StashMessageInput {
        message: m,
    } && m@ == (if message@.len() > 0 {
            message@.drop_last()
        } else {
            message@
        }))
    &&& !(pre.mode is StashMessageInput) ==> post.mode == pre.mode
}

/// The effect of [`App::enter_new_branch_mode`].
pub open spec fn enter_new_branch_mode_post(pre: App, post: App) -> bool {
    &&& mode_set(pre, post)
    &&& post.mode matches Mode::NewBranchNameInput { name } && name@.len() == 0
}

/// The effect of [`App::exit_new_branch_mode`].
pub open spec fn exit_new_branch_mode_post(pre: App, post: App) -> bool {
    &&& pre.mode is NewBranchNameInput ==> post == (App {
        mode: Mode::Normal,
        ..pre
    })
    &&& !(pre.mode is NewBranchNameInput) ==> post == pre
}

/// The effect of [`App::delete_new_branch_char`].
pub open spec fn delete_new_branch_char_post(pre: App, post: App) -> bool {
    &&& mode_set(pre, post)
    &&& pre.mode matches Mode::NewBranchNameInput { name } ==> (post.mode matches Mode::NewBranchNameInput {
        name: n,
    } && n@ == (if name@.len() > 0 {
            name@.drop_last()
        } else {
            name@
        }))
    &&& !(pre.mode is NewBranchNameInput) ==> post.mode == pre.mode
}

/// The effect of [`App::toggle_diff`].
pub open spec fn toggle_diff_post(pre: App, r: Option<GitCommand>, post: App) -> bool {
    &&& pre.show_diff ==> r is None && post == (App {
        show_diff: false,
        current_diff: None,
        diff_scroll: 0,
        selected_file: None,
        ..pre
    })
    &&& !pre.show_diff ==> match pre.selected_commit {
        Some(i) => r == Some(GitCommand::Show { hash: pre.commits@[i as int].hash })
            && starts(pre, post, Awaiting::Diff { tree: false }),
        None => r is None && post == pre,
    }
}

/// The effect of [`App::toggle_tree_view`].
pub open spec fn toggle_tree_view_post(pre: App, r: Option<GitCommand>, post: App) -> bool {
    &&& pre.mode is TreeView ==> r is None && post == (App {
        mode: Mode::Normal,
        current_diff: None,
        selected_file: None,
        diff_scroll: 0,
        ..pre
    })
    &&& !(pre.mode is TreeView) ==> match pre.selected_commit {
        Some(i) => r == Some(GitCommand::Show { hash: pre.commits@[i as int].hash })
            && starts(pre, post, Awaiting::Diff { tree: true }),
        None => r is None && post == pre,
    }
}

/// The effect of [`App::next_tree_file`].
pub open spec fn next_tree_file_post(pre: App, post: App) -> bool {
    &&& diff_len(pre.current_diff) == 0 ==> post == pre
    &&& diff_len(pre.current_diff) > 0 ==> post == (App {
        selected_file: wrap_next(pre.selected_file, diff_len(pre.current_diff)),
        ..pre
    })
}

/// The effect of [`App::previous_tree_file`].
pub open spec fn previous_tree_file_post(pre: App, post: App) -> bool {
    &&& diff_len(pre.current_diff) == 0 ==> post == pre
    &&& diff_len(pre.current_diff) > 0 ==> post == (App {
        selected_file: wrap_previous(
            pre.selected_file,
            diff_len(pre.current_diff),
        ),
        ..pre
    })
}

/// The effect of [`App::select_tree_file`].
pub open spec fn select_tree_file_post(pre: App, post: App) -> bool {
    &&& pre.mode matches Mode::TreeView { file_selected } ==> post == (App {
        mode: Mode::TreeView { file_selected: !file_selected },
        diff_scroll: 0,
        ..pre
    })
    &&& !(pre.mode is TreeView) ==> post == pre
}

/// The effect of [`App::exit_tree_view`].
pub open spec fn exit_tree_view_post(pre: App, post: App) -> bool {
    &&& pre.mode == (Mode::TreeView { file_selected: true }) ==> post == (App {
        mode: Mode::TreeView { file_selected: false },
        diff_scroll: 0,
        ..pre
    })
    &&& pre.mode == (Mode::TreeView { file_selected: false }) ==> post == (App {
        mode: Mode::Normal,
        current_diff: None,
        selected_file: None,
        diff_scroll: 0,
        ..pre
    })
    &&& !(pre.mode is TreeView) ==> post == pre
}

/// The effect of [`App::execute_search`].
pub open spec fn execute_search_post(pre: App, r: Option<GitCommand>, post: App) -> bool {
    &&& pre.mode matches Mode::Search { query } ==> filter_view(post.pending_filter)
        == filter_of(query@) && r == Some(
        GitCommand::Log { filter: post.pending_filter },
    ) && post == (App {
        mode: Mode::Normal,
        pending_filter: post.pending_filter,
        awaiting: Awaiting::Log,
        ..pre
    })
    &&& !(pre.mode is Search) ==> r is None && post == pre
}

/// The effect of [`App::clear_search`].
pub open spec fn clear_search_post(pre: App, r: Option<GitCommand>, post: App) -> bool {
    &&& r == Some(GitCommand::Log { filter: None })
    &&& post == (App { pending_filter: None, awaiting: Awaiting::Log, ..pre })
}

/// The effect of [`App::checkout_selected_commit`].
pub open spec fn checkout_selected_commit_post(pre: App, r: Option<GitCommand>, post: App) -> bool {
    &&& match pre.selected_commit {
        Some(i) => r == Some(GitCommand::Checkout { hash: pre.commits@[i as int].hash })
            && starts(
            pre,
            post,
            Awaiting::Action(plan(false, Conflicts::Never, false, false, false)),
        ),
        None => r is None && post == pre,
    }
}

/// The effect of [`App::cherry_pick_commit`].
pub open spec fn cherry_pick_commit_post(pre: App, r: Option<GitCommand>, post: App) -> bool {
    &&& match pre.selected_commit {
        Some(i) => r == Some(GitCommand::CherryPick { hash: pre.commits@[i as int].hash })
            && starts(
            pre,
            post,
            Awaiting::Action(plan(true, Conflicts::CherryPick, false, false, false)),
        ),
        None => r is None && post == pre,
    }
}

/// The effect of [`App::revert_selected_commit`].
pub open spec fn revert_selected_commit_post(pre: App, r: Option<GitCommand>, post: App) -> bool {
    &&& match pre.selected_commit {
        Some(i) => r == Some(GitCommand::Revert { hash: pre.commits@[i as int].hash })
            && starts(
            pre,
            post,
            Awaiting::Action(plan(true, Conflicts::Revert, false, false, false)),
        ),
        None => r is None && post == pre,
    }
}

/// The effect of [`App::create_branch_from_commit`].
pub open spec fn create_branch_from_commit_post(pre: App, r: Option<GitCommand>, post: App) -> bool {
    &&& pre.mode matches Mode::BranchNameInput { name, hash } ==> if name@.len() == 0 {
        r is None && says(
            App { mode: Mode::Normal, ..pre },
            post,
            "Branch name cannot be empty"@,
            MessageType::Error,
        )
    } else {
        r == Some(GitCommand::CreateBranch { name, hash }) && post == (App {
            mode: Mode::Normal,
            awaiting: Awaiting::Action(branch_plan()),
            ..pre
        })
    }
    &&& !(pre.mode is BranchNameInput) ==> r is None && post == pre
}

/// The effect of [`App::next_status_file`].
pub open spec fn next_status_file_post(pre: App, post: App) -> bool {
    &&& post == (App {
        selected_status: wrap_next(pre.selected_status, pre.status_files@.len()),
        ..pre
    })
}

/// The effect of [`App::previous_status_file`].
pub open spec fn previous_status_file_post(pre: App, post: App) -> bool {
    &&& post == (App {
        selected_status: wrap_previous(
            pre.selected_status,
            pre.status_files@.len(),
        ),
        ..pre
    })
}

/// The effect of [`App::toggle_stage`].
pub open spec fn toggle_stage_post(pre: App, r: Option<GitCommand>, post: App) -> bool {
    &&& pre.selected_status is None ==> r is None && post == pre
    &&& pre.selected_status matches Some(k) ==> exists|i: int|
        #![auto]
        listed_at(pre.status_files@, k as int, i) && r == Some(
            if pre.status_files@[i].staged {
                GitCommand::Unstage { path: pre.status_files@[i].path }
            } else {
                GitCommand::Stage { path: pre.status_files@[i].path }
            },
        ) && starts(pre, post, Awaiting::Action(status_plan()))
}

/// The effect of [`App::stage_all_files`].
pub open spec fn stage_all_files_post(pre: App, r: Option<GitCommand>, post: App) -> bool {
    &&& r == Some(GitCommand::StageAll)
    &&& starts(pre, post, Awaiting::Action(status_plan()))
}

/// The effect of [`App::unstage_all_files`].
pub open spec fn unstage_all_files_post(pre: App, r: Option<GitCommand>, post: App) -> bool {
    &&& r == Some(GitCommand::UnstageAll)
    &&& starts(pre, post, Awaiting::Action(status_plan()))
}

/// The effect of [`App::execute_commit`].
pub open spec fn execute_commit_post(pre: App, r: Option<GitCommand>, post: App) -> bool {
    &&& pre.mode matches Mode::CommitMessageInput { message, amend } ==> if message@.len()
        == 0 {
        r is None && says(
            App { mode: Mode::Normal, ..pre },
            post,
            "Commit message cannot be empty"@,
            MessageType::Error,
        )
    } else {
        r == Some(GitCommand::Commit { message, amend }) && post == (App {
            mode: Mode::Normal,
            awaiting: Awaiting::Action(status_plan()),
            ..pre
        })
    }
    &&& !(pre.mode is CommitMessageInput) ==> r is None && post == pre
}

/// The effect of [`App::enter_amend_mode`].
pub open spec fn enter_amend_mode_post(pre: App, r: Option<GitCommand>, post: App) -> bool {
    &&& r == Some(GitCommand::LastCommitMessage)
    &&& starts(pre, post, Awaiting::LastMessage)
}

/// The effect of [`App::discard_selected_file`].
pub open spec fn discard_selected_file_post(pre: App, r: Option<GitCommand>, post: App) -> bool {
    &&& pre.selected_status is None ==> r is None && post == pre
    &&& pre.selected_status matches Some(k) ==> exists|i: int|
        #![auto]
        listed_at(pre.status_files@, k as int, i) && if pre.status_files@[i].staged {
            r is None && says(
                pre,
                post,
                "Cannot discard staged file. Unstage it first."@,
                MessageType::Error,
            )
        } else {
            r == Some(GitCommand::Discard { path: pre.status_files@[i].path })
                && starts(pre, post, Awaiting::Action(status_plan()))
        }
}

/// The effect of [`App::toggle_status_diff`].
pub open spec fn toggle_status_diff_post(pre: App, r: Option<GitCommand>, post: App) -> bool {
    &&& pre.status_show_diff ==> r is None && post == (App {
        status_show_diff: false,
        status_diff_content: None,
        status_diff_scroll: 0,
        ..pre
    })
    &&& !pre.status_show_diff && pre.selected_status is None ==> r is None && post == pre
    &&& !pre.status_show_diff ==> (pre.selected_status matches Some(k) ==> exists|
        i: int,
    |
        #![auto]
        listed_at(pre.status_files@, k as int, i) && r == Some(
            GitCommand::FileDiff {
                path: pre.status_files@[i].path,
                staged: pre.status_files@[i].staged,
            },
        ) && starts(pre, post, Awaiting::FileDiff))
}

/// The effect of [`App::scroll_status_diff_up`].
pub open spec fn scroll_status_diff_up_post(pre: App, post: App) -> bool {
    &&& post == (App {
        status_diff_scroll: if pre.status_diff_scroll > 0 {
            (pre.status_diff_scroll - 1) as u16
        } else {
            0
        },
        ..pre
    })
}

/// The effect of [`App::scroll_status_diff_down`].
pub open spec fn scroll_status_diff_down_post(pre: App, post: App) -> bool {
    &&& post == (App {
        status_diff_scroll: if pre.status_diff_scroll < u16::MAX {
            (pre.status_diff_scroll + 1) as u16
        } else {
            u16::MAX
        },
        ..pre
    })
}

/// The effect of [`App::scroll_status_diff_page_up`].
pub open spec fn scroll_status_diff_page_up_post(pre: App, post: App) -> bool {
    &&& post == (App {
        status_diff_scroll: if pre.status_diff_scroll > PAGE {
            (pre.status_diff_scroll - PAGE) as u16
        } else {
            0
        },
        ..pre
    })
}

/// The effect of [`App::scroll_status_diff_page_down`].
pub open spec fn scroll_status_diff_page_down_post(pre: App, post: App) -> bool {
    &&& post == (App {
        status_diff_scroll: if pre.status_diff_scroll + PAGE <= u16::MAX {
            (pre.status_diff_scroll + PAGE) as u16
        } else {
            u16::MAX
        },
        ..pre
    })
}

/// The effect of [`App::next_stash`].
pub open spec fn next_stash_post(pre: App, post: App) -> bool {
    &&& post == (App {
        selected_stash: wrap_next(pre.selected_stash, pre.stashes@.len()),
        ..pre
    })
}

/// The effect of [`App::previous_stash`].
pub open spec fn previous_stash_post(pre: App, post: App) -> bool {
    &&& post == (App {
        selected_stash: wrap_previous(pre.selected_stash, pre.stashes@.len()),
        ..pre
    })
}

/// The effect of [`App::apply_selected_stash`].
pub open spec fn apply_selected_stash_post(pre: App, r: Option<GitCommand>, post: App) -> bool {
    &&& match pre.selected_stash {
        Some(i) => r == Some(GitCommand::ApplyStash { index: pre.stashes@[i as int].index })
            && starts(pre, post, Awaiting::Action(status_plan())),
        None => r is None && post == pre,
    }
}

/// The effect of [`App::pop_selected_stash`].
pub open spec fn pop_selected_stash_post(pre: App, r: Option<GitCommand>, post: App) -> bool {
    &&& match pre.selected_stash {
        Some(i) => r == Some(GitCommand::PopStash { index: pre.stashes@[i as int].index })
            && starts(
            pre,
            post,
            Awaiting::Action(plan(false, Conflicts::Never, true, true, false)),
        ),
        None => r is None && post == pre,
    }
}

/// The effect of [`App::drop_selected_stash`].
pub open spec fn drop_selected_stash_post(pre: App, r: Option<GitCommand>, post: App) -> bool {
    &&& match pre.selected_stash {
        Some(i) => r == Some(GitCommand::DropStash { index: pre.stashes@[i as int].index })
            && starts(
            pre,
            post,
            Awaiting::Action(plan(false, Conflicts::Never, false, true, false)),
        ),
        None => r is None && post == pre,
    }
}

/// The effect of [`App::execute_create_stash`].
pub open spec fn execute_create_stash_post(pre: App, r: Option<GitCommand>, post: App) -> bool {
    &&& pre.mode matches Mode::StashMessageInput { message } ==> r == Some(
        GitCommand::CreateStash {
            message: if message@.len() == 0 {
                None
            } else {
                Some(message)
            },
        },
    ) && post == (App {
        mode: Mode::Normal,
        awaiting: Awaiting::Action(plan(false, Conflicts::Never, true, true, false)),
        ..pre
    })
    &&& !(pre.mode is StashMessageInput) ==> r is None && post == pre
}

/// The effect of [`App::next_branch`].
pub open spec fn next_branch_post(pre: App, post: App) -> bool {
    &&& post == (App {
        selected_branch: wrap_next(pre.selected_branch, pre.branches@.len()),
        ..pre
    })
}

/// The effect of [`App::previous_branch`].
pub open spec fn previous_branch_post(pre: App, post: App) -> bool {
    &&& post == (App {
        selected_branch: wrap_previous(pre.selected_branch, pre.branches@.len()),
        ..pre
    })
}

/// The effect of [`App::switch_to_selected_branch`].
pub open spec fn switch_to_selected_branch_post(pre: App, r: Option<GitCommand>, post: App) -> bool {
    &&& match pre.selected_branch {
        Some(i) => if pre.branches@[i as int].is_current {
            r is None && says(
                pre,
                post,
                "Already on this branch"@,
                MessageType::Info,
            )
        } else {
            r == Some(GitCommand::SwitchBranch { name: pre.branches@[i as int].name })
                && starts(pre, post, Awaiting::Action(branch_plan()))
        },
        None => r is None && post == pre,
    }
}

/// The effect of [`App::delete_selected_branch`].
pub open spec fn delete_selected_branch_post(pre: App, r: Option<GitCommand>, post: App) -> bool {
    &&& match pre.selected_branch {
        Some(i) => if pre.branches@[i as int].is_current {
            r is None && says(
                pre,
                post,
                "Cannot delete current branch"@,
                MessageType::Error,
            )
        } else if pre.branches@[i as int].is_remote {
            r is None && says(
                pre,
                post,
                "Cannot delete remote branches from this view"@,
                MessageType::Error,
            )
        } else {
            r == Some(GitCommand::DeleteBranch { name: pre.branches@[i as int].name })
                && starts(pre, post, Awaiting::Action(branch_plan()))
        },
        None => r is None && post == pre,
    }
}

/// The effect of [`App::merge_selected_branch`].
pub open spec fn merge_selected_branch_post(pre: App, r: Option<GitCommand>, post: App) -> bool {
    &&& match pre.selected_branch {
        Some(i) => if pre.branches@[i as int].is_current {
            r is None && says(
                pre,
                post,
                "Cannot merge a branch into itself"@,
                MessageType::Error,
            )
        } else {
            r == Some(GitCommand::Merge { name: pre.branches@[i as int].name })
                && starts(
                pre,
                post,
                Awaiting::Action(plan(false, Conflicts::Merge, true, false, true)),
            )
        },
        None => r is None && post == pre,
    }
}

/// The effect of [`App::execute_create_new_branch`].
pub open spec fn execute_create_new_branch_post(pre: App, r: Option<GitCommand>, post: App) -> bool {
    &&& pre.mode matches Mode::NewBranchNameInput { name } ==> if name@.len() == 0 {
        r is None && says(
            App { mode: Mode::Normal, ..pre },
            post,
            "Branch name cannot be empty"@,
            MessageType::Error,
        )
    } else {
        r == Some(GitCommand::NewBranch { name }) && post == (App {
            mode: Mode::Normal,
            awaiting: Awaiting::Action(branch_plan()),
            ..pre
        })
    }
    &&& !(pre.mode is NewBranchNameInput) ==> r is None && post == pre
}

/// The effect of [`App::fetch_from_remote`].
pub open spec fn fetch_from_remote_post(pre: App, r: Option<GitCommand>, post: App) -> bool {
    &&& r == Some(GitCommand::Fetch)
    &&& starts(pre, post, Awaiting::Action(branch_plan()))
}

/// The effect of [`App::push_to_remote`].
pub open spec fn push_to_remote_post(pre: App, r: Option<GitCommand>, post: App) -> bool {
    &&& r == Some(GitCommand::Push)
    &&& starts(
        pre,
        post,
        Awaiting::Action(plan(false, Conflicts::Never, false, false, false)),
    )
}

/// The effect of [`App::pull_from_remote`].
pub open spec fn pull_from_remote_post(pre: App, r: Option<GitCommand>, post: App) -> bool {
    &&& r == Some(GitCommand::Pull)
    &&& starts(
        pre,
        post,
        Awaiting::Action(plan(false, Conflicts::Never, true, false, true)),
    )
}

/// The effect of [`App::refresh_status`].
pub open spec fn refresh_status_post(pre: App, r: Option<GitCommand>, post: App) -> bool {
    &&& r == Some(GitCommand::Status)
    &&& starts(pre, post, Awaiting::Status)
}

/// The effect of [`App::refresh_stashes`].
pub open spec fn refresh_stashes_post(pre: App, r: Option<GitCommand>, post: App) -> bool {
    &&& r == Some(GitCommand::StashList)
    &&& starts(pre, post, Awaiting::Stashes)
}

/// The effect of [`App::refresh_branches`].
pub open spec fn refresh_branches_post(pre: App, r: Option<GitCommand>, post: App) -> bool {
    &&& r == Some(GitCommand::LocalBranches)
    &&& starts(pre, post, Awaiting::LocalBranches)
}

/// The effect of [`App::copy_commit_hash`].
pub open spec fn copy_commit_hash_post(pre: App, r: Option<GitCommand>, post: App) -> bool {
    match pre.selected_commit {
        Some(i) => r == Some(GitCommand::CopyToClipboard { text: pre.commits@[i as int].hash })
            && starts(pre, post, Awaiting::Action(plan(false, Conflicts::Never, false, false, false))),
        None => r is None && post == pre,
    }
}

impl App {
    /// Asks to put the selected commit's hash on the clipboard.
    pub fn copy_commit_hash(&mut self) -> (r: Option<GitCommand>)
        requires
            old(self).wf(),
        ensures
            final(self).wf(),
            copy_commit_hash_post(*old(self), r, *final(self)),
    {
        if let Some(i) = self.selected_commit {
            let text = self.commits[i].hash.clone();
            self.awaiting = Awaiting::Action(make_plan(false, Conflicts::Never, false, false, false));
            Some(GitCommand::CopyToClipboard { text })
        } else {
            None
        }
    }
}

/// Entering an input mode from normal mode and cancelling it at once gives back
/// exactly the state before: entering changes only the mode, and cancelling
/// restores normal mode and touches nothing else.
pub proof fn lemma_enter_then_cancel(before: App, entered: App, after: App)
    requires
        before.mode is Normal,
        mode_set(before, entered),
        entered.mode.is_input(),
        after == (App { mode: Mode::Normal, ..entered }),
    ensures
        after == before,
{
}

} // verus!
