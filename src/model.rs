//! The records that the output parsers produce, and their mathematical views.
use vstd::prelude::*;

verus! {

/// The kind of change recorded for one working-tree entry.
#[derive(Debug, Clone, Copy, PartialEq, Eq, Structural)]
pub enum FileStatus {
    Modified,
    Added,
    Deleted,
    Renamed,
    Untracked,
}

/// One working-tree entry: a path, its change kind, and whether the change is staged.
#[derive(Debug, Clone)]
pub struct StatusFile {
    pub path: String,
    pub status: FileStatus,
    pub staged: bool,
}

pub struct StatusFileView {
    pub path: Seq<char>,
    pub status: FileStatus,
    pub staged: bool,
}

impl View for StatusFile {
    type V = StatusFileView;

    open spec fn view(&self) -> StatusFileView {
        StatusFileView { path: self.path@, status: self.status, staged: self.staged }
    }
}

/// One slot of the stash stack; `index` is its position, 0 being the most recent.
#[derive(Debug, Clone)]
pub struct StashEntry {
    pub index: usize,
    pub branch: String,
    pub message: String,
}

pub struct StashEntryView {
    pub index: int,
    pub branch: Seq<char>,
    pub message: Seq<char>,
}

impl View for StashEntry {
    type V = StashEntryView;

    open spec fn view(&self) -> StashEntryView {
        StashEntryView { index: self.index as int, branch: self.branch@, message: self.message@ }
    }
}

/// A ref that points at a commit.
#[derive(Debug, Clone, PartialEq, Eq)]
pub enum Decoration {
    Head,
    Branch(String),
    RemoteBranch(String),
    Tag(String),
}

pub enum DecorationView {
    Head,
    Branch(Seq<char>),
    RemoteBranch(Seq<char>),
    Tag(Seq<char>),
}

impl View for Decoration {
    type V = DecorationView;

    open spec fn view(&self) -> DecorationView {
        match self {
            Decoration::Head => DecorationView::Head,
            Decoration::Branch(n) => DecorationView::Branch(n@),
            Decoration::RemoteBranch(n) => DecorationView::RemoteBranch(n@),
            Decoration::Tag(n) => DecorationView::Tag(n@),
        }
    }
}

/// The views of a list of decorations.
pub open spec fn decorations_view(d: Seq<Decoration>) -> Seq<DecorationView> {
    d.map_values(|x: Decoration| x@)
}

/// One history entry: the graph drawing before it, its hash, message and refs.
#[derive(Debug, Clone)]
pub struct Commit {
    pub graph: String,
    pub hash: String,
    pub message: String,
    pub decorations: Vec<Decoration>,
}

pub struct CommitView {
    pub graph: Seq<char>,
    pub hash: Seq<char>,
    pub message: Seq<char>,
    pub decorations: Seq<DecorationView>,
}

impl View for Commit {
    type V = CommitView;

    open spec fn view(&self) -> CommitView {
        CommitView {
            graph: self.graph@,
            hash: self.hash@,
            message: self.message@,
            decorations: decorations_view(self.decorations@),
        }
    }
}

/// The views of a list of commits.
pub open spec fn commits_view(c: Seq<Commit>) -> Seq<CommitView> {
    c.map_values(|x: Commit| x@)
}

/// One file's hunks within a commit.
#[derive(Debug, Clone)]
pub struct FileDiff {
    pub filename: String,
    pub diff_content: String,
}

pub struct FileDiffView {
    pub filename: Seq<char>,
    pub diff_content: Seq<char>,
}

impl View for FileDiff {
    type V = FileDiffView;

    open spec fn view(&self) -> FileDiffView {
        FileDiffView { filename: self.filename@, diff_content: self.diff_content@ }
    }
}

/// The full diff of one commit, file by file.
#[derive(Debug, Clone)]
pub struct CommitDiff {
    pub files: Vec<FileDiff>,
}

impl View for CommitDiff {
    type V = Seq<FileDiffView>;

    open spec fn view(&self) -> Seq<FileDiffView> {
        self.files@.map_values(|f: FileDiff| f@)
    }
}

/// One ref of the branch listing.
#[derive(Debug, Clone)]
pub struct Branch {
    pub name: String,
    pub is_current: bool,
    pub is_remote: bool,
    pub commit_hash: String,
    pub commit_message: String,
}

pub struct BranchView {
    pub name: Seq<char>,
    pub is_current: bool,
    pub is_remote: bool,
    pub commit_hash: Seq<char>,
    pub commit_message: Seq<char>,
}

impl View for Branch {
    type V = BranchView;

    open spec fn view(&self) -> BranchView {
        BranchView {
            name: self.name@,
            is_current: self.is_current,
            is_remote: self.is_remote,
            commit_hash: self.commit_hash@,
            commit_message: self.commit_message@,
        }
    }
}

/// The filter applied to the history listing.
#[derive(Debug, Clone, PartialEq, Eq)]
pub enum SearchFilter {
    Message(String),
    Author(String),
}

pub enum SearchFilterView {
    Message(Seq<char>),
    Author(Seq<char>),
}

impl View for SearchFilter {
    type V = SearchFilterView;

    open spec fn view(&self) -> SearchFilterView {
        match self {
            SearchFilter::Message(q) => SearchFilterView::Message(q@),
            SearchFilter::Author(q) => SearchFilterView::Author(q@),
        }
    }
}

} // verus!
