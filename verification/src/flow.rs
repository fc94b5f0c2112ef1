//! The vocabulary of the dialogues: what a dialogue asks the program to do
//! next (`Action`), and what the program reports back (`Event`).
//!
//! Each dialogue of the tool is a state machine: it is handed an event and
//! answers with its next state and the next action. The program performs the
//! action (prints, asks, runs `git`, touches the file system) and hands back the
//! event that the action produced, until the dialogue finishes.
use vstd::prelude::*;
use crate::config::{Config, ConfigView};

verus! {

/// Messages that a dialogue prints. The program words them; `args` of the
/// action fill them in.
#[derive(Debug, Clone, Copy, PartialEq, Eq, Structural)]
pub enum Notice {
    /// "skipping the push"
    PushSkipped,
    /// "uncommitted changes found"
    UncommittedChanges,
    /// "no local commits to upload"
    NothingToUpload,
    /// "{0} local commits to upload"
    CommitsToUpload,
    /// "branch {0} does not exist, creating it"
    BranchMissing,
    /// "branch {0} created"
    BranchCreated,
    /// "recent commits:"
    RecentCommits,
    /// a log text {0} between two rules
    LogBlock,
    /// "revert cancelled"
    RevertCancelled,
    /// "conflict while reverting, resolve it by hand"
    RevertConflict,
    /// "the commit was reverted"
    Reverted,
    /// "reset cancelled"
    ResetCancelled,
    /// the three reset modes
    ResetModes,
    /// "commits to drop (from HEAD back to {0}):"
    CommitsToDrop,
    /// "reset to {0}"
    ResetDone,
    /// "all changes were discarded"
    HardResetWarning,
    /// the update's title
    UpdateTitle,
    /// the log viewer's title
    LogTitle,
    /// the clone's title
    CloneTitle,
    /// the upload's title
    UploadTitle,
    /// update header: current branch {0}, remote {1}, remote branch {2}
    UpdateHeader,
    /// "state before the update", the last five commits {0}
    StateBefore,
    /// "uncommitted changes:" {0} and the three ways to handle them
    DirtyTree,
    /// "changes stashed"
    Stashed,
    /// "all changes discarded"
    ChangesDiscarded,
    /// the three ways to update
    UpdateModes,
    /// "fetching remote updates"
    Fetching,
    /// "remote updates fetched"
    Fetched,
    /// "new commits of {0}/{1}:" the log {2} and the count {3}
    NewCommits,
    /// "conflict while pulling and merging"
    PullConflict,
    /// "you have stashed changes, restore them with git stash pop"
    StashReminder,
    /// "pulled and merged"
    Pulled,
    /// how to merge {0}/{1} by hand
    ManualMergeHint,
    /// "conflict while rebasing" and how to go on
    RebaseConflict,
    /// "rebased"
    Rebased,
    /// "conflict while restoring the stash"
    StashPopConflict,
    /// "stashed changes restored"
    StashRestored,
    /// "the changes stay in the stash"
    StashKept,
    /// "state after the update", the latest commits {0}
    StateAfter,
    /// "{0} local commits are not pushed"
    Unpushed,
    /// "local and remote branch agree"
    InSync,
    /// "update finished"
    UpdateFinished,
    /// the two kinds of remote repository
    RemoteKinds,
    /// the two ways to fetch
    FetchModes,
    /// "fetching commits of {0}"
    FetchingBranch,
    /// "shallow fetch, depth {0}"
    ShallowFetch,
    /// "fetching all commits"
    FullFetch,
    /// "remote branch fetched"
    BranchFetched,
    /// the two ways to merge
    MergeModes,
    /// "merge conflict, resolve it by hand"
    PickConflict,
    /// "commit merged"
    Picked,
    /// "the branch has no commits"
    NoCommits,
    /// "{0} commits found"
    CommitsFound,
    /// one listed commit: number {0}, hash {1}, subject {2}
    CommitLine,
    /// "... (left out) ..."
    Ellipsis,
    /// "conflict while merging, resolve it by hand"
    BatchConflict,
    /// "commits merged"
    BatchPicked,
    /// "the repository has no commits"
    EmptyHistory,
    /// page header: page {0} of {1}, {2} commits, {3} per page
    PageHeader,
    /// one log row: number {0}, hash {1}, author {2}, date {3}, subject {4}
    LogRow,
    /// the viewer's options, pages 1..{0}, {1} per page
    PagerOptions,
    /// "this is the last page"
    LastPage,
    /// "this is the first page"
    FirstPage,
    /// "page number out of range (1-{0})"
    PageOutOfRange,
    /// "invalid page number"
    InvalidPage,
    /// "{0} commits per page"
    PageSizeSet,
    /// "the page size must be positive"
    PageSizeNotPositive,
    /// "enter a valid number"
    NotANumber,
    /// details of commit {0}: hash {1}, author {2}, date {3}, subject {4}, body {5}
    CommitDetails,
    /// "number out of range (1-{0})"
    IndexOutOfRange,
    /// "invalid option"
    InvalidOption,
    /// the directories beside the program (the program lists them)
    DirectoryListing,
    /// "directory {0} does not exist"
    DirectoryMissing,
    /// "directory created"
    DirectoryCreated,
    /// "Git repository initialised"
    RepoInitialised,
    /// "no Git repository, later steps may fail"
    RepoMissing,
    /// "settings saved to the settings file"
    ConfigSaved,
    /// the two ways to clone
    CloneModes,
    /// clone summary of a full clone: URL {0}, branch {1} (empty for the default), target {2}
    CloneSummaryFull,
    /// clone summary of a shallow clone: URL {0}, branch {1} (empty for the default), target {2}
    CloneSummaryShallow,
    /// "clone cancelled"
    CloneCancelled,
    /// "running: git" and the arguments {0..}
    Running,
    /// "cloned"
    Cloned,
    /// the updated settings: directory {0}, repository {1}, branch {2}
    ConfigUpdated,
    /// "now in the new clone {0}"
    EnteredClone,
    /// "cloned, directory unchanged"
    CloneKept,
    /// the main menu, with the working directory
    MainMenu,
    /// "commit failed: {0}"
    CommitFailed,
    /// "switching branch failed: {0}"
    BranchFailed,
    /// "clone failed: {0}"
    CloneFailed,
    /// "merge failed: {0}"
    MergeFailed,
    /// "update failed: {0}"
    UpdateFailed,
    /// "configuration failed: {0}"
    ConfigFailed,
    /// "settings updated"
    ConfigChanged,
    /// "revert failed: {0}"
    RevertFailed,
    /// "reset failed: {0}"
    ResetFailed,
    /// "viewing the log failed: {0}"
    LogFailed,
    /// "upload failed: {0}"
    UploadFailed,
    /// "goodbye"
    Goodbye,
    /// "invalid option" (menu)
    InvalidChoice,
    /// where the program lives
    ProgramLocation,
    /// "not configured or incomplete" and the two ways to set up
    SetupNeeded,
    /// "invalid option, quitting"
    InvalidSetupChoice,
    /// "set-up failed: {0}"
    SetupFailed,
    /// "settings still incomplete, run the program again"
    StillIncomplete,
    /// "cannot enter the repository directory {0}: {1}"
    CannotEnter,
    /// "working directory: {0}"
    WorkingDirectory,
    /// "repository directory {0} does not exist, configure again"
    RepoDirectoryMissing,
    /// "configuring again failed: {0}"
    ReconfigFailed,
    /// "cannot enter the new directory: {0}"
    CannotEnterNew,
    /// "applying the Git identity failed: {0}"
    IdentityFailed,
    /// "setting up the remote failed: {0}"
    RemoteFailed,
    /// "branch operation failed: {0}"
    BranchSetupFailed,
}

/// Questions that a dialogue asks. The program words them; `args` of the
/// action fill them in.
#[derive(Debug, Clone, Copy, PartialEq, Eq, Structural)]
pub enum Question {
    CommitSubject,
    CommitBody,
    ForcePush,
    /// the caller's own question {0}
    PushNow,
    ConfirmForcePush,
    CommitNow,
    RevertHash,
    ConfirmRevert,
    ResetHash,
    ResetMode,
    ConfirmHardReset,
    ConfirmReset,
    DirtyTreeChoice,
    ConfirmDiscard,
    UpdateMode,
    ContinueUpdate,
    RestoreStash,
    PushAfterUpdate,
    RemoteKind,
    GithubRepo,
    BranchName,
    ExternalUrl,
    FetchMode,
    FetchDepth,
    MergeMode,
    CommitSha,
    ConfirmPick,
    PushMerged,
    StartIndex,
    EndIndex,
    /// "merge these {0} commits?"
    ConfirmBatch,
    PagerChoice,
    /// "page to go to (1-{0})"
    GotoPage,
    PageSize,
    DetailIndex,
    PressEnter,
    RepoDirectory,
    CreateDirectory,
    InitRepo,
    GitUserName,
    GitUserEmail,
    RemoteName,
    RemoteRepo,
    DefaultBranch,
    CloneHere,
    CloneBaseDir,
    CreateCloneBase,
    CloneRepo,
    CloneBranch,
    CloneMode,
    ConfirmClone,
    EnterClone,
    MenuChoice,
    PushRevert,
    ForcePushAfterReset,
    ConfirmForcePushAfterReset,
    SetupChoice,
}

/// A place in the file system: a path below the program's own directory (the
/// directory itself for an empty path), or a path as the user typed it;
/// `child` is a further component below it.
#[derive(Debug, Clone)]
pub struct Place {
    pub in_program_dir: bool,
    pub path: String,
    pub child: Option<String>,
}

pub struct PlaceView {
    pub in_program_dir: bool,
    pub path: Seq<char>,
    pub child: Option<Seq<char>>,
}

impl View for Place {
    type V = PlaceView;

    open spec fn view(&self) -> PlaceView {
        PlaceView {
            in_program_dir: self.in_program_dir,
            path: self.path@,
            child: match self.child {
                Some(c) => Some(c@),
                None => None,
            },
        }
    }
}

/// What a dialogue asks the program to do next.
pub enum Action {
    /// Print a message; answered by `Event::Shown`.
    Show { notice: Notice, args: Vec<String> },
    /// Prompt for a line (blank gives `default`); answered by `Event::Answered`.
    Ask { question: Question, args: Vec<String>, default: String },
    /// Ask a yes/no question; answered by `Event::Flag`.
    Confirm { question: Question, args: Vec<String>, default_yes: bool },
    /// Run `git` with `args`; answered by `Event::Ran` (an error when it
    /// cannot start or does not succeed).
    Git { args: Vec<String> },
    /// Run `git` with `args` for its output; answered by `Event::Read`.
    GitRead { args: Vec<String> },
    /// Run `git` with `args` for its exit status; answered by `Event::Status`
    /// (an error only when it cannot start).
    GitStatus { args: Vec<String> },
    /// Whether the working directory holds `.git`; answered by `Event::Flag`.
    CheckRepo,
    /// Whether a place exists; answered by `Event::Flag`.
    Exists { place: Place },
    /// Create a directory and its parents; answered by `Event::Ran`.
    CreateDir { place: Place },
    /// Make a place the working directory; answered by `Event::Ran`.
    EnterDir { place: Place },
    /// The place relative to the program's directory, or `fallback` where it
    /// lies elsewhere; answered by `Event::Answered`.
    RelativePath { place: Place, fallback: String },
    /// The place as it is shown to the user; answered by `Event::Answered`.
    Describe { place: Place },
    /// Save the settings; answered by `Event::Ran`.
    Save { config: Config },
    /// Read the settings file; answered by `Event::Read` with its text (the
    /// empty text where it cannot be read).
    ReadSettings,
    /// The dialogue is over with this result.
    Finish { result: Result<(), String> },
}

/// What the program reports back.
pub enum Event {
    /// The first event of a dialogue.
    Begin,
    Shown,
    Answered(String),
    Flag(bool),
    Ran(Result<(), String>),
    Read(Result<String, String>),
    Status(Result<bool, String>),
}

pub open spec fn texts(v: Seq<String>) -> Seq<Seq<char>> {
    v.map_values(|s: String| s@)
}

pub open spec fn strs(v: Seq<&str>) -> Seq<Seq<char>> {
    v.map_values(|s: &str| s@)
}

pub open spec fn unit_result(r: Result<(), String>) -> Result<(), Seq<char>> {
    match r {
        Ok(()) => Ok(()),
        Err(e) => Err(e@),
    }
}

#[verifier::ext_equal]
pub enum ActionView {
    Show(Notice, Seq<Seq<char>>),
    Ask(Question, Seq<Seq<char>>, Seq<char>),
    Confirm(Question, Seq<Seq<char>>, bool),
    Git(Seq<Seq<char>>),
    GitRead(Seq<Seq<char>>),
    GitStatus(Seq<Seq<char>>),
    CheckRepo,
    Exists(PlaceView),
    CreateDir(PlaceView),
    EnterDir(PlaceView),
    RelativePath(PlaceView, Seq<char>),
    Describe(PlaceView),
    Save(ConfigView),
    ReadSettings,
    Finish(Result<(), Seq<char>>),
}

pub enum EventView {
    Begin,
    Shown,
    Answered(Seq<char>),
    Flag(bool),
    Ran(Result<(), Seq<char>>),
    Read(Result<Seq<char>, Seq<char>>),
    Status(Result<bool, Seq<char>>),
}

impl View for Action {
    type V = ActionView;

    open spec fn view(&self) -> ActionView {
        match self {
            Action::Show { notice, args } => ActionView::Show(*notice, texts(args@)),
            Action::Ask { question, args, default } => ActionView::Ask(
                *question,
                texts(args@),
                default@,
            ),
            Action::Confirm { question, args, default_yes } => ActionView::Confirm(
                *question,
                texts(args@),
                *default_yes,
            ),
            Action::Git { args } => ActionView::Git(texts(args@)),
            Action::GitRead { args } => ActionView::GitRead(texts(args@)),
            Action::GitStatus { args } => ActionView::GitStatus(texts(args@)),
            Action::CheckRepo => ActionView::CheckRepo,
            Action::Exists { place } => ActionView::Exists(place@),
            Action::CreateDir { place } => ActionView::CreateDir(place@),
            Action::EnterDir { place } => ActionView::EnterDir(place@),
            Action::RelativePath { place, fallback } => ActionView::RelativePath(
                place@,
                fallback@,
            ),
            Action::Describe { place } => ActionView::Describe(place@),
            Action::Save { config } => ActionView::Save(config@),
            Action::ReadSettings => ActionView::ReadSettings,
            Action::Finish { result } => ActionView::Finish(unit_result(*result)),
        }
    }
}

impl View for Event {
    type V = EventView;

    open spec fn view(&self) -> EventView {
        match self {
            Event::Begin => EventView::Begin,
            Event::Shown => EventView::Shown,
            Event::Answered(s) => EventView::Answered(s@),
            Event::Flag(b) => EventView::Flag(*b),
            Event::Ran(r) => EventView::Ran(unit_result(*r)),
            Event::Read(r) => EventView::Read(
                match r {
                    Ok(s) => Ok(s@),
                    Err(e) => Err(e@),
                },
            ),
            Event::Status(r) => EventView::Status(
                match r {
                    Ok(b) => Ok(*b),
                    Err(e) => Err(e@),
                },
            ),
        }
    }
}

/// The kinds of event a dialogue can wait for.
#[derive(Debug, Clone, Copy, PartialEq, Eq, Structural)]
pub enum Awaits {
    Begin,
    Shown,
    Answer,
    Flag,
    Ran,
    Read,
    Status,
    Nothing,
}

/// The event is of the kind the dialogue waits for.
pub open spec fn fits(w: Awaits, e: EventView) -> bool {
    match w {
        Awaits::Begin => e is Begin,
        Awaits::Shown => e is Shown,
        Awaits::Answer => e is Answered,
        Awaits::Flag => e is Flag,
        Awaits::Ran => e is Ran,
        Awaits::Read => e is Read,
        Awaits::Status => e is Status,
        Awaits::Nothing => false,
    }
}

/// The event that an action is answered by.
pub open spec fn answer_kind(a: ActionView) -> Awaits {
    match a {
        ActionView::Show(..) => Awaits::Shown,
        ActionView::Ask(..) => Awaits::Answer,
        ActionView::Confirm(..) => Awaits::Flag,
        ActionView::Git(..) => Awaits::Ran,
        ActionView::GitRead(..) => Awaits::Read,
        ActionView::GitStatus(..) => Awaits::Status,
        ActionView::CheckRepo => Awaits::Flag,
        ActionView::Exists(..) => Awaits::Flag,
        ActionView::CreateDir(..) => Awaits::Ran,
        ActionView::EnterDir(..) => Awaits::Ran,
        ActionView::RelativePath(..) => Awaits::Answer,
        ActionView::Describe(..) => Awaits::Answer,
        ActionView::Save(..) => Awaits::Ran,
        ActionView::ReadSettings => Awaits::Read,
        ActionView::Finish(..) => Awaits::Nothing,
    }
}

/// The texts `parts`, owned.
pub fn words(parts: Vec<&str>) -> (v: Vec<String>)
    ensures
        texts(v@) == strs(parts@),
{
    let mut v: Vec<String> = Vec::new();
    let mut i: usize = 0;
    while i < parts.len()
        invariant
            i <= parts@.len(),
            v@.len() == i,
            forall|k: int| 0 <= k < i ==> #[trigger] v@[k]@ == parts@[k]@,
        decreases parts@.len() - i,
    {
        v.push(parts[i].to_owned());
        i += 1;
    }
    assert(texts(v@) =~= strs(parts@));
    v
}

pub fn show(notice: Notice, args: Vec<&str>) -> (a: Action)
    ensures
        a@ == ActionView::Show(notice, strs(args@)),
{
    Action::Show { notice, args: words(args) }
}

pub fn ask(question: Question, args: Vec<&str>, default: &str) -> (a: Action)
    ensures
        a@ == ActionView::Ask(question, strs(args@), default@),
{
    Action::Ask { question, args: words(args), default: default.to_owned() }
}

/// A prompt whose blank answer is the empty text.
pub fn ask_blank(question: Question, args: Vec<&str>) -> (a: Action)
    ensures
        a@ == ActionView::Ask(question, strs(args@), Seq::empty()),
{
    Action::Ask { question, args: words(args), default: String::new() }
}

pub fn confirm(question: Question, args: Vec<&str>, default: bool) -> (a: Action)
    ensures
        a@ == ActionView::Confirm(question, strs(args@), default),
{
    Action::Confirm { question, args: words(args), default_yes: default }
}

pub fn git(args: Vec<&str>) -> (a: Action)
    ensures
        a@ == ActionView::Git(strs(args@)),
{
    Action::Git { args: words(args) }
}

pub fn git_status(args: Vec<&str>) -> (a: Action)
    ensures
        a@ == ActionView::GitStatus(strs(args@)),
{
    Action::GitStatus { args: words(args) }
}

pub fn git_read(args: Vec<&str>) -> (a: Action)
    ensures
        a@ == ActionView::GitRead(strs(args@)),
{
    Action::GitRead { args: words(args) }
}

pub fn finish_ok() -> (a: Action)
    ensures
        a@ == ActionView::Finish(Ok(())),
{
    Action::Finish { result: Ok(()) }
}

pub fn finish_err(e: &str) -> (a: Action)
    ensures
        a@ == ActionView::Finish(Err(e@)),
{
    Action::Finish { result: Err(e.to_owned()) }
}

pub fn finish(r: Result<(), String>) -> (a: Action)
    ensures
        a@ == ActionView::Finish(unit_result(r)),
{
    Action::Finish { result: r }
}

} // verus!
