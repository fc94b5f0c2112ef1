//! The main menu (`menu_loop`): each round reloads the settings, enters the
//! repository directory, shows the menu and runs the chosen dialogue.
use vstd::prelude::*;
use crate::config::{Config, ConfigView, config_of_text, empty_config, text_readable};
use crate::flow::{
    Action, ActionView, Awaits, Event, EventView, Notice, Place, Question, ask, confirm, finish_ok,
    fits, git, show, strs,
};
use crate::history::{RevertFlow, ResetFlow, reset_start, revert_start};
use crate::logview::{LogFlow, log_start};
use crate::merge::{MergeFlow, merge_start};
use crate::ops::{
    BranchFlow, BranchModel, BranchStage, CommitFlow, IdentityFlow, PushFlow, RemoteFlow,
    RemoteModel, RemoteStage, UploadFlow, commit_start, github_url, identity_start, push_start,
    upload_start,
};
use crate::session::{
    Dialogue, DialogueModel, dialogue_awaits, dialogue_event_ok, dialogue_next, dialogue_wf,
    step_dialogue,
};
use crate::setup::{CloneFlow, InitFlow, clone_start, init_start, place_view};
use crate::text::same_text;
use crate::update::{UpdateFlow, update_start};

verus! {

#[derive(Debug, Clone, Copy, PartialEq, Eq, Structural)]
pub enum MenuStage {
    Start,
    Loading,
    Probing,
    Entering,
    Menu,
    Choosing,
    CommitIdentity,
    CommitRemote,
    Committing,
    Pushing,
    Switching,
    Cloning,
    Merging,
    Updating,
    Configuring,
    Reverting,
    AskedPushRevert,
    PushingRevert,
    Resetting,
    AskedForce,
    ConfirmingForce,
    ForcePushing,
    Viewing,
    UploadIdentity,
    UploadRemote,
    Uploading,
    Reporting,
    Leaving,
    Done,
}

/// The menu loop; `pid` names the temporary remote of a merge.
pub struct MenuFlow {
    pub stage: MenuStage,
    pub config: Config,
    pub pid: u32,
    pub dialog: Dialogue,
}

pub struct MenuModel {
    pub stage: MenuStage,
    pub config: ConfigView,
    pub pid: u32,
    pub dialog: DialogueModel,
}

impl View for MenuFlow {
    type V = MenuModel;

    open spec fn view(&self) -> MenuModel {
        MenuModel { stage: self.stage, config: self.config@, pid: self.pid, dialog: self.dialog@ }
    }
}

pub open spec fn menu_start(pid: u32) -> MenuModel {
    MenuModel { stage: MenuStage::Start, config: empty_config(), pid, dialog: DialogueModel::Idle }
}

/// The stages in which a dialogue of the menu runs.
pub open spec fn in_dialogue(s: MenuStage) -> bool {
    s is CommitIdentity || s is CommitRemote || s is Committing || s is Pushing || s is Switching
        || s is Cloning || s is Merging || s is Updating || s is Configuring || s is Reverting
        || s is PushingRevert || s is Resetting || s is Viewing || s is UploadIdentity
        || s is UploadRemote || s is Uploading
}

pub open spec fn menu_awaits(m: MenuModel) -> Awaits {
    if in_dialogue(m.stage) {
        dialogue_awaits(m.dialog)
    } else {
        match m.stage {
            MenuStage::Start => Awaits::Begin,
            MenuStage::Loading => Awaits::Read,
            MenuStage::Probing => Awaits::Flag,
            MenuStage::Entering => Awaits::Ran,
            MenuStage::Menu => Awaits::Shown,
            MenuStage::Choosing => Awaits::Answer,
            MenuStage::AskedPushRevert => Awaits::Flag,
            MenuStage::AskedForce => Awaits::Flag,
            MenuStage::ConfirmingForce => Awaits::Flag,
            MenuStage::ForcePushing => Awaits::Ran,
            MenuStage::Reporting => Awaits::Shown,
            MenuStage::Leaving => Awaits::Shown,
            _ => Awaits::Nothing,
        }
    }
}

/// The menu's invariant: the dialogue it holds keeps its own.
pub open spec fn menu_wf(m: MenuModel) -> bool {
    dialogue_wf(m.dialog)
}

/// What the menu asks of an event beyond its kind: a settings text that can
/// be read (a lone `"` as a value cannot: reading such a file is a panic),
/// and what the running dialogue asks.
pub open spec fn menu_event_ok(m: MenuModel, e: EventView) -> bool {
    &&& (m.stage is Loading && e is Read && e->Read_0 is Ok) ==> text_readable(e->Read_0->Ok_0)
    &&& in_dialogue(m.stage) ==> dialogue_event_ok(m.dialog, e)
}

/// The repository directory below the program's directory.
pub open spec fn repo_place(c: ConfigView) -> crate::flow::PlaceView {
    place_view(true, c.dir, None)
}

/// The top of the loop: reload the settings.
pub open spec fn menu_top(m: MenuModel) -> (MenuModel, ActionView) {
    (MenuModel { stage: MenuStage::Loading, ..m }, ActionView::ReadSettings)
}

/// A message, after which the loop starts over.
pub open spec fn menu_report(m: MenuModel, notice: Notice, args: Seq<Seq<char>>) -> (MenuModel, ActionView) {
    (MenuModel { stage: MenuStage::Reporting, ..m }, ActionView::Show(notice, args))
}

/// A dialogue started in `stage`, with its first action.
pub open spec fn menu_open(m: MenuModel, stage: MenuStage, d: DialogueModel) -> (MenuModel, ActionView) {
    let (n, a) = dialogue_next(d, EventView::Begin);
    (MenuModel { stage, dialog: n, ..m }, a)
}

pub open spec fn remote_start(c: ConfigView) -> RemoteModel {
    RemoteModel {
        stage: RemoteStage::Start,
        name: c.git_remote_name,
        url: github_url(c.git_remote_repo),
        repo: c.git_remote_repo,
    }
}

pub open spec fn branch_start(branch: Seq<char>) -> BranchModel {
    BranchModel { stage: BranchStage::Start, branch }
}

/// The error of a failed dialogue as the arguments of its message.
pub open spec fn failure(r: Result<(), Seq<char>>) -> Seq<Seq<char>> {
    match r {
        Ok(()) => seq![],
        Err(e) => seq![e],
    }
}

/// A failure is reported with `notice`; a success starts the loop over.
pub open spec fn report_failure(m: MenuModel, r: Result<(), Seq<char>>, notice: Notice) -> (MenuModel, ActionView) {
    if r is Err {
        menu_report(m, notice, failure(r))
    } else {
        menu_top(m)
    }
}

// Each dialogue of the menu: how it starts (it may end at once) and what
// follows its end.

pub open spec fn start_pushing(m: MenuModel) -> (MenuModel, ActionView) {
    let (n, a) = menu_open(m, MenuStage::Pushing, DialogueModel::Push(push_start("是否现在开始推送？"@, m.config)));
    if a is Finish {
        menu_top(n)
    } else {
        (n, a)
    }
}

pub open spec fn after_committing(m: MenuModel, r: Result<(), Seq<char>>) -> (MenuModel, ActionView) {
    if r is Err {
        menu_report(m, Notice::CommitFailed, failure(r))
    } else {
        start_pushing(m)
    }
}

pub open spec fn start_committing(m: MenuModel) -> (MenuModel, ActionView) {
    let (n, a) = menu_open(m, MenuStage::Committing, DialogueModel::Commit(commit_start()));
    if a is Finish {
        after_committing(n, a->Finish_0)
    } else {
        (n, a)
    }
}

pub open spec fn start_commit_remote(m: MenuModel) -> (MenuModel, ActionView) {
    let (n, a) = menu_open(m, MenuStage::CommitRemote, DialogueModel::Remote(remote_start(m.config)));
    if a is Finish {
        start_committing(n)
    } else {
        (n, a)
    }
}

pub open spec fn start_commit_identity(m: MenuModel) -> (MenuModel, ActionView) {
    let (n, a) = menu_open(m, MenuStage::CommitIdentity, DialogueModel::Identity(identity_start(m.config)));
    if a is Finish {
        start_commit_remote(n)
    } else {
        (n, a)
    }
}

pub open spec fn after_uploading(m: MenuModel, r: Result<(), Seq<char>>) -> (MenuModel, ActionView) {
    report_failure(m, r, Notice::UploadFailed)
}

pub open spec fn start_uploading(m: MenuModel) -> (MenuModel, ActionView) {
    let (n, a) = menu_open(m, MenuStage::Uploading, DialogueModel::Upload(upload_start(m.config)));
    if a is Finish {
        after_uploading(n, a->Finish_0)
    } else {
        (n, a)
    }
}

pub open spec fn start_upload_remote(m: MenuModel) -> (MenuModel, ActionView) {
    let (n, a) = menu_open(m, MenuStage::UploadRemote, DialogueModel::Remote(remote_start(m.config)));
    if a is Finish {
        start_uploading(n)
    } else {
        (n, a)
    }
}

pub open spec fn start_upload_identity(m: MenuModel) -> (MenuModel, ActionView) {
    let (n, a) = menu_open(m, MenuStage::UploadIdentity, DialogueModel::Identity(identity_start(m.config)));
    if a is Finish {
        start_upload_remote(n)
    } else {
        (n, a)
    }
}

pub open spec fn after_configuring(m: MenuModel, r: Result<(), Seq<char>>) -> (MenuModel, ActionView) {
    if r is Err {
        menu_report(m, Notice::ConfigFailed, failure(r))
    } else {
        menu_report(m, Notice::ConfigChanged, seq![])
    }
}

pub open spec fn after_reverting(m: MenuModel, r: Result<(), Seq<char>>) -> (MenuModel, ActionView) {
    if r is Err {
        menu_report(m, Notice::RevertFailed, failure(r))
    } else {
        (
            MenuModel { stage: MenuStage::AskedPushRevert, ..m },
            ActionView::Confirm(Question::PushRevert, seq![], true),
        )
    }
}

pub open spec fn after_resetting(m: MenuModel, r: Result<(), Seq<char>>) -> (MenuModel, ActionView) {
    if r is Err {
        menu_report(m, Notice::ResetFailed, failure(r))
    } else {
        (
            MenuModel { stage: MenuStage::AskedForce, ..m },
            ActionView::Confirm(Question::ForcePushAfterReset, seq![], false),
        )
    }
}

/// What follows the end of the menu's dialogue, by the stage it ran in.
pub open spec fn menu_after(m: MenuModel, r: Result<(), Seq<char>>) -> (MenuModel, ActionView) {
    match m.stage {
        MenuStage::CommitIdentity => start_commit_remote(m),
        MenuStage::CommitRemote => start_committing(m),
        MenuStage::Committing => after_committing(m, r),
        MenuStage::Switching => report_failure(m, r, Notice::BranchFailed),
        MenuStage::Cloning => report_failure(m, r, Notice::CloneFailed),
        MenuStage::Merging => report_failure(m, r, Notice::MergeFailed),
        MenuStage::Updating => report_failure(m, r, Notice::UpdateFailed),
        MenuStage::Configuring => after_configuring(m, r),
        MenuStage::Reverting => after_reverting(m, r),
        MenuStage::Resetting => after_resetting(m, r),
        MenuStage::Viewing => report_failure(m, r, Notice::LogFailed),
        MenuStage::UploadIdentity => start_upload_remote(m),
        MenuStage::UploadRemote => start_uploading(m),
        MenuStage::Uploading => after_uploading(m, r),
        _ => menu_top(m),
    }
}

/// A dialogue started from the menu, with the stage it runs in; one that
/// ends at once is followed up at once.
pub open spec fn menu_launch(m: MenuModel, stage: MenuStage, d: DialogueModel) -> (MenuModel, ActionView) {
    let (n, a) = menu_open(m, stage, d);
    if a is Finish {
        menu_after(n, a->Finish_0)
    } else {
        (n, a)
    }
}

/// The dialogue that a menu entry from 2 to 9 runs, with its stage.
pub open spec fn entry_dialogue(m: MenuModel, choice: Seq<char>) -> Option<(MenuStage, DialogueModel)> {
    let c = m.config;
    if choice == "2"@ {
        Some((MenuStage::Switching, DialogueModel::Branch(branch_start(c.git_branch))))
    } else if choice == "3"@ {
        Some((MenuStage::Cloning, DialogueModel::Clone(clone_start(c))))
    } else if choice == "4"@ {
        Some((MenuStage::Merging, DialogueModel::Merge(merge_start(c, m.pid as nat))))
    } else if choice == "5"@ {
        Some((MenuStage::Updating, DialogueModel::Update(update_start(c))))
    } else if choice == "6"@ {
        Some((MenuStage::Configuring, DialogueModel::Init(init_start(c))))
    } else if choice == "7"@ {
        Some((MenuStage::Reverting, DialogueModel::Revert(revert_start())))
    } else if choice == "8"@ {
        Some((MenuStage::Resetting, DialogueModel::Reset(reset_start())))
    } else if choice == "9"@ {
        Some((MenuStage::Viewing, DialogueModel::Log(log_start())))
    } else {
        None
    }
}

/// The chosen menu entry.
pub open spec fn menu_choose(m: MenuModel, choice: Seq<char>) -> (MenuModel, ActionView) {
    if choice == "1"@ {
        start_commit_identity(m)
    } else if choice == "10"@ {
        start_upload_identity(m)
    } else if choice == "11"@ {
        (MenuModel { stage: MenuStage::Leaving, ..m }, ActionView::Show(Notice::Goodbye, seq![]))
    } else {
        match entry_dialogue(m, choice) {
            Some((stage, d)) => menu_launch(m, stage, d),
            None => menu_report(m, Notice::InvalidChoice, seq![]),
        }
    }
}

/// The menu loop. Each round reads the settings file (an unreadable file
/// gives empty settings), enters the repository directory where it exists,
/// shows the menu and asks for an entry (default `0`): 1 applies the
/// identity and the remote (their failures are ignored), commits and, after
/// a successful commit, pushes; 2 switches branch; 3 clones; 4 merges from a
/// remote; 5 updates; 6 edits the settings; 7 reverts a commit and offers to
/// push (default yes); 8 resets and offers a forced push (default no, then a
/// second confirmation, default no); 9 shows the log; 10 applies identity and
/// remote and uploads; 11 says goodbye and ends. A failed dialogue is
/// reported; an unknown entry too. Then the next round.
pub open spec fn menu_next(m: MenuModel, e: EventView) -> (MenuModel, ActionView) {
    if in_dialogue(m.stage) {
        let (d, a) = dialogue_next(m.dialog, e);
        let n = MenuModel { dialog: d, ..m };
        if a is Finish {
            menu_after(n, a->Finish_0)
        } else {
            (n, a)
        }
    } else {
        match (m.stage, e) {
            (MenuStage::Start, _) => menu_top(m),
            (MenuStage::Loading, EventView::Read(r)) => {
                let c = match r {
                    Ok(t) => config_of_text(t),
                    Err(_) => empty_config(),
                };
                (
                    MenuModel { stage: MenuStage::Probing, config: c, ..m },
                    ActionView::Exists(repo_place(c)),
                )
            },
            (MenuStage::Probing, EventView::Flag(there)) => if there {
                (
                    MenuModel { stage: MenuStage::Entering, ..m },
                    ActionView::EnterDir(repo_place(m.config)),
                )
            } else {
                (MenuModel { stage: MenuStage::Menu, ..m }, ActionView::Show(Notice::MainMenu, seq![]))
            },
            (MenuStage::Entering, EventView::Ran(_)) => (
                MenuModel { stage: MenuStage::Menu, ..m },
                ActionView::Show(Notice::MainMenu, seq![]),
            ),
            (MenuStage::Menu, EventView::Shown) => (
                MenuModel { stage: MenuStage::Choosing, ..m },
                ActionView::Ask(Question::MenuChoice, seq![], "0"@),
            ),
            (MenuStage::Choosing, EventView::Answered(choice)) => menu_choose(m, choice),
            (MenuStage::AskedPushRevert, EventView::Flag(yes)) => if yes {
                let (n, a) = menu_open(
                    m,
                    MenuStage::PushingRevert,
                    DialogueModel::Push(push_start("是否现在推送撤销更改？"@, m.config)),
                );
                if a is Finish {
                    menu_top(n)
                } else {
                    (n, a)
                }
            } else {
                menu_top(m)
            },
            (MenuStage::AskedForce, EventView::Flag(yes)) => if yes {
                (
                    MenuModel { stage: MenuStage::ConfirmingForce, ..m },
                    ActionView::Confirm(Question::ConfirmForcePushAfterReset, seq![], false),
                )
            } else {
                menu_top(m)
            },
            (MenuStage::ConfirmingForce, EventView::Flag(yes)) => if yes {
                (
                    MenuModel { stage: MenuStage::ForcePushing, ..m },
                    ActionView::Git(
                        seq!["push"@, m.config.git_remote_name, m.config.git_branch, "--force"@],
                    ),
                )
            } else {
                menu_top(m)
            },
            (MenuStage::ForcePushing, EventView::Ran(_)) => menu_top(m),
            (MenuStage::Reporting, EventView::Shown) => menu_top(m),
            (MenuStage::Leaving, EventView::Shown) => (
                MenuModel { stage: MenuStage::Done, ..m },
                ActionView::Finish(Ok(())),
            ),
            _ => (m, ActionView::Finish(Ok(()))),
        }
    }
}

impl MenuFlow {
    pub fn new(pid: u32) -> (f: MenuFlow)
        ensures
            f@ == menu_start(pid),
            menu_wf(f@),
    {
        MenuFlow { stage: MenuStage::Start, config: Config::default(), pid, dialog: Dialogue::Idle }
    }

    fn place(&self) -> (p: Place)
        ensures
            p@ == repo_place(self.config@),
    {
        Place { in_program_dir: true, path: self.config.dir.clone(), child: None }
    }

    fn top(&mut self) -> (a: Action)
        ensures
            (final(self)@, a@) == menu_top(old(self)@),
    {
        self.stage = MenuStage::Loading;
        Action::ReadSettings
    }

    fn report(&mut self, notice: Notice, args: Vec<&str>) -> (a: Action)
        ensures
            (final(self)@, a@) == menu_report(old(self)@, notice, strs(args@)),
    {
        self.stage = MenuStage::Reporting;
        show(notice, args)
    }

    fn report_failure(&mut self, r: Result<(), String>, notice: Notice) -> (a: Action)
        ensures
            (final(self)@, a@) == report_failure(old(self)@, crate::flow::unit_result(r), notice),
    {
        match r {
            Err(e) => {
                let parts = vec![e.as_str()];
                assert(strs(parts@) =~= seq![e@]);
                self.report(notice, parts)
            },
            Ok(()) => self.top(),
        }
    }

    fn open(&mut self, stage: MenuStage, d: Dialogue) -> (a: Action)
        requires
            dialogue_awaits(d@) == Awaits::Begin,
            dialogue_wf(d@),
        ensures
            (final(self)@, a@) == menu_open(old(self)@, stage, d@),
            menu_wf(final(self)@),
    {
        self.stage = stage;
        self.dialog = d;
        step_dialogue(&mut self.dialog, Event::Begin)
    }

    fn start_pushing(&mut self, question: &str) -> (a: Action)
        requires
            question@ == "是否现在开始推送？"@,
        ensures
            (final(self)@, a@) == start_pushing(old(self)@),
            menu_wf(final(self)@),
    {
        let d = Dialogue::Push(PushFlow::new(question, &self.config));
        let a = self.open(MenuStage::Pushing, d);
        match a {
            Action::Finish { .. } => self.top(),
            other => other,
        }
    }

    fn after_committing(&mut self, r: Result<(), String>) -> (a: Action)
        requires
            menu_wf(old(self)@),
        ensures
            (final(self)@, a@) == after_committing(old(self)@, crate::flow::unit_result(r)),
            menu_wf(final(self)@),
    {
        proof {
            reveal_strlit("是否现在开始推送？");
        }
        match r {
            Err(e) => {
                let parts = vec![e.as_str()];
                assert(strs(parts@) =~= seq![e@]);
                self.report(Notice::CommitFailed, parts)
            },
            Ok(()) => self.start_pushing("是否现在开始推送？"),
        }
    }

    fn start_committing(&mut self) -> (a: Action)
        ensures
            (final(self)@, a@) == start_committing(old(self)@),
            menu_wf(final(self)@),
    {
        let a = self.open(MenuStage::Committing, Dialogue::Commit(CommitFlow::new()));
        match a {
            Action::Finish { result } => self.after_committing(result),
            other => other,
        }
    }

    fn start_commit_remote(&mut self) -> (a: Action)
        ensures
            (final(self)@, a@) == start_commit_remote(old(self)@),
            menu_wf(final(self)@),
    {
        let d = Dialogue::Remote(RemoteFlow::new(&self.config));
        let a = self.open(MenuStage::CommitRemote, d);
        match a {
            Action::Finish { .. } => self.start_committing(),
            other => other,
        }
    }

    fn start_commit_identity(&mut self) -> (a: Action)
        ensures
            (final(self)@, a@) == start_commit_identity(old(self)@),
            menu_wf(final(self)@),
    {
        let d = Dialogue::Identity(IdentityFlow::new(&self.config));
        let a = self.open(MenuStage::CommitIdentity, d);
        match a {
            Action::Finish { .. } => self.start_commit_remote(),
            other => other,
        }
    }

    fn start_uploading(&mut self) -> (a: Action)
        ensures
            (final(self)@, a@) == start_uploading(old(self)@),
            menu_wf(final(self)@),
    {
        let d = Dialogue::Upload(UploadFlow::new(&self.config));
        let a = self.open(MenuStage::Uploading, d);
        match a {
            Action::Finish { result } => self.report_failure(result, Notice::UploadFailed),
            other => other,
        }
    }

    fn start_upload_remote(&mut self) -> (a: Action)
        ensures
            (final(self)@, a@) == start_upload_remote(old(self)@),
            menu_wf(final(self)@),
    {
        let d = Dialogue::Remote(RemoteFlow::new(&self.config));
        let a = self.open(MenuStage::UploadRemote, d);
        match a {
            Action::Finish { .. } => self.start_uploading(),
            other => other,
        }
    }

    fn start_upload_identity(&mut self) -> (a: Action)
        ensures
            (final(self)@, a@) == start_upload_identity(old(self)@),
            menu_wf(final(self)@),
    {
        let d = Dialogue::Identity(IdentityFlow::new(&self.config));
        let a = self.open(MenuStage::UploadIdentity, d);
        match a {
            Action::Finish { .. } => self.start_upload_remote(),
            other => other,
        }
    }

    fn after(&mut self, r: Result<(), String>) -> (a: Action)
        requires
            menu_wf(old(self)@),
        ensures
            (final(self)@, a@) == menu_after(old(self)@, crate::flow::unit_result(r)),
            menu_wf(final(self)@),
    {
        match self.stage {
            MenuStage::CommitIdentity => self.start_commit_remote(),
            MenuStage::CommitRemote => self.start_committing(),
            MenuStage::Committing => self.after_committing(r),
            MenuStage::Switching => self.report_failure(r, Notice::BranchFailed),
            MenuStage::Cloning => self.report_failure(r, Notice::CloneFailed),
            MenuStage::Merging => self.report_failure(r, Notice::MergeFailed),
            MenuStage::Updating => self.report_failure(r, Notice::UpdateFailed),
            MenuStage::Configuring => match r {
                Err(e) => {
                    let parts = vec![e.as_str()];
                    assert(strs(parts@) =~= seq![e@]);
                    self.report(Notice::ConfigFailed, parts)
                },
                Ok(()) => {
                    let a = self.report(Notice::ConfigChanged, vec![]);
                    assert(strs(seq![]) =~= seq![]);
                    a
                },
            },
            MenuStage::Reverting => match r {
                Err(e) => {
                    let parts = vec![e.as_str()];
                    assert(strs(parts@) =~= seq![e@]);
                    self.report(Notice::RevertFailed, parts)
                },
                Ok(()) => {
                    self.stage = MenuStage::AskedPushRevert;
                    let a = confirm(Question::PushRevert, vec![], true);
                    assert(strs(seq![]) =~= seq![]);
                    a
                },
            },
            MenuStage::Resetting => match r {
                Err(e) => {
                    let parts = vec![e.as_str()];
                    assert(strs(parts@) =~= seq![e@]);
                    self.report(Notice::ResetFailed, parts)
                },
                Ok(()) => {
                    self.stage = MenuStage::AskedForce;
                    let a = confirm(Question::ForcePushAfterReset, vec![], false);
                    assert(strs(seq![]) =~= seq![]);
                    a
                },
            },
            MenuStage::Viewing => self.report_failure(r, Notice::LogFailed),
            MenuStage::UploadIdentity => self.start_upload_remote(),
            MenuStage::UploadRemote => self.start_uploading(),
            MenuStage::Uploading => self.report_failure(r, Notice::UploadFailed),
            _ => self.top(),
        }
    }

    fn launch(&mut self, stage: MenuStage, d: Dialogue) -> (a: Action)
        requires
            dialogue_awaits(d@) == Awaits::Begin,
            dialogue_wf(d@),
        ensures
            (final(self)@, a@) == menu_launch(old(self)@, stage, d@),
            menu_wf(final(self)@),
    {
        let a = self.open(stage, d);
        match a {
            Action::Finish { result } => self.after(result),
            other => other,
        }
    }

    fn entry_dialogue(&self, choice: &str) -> (r: Option<(MenuStage, Dialogue)>)
        ensures
            match r {
                Some(p) => {
                    &&& entry_dialogue(self@, choice@) == Some((p.0, p.1@))
                    &&& dialogue_awaits(p.1@) == Awaits::Begin
                    &&& dialogue_wf(p.1@)
                },
                None => entry_dialogue(self@, choice@) is None,
            },
    {
        proof {
            reveal_strlit("2");
            reveal_strlit("3");
            reveal_strlit("4");
            reveal_strlit("5");
            reveal_strlit("6");
            reveal_strlit("7");
            reveal_strlit("8");
            reveal_strlit("9");
        }
        if same_text(choice, "2") {
            Some((MenuStage::Switching, Dialogue::Branch(BranchFlow::new(self.config.git_branch.as_str()))))
        } else if same_text(choice, "3") {
            Some((MenuStage::Cloning, Dialogue::Clone(CloneFlow::new(&self.config))))
        } else if same_text(choice, "4") {
            Some((MenuStage::Merging, Dialogue::Merge(MergeFlow::new(&self.config, self.pid))))
        } else if same_text(choice, "5") {
            Some((MenuStage::Updating, Dialogue::Update(UpdateFlow::new(&self.config))))
        } else if same_text(choice, "6") {
            Some((MenuStage::Configuring, Dialogue::Init(InitFlow::new(&self.config))))
        } else if same_text(choice, "7") {
            Some((MenuStage::Reverting, Dialogue::Revert(RevertFlow::new())))
        } else if same_text(choice, "8") {
            Some((MenuStage::Resetting, Dialogue::Reset(ResetFlow::new())))
        } else if same_text(choice, "9") {
            Some((MenuStage::Viewing, Dialogue::Log(LogFlow::new())))
        } else {
            None
        }
    }

    fn pick_entry(&mut self, choice: &str) -> (a: Action)
        requires
            menu_wf(old(self)@),
        ensures
            (final(self)@, a@) == menu_choose(old(self)@, choice@),
            menu_wf(final(self)@),
    {
        proof {
            reveal_strlit("1");
            reveal_strlit("10");
            reveal_strlit("11");
        }
        if same_text(choice, "1") {
            self.start_commit_identity()
        } else if same_text(choice, "10") {
            self.start_upload_identity()
        } else if same_text(choice, "11") {
            self.stage = MenuStage::Leaving;
            let a = show(Notice::Goodbye, vec![]);
            assert(strs(seq![]) =~= seq![]);
            a
        } else {
            match self.entry_dialogue(choice) {
                Some((stage, d)) => self.launch(stage, d),
                None => {
                    let a = self.report(Notice::InvalidChoice, vec![]);
                    assert(strs(seq![]) =~= seq![]);
                    a
                },
            }
        }
    }
}

/// One step of the menu loop (`menu_loop`).
pub fn menu_loop(flow: &mut MenuFlow, event: Event) -> (a: Action)
    requires
        fits(menu_awaits(old(flow)@), event@),
        menu_wf(old(flow)@),
        menu_event_ok(old(flow)@, event@),
    ensures
        (final(flow)@, a@) == menu_next(old(flow)@, event@),
        menu_wf(final(flow)@),
{
    match flow.stage {
        MenuStage::CommitIdentity | MenuStage::CommitRemote | MenuStage::Committing
        | MenuStage::Pushing | MenuStage::Switching | MenuStage::Cloning | MenuStage::Merging
        | MenuStage::Updating | MenuStage::Configuring | MenuStage::Reverting
        | MenuStage::PushingRevert | MenuStage::Resetting | MenuStage::Viewing
        | MenuStage::UploadIdentity | MenuStage::UploadRemote | MenuStage::Uploading => {
            let a = step_dialogue(&mut flow.dialog, event);
            match a {
                Action::Finish { result } => flow.after(result),
                other => other,
            }
        },
        MenuStage::Start => flow.top(),
        MenuStage::Loading => match event {
            Event::Read(r) => {
                flow.config = match r {
                    Ok(t) => Config::from_ini(t.as_str()),
                    Err(_) => Config::default(),
                };
                flow.stage = MenuStage::Probing;
                Action::Exists { place: flow.place() }
            },
            _ => vstd::pervasive::unreached(),
        },
        MenuStage::Probing => match event {
            Event::Flag(there) => {
                if there {
                    flow.stage = MenuStage::Entering;
                    Action::EnterDir { place: flow.place() }
                } else {
                    flow.stage = MenuStage::Menu;
                    let a = show(Notice::MainMenu, vec![]);
                    assert(strs(seq![]) =~= seq![]);
                    a
                }
            },
            _ => vstd::pervasive::unreached(),
        },
        MenuStage::Entering => {
            flow.stage = MenuStage::Menu;
            let a = show(Notice::MainMenu, vec![]);
            assert(strs(seq![]) =~= seq![]);
            a
        },
        MenuStage::Menu => {
            flow.stage = MenuStage::Choosing;
            let a = ask(Question::MenuChoice, vec![], "0");
            assert(strs(seq![]) =~= seq![]);
            a
        },
        MenuStage::Choosing => match event {
            Event::Answered(choice) => flow.pick_entry(choice.as_str()),
            _ => vstd::pervasive::unreached(),
        },
        MenuStage::AskedPushRevert => match event {
            Event::Flag(yes) => {
                if yes {
                    let d = Dialogue::Push(PushFlow::new("是否现在推送撤销更改？", &flow.config));
                    let a = flow.open(MenuStage::PushingRevert, d);
                    match a {
                        Action::Finish { .. } => flow.top(),
                        other => other,
                    }
                } else {
                    flow.top()
                }
            },
            _ => vstd::pervasive::unreached(),
        },
        MenuStage::AskedForce => match event {
            Event::Flag(yes) => {
                if yes {
                    flow.stage = MenuStage::ConfirmingForce;
                    let a = confirm(Question::ConfirmForcePushAfterReset, vec![], false);
                    assert(strs(seq![]) =~= seq![]);
                    a
                } else {
                    flow.top()
                }
            },
            _ => vstd::pervasive::unreached(),
        },
        MenuStage::ConfirmingForce => match event {
            Event::Flag(yes) => {
                if yes {
                    flow.stage = MenuStage::ForcePushing;
                    let parts = vec![
                        "push",
                        flow.config.git_remote_name.as_str(),
                        flow.config.git_branch.as_str(),
                        "--force",
                    ];
                    assert(strs(parts@) =~= seq![
                        "push"@,
                        flow.config.git_remote_name@,
                        flow.config.git_branch@,
                        "--force"@,
                    ]);
                    git(parts)
                } else {
                    flow.top()
                }
            },
            _ => vstd::pervasive::unreached(),
        },
        MenuStage::ForcePushing => flow.top(),
        MenuStage::Reporting => flow.top(),
        MenuStage::Leaving => {
            flow.stage = MenuStage::Done;
            finish_ok()
        },
        MenuStage::Done => vstd::pervasive::unreached(),
    }
}


proof fn lemma_after_never_forces(m: MenuModel, r: Result<(), Seq<char>>)
    ensures
        !(menu_after(m, r).0.stage is ForcePushing),
        !(menu_after(m, r).0.stage is ConfirmingForce),
        menu_after(m, r).0.stage is AskedForce ==> m.stage is Resetting && r is Ok
            && menu_after(m, r).1 == ActionView::Confirm(Question::ForcePushAfterReset, seq![], false),
{
}

proof fn lemma_choice_never_forces(m: MenuModel, choice: Seq<char>)
    ensures
        !(menu_choose(m, choice).0.stage is ForcePushing),
        !(menu_choose(m, choice).0.stage is ConfirmingForce),
        !(menu_choose(m, choice).0.stage is AskedForce),
{
    reveal(crate::history::reset_next);
    match entry_dialogue(m, choice) {
        Some((stage, d)) => {
            let (n, a) = menu_open(m, stage, d);
            if a is Finish {
                lemma_after_never_forces(n, a->Finish_0);
            }
        },
        None => {},
    }
}

/// Law: the menu runs `git push <remote> <branch> --force` only as the
/// answer to a second confirmation, which it asks only after the first was
/// answered yes, which it asks only after a reset succeeded.
pub proof fn lemma_force_push_confirmed_twice(m: MenuModel, e: EventView)
    requires
        fits(menu_awaits(m), e),
    ensures
        menu_next(m, e).0.stage is ForcePushing ==> {
            &&& m.stage is ConfirmingForce
            &&& e == EventView::Flag(true)
            &&& menu_next(m, e).1 == ActionView::Git(
                seq!["push"@, m.config.git_remote_name, m.config.git_branch, "--force"@],
            )
        },
        menu_next(m, e).0.stage is ConfirmingForce ==> m.stage is AskedForce && e
            == EventView::Flag(true),
        menu_next(m, e).0.stage is AskedForce ==> {
            &&& m.stage is Resetting
            &&& dialogue_next(m.dialog, e).1 is Finish
            &&& dialogue_next(m.dialog, e).1->Finish_0 is Ok
            &&& menu_next(m, e).1 == ActionView::Confirm(Question::ForcePushAfterReset, seq![], false)
        },
        menu_next(m, e).0.stage is ConfirmingForce ==> menu_next(m, e).1 == ActionView::Confirm(
            Question::ConfirmForcePushAfterReset,
            seq![],
            false,
        ),
        menu_next(m, e).0.stage is ForcePushing ==> menu_next(m, e).0.config == m.config,
        menu_next(m, e).0.stage is ConfirmingForce ==> menu_next(m, e).0.config == m.config,
{
    if in_dialogue(m.stage) {
        let (d, a) = dialogue_next(m.dialog, e);
        if a is Finish {
            lemma_after_never_forces(MenuModel { dialog: d, ..m }, a->Finish_0);
        }
    } else if m.stage is Choosing {
        lemma_choice_never_forces(m, e->Answered_0);
    }
}

/// Law: each menu entry starts its own dialogue, seen in its first action:
/// 2 checks for a repository (switching branch), 3 opens the clone, 4 the
/// merge, 5 the update, 6 the settings, 7 and 8 list the recent commits
/// (revert, reset), 9 opens the log viewer; 11 says goodbye and ends the
/// loop; any other text is reported as an invalid entry and the loop goes on.
pub proof fn lemma_menu_entries(m: MenuModel, choice: Seq<char>)
    requires
        m.stage is Choosing,
    ensures
        choice == "2"@ ==> menu_next(m, EventView::Answered(choice)).1 == ActionView::CheckRepo,
        choice == "3"@ ==> menu_next(m, EventView::Answered(choice)).1 == ActionView::Show(Notice::CloneTitle, seq![]),
        choice == "4"@ ==> menu_next(m, EventView::Answered(choice)).1 == ActionView::Show(Notice::RemoteKinds, seq![]),
        choice == "5"@ ==> menu_next(m, EventView::Answered(choice)).1 == ActionView::Show(Notice::UpdateTitle, seq![]),
        choice == "6"@ ==> menu_next(m, EventView::Answered(choice)).1 == ActionView::Show(
            Notice::DirectoryListing,
            seq![],
        ),
        choice == "7"@ || choice == "8"@ ==> menu_next(m, EventView::Answered(choice)).1 == ActionView::Show(
            Notice::RecentCommits,
            seq![],
        ),
        choice == "9"@ ==> menu_next(m, EventView::Answered(choice)).1 == ActionView::Show(Notice::LogTitle, seq![]),
        choice == "11"@ ==> {
            let (n, a) = menu_next(m, EventView::Answered(choice));
            &&& a == ActionView::Show(Notice::Goodbye, seq![])
            &&& menu_next(n, EventView::Shown).1 == ActionView::Finish(Ok(()))
        },
        !(choice == "1"@ || choice == "2"@ || choice == "3"@ || choice == "4"@ || choice == "5"@ || choice
            == "6"@ || choice == "7"@ || choice == "8"@ || choice == "9"@ || choice == "10"@ || choice
            == "11"@) ==> {
            let (n, a) = menu_next(m, EventView::Answered(choice));
            &&& a == ActionView::Show(Notice::InvalidChoice, seq![])
            &&& menu_next(n, EventView::Shown).1 == ActionView::ReadSettings
        },
{
    reveal_strlit("1");
    reveal_strlit("2");
    reveal_strlit("3");
    reveal_strlit("4");
    reveal_strlit("5");
    reveal_strlit("6");
    reveal_strlit("7");
    reveal_strlit("8");
    reveal_strlit("9");
    reveal_strlit("10");
    reveal_strlit("11");
    assert(!in_dialogue(m.stage));
    assert("1"@.len() == 1 && "1"@[0] == '1');
    assert("2"@.len() == 1 && "2"@[0] == '2');
    assert("3"@.len() == 1 && "3"@[0] == '3');
    assert("4"@.len() == 1 && "4"@[0] == '4');
    assert("5"@.len() == 1 && "5"@[0] == '5');
    assert("6"@.len() == 1 && "6"@[0] == '6');
    assert("7"@.len() == 1 && "7"@[0] == '7');
    assert("8"@.len() == 1 && "8"@[0] == '8');
    assert("9"@.len() == 1 && "9"@[0] == '9');
    assert("10"@.len() == 2 && "11"@.len() == 2 && "10"@[1] == '0' && "11"@[1] == '1');
    let e = EventView::Answered(choice);
    if choice == "2"@ {
        assert(choice != "1"@ && choice != "10"@ && choice != "11"@);
        let d = DialogueModel::Branch(branch_start(m.config.git_branch));
        assert(entry_dialogue(m, choice) == Some((MenuStage::Switching, d)));
        assert(menu_open(m, MenuStage::Switching, d).1 == ActionView::CheckRepo);
        assert(menu_next(m, e) == menu_choose(m, choice));
    } else if choice == "3"@ {
        reveal(crate::setup::clone_next);
        assert(choice != "1"@ && choice != "10"@ && choice != "11"@ && choice != "2"@);
        let d = DialogueModel::Clone(clone_start(m.config));
        assert(entry_dialogue(m, choice) == Some((MenuStage::Cloning, d)));
        assert(menu_open(m, MenuStage::Cloning, d).1 == ActionView::Show(Notice::CloneTitle, seq![]));
        assert(menu_next(m, e) == menu_choose(m, choice));
    } else if choice == "4"@ {
        reveal(crate::merge::merge_next);
        assert(menu_next(m, e) == menu_choose(m, choice));
    } else if choice == "5"@ {
        reveal(crate::update::update_next);
        assert(menu_next(m, e) == menu_choose(m, choice));
    } else if choice == "6"@ {
        reveal(crate::setup::init_next);
        assert(menu_next(m, e) == menu_choose(m, choice));
    } else if choice == "7"@ {
        reveal(crate::history::revert_next);
        assert(menu_next(m, e) == menu_choose(m, choice));
    } else if choice == "8"@ {
        reveal(crate::history::reset_next);
        assert(menu_next(m, e) == menu_choose(m, choice));
    } else if choice == "9"@ {
        reveal(crate::logview::log_next);
        assert(menu_next(m, e) == menu_choose(m, choice));
    } else {
        assert(menu_next(m, e) == menu_choose(m, choice));
    }
}

} // verus!
