//! The start of the program: settings are loaded, set up where they are
//! incomplete, the repository directory is entered, and the identity, the
//! remote and the branch are applied before the menu opens.
use vstd::prelude::*;
use crate::config::{Config, ConfigView, config_complete, config_of_text, empty_config, text_readable};
use crate::flow::{
    Action, ActionView, Awaits, Event, EventView, Notice, Place, Question, ask,
    finish_ok, fits, show, strs, unit_result,
};
use crate::menu::{branch_start, failure, remote_start, repo_place};
use crate::ops::{BranchFlow, IdentityFlow, RemoteFlow, identity_start};
use crate::session::{
    Dialogue, DialogueModel, dialogue_awaits, dialogue_event_ok, dialogue_next, dialogue_wf,
    step_dialogue,
};
use crate::setup::{CloneFlow, InitFlow, clone_start, copy_config, init_start};
use crate::text::same_text;

verus! {

#[derive(Debug, Clone, Copy, PartialEq, Eq, Structural)]
pub enum StartStage {
    Start,
    Located,
    Loading,
    SetupShown,
    SetupAsked,
    SettingUp,
    Reloading,
    Probing,
    Entering,
    InDir,
    MissingShown,
    Reconfiguring,
    EnteringNew,
    Identity,
    IdentityReported,
    Remote,
    RemoteReported,
    Branch,
    BranchReported,
    Stopping,
    Done,
}

/// The start-up dialogue. It ends with success where the menu is to open,
/// with an error (already reported) where the program stops.
pub struct StartFlow {
    pub stage: StartStage,
    pub config: Config,
    pub error: String,
    pub dialog: Dialogue,
}

pub struct StartModel {
    pub stage: StartStage,
    pub config: ConfigView,
    pub error: Seq<char>,
    pub dialog: DialogueModel,
}

impl View for StartFlow {
    type V = StartModel;

    open spec fn view(&self) -> StartModel {
        StartModel { stage: self.stage, config: self.config@, error: self.error@, dialog: self.dialog@ }
    }
}

pub open spec fn start_begin() -> StartModel {
    StartModel {
        stage: StartStage::Start,
        config: empty_config(),
        error: Seq::empty(),
        dialog: DialogueModel::Idle,
    }
}

pub open spec fn start_in_dialogue(s: StartStage) -> bool {
    s is SettingUp || s is Reconfiguring || s is Identity || s is Remote || s is Branch
}

pub open spec fn start_awaits(m: StartModel) -> Awaits {
    if start_in_dialogue(m.stage) {
        dialogue_awaits(m.dialog)
    } else {
        match m.stage {
            StartStage::Start => Awaits::Begin,
            StartStage::Located => Awaits::Shown,
            StartStage::Loading => Awaits::Read,
            StartStage::SetupShown => Awaits::Shown,
            StartStage::SetupAsked => Awaits::Answer,
            StartStage::Reloading => Awaits::Read,
            StartStage::Probing => Awaits::Flag,
            StartStage::Entering => Awaits::Ran,
            StartStage::InDir => Awaits::Shown,
            StartStage::MissingShown => Awaits::Shown,
            StartStage::EnteringNew => Awaits::Ran,
            StartStage::IdentityReported => Awaits::Shown,
            StartStage::RemoteReported => Awaits::Shown,
            StartStage::BranchReported => Awaits::Shown,
            StartStage::Stopping => Awaits::Shown,
            _ => Awaits::Nothing,
        }
    }
}

pub open spec fn start_wf(m: StartModel) -> bool {
    dialogue_wf(m.dialog)
}

/// What the start-up asks of an event beyond its kind: a settings text that
/// can be read, and what the running dialogue asks.
pub open spec fn start_event_ok(m: StartModel, e: EventView) -> bool {
    &&& ((m.stage is Loading || m.stage is Reloading) && e is Read && e->Read_0 is Ok)
        ==> text_readable(e->Read_0->Ok_0)
    &&& start_in_dialogue(m.stage) ==> dialogue_event_ok(m.dialog, e)
}

/// The settings an answer to `ReadSettings` gives.
pub open spec fn settings_of(r: Result<Seq<char>, Seq<char>>) -> ConfigView {
    match r {
        Ok(t) => config_of_text(t),
        Err(_) => empty_config(),
    }
}

/// Reports `notice` and stops with `error`.
pub open spec fn start_stop(m: StartModel, notice: Notice, args: Seq<Seq<char>>, error: Seq<char>) -> (StartModel, ActionView) {
    (StartModel { stage: StartStage::Stopping, error, ..m }, ActionView::Show(notice, args))
}

pub open spec fn start_open(m: StartModel, stage: StartStage, d: DialogueModel) -> (StartModel, ActionView) {
    let (n, a) = dialogue_next(d, EventView::Begin);
    (StartModel { stage, dialog: n, ..m }, a)
}

/// The configured branch is switched to (created where missing) when one is
/// set; then the menu opens.
pub open spec fn start_branch(m: StartModel) -> (StartModel, ActionView) {
    if m.config.git_branch.len() == 0 {
        (StartModel { stage: StartStage::Done, ..m }, ActionView::Finish(Ok(())))
    } else {
        let (n, a) = start_open(m, StartStage::Branch, DialogueModel::Branch(branch_start(m.config.git_branch)));
        if a is Finish {
            after_branch(n, a->Finish_0)
        } else {
            (n, a)
        }
    }
}

pub open spec fn after_branch(m: StartModel, r: Result<(), Seq<char>>) -> (StartModel, ActionView) {
    if r is Err {
        (StartModel { stage: StartStage::BranchReported, ..m }, ActionView::Show(Notice::BranchSetupFailed, failure(r)))
    } else {
        (StartModel { stage: StartStage::Done, ..m }, ActionView::Finish(Ok(())))
    }
}

pub open spec fn after_remote(m: StartModel, r: Result<(), Seq<char>>) -> (StartModel, ActionView) {
    if r is Err {
        (StartModel { stage: StartStage::RemoteReported, ..m }, ActionView::Show(Notice::RemoteFailed, failure(r)))
    } else {
        start_branch(m)
    }
}

pub open spec fn start_remote(m: StartModel) -> (StartModel, ActionView) {
    let (n, a) = start_open(m, StartStage::Remote, DialogueModel::Remote(remote_start(m.config)));
    if a is Finish {
        after_remote(n, a->Finish_0)
    } else {
        (n, a)
    }
}

pub open spec fn after_identity(m: StartModel, r: Result<(), Seq<char>>) -> (StartModel, ActionView) {
    if r is Err {
        (StartModel { stage: StartStage::IdentityReported, ..m }, ActionView::Show(Notice::IdentityFailed, failure(r)))
    } else {
        start_remote(m)
    }
}

pub open spec fn start_identity(m: StartModel) -> (StartModel, ActionView) {
    let (n, a) = start_open(m, StartStage::Identity, DialogueModel::Identity(identity_start(m.config)));
    if a is Finish {
        after_identity(n, a->Finish_0)
    } else {
        (n, a)
    }
}

/// With complete settings: the repository directory (where one is set) is
/// entered, or set up again where it is missing.
pub open spec fn start_check_dir(m: StartModel) -> (StartModel, ActionView) {
    if m.config.dir.len() == 0 {
        start_identity(m)
    } else {
        (StartModel { stage: StartStage::Probing, ..m }, ActionView::Exists(repo_place(m.config)))
    }
}

/// The settings as the reconfiguring dialogue left them.
pub open spec fn reconfigured(m: StartModel) -> ConfigView {
    match m.dialog {
        DialogueModel::Init(im) => im.config,
        _ => m.config,
    }
}

pub open spec fn after_reconfiguring(m: StartModel, r: Result<(), Seq<char>>) -> (StartModel, ActionView) {
    match r {
        Err(e) => start_stop(m, Notice::ReconfigFailed, seq![e], e),
        Ok(()) => {
            let c = reconfigured(m);
            (StartModel { stage: StartStage::EnteringNew, config: c, ..m }, ActionView::EnterDir(repo_place(c)))
        },
    }
}

pub open spec fn after_setting_up(m: StartModel, r: Result<(), Seq<char>>) -> (StartModel, ActionView) {
    match r {
        Err(e) => start_stop(m, Notice::SetupFailed, seq![e], e),
        Ok(()) => (StartModel { stage: StartStage::Reloading, ..m }, ActionView::ReadSettings),
    }
}

/// What follows the end of the start-up's dialogue, by the stage it ran in.
pub open spec fn start_after(m: StartModel, r: Result<(), Seq<char>>) -> (StartModel, ActionView) {
    match m.stage {
        StartStage::SettingUp => after_setting_up(m, r),
        StartStage::Reconfiguring => after_reconfiguring(m, r),
        StartStage::Identity => after_identity(m, r),
        StartStage::Remote => after_remote(m, r),
        _ => after_branch(m, r),
    }
}

pub open spec fn start_launch(m: StartModel, stage: StartStage, d: DialogueModel) -> (StartModel, ActionView) {
    let (n, a) = start_open(m, stage, d);
    if a is Finish {
        start_after(n, a->Finish_0)
    } else {
        (n, a)
    }
}

/// The start of the program. It shows where the program lives and reads the
/// settings file. Incomplete settings are set up by hand (answer `1`, the
/// default) or by cloning (`2`); another answer stops; a failed set-up stops;
/// the settings are read again and still incomplete ones stop. Where a
/// repository directory is set it is entered (failing to enter stops), or,
/// where it is missing, set up again and then entered (either failing stops).
/// Then the identity is applied and the remote set up, each failure reported
/// but not stopping; where a branch is set it is switched to, a failure
/// reported. Then the menu opens.
pub open spec fn start_next(m: StartModel, e: EventView) -> (StartModel, ActionView) {
    if start_in_dialogue(m.stage) {
        let (d, a) = dialogue_next(m.dialog, e);
        let n = StartModel { dialog: d, ..m };
        if a is Finish {
            start_after(n, a->Finish_0)
        } else {
            (n, a)
        }
    } else {
        match (m.stage, e) {
            (StartStage::Start, _) => (
                StartModel { stage: StartStage::Located, ..m },
                ActionView::Show(Notice::ProgramLocation, seq![]),
            ),
            (StartStage::Located, EventView::Shown) => (
                StartModel { stage: StartStage::Loading, ..m },
                ActionView::ReadSettings,
            ),
            (StartStage::Loading, EventView::Read(r)) => {
                let c = settings_of(r);
                let n = StartModel { config: c, ..m };
                if config_complete(c) {
                    start_check_dir(n)
                } else {
                    (StartModel { stage: StartStage::SetupShown, ..n }, ActionView::Show(Notice::SetupNeeded, seq![]))
                }
            },
            (StartStage::SetupShown, EventView::Shown) => (
                StartModel { stage: StartStage::SetupAsked, ..m },
                ActionView::Ask(Question::SetupChoice, seq![], "1"@),
            ),
            (StartStage::SetupAsked, EventView::Answered(choice)) => if choice == "1"@ {
                start_launch(m, StartStage::SettingUp, DialogueModel::Init(init_start(m.config)))
            } else if choice == "2"@ {
                start_launch(m, StartStage::SettingUp, DialogueModel::Clone(clone_start(m.config)))
            } else {
                start_stop(m, Notice::InvalidSetupChoice, seq![], "无效选项，退出"@)
            },
            (StartStage::Reloading, EventView::Read(r)) => {
                let c = settings_of(r);
                let n = StartModel { config: c, ..m };
                if config_complete(c) {
                    start_check_dir(n)
                } else {
                    start_stop(n, Notice::StillIncomplete, seq![], "配置仍不完整，请重新运行程序配置"@)
                }
            },
            (StartStage::Probing, EventView::Flag(there)) => if there {
                (StartModel { stage: StartStage::Entering, ..m }, ActionView::EnterDir(repo_place(m.config)))
            } else {
                (
                    StartModel { stage: StartStage::MissingShown, ..m },
                    ActionView::Show(Notice::RepoDirectoryMissing, seq![m.config.dir]),
                )
            },
            (StartStage::Entering, EventView::Ran(Err(err))) => start_stop(
                m,
                Notice::CannotEnter,
                seq![m.config.dir, err],
                err,
            ),
            (StartStage::Entering, EventView::Ran(Ok(()))) => (
                StartModel { stage: StartStage::InDir, ..m },
                ActionView::Show(Notice::WorkingDirectory, seq![m.config.dir]),
            ),
            (StartStage::InDir, EventView::Shown) => start_identity(m),
            (StartStage::MissingShown, EventView::Shown) => start_launch(
                m,
                StartStage::Reconfiguring,
                DialogueModel::Init(init_start(m.config)),
            ),
            (StartStage::EnteringNew, EventView::Ran(Err(err))) => start_stop(
                m,
                Notice::CannotEnterNew,
                seq![err],
                err,
            ),
            (StartStage::EnteringNew, EventView::Ran(Ok(()))) => start_identity(m),
            (StartStage::IdentityReported, EventView::Shown) => start_remote(m),
            (StartStage::RemoteReported, EventView::Shown) => start_branch(m),
            (StartStage::BranchReported, EventView::Shown) => (
                StartModel { stage: StartStage::Done, ..m },
                ActionView::Finish(Ok(())),
            ),
            (StartStage::Stopping, EventView::Shown) => (
                StartModel { stage: StartStage::Done, ..m },
                ActionView::Finish(Err(m.error)),
            ),
            _ => (m, ActionView::Finish(Ok(()))),
        }
    }
}

/// Law: settings read at start-up that lack the directory or the user name
/// lead to the set-up question; complete ones with a directory lead to
/// checking that the directory exists. At the set-up question, `1` starts
/// the settings dialogue, `2` the clone, and anything else stops the
/// program after reporting the invalid choice.
pub proof fn lemma_start_setup(m: StartModel, text: Seq<char>, choice: Seq<char>)
    requires
        m.stage is Loading || m.stage is SetupAsked,
    ensures
        m.stage is Loading ==> {
            let c = config_of_text(text);
            let a = start_next(m, EventView::Read(Ok(text))).1;
            &&& (c.dir.len() == 0 || c.git_name.len() == 0) ==> a == ActionView::Show(Notice::SetupNeeded, seq![])
            &&& (c.dir.len() > 0 && c.git_name.len() > 0) ==> a == ActionView::Exists(repo_place(c))
        },
        m.stage is SetupAsked ==> {
            let (n, a) = start_next(m, EventView::Answered(choice));
            &&& choice == "1"@ ==> a == ActionView::Show(Notice::DirectoryListing, seq![])
            &&& choice == "2"@ ==> a == ActionView::Show(Notice::CloneTitle, seq![])
            &&& choice != "1"@ && choice != "2"@ ==> a == ActionView::Show(Notice::InvalidSetupChoice, seq![])
                && start_next(n, EventView::Shown).1 == ActionView::Finish(Err("无效选项，退出"@))
        },
{
    reveal(crate::setup::init_next);
    reveal(crate::setup::clone_next);
    reveal_strlit("1");
    reveal_strlit("2");
    assert("1"@[0] != "2"@[0]);
}

impl StartFlow {
    pub fn new() -> (f: StartFlow)
        ensures
            f@ == start_begin(),
            start_wf(f@),
    {
        StartFlow {
            stage: StartStage::Start,
            config: Config::default(),
            error: String::new(),
            dialog: Dialogue::Idle,
        }
    }

    fn place(&self) -> (p: Place)
        ensures
            p@ == repo_place(self.config@),
    {
        Place { in_program_dir: true, path: self.config.dir.clone(), child: None }
    }

    fn stop(&mut self, notice: Notice, args: Vec<&str>, error: String) -> (a: Action)
        ensures
            (final(self)@, a@) == start_stop(old(self)@, notice, strs(args@), error@),
    {
        self.stage = StartStage::Stopping;
        self.error = error;
        show(notice, args)
    }

    fn open(&mut self, stage: StartStage, d: Dialogue) -> (a: Action)
        requires
            dialogue_awaits(d@) == Awaits::Begin,
            dialogue_wf(d@),
        ensures
            (final(self)@, a@) == start_open(old(self)@, stage, d@),
            start_wf(final(self)@),
    {
        self.stage = stage;
        self.dialog = d;
        step_dialogue(&mut self.dialog, Event::Begin)
    }

    fn after_branch(&mut self, r: Result<(), String>) -> (a: Action)
        ensures
            (final(self)@, a@) == after_branch(old(self)@, unit_result(r)),
    {
        match r {
            Err(e) => {
                self.stage = StartStage::BranchReported;
                let parts = vec![e.as_str()];
                assert(strs(parts@) =~= seq![e@]);
                show(Notice::BranchSetupFailed, parts)
            },
            Ok(()) => {
                self.stage = StartStage::Done;
                finish_ok()
            },
        }
    }

    fn start_branch(&mut self) -> (a: Action)
        requires
            start_wf(old(self)@),
        ensures
            (final(self)@, a@) == start_branch(old(self)@),
            start_wf(final(self)@),
    {
        if self.config.git_branch.as_str().is_empty() {
            self.stage = StartStage::Done;
            finish_ok()
        } else {
            let d = Dialogue::Branch(BranchFlow::new(self.config.git_branch.as_str()));
            let a = self.open(StartStage::Branch, d);
            match a {
                Action::Finish { result } => self.after_branch(result),
                other => other,
            }
        }
    }

    fn after_remote(&mut self, r: Result<(), String>) -> (a: Action)
        requires
            start_wf(old(self)@),
        ensures
            (final(self)@, a@) == after_remote(old(self)@, unit_result(r)),
            start_wf(final(self)@),
    {
        match r {
            Err(e) => {
                self.stage = StartStage::RemoteReported;
                let parts = vec![e.as_str()];
                assert(strs(parts@) =~= seq![e@]);
                show(Notice::RemoteFailed, parts)
            },
            Ok(()) => self.start_branch(),
        }
    }

    fn start_remote(&mut self) -> (a: Action)
        ensures
            (final(self)@, a@) == start_remote(old(self)@),
            start_wf(final(self)@),
    {
        let d = Dialogue::Remote(RemoteFlow::new(&self.config));
        let a = self.open(StartStage::Remote, d);
        match a {
            Action::Finish { result } => self.after_remote(result),
            other => other,
        }
    }

    fn after_identity(&mut self, r: Result<(), String>) -> (a: Action)
        requires
            start_wf(old(self)@),
        ensures
            (final(self)@, a@) == after_identity(old(self)@, unit_result(r)),
            start_wf(final(self)@),
    {
        match r {
            Err(e) => {
                self.stage = StartStage::IdentityReported;
                let parts = vec![e.as_str()];
                assert(strs(parts@) =~= seq![e@]);
                show(Notice::IdentityFailed, parts)
            },
            Ok(()) => self.start_remote(),
        }
    }

    fn start_identity(&mut self) -> (a: Action)
        ensures
            (final(self)@, a@) == start_identity(old(self)@),
            start_wf(final(self)@),
    {
        let d = Dialogue::Identity(IdentityFlow::new(&self.config));
        let a = self.open(StartStage::Identity, d);
        match a {
            Action::Finish { result } => self.after_identity(result),
            other => other,
        }
    }

    fn check_dir(&mut self) -> (a: Action)
        requires
            start_wf(old(self)@),
        ensures
            (final(self)@, a@) == start_check_dir(old(self)@),
            start_wf(final(self)@),
    {
        if self.config.dir.as_str().is_empty() {
            self.start_identity()
        } else {
            self.stage = StartStage::Probing;
            Action::Exists { place: self.place() }
        }
    }

    fn after(&mut self, r: Result<(), String>) -> (a: Action)
        requires
            start_wf(old(self)@),
        ensures
            (final(self)@, a@) == start_after(old(self)@, unit_result(r)),
            start_wf(final(self)@),
    {
        match self.stage {
            StartStage::SettingUp => match r {
                Err(e) => {
                    let parts = vec![e.as_str()];
                    assert(strs(parts@) =~= seq![e@]);
                    let err = e.clone();
                    self.stop(Notice::SetupFailed, parts, err)
                },
                Ok(()) => {
                    self.stage = StartStage::Reloading;
                    Action::ReadSettings
                },
            },
            StartStage::Reconfiguring => match r {
                Err(e) => {
                    let parts = vec![e.as_str()];
                    assert(strs(parts@) =~= seq![e@]);
                    let err = e.clone();
                    self.stop(Notice::ReconfigFailed, parts, err)
                },
                Ok(()) => {
                    let c = match &self.dialog {
                        Dialogue::Init(f) => Some(copy_config(&f.config)),
                        _ => None,
                    };
                    if let Some(c) = c {
                        self.config = c;
                    }
                    self.stage = StartStage::EnteringNew;
                    Action::EnterDir { place: self.place() }
                },
            },
            StartStage::Identity => self.after_identity(r),
            StartStage::Remote => self.after_remote(r),
            _ => self.after_branch(r),
        }
    }

    fn launch(&mut self, stage: StartStage, d: Dialogue) -> (a: Action)
        requires
            dialogue_awaits(d@) == Awaits::Begin,
            dialogue_wf(d@),
        ensures
            (final(self)@, a@) == start_launch(old(self)@, stage, d@),
            start_wf(final(self)@),
    {
        let a = self.open(stage, d);
        match a {
            Action::Finish { result } => self.after(result),
            other => other,
        }
    }

    fn load(&mut self, r: Result<String, String>)
        requires
            r is Ok ==> text_readable(r->Ok_0@),
        ensures
            final(self)@ == (StartModel {
                config: settings_of(
                    match r {
                        Ok(t) => Ok(t@),
                        Err(e) => Err(e@),
                    },
                ),
                ..old(self)@
            }),
    {
        self.config = match r {
            Ok(t) => Config::from_ini(t.as_str()),
            Err(_) => Config::default(),
        };
    }
}

impl StartFlow {
    fn on_loaded(&mut self, r: Result<String, String>) -> (a: Action)
        requires
            old(self)@.stage is Loading,
            start_wf(old(self)@),
            r is Ok ==> text_readable(r->Ok_0@),
        ensures
            (final(self)@, a@) == start_next(old(self)@, EventView::Read(
                match r {
                    Ok(t) => Ok(t@),
                    Err(e) => Err(e@),
                },
            )),
            start_wf(final(self)@),
    {
        self.load(r);
        if self.config.is_complete() {
            self.check_dir()
        } else {
            self.stage = StartStage::SetupShown;
            let a = show(Notice::SetupNeeded, vec![]);
            assert(strs(seq![]) =~= seq![]);
            a
        }
    }

    fn on_reloaded(&mut self, r: Result<String, String>) -> (a: Action)
        requires
            old(self)@.stage is Reloading,
            start_wf(old(self)@),
            r is Ok ==> text_readable(r->Ok_0@),
        ensures
            (final(self)@, a@) == start_next(old(self)@, EventView::Read(
                match r {
                    Ok(t) => Ok(t@),
                    Err(e) => Err(e@),
                },
            )),
            start_wf(final(self)@),
    {
        self.load(r);
        if self.config.is_complete() {
            self.check_dir()
        } else {
            let a = self.stop(
                Notice::StillIncomplete,
                vec![],
                "配置仍不完整，请重新运行程序配置".to_owned(),
            );
            assert(strs(seq![]) =~= seq![]);
            a
        }
    }

    fn on_setup_choice(&mut self, choice: String) -> (a: Action)
        requires
            old(self)@.stage is SetupAsked,
            start_wf(old(self)@),
        ensures
            (final(self)@, a@) == start_next(old(self)@, EventView::Answered(choice@)),
            start_wf(final(self)@),
    {
        proof {
            reveal_strlit("1");
            reveal_strlit("2");
        }
        if same_text(choice.as_str(), "1") {
            let d = Dialogue::Init(InitFlow::new(&self.config));
            self.launch(StartStage::SettingUp, d)
        } else if same_text(choice.as_str(), "2") {
            let d = Dialogue::Clone(CloneFlow::new(&self.config));
            self.launch(StartStage::SettingUp, d)
        } else {
            let a = self.stop(Notice::InvalidSetupChoice, vec![], "无效选项，退出".to_owned());
            assert(strs(seq![]) =~= seq![]);
            a
        }
    }

    fn on_probed(&mut self, there: bool) -> (a: Action)
        requires
            old(self)@.stage is Probing,
        ensures
            (final(self)@, a@) == start_next(old(self)@, EventView::Flag(there)),
            final(self)@.dialog == old(self)@.dialog,
    {
        if there {
            self.stage = StartStage::Entering;
            Action::EnterDir { place: self.place() }
        } else {
            self.stage = StartStage::MissingShown;
            let parts = vec![self.config.dir.as_str()];
            assert(strs(parts@) =~= seq![self.config.dir@]);
            show(Notice::RepoDirectoryMissing, parts)
        }
    }

    fn on_entered(&mut self, r: Result<(), String>) -> (a: Action)
        requires
            old(self)@.stage is Entering,
        ensures
            (final(self)@, a@) == start_next(old(self)@, EventView::Ran(unit_result(r))),
            final(self)@.dialog == old(self)@.dialog,
    {
        match r {
            Err(err) => {
                let dir = self.config.dir.clone();
                let parts = vec![dir.as_str(), err.as_str()];
                assert(strs(parts@) =~= seq![self.config.dir@, err@]);
                let e2 = err.clone();
                self.stop(Notice::CannotEnter, parts, e2)
            },
            Ok(()) => {
                self.stage = StartStage::InDir;
                let parts = vec![self.config.dir.as_str()];
                assert(strs(parts@) =~= seq![self.config.dir@]);
                show(Notice::WorkingDirectory, parts)
            },
        }
    }

    fn on_entered_new(&mut self, r: Result<(), String>) -> (a: Action)
        requires
            old(self)@.stage is EnteringNew,
            start_wf(old(self)@),
        ensures
            (final(self)@, a@) == start_next(old(self)@, EventView::Ran(unit_result(r))),
            start_wf(final(self)@),
    {
        match r {
            Err(err) => {
                let parts = vec![err.as_str()];
                assert(strs(parts@) =~= seq![err@]);
                let e2 = err.clone();
                self.stop(Notice::CannotEnterNew, parts, e2)
            },
            Ok(()) => self.start_identity(),
        }
    }

    fn in_dialogue_step(&mut self, event: Event) -> (a: Action)
        requires
            start_in_dialogue(old(self)@.stage),
            fits(start_awaits(old(self)@), event@),
            start_wf(old(self)@),
            start_event_ok(old(self)@, event@),
        ensures
            (final(self)@, a@) == start_next(old(self)@, event@),
            start_wf(final(self)@),
    {
        let a = step_dialogue(&mut self.dialog, event);
        match a {
            Action::Finish { result } => self.after(result),
            other => other,
        }
    }
}

/// One step of the start-up.
pub fn start_up(flow: &mut StartFlow, event: Event) -> (a: Action)
    requires
        fits(start_awaits(old(flow)@), event@),
        start_wf(old(flow)@),
        start_event_ok(old(flow)@, event@),
    ensures
        (final(flow)@, a@) == start_next(old(flow)@, event@),
        start_wf(final(flow)@),
{
    match flow.stage {
        StartStage::SettingUp | StartStage::Reconfiguring | StartStage::Identity
        | StartStage::Remote | StartStage::Branch => flow.in_dialogue_step(event),
        StartStage::Start => {
            flow.stage = StartStage::Located;
            let a = show(Notice::ProgramLocation, vec![]);
            assert(strs(seq![]) =~= seq![]);
            a
        },
        StartStage::Located => {
            flow.stage = StartStage::Loading;
            Action::ReadSettings
        },
        StartStage::Loading => match event {
            Event::Read(r) => flow.on_loaded(r),
            _ => vstd::pervasive::unreached(),
        },
        StartStage::SetupShown => {
            flow.stage = StartStage::SetupAsked;
            let a = ask(Question::SetupChoice, vec![], "1");
            assert(strs(seq![]) =~= seq![]);
            a
        },
        StartStage::SetupAsked => match event {
            Event::Answered(choice) => flow.on_setup_choice(choice),
            _ => vstd::pervasive::unreached(),
        },
        StartStage::Reloading => match event {
            Event::Read(r) => flow.on_reloaded(r),
            _ => vstd::pervasive::unreached(),
        },
        StartStage::Probing => match event {
            Event::Flag(there) => flow.on_probed(there),
            _ => vstd::pervasive::unreached(),
        },
        StartStage::Entering => match event {
            Event::Ran(r) => flow.on_entered(r),
            _ => vstd::pervasive::unreached(),
        },
        StartStage::InDir => flow.start_identity(),
        StartStage::MissingShown => {
            let d = Dialogue::Init(InitFlow::new(&flow.config));
            flow.launch(StartStage::Reconfiguring, d)
        },
        StartStage::EnteringNew => match event {
            Event::Ran(r) => flow.on_entered_new(r),
            _ => vstd::pervasive::unreached(),
        },
        StartStage::IdentityReported => flow.start_remote(),
        StartStage::RemoteReported => flow.start_branch(),
        StartStage::BranchReported => {
            flow.stage = StartStage::Done;
            finish_ok()
        },
        StartStage::Stopping => {
            flow.stage = StartStage::Done;
            Action::Finish { result: Err(flow.error.clone()) }
        },
        StartStage::Done => vstd::pervasive::unreached(),
    }
}

} // verus!
