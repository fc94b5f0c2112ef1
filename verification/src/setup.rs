//! Setting the tool up: entering the settings by hand (`init_config`) and
//! cloning a GitHub repository (`do_clone`).
use vstd::prelude::*;
use crate::config::{Config, ConfigView};
use crate::flow::{
    Action, ActionView, Awaits, Event, EventView, Notice, Place, PlaceView, Question, ask, ask_blank,
    confirm, finish_err, finish_ok, fits, git, git_read, show, strs, texts, words,
};
use crate::ops::{default_branch, get_default_branch, github_url, github_url_of};
use crate::text::{joined, contains_char, push_char, same_text, to_chars};

verus! {

pub open spec fn place_view(in_program_dir: bool, path: Seq<char>, child: Option<Seq<char>>) -> PlaceView {
    PlaceView { in_program_dir, path, child }
}

// ---------------------------------------------------------------- settings

#[derive(Debug, Clone, Copy, PartialEq, Eq, Structural)]
pub enum InitStage {
    Start,
    Listed,
    DirAsked,
    Probing,
    Describing,
    Missing,
    CreateAsked,
    Creating,
    Created,
    Entering,
    RepoProbe,
    InitAsked,
    Initialising,
    RepoNoted,
    NameAsked,
    EmailAsked,
    RemoteNameAsked,
    RepoAsked,
    BranchAsked,
    Saving,
    Saved,
    Done,
}

/// The settings dialogue (`init_config`): it edits `config` and saves it.
pub struct InitFlow {
    pub stage: InitStage,
    pub config: Config,
    pub dir: String,
}

pub struct InitModel {
    pub stage: InitStage,
    pub config: ConfigView,
    pub dir: Seq<char>,
}

impl View for InitFlow {
    type V = InitModel;

    open spec fn view(&self) -> InitModel {
        InitModel { stage: self.stage, config: self.config@, dir: self.dir@ }
    }
}

pub open spec fn init_start(c: ConfigView) -> InitModel {
    InitModel { stage: InitStage::Start, config: c, dir: Seq::empty() }
}

pub open spec fn init_awaits(m: InitModel) -> Awaits {
    match m.stage {
        InitStage::Start => Awaits::Begin,
        InitStage::Listed => Awaits::Shown,
        InitStage::DirAsked => Awaits::Answer,
        InitStage::Probing => Awaits::Flag,
        InitStage::Describing => Awaits::Answer,
        InitStage::Missing => Awaits::Shown,
        InitStage::CreateAsked => Awaits::Flag,
        InitStage::Creating => Awaits::Ran,
        InitStage::Created => Awaits::Shown,
        InitStage::Entering => Awaits::Ran,
        InitStage::RepoProbe => Awaits::Flag,
        InitStage::InitAsked => Awaits::Flag,
        InitStage::Initialising => Awaits::Ran,
        InitStage::RepoNoted => Awaits::Shown,
        InitStage::NameAsked => Awaits::Answer,
        InitStage::EmailAsked => Awaits::Answer,
        InitStage::RemoteNameAsked => Awaits::Answer,
        InitStage::RepoAsked => Awaits::Answer,
        InitStage::BranchAsked => Awaits::Answer,
        InitStage::Saving => Awaits::Ran,
        InitStage::Saved => Awaits::Shown,
        InitStage::Done => Awaits::Nothing,
    }
}

pub open spec fn init_to(m: InitModel, stage: InitStage, a: ActionView) -> (InitModel, ActionView) {
    (InitModel { stage, ..m }, a)
}

/// The chosen directory below the program's directory.
pub open spec fn init_target(m: InitModel) -> PlaceView {
    place_view(true, m.dir, None)
}

/// Entering the chosen directory, which becomes the configured one.
pub open spec fn init_enter(m: InitModel) -> (InitModel, ActionView) {
    (
        InitModel { stage: InitStage::Entering, config: ConfigView { dir: m.dir, ..m.config }, ..m },
        ActionView::EnterDir(init_target(m)),
    )
}

/// Lists the directories beside the program and asks for the repository
/// directory (default: the configured one; `exit` cancels with an error). A
/// missing directory is reported and created after a confirmation (default
/// no; declining is an error). The directory becomes the configured one and
/// the working directory; without `.git` in it `git init` is offered (default
/// yes). Then the user name, e-mail, remote name, GitHub repository and
/// default branch are asked, each with the configured value as default, and
/// the settings are saved.
#[verifier::opaque]
pub open spec fn init_next(m: InitModel, e: EventView) -> (InitModel, ActionView) {
    let c = m.config;
    match (m.stage, e) {
        (InitStage::Start, _) => init_to(m, InitStage::Listed, ActionView::Show(Notice::DirectoryListing, seq![])),
        (InitStage::Listed, EventView::Shown) => init_to(
            m,
            InitStage::DirAsked,
            ActionView::Ask(Question::RepoDirectory, seq![], c.dir),
        ),
        (InitStage::DirAsked, EventView::Answered(d)) => if d == "exit"@ {
            init_to(m, InitStage::Done, ActionView::Finish(Err("用户取消配置"@)))
        } else {
            (
                InitModel { stage: InitStage::Probing, dir: d, ..m },
                ActionView::Exists(place_view(true, d, None)),
            )
        },
        (InitStage::Probing, EventView::Flag(exists)) => if exists {
            init_enter(m)
        } else {
            init_to(m, InitStage::Describing, ActionView::Describe(init_target(m)))
        },
        (InitStage::Describing, EventView::Answered(text)) => init_to(
            m,
            InitStage::Missing,
            ActionView::Show(Notice::DirectoryMissing, seq![text]),
        ),
        (InitStage::Missing, EventView::Shown) => init_to(
            m,
            InitStage::CreateAsked,
            ActionView::Confirm(Question::CreateDirectory, seq![], false),
        ),
        (InitStage::CreateAsked, EventView::Flag(yes)) => if yes {
            init_to(m, InitStage::Creating, ActionView::CreateDir(init_target(m)))
        } else {
            init_to(m, InitStage::Done, ActionView::Finish(Err("目录不存在，配置终止"@)))
        },
        (InitStage::Creating, EventView::Ran(Err(err))) => init_to(
            m,
            InitStage::Done,
            ActionView::Finish(Err("创建目录失败: "@ + err)),
        ),
        (InitStage::Creating, EventView::Ran(Ok(()))) => init_to(
            m,
            InitStage::Created,
            ActionView::Show(Notice::DirectoryCreated, seq![]),
        ),
        (InitStage::Created, EventView::Shown) => init_enter(m),
        (InitStage::Entering, EventView::Ran(Err(err))) => init_to(
            m,
            InitStage::Done,
            ActionView::Finish(Err("切换到目录失败: "@ + err)),
        ),
        (InitStage::Entering, EventView::Ran(Ok(()))) => init_to(
            m,
            InitStage::RepoProbe,
            ActionView::Exists(place_view(true, m.dir, Some(".git"@))),
        ),
        (InitStage::RepoProbe, EventView::Flag(repo)) => if repo {
            init_to(m, InitStage::NameAsked, ActionView::Ask(Question::GitUserName, seq![], c.git_name))
        } else {
            init_to(m, InitStage::InitAsked, ActionView::Confirm(Question::InitRepo, seq![], true))
        },
        (InitStage::InitAsked, EventView::Flag(yes)) => if yes {
            init_to(m, InitStage::Initialising, ActionView::Git(seq!["init"@]))
        } else {
            init_to(m, InitStage::RepoNoted, ActionView::Show(Notice::RepoMissing, seq![]))
        },
        (InitStage::Initialising, EventView::Ran(Err(err))) => init_to(
            m,
            InitStage::Done,
            ActionView::Finish(Err(err)),
        ),
        (InitStage::Initialising, EventView::Ran(Ok(()))) => init_to(
            m,
            InitStage::RepoNoted,
            ActionView::Show(Notice::RepoInitialised, seq![]),
        ),
        (InitStage::RepoNoted, EventView::Shown) => init_to(
            m,
            InitStage::NameAsked,
            ActionView::Ask(Question::GitUserName, seq![], c.git_name),
        ),
        (InitStage::NameAsked, EventView::Answered(v)) => (
            InitModel { stage: InitStage::EmailAsked, config: ConfigView { git_name: v, ..c }, ..m },
            ActionView::Ask(Question::GitUserEmail, seq![], c.git_email),
        ),
        (InitStage::EmailAsked, EventView::Answered(v)) => (
            InitModel { stage: InitStage::RemoteNameAsked, config: ConfigView { git_email: v, ..c }, ..m },
            ActionView::Ask(Question::RemoteName, seq![], c.git_remote_name),
        ),
        (InitStage::RemoteNameAsked, EventView::Answered(v)) => (
            InitModel { stage: InitStage::RepoAsked, config: ConfigView { git_remote_name: v, ..c }, ..m },
            ActionView::Ask(Question::RemoteRepo, seq![], c.git_remote_repo),
        ),
        (InitStage::RepoAsked, EventView::Answered(v)) => (
            InitModel { stage: InitStage::BranchAsked, config: ConfigView { git_remote_repo: v, ..c }, ..m },
            ActionView::Ask(Question::DefaultBranch, seq![], c.git_branch),
        ),
        (InitStage::BranchAsked, EventView::Answered(v)) => {
            let saved = ConfigView { git_branch: v, ..c };
            (InitModel { stage: InitStage::Saving, config: saved, ..m }, ActionView::Save(saved))
        },
        (InitStage::Saving, EventView::Ran(Err(err))) => init_to(m, InitStage::Done, ActionView::Finish(Err(err))),
        (InitStage::Saving, EventView::Ran(Ok(()))) => init_to(
            m,
            InitStage::Saved,
            ActionView::Show(Notice::ConfigSaved, seq![]),
        ),
        (InitStage::Saved, EventView::Shown) => init_to(m, InitStage::Done, ActionView::Finish(Ok(()))),
        _ => (m, ActionView::Finish(Ok(()))),
    }
}

/// A copy of the settings.
pub fn copy_config(c: &Config) -> (r: Config)
    ensures
        r@ == c@,
{
    Config {
        dir: c.dir.clone(),
        git_name: c.git_name.clone(),
        git_email: c.git_email.clone(),
        git_remote_name: c.git_remote_name.clone(),
        git_remote_repo: c.git_remote_repo.clone(),
        git_branch: c.git_branch.clone(),
    }
}

fn place(in_program_dir: bool, path: &str, child: Option<&str>) -> (p: Place)
    ensures
        p@ == place_view(
            in_program_dir,
            path@,
            match child {
                Some(c) => Some(c@),
                None => None,
            },
        ),
{
    Place {
        in_program_dir,
        path: path.to_owned(),
        child: match child {
            Some(c) => Some(c.to_owned()),
            None => None,
        },
    }
}

/// Law: the settings dialogue's questions are answered as asked: "create
/// the missing directory?" (default no) creates it on a yes and ends with an
/// error on a no; "initialise a Git repository here?" (default yes) runs
/// `git init` on a yes and only warns on a no.
pub proof fn lemma_init_questions_as_answered(m: InitModel, e: EventView)
    requires
        fits(init_awaits(m), e),
    ensures
        init_next(m, e).0.stage is CreateAsked ==> init_next(m, e).1 == ActionView::Confirm(
            Question::CreateDirectory,
            seq![],
            false,
        ),
        init_next(m, e).0.stage is InitAsked ==> init_next(m, e).1 == ActionView::Confirm(
            Question::InitRepo,
            seq![],
            true,
        ),
        m.stage is CreateAsked && e == EventView::Flag(true) ==> init_next(m, e).1
            == ActionView::CreateDir(init_target(m)),
        m.stage is CreateAsked && e == EventView::Flag(false) ==> init_next(m, e).1
            == ActionView::Finish(Err("目录不存在，配置终止"@)),
        m.stage is InitAsked && e == EventView::Flag(true) ==> init_next(m, e).1 == ActionView::Git(
            seq!["init"@],
        ),
        m.stage is InitAsked && e == EventView::Flag(false) ==> init_next(m, e).1 == ActionView::Show(
            Notice::RepoMissing,
            seq![],
        ),
        init_next(m, e).1 == ActionView::Git(seq!["init"@]) ==> m.stage is InitAsked && e
            == EventView::Flag(true),
        init_next(m, e).1 is CreateDir ==> m.stage is CreateAsked && e == EventView::Flag(true),
{
    reveal(init_next);
}

impl InitFlow {
    pub fn new(config: &Config) -> (f: InitFlow)
        ensures
            f@ == init_start(config@),
    {
        InitFlow { stage: InitStage::Start, config: copy_config(config), dir: String::new() }
    }

    fn to(&mut self, stage: InitStage, a: Action) -> (r: Action)
        ensures
            (final(self)@, r@) == init_to(old(self)@, stage, a@),
    {
        self.stage = stage;
        a
    }

    fn enter(&mut self) -> (a: Action)
        ensures
            (final(self)@, a@) == init_enter(old(self)@),
    {
        self.config.dir = self.dir.clone();
        self.stage = InitStage::Entering;
        Action::EnterDir { place: place(true, self.dir.as_str(), None) }
    }

    fn ask_field(&mut self, stage: InitStage, question: Question, default: &String) -> (a: Action)
        ensures
            (final(self)@, a@) == init_to(old(self)@, stage, ActionView::Ask(question, seq![], default@)),
    {
        let a = ask(question, vec![], default.as_str());
        assert(strs(seq![]) =~= seq![]);
        self.to(stage, a)
    }
}

/// One step of the settings dialogue (`init_config`).
pub fn init_config(flow: &mut InitFlow, event: Event) -> (a: Action)
    requires
        fits(init_awaits(old(flow)@), event@),
    ensures
        (final(flow)@, a@) == init_next(old(flow)@, event@),
{
    proof {
        reveal(init_next);
    }
    match flow.stage {
        InitStage::Start => {
            let a = show(Notice::DirectoryListing, vec![]);
            assert(strs(seq![]) =~= seq![]);
            flow.to(InitStage::Listed, a)
        },
        InitStage::Listed => {
            let d = flow.config.dir.clone();
            flow.ask_field(InitStage::DirAsked, Question::RepoDirectory, &d)
        },
        InitStage::DirAsked => match event {
            Event::Answered(d) => {
                if same_text(d.as_str(), "exit") {
                    flow.to(InitStage::Done, finish_err("用户取消配置"))
                } else {
                    let a = Action::Exists { place: place(true, d.as_str(), None) };
                    flow.dir = d;
                    flow.to(InitStage::Probing, a)
                }
            },
            _ => vstd::pervasive::unreached(),
        },
        InitStage::Probing => match event {
            Event::Flag(exists) => {
                if exists {
                    flow.enter()
                } else {
                    let a = Action::Describe { place: place(true, flow.dir.as_str(), None) };
                    flow.to(InitStage::Describing, a)
                }
            },
            _ => vstd::pervasive::unreached(),
        },
        InitStage::Describing => match event {
            Event::Answered(text) => {
                let parts = vec![text.as_str()];
                assert(strs(parts@) =~= seq![text@]);
                let a = show(Notice::DirectoryMissing, parts);
                flow.to(InitStage::Missing, a)
            },
            _ => vstd::pervasive::unreached(),
        },
        InitStage::Missing => {
            let a = confirm(Question::CreateDirectory, vec![], false);
            assert(strs(seq![]) =~= seq![]);
            flow.to(InitStage::CreateAsked, a)
        },
        InitStage::CreateAsked => match event {
            Event::Flag(yes) => {
                if yes {
                    let a = Action::CreateDir { place: place(true, flow.dir.as_str(), None) };
                    flow.to(InitStage::Creating, a)
                } else {
                    flow.to(InitStage::Done, finish_err("目录不存在，配置终止"))
                }
            },
            _ => vstd::pervasive::unreached(),
        },
        InitStage::Creating => match event {
            Event::Ran(Err(err)) => {
                let r = Action::Finish { result: Err(joined("创建目录失败: ", err.as_str())) };
                flow.to(InitStage::Done, r)
            },
            Event::Ran(Ok(())) => {
                let a = show(Notice::DirectoryCreated, vec![]);
                assert(strs(seq![]) =~= seq![]);
                flow.to(InitStage::Created, a)
            },
            _ => vstd::pervasive::unreached(),
        },
        InitStage::Created => flow.enter(),
        InitStage::Entering => match event {
            Event::Ran(Err(err)) => {
                let r = Action::Finish { result: Err(joined("切换到目录失败: ", err.as_str())) };
                flow.to(InitStage::Done, r)
            },
            Event::Ran(Ok(())) => {
                let a = Action::Exists { place: place(true, flow.dir.as_str(), Some(".git")) };
                flow.to(InitStage::RepoProbe, a)
            },
            _ => vstd::pervasive::unreached(),
        },
        InitStage::RepoProbe => match event {
            Event::Flag(repo) => {
                if repo {
                    let d = flow.config.git_name.clone();
                    flow.ask_field(InitStage::NameAsked, Question::GitUserName, &d)
                } else {
                    let a = confirm(Question::InitRepo, vec![], true);
                    assert(strs(seq![]) =~= seq![]);
                    flow.to(InitStage::InitAsked, a)
                }
            },
            _ => vstd::pervasive::unreached(),
        },
        InitStage::InitAsked => match event {
            Event::Flag(yes) => {
                if yes {
                    let parts = vec!["init"];
                    assert(strs(parts@) =~= seq!["init"@]);
                    flow.to(InitStage::Initialising, git(parts))
                } else {
                    let a = show(Notice::RepoMissing, vec![]);
                    assert(strs(seq![]) =~= seq![]);
                    flow.to(InitStage::RepoNoted, a)
                }
            },
            _ => vstd::pervasive::unreached(),
        },
        InitStage::Initialising => match event {
            Event::Ran(Err(err)) => flow.to(InitStage::Done, Action::Finish { result: Err(err) }),
            Event::Ran(Ok(())) => {
                let a = show(Notice::RepoInitialised, vec![]);
                assert(strs(seq![]) =~= seq![]);
                flow.to(InitStage::RepoNoted, a)
            },
            _ => vstd::pervasive::unreached(),
        },
        InitStage::RepoNoted => {
            let d = flow.config.git_name.clone();
            flow.ask_field(InitStage::NameAsked, Question::GitUserName, &d)
        },
        InitStage::NameAsked => match event {
            Event::Answered(v) => {
                let d = flow.config.git_email.clone();
                flow.config.git_name = v;
                flow.ask_field(InitStage::EmailAsked, Question::GitUserEmail, &d)
            },
            _ => vstd::pervasive::unreached(),
        },
        InitStage::EmailAsked => match event {
            Event::Answered(v) => {
                let d = flow.config.git_remote_name.clone();
                flow.config.git_email = v;
                flow.ask_field(InitStage::RemoteNameAsked, Question::RemoteName, &d)
            },
            _ => vstd::pervasive::unreached(),
        },
        InitStage::RemoteNameAsked => match event {
            Event::Answered(v) => {
                let d = flow.config.git_remote_repo.clone();
                flow.config.git_remote_name = v;
                flow.ask_field(InitStage::RepoAsked, Question::RemoteRepo, &d)
            },
            _ => vstd::pervasive::unreached(),
        },
        InitStage::RepoAsked => match event {
            Event::Answered(v) => {
                let d = flow.config.git_branch.clone();
                flow.config.git_remote_repo = v;
                flow.ask_field(InitStage::BranchAsked, Question::DefaultBranch, &d)
            },
            _ => vstd::pervasive::unreached(),
        },
        InitStage::BranchAsked => match event {
            Event::Answered(v) => {
                flow.config.git_branch = v;
                let a = Action::Save { config: copy_config(&flow.config) };
                flow.to(InitStage::Saving, a)
            },
            _ => vstd::pervasive::unreached(),
        },
        InitStage::Saving => match event {
            Event::Ran(Err(err)) => flow.to(InitStage::Done, Action::Finish { result: Err(err) }),
            Event::Ran(Ok(())) => {
                let a = show(Notice::ConfigSaved, vec![]);
                assert(strs(seq![]) =~= seq![]);
                flow.to(InitStage::Saved, a)
            },
            _ => vstd::pervasive::unreached(),
        },
        InitStage::Saved => flow.to(InitStage::Done, finish_ok()),
        InitStage::Done => vstd::pervasive::unreached(),
    }
}

// ---------------------------------------------------------------- clone

/// The last `/`-separated piece of `s` (`s.split('/').last()`).
pub open spec fn last_segment(s: Seq<char>) -> Seq<char>
    decreases s.len(),
{
    if s.len() == 0 || s.last() == '/' {
        Seq::empty()
    } else {
        last_segment(s.drop_last()).push(s.last())
    }
}

/// The last `/`-separated piece of `s`.
pub fn last_segment_of(s: &str) -> (r: String)
    ensures
        r@ == last_segment(s@),
{
    let v = to_chars(s);
    let mut start = v.len();
    assert(v@.take(start as int) =~= v@);
    assert(v@.subrange(start as int, v@.len() as int) =~= Seq::<char>::empty());
    while start > 0 && v[start - 1] != '/'
        invariant
            start <= v@.len(),
            v@ == s@,
            last_segment(v@) == last_segment(v@.take(start as int)) + v@.subrange(start as int, v@.len() as int),
        decreases start,
    {
        let ghost t = v@.take(start as int);
        assert(t.drop_last() =~= v@.take(start - 1));
        assert(v@.subrange(start - 1, v@.len() as int) =~= seq![t.last()] + v@.subrange(start as int, v@.len() as int));
        start -= 1;
    }
    assert(last_segment(v@.take(start as int)) =~= Seq::<char>::empty());
    crate::text::string_of(&v, start, v.len())
}

/// The arguments of the clone: `clone`, `-b <branch>` for a named branch,
/// `--depth 1` for a shallow clone (mode 2), and the URL.
pub open spec fn clone_args(branch: Seq<char>, mode: Seq<char>, url: Seq<char>) -> Seq<Seq<char>> {
    seq!["clone"@] + (if branch.len() > 0 {
        seq!["-b"@, branch]
    } else {
        seq![]
    }) + (if mode == "2"@ {
        seq!["--depth"@, "1"@]
    } else {
        seq![]
    }) + seq![url]
}

#[derive(Debug, Clone, Copy, PartialEq, Eq, Structural)]
pub enum CloneStage {
    Start,
    Titled,
    HereAsked,
    BaseAsked,
    BaseProbe,
    BaseCreateAsked,
    BaseCreating,
    RepoAsked,
    BranchAsked,
    ModesShown,
    ModeAsked,
    Describing,
    Summarised,
    ConfirmAsked,
    Cancelled,
    EnteringBase,
    Announced,
    Cloning,
    Cloned,
    TargetProbe,
    EnterAsked,
    Kept,
    Relating,
    EnteringClone,
    ReadingBranch,
    Saving,
    Updated,
    EnteringAgain,
    Entered,
    Done,
}

/// The clone dialogue (`do_clone`): it edits `config` and saves it.
pub struct CloneFlow {
    pub stage: CloneStage,
    pub config: Config,
    pub base_in_program_dir: bool,
    pub base: String,
    pub repo: String,
    pub branch: String,
    pub mode: String,
    pub name: String,
    pub url: String,
    pub target_text: String,
}

pub struct CloneModel {
    pub stage: CloneStage,
    pub config: ConfigView,
    pub base_in_program_dir: bool,
    pub base: Seq<char>,
    pub repo: Seq<char>,
    pub branch: Seq<char>,
    pub mode: Seq<char>,
    pub name: Seq<char>,
    pub url: Seq<char>,
    pub target_text: Seq<char>,
}

impl View for CloneFlow {
    type V = CloneModel;

    open spec fn view(&self) -> CloneModel {
        CloneModel {
            stage: self.stage,
            config: self.config@,
            base_in_program_dir: self.base_in_program_dir,
            base: self.base@,
            repo: self.repo@,
            branch: self.branch@,
            mode: self.mode@,
            name: self.name@,
            url: self.url@,
            target_text: self.target_text@,
        }
    }
}

pub open spec fn clone_start(c: ConfigView) -> CloneModel {
    CloneModel {
        stage: CloneStage::Start,
        config: c,
        base_in_program_dir: true,
        base: Seq::empty(),
        repo: Seq::empty(),
        branch: Seq::empty(),
        mode: Seq::empty(),
        name: Seq::empty(),
        url: Seq::empty(),
        target_text: Seq::empty(),
    }
}

pub open spec fn clone_awaits(m: CloneModel) -> Awaits {
    match m.stage {
        CloneStage::Start => Awaits::Begin,
        CloneStage::Titled => Awaits::Shown,
        CloneStage::HereAsked => Awaits::Flag,
        CloneStage::BaseAsked => Awaits::Answer,
        CloneStage::BaseProbe => Awaits::Flag,
        CloneStage::BaseCreateAsked => Awaits::Flag,
        CloneStage::BaseCreating => Awaits::Ran,
        CloneStage::RepoAsked => Awaits::Answer,
        CloneStage::BranchAsked => Awaits::Answer,
        CloneStage::ModesShown => Awaits::Shown,
        CloneStage::ModeAsked => Awaits::Answer,
        CloneStage::Describing => Awaits::Answer,
        CloneStage::Summarised => Awaits::Shown,
        CloneStage::ConfirmAsked => Awaits::Flag,
        CloneStage::Cancelled => Awaits::Shown,
        CloneStage::EnteringBase => Awaits::Ran,
        CloneStage::Announced => Awaits::Shown,
        CloneStage::Cloning => Awaits::Status,
        CloneStage::Cloned => Awaits::Shown,
        CloneStage::TargetProbe => Awaits::Flag,
        CloneStage::EnterAsked => Awaits::Flag,
        CloneStage::Kept => Awaits::Shown,
        CloneStage::Relating => Awaits::Answer,
        CloneStage::EnteringClone => Awaits::Ran,
        CloneStage::ReadingBranch => Awaits::Read,
        CloneStage::Saving => Awaits::Ran,
        CloneStage::Updated => Awaits::Shown,
        CloneStage::EnteringAgain => Awaits::Ran,
        CloneStage::Entered => Awaits::Shown,
        CloneStage::Done => Awaits::Nothing,
    }
}

pub open spec fn clone_to(m: CloneModel, stage: CloneStage, a: ActionView) -> (CloneModel, ActionView) {
    (CloneModel { stage, ..m }, a)
}

/// The directory to clone in.
pub open spec fn clone_base(m: CloneModel) -> PlaceView {
    place_view(m.base_in_program_dir, m.base, None)
}

/// The directory the clone creates.
pub open spec fn clone_target(m: CloneModel) -> PlaceView {
    place_view(m.base_in_program_dir, m.base, Some(m.name))
}

pub open spec fn clone_ask_repo(m: CloneModel) -> (CloneModel, ActionView) {
    clone_to(m, CloneStage::RepoAsked, ActionView::Ask(Question::CloneRepo, seq![], Seq::empty()))
}

/// Clones `git@github.com:<repo>.git`, in the program's directory (default)
/// or in a typed directory (blank is an error; a missing one is created
/// after a confirmation, default yes, declining is an error). The repository
/// must be given (an error otherwise) and hold a `/`. A branch (blank: the
/// default branch) and the mode (1 full, 2 depth 1; default 1) are asked, a
/// summary shown and the clone confirmed (default yes; no ends quietly). The
/// clone runs in that directory; a failure to start it, a failed clone and a
/// missing clone directory are errors. Then, after a confirmation (default
/// yes), the settings take the clone's directory relative to the program's
/// (its name where it lies elsewhere), the repository, and the branch given
/// or else the clone's current branch; they are saved and the clone becomes
/// the working directory.
#[verifier::opaque]
pub open spec fn clone_next(m: CloneModel, e: EventView) -> (CloneModel, ActionView) {
    let c = m.config;
    match (m.stage, e) {
        (CloneStage::Start, _) => clone_to(m, CloneStage::Titled, ActionView::Show(Notice::CloneTitle, seq![])),
        (CloneStage::Titled, EventView::Shown) => clone_to(
            m,
            CloneStage::HereAsked,
            ActionView::Confirm(Question::CloneHere, seq![], true),
        ),
        (CloneStage::HereAsked, EventView::Flag(here)) => if here {
            clone_ask_repo(CloneModel { base_in_program_dir: true, base: Seq::empty(), ..m })
        } else {
            clone_to(m, CloneStage::BaseAsked, ActionView::Ask(Question::CloneBaseDir, seq![], Seq::empty()))
        },
        (CloneStage::BaseAsked, EventView::Answered(p)) => if p.len() == 0 {
            clone_to(m, CloneStage::Done, ActionView::Finish(Err("克隆目录不能为空"@)))
        } else {
            (
                CloneModel { stage: CloneStage::BaseProbe, base_in_program_dir: false, base: p, ..m },
                ActionView::Exists(place_view(false, p, None)),
            )
        },
        (CloneStage::BaseProbe, EventView::Flag(exists)) => if exists {
            clone_ask_repo(m)
        } else {
            clone_to(m, CloneStage::BaseCreateAsked, ActionView::Confirm(Question::CreateCloneBase, seq![], true))
        },
        (CloneStage::BaseCreateAsked, EventView::Flag(yes)) => if yes {
            clone_to(m, CloneStage::BaseCreating, ActionView::CreateDir(clone_base(m)))
        } else {
            clone_to(m, CloneStage::Done, ActionView::Finish(Err("目录不存在且用户选择不创建"@)))
        },
        (CloneStage::BaseCreating, EventView::Ran(Err(err))) => clone_to(
            m,
            CloneStage::Done,
            ActionView::Finish(Err("创建目录失败: "@ + err)),
        ),
        (CloneStage::BaseCreating, EventView::Ran(Ok(()))) => clone_ask_repo(m),
        (CloneStage::RepoAsked, EventView::Answered(r)) => if r.len() == 0 {
            clone_to(m, CloneStage::Done, ActionView::Finish(Err("远程仓库不能为空"@)))
        } else if !r.contains('/') {
            clone_to(
                m,
                CloneStage::Done,
                ActionView::Finish(Err("远程仓库格式错误，应为 username/repository-name"@)),
            )
        } else {
            (
                CloneModel { stage: CloneStage::BranchAsked, repo: r, ..m },
                ActionView::Ask(Question::CloneBranch, seq![], Seq::empty()),
            )
        },
        (CloneStage::BranchAsked, EventView::Answered(b)) => (
            CloneModel { stage: CloneStage::ModesShown, branch: b, ..m },
            ActionView::Show(Notice::CloneModes, seq![]),
        ),
        (CloneStage::ModesShown, EventView::Shown) => clone_to(
            m,
            CloneStage::ModeAsked,
            ActionView::Ask(Question::CloneMode, seq![], "1"@),
        ),
        (CloneStage::ModeAsked, EventView::Answered(t)) => {
            let next = CloneModel {
                stage: CloneStage::Describing,
                mode: t,
                name: last_segment(m.repo),
                url: github_url(m.repo),
                ..m
            };
            (next, ActionView::Describe(clone_target(next)))
        },
        (CloneStage::Describing, EventView::Answered(text)) => (
            CloneModel { stage: CloneStage::Summarised, target_text: text, ..m },
            ActionView::Show(
                if m.mode == "1"@ {
                    Notice::CloneSummaryFull
                } else {
                    Notice::CloneSummaryShallow
                },
                seq![m.url, m.branch, text],
            ),
        ),
        (CloneStage::Summarised, EventView::Shown) => clone_to(
            m,
            CloneStage::ConfirmAsked,
            ActionView::Confirm(Question::ConfirmClone, seq![], true),
        ),
        (CloneStage::ConfirmAsked, EventView::Flag(yes)) => if yes {
            clone_to(m, CloneStage::EnteringBase, ActionView::EnterDir(clone_base(m)))
        } else {
            clone_to(m, CloneStage::Cancelled, ActionView::Show(Notice::CloneCancelled, seq![]))
        },
        (CloneStage::Cancelled, EventView::Shown) => clone_to(m, CloneStage::Done, ActionView::Finish(Ok(()))),
        (CloneStage::EnteringBase, EventView::Ran(Err(err))) => clone_to(
            m,
            CloneStage::Done,
            ActionView::Finish(Err("切换到克隆基目录失败: "@ + err)),
        ),
        (CloneStage::EnteringBase, EventView::Ran(Ok(()))) => clone_to(
            m,
            CloneStage::Announced,
            ActionView::Show(Notice::Running, clone_args(m.branch, m.mode, m.url)),
        ),
        (CloneStage::Announced, EventView::Shown) => clone_to(
            m,
            CloneStage::Cloning,
            ActionView::GitStatus(clone_args(m.branch, m.mode, m.url)),
        ),
        (CloneStage::Cloning, EventView::Status(Err(err))) => clone_to(
            m,
            CloneStage::Done,
            ActionView::Finish(Err("执行 git clone 失败: "@ + err)),
        ),
        (CloneStage::Cloning, EventView::Status(Ok(ok))) => if ok {
            clone_to(m, CloneStage::Cloned, ActionView::Show(Notice::Cloned, seq![]))
        } else {
            clone_to(m, CloneStage::Done, ActionView::Finish(Err("git clone 执行失败"@)))
        },
        (CloneStage::Cloned, EventView::Shown) => clone_to(m, CloneStage::TargetProbe, ActionView::Exists(clone_target(m))),
        (CloneStage::TargetProbe, EventView::Flag(exists)) => if exists {
            clone_to(m, CloneStage::EnterAsked, ActionView::Confirm(Question::EnterClone, seq![], true))
        } else {
            clone_to(
                m,
                CloneStage::Done,
                ActionView::Finish(Err("克隆成功但未找到预期的目录: "@ + m.target_text)),
            )
        },
        (CloneStage::EnterAsked, EventView::Flag(yes)) => if yes {
            clone_to(m, CloneStage::Relating, ActionView::RelativePath(clone_target(m), m.name))
        } else {
            clone_to(m, CloneStage::Kept, ActionView::Show(Notice::CloneKept, seq![]))
        },
        (CloneStage::Kept, EventView::Shown) => clone_to(m, CloneStage::Done, ActionView::Finish(Ok(()))),
        (CloneStage::Relating, EventView::Answered(rel)) => {
            let c2 = ConfigView { dir: rel, git_remote_repo: m.repo, ..c };
            if m.branch.len() > 0 {
                let c3 = ConfigView { git_branch: m.branch, ..c2 };
                (CloneModel { stage: CloneStage::Saving, config: c3, ..m }, ActionView::Save(c3))
            } else {
                (
                    CloneModel { stage: CloneStage::EnteringClone, config: c2, ..m },
                    ActionView::EnterDir(clone_target(m)),
                )
            }
        },
        (CloneStage::EnteringClone, EventView::Ran(Err(err))) => clone_to(
            m,
            CloneStage::Done,
            ActionView::Finish(Err("切换到克隆目录失败: "@ + err)),
        ),
        (CloneStage::EnteringClone, EventView::Ran(Ok(()))) => clone_to(
            m,
            CloneStage::ReadingBranch,
            ActionView::GitRead(seq!["symbolic-ref"@, "--short"@, "HEAD"@]),
        ),
        (CloneStage::ReadingBranch, EventView::Read(r)) => {
            let c3 = ConfigView { git_branch: default_branch(r), ..c };
            (CloneModel { stage: CloneStage::Saving, config: c3, ..m }, ActionView::Save(c3))
        },
        (CloneStage::Saving, EventView::Ran(Err(err))) => clone_to(m, CloneStage::Done, ActionView::Finish(Err(err))),
        (CloneStage::Saving, EventView::Ran(Ok(()))) => clone_to(
            m,
            CloneStage::Updated,
            ActionView::Show(Notice::ConfigUpdated, seq![c.dir, c.git_remote_repo, c.git_branch]),
        ),
        (CloneStage::Updated, EventView::Shown) => clone_to(m, CloneStage::EnteringAgain, ActionView::EnterDir(clone_target(m))),
        (CloneStage::EnteringAgain, EventView::Ran(Err(err))) => clone_to(
            m,
            CloneStage::Done,
            ActionView::Finish(Err("切换到克隆目录失败: "@ + err)),
        ),
        (CloneStage::EnteringAgain, EventView::Ran(Ok(()))) => clone_to(
            m,
            CloneStage::Entered,
            ActionView::Show(Notice::EnteredClone, seq![m.target_text]),
        ),
        (CloneStage::Entered, EventView::Shown) => clone_to(m, CloneStage::Done, ActionView::Finish(Ok(()))),
        _ => (m, ActionView::Finish(Ok(()))),
    }
}

/// Law: the clone runs `git clone`, then `-b <branch>` whenever a branch
/// was typed (whatever the mode), then `--depth 1` exactly for mode 2, then
/// the URL; nothing else.
pub proof fn lemma_clone_args(branch: Seq<char>, mode: Seq<char>, url: Seq<char>)
    ensures
        ({
            let a = clone_args(branch, mode, url);
            let b: int = if branch.len() > 0 { 2 } else { 0 };
            let d: int = if mode == "2"@ { 2 } else { 0 };
            &&& a.len() == 2 + b + d
            &&& a[0] == "clone"@
            &&& branch.len() > 0 ==> a[1] == "-b"@ && a[2] == branch
            &&& mode == "2"@ ==> a[1 + b] == "--depth"@ && a[2 + b] == "1"@
            &&& a[a.len() - 1] == url
        }),
{
}

/// Law: once confirmed, the clone that runs is `git clone` with the typed
/// branch (`-b <branch>` whenever one was typed, in either mode) and
/// `--depth 1` exactly for mode 2, of the repository's GitHub address.
pub proof fn lemma_clone_runs_with_branch(m: CloneModel)
    requires
        m.stage is Announced,
    ensures
        ({
            let (n, a) = clone_next(m, EventView::Shown);
            &&& n.stage is Cloning
            &&& a is GitStatus
            &&& a->GitStatus_0 == clone_args(m.branch, m.mode, m.url)
            &&& m.branch.len() > 0 ==> a->GitStatus_0[1] == "-b"@ && a->GitStatus_0[2] == m.branch
            &&& (a->GitStatus_0.contains("--depth"@) <== m.mode == "2"@)
        }),
{
    reveal(clone_next);
    lemma_clone_args(m.branch, m.mode, m.url);
    if m.mode == "2"@ {
        let a = clone_args(m.branch, m.mode, m.url);
        let b: int = if m.branch.len() > 0 { 2 } else { 0 };
        assert(a[1 + b] == "--depth"@);
    }
}

/// Law: the clone's three questions are answered as asked: "create the
/// missing directory?" (default yes) creates it on a yes and fails on a no;
/// "start cloning?" (default yes) moves to the directory to clone in on a
/// yes and reports the cancellation on a no; "switch to the clone and
/// update the settings?" (default yes) works out the clone's place on a yes
/// and keeps the directory and settings unchanged on a no.
pub proof fn lemma_clone_questions_as_answered(m: CloneModel, e: EventView)
    requires
        fits(clone_awaits(m), e),
    ensures
        clone_next(m, e).0.stage is BaseCreateAsked ==> clone_next(m, e).1 == ActionView::Confirm(
            Question::CreateCloneBase,
            seq![],
            true,
        ),
        clone_next(m, e).0.stage is ConfirmAsked ==> clone_next(m, e).1 == ActionView::Confirm(
            Question::ConfirmClone,
            seq![],
            true,
        ),
        clone_next(m, e).0.stage is EnterAsked ==> clone_next(m, e).1 == ActionView::Confirm(
            Question::EnterClone,
            seq![],
            true,
        ),
        m.stage is BaseCreateAsked && e == EventView::Flag(true) ==> clone_next(m, e).1
            == ActionView::CreateDir(clone_base(m)),
        m.stage is BaseCreateAsked && e == EventView::Flag(false) ==> clone_next(m, e).1
            == ActionView::Finish(Err("目录不存在且用户选择不创建"@)),
        m.stage is ConfirmAsked && e == EventView::Flag(true) ==> clone_next(m, e).1
            == ActionView::EnterDir(clone_base(m)),
        m.stage is ConfirmAsked && e == EventView::Flag(false) ==> clone_next(m, e).1
            == ActionView::Show(Notice::CloneCancelled, seq![]),
        m.stage is EnterAsked && e == EventView::Flag(true) ==> clone_next(m, e).1
            == ActionView::RelativePath(clone_target(m), m.name),
        m.stage is EnterAsked && e == EventView::Flag(false) ==> clone_next(m, e).1
            == ActionView::Show(Notice::CloneKept, seq![]) && clone_next(m, e).0.config == m.config,
        clone_next(m, e).1 is GitStatus ==> m.stage is Announced,
{
    reveal(clone_next);
}

impl CloneFlow {
    pub fn new(config: &Config) -> (f: CloneFlow)
        ensures
            f@ == clone_start(config@),
    {
        CloneFlow {
            stage: CloneStage::Start,
            config: copy_config(config),
            base_in_program_dir: true,
            base: String::new(),
            repo: String::new(),
            branch: String::new(),
            mode: String::new(),
            name: String::new(),
            url: String::new(),
            target_text: String::new(),
        }
    }

    fn to(&mut self, stage: CloneStage, a: Action) -> (r: Action)
        ensures
            (final(self)@, r@) == clone_to(old(self)@, stage, a@),
    {
        self.stage = stage;
        a
    }

    fn base_place(&self) -> (p: Place)
        ensures
            p@ == clone_base(self@),
    {
        place(self.base_in_program_dir, self.base.as_str(), None)
    }

    fn target_place(&self) -> (p: Place)
        ensures
            p@ == clone_target(self@),
    {
        place(self.base_in_program_dir, self.base.as_str(), Some(self.name.as_str()))
    }

    fn ask_repo(&mut self) -> (a: Action)
        ensures
            (final(self)@, a@) == clone_ask_repo(old(self)@),
    {
        let a = ask_blank(Question::CloneRepo, vec![]);
        assert(strs(seq![]) =~= seq![]);
        self.to(CloneStage::RepoAsked, a)
    }

    fn args(&self) -> (r: Vec<String>)
        ensures
            texts(r@) == clone_args(self.branch@, self.mode@, self.url@),
    {
        let mut r: Vec<String> = Vec::new();
        r.push("clone".to_owned());
        if !self.branch.as_str().is_empty() {
            r.push("-b".to_owned());
            r.push(self.branch.clone());
        }
        if same_text(self.mode.as_str(), "2") {
            r.push("--depth".to_owned());
            r.push("1".to_owned());
        }
        r.push(self.url.clone());
        assert(texts(r@) =~= clone_args(self.branch@, self.mode@, self.url@));
        r
    }

    fn fail_with(&mut self, prefix: &str, err: String) -> (a: Action)
        ensures
            (final(self)@, a@) == clone_to(old(self)@, CloneStage::Done, ActionView::Finish(Err(prefix@ + err@))),
    {
        let r = Action::Finish { result: Err(joined(prefix, err.as_str())) };
        self.to(CloneStage::Done, r)
    }

    /// Steps up to the summary.
    fn prepare(&mut self, event: Event) -> (a: Action)
        requires
            fits(clone_awaits(old(self)@), event@),
            old(self)@.stage is Start || old(self)@.stage is Titled || old(self)@.stage is HereAsked
                || old(self)@.stage is BaseAsked
                || old(self)@.stage is BaseProbe || old(self)@.stage is BaseCreateAsked
                || old(self)@.stage is BaseCreating || old(self)@.stage is RepoAsked
                || old(self)@.stage is BranchAsked || old(self)@.stage is ModesShown
                || old(self)@.stage is ModeAsked || old(self)@.stage is Describing,
        ensures
            (final(self)@, a@) == clone_next(old(self)@, event@),
    {
        proof {
            reveal(clone_next);
        }
        match self.stage {
            CloneStage::Start => {
                let a = show(Notice::CloneTitle, vec![]);
                assert(strs(seq![]) =~= seq![]);
                self.to(CloneStage::Titled, a)
            },
            CloneStage::Titled => {
                let a = confirm(Question::CloneHere, vec![], true);
                assert(strs(seq![]) =~= seq![]);
                self.to(CloneStage::HereAsked, a)
            },
            CloneStage::HereAsked => match event {
                Event::Flag(here) => {
                    if here {
                        self.base_in_program_dir = true;
                        self.base = String::new();
                        self.ask_repo()
                    } else {
                        let a = ask_blank(Question::CloneBaseDir, vec![]);
                        assert(strs(seq![]) =~= seq![]);
                        self.to(CloneStage::BaseAsked, a)
                    }
                },
                _ => vstd::pervasive::unreached(),
            },
            CloneStage::BaseAsked => match event {
                Event::Answered(p) => {
                    if p.as_str().is_empty() {
                        self.to(CloneStage::Done, finish_err("克隆目录不能为空"))
                    } else {
                        self.base_in_program_dir = false;
                        self.base = p;
                        let a = Action::Exists { place: self.base_place() };
                        self.to(CloneStage::BaseProbe, a)
                    }
                },
                _ => vstd::pervasive::unreached(),
            },
            CloneStage::BaseProbe => match event {
                Event::Flag(exists) => {
                    if exists {
                        self.ask_repo()
                    } else {
                        let a = confirm(Question::CreateCloneBase, vec![], true);
                        assert(strs(seq![]) =~= seq![]);
                        self.to(CloneStage::BaseCreateAsked, a)
                    }
                },
                _ => vstd::pervasive::unreached(),
            },
            CloneStage::BaseCreateAsked => match event {
                Event::Flag(yes) => {
                    if yes {
                        let a = Action::CreateDir { place: self.base_place() };
                        self.to(CloneStage::BaseCreating, a)
                    } else {
                        self.to(CloneStage::Done, finish_err("目录不存在且用户选择不创建"))
                    }
                },
                _ => vstd::pervasive::unreached(),
            },
            CloneStage::BaseCreating => match event {
                Event::Ran(Err(err)) => self.fail_with("创建目录失败: ", err),
                Event::Ran(Ok(())) => self.ask_repo(),
                _ => vstd::pervasive::unreached(),
            },
            CloneStage::RepoAsked => match event {
                Event::Answered(r) => {
                    if r.as_str().is_empty() {
                        self.to(CloneStage::Done, finish_err("远程仓库不能为空"))
                    } else if !contains_char(r.as_str(), '/') {
                        self.to(CloneStage::Done, finish_err("远程仓库格式错误，应为 username/repository-name"))
                    } else {
                        self.repo = r;
                        let a = ask_blank(Question::CloneBranch, vec![]);
                        assert(strs(seq![]) =~= seq![]);
                        self.to(CloneStage::BranchAsked, a)
                    }
                },
                _ => vstd::pervasive::unreached(),
            },
            CloneStage::BranchAsked => match event {
                Event::Answered(b) => {
                    self.branch = b;
                    let a = show(Notice::CloneModes, vec![]);
                    assert(strs(seq![]) =~= seq![]);
                    self.to(CloneStage::ModesShown, a)
                },
                _ => vstd::pervasive::unreached(),
            },
            CloneStage::ModesShown => {
                let a = ask(Question::CloneMode, vec![], "1");
                assert(strs(seq![]) =~= seq![]);
                self.to(CloneStage::ModeAsked, a)
            },
            CloneStage::ModeAsked => match event {
                Event::Answered(t) => {
                    self.mode = t;
                    self.name = last_segment_of(self.repo.as_str());
                    self.url = github_url_of(self.repo.as_str());
                    let a = Action::Describe { place: self.target_place() };
                    self.to(CloneStage::Describing, a)
                },
                _ => vstd::pervasive::unreached(),
            },
            CloneStage::Describing => match event {
                Event::Answered(text) => {
                    let notice = if same_text(self.mode.as_str(), "1") {
                        Notice::CloneSummaryFull
                    } else {
                        Notice::CloneSummaryShallow
                    };
                    let parts = vec![self.url.as_str(), self.branch.as_str(), text.as_str()];
                    assert(strs(parts@) =~= seq![self.url@, self.branch@, text@]);
                    let a = show(notice, parts);
                    self.target_text = text;
                    self.to(CloneStage::Summarised, a)
                },
                _ => vstd::pervasive::unreached(),
            },
            _ => vstd::pervasive::unreached(),
        }
    }

    /// Steps from the summary on.
    fn run(&mut self, event: Event) -> (a: Action)
        requires
            fits(clone_awaits(old(self)@), event@),
            !(old(self)@.stage is Start || old(self)@.stage is Titled || old(self)@.stage is HereAsked
                || old(self)@.stage is BaseAsked
                || old(self)@.stage is BaseProbe || old(self)@.stage is BaseCreateAsked
                || old(self)@.stage is BaseCreating || old(self)@.stage is RepoAsked
                || old(self)@.stage is BranchAsked || old(self)@.stage is ModesShown
                || old(self)@.stage is ModeAsked || old(self)@.stage is Describing
                || old(self)@.stage is Done),
        ensures
            (final(self)@, a@) == clone_next(old(self)@, event@),
    {
        proof {
            reveal(clone_next);
        }
        match self.stage {
            CloneStage::Summarised => {
                let a = confirm(Question::ConfirmClone, vec![], true);
                assert(strs(seq![]) =~= seq![]);
                self.to(CloneStage::ConfirmAsked, a)
            },
            CloneStage::ConfirmAsked => match event {
                Event::Flag(yes) => {
                    if yes {
                        let a = Action::EnterDir { place: self.base_place() };
                        self.to(CloneStage::EnteringBase, a)
                    } else {
                        let a = show(Notice::CloneCancelled, vec![]);
                        assert(strs(seq![]) =~= seq![]);
                        self.to(CloneStage::Cancelled, a)
                    }
                },
                _ => vstd::pervasive::unreached(),
            },
            CloneStage::Cancelled => self.to(CloneStage::Done, finish_ok()),
            CloneStage::EnteringBase => match event {
                Event::Ran(Err(err)) => self.fail_with("切换到克隆基目录失败: ", err),
                Event::Ran(Ok(())) => {
                    let a = Action::Show { notice: Notice::Running, args: self.args() };
                    self.to(CloneStage::Announced, a)
                },
                _ => vstd::pervasive::unreached(),
            },
            CloneStage::Announced => {
                let a = Action::GitStatus { args: self.args() };
                self.to(CloneStage::Cloning, a)
            },
            CloneStage::Cloning => match event {
                Event::Status(Err(err)) => self.fail_with("执行 git clone 失败: ", err),
                Event::Status(Ok(ok)) => {
                    if ok {
                        let a = show(Notice::Cloned, vec![]);
                        assert(strs(seq![]) =~= seq![]);
                        self.to(CloneStage::Cloned, a)
                    } else {
                        self.to(CloneStage::Done, finish_err("git clone 执行失败"))
                    }
                },
                _ => vstd::pervasive::unreached(),
            },
            CloneStage::Cloned => {
                let a = Action::Exists { place: self.target_place() };
                self.to(CloneStage::TargetProbe, a)
            },
            CloneStage::TargetProbe => match event {
                Event::Flag(exists) => {
                    if exists {
                        let a = confirm(Question::EnterClone, vec![], true);
                        assert(strs(seq![]) =~= seq![]);
                        self.to(CloneStage::EnterAsked, a)
                    } else {
                        let t = self.target_text.clone();
                        self.fail_with("克隆成功但未找到预期的目录: ", t)
                    }
                },
                _ => vstd::pervasive::unreached(),
            },
            CloneStage::EnterAsked => match event {
                Event::Flag(yes) => {
                    if yes {
                        let a = Action::RelativePath { place: self.target_place(), fallback: self.name.clone() };
                        self.to(CloneStage::Relating, a)
                    } else {
                        let a = show(Notice::CloneKept, vec![]);
                        assert(strs(seq![]) =~= seq![]);
                        self.to(CloneStage::Kept, a)
                    }
                },
                _ => vstd::pervasive::unreached(),
            },
            CloneStage::Kept => self.to(CloneStage::Done, finish_ok()),
            CloneStage::Relating | CloneStage::EnteringClone | CloneStage::ReadingBranch
            | CloneStage::Saving | CloneStage::Updated | CloneStage::EnteringAgain
            | CloneStage::Entered => self.adopt(event),
            _ => vstd::pervasive::unreached(),
        }
    }

    /// Steps that adopt the clone in the settings.
    fn adopt(&mut self, event: Event) -> (a: Action)
        requires
            fits(clone_awaits(old(self)@), event@),
            old(self)@.stage is Relating || old(self)@.stage is EnteringClone
                || old(self)@.stage is ReadingBranch || old(self)@.stage is Saving
                || old(self)@.stage is Updated || old(self)@.stage is EnteringAgain
                || old(self)@.stage is Entered,
        ensures
            (final(self)@, a@) == clone_next(old(self)@, event@),
    {
        proof {
            reveal(clone_next);
        }
        match self.stage {
            CloneStage::Relating => match event {
                Event::Answered(rel) => {
                    self.config.dir = rel;
                    self.config.git_remote_repo = self.repo.clone();
                    if !self.branch.as_str().is_empty() {
                        self.config.git_branch = self.branch.clone();
                        let a = Action::Save { config: copy_config(&self.config) };
                        self.to(CloneStage::Saving, a)
                    } else {
                        let a = Action::EnterDir { place: self.target_place() };
                        self.to(CloneStage::EnteringClone, a)
                    }
                },
                _ => vstd::pervasive::unreached(),
            },
            CloneStage::EnteringClone => match event {
                Event::Ran(Err(err)) => self.fail_with("切换到克隆目录失败: ", err),
                Event::Ran(Ok(())) => {
                    let parts = vec!["symbolic-ref", "--short", "HEAD"];
                    assert(strs(parts@) =~= seq!["symbolic-ref"@, "--short"@, "HEAD"@]);
                    self.to(CloneStage::ReadingBranch, git_read(parts))
                },
                _ => vstd::pervasive::unreached(),
            },
            CloneStage::ReadingBranch => match event {
                Event::Read(r) => {
                    self.config.git_branch = get_default_branch(&r);
                    let a = Action::Save { config: copy_config(&self.config) };
                    self.to(CloneStage::Saving, a)
                },
                _ => vstd::pervasive::unreached(),
            },
            CloneStage::Saving => match event {
                Event::Ran(Err(err)) => self.to(CloneStage::Done, Action::Finish { result: Err(err) }),
                Event::Ran(Ok(())) => {
                    let parts = vec![self.config.dir.as_str(), self.config.git_remote_repo.as_str(), self.config.git_branch.as_str()];
                    assert(strs(parts@) =~= seq![self.config.dir@, self.config.git_remote_repo@, self.config.git_branch@]);
                    let a = show(Notice::ConfigUpdated, parts);
                    self.to(CloneStage::Updated, a)
                },
                _ => vstd::pervasive::unreached(),
            },
            CloneStage::Updated => {
                let a = Action::EnterDir { place: self.target_place() };
                self.to(CloneStage::EnteringAgain, a)
            },
            CloneStage::EnteringAgain => match event {
                Event::Ran(Err(err)) => self.fail_with("切换到克隆目录失败: ", err),
                Event::Ran(Ok(())) => {
                    let parts = vec![self.target_text.as_str()];
                    assert(strs(parts@) =~= seq![self.target_text@]);
                    let a = show(Notice::EnteredClone, parts);
                    self.to(CloneStage::Entered, a)
                },
                _ => vstd::pervasive::unreached(),
            },
            CloneStage::Entered => self.to(CloneStage::Done, finish_ok()),
            _ => vstd::pervasive::unreached(),
        }
    }
}

/// One step of the clone dialogue (`do_clone`).
pub fn do_clone(flow: &mut CloneFlow, event: Event) -> (a: Action)
    requires
        fits(clone_awaits(old(flow)@), event@),
    ensures
        (final(flow)@, a@) == clone_next(old(flow)@, event@),
{
    proof {
        reveal(clone_next);
    }
    match flow.stage {
        CloneStage::Start | CloneStage::Titled | CloneStage::HereAsked | CloneStage::BaseAsked
        | CloneStage::BaseProbe
        | CloneStage::BaseCreateAsked | CloneStage::BaseCreating | CloneStage::RepoAsked
        | CloneStage::BranchAsked | CloneStage::ModesShown | CloneStage::ModeAsked
        | CloneStage::Describing => flow.prepare(event),
        CloneStage::Done => vstd::pervasive::unreached(),
        _ => flow.run(event),
    }
}

} // verus!
