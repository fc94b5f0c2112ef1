//! The short Git operations: identity and remote set-up, branch switching,
//! committing and pushing.
use vstd::prelude::*;
use crate::config::{Config, ConfigView};
use crate::flow::{
    Action, ActionView, Awaits, Event, EventView, Notice, Question, fits, finish, finish_err,
    finish_ok, git, git_read, git_status, ask, ask_blank, confirm, show, strs, texts, words, unit_result,
};
use crate::text::{
    decimal, lemma_printed_number, line_at, line_end, lemma_line_end_bounds, next_line, joined, i32_text, parse_i32, parsed_i32, push_char, range_is, signed_decimal, to_chars, trimmed,
    trim_text,
};

verus! {

/// The GitHub SSH address of a `username/repository` name.
pub open spec fn github_url(repo: Seq<char>) -> Seq<char> {
    "git@github.com:"@ + repo + ".git"@
}

/// The GitHub SSH address of a `username/repository` name.
pub fn github_url_of(repo: &str) -> (r: String)
    ensures
        r@ == github_url(repo@),
{
    let mut s = joined("git@github.com:", repo);
    s.append(".git");
    s
}

/// `remote/branch`.
pub open spec fn remote_ref(remote: Seq<char>, branch: Seq<char>) -> Seq<char> {
    remote + seq!['/'] + branch
}

pub fn remote_ref_of(remote: &str, branch: &str) -> (r: String)
    ensures
        r@ == remote_ref(remote@, branch@),
{
    let mut s = remote.to_owned();
    push_char(&mut s, '/');
    s.append(branch);
    s
}

/// The `git` runs that apply the identity of `c`: `user.name`, then
/// `user.email`, each only where it is set. The program runs them in order and
/// stops at the first that fails, whose error is the result.
pub open spec fn identity_commands(c: ConfigView) -> Seq<Seq<Seq<char>>> {
    let name_cmd: Seq<Seq<Seq<char>>> = if c.git_name.len() > 0 {
        seq![seq!["config"@, "user.name"@, c.git_name]]
    } else {
        seq![]
    };
    let email_cmd: Seq<Seq<Seq<char>>> = if c.git_email.len() > 0 {
        seq![seq!["config"@, "user.email"@, c.git_email]]
    } else {
        seq![]
    };
    name_cmd + email_cmd
}

/// The `git` runs that apply the identity of `config` (`apply_git_config`).
pub fn apply_git_config(config: &Config) -> (r: Vec<Vec<String>>)
    ensures
        r@.map_values(|v: Vec<String>| texts(v@)) == identity_commands(config@),
{
    let mut r: Vec<Vec<String>> = Vec::new();
    if !config.git_name.as_str().is_empty() {
        let parts = vec!["config", "user.name", config.git_name.as_str()];
        let w = words(parts);
        assert(texts(w@) =~= seq!["config"@, "user.name"@, config.git_name@]);
        r.push(w);
    }
    let ghost first = r@;
    if !config.git_email.as_str().is_empty() {
        let parts = vec!["config", "user.email", config.git_email.as_str()];
        let w = words(parts);
        assert(texts(w@) =~= seq!["config"@, "user.email"@, config.git_email@]);
        r.push(w);
    }
    assert(r@.map_values(|v: Vec<String>| texts(v@)) =~= identity_commands(config@));
    r
}

/// The branch `git symbolic-ref --short HEAD` names: its trimmed output, or
/// `main` where it failed or printed nothing.
pub open spec fn default_branch(output: Result<Seq<char>, Seq<char>>) -> Seq<char> {
    match output {
        Ok(o) => if trimmed(o).len() > 0 {
            trimmed(o)
        } else {
            "main"@
        },
        Err(_) => "main"@,
    }
}

/// The current branch from the output of `git symbolic-ref --short HEAD`
/// (`get_default_branch`).
pub fn get_default_branch(output: &Result<String, String>) -> (r: String)
    ensures
        r@ == default_branch(
            match output {
                Ok(o) => Ok(o@),
                Err(e) => Err(e@),
            },
        ),
{
    match output {
        Ok(o) => {
            let t = trim_text(o.as_str());
            if !t.as_str().is_empty() {
                t
            } else {
                "main".to_owned()
            }
        },
        Err(_) => "main".to_owned(),
    }
}

/// One of the lines of `s` from `pos` on, as `str::lines` splits them, is `name`.
pub open spec fn has_line_from(s: Seq<char>, pos: int, name: Seq<char>) -> bool
    decreases s.len() + 1 - pos,
{
    if pos < 0 || pos >= s.len() {
        false
    } else {
        proof {
            lemma_line_end_bounds(s, pos);
        }
        line_at(s, pos) == name || has_line_from(s, line_end(s, pos) + 1, name)
    }
}

/// Whether one of the lines of `s` is exactly `name`.
pub fn has_line(s: &str, name: &str) -> (r: bool)
    ensures
        r == has_line_from(s@, 0, name@),
{
    let v = to_chars(s);
    let mut pos: usize = 0;
    while pos < v.len()
        invariant
            v@ == s@,
            pos <= v@.len(),
            has_line_from(v@, 0, name@) == has_line_from(v@, pos as int, name@),
        decreases v@.len() - pos,
    {
        let (hi, e) = next_line(&v, pos);
        if range_is(&v, pos, hi, name) {
            return true;
        }
        if e == v.len() {
            assert(!has_line_from(v@, e + 1, name@));
            return false;
        }
        pos = e + 1;
    }
    false
}

// ---------------------------------------------------------------- identity

/// Law: the identity sets `user.name` exactly when a name is configured and
/// `user.email` exactly when an e-mail is, name first, with the configured
/// values, and nothing else.
pub proof fn lemma_identity_commands(c: ConfigView)
    ensures
        identity_commands(c).len() == (if c.git_name.len() > 0 { 1int } else { 0 }) + (if c.git_email.len() > 0 {
            1int
        } else {
            0
        }),
        c.git_name.len() > 0 ==> identity_commands(c)[0] == seq!["config"@, "user.name"@, c.git_name],
        c.git_email.len() > 0 ==> identity_commands(c)[identity_commands(c).len() - 1] == seq![
            "config"@,
            "user.email"@,
            c.git_email,
        ],
{
}

/// The identity dialogue: the runs of `apply_git_config`, in order, up to the
/// first that fails.
pub struct IdentityFlow {
    pub commands: Vec<Vec<String>>,
    pub next: usize,
    pub running: bool,
    pub done: bool,
}

pub struct IdentityModel {
    pub commands: Seq<Seq<Seq<char>>>,
    pub next: nat,
    pub running: bool,
    pub done: bool,
}

impl View for IdentityFlow {
    type V = IdentityModel;

    open spec fn view(&self) -> IdentityModel {
        IdentityModel {
            commands: self.commands@.map_values(|v: Vec<String>| texts(v@)),
            next: self.next as nat,
            running: self.running,
            done: self.done,
        }
    }
}

pub open spec fn identity_start(c: ConfigView) -> IdentityModel {
    IdentityModel { commands: identity_commands(c), next: 0, running: false, done: false }
}

pub open spec fn identity_awaits(m: IdentityModel) -> Awaits {
    if m.done {
        Awaits::Nothing
    } else if m.running {
        Awaits::Ran
    } else {
        Awaits::Begin
    }
}

/// The next run, or success when none is left.
pub open spec fn identity_advance(m: IdentityModel) -> (IdentityModel, ActionView) {
    if m.next < m.commands.len() {
        (
            IdentityModel { next: m.next + 1, running: true, ..m },
            ActionView::Git(m.commands[m.next as int]),
        )
    } else {
        (IdentityModel { done: true, ..m }, ActionView::Finish(Ok(())))
    }
}

/// Runs the identity commands one after the other; the first failure ends
/// the dialogue with its error.
pub open spec fn identity_next(m: IdentityModel, e: EventView) -> (IdentityModel, ActionView) {
    if !m.running {
        identity_advance(m)
    } else {
        match e {
            EventView::Ran(Err(err)) => (IdentityModel { done: true, ..m }, ActionView::Finish(Err(err))),
            _ => identity_advance(m),
        }
    }
}

/// The identity dialogue stays in step with its commands.
pub open spec fn identity_wf(m: IdentityModel) -> bool {
    m.next <= m.commands.len()
}

impl IdentityFlow {
    pub fn new(config: &Config) -> (f: IdentityFlow)
        ensures
            f@ == identity_start(config@),
            identity_wf(f@),
    {
        IdentityFlow { commands: apply_git_config(config), next: 0, running: false, done: false }
    }

    fn advance(&mut self) -> (a: Action)
        requires
            identity_wf(old(self)@),
            !old(self)@.done,
        ensures
            (final(self)@, a@) == identity_advance(old(self)@),
            identity_wf(final(self)@),
    {
        if self.next < self.commands.len() {
            let args = self.commands[self.next].clone();
            let ghost v = self.commands@[self.next as int];
            assert(args@ == v@);
            self.next = self.next + 1;
            self.running = true;
            Action::Git { args }
        } else {
            self.done = true;
            finish_ok()
        }
    }
}

/// One step of the identity dialogue.
pub fn run_identity(flow: &mut IdentityFlow, event: Event) -> (a: Action)
    requires
        fits(identity_awaits(old(flow)@), event@),
        identity_wf(old(flow)@),
    ensures
        (final(flow)@, a@) == identity_next(old(flow)@, event@),
        identity_wf(final(flow)@),
{
    if !flow.running {
        flow.advance()
    } else {
        match event {
            Event::Ran(Err(err)) => {
                flow.done = true;
                Action::Finish { result: Err(err) }
            },
            _ => flow.advance(),
        }
    }
}

// ---------------------------------------------------------------- remote

#[derive(Debug, Clone, Copy, PartialEq, Eq, Structural)]
pub enum RemoteStage {
    Start,
    Listing,
    Writing,
    Done,
}

/// The remote set-up dialogue (`setup_remote`).
pub struct RemoteFlow {
    pub stage: RemoteStage,
    pub name: String,
    pub url: String,
    pub repo: String,
}

pub struct RemoteModel {
    pub stage: RemoteStage,
    pub name: Seq<char>,
    pub url: Seq<char>,
    pub repo: Seq<char>,
}

impl View for RemoteFlow {
    type V = RemoteModel;

    open spec fn view(&self) -> RemoteModel {
        RemoteModel { stage: self.stage, name: self.name@, url: self.url@, repo: self.repo@ }
    }
}

pub open spec fn remote_awaits(m: RemoteModel) -> Awaits {
    match m.stage {
        RemoteStage::Start => Awaits::Begin,
        RemoteStage::Listing => Awaits::Read,
        RemoteStage::Writing => Awaits::Ran,
        RemoteStage::Done => Awaits::Nothing,
    }
}

/// Points the configured remote at the configured GitHub repository: an error
/// where either is unset; else `git remote` is read, and the remote's URL is
/// reset where a line of it names the remote, added otherwise.
pub open spec fn remote_next(m: RemoteModel, e: EventView) -> (RemoteModel, ActionView) {
    match (m.stage, e) {
        (RemoteStage::Start, _) => if m.repo.len() == 0 || m.name.len() == 0 {
            (RemoteModel { stage: RemoteStage::Done, ..m }, ActionView::Finish(Err("远程仓库未配置"@)))
        } else {
            (RemoteModel { stage: RemoteStage::Listing, ..m }, ActionView::GitRead(seq!["remote"@]))
        },
        (RemoteStage::Listing, EventView::Read(Err(err))) => (
            RemoteModel { stage: RemoteStage::Done, ..m },
            ActionView::Finish(Err(err)),
        ),
        (RemoteStage::Listing, EventView::Read(Ok(out))) => (
            RemoteModel { stage: RemoteStage::Writing, ..m },
            ActionView::Git(
                seq![
                    "remote"@,
                    if has_line_from(out, 0, m.name) {
                        "set-url"@
                    } else {
                        "add"@
                    },
                    m.name,
                    m.url,
                ],
            ),
        ),
        (RemoteStage::Writing, EventView::Ran(r)) => (
            RemoteModel { stage: RemoteStage::Done, ..m },
            ActionView::Finish(r),
        ),
        _ => (m, ActionView::Finish(Ok(()))),
    }
}

impl RemoteFlow {
    pub fn new(config: &Config) -> (f: RemoteFlow)
        ensures
            f@ == (RemoteModel {
                stage: RemoteStage::Start,
                name: config.git_remote_name@,
                url: github_url(config.git_remote_repo@),
                repo: config.git_remote_repo@,
            }),
    {
        RemoteFlow {
            stage: RemoteStage::Start,
            name: config.git_remote_name.clone(),
            url: github_url_of(config.git_remote_repo.as_str()),
            repo: config.git_remote_repo.clone(),
        }
    }
}

/// One step of the remote set-up dialogue (`setup_remote`).
pub fn setup_remote(flow: &mut RemoteFlow, event: Event) -> (a: Action)
    requires
        fits(remote_awaits(old(flow)@), event@),
    ensures
        (final(flow)@, a@) == remote_next(old(flow)@, event@),
{
    match flow.stage {
        RemoteStage::Start => {
            if flow.repo.as_str().is_empty() || flow.name.as_str().is_empty() {
                flow.stage = RemoteStage::Done;
                finish_err("远程仓库未配置")
            } else {
                flow.stage = RemoteStage::Listing;
                let a = git_read(vec!["remote"]);
                assert(strs(seq!["remote"]) =~= seq!["remote"@]);
                a
            }
        },
        RemoteStage::Listing => match event {
            Event::Read(Err(err)) => {
                flow.stage = RemoteStage::Done;
                Action::Finish { result: Err(err) }
            },
            Event::Read(Ok(out)) => {
                flow.stage = RemoteStage::Writing;
                let verb = if has_line(out.as_str(), flow.name.as_str()) {
                    "set-url"
                } else {
                    "add"
                };
                let parts = vec!["remote", verb, flow.name.as_str(), flow.url.as_str()];
                assert(strs(parts@) =~= seq!["remote"@, verb@, flow.name@, flow.url@]);
                git(parts)
            },
            _ => vstd::pervasive::unreached(),
        },
        RemoteStage::Writing => match event {
            Event::Ran(r) => {
                flow.stage = RemoteStage::Done;
                finish(r)
            },
            _ => vstd::pervasive::unreached(),
        },
        RemoteStage::Done => vstd::pervasive::unreached(),
    }
}

// ---------------------------------------------------------------- commit

/// A commit body as typed, with each backslash turned into a line feed.
pub open spec fn body_lines(s: Seq<char>) -> Seq<char> {
    s.map_values(|c: char| if c == '\\' { '\n' } else { c })
}

/// `s.replace("\\", "\n")`.
pub fn backslashes_to_newlines(s: &str) -> (r: String)
    ensures
        r@ == body_lines(s@),
{
    let v = to_chars(s);
    let mut r = String::new();
    let mut i: usize = 0;
    while i < v.len()
        invariant
            v@ == s@,
            i <= v@.len(),
            r@ == body_lines(v@.take(i as int)),
        decreases v@.len() - i,
    {
        let c = v[i];
        push_char(&mut r, if c == '\\' { '\n' } else { c });
        i += 1;
        assert(r@ =~= body_lines(v@.take(i as int)));
    }
    assert(v@.take(i as int) =~= v@);
    r
}

#[derive(Debug, Clone, Copy, PartialEq, Eq, Structural)]
pub enum CommitStage {
    Start,
    Subject,
    Body,
    Staging,
    Committing,
    Done,
}

/// The commit dialogue (`do_commit`).
pub struct CommitFlow {
    pub stage: CommitStage,
    pub subject: String,
    pub body: String,
}

pub struct CommitModel {
    pub stage: CommitStage,
    pub subject: Seq<char>,
    pub body: Seq<char>,
}

impl View for CommitFlow {
    type V = CommitModel;

    open spec fn view(&self) -> CommitModel {
        CommitModel { stage: self.stage, subject: self.subject@, body: self.body@ }
    }
}

pub open spec fn commit_start() -> CommitModel {
    CommitModel { stage: CommitStage::Start, subject: Seq::empty(), body: Seq::empty() }
}

pub open spec fn commit_awaits(m: CommitModel) -> Awaits {
    match m.stage {
        CommitStage::Start => Awaits::Begin,
        CommitStage::Subject => Awaits::Answer,
        CommitStage::Body => Awaits::Answer,
        CommitStage::Staging => Awaits::Ran,
        CommitStage::Committing => Awaits::Ran,
        CommitStage::Done => Awaits::Nothing,
    }
}

/// Asks for a subject (an empty one is an error) and a body (a backslash
/// stands for a line break), stages everything with `git add .` and commits
/// with a sign-off, passing the body as a second message only where it is
/// not empty.
pub open spec fn commit_next(m: CommitModel, e: EventView) -> (CommitModel, ActionView) {
    match (m.stage, e) {
        (CommitStage::Start, _) => (
            CommitModel { stage: CommitStage::Subject, ..m },
            ActionView::Ask(Question::CommitSubject, seq![], Seq::empty()),
        ),
        (CommitStage::Subject, EventView::Answered(subject)) => if subject.len() == 0 {
            (CommitModel { stage: CommitStage::Done, ..m }, ActionView::Finish(Err("提交标题不能为空"@)))
        } else {
            (
                CommitModel { stage: CommitStage::Body, subject, ..m },
                ActionView::Ask(Question::CommitBody, seq![], Seq::empty()),
            )
        },
        (CommitStage::Body, EventView::Answered(raw)) => (
            CommitModel { stage: CommitStage::Staging, body: body_lines(raw), ..m },
            ActionView::Git(seq!["add"@, "."@]),
        ),
        (CommitStage::Staging, EventView::Ran(Err(err))) => (
            CommitModel { stage: CommitStage::Done, ..m },
            ActionView::Finish(Err(err)),
        ),
        (CommitStage::Staging, EventView::Ran(Ok(()))) => (
            CommitModel { stage: CommitStage::Committing, ..m },
            ActionView::Git(
                if m.body.len() > 0 {
                    seq!["commit"@, "-s"@, "-m"@, m.subject, "-m"@, m.body]
                } else {
                    seq!["commit"@, "-s"@, "-m"@, m.subject]
                },
            ),
        ),
        (CommitStage::Committing, EventView::Ran(r)) => (
            CommitModel { stage: CommitStage::Done, ..m },
            ActionView::Finish(r),
        ),
        _ => (m, ActionView::Finish(Ok(()))),
    }
}

/// Law: an empty subject ends the commit dialogue with an error before any
/// `git` runs; a non-empty one is committed with a sign-off as the first
/// message, after `git add .`, and a non-empty body as a second message.
pub proof fn lemma_commit_subject(subject: Seq<char>, raw: Seq<char>)
    ensures
        subject.len() == 0 ==> commit_next(
            CommitModel { stage: CommitStage::Subject, subject: Seq::empty(), body: Seq::empty() },
            EventView::Answered(subject),
        ).1 == ActionView::Finish(Err("提交标题不能为空"@)),
        subject.len() > 0 ==> {
            let m1 = commit_next(commit_start(), EventView::Begin).0;
            let (m2, _) = commit_next(m1, EventView::Answered(subject));
            let (m3, a3) = commit_next(m2, EventView::Answered(raw));
            let (_, a4) = commit_next(m3, EventView::Ran(Ok(())));
            &&& a3 == ActionView::Git(seq!["add"@, "."@])
            &&& a4 is Git
            &&& a4->Git_0.take(4) == seq!["commit"@, "-s"@, "-m"@, subject]
            &&& raw.len() == 0 ==> a4->Git_0.len() == 4
            &&& raw.len() > 0 ==> a4->Git_0.len() == 6 && a4->Git_0[4] == "-m"@ && a4->Git_0[5].len()
                == raw.len()
        },
{
    let m1 = commit_next(commit_start(), EventView::Begin).0;
    if subject.len() > 0 {
        let (m2, _) = commit_next(m1, EventView::Answered(subject));
        let (m3, a3) = commit_next(m2, EventView::Answered(raw));
        let (_, a4) = commit_next(m3, EventView::Ran(Ok(())));
        assert(m3.body == body_lines(raw));
        if raw.len() > 0 {
            assert(a4->Git_0.take(4) =~= seq!["commit"@, "-s"@, "-m"@, subject]);
        } else {
            assert(a4->Git_0.take(4) =~= a4->Git_0);
        }
    }
}

impl CommitFlow {
    pub fn new() -> (f: CommitFlow)
        ensures
            f@ == commit_start(),
    {
        CommitFlow { stage: CommitStage::Start, subject: String::new(), body: String::new() }
    }
}

/// One step of the commit dialogue (`do_commit`).
pub fn do_commit(flow: &mut CommitFlow, event: Event) -> (a: Action)
    requires
        fits(commit_awaits(old(flow)@), event@),
    ensures
        (final(flow)@, a@) == commit_next(old(flow)@, event@),
{
    match flow.stage {
        CommitStage::Start => {
            flow.stage = CommitStage::Subject;
            let a = ask_blank(Question::CommitSubject, vec![]);
            assert(strs(seq![]) =~= seq![]);
            a
        },
        CommitStage::Subject => match event {
            Event::Answered(subject) => {
                if subject.as_str().is_empty() {
                    flow.stage = CommitStage::Done;
                    finish_err("提交标题不能为空")
                } else {
                    flow.stage = CommitStage::Body;
                    flow.subject = subject;
                    let a = ask_blank(Question::CommitBody, vec![]);
                    assert(strs(seq![]) =~= seq![]);
                    a
                }
            },
            _ => vstd::pervasive::unreached(),
        },
        CommitStage::Body => match event {
            Event::Answered(raw) => {
                flow.stage = CommitStage::Staging;
                flow.body = backslashes_to_newlines(raw.as_str());
                let parts = vec!["add", "."];
                assert(strs(parts@) =~= seq!["add"@, "."@]);
                git(parts)
            },
            _ => vstd::pervasive::unreached(),
        },
        CommitStage::Staging => match event {
            Event::Ran(Err(err)) => {
                flow.stage = CommitStage::Done;
                Action::Finish { result: Err(err) }
            },
            Event::Ran(Ok(())) => {
                flow.stage = CommitStage::Committing;
                if !flow.body.as_str().is_empty() {
                    let parts = vec!["commit", "-s", "-m", flow.subject.as_str(), "-m", flow.body.as_str()];
                    assert(strs(parts@) =~= seq!["commit"@, "-s"@, "-m"@, flow.subject@, "-m"@, flow.body@]);
                    git(parts)
                } else {
                    let parts = vec!["commit", "-s", "-m", flow.subject.as_str()];
                    assert(strs(parts@) =~= seq!["commit"@, "-s"@, "-m"@, flow.subject@]);
                    git(parts)
                }
            },
            _ => vstd::pervasive::unreached(),
        },
        CommitStage::Committing => match event {
            Event::Ran(r) => {
                flow.stage = CommitStage::Done;
                finish(r)
            },
            _ => vstd::pervasive::unreached(),
        },
        CommitStage::Done => vstd::pervasive::unreached(),
    }
}

// ---------------------------------------------------------------- push

#[derive(Debug, Clone, Copy, PartialEq, Eq, Structural)]
pub enum PushStage {
    Start,
    AskedForce,
    AskedPush,
    AskedForceAgain,
    Pushing,
    Skipped,
    Done,
}

/// The push dialogue (`do_push`): `question` is the caller's question.
pub struct PushFlow {
    pub stage: PushStage,
    pub question: String,
    pub remote: String,
    pub branch: String,
    pub force: bool,
}

pub struct PushModel {
    pub stage: PushStage,
    pub question: Seq<char>,
    pub remote: Seq<char>,
    pub branch: Seq<char>,
    pub force: bool,
}

impl View for PushFlow {
    type V = PushModel;

    open spec fn view(&self) -> PushModel {
        PushModel {
            stage: self.stage,
            question: self.question@,
            remote: self.remote@,
            branch: self.branch@,
            force: self.force,
        }
    }
}

pub open spec fn push_start(question: Seq<char>, c: ConfigView) -> PushModel {
    PushModel {
        stage: PushStage::Start,
        question,
        remote: c.git_remote_name,
        branch: c.git_branch,
        force: false,
    }
}

pub open spec fn push_awaits(m: PushModel) -> Awaits {
    match m.stage {
        PushStage::Start => Awaits::Begin,
        PushStage::AskedForce => Awaits::Flag,
        PushStage::AskedPush => Awaits::Flag,
        PushStage::AskedForceAgain => Awaits::Flag,
        PushStage::Pushing => Awaits::Ran,
        PushStage::Skipped => Awaits::Shown,
        PushStage::Done => Awaits::Nothing,
    }
}

/// Asks whether to force (default no), then the caller's question (default
/// yes; no skips the push); a forced push is confirmed once more (default no,
/// no ends without pushing) and runs `git push <remote> <branch>
/// --force-with-lease`, a plain one `git push <remote> <branch>`.
pub open spec fn push_next(m: PushModel, e: EventView) -> (PushModel, ActionView) {
    match (m.stage, e) {
        (PushStage::Start, _) => (
            PushModel { stage: PushStage::AskedForce, ..m },
            ActionView::Confirm(Question::ForcePush, seq![], false),
        ),
        (PushStage::AskedForce, EventView::Flag(force)) => (
            PushModel { stage: PushStage::AskedPush, force, ..m },
            ActionView::Confirm(Question::PushNow, seq![m.question], true),
        ),
        (PushStage::AskedPush, EventView::Flag(go)) => if !go {
            (PushModel { stage: PushStage::Skipped, ..m }, ActionView::Show(Notice::PushSkipped, seq![]))
        } else if m.force {
            (
                PushModel { stage: PushStage::AskedForceAgain, ..m },
                ActionView::Confirm(Question::ConfirmForcePush, seq![], false),
            )
        } else {
            (
                PushModel { stage: PushStage::Pushing, ..m },
                ActionView::Git(seq!["push"@, m.remote, m.branch]),
            )
        },
        (PushStage::AskedForceAgain, EventView::Flag(go)) => if !go {
            (PushModel { stage: PushStage::Done, ..m }, ActionView::Finish(Ok(())))
        } else {
            (
                PushModel { stage: PushStage::Pushing, ..m },
                ActionView::Git(seq!["push"@, m.remote, m.branch, "--force-with-lease"@]),
            )
        },
        (PushStage::Pushing, EventView::Ran(r)) => (
            PushModel { stage: PushStage::Done, ..m },
            ActionView::Finish(r),
        ),
        (PushStage::Skipped, EventView::Shown) => (
            PushModel { stage: PushStage::Done, ..m },
            ActionView::Finish(Ok(())),
        ),
        _ => (m, ActionView::Finish(Ok(()))),
    }
}

impl PushFlow {
    pub fn new(question: &str, config: &Config) -> (f: PushFlow)
        ensures
            f@ == push_start(question@, config@),
    {
        PushFlow {
            stage: PushStage::Start,
            question: question.to_owned(),
            remote: config.git_remote_name.clone(),
            branch: config.git_branch.clone(),
            force: false,
        }
    }
}

/// Law: the push dialogue pushes with `--force-with-lease` only as the
/// answer yes to the second confirmation, which it asks only where force was
/// chosen and the caller's question answered yes.
pub proof fn lemma_forced_push_confirmed(m: PushModel, e: EventView)
    requires
        fits(push_awaits(m), e),
    ensures
        push_next(m, e).1 == ActionView::Git(seq!["push"@, m.remote, m.branch, "--force-with-lease"@])
            ==> m.stage is AskedForceAgain && e == EventView::Flag(true),
        push_next(m, e).0.stage is AskedForceAgain ==> m.stage is AskedPush && m.force && e
            == EventView::Flag(true),
{
    let a = push_next(m, e).1;
    if m.stage is AskedPush && a is Git {
        assert(a->Git_0.len() == 3);
    }
}

/// One step of the push dialogue (`do_push`).
pub fn do_push(flow: &mut PushFlow, event: Event) -> (a: Action)
    requires
        fits(push_awaits(old(flow)@), event@),
    ensures
        (final(flow)@, a@) == push_next(old(flow)@, event@),
{
    match flow.stage {
        PushStage::Start => {
            flow.stage = PushStage::AskedForce;
            let a = confirm(Question::ForcePush, vec![], false);
            assert(strs(seq![]) =~= seq![]);
            a
        },
        PushStage::AskedForce => match event {
            Event::Flag(force) => {
                flow.stage = PushStage::AskedPush;
                flow.force = force;
                let parts = vec![flow.question.as_str()];
                assert(strs(parts@) =~= seq![flow.question@]);
                confirm(Question::PushNow, parts, true)
            },
            _ => vstd::pervasive::unreached(),
        },
        PushStage::AskedPush => match event {
            Event::Flag(go) => {
                if !go {
                    flow.stage = PushStage::Skipped;
                    let a = show(Notice::PushSkipped, vec![]);
                    assert(strs(seq![]) =~= seq![]);
                    a
                } else if flow.force {
                    flow.stage = PushStage::AskedForceAgain;
                    let a = confirm(Question::ConfirmForcePush, vec![], false);
                    assert(strs(seq![]) =~= seq![]);
                    a
                } else {
                    flow.stage = PushStage::Pushing;
                    let parts = vec!["push", flow.remote.as_str(), flow.branch.as_str()];
                    assert(strs(parts@) =~= seq!["push"@, flow.remote@, flow.branch@]);
                    git(parts)
                }
            },
            _ => vstd::pervasive::unreached(),
        },
        PushStage::AskedForceAgain => match event {
            Event::Flag(go) => {
                if !go {
                    flow.stage = PushStage::Done;
                    finish_ok()
                } else {
                    flow.stage = PushStage::Pushing;
                    let parts = vec!["push", flow.remote.as_str(), flow.branch.as_str(), "--force-with-lease"];
                    assert(strs(parts@) =~= seq!["push"@, flow.remote@, flow.branch@, "--force-with-lease"@]);
                    git(parts)
                }
            },
            _ => vstd::pervasive::unreached(),
        },
        PushStage::Pushing => match event {
            Event::Ran(r) => {
                flow.stage = PushStage::Done;
                finish(r)
            },
            _ => vstd::pervasive::unreached(),
        },
        PushStage::Skipped => {
            flow.stage = PushStage::Done;
            finish_ok()
        },
        PushStage::Done => vstd::pervasive::unreached(),
    }
}

// ---------------------------------------------------------------- branch

#[derive(Debug, Clone, Copy, PartialEq, Eq, Structural)]
pub enum BranchStage {
    Start,
    CheckingRepo,
    Probing,
    Switching,
    Announcing,
    Creating,
    Created,
    Done,
}

/// The branch dialogue (`checkout_branch`).
pub struct BranchFlow {
    pub stage: BranchStage,
    pub branch: String,
}

pub struct BranchModel {
    pub stage: BranchStage,
    pub branch: Seq<char>,
}

impl View for BranchFlow {
    type V = BranchModel;

    open spec fn view(&self) -> BranchModel {
        BranchModel { stage: self.stage, branch: self.branch@ }
    }
}

pub open spec fn branch_awaits(m: BranchModel) -> Awaits {
    match m.stage {
        BranchStage::Start => Awaits::Begin,
        BranchStage::CheckingRepo => Awaits::Flag,
        BranchStage::Probing => Awaits::Status,
        BranchStage::Switching => Awaits::Ran,
        BranchStage::Announcing => Awaits::Shown,
        BranchStage::Creating => Awaits::Ran,
        BranchStage::Created => Awaits::Shown,
        BranchStage::Done => Awaits::Nothing,
    }
}

/// Outside a repository an error; else `git show-ref --verify
/// refs/heads/<branch>` tells whether the branch exists (a failure to run
/// counts as no): an existing branch is checked out, a missing one is
/// announced, created with `git checkout -b` and reported.
pub open spec fn branch_next(m: BranchModel, e: EventView) -> (BranchModel, ActionView) {
    match (m.stage, e) {
        (BranchStage::Start, _) => (BranchModel { stage: BranchStage::CheckingRepo, ..m }, ActionView::CheckRepo),
        (BranchStage::CheckingRepo, EventView::Flag(repo)) => if !repo {
            (BranchModel { stage: BranchStage::Done, ..m }, ActionView::Finish(Err("不是 Git 仓库"@)))
        } else {
            (
                BranchModel { stage: BranchStage::Probing, ..m },
                ActionView::GitStatus(seq!["show-ref"@, "--verify"@, "refs/heads/"@ + m.branch]),
            )
        },
        (BranchStage::Probing, EventView::Status(r)) => if r == Ok::<bool, Seq<char>>(true) {
            (BranchModel { stage: BranchStage::Switching, ..m }, ActionView::Git(seq!["checkout"@, m.branch]))
        } else {
            (
                BranchModel { stage: BranchStage::Announcing, ..m },
                ActionView::Show(Notice::BranchMissing, seq![m.branch]),
            )
        },
        (BranchStage::Switching, EventView::Ran(r)) => (BranchModel { stage: BranchStage::Done, ..m }, ActionView::Finish(r)),
        (BranchStage::Announcing, EventView::Shown) => (
            BranchModel { stage: BranchStage::Creating, ..m },
            ActionView::Git(seq!["checkout"@, "-b"@, m.branch]),
        ),
        (BranchStage::Creating, EventView::Ran(Err(err))) => (
            BranchModel { stage: BranchStage::Done, ..m },
            ActionView::Finish(Err(err)),
        ),
        (BranchStage::Creating, EventView::Ran(Ok(()))) => (
            BranchModel { stage: BranchStage::Created, ..m },
            ActionView::Show(Notice::BranchCreated, seq![m.branch]),
        ),
        (BranchStage::Created, EventView::Shown) => (BranchModel { stage: BranchStage::Done, ..m }, ActionView::Finish(Ok(()))),
        _ => (m, ActionView::Finish(Ok(()))),
    }
}

/// Law: in a repository, a branch that `git show-ref --verify` finds is
/// checked out; one it does not find (or that cannot be looked up) is
/// announced, created with `git checkout -b`, and reported created. Outside
/// a repository nothing runs and the dialogue fails.
pub proof fn lemma_branch_switch_or_create(m: BranchModel, found: Result<bool, Seq<char>>)
    requires
        m.stage is Probing,
    ensures
        found == Ok::<bool, Seq<char>>(true) ==> branch_next(m, EventView::Status(found)).1
            == ActionView::Git(seq!["checkout"@, m.branch]),
        found != Ok::<bool, Seq<char>>(true) ==> {
            let (p, a) = branch_next(m, EventView::Status(found));
            &&& a == ActionView::Show(Notice::BranchMissing, seq![m.branch])
            &&& branch_next(p, EventView::Shown).1 == ActionView::Git(seq!["checkout"@, "-b"@, m.branch])
        },
        branch_next(BranchModel { stage: BranchStage::CheckingRepo, ..m }, EventView::Flag(false)).1
            == ActionView::Finish(Err("不是 Git 仓库"@)),
{
}

impl BranchFlow {
    pub fn new(branch: &str) -> (f: BranchFlow)
        ensures
            f@ == (BranchModel { stage: BranchStage::Start, branch: branch@ }),
    {
        BranchFlow { stage: BranchStage::Start, branch: branch.to_owned() }
    }
}

/// One step of the branch dialogue (`checkout_branch`).
pub fn checkout_branch(flow: &mut BranchFlow, event: Event) -> (a: Action)
    requires
        fits(branch_awaits(old(flow)@), event@),
    ensures
        (final(flow)@, a@) == branch_next(old(flow)@, event@),
{
    match flow.stage {
        BranchStage::Start => {
            flow.stage = BranchStage::CheckingRepo;
            Action::CheckRepo
        },
        BranchStage::CheckingRepo => match event {
            Event::Flag(repo) => {
                if !repo {
                    flow.stage = BranchStage::Done;
                    finish_err("不是 Git 仓库")
                } else {
                    flow.stage = BranchStage::Probing;
                    let r = joined("refs/heads/", flow.branch.as_str());
                    let parts = vec!["show-ref", "--verify", r.as_str()];
                    assert(strs(parts@) =~= seq!["show-ref"@, "--verify"@, "refs/heads/"@ + flow.branch@]);
                    git_status(parts)
                }
            },
            _ => vstd::pervasive::unreached(),
        },
        BranchStage::Probing => match event {
            Event::Status(r) => {
                let exists = match r {
                    Ok(b) => b,
                    Err(_) => false,
                };
                if exists {
                    flow.stage = BranchStage::Switching;
                    let parts = vec!["checkout", flow.branch.as_str()];
                    assert(strs(parts@) =~= seq!["checkout"@, flow.branch@]);
                    git(parts)
                } else {
                    flow.stage = BranchStage::Announcing;
                    let parts = vec![flow.branch.as_str()];
                    assert(strs(parts@) =~= seq![flow.branch@]);
                    show(Notice::BranchMissing, parts)
                }
            },
            _ => vstd::pervasive::unreached(),
        },
        BranchStage::Switching => match event {
            Event::Ran(r) => {
                flow.stage = BranchStage::Done;
                finish(r)
            },
            _ => vstd::pervasive::unreached(),
        },
        BranchStage::Announcing => {
            flow.stage = BranchStage::Creating;
            let parts = vec!["checkout", "-b", flow.branch.as_str()];
            assert(strs(parts@) =~= seq!["checkout"@, "-b"@, flow.branch@]);
            git(parts)
        },
        BranchStage::Creating => match event {
            Event::Ran(Err(err)) => {
                flow.stage = BranchStage::Done;
                Action::Finish { result: Err(err) }
            },
            Event::Ran(Ok(())) => {
                flow.stage = BranchStage::Created;
                let parts = vec![flow.branch.as_str()];
                assert(strs(parts@) =~= seq![flow.branch@]);
                show(Notice::BranchCreated, parts)
            },
            _ => vstd::pervasive::unreached(),
        },
        BranchStage::Created => {
            flow.stage = BranchStage::Done;
            finish_ok()
        },
        BranchStage::Done => vstd::pervasive::unreached(),
    }
}

// ---------------------------------------------------------------- upload

/// The number that `git rev-list --count` reported: its trimmed output
/// parsed, 0 where the run failed or the output is no number.
pub open spec fn reported_count(r: Result<Seq<char>, Seq<char>>) -> i32 {
    let text = match r {
        Ok(o) => o,
        Err(_) => "0"@,
    };
    match parsed_i32(trimmed(text)) {
        Some(n) => n,
        None => 0,
    }
}

pub fn count_of(r: Result<String, String>) -> (n: i32)
    ensures
        n == reported_count(
            match r {
                Ok(o) => Ok(o@),
                Err(e) => Err(e@),
            },
        ),
{
    let text = match r {
        Ok(o) => o,
        Err(_) => "0".to_owned(),
    };
    let t = trim_text(text.as_str());
    match parse_i32(t.as_str()) {
        Some(n) => n,
        None => 0,
    }
}

/// `remote/branch..HEAD`: the commits of HEAD that the remote branch lacks.
pub open spec fn ahead_range(remote: Seq<char>, branch: Seq<char>) -> Seq<char> {
    remote_ref(remote, branch) + "..HEAD"@
}

#[derive(Debug, Clone, Copy, PartialEq, Eq, Structural)]
pub enum UploadStage {
    Start,
    Titled,
    Status,
    Warned,
    AskedCommit,
    Committing,
    Counting,
    NothingToDo,
    Announced,
    Pushing,
    Done,
}

/// The upload dialogue (`do_push_direct`).
pub struct UploadFlow {
    pub stage: UploadStage,
    pub remote: String,
    pub branch: String,
    pub commit: CommitFlow,
    pub push: PushFlow,
}

pub struct UploadModel {
    pub stage: UploadStage,
    pub remote: Seq<char>,
    pub branch: Seq<char>,
    pub commit: CommitModel,
    pub push: PushModel,
}

impl View for UploadFlow {
    type V = UploadModel;

    open spec fn view(&self) -> UploadModel {
        UploadModel {
            stage: self.stage,
            remote: self.remote@,
            branch: self.branch@,
            commit: self.commit@,
            push: self.push@,
        }
    }
}

pub open spec fn upload_start(c: ConfigView) -> UploadModel {
    UploadModel {
        stage: UploadStage::Start,
        remote: c.git_remote_name,
        branch: c.git_branch,
        commit: commit_start(),
        push: push_start("确认直接上传？"@, c),
    }
}

pub open spec fn upload_awaits(m: UploadModel) -> Awaits {
    match m.stage {
        UploadStage::Start => Awaits::Begin,
        UploadStage::Titled => Awaits::Shown,
        UploadStage::Status => Awaits::Read,
        UploadStage::Warned => Awaits::Shown,
        UploadStage::AskedCommit => Awaits::Flag,
        UploadStage::Committing => commit_awaits(m.commit),
        UploadStage::Counting => Awaits::Read,
        UploadStage::NothingToDo => Awaits::Shown,
        UploadStage::Announced => Awaits::Shown,
        UploadStage::Pushing => push_awaits(m.push),
        UploadStage::Done => Awaits::Nothing,
    }
}

/// The push dialogue of an upload, with its own question.
pub open spec fn upload_push_start(m: UploadModel) -> PushModel {
    PushModel {
        stage: PushStage::Start,
        question: "确认直接上传？"@,
        remote: m.remote,
        branch: m.branch,
        force: false,
    }
}

/// The count step: `git rev-list --count remote/branch..HEAD`.
pub open spec fn upload_count(m: UploadModel) -> (UploadModel, ActionView) {
    (
        UploadModel { stage: UploadStage::Counting, ..m },
        ActionView::GitRead(seq!["rev-list"@, "--count"@, ahead_range(m.remote, m.branch)]),
    )
}

/// Uploads the local commits without a new message: uncommitted changes are
/// reported and either committed through the commit dialogue (default) or
/// the upload fails; then the commits ahead of `remote/branch` are counted
/// (0 where the count cannot be had); with none it says so and ends, else it
/// reports the number and hands over to the push dialogue.
pub open spec fn upload_next(m: UploadModel, e: EventView) -> (UploadModel, ActionView) {
    match (m.stage, e) {
        (UploadStage::Start, _) => (
            UploadModel { stage: UploadStage::Titled, ..m },
            ActionView::Show(Notice::UploadTitle, seq![]),
        ),
        (UploadStage::Titled, EventView::Shown) => (
            UploadModel { stage: UploadStage::Status, ..m },
            ActionView::GitRead(seq!["status"@, "--porcelain"@]),
        ),
        (UploadStage::Status, EventView::Read(Err(err))) => (
            UploadModel { stage: UploadStage::Done, ..m },
            ActionView::Finish(Err(err)),
        ),
        (UploadStage::Status, EventView::Read(Ok(out))) => if out.len() > 0 {
            (UploadModel { stage: UploadStage::Warned, ..m }, ActionView::Show(Notice::UncommittedChanges, seq![]))
        } else {
            upload_count(m)
        },
        (UploadStage::Warned, EventView::Shown) => (
            UploadModel { stage: UploadStage::AskedCommit, ..m },
            ActionView::Confirm(Question::CommitNow, seq![], true),
        ),
        (UploadStage::AskedCommit, EventView::Flag(yes)) => if !yes {
            (UploadModel { stage: UploadStage::Done, ..m }, ActionView::Finish(Err("未提交更改，无法上传"@)))
        } else {
            let (c, a) = commit_next(commit_start(), EventView::Begin);
            (UploadModel { stage: UploadStage::Committing, commit: c, ..m }, a)
        },
        (UploadStage::Committing, _) => {
            let (c, a) = commit_next(m.commit, e);
            match a {
                ActionView::Finish(Err(err)) => (
                    UploadModel { stage: UploadStage::Done, commit: c, ..m },
                    ActionView::Finish(Err(err)),
                ),
                ActionView::Finish(Ok(())) => upload_count(UploadModel { commit: c, ..m }),
                _ => (UploadModel { commit: c, ..m }, a),
            }
        },
        (UploadStage::Counting, EventView::Read(r)) => {
            let n = reported_count(r);
            if n == 0 {
                (
                    UploadModel { stage: UploadStage::NothingToDo, ..m },
                    ActionView::Show(Notice::NothingToUpload, seq![]),
                )
            } else {
                (
                    UploadModel { stage: UploadStage::Announced, ..m },
                    ActionView::Show(Notice::CommitsToUpload, seq![signed_decimal(n as int)]),
                )
            }
        },
        (UploadStage::NothingToDo, EventView::Shown) => (
            UploadModel { stage: UploadStage::Done, ..m },
            ActionView::Finish(Ok(())),
        ),
        (UploadStage::Announced, EventView::Shown) => {
            let (p, a) = push_next(upload_push_start(m), EventView::Begin);
            (UploadModel { stage: UploadStage::Pushing, push: p, ..m }, a)
        },
        (UploadStage::Pushing, _) => {
            let (p, a) = push_next(m.push, e);
            (
                UploadModel {
                    stage: if a is Finish {
                        UploadStage::Done
                    } else {
                        UploadStage::Pushing
                    },
                    push: p,
                    ..m
                },
                a,
            )
        },
        _ => (m, ActionView::Finish(Ok(()))),
    }
}

/// Law: with `git rev-list --count` printing a positive count `n`, the
/// upload announces `n` commits to upload and then starts the push
/// dialogue (asking first whether to force); with a count of 0, or no count
/// at all, it reports that there is nothing to upload and ends with
/// success.
pub proof fn lemma_upload_follows_count(m: UploadModel, n: nat, err: Seq<char>)
    requires
        m.stage is Counting,
        n <= 0x7fff_ffff,
    ensures
        n > 0 ==> {
            let (p, a) = upload_next(m, EventView::Read(Ok(decimal(n) + seq!['\n'])));
            &&& a == ActionView::Show(Notice::CommitsToUpload, seq![decimal(n)])
            &&& upload_next(p, EventView::Shown).1 == ActionView::Confirm(Question::ForcePush, seq![], false)
            &&& upload_next(p, EventView::Shown).0.stage is Pushing
        },
        n == 0 ==> {
            let (p, a) = upload_next(m, EventView::Read(Ok(decimal(n) + seq!['\n'])));
            &&& a == ActionView::Show(Notice::NothingToUpload, seq![])
            &&& upload_next(p, EventView::Shown).1 == ActionView::Finish(Ok(()))
        },
        upload_next(m, EventView::Read(Err(err))).1 == ActionView::Show(Notice::NothingToUpload, seq![]),
{
    lemma_printed_number(n);
    lemma_printed_number(0);
    reveal_strlit("0");
    assert("0"@ =~= decimal(0));
}

/// Law: with uncommitted changes, the upload asks whether to commit them
/// (default yes): a yes starts the commit dialogue (asking for the
/// subject), a no ends the upload with an error and pushes nothing.
pub proof fn lemma_upload_commit_as_answered(m: UploadModel, e: EventView)
    requires
        fits(upload_awaits(m), e),
    ensures
        upload_next(m, e).0.stage is AskedCommit ==> upload_next(m, e).1 == ActionView::Confirm(
            Question::CommitNow,
            seq![],
            true,
        ),
        m.stage is AskedCommit && e == EventView::Flag(true) ==> upload_next(m, e).1 == ActionView::Ask(
            Question::CommitSubject,
            seq![],
            Seq::empty(),
        ),
        m.stage is AskedCommit && e == EventView::Flag(false) ==> upload_next(m, e).1
            == ActionView::Finish(Err("未提交更改，无法上传"@)),
{
}

/// Law: the push dialogue pushes nothing when the caller's question is
/// answered no: it reports the skipped push and ends with success.
pub proof fn lemma_push_skipped_on_no(m: PushModel)
    requires
        m.stage is AskedPush,
    ensures
        push_next(m, EventView::Flag(false)).1 == ActionView::Show(Notice::PushSkipped, seq![]),
        push_next(push_next(m, EventView::Flag(false)).0, EventView::Shown).1 == ActionView::Finish(
            Ok(()),
        ),
{
}

impl UploadFlow {
    pub fn new(config: &Config) -> (f: UploadFlow)
        ensures
            f@ == upload_start(config@),
    {
        UploadFlow {
            stage: UploadStage::Start,
            remote: config.git_remote_name.clone(),
            branch: config.git_branch.clone(),
            commit: CommitFlow::new(),
            push: PushFlow::new("确认直接上传？", config),
        }
    }

    fn count_step(&mut self) -> (a: Action)
        ensures
            (final(self)@, a@) == upload_count(old(self)@),
    {
        self.stage = UploadStage::Counting;
        let mut range = remote_ref_of(self.remote.as_str(), self.branch.as_str());
        range.append("..HEAD");
        let parts = vec!["rev-list", "--count", range.as_str()];
        assert(strs(parts@) =~= seq!["rev-list"@, "--count"@, ahead_range(self.remote@, self.branch@)]);
        git_read(parts)
    }
}

/// One step of the upload dialogue (`do_push_direct`).
pub fn do_push_direct(flow: &mut UploadFlow, event: Event) -> (a: Action)
    requires
        fits(upload_awaits(old(flow)@), event@),
    ensures
        (final(flow)@, a@) == upload_next(old(flow)@, event@),
{
    match flow.stage {
        UploadStage::Start => {
            flow.stage = UploadStage::Titled;
            let a = show(Notice::UploadTitle, vec![]);
            assert(strs(seq![]) =~= seq![]);
            a
        },
        UploadStage::Titled => {
            flow.stage = UploadStage::Status;
            let parts = vec!["status", "--porcelain"];
            assert(strs(parts@) =~= seq!["status"@, "--porcelain"@]);
            git_read(parts)
        },
        UploadStage::Status => match event {
            Event::Read(Err(err)) => {
                flow.stage = UploadStage::Done;
                Action::Finish { result: Err(err) }
            },
            Event::Read(Ok(out)) => {
                if !out.as_str().is_empty() {
                    flow.stage = UploadStage::Warned;
                    let a = show(Notice::UncommittedChanges, vec![]);
                    assert(strs(seq![]) =~= seq![]);
                    a
                } else {
                    flow.count_step()
                }
            },
            _ => vstd::pervasive::unreached(),
        },
        UploadStage::Warned => {
            flow.stage = UploadStage::AskedCommit;
            let a = confirm(Question::CommitNow, vec![], true);
            assert(strs(seq![]) =~= seq![]);
            a
        },
        UploadStage::AskedCommit => match event {
            Event::Flag(yes) => {
                if !yes {
                    flow.stage = UploadStage::Done;
                    finish_err("未提交更改，无法上传")
                } else {
                    flow.stage = UploadStage::Committing;
                    flow.commit = CommitFlow::new();
                    do_commit(&mut flow.commit, Event::Begin)
                }
            },
            _ => vstd::pervasive::unreached(),
        },
        UploadStage::Committing => {
            let a = do_commit(&mut flow.commit, event);
            match a {
                Action::Finish { result: Err(err) } => {
                    flow.stage = UploadStage::Done;
                    Action::Finish { result: Err(err) }
                },
                Action::Finish { result: Ok(()) } => flow.count_step(),
                other => other,
            }
        },
        UploadStage::Counting => match event {
            Event::Read(r) => {
                let n = count_of(r);
                if n == 0 {
                    flow.stage = UploadStage::NothingToDo;
                    let a = show(Notice::NothingToUpload, vec![]);
                    assert(strs(seq![]) =~= seq![]);
                    a
                } else {
                    flow.stage = UploadStage::Announced;
                    let t = i32_text(n);
                    let parts = vec![t.as_str()];
                    assert(strs(parts@) =~= seq![signed_decimal(n as int)]);
                    show(Notice::CommitsToUpload, parts)
                }
            },
            _ => vstd::pervasive::unreached(),
        },
        UploadStage::NothingToDo => {
            flow.stage = UploadStage::Done;
            finish_ok()
        },
        UploadStage::Announced => {
            flow.stage = UploadStage::Pushing;
            flow.push = PushFlow {
                stage: PushStage::Start,
                question: "确认直接上传？".to_owned(),
                remote: flow.remote.clone(),
                branch: flow.branch.clone(),
                force: false,
            };
            do_push(&mut flow.push, Event::Begin)
        },
        UploadStage::Pushing => {
            let a = do_push(&mut flow.push, event);
            if let Action::Finish { .. } = a {
                flow.stage = UploadStage::Done;
            }
            a
        },
        UploadStage::Done => vstd::pervasive::unreached(),
    }
}

} // verus!
