//! Updating the working copy from the configured remote (`do_update`).
use vstd::prelude::*;
use crate::config::{Config, ConfigView};
use crate::flow::{
    Action, ActionView, Awaits, Event, EventView, Notice, Question, ask, confirm, finish_err,
    finish_ok, fits, git, git_read, show, strs,
};
use crate::ops::{
    PushFlow, PushModel, PushStage, count_of, default_branch, do_push, get_default_branch, push_awaits,
    push_next, remote_ref, remote_ref_of, reported_count,
};
use crate::text::{decimal, lemma_printed_number, joined, i32_text, same_text, signed_decimal, trim_text, trimmed};

verus! {

#[derive(Debug, Clone, Copy, PartialEq, Eq, Structural)]
pub enum UpdateStage {
    Start,
    Titled,
    Checking,
    Branch,
    Headed,
    Before,
    LogBefore,
    LogShown,
    Status,
    Dirty,
    DirtyChoice,
    Stashing,
    DiscardAsked,
    Discarding,
    Cleaned,
    Modes,
    ModeAsked,
    FetchAnnounced,
    Fetching,
    Fetched,
    NewLog,
    NewCount,
    NewShown,
    ContinueAsked,
    Unstashing,
    Pulling,
    Rebasing,
    Conflicted,
    Reminded,
    Merged,
    RestoreAsked,
    Restoring,
    PopFailed,
    Restored,
    LogAfter,
    AfterShown,
    Ahead,
    UnpushedShown,
    PushAsked,
    Pushing,
    Finishing,
    Finished,
    Done,
}

/// The update dialogue (`do_update`).
pub struct UpdateFlow {
    pub stage: UpdateStage,
    pub remote: String,
    pub branch: String,
    pub current: String,
    pub stashed: bool,
    pub mode: String,
    pub new_log: String,
    pub error: String,
    pub push: PushFlow,
}

pub struct UpdateModel {
    pub stage: UpdateStage,
    pub remote: Seq<char>,
    pub branch: Seq<char>,
    pub current: Seq<char>,
    pub stashed: bool,
    pub mode: Seq<char>,
    pub new_log: Seq<char>,
    pub error: Seq<char>,
    pub push: PushModel,
}

impl View for UpdateFlow {
    type V = UpdateModel;

    open spec fn view(&self) -> UpdateModel {
        UpdateModel {
            stage: self.stage,
            remote: self.remote@,
            branch: self.branch@,
            current: self.current@,
            stashed: self.stashed,
            mode: self.mode@,
            new_log: self.new_log@,
            error: self.error@,
            push: self.push@,
        }
    }
}

pub open spec fn update_push_start(m: UpdateModel) -> PushModel {
    PushModel {
        stage: PushStage::Start,
        question: "是否现在推送本地提交？"@,
        remote: m.remote,
        branch: m.branch,
        force: false,
    }
}

pub open spec fn update_start(c: ConfigView) -> UpdateModel {
    let m = UpdateModel {
        stage: UpdateStage::Start,
        remote: c.git_remote_name,
        branch: c.git_branch,
        current: Seq::empty(),
        stashed: false,
        mode: Seq::empty(),
        new_log: Seq::empty(),
        error: Seq::empty(),
        push: PushModel {
            stage: PushStage::Start,
            question: "是否现在推送本地提交？"@,
            remote: c.git_remote_name,
            branch: c.git_branch,
            force: false,
        },
    };
    m
}

pub open spec fn update_awaits(m: UpdateModel) -> Awaits {
    match m.stage {
        UpdateStage::Start => Awaits::Begin,
        UpdateStage::Titled => Awaits::Shown,
        UpdateStage::Checking => Awaits::Flag,
        UpdateStage::Branch => Awaits::Read,
        UpdateStage::Headed => Awaits::Shown,
        UpdateStage::Before => Awaits::Shown,
        UpdateStage::LogBefore => Awaits::Read,
        UpdateStage::LogShown => Awaits::Shown,
        UpdateStage::Status => Awaits::Read,
        UpdateStage::Dirty => Awaits::Shown,
        UpdateStage::DirtyChoice => Awaits::Answer,
        UpdateStage::Stashing => Awaits::Ran,
        UpdateStage::DiscardAsked => Awaits::Flag,
        UpdateStage::Discarding => Awaits::Ran,
        UpdateStage::Cleaned => Awaits::Shown,
        UpdateStage::Modes => Awaits::Shown,
        UpdateStage::ModeAsked => Awaits::Answer,
        UpdateStage::FetchAnnounced => Awaits::Shown,
        UpdateStage::Fetching => Awaits::Ran,
        UpdateStage::Fetched => Awaits::Shown,
        UpdateStage::NewLog => Awaits::Read,
        UpdateStage::NewCount => Awaits::Read,
        UpdateStage::NewShown => Awaits::Shown,
        UpdateStage::ContinueAsked => Awaits::Flag,
        UpdateStage::Unstashing => Awaits::Ran,
        UpdateStage::Pulling => Awaits::Ran,
        UpdateStage::Rebasing => Awaits::Ran,
        UpdateStage::Conflicted => Awaits::Shown,
        UpdateStage::Reminded => Awaits::Shown,
        UpdateStage::Merged => Awaits::Shown,
        UpdateStage::RestoreAsked => Awaits::Flag,
        UpdateStage::Restoring => Awaits::Ran,
        UpdateStage::PopFailed => Awaits::Shown,
        UpdateStage::Restored => Awaits::Shown,
        UpdateStage::LogAfter => Awaits::Read,
        UpdateStage::AfterShown => Awaits::Shown,
        UpdateStage::Ahead => Awaits::Read,
        UpdateStage::UnpushedShown => Awaits::Shown,
        UpdateStage::PushAsked => Awaits::Flag,
        UpdateStage::Pushing => push_awaits(m.push),
        UpdateStage::Finishing => Awaits::Shown,
        UpdateStage::Finished => Awaits::Shown,
        UpdateStage::Done => Awaits::Nothing,
    }
}

/// `current..remote/branch`: the remote commits the current branch lacks.
pub open spec fn incoming_range(m: UpdateModel) -> Seq<char> {
    m.current + ".."@ + remote_ref(m.remote, m.branch)
}

pub open spec fn update_to(m: UpdateModel, stage: UpdateStage, a: ActionView) -> (UpdateModel, ActionView) {
    (UpdateModel { stage, ..m }, a)
}

/// After the merge step: offer to restore a stash (not after a fetch-only
/// update), else go on to the final state.
pub open spec fn update_after_merge(m: UpdateModel) -> (UpdateModel, ActionView) {
    if m.stashed && m.mode != "2"@ {
        update_to(m, UpdateStage::RestoreAsked, ActionView::Confirm(Question::RestoreStash, seq![], true))
    } else {
        update_to(m, UpdateStage::LogAfter, ActionView::GitRead(seq!["log"@, "--oneline"@, "-5"@]))
    }
}

/// Updates from `remote/branch`: outside a repository an error; shows the
/// current branch and the last five commits; uncommitted changes are stashed
/// (choice 1, the default), discarded with `git reset --hard HEAD` after a
/// confirmation (choice 2), or the update is cancelled with an error; the way
/// to update is asked (1 pull, 2 fetch only, 3 pull with rebase; default 1),
/// the remote is fetched and the incoming commits and their number shown;
/// declining to go on restores a stash and ends; a pull or rebase conflict is
/// reported (with a reminder of a stash) and its error is the result; an
/// unknown way is an error; after a merge a stash may be restored; finally
/// the last five commits are shown and, with local commits ahead of the
/// remote branch, a push may follow.
#[verifier::opaque]
pub open spec fn update_next(m: UpdateModel, e: EventView) -> (UpdateModel, ActionView) {
    match (m.stage, e) {
        (UpdateStage::Start, _) => update_to(m, UpdateStage::Titled, ActionView::Show(Notice::UpdateTitle, seq![])),
        (UpdateStage::Titled, EventView::Shown) => update_to(m, UpdateStage::Checking, ActionView::CheckRepo),
        (UpdateStage::Checking, EventView::Flag(repo)) => if !repo {
            update_to(m, UpdateStage::Done, ActionView::Finish(Err("当前目录不是 Git 仓库"@)))
        } else {
            update_to(
                m,
                UpdateStage::Branch,
                ActionView::GitRead(seq!["symbolic-ref"@, "--short"@, "HEAD"@]),
            )
        },
        (UpdateStage::Branch, EventView::Read(r)) => {
            let current = default_branch(r);
            (
                UpdateModel { stage: UpdateStage::Headed, current, ..m },
                ActionView::Show(Notice::UpdateHeader, seq![current, m.remote, m.branch]),
            )
        },
        (UpdateStage::Headed, EventView::Shown) => update_to(
            m,
            UpdateStage::Before,
            ActionView::Show(Notice::StateBefore, seq![]),
        ),
        (UpdateStage::Before, EventView::Shown) => update_to(
            m,
            UpdateStage::LogBefore,
            ActionView::GitRead(seq!["log"@, "--oneline"@, "-5"@]),
        ),
        (UpdateStage::LogBefore, EventView::Read(Err(err))) => update_to(
            m,
            UpdateStage::Done,
            ActionView::Finish(Err(err)),
        ),
        (UpdateStage::LogBefore, EventView::Read(Ok(log))) => update_to(
            m,
            UpdateStage::LogShown,
            ActionView::Show(Notice::LogBlock, seq![log]),
        ),
        (UpdateStage::LogShown, EventView::Shown) => update_to(
            m,
            UpdateStage::Status,
            ActionView::GitRead(seq!["status"@, "--porcelain"@]),
        ),
        (UpdateStage::Status, EventView::Read(Err(err))) => update_to(
            m,
            UpdateStage::Done,
            ActionView::Finish(Err(err)),
        ),
        (UpdateStage::Status, EventView::Read(Ok(status))) => if status.len() > 0 {
            update_to(m, UpdateStage::Dirty, ActionView::Show(Notice::DirtyTree, seq![status]))
        } else {
            update_to(m, UpdateStage::Modes, ActionView::Show(Notice::UpdateModes, seq![]))
        },
        (UpdateStage::Dirty, EventView::Shown) => update_to(
            m,
            UpdateStage::DirtyChoice,
            ActionView::Ask(Question::DirtyTreeChoice, seq![], "1"@),
        ),
        (UpdateStage::DirtyChoice, EventView::Answered(c)) => if c == "1"@ {
            update_to(m, UpdateStage::Stashing, ActionView::Git(seq!["stash"@]))
        } else if c == "2"@ {
            update_to(m, UpdateStage::DiscardAsked, ActionView::Confirm(Question::ConfirmDiscard, seq![], false))
        } else {
            update_to(m, UpdateStage::Done, ActionView::Finish(Err("取消更新"@)))
        },
        (UpdateStage::Stashing, EventView::Ran(Err(err))) => update_to(
            m,
            UpdateStage::Done,
            ActionView::Finish(Err(err)),
        ),
        (UpdateStage::Stashing, EventView::Ran(Ok(()))) => (
            UpdateModel { stage: UpdateStage::Cleaned, stashed: true, ..m },
            ActionView::Show(Notice::Stashed, seq![]),
        ),
        (UpdateStage::DiscardAsked, EventView::Flag(yes)) => if !yes {
            update_to(m, UpdateStage::Done, ActionView::Finish(Err("取消更新"@)))
        } else {
            update_to(
                m,
                UpdateStage::Discarding,
                ActionView::Git(seq!["reset"@, "--hard"@, "HEAD"@]),
            )
        },
        (UpdateStage::Discarding, EventView::Ran(Err(err))) => update_to(
            m,
            UpdateStage::Done,
            ActionView::Finish(Err(err)),
        ),
        (UpdateStage::Discarding, EventView::Ran(Ok(()))) => update_to(
            m,
            UpdateStage::Cleaned,
            ActionView::Show(Notice::ChangesDiscarded, seq![]),
        ),
        (UpdateStage::Cleaned, EventView::Shown) => update_to(
            m,
            UpdateStage::Modes,
            ActionView::Show(Notice::UpdateModes, seq![]),
        ),
        (UpdateStage::Modes, EventView::Shown) => update_to(
            m,
            UpdateStage::ModeAsked,
            ActionView::Ask(Question::UpdateMode, seq![], "1"@),
        ),
        (UpdateStage::ModeAsked, EventView::Answered(mode)) => (
            UpdateModel { stage: UpdateStage::FetchAnnounced, mode, ..m },
            ActionView::Show(Notice::Fetching, seq![]),
        ),
        (UpdateStage::FetchAnnounced, EventView::Shown) => update_to(
            m,
            UpdateStage::Fetching,
            ActionView::Git(seq!["fetch"@, m.remote]),
        ),
        (UpdateStage::Fetching, EventView::Ran(Err(err))) => update_to(
            m,
            UpdateStage::Done,
            ActionView::Finish(Err(err)),
        ),
        (UpdateStage::Fetching, EventView::Ran(Ok(()))) => update_to(
            m,
            UpdateStage::Fetched,
            ActionView::Show(Notice::Fetched, seq![]),
        ),
        (UpdateStage::Fetched, EventView::Shown) => update_to(
            m,
            UpdateStage::NewLog,
            ActionView::GitRead(seq!["log"@, "--oneline"@, incoming_range(m)]),
        ),
        (UpdateStage::NewLog, EventView::Read(r)) => (
            UpdateModel {
                stage: UpdateStage::NewCount,
                new_log: match r {
                    Ok(log) => log,
                    Err(_) => "（无新提交或分支不存在）"@,
                },
                ..m
            },
            ActionView::GitRead(seq!["rev-list"@, "--count"@, incoming_range(m)]),
        ),
        (UpdateStage::NewCount, EventView::Read(r)) => update_to(
            m,
            UpdateStage::NewShown,
            ActionView::Show(
                Notice::NewCommits,
                seq![
                    m.remote,
                    m.branch,
                    m.new_log,
                    trimmed(
                        match r {
                            Ok(t) => t,
                            Err(_) => "0"@,
                        },
                    ),
                ],
            ),
        ),
        (UpdateStage::NewShown, EventView::Shown) => update_to(
            m,
            UpdateStage::ContinueAsked,
            ActionView::Confirm(Question::ContinueUpdate, seq![], true),
        ),
        (UpdateStage::ContinueAsked, EventView::Flag(go)) => if !go {
            if m.stashed {
                update_to(m, UpdateStage::Unstashing, ActionView::Git(seq!["stash"@, "pop"@]))
            } else {
                update_to(m, UpdateStage::Done, ActionView::Finish(Ok(())))
            }
        } else if m.mode == "1"@ {
            update_to(m, UpdateStage::Pulling, ActionView::Git(seq!["pull"@, m.remote, m.branch]))
        } else if m.mode == "2"@ {
            update_to(m, UpdateStage::Merged, ActionView::Show(Notice::ManualMergeHint, seq![m.remote, m.branch]))
        } else if m.mode == "3"@ {
            update_to(
                m,
                UpdateStage::Rebasing,
                ActionView::Git(seq!["pull"@, "--rebase"@, m.remote, m.branch]),
            )
        } else {
            update_to(m, UpdateStage::Done, ActionView::Finish(Err("无效的更新方式"@)))
        },
        (UpdateStage::Unstashing, EventView::Ran(r)) => update_to(m, UpdateStage::Done, ActionView::Finish(r)),
        (UpdateStage::Pulling, EventView::Ran(Err(err))) => (
            UpdateModel { stage: UpdateStage::Conflicted, error: err, ..m },
            ActionView::Show(Notice::PullConflict, seq![]),
        ),
        (UpdateStage::Pulling, EventView::Ran(Ok(()))) => update_to(
            m,
            UpdateStage::Merged,
            ActionView::Show(Notice::Pulled, seq![]),
        ),
        (UpdateStage::Rebasing, EventView::Ran(Err(err))) => (
            UpdateModel { stage: UpdateStage::Conflicted, error: err, ..m },
            ActionView::Show(Notice::RebaseConflict, seq![]),
        ),
        (UpdateStage::Rebasing, EventView::Ran(Ok(()))) => update_to(
            m,
            UpdateStage::Merged,
            ActionView::Show(Notice::Rebased, seq![]),
        ),
        (UpdateStage::Conflicted, EventView::Shown) => if m.stashed {
            update_to(m, UpdateStage::Reminded, ActionView::Show(Notice::StashReminder, seq![]))
        } else {
            update_to(m, UpdateStage::Done, ActionView::Finish(Err(m.error)))
        },
        (UpdateStage::Reminded, EventView::Shown) => update_to(
            m,
            UpdateStage::Done,
            ActionView::Finish(Err(m.error)),
        ),
        (UpdateStage::Merged, EventView::Shown) => update_after_merge(m),
        (UpdateStage::RestoreAsked, EventView::Flag(yes)) => if yes {
            update_to(m, UpdateStage::Restoring, ActionView::Git(seq!["stash"@, "pop"@]))
        } else {
            update_to(m, UpdateStage::Restored, ActionView::Show(Notice::StashKept, seq![]))
        },
        (UpdateStage::Restoring, EventView::Ran(Err(err))) => (
            UpdateModel { stage: UpdateStage::PopFailed, error: err, ..m },
            ActionView::Show(Notice::StashPopConflict, seq![]),
        ),
        (UpdateStage::Restoring, EventView::Ran(Ok(()))) => update_to(
            m,
            UpdateStage::Restored,
            ActionView::Show(Notice::StashRestored, seq![]),
        ),
        (UpdateStage::PopFailed, EventView::Shown) => update_to(
            m,
            UpdateStage::Done,
            ActionView::Finish(Err(m.error)),
        ),
        (UpdateStage::Restored, EventView::Shown) => update_to(
            m,
            UpdateStage::LogAfter,
            ActionView::GitRead(seq!["log"@, "--oneline"@, "-5"@]),
        ),
        (UpdateStage::LogAfter, EventView::Read(Err(err))) => update_to(
            m,
            UpdateStage::Done,
            ActionView::Finish(Err(err)),
        ),
        (UpdateStage::LogAfter, EventView::Read(Ok(log))) => update_to(
            m,
            UpdateStage::AfterShown,
            ActionView::Show(Notice::StateAfter, seq![log]),
        ),
        (UpdateStage::AfterShown, EventView::Shown) => update_to(
            m,
            UpdateStage::Ahead,
            ActionView::GitRead(seq!["rev-list"@, "--count"@, remote_ref(m.remote, m.branch) + "..HEAD"@]),
        ),
        (UpdateStage::Ahead, EventView::Read(r)) => {
            let n = reported_count(r);
            if n > 0 {
                update_to(
                    m,
                    UpdateStage::UnpushedShown,
                    ActionView::Show(Notice::Unpushed, seq![signed_decimal(n as int)]),
                )
            } else {
                update_to(m, UpdateStage::Finishing, ActionView::Show(Notice::InSync, seq![]))
            }
        },
        (UpdateStage::UnpushedShown, EventView::Shown) => update_to(
            m,
            UpdateStage::PushAsked,
            ActionView::Confirm(Question::PushAfterUpdate, seq![], true),
        ),
        (UpdateStage::PushAsked, EventView::Flag(yes)) => if yes {
            let (p, a) = push_next(update_push_start(m), EventView::Begin);
            (UpdateModel { stage: UpdateStage::Pushing, push: p, ..m }, a)
        } else {
            update_to(m, UpdateStage::Finished, ActionView::Show(Notice::UpdateFinished, seq![]))
        },
        (UpdateStage::Pushing, _) => {
            let (p, a) = push_next(m.push, e);
            match a {
                ActionView::Finish(Err(err)) => (
                    UpdateModel { stage: UpdateStage::Done, push: p, ..m },
                    ActionView::Finish(Err(err)),
                ),
                ActionView::Finish(Ok(())) => (
                    UpdateModel { stage: UpdateStage::Finished, push: p, ..m },
                    ActionView::Show(Notice::UpdateFinished, seq![]),
                ),
                _ => (UpdateModel { push: p, ..m }, a),
            }
        },
        (UpdateStage::Finishing, EventView::Shown) => update_to(
            m,
            UpdateStage::Finished,
            ActionView::Show(Notice::UpdateFinished, seq![]),
        ),
        (UpdateStage::Finished, EventView::Shown) => update_to(
            m,
            UpdateStage::Done,
            ActionView::Finish(Ok(())),
        ),
        _ => (m, ActionView::Finish(Ok(()))),
    }
}

/// Law: asked whether to discard the uncommitted changes (default no), the
/// update runs `git reset --hard HEAD` only on a yes and is cancelled with
/// an error on a no; asked whether to go on (default yes), a no restores a
/// stash with `git stash pop` where one was made, else ends with success,
/// and pulls nothing.
pub proof fn lemma_update_questions_as_answered(m: UpdateModel, e: EventView)
    requires
        fits(update_awaits(m), e),
    ensures
        update_next(m, e).0.stage is DiscardAsked ==> update_next(m, e).1 == ActionView::Confirm(
            Question::ConfirmDiscard,
            seq![],
            false,
        ),
        m.stage is DiscardAsked && e == EventView::Flag(true) ==> update_next(m, e).1
            == ActionView::Git(seq!["reset"@, "--hard"@, "HEAD"@]),
        m.stage is DiscardAsked && e == EventView::Flag(false) ==> update_next(m, e).1
            == ActionView::Finish(Err("取消更新"@)),
        m.stage is ContinueAsked && e == EventView::Flag(false) ==> update_next(m, e).1 == if m.stashed {
            ActionView::Git(seq!["stash"@, "pop"@])
        } else {
            ActionView::Finish(Ok(()))
        },
        update_next(m, e).1 == ActionView::Git(seq!["reset"@, "--hard"@, "HEAD"@]) ==> m.stage is DiscardAsked
            && e == EventView::Flag(true),
{
    reveal(update_next);
    reveal_strlit("reset");
    reveal_strlit("stash");
    reveal_strlit("pull");
    reveal_strlit("fetch");
    reveal_strlit("push");
    assert("stash"@[0] != "reset"@[0]);
    assert("pull"@[0] != "reset"@[0]);
    assert("fetch"@[0] != "reset"@[0]);
    assert("push"@[0] != "reset"@[0]);
    let a = update_next(m, e).1;
    if a == ActionView::Git(seq!["reset"@, "--hard"@, "HEAD"@]) {
        assert(a->Git_0[0] == "reset"@);
        assert(a->Git_0.len() == 3);
    }
    if m.stage is Pushing {
        let (p, b) = push_next(m.push, e);
        if b is Git {
            assert(b->Git_0[0] == "push"@);
        }
    }
}

/// Law: after the update, with `git rev-list --count` printing a positive
/// count `n` of local commits ahead of the remote branch, the update reports
/// `n` unpushed commits and offers to push them (default yes); with 0, or no
/// count, it reports that local and remote agree and pushes nothing.
pub proof fn lemma_update_follows_ahead_count(m: UpdateModel, n: nat, err: Seq<char>)
    requires
        m.stage is Ahead,
        n <= 0x7fff_ffff,
    ensures
        n > 0 ==> {
            let (p, a) = update_next(m, EventView::Read(Ok(decimal(n) + seq!['\n'])));
            &&& a == ActionView::Show(Notice::Unpushed, seq![decimal(n)])
            &&& update_next(p, EventView::Shown).1 == ActionView::Confirm(
                Question::PushAfterUpdate,
                seq![],
                true,
            )
        },
        n == 0 ==> update_next(m, EventView::Read(Ok(decimal(n) + seq!['\n']))).1
            == ActionView::Show(Notice::InSync, seq![]),
        update_next(m, EventView::Read(Err(err))).1 == ActionView::Show(Notice::InSync, seq![]),
{
    reveal(update_next);
    lemma_printed_number(n);
    lemma_printed_number(0);
    reveal_strlit("0");
    assert("0"@ =~= decimal(0));
}

impl UpdateFlow {
    pub fn new(config: &Config) -> (f: UpdateFlow)
        ensures
            f@ == update_start(config@),
    {
        UpdateFlow {
            stage: UpdateStage::Start,
            remote: config.git_remote_name.clone(),
            branch: config.git_branch.clone(),
            current: String::new(),
            stashed: false,
            mode: String::new(),
            new_log: String::new(),
            error: String::new(),
            push: PushFlow::new("是否现在推送本地提交？", config),
        }
    }

    fn to(&mut self, stage: UpdateStage, a: Action) -> (r: Action)
        ensures
            (final(self)@, r@) == update_to(old(self)@, stage, a@),
    {
        self.stage = stage;
        a
    }

    fn incoming(&self) -> (r: String)
        ensures
            r@ == incoming_range(self@),
    {
        let mut r = joined(self.current.as_str(), "..");
        let rr = remote_ref_of(self.remote.as_str(), self.branch.as_str());
        r.append(rr.as_str());
        r
    }

    fn after_merge(&mut self) -> (a: Action)
        ensures
            (final(self)@, a@) == update_after_merge(old(self)@),
    {
        if self.stashed && !same_text(self.mode.as_str(), "2") {
            let a = confirm(Question::RestoreStash, vec![], true);
            assert(strs(seq![]) =~= seq![]);
            self.to(UpdateStage::RestoreAsked, a)
        } else {
            let parts = vec!["log", "--oneline", "-5"];
            assert(strs(parts@) =~= seq!["log"@, "--oneline"@, "-5"@]);
            let a = git_read(parts);
            self.to(UpdateStage::LogAfter, a)
        }
    }

    /// Steps up to the choice of how to update.
    fn early(&mut self, event: Event) -> (a: Action)
        requires
            fits(update_awaits(old(self)@), event@),
            old(self)@.stage is Start || old(self)@.stage is Titled || old(self)@.stage is Checking
                || old(self)@.stage is Branch
                || old(self)@.stage is Headed || old(self)@.stage is Before
                || old(self)@.stage is LogBefore || old(self)@.stage is LogShown
                || old(self)@.stage is Status || old(self)@.stage is Dirty
                || old(self)@.stage is DirtyChoice || old(self)@.stage is Stashing
                || old(self)@.stage is DiscardAsked || old(self)@.stage is Discarding
                || old(self)@.stage is Cleaned || old(self)@.stage is Modes,
        ensures
            (final(self)@, a@) == update_next(old(self)@, event@),
    {
        proof {
            reveal(update_next);
        }
        match self.stage {
            UpdateStage::Start => {
                let a = show(Notice::UpdateTitle, vec![]);
                assert(strs(seq![]) =~= seq![]);
                self.to(UpdateStage::Titled, a)
            },
            UpdateStage::Titled => self.to(UpdateStage::Checking, Action::CheckRepo),
            UpdateStage::Checking => match event {
                Event::Flag(repo) => {
                    if !repo {
                        self.to(UpdateStage::Done, finish_err("当前目录不是 Git 仓库"))
                    } else {
                        let parts = vec!["symbolic-ref", "--short", "HEAD"];
                        assert(strs(parts@) =~= seq!["symbolic-ref"@, "--short"@, "HEAD"@]);
                        self.to(UpdateStage::Branch, git_read(parts))
                    }
                },
                _ => vstd::pervasive::unreached(),
            },
            UpdateStage::Branch => match event {
                Event::Read(r) => {
                    self.current = get_default_branch(&r);
                    let parts = vec![self.current.as_str(), self.remote.as_str(), self.branch.as_str()];
                    assert(strs(parts@) =~= seq![self.current@, self.remote@, self.branch@]);
                    let a = show(Notice::UpdateHeader, parts);
                    self.to(UpdateStage::Headed, a)
                },
                _ => vstd::pervasive::unreached(),
            },
            UpdateStage::Headed => {
                let a = show(Notice::StateBefore, vec![]);
                assert(strs(seq![]) =~= seq![]);
                self.to(UpdateStage::Before, a)
            },
            UpdateStage::Before => {
                let parts = vec!["log", "--oneline", "-5"];
                assert(strs(parts@) =~= seq!["log"@, "--oneline"@, "-5"@]);
                self.to(UpdateStage::LogBefore, git_read(parts))
            },
            UpdateStage::LogBefore => match event {
                Event::Read(Err(err)) => self.to(UpdateStage::Done, Action::Finish { result: Err(err) }),
                Event::Read(Ok(log)) => {
                    let parts = vec![log.as_str()];
                    assert(strs(parts@) =~= seq![log@]);
                    let a = show(Notice::LogBlock, parts);
                    self.to(UpdateStage::LogShown, a)
                },
                _ => vstd::pervasive::unreached(),
            },
            UpdateStage::LogShown => {
                let parts = vec!["status", "--porcelain"];
                assert(strs(parts@) =~= seq!["status"@, "--porcelain"@]);
                self.to(UpdateStage::Status, git_read(parts))
            },
            UpdateStage::Status => match event {
                Event::Read(Err(err)) => self.to(UpdateStage::Done, Action::Finish { result: Err(err) }),
                Event::Read(Ok(status)) => {
                    if !status.as_str().is_empty() {
                        let parts = vec![status.as_str()];
                        assert(strs(parts@) =~= seq![status@]);
                        let a = show(Notice::DirtyTree, parts);
                        self.to(UpdateStage::Dirty, a)
                    } else {
                        let a = show(Notice::UpdateModes, vec![]);
                        assert(strs(seq![]) =~= seq![]);
                        self.to(UpdateStage::Modes, a)
                    }
                },
                _ => vstd::pervasive::unreached(),
            },
            UpdateStage::Dirty => {
                let a = ask(Question::DirtyTreeChoice, vec![], "1");
                assert(strs(seq![]) =~= seq![]);
                self.to(UpdateStage::DirtyChoice, a)
            },
            UpdateStage::DirtyChoice => match event {
                Event::Answered(c) => {
                    if same_text(c.as_str(), "1") {
                        let parts = vec!["stash"];
                        assert(strs(parts@) =~= seq!["stash"@]);
                        self.to(UpdateStage::Stashing, git(parts))
                    } else if same_text(c.as_str(), "2") {
                        let a = confirm(Question::ConfirmDiscard, vec![], false);
                        assert(strs(seq![]) =~= seq![]);
                        self.to(UpdateStage::DiscardAsked, a)
                    } else {
                        self.to(UpdateStage::Done, finish_err("取消更新"))
                    }
                },
                _ => vstd::pervasive::unreached(),
            },
            UpdateStage::Stashing => match event {
                Event::Ran(Err(err)) => self.to(UpdateStage::Done, Action::Finish { result: Err(err) }),
                Event::Ran(Ok(())) => {
                    self.stashed = true;
                    let a = show(Notice::Stashed, vec![]);
                    assert(strs(seq![]) =~= seq![]);
                    self.to(UpdateStage::Cleaned, a)
                },
                _ => vstd::pervasive::unreached(),
            },
            UpdateStage::DiscardAsked => match event {
                Event::Flag(yes) => {
                    if !yes {
                        self.to(UpdateStage::Done, finish_err("取消更新"))
                    } else {
                        let parts = vec!["reset", "--hard", "HEAD"];
                        assert(strs(parts@) =~= seq!["reset"@, "--hard"@, "HEAD"@]);
                        self.to(UpdateStage::Discarding, git(parts))
                    }
                },
                _ => vstd::pervasive::unreached(),
            },
            UpdateStage::Discarding => match event {
                Event::Ran(Err(err)) => self.to(UpdateStage::Done, Action::Finish { result: Err(err) }),
                Event::Ran(Ok(())) => {
                    let a = show(Notice::ChangesDiscarded, vec![]);
                    assert(strs(seq![]) =~= seq![]);
                    self.to(UpdateStage::Cleaned, a)
                },
                _ => vstd::pervasive::unreached(),
            },
            UpdateStage::Cleaned => {
                let a = show(Notice::UpdateModes, vec![]);
                assert(strs(seq![]) =~= seq![]);
                self.to(UpdateStage::Modes, a)
            },
            UpdateStage::Modes => {
                let a = ask(Question::UpdateMode, vec![], "1");
                assert(strs(seq![]) =~= seq![]);
                self.to(UpdateStage::ModeAsked, a)
            },
            _ => vstd::pervasive::unreached(),
        }
    }

    /// Steps from the choice of how to update to the merge.
    fn middle(&mut self, event: Event) -> (a: Action)
        requires
            fits(update_awaits(old(self)@), event@),
            old(self)@.stage is ModeAsked || old(self)@.stage is FetchAnnounced
                || old(self)@.stage is Fetching || old(self)@.stage is Fetched
                || old(self)@.stage is NewLog || old(self)@.stage is NewCount
                || old(self)@.stage is NewShown || old(self)@.stage is ContinueAsked
                || old(self)@.stage is Unstashing || old(self)@.stage is Pulling
                || old(self)@.stage is Rebasing || old(self)@.stage is Conflicted
                || old(self)@.stage is Reminded,
        ensures
            (final(self)@, a@) == update_next(old(self)@, event@),
    {
        proof {
            reveal(update_next);
        }
        match self.stage {
            UpdateStage::ModeAsked => match event {
                Event::Answered(mode) => {
                    self.mode = mode;
                    let a = show(Notice::Fetching, vec![]);
                    assert(strs(seq![]) =~= seq![]);
                    self.to(UpdateStage::FetchAnnounced, a)
                },
                _ => vstd::pervasive::unreached(),
            },
            UpdateStage::FetchAnnounced => {
                let parts = vec!["fetch", self.remote.as_str()];
                assert(strs(parts@) =~= seq!["fetch"@, self.remote@]);
                self.to(UpdateStage::Fetching, git(parts))
            },
            UpdateStage::Fetching => match event {
                Event::Ran(Err(err)) => self.to(UpdateStage::Done, Action::Finish { result: Err(err) }),
                Event::Ran(Ok(())) => {
                    let a = show(Notice::Fetched, vec![]);
                    assert(strs(seq![]) =~= seq![]);
                    self.to(UpdateStage::Fetched, a)
                },
                _ => vstd::pervasive::unreached(),
            },
            UpdateStage::Fetched => {
                let range = self.incoming();
                let parts = vec!["log", "--oneline", range.as_str()];
                assert(strs(parts@) =~= seq!["log"@, "--oneline"@, incoming_range(self@)]);
                self.to(UpdateStage::NewLog, git_read(parts))
            },
            UpdateStage::NewLog => match event {
                Event::Read(r) => {
                    self.new_log = match r {
                        Ok(log) => log,
                        Err(_) => "（无新提交或分支不存在）".to_owned(),
                    };
                    let range = self.incoming();
                    let parts = vec!["rev-list", "--count", range.as_str()];
                    assert(strs(parts@) =~= seq!["rev-list"@, "--count"@, incoming_range(self@)]);
                    self.to(UpdateStage::NewCount, git_read(parts))
                },
                _ => vstd::pervasive::unreached(),
            },
            UpdateStage::NewCount => match event {
                Event::Read(r) => {
                    let text = match r {
                        Ok(t) => t,
                        Err(_) => "0".to_owned(),
                    };
                    let count = trim_text(text.as_str());
                    let parts = vec![self.remote.as_str(), self.branch.as_str(), self.new_log.as_str(), count.as_str()];
                    assert(strs(parts@) =~= seq![self.remote@, self.branch@, self.new_log@, count@]);
                    let a = show(Notice::NewCommits, parts);
                    self.to(UpdateStage::NewShown, a)
                },
                _ => vstd::pervasive::unreached(),
            },
            UpdateStage::NewShown => {
                let a = confirm(Question::ContinueUpdate, vec![], true);
                assert(strs(seq![]) =~= seq![]);
                self.to(UpdateStage::ContinueAsked, a)
            },
            UpdateStage::ContinueAsked => match event {
                Event::Flag(go) => {
                    if !go {
                        if self.stashed {
                            let parts = vec!["stash", "pop"];
                            assert(strs(parts@) =~= seq!["stash"@, "pop"@]);
                            self.to(UpdateStage::Unstashing, git(parts))
                        } else {
                            self.to(UpdateStage::Done, finish_ok())
                        }
                    } else if same_text(self.mode.as_str(), "1") {
                        let parts = vec!["pull", self.remote.as_str(), self.branch.as_str()];
                        assert(strs(parts@) =~= seq!["pull"@, self.remote@, self.branch@]);
                        self.to(UpdateStage::Pulling, git(parts))
                    } else if same_text(self.mode.as_str(), "2") {
                        let parts = vec![self.remote.as_str(), self.branch.as_str()];
                        assert(strs(parts@) =~= seq![self.remote@, self.branch@]);
                        let a = show(Notice::ManualMergeHint, parts);
                        self.to(UpdateStage::Merged, a)
                    } else if same_text(self.mode.as_str(), "3") {
                        let parts = vec!["pull", "--rebase", self.remote.as_str(), self.branch.as_str()];
                        assert(strs(parts@) =~= seq!["pull"@, "--rebase"@, self.remote@, self.branch@]);
                        self.to(UpdateStage::Rebasing, git(parts))
                    } else {
                        self.to(UpdateStage::Done, finish_err("无效的更新方式"))
                    }
                },
                _ => vstd::pervasive::unreached(),
            },
            UpdateStage::Unstashing => match event {
                Event::Ran(r) => self.to(UpdateStage::Done, Action::Finish { result: r }),
                _ => vstd::pervasive::unreached(),
            },
            UpdateStage::Pulling => match event {
                Event::Ran(Err(err)) => {
                    self.error = err;
                    let a = show(Notice::PullConflict, vec![]);
                    assert(strs(seq![]) =~= seq![]);
                    self.to(UpdateStage::Conflicted, a)
                },
                Event::Ran(Ok(())) => {
                    let a = show(Notice::Pulled, vec![]);
                    assert(strs(seq![]) =~= seq![]);
                    self.to(UpdateStage::Merged, a)
                },
                _ => vstd::pervasive::unreached(),
            },
            UpdateStage::Rebasing => match event {
                Event::Ran(Err(err)) => {
                    self.error = err;
                    let a = show(Notice::RebaseConflict, vec![]);
                    assert(strs(seq![]) =~= seq![]);
                    self.to(UpdateStage::Conflicted, a)
                },
                Event::Ran(Ok(())) => {
                    let a = show(Notice::Rebased, vec![]);
                    assert(strs(seq![]) =~= seq![]);
                    self.to(UpdateStage::Merged, a)
                },
                _ => vstd::pervasive::unreached(),
            },
            UpdateStage::Conflicted => {
                if self.stashed {
                    let a = show(Notice::StashReminder, vec![]);
                    assert(strs(seq![]) =~= seq![]);
                    self.to(UpdateStage::Reminded, a)
                } else {
                    let r = Action::Finish { result: Err(self.error.clone()) };
                    self.to(UpdateStage::Done, r)
                }
            },
            UpdateStage::Reminded => {
                let r = Action::Finish { result: Err(self.error.clone()) };
                self.to(UpdateStage::Done, r)
            },
            _ => vstd::pervasive::unreached(),
        }
    }

    /// Steps from the merge to the end.
    fn late(&mut self, event: Event) -> (a: Action)
        requires
            fits(update_awaits(old(self)@), event@),
            old(self)@.stage is Merged || old(self)@.stage is RestoreAsked
                || old(self)@.stage is Restoring || old(self)@.stage is PopFailed
                || old(self)@.stage is Restored || old(self)@.stage is LogAfter
                || old(self)@.stage is AfterShown || old(self)@.stage is Ahead
                || old(self)@.stage is UnpushedShown || old(self)@.stage is PushAsked
                || old(self)@.stage is Pushing || old(self)@.stage is Finishing
                || old(self)@.stage is Finished,
        ensures
            (final(self)@, a@) == update_next(old(self)@, event@),
    {
        proof {
            reveal(update_next);
        }
        match self.stage {
            UpdateStage::Merged => self.after_merge(),
            UpdateStage::RestoreAsked => match event {
                Event::Flag(yes) => {
                    if yes {
                        let parts = vec!["stash", "pop"];
                        assert(strs(parts@) =~= seq!["stash"@, "pop"@]);
                        self.to(UpdateStage::Restoring, git(parts))
                    } else {
                        let a = show(Notice::StashKept, vec![]);
                        assert(strs(seq![]) =~= seq![]);
                        self.to(UpdateStage::Restored, a)
                    }
                },
                _ => vstd::pervasive::unreached(),
            },
            UpdateStage::Restoring => match event {
                Event::Ran(Err(err)) => {
                    self.error = err;
                    let a = show(Notice::StashPopConflict, vec![]);
                    assert(strs(seq![]) =~= seq![]);
                    self.to(UpdateStage::PopFailed, a)
                },
                Event::Ran(Ok(())) => {
                    let a = show(Notice::StashRestored, vec![]);
                    assert(strs(seq![]) =~= seq![]);
                    self.to(UpdateStage::Restored, a)
                },
                _ => vstd::pervasive::unreached(),
            },
            UpdateStage::PopFailed => {
                let r = Action::Finish { result: Err(self.error.clone()) };
                self.to(UpdateStage::Done, r)
            },
            UpdateStage::Restored => {
                let parts = vec!["log", "--oneline", "-5"];
                assert(strs(parts@) =~= seq!["log"@, "--oneline"@, "-5"@]);
                self.to(UpdateStage::LogAfter, git_read(parts))
            },
            UpdateStage::LogAfter => match event {
                Event::Read(Err(err)) => self.to(UpdateStage::Done, Action::Finish { result: Err(err) }),
                Event::Read(Ok(log)) => {
                    let parts = vec![log.as_str()];
                    assert(strs(parts@) =~= seq![log@]);
                    let a = show(Notice::StateAfter, parts);
                    self.to(UpdateStage::AfterShown, a)
                },
                _ => vstd::pervasive::unreached(),
            },
            UpdateStage::AfterShown => {
                let mut range = remote_ref_of(self.remote.as_str(), self.branch.as_str());
                range.append("..HEAD");
                let parts = vec!["rev-list", "--count", range.as_str()];
                assert(strs(parts@) =~= seq!["rev-list"@, "--count"@, remote_ref(self.remote@, self.branch@) + "..HEAD"@]);
                self.to(UpdateStage::Ahead, git_read(parts))
            },
            UpdateStage::Ahead => match event {
                Event::Read(r) => {
                    let n = count_of(r);
                    if n > 0 {
                        let t = i32_text(n);
                        let parts = vec![t.as_str()];
                        assert(strs(parts@) =~= seq![signed_decimal(n as int)]);
                        let a = show(Notice::Unpushed, parts);
                        self.to(UpdateStage::UnpushedShown, a)
                    } else {
                        let a = show(Notice::InSync, vec![]);
                        assert(strs(seq![]) =~= seq![]);
                        self.to(UpdateStage::Finishing, a)
                    }
                },
                _ => vstd::pervasive::unreached(),
            },
            UpdateStage::UnpushedShown => {
                let a = confirm(Question::PushAfterUpdate, vec![], true);
                assert(strs(seq![]) =~= seq![]);
                self.to(UpdateStage::PushAsked, a)
            },
            UpdateStage::PushAsked => match event {
                Event::Flag(yes) => {
                    if yes {
                        self.stage = UpdateStage::Pushing;
                        self.push = PushFlow {
                            stage: PushStage::Start,
                            question: "是否现在推送本地提交？".to_owned(),
                            remote: self.remote.clone(),
                            branch: self.branch.clone(),
                            force: false,
                        };
                        do_push(&mut self.push, Event::Begin)
                    } else {
                        let a = show(Notice::UpdateFinished, vec![]);
                        assert(strs(seq![]) =~= seq![]);
                        self.to(UpdateStage::Finished, a)
                    }
                },
                _ => vstd::pervasive::unreached(),
            },
            UpdateStage::Pushing => {
                let a = do_push(&mut self.push, event);
                match a {
                    Action::Finish { result: Err(err) } => {
                        self.stage = UpdateStage::Done;
                        Action::Finish { result: Err(err) }
                    },
                    Action::Finish { result: Ok(()) } => {
                        self.stage = UpdateStage::Finished;
                        let a = show(Notice::UpdateFinished, vec![]);
                        assert(strs(seq![]) =~= seq![]);
                        a
                    },
                    other => other,
                }
            },
            UpdateStage::Finishing => {
                let a = show(Notice::UpdateFinished, vec![]);
                assert(strs(seq![]) =~= seq![]);
                self.to(UpdateStage::Finished, a)
            },
            UpdateStage::Finished => self.to(UpdateStage::Done, finish_ok()),
            _ => vstd::pervasive::unreached(),
        }
    }
}

/// One step of the update dialogue (`do_update`).
pub fn do_update(flow: &mut UpdateFlow, event: Event) -> (a: Action)
    requires
        fits(update_awaits(old(flow)@), event@),
    ensures
        (final(flow)@, a@) == update_next(old(flow)@, event@),
{
    proof {
        reveal(update_next);
    }
    match flow.stage {
        UpdateStage::Start | UpdateStage::Titled | UpdateStage::Checking | UpdateStage::Branch
        | UpdateStage::Headed
        | UpdateStage::Before | UpdateStage::LogBefore | UpdateStage::LogShown | UpdateStage::Status
        | UpdateStage::Dirty | UpdateStage::DirtyChoice | UpdateStage::Stashing
        | UpdateStage::DiscardAsked | UpdateStage::Discarding | UpdateStage::Cleaned
        | UpdateStage::Modes => flow.early(event),
        UpdateStage::ModeAsked | UpdateStage::FetchAnnounced | UpdateStage::Fetching
        | UpdateStage::Fetched | UpdateStage::NewLog | UpdateStage::NewCount | UpdateStage::NewShown
        | UpdateStage::ContinueAsked | UpdateStage::Unstashing | UpdateStage::Pulling
        | UpdateStage::Rebasing | UpdateStage::Conflicted | UpdateStage::Reminded => flow.middle(event),
        UpdateStage::Done => vstd::pervasive::unreached(),
        _ => flow.late(event),
    }
}

} // verus!
