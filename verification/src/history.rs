//! Undoing history: reverting one commit, resetting the branch to a commit.
use vstd::prelude::*;
use crate::flow::{
    Action, ActionView, Awaits, Event, EventView, Notice, Question, ask, ask_blank, confirm, finish,
    finish_err, finish_ok, fits, git, git_read, show, strs,
};
use crate::text::{joined, same_text};

verus! {

// ---------------------------------------------------------------- revert

#[derive(Debug, Clone, Copy, PartialEq, Eq, Structural)]
pub enum RevertStage {
    Start,
    Headed,
    Listed,
    Shown,
    Cancelled,
    Hash,
    Verifying,
    Confirming,
    Reverting,
    Failed,
    Reverted,
    Done,
}

/// The revert dialogue (`do_revert`).
pub struct RevertFlow {
    pub stage: RevertStage,
    pub hash: String,
    pub error: String,
}

pub struct RevertModel {
    pub stage: RevertStage,
    pub hash: Seq<char>,
    pub error: Seq<char>,
}

impl View for RevertFlow {
    type V = RevertModel;

    open spec fn view(&self) -> RevertModel {
        RevertModel { stage: self.stage, hash: self.hash@, error: self.error@ }
    }
}

pub open spec fn revert_start() -> RevertModel {
    RevertModel { stage: RevertStage::Start, hash: Seq::empty(), error: Seq::empty() }
}

pub open spec fn revert_awaits(m: RevertModel) -> Awaits {
    match m.stage {
        RevertStage::Start => Awaits::Begin,
        RevertStage::Headed => Awaits::Shown,
        RevertStage::Listed => Awaits::Read,
        RevertStage::Shown => Awaits::Shown,
        RevertStage::Cancelled => Awaits::Shown,
        RevertStage::Hash => Awaits::Answer,
        RevertStage::Verifying => Awaits::Ran,
        RevertStage::Confirming => Awaits::Flag,
        RevertStage::Reverting => Awaits::Ran,
        RevertStage::Failed => Awaits::Shown,
        RevertStage::Reverted => Awaits::Shown,
        RevertStage::Done => Awaits::Nothing,
    }
}

/// Shows the last ten commits, asks for a hash (`cancel` ends quietly, an
/// empty one is an error), checks it with `git show --quiet`, and after a
/// confirmation (default no) runs `git revert --no-edit <hash>`, reporting a
/// conflict (with git's error as the result) or the success.
#[verifier::opaque]
pub open spec fn revert_next(m: RevertModel, e: EventView) -> (RevertModel, ActionView) {
    match (m.stage, e) {
        (RevertStage::Start, _) => (
            RevertModel { stage: RevertStage::Headed, ..m },
            ActionView::Show(Notice::RecentCommits, seq![]),
        ),
        (RevertStage::Headed, EventView::Shown) => (
            RevertModel { stage: RevertStage::Listed, ..m },
            ActionView::GitRead(seq!["log"@, "--oneline"@, "-10"@]),
        ),
        (RevertStage::Listed, EventView::Read(Err(err))) => (
            RevertModel { stage: RevertStage::Done, ..m },
            ActionView::Finish(Err(err)),
        ),
        (RevertStage::Listed, EventView::Read(Ok(log))) => (
            RevertModel { stage: RevertStage::Shown, ..m },
            ActionView::Show(Notice::LogBlock, seq![log]),
        ),
        (RevertStage::Shown, EventView::Shown) => (
            RevertModel { stage: RevertStage::Hash, ..m },
            ActionView::Ask(Question::RevertHash, seq![], Seq::empty()),
        ),
        (RevertStage::Hash, EventView::Answered(hash)) => if hash == "cancel"@ {
            (
                RevertModel { stage: RevertStage::Cancelled, ..m },
                ActionView::Show(Notice::RevertCancelled, seq![]),
            )
        } else if hash.len() == 0 {
            (RevertModel { stage: RevertStage::Done, ..m }, ActionView::Finish(Err("提交哈希值不能为空"@)))
        } else {
            (
                RevertModel { stage: RevertStage::Verifying, hash, ..m },
                ActionView::Git(seq!["show"@, "--quiet"@, hash]),
            )
        },
        (RevertStage::Cancelled, EventView::Shown) => (
            RevertModel { stage: RevertStage::Done, ..m },
            ActionView::Finish(Ok(())),
        ),
        (RevertStage::Verifying, EventView::Ran(Err(err))) => (
            RevertModel { stage: RevertStage::Done, ..m },
            ActionView::Finish(Err(err)),
        ),
        (RevertStage::Verifying, EventView::Ran(Ok(()))) => (
            RevertModel { stage: RevertStage::Confirming, ..m },
            ActionView::Confirm(Question::ConfirmRevert, seq![m.hash], false),
        ),
        (RevertStage::Confirming, EventView::Flag(yes)) => if !yes {
            (RevertModel { stage: RevertStage::Done, ..m }, ActionView::Finish(Ok(())))
        } else {
            (
                RevertModel { stage: RevertStage::Reverting, ..m },
                ActionView::Git(seq!["revert"@, "--no-edit"@, m.hash]),
            )
        },
        (RevertStage::Reverting, EventView::Ran(Err(err))) => (
            RevertModel { stage: RevertStage::Failed, error: err, ..m },
            ActionView::Show(Notice::RevertConflict, seq![]),
        ),
        (RevertStage::Reverting, EventView::Ran(Ok(()))) => (
            RevertModel { stage: RevertStage::Reverted, ..m },
            ActionView::Show(Notice::Reverted, seq![]),
        ),
        (RevertStage::Failed, EventView::Shown) => (
            RevertModel { stage: RevertStage::Done, ..m },
            ActionView::Finish(Err(m.error)),
        ),
        (RevertStage::Reverted, EventView::Shown) => (
            RevertModel { stage: RevertStage::Done, ..m },
            ActionView::Finish(Ok(())),
        ),
        _ => (m, ActionView::Finish(Ok(()))),
    }
}

/// Law: the revert dialogue asks "revert <hash>?" (default no) exactly
/// when it stops to confirm; a yes is answered by `git revert --no-edit
/// <hash>`, a no ends the dialogue with success and reverts nothing.
pub proof fn lemma_revert_as_answered(m: RevertModel, e: EventView)
    requires
        fits(revert_awaits(m), e),
    ensures
        revert_next(m, e).0.stage is Confirming <==> revert_next(m, e).1 is Confirm,
        revert_next(m, e).0.stage is Confirming ==> revert_next(m, e).1 == ActionView::Confirm(
            Question::ConfirmRevert,
            seq![revert_next(m, e).0.hash],
            false,
        ),
        m.stage is Confirming && e == EventView::Flag(true) ==> revert_next(m, e).1 == ActionView::Git(
            seq!["revert"@, "--no-edit"@, m.hash],
        ),
        m.stage is Confirming && e == EventView::Flag(false) ==> revert_next(m, e).1
            == ActionView::Finish(Ok(())),
        revert_next(m, e).1 is Git && revert_next(m, e).1->Git_0[0] == "revert"@ ==> m.stage is Confirming
            && e == EventView::Flag(true),
{
    reveal(revert_next);
    reveal_strlit("revert");
    reveal_strlit("show");
    assert("revert"@[0] != "show"@[0]);
}

impl RevertFlow {
    pub fn new() -> (f: RevertFlow)
        ensures
            f@ == revert_start(),
    {
        RevertFlow { stage: RevertStage::Start, hash: String::new(), error: String::new() }
    }
}

/// One step of the revert dialogue (`do_revert`).
pub fn do_revert(flow: &mut RevertFlow, event: Event) -> (a: Action)
    requires
        fits(revert_awaits(old(flow)@), event@),
    ensures
        (final(flow)@, a@) == revert_next(old(flow)@, event@),
{
    proof {
        reveal(revert_next);
    }
    match flow.stage {
        RevertStage::Start => {
            flow.stage = RevertStage::Headed;
            let a = show(Notice::RecentCommits, vec![]);
            assert(strs(seq![]) =~= seq![]);
            a
        },
        RevertStage::Headed => {
            flow.stage = RevertStage::Listed;
            let parts = vec!["log", "--oneline", "-10"];
            assert(strs(parts@) =~= seq!["log"@, "--oneline"@, "-10"@]);
            git_read(parts)
        },
        RevertStage::Listed => match event {
            Event::Read(Err(err)) => {
                flow.stage = RevertStage::Done;
                Action::Finish { result: Err(err) }
            },
            Event::Read(Ok(log)) => {
                flow.stage = RevertStage::Shown;
                let parts = vec![log.as_str()];
                assert(strs(parts@) =~= seq![log@]);
                show(Notice::LogBlock, parts)
            },
            _ => vstd::pervasive::unreached(),
        },
        RevertStage::Shown => {
            flow.stage = RevertStage::Hash;
            let a = ask_blank(Question::RevertHash, vec![]);
            assert(strs(seq![]) =~= seq![]);
            a
        },
        RevertStage::Hash => match event {
            Event::Answered(hash) => {
                if same_text(hash.as_str(), "cancel") {
                    flow.stage = RevertStage::Cancelled;
                    let a = show(Notice::RevertCancelled, vec![]);
                    assert(strs(seq![]) =~= seq![]);
                    a
                } else if hash.as_str().is_empty() {
                    flow.stage = RevertStage::Done;
                    finish_err("提交哈希值不能为空")
                } else {
                    flow.stage = RevertStage::Verifying;
                    let parts = vec!["show", "--quiet", hash.as_str()];
                    assert(strs(parts@) =~= seq!["show"@, "--quiet"@, hash@]);
                    let a = git(parts);
                    flow.hash = hash;
                    a
                }
            },
            _ => vstd::pervasive::unreached(),
        },
        RevertStage::Cancelled => {
            flow.stage = RevertStage::Done;
            finish_ok()
        },
        RevertStage::Verifying => match event {
            Event::Ran(Err(err)) => {
                flow.stage = RevertStage::Done;
                Action::Finish { result: Err(err) }
            },
            Event::Ran(Ok(())) => {
                flow.stage = RevertStage::Confirming;
                let parts = vec![flow.hash.as_str()];
                assert(strs(parts@) =~= seq![flow.hash@]);
                confirm(Question::ConfirmRevert, parts, false)
            },
            _ => vstd::pervasive::unreached(),
        },
        RevertStage::Confirming => match event {
            Event::Flag(yes) => {
                if !yes {
                    flow.stage = RevertStage::Done;
                    finish_ok()
                } else {
                    flow.stage = RevertStage::Reverting;
                    let parts = vec!["revert", "--no-edit", flow.hash.as_str()];
                    assert(strs(parts@) =~= seq!["revert"@, "--no-edit"@, flow.hash@]);
                    git(parts)
                }
            },
            _ => vstd::pervasive::unreached(),
        },
        RevertStage::Reverting => match event {
            Event::Ran(Err(err)) => {
                flow.stage = RevertStage::Failed;
                flow.error = err;
                let a = show(Notice::RevertConflict, vec![]);
                assert(strs(seq![]) =~= seq![]);
                a
            },
            Event::Ran(Ok(())) => {
                flow.stage = RevertStage::Reverted;
                let a = show(Notice::Reverted, vec![]);
                assert(strs(seq![]) =~= seq![]);
                a
            },
            _ => vstd::pervasive::unreached(),
        },
        RevertStage::Failed => {
            flow.stage = RevertStage::Done;
            Action::Finish { result: Err(flow.error.clone()) }
        },
        RevertStage::Reverted => {
            flow.stage = RevertStage::Done;
            finish_ok()
        },
        RevertStage::Done => vstd::pervasive::unreached(),
    }
}

// ---------------------------------------------------------------- reset

/// The `git reset` option a typed choice selects: `1` soft, `3` hard,
/// anything else mixed.
pub open spec fn reset_option(choice: Seq<char>) -> Seq<char> {
    if choice == "1"@ {
        "--soft"@
    } else if choice == "3"@ {
        "--hard"@
    } else {
        "--mixed"@
    }
}

pub fn reset_option_of(choice: &str) -> (r: &'static str)
    ensures
        r@ == reset_option(choice@),
{
    if same_text(choice, "1") {
        "--soft"
    } else if same_text(choice, "3") {
        "--hard"
    } else {
        "--mixed"
    }
}

#[derive(Debug, Clone, Copy, PartialEq, Eq, Structural)]
pub enum ResetStage {
    Start,
    Headed,
    Listed,
    Shown,
    Cancelled,
    Hash,
    Verifying,
    ModesShown,
    Mode,
    ConfirmingHard,
    DropHeader,
    DropLog,
    DropShown,
    Confirming,
    Resetting,
    ResetShown,
    Warning,
    Done,
}

/// The reset dialogue (`do_reset`).
pub struct ResetFlow {
    pub stage: ResetStage,
    pub hash: String,
    pub option: String,
}

pub struct ResetModel {
    pub stage: ResetStage,
    pub hash: Seq<char>,
    pub option: Seq<char>,
}

impl View for ResetFlow {
    type V = ResetModel;

    open spec fn view(&self) -> ResetModel {
        ResetModel { stage: self.stage, hash: self.hash@, option: self.option@ }
    }
}

pub open spec fn reset_start() -> ResetModel {
    ResetModel { stage: ResetStage::Start, hash: Seq::empty(), option: Seq::empty() }
}

pub open spec fn reset_awaits(m: ResetModel) -> Awaits {
    match m.stage {
        ResetStage::Start => Awaits::Begin,
        ResetStage::Headed => Awaits::Shown,
        ResetStage::Listed => Awaits::Read,
        ResetStage::Shown => Awaits::Shown,
        ResetStage::Cancelled => Awaits::Shown,
        ResetStage::Hash => Awaits::Answer,
        ResetStage::Verifying => Awaits::Ran,
        ResetStage::ModesShown => Awaits::Shown,
        ResetStage::Mode => Awaits::Answer,
        ResetStage::ConfirmingHard => Awaits::Flag,
        ResetStage::DropHeader => Awaits::Shown,
        ResetStage::DropLog => Awaits::Read,
        ResetStage::DropShown => Awaits::Shown,
        ResetStage::Confirming => Awaits::Flag,
        ResetStage::Resetting => Awaits::Ran,
        ResetStage::ResetShown => Awaits::Shown,
        ResetStage::Warning => Awaits::Shown,
        ResetStage::Done => Awaits::Nothing,
    }
}

/// The step that announces the commits to drop.
pub open spec fn reset_drop_header(m: ResetModel) -> (ResetModel, ActionView) {
    (
        ResetModel { stage: ResetStage::DropHeader, ..m },
        ActionView::Show(Notice::CommitsToDrop, seq![m.hash]),
    )
}

/// Shows the last fifteen commits, asks for a hash (`cancel` ends quietly, an
/// empty one is an error), checks it with `git show --quiet`, asks for the
/// mode (default mixed; hard needs a confirmation, default no), shows the
/// commits `<hash>..HEAD` that will go, and after a last confirmation
/// (default no) runs `git reset <mode> <hash>`, warning after a hard reset.
#[verifier::opaque]
pub open spec fn reset_next(m: ResetModel, e: EventView) -> (ResetModel, ActionView) {
    match (m.stage, e) {
        (ResetStage::Start, _) => (
            ResetModel { stage: ResetStage::Headed, ..m },
            ActionView::Show(Notice::RecentCommits, seq![]),
        ),
        (ResetStage::Headed, EventView::Shown) => (
            ResetModel { stage: ResetStage::Listed, ..m },
            ActionView::GitRead(seq!["log"@, "--oneline"@, "-15"@]),
        ),
        (ResetStage::Listed, EventView::Read(Err(err))) => (
            ResetModel { stage: ResetStage::Done, ..m },
            ActionView::Finish(Err(err)),
        ),
        (ResetStage::Listed, EventView::Read(Ok(log))) => (
            ResetModel { stage: ResetStage::Shown, ..m },
            ActionView::Show(Notice::LogBlock, seq![log]),
        ),
        (ResetStage::Shown, EventView::Shown) => (
            ResetModel { stage: ResetStage::Hash, ..m },
            ActionView::Ask(Question::ResetHash, seq![], Seq::empty()),
        ),
        (ResetStage::Hash, EventView::Answered(hash)) => if hash == "cancel"@ {
            (
                ResetModel { stage: ResetStage::Cancelled, ..m },
                ActionView::Show(Notice::ResetCancelled, seq![]),
            )
        } else if hash.len() == 0 {
            (ResetModel { stage: ResetStage::Done, ..m }, ActionView::Finish(Err("提交哈希值不能为空"@)))
        } else {
            (
                ResetModel { stage: ResetStage::Verifying, hash, ..m },
                ActionView::Git(seq!["show"@, "--quiet"@, hash]),
            )
        },
        (ResetStage::Cancelled, EventView::Shown) => (
            ResetModel { stage: ResetStage::Done, ..m },
            ActionView::Finish(Ok(())),
        ),
        (ResetStage::Verifying, EventView::Ran(Err(err))) => (
            ResetModel { stage: ResetStage::Done, ..m },
            ActionView::Finish(Err(err)),
        ),
        (ResetStage::Verifying, EventView::Ran(Ok(()))) => (
            ResetModel { stage: ResetStage::ModesShown, ..m },
            ActionView::Show(Notice::ResetModes, seq![]),
        ),
        (ResetStage::ModesShown, EventView::Shown) => (
            ResetModel { stage: ResetStage::Mode, ..m },
            ActionView::Ask(Question::ResetMode, seq![], "2"@),
        ),
        (ResetStage::Mode, EventView::Answered(choice)) => {
            let option = reset_option(choice);
            if option == "--hard"@ {
                (
                    ResetModel { stage: ResetStage::ConfirmingHard, option, ..m },
                    ActionView::Confirm(Question::ConfirmHardReset, seq![], false),
                )
            } else {
                reset_drop_header(ResetModel { option, ..m })
            }
        },
        (ResetStage::ConfirmingHard, EventView::Flag(yes)) => if !yes {
            (ResetModel { stage: ResetStage::Done, ..m }, ActionView::Finish(Ok(())))
        } else {
            reset_drop_header(m)
        },
        (ResetStage::DropHeader, EventView::Shown) => (
            ResetModel { stage: ResetStage::DropLog, ..m },
            ActionView::GitRead(seq!["log"@, "--oneline"@, m.hash + "..HEAD"@]),
        ),
        (ResetStage::DropLog, EventView::Read(Err(err))) => (
            ResetModel { stage: ResetStage::Done, ..m },
            ActionView::Finish(Err(err)),
        ),
        (ResetStage::DropLog, EventView::Read(Ok(log))) => (
            ResetModel { stage: ResetStage::DropShown, ..m },
            ActionView::Show(Notice::LogBlock, seq![log]),
        ),
        (ResetStage::DropShown, EventView::Shown) => (
            ResetModel { stage: ResetStage::Confirming, ..m },
            ActionView::Confirm(Question::ConfirmReset, seq![m.hash], false),
        ),
        (ResetStage::Confirming, EventView::Flag(yes)) => if !yes {
            (ResetModel { stage: ResetStage::Done, ..m }, ActionView::Finish(Ok(())))
        } else {
            (
                ResetModel { stage: ResetStage::Resetting, ..m },
                ActionView::Git(seq!["reset"@, m.option, m.hash]),
            )
        },
        (ResetStage::Resetting, EventView::Ran(Err(err))) => (
            ResetModel { stage: ResetStage::Done, ..m },
            ActionView::Finish(Err(err)),
        ),
        (ResetStage::Resetting, EventView::Ran(Ok(()))) => (
            ResetModel { stage: ResetStage::ResetShown, ..m },
            ActionView::Show(Notice::ResetDone, seq![m.hash]),
        ),
        (ResetStage::ResetShown, EventView::Shown) => if m.option == "--hard"@ {
            (
                ResetModel { stage: ResetStage::Warning, ..m },
                ActionView::Show(Notice::HardResetWarning, seq![]),
            )
        } else {
            (ResetModel { stage: ResetStage::Done, ..m }, ActionView::Finish(Ok(())))
        },
        (ResetStage::Warning, EventView::Shown) => (
            ResetModel { stage: ResetStage::Done, ..m },
            ActionView::Finish(Ok(())),
        ),
        _ => (m, ActionView::Finish(Ok(()))),
    }
}

/// Law: the reset mode typed is `1` for soft, `3` for hard, and anything
/// else (the default `2` included) for mixed; only `3` resets hard.
pub proof fn lemma_reset_modes(choice: Seq<char>)
    ensures
        reset_option(choice) == "--soft"@ || reset_option(choice) == "--mixed"@ || reset_option(choice)
            == "--hard"@,
        (reset_option(choice) == "--hard"@) == (choice == "3"@),
        (reset_option(choice) == "--soft"@) == (choice == "1"@),
        reset_option("2"@) == "--mixed"@,
{
    reveal_strlit("--soft");
    reveal_strlit("--mixed");
    reveal_strlit("--hard");
    reveal_strlit("1");
    reveal_strlit("2");
    reveal_strlit("3");
    assert("--soft"@[2] != "--hard"@[2]);
    assert("--mixed"@[2] != "--hard"@[2]);
    assert("--mixed"@[2] != "--soft"@[2]);
    assert("1"@[0] != "3"@[0]);
    assert("2"@[0] != "3"@[0]);
    assert("2"@[0] != "1"@[0]);
}

impl ResetFlow {
    pub fn new() -> (f: ResetFlow)
        ensures
            f@ == reset_start(),
    {
        ResetFlow { stage: ResetStage::Start, hash: String::new(), option: String::new() }
    }

    fn drop_header(&mut self) -> (a: Action)
        ensures
            (final(self)@, a@) == reset_drop_header(old(self)@),
    {
        self.stage = ResetStage::DropHeader;
        let parts = vec![self.hash.as_str()];
        assert(strs(parts@) =~= seq![self.hash@]);
        show(Notice::CommitsToDrop, parts)
    }
}

/// One step of the reset dialogue (`do_reset`).
pub fn do_reset(flow: &mut ResetFlow, event: Event) -> (a: Action)
    requires
        fits(reset_awaits(old(flow)@), event@),
    ensures
        (final(flow)@, a@) == reset_next(old(flow)@, event@),
{
    proof {
        reveal(reset_next);
    }
    match flow.stage {
        ResetStage::Start => {
            flow.stage = ResetStage::Headed;
            let a = show(Notice::RecentCommits, vec![]);
            assert(strs(seq![]) =~= seq![]);
            a
        },
        ResetStage::Headed => {
            flow.stage = ResetStage::Listed;
            let parts = vec!["log", "--oneline", "-15"];
            assert(strs(parts@) =~= seq!["log"@, "--oneline"@, "-15"@]);
            git_read(parts)
        },
        ResetStage::Listed => match event {
            Event::Read(Err(err)) => {
                flow.stage = ResetStage::Done;
                Action::Finish { result: Err(err) }
            },
            Event::Read(Ok(log)) => {
                flow.stage = ResetStage::Shown;
                let parts = vec![log.as_str()];
                assert(strs(parts@) =~= seq![log@]);
                show(Notice::LogBlock, parts)
            },
            _ => vstd::pervasive::unreached(),
        },
        ResetStage::Shown => {
            flow.stage = ResetStage::Hash;
            let a = ask_blank(Question::ResetHash, vec![]);
            assert(strs(seq![]) =~= seq![]);
            a
        },
        ResetStage::Hash => match event {
            Event::Answered(hash) => {
                if same_text(hash.as_str(), "cancel") {
                    flow.stage = ResetStage::Cancelled;
                    let a = show(Notice::ResetCancelled, vec![]);
                    assert(strs(seq![]) =~= seq![]);
                    a
                } else if hash.as_str().is_empty() {
                    flow.stage = ResetStage::Done;
                    finish_err("提交哈希值不能为空")
                } else {
                    flow.stage = ResetStage::Verifying;
                    let parts = vec!["show", "--quiet", hash.as_str()];
                    assert(strs(parts@) =~= seq!["show"@, "--quiet"@, hash@]);
                    let a = git(parts);
                    flow.hash = hash;
                    a
                }
            },
            _ => vstd::pervasive::unreached(),
        },
        ResetStage::Cancelled => {
            flow.stage = ResetStage::Done;
            finish_ok()
        },
        ResetStage::Verifying => match event {
            Event::Ran(Err(err)) => {
                flow.stage = ResetStage::Done;
                Action::Finish { result: Err(err) }
            },
            Event::Ran(Ok(())) => {
                flow.stage = ResetStage::ModesShown;
                let a = show(Notice::ResetModes, vec![]);
                assert(strs(seq![]) =~= seq![]);
                a
            },
            _ => vstd::pervasive::unreached(),
        },
        ResetStage::ModesShown => {
            flow.stage = ResetStage::Mode;
            let a = ask(Question::ResetMode, vec![], "2");
            assert(strs(seq![]) =~= seq![]);
            a
        },
        ResetStage::Mode => match event {
            Event::Answered(choice) => {
                let option = reset_option_of(choice.as_str());
                flow.option = option.to_owned();
                if same_text(option, "--hard") {
                    flow.stage = ResetStage::ConfirmingHard;
                    let a = confirm(Question::ConfirmHardReset, vec![], false);
                    assert(strs(seq![]) =~= seq![]);
                    a
                } else {
                    flow.drop_header()
                }
            },
            _ => vstd::pervasive::unreached(),
        },
        ResetStage::ConfirmingHard => match event {
            Event::Flag(yes) => {
                if !yes {
                    flow.stage = ResetStage::Done;
                    finish_ok()
                } else {
                    flow.drop_header()
                }
            },
            _ => vstd::pervasive::unreached(),
        },
        ResetStage::DropHeader => {
            flow.stage = ResetStage::DropLog;
            let range = joined(flow.hash.as_str(), "..HEAD");
            let parts = vec!["log", "--oneline", range.as_str()];
            assert(strs(parts@) =~= seq!["log"@, "--oneline"@, flow.hash@ + "..HEAD"@]);
            git_read(parts)
        },
        ResetStage::DropLog => match event {
            Event::Read(Err(err)) => {
                flow.stage = ResetStage::Done;
                Action::Finish { result: Err(err) }
            },
            Event::Read(Ok(log)) => {
                flow.stage = ResetStage::DropShown;
                let parts = vec![log.as_str()];
                assert(strs(parts@) =~= seq![log@]);
                show(Notice::LogBlock, parts)
            },
            _ => vstd::pervasive::unreached(),
        },
        ResetStage::DropShown => {
            flow.stage = ResetStage::Confirming;
            let parts = vec![flow.hash.as_str()];
            assert(strs(parts@) =~= seq![flow.hash@]);
            confirm(Question::ConfirmReset, parts, false)
        },
        ResetStage::Confirming => match event {
            Event::Flag(yes) => {
                if !yes {
                    flow.stage = ResetStage::Done;
                    finish_ok()
                } else {
                    flow.stage = ResetStage::Resetting;
                    let parts = vec!["reset", flow.option.as_str(), flow.hash.as_str()];
                    assert(strs(parts@) =~= seq!["reset"@, flow.option@, flow.hash@]);
                    git(parts)
                }
            },
            _ => vstd::pervasive::unreached(),
        },
        ResetStage::Resetting => match event {
            Event::Ran(Err(err)) => {
                flow.stage = ResetStage::Done;
                Action::Finish { result: Err(err) }
            },
            Event::Ran(Ok(())) => {
                flow.stage = ResetStage::ResetShown;
                let parts = vec![flow.hash.as_str()];
                assert(strs(parts@) =~= seq![flow.hash@]);
                show(Notice::ResetDone, parts)
            },
            _ => vstd::pervasive::unreached(),
        },
        ResetStage::ResetShown => {
            if same_text(flow.option.as_str(), "--hard") {
                flow.stage = ResetStage::Warning;
                let a = show(Notice::HardResetWarning, vec![]);
                assert(strs(seq![]) =~= seq![]);
                a
            } else {
                flow.stage = ResetStage::Done;
                finish_ok()
            }
        },
        ResetStage::Warning => {
            flow.stage = ResetStage::Done;
            finish_ok()
        },
        ResetStage::Done => vstd::pervasive::unreached(),
    }
}

} // verus!
