//! The dialogues keep step with the program that drives them: after each
//! step a dialogue waits for exactly the kind of event that its action is
//! answered by, and it waits for nothing exactly when the action finishes it.
use vstd::prelude::*;
use crate::flow::{ActionView, Awaits, EventView, answer_kind, fits};
use crate::history::{ResetModel, RevertModel, reset_awaits, reset_next, revert_awaits, revert_next};
use crate::logview::{LogModel, log_awaits, log_next};
use crate::merge::{MergeModel, merge_awaits, merge_next, merge_push_start};
use crate::setup::{CloneModel, InitModel, clone_awaits, clone_next, clone_start, init_awaits, init_next, init_start};
use crate::update::{UpdateModel, update_awaits, update_next, update_push_start};
use crate::menu::{
    MenuModel, entry_dialogue, in_dialogue, menu_after, menu_awaits, menu_choose, menu_next,
    menu_open,
};
use crate::session::{DialogueModel, dialogue_awaits, dialogue_next};
use crate::startup::{StartModel, StartStage, start_after, start_awaits, start_in_dialogue, start_next, start_open};
use crate::ops::{
    BranchModel, CommitModel, IdentityModel, PushModel, RemoteModel, UploadModel, branch_awaits,
    branch_next, commit_awaits, commit_next, identity_awaits, identity_next, push_awaits,
    push_next, remote_awaits, remote_next, upload_awaits, upload_next,
};

verus! {

/// The dialogue now waits for the answer to its action.
pub open spec fn in_step(waits: Awaits, a: ActionView) -> bool {
    answer_kind(a) == waits
}

/// Law: the identity dialogue keeps step.
pub proof fn lemma_identity_in_step(m: IdentityModel, e: EventView)
    requires
        fits(identity_awaits(m), e),
    ensures
        in_step(identity_awaits(identity_next(m, e).0), identity_next(m, e).1),
{
}

/// Law: the remote set-up keeps step.
pub proof fn lemma_remote_in_step(m: RemoteModel, e: EventView)
    requires
        fits(remote_awaits(m), e),
    ensures
        in_step(remote_awaits(remote_next(m, e).0), remote_next(m, e).1),
{
}

/// Law: the commit dialogue keeps step.
pub proof fn lemma_commit_in_step(m: CommitModel, e: EventView)
    requires
        fits(commit_awaits(m), e),
    ensures
        in_step(commit_awaits(commit_next(m, e).0), commit_next(m, e).1),
{
}

/// Law: the push dialogue keeps step.
pub proof fn lemma_push_in_step(m: PushModel, e: EventView)
    requires
        fits(push_awaits(m), e),
    ensures
        in_step(push_awaits(push_next(m, e).0), push_next(m, e).1),
{
}

/// Law: the branch dialogue keeps step.
pub proof fn lemma_branch_in_step(m: BranchModel, e: EventView)
    requires
        fits(branch_awaits(m), e),
    ensures
        in_step(branch_awaits(branch_next(m, e).0), branch_next(m, e).1),
{
}

/// Law: the upload dialogue keeps step.
pub proof fn lemma_upload_in_step(m: UploadModel, e: EventView)
    requires
        fits(upload_awaits(m), e),
    ensures
        in_step(upload_awaits(upload_next(m, e).0), upload_next(m, e).1),
{
    if m.stage is Committing {
        lemma_commit_in_step(m.commit, e);
    }
    if m.stage is Pushing {
        lemma_push_in_step(m.push, e);
    }
    lemma_commit_in_step(crate::ops::commit_start(), EventView::Begin);
    lemma_push_in_step(crate::ops::upload_push_start(m), EventView::Begin);
}

/// Law: the revert dialogue keeps step.
pub proof fn lemma_revert_in_step(m: RevertModel, e: EventView)
    requires
        fits(revert_awaits(m), e),
    ensures
        in_step(revert_awaits(revert_next(m, e).0), revert_next(m, e).1),
{
    reveal(revert_next);
}

/// Law: the reset dialogue keeps step.
pub proof fn lemma_reset_in_step(m: ResetModel, e: EventView)
    requires
        fits(reset_awaits(m), e),
    ensures
        in_step(reset_awaits(reset_next(m, e).0), reset_next(m, e).1),
{
    reveal(reset_next);
}

/// Law: the log viewer keeps step.
pub proof fn lemma_log_in_step(m: LogModel, e: EventView)
    requires
        fits(log_awaits(m), e),
    ensures
        in_step(log_awaits(log_next(m, e).0), log_next(m, e).1),
{
    reveal(log_next);
}

/// Law: the settings dialogue keeps step.
pub proof fn lemma_init_in_step(m: InitModel, e: EventView)
    requires
        fits(init_awaits(m), e),
    ensures
        in_step(init_awaits(init_next(m, e).0), init_next(m, e).1),
{
    reveal(init_next);
}

/// Law: the clone dialogue keeps step.
pub proof fn lemma_clone_in_step(m: CloneModel, e: EventView)
    requires
        fits(clone_awaits(m), e),
    ensures
        in_step(clone_awaits(clone_next(m, e).0), clone_next(m, e).1),
{
    reveal(clone_next);
}

/// Law: the update dialogue keeps step.
pub proof fn lemma_update_in_step(m: UpdateModel, e: EventView)
    requires
        fits(update_awaits(m), e),
    ensures
        in_step(update_awaits(update_next(m, e).0), update_next(m, e).1),
{
    reveal(update_next);
    if m.stage is Pushing {
        lemma_push_in_step(m.push, e);
    }
    lemma_push_in_step(update_push_start(m), EventView::Begin);
}

/// Law: the merge dialogue keeps step.
pub proof fn lemma_merge_in_step(m: MergeModel, e: EventView)
    requires
        fits(merge_awaits(m), e),
    ensures
        in_step(merge_awaits(merge_next(m, e).0), merge_next(m, e).1),
{
    reveal(merge_next);
    if m.stage is Pushing {
        lemma_push_in_step(m.push, e);
    }
    lemma_push_in_step(merge_push_start(m), EventView::Begin);
}

/// Law: whichever dialogue runs keeps step.
pub proof fn lemma_dialogue_in_step(d: DialogueModel, e: EventView)
    requires
        fits(dialogue_awaits(d), e),
    ensures
        in_step(dialogue_awaits(dialogue_next(d, e).0), dialogue_next(d, e).1),
{
    match d {
        DialogueModel::Idle => {},
        DialogueModel::Identity(m) => lemma_identity_in_step(m, e),
        DialogueModel::Remote(m) => lemma_remote_in_step(m, e),
        DialogueModel::Commit(m) => lemma_commit_in_step(m, e),
        DialogueModel::Push(m) => lemma_push_in_step(m, e),
        DialogueModel::Branch(m) => lemma_branch_in_step(m, e),
        DialogueModel::Clone(m) => lemma_clone_in_step(m, e),
        DialogueModel::Merge(m) => lemma_merge_in_step(m, e),
        DialogueModel::Update(m) => lemma_update_in_step(m, e),
        DialogueModel::Init(m) => lemma_init_in_step(m, e),
        DialogueModel::Revert(m) => lemma_revert_in_step(m, e),
        DialogueModel::Reset(m) => lemma_reset_in_step(m, e),
        DialogueModel::Log(m) => lemma_log_in_step(m, e),
        DialogueModel::Upload(m) => lemma_upload_in_step(m, e),
    }
}

/// Every dialogue that the menu or the start-up opens keeps step from its
/// first action on.
proof fn lemma_openings_in_step()
    ensures
        forall|d: DialogueModel|
            dialogue_awaits(d) == Awaits::Begin ==> #[trigger] in_step(
                dialogue_awaits(dialogue_next(d, EventView::Begin).0),
                dialogue_next(d, EventView::Begin).1,
            ),
{
    assert forall|d: DialogueModel| dialogue_awaits(d) == Awaits::Begin implies #[trigger] in_step(
        dialogue_awaits(dialogue_next(d, EventView::Begin).0),
        dialogue_next(d, EventView::Begin).1,
    ) by {
        lemma_dialogue_in_step(d, EventView::Begin);
    }
}

proof fn lemma_menu_after_in_step(m: MenuModel, r: Result<(), Seq<char>>)
    ensures
        in_step(menu_awaits(menu_after(m, r).0), menu_after(m, r).1),
{
    lemma_openings_in_step();
}

proof fn lemma_menu_choose_in_step(m: MenuModel, choice: Seq<char>)
    ensures
        in_step(menu_awaits(menu_choose(m, choice).0), menu_choose(m, choice).1),
{
    lemma_openings_in_step();
    match entry_dialogue(m, choice) {
        Some((stage, d)) => {
            let (n, a) = menu_open(m, stage, d);
            if a is Finish {
                lemma_menu_after_in_step(n, a->Finish_0);
            }
        },
        None => {},
    }
}

/// Law: the menu keeps step.
pub proof fn lemma_menu_in_step(m: MenuModel, e: EventView)
    requires
        fits(menu_awaits(m), e),
    ensures
        in_step(menu_awaits(menu_next(m, e).0), menu_next(m, e).1),
{
    if in_dialogue(m.stage) {
        lemma_dialogue_in_step(m.dialog, e);
        let (d, a) = dialogue_next(m.dialog, e);
        if a is Finish {
            lemma_menu_after_in_step(MenuModel { dialog: d, ..m }, a->Finish_0);
        }
    } else if m.stage is Choosing {
        lemma_menu_choose_in_step(m, e->Answered_0);
    } else {
        lemma_openings_in_step();
    }
}

proof fn lemma_start_after_in_step(m: StartModel, r: Result<(), Seq<char>>)
    ensures
        in_step(start_awaits(start_after(m, r).0), start_after(m, r).1),
{
    lemma_openings_in_step();
}

/// Law: the start-up keeps step.
pub proof fn lemma_start_in_step(m: StartModel, e: EventView)
    requires
        fits(start_awaits(m), e),
    ensures
        in_step(start_awaits(start_next(m, e).0), start_next(m, e).1),
{
    lemma_openings_in_step();
    if start_in_dialogue(m.stage) {
        lemma_dialogue_in_step(m.dialog, e);
        let (d, a) = dialogue_next(m.dialog, e);
        if a is Finish {
            lemma_start_after_in_step(StartModel { dialog: d, ..m }, a->Finish_0);
        }
    } else if m.stage is SetupAsked || m.stage is MissingShown {
        let d = if m.stage is MissingShown || e->Answered_0 == "1"@ {
            DialogueModel::Init(init_start(m.config))
        } else {
            DialogueModel::Clone(clone_start(m.config))
        };
        let (n, a) = start_open(m, if m.stage is MissingShown { StartStage::Reconfiguring } else { StartStage::SettingUp }, d);
        if a is Finish {
            lemma_start_after_in_step(n, a->Finish_0);
        }
    }
}

} // verus!
