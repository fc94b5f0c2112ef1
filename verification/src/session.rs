//! One dialogue of any kind, as the menu and the start-up run them.
use vstd::prelude::*;
use crate::flow::{Action, ActionView, Awaits, Event, EventView, fits};
use crate::history::{
    RevertFlow, RevertModel, ResetFlow, ResetModel, do_reset, do_revert, reset_awaits, reset_next,
    revert_awaits, revert_next,
};
use crate::logview::{LogFlow, LogModel, log_awaits, log_next, log_size_fits, log_wf, view_log_interactive};
use crate::merge::{MergeFlow, MergeModel, merge_awaits, merge_from_remote, merge_next, merge_wf};
use crate::ops::{
    BranchFlow, BranchModel, CommitFlow, CommitModel, IdentityFlow, IdentityModel, PushFlow,
    PushModel, RemoteFlow, RemoteModel, UploadFlow, UploadModel, branch_awaits, branch_next,
    checkout_branch, commit_awaits, commit_next, do_commit, do_push, do_push_direct,
    identity_awaits, identity_next, identity_wf, push_awaits, push_next, remote_awaits,
    remote_next, run_identity, setup_remote, upload_awaits, upload_next,
};
use crate::setup::{
    CloneFlow, CloneModel, InitFlow, InitModel, clone_awaits, clone_next, do_clone, init_awaits,
    init_config, init_next,
};
use crate::update::{UpdateFlow, UpdateModel, do_update, update_awaits, update_next};

verus! {

/// A running dialogue, or none.
pub enum Dialogue {
    Idle,
    Identity(IdentityFlow),
    Remote(RemoteFlow),
    Commit(CommitFlow),
    Push(PushFlow),
    Branch(BranchFlow),
    Clone(CloneFlow),
    Merge(MergeFlow),
    Update(UpdateFlow),
    Init(InitFlow),
    Revert(RevertFlow),
    Reset(ResetFlow),
    Log(LogFlow),
    Upload(UploadFlow),
}

pub enum DialogueModel {
    Idle,
    Identity(IdentityModel),
    Remote(RemoteModel),
    Commit(CommitModel),
    Push(PushModel),
    Branch(BranchModel),
    Clone(CloneModel),
    Merge(MergeModel),
    Update(UpdateModel),
    Init(InitModel),
    Revert(RevertModel),
    Reset(ResetModel),
    Log(LogModel),
    Upload(UploadModel),
}

impl View for Dialogue {
    type V = DialogueModel;

    open spec fn view(&self) -> DialogueModel {
        match self {
            Dialogue::Idle => DialogueModel::Idle,
            Dialogue::Identity(f) => DialogueModel::Identity(f@),
            Dialogue::Remote(f) => DialogueModel::Remote(f@),
            Dialogue::Commit(f) => DialogueModel::Commit(f@),
            Dialogue::Push(f) => DialogueModel::Push(f@),
            Dialogue::Branch(f) => DialogueModel::Branch(f@),
            Dialogue::Clone(f) => DialogueModel::Clone(f@),
            Dialogue::Merge(f) => DialogueModel::Merge(f@),
            Dialogue::Update(f) => DialogueModel::Update(f@),
            Dialogue::Init(f) => DialogueModel::Init(f@),
            Dialogue::Revert(f) => DialogueModel::Revert(f@),
            Dialogue::Reset(f) => DialogueModel::Reset(f@),
            Dialogue::Log(f) => DialogueModel::Log(f@),
            Dialogue::Upload(f) => DialogueModel::Upload(f@),
        }
    }
}

pub open spec fn dialogue_awaits(d: DialogueModel) -> Awaits {
    match d {
        DialogueModel::Idle => Awaits::Nothing,
        DialogueModel::Identity(m) => identity_awaits(m),
        DialogueModel::Remote(m) => remote_awaits(m),
        DialogueModel::Commit(m) => commit_awaits(m),
        DialogueModel::Push(m) => push_awaits(m),
        DialogueModel::Branch(m) => branch_awaits(m),
        DialogueModel::Clone(m) => clone_awaits(m),
        DialogueModel::Merge(m) => merge_awaits(m),
        DialogueModel::Update(m) => update_awaits(m),
        DialogueModel::Init(m) => init_awaits(m),
        DialogueModel::Revert(m) => revert_awaits(m),
        DialogueModel::Reset(m) => reset_awaits(m),
        DialogueModel::Log(m) => log_awaits(m),
        DialogueModel::Upload(m) => upload_awaits(m),
    }
}

/// The step of whichever dialogue runs.
pub open spec fn dialogue_next(d: DialogueModel, e: EventView) -> (DialogueModel, ActionView) {
    match d {
        DialogueModel::Idle => (d, ActionView::Finish(Ok(()))),
        DialogueModel::Identity(m) => {
            let (n, a) = identity_next(m, e);
            (DialogueModel::Identity(n), a)
        },
        DialogueModel::Remote(m) => {
            let (n, a) = remote_next(m, e);
            (DialogueModel::Remote(n), a)
        },
        DialogueModel::Commit(m) => {
            let (n, a) = commit_next(m, e);
            (DialogueModel::Commit(n), a)
        },
        DialogueModel::Push(m) => {
            let (n, a) = push_next(m, e);
            (DialogueModel::Push(n), a)
        },
        DialogueModel::Branch(m) => {
            let (n, a) = branch_next(m, e);
            (DialogueModel::Branch(n), a)
        },
        DialogueModel::Clone(m) => {
            let (n, a) = clone_next(m, e);
            (DialogueModel::Clone(n), a)
        },
        DialogueModel::Merge(m) => {
            let (n, a) = merge_next(m, e);
            (DialogueModel::Merge(n), a)
        },
        DialogueModel::Update(m) => {
            let (n, a) = update_next(m, e);
            (DialogueModel::Update(n), a)
        },
        DialogueModel::Init(m) => {
            let (n, a) = init_next(m, e);
            (DialogueModel::Init(n), a)
        },
        DialogueModel::Revert(m) => {
            let (n, a) = revert_next(m, e);
            (DialogueModel::Revert(n), a)
        },
        DialogueModel::Reset(m) => {
            let (n, a) = reset_next(m, e);
            (DialogueModel::Reset(n), a)
        },
        DialogueModel::Log(m) => {
            let (n, a) = log_next(m, e);
            (DialogueModel::Log(n), a)
        },
        DialogueModel::Upload(m) => {
            let (n, a) = upload_next(m, e);
            (DialogueModel::Upload(n), a)
        },
    }
}

/// The invariants of the dialogues that have one.
pub open spec fn dialogue_wf(d: DialogueModel) -> bool {
    match d {
        DialogueModel::Identity(m) => identity_wf(m),
        DialogueModel::Merge(m) => merge_wf(m) && (m.ellipsis ==> m.commits.len() > 20),
        DialogueModel::Log(m) => log_wf(m),
        _ => true,
    }
}

/// What a dialogue asks of an event beyond its kind (the log viewer's page
/// size).
pub open spec fn dialogue_event_ok(d: DialogueModel, e: EventView) -> bool {
    match d {
        DialogueModel::Log(m) => log_size_fits(m, e),
        _ => true,
    }
}

/// One step of whichever dialogue runs.
pub fn step_dialogue(d: &mut Dialogue, event: Event) -> (a: Action)
    requires
        fits(dialogue_awaits(old(d)@), event@),
        dialogue_wf(old(d)@),
        dialogue_event_ok(old(d)@, event@),
    ensures
        (final(d)@, a@) == dialogue_next(old(d)@, event@),
        dialogue_wf(final(d)@),
{
    match d {
        Dialogue::Idle => vstd::pervasive::unreached(),
        Dialogue::Identity(f) => run_identity(f, event),
        Dialogue::Remote(f) => setup_remote(f, event),
        Dialogue::Commit(f) => do_commit(f, event),
        Dialogue::Push(f) => do_push(f, event),
        Dialogue::Branch(f) => checkout_branch(f, event),
        Dialogue::Clone(f) => do_clone(f, event),
        Dialogue::Merge(f) => merge_from_remote(f, event),
        Dialogue::Update(f) => do_update(f, event),
        Dialogue::Init(f) => init_config(f, event),
        Dialogue::Revert(f) => do_revert(f, event),
        Dialogue::Reset(f) => do_reset(f, event),
        Dialogue::Log(f) => view_log_interactive(f, event),
        Dialogue::Upload(f) => do_push_direct(f, event),
    }
}

} // verus!
