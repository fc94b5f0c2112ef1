//! Laws over whole runs of a dialogue: the actions that a dialogue gives for
//! a sequence of events, each event answering the action before it.
use vstd::prelude::*;
use crate::flow::{ActionView, EventView, Notice, Question, fits};
use crate::history::{ResetModel, reset_awaits, reset_next, reset_start};
use crate::ops::{push_awaits, push_next};
use crate::config::ConfigView;
use crate::menu::{MenuModel, lemma_force_push_confirmed_twice, menu_awaits, menu_next, menu_start};
use crate::merge::{MergeModel, merge_awaits, merge_next, merge_push_start, merge_start, temp_remote};
use crate::session::dialogue_next;
use crate::update::{UpdateModel, UpdateStage, update_awaits, update_next, update_push_start, update_start};

verus! {

// ---------------------------------------------------------------- reset

/// The actions of the reset dialogue from `m` for the events `es`.
pub open spec fn reset_run(m: ResetModel, es: Seq<EventView>) -> Seq<ActionView>
    decreases es.len(),
{
    if es.len() == 0 {
        seq![]
    } else {
        let (n, a) = reset_next(m, es[0]);
        seq![a] + reset_run(n, es.drop_first())
    }
}

/// Each event of `es` is of the kind that the reset dialogue waits for.
pub open spec fn reset_events_fit(m: ResetModel, es: Seq<EventView>) -> bool
    decreases es.len(),
{
    es.len() == 0 || (fits(reset_awaits(m), es[0]) && reset_events_fit(
        reset_next(m, es[0]).0,
        es.drop_first(),
    ))
}

/// A `git reset <option> <hash>` run.
pub open spec fn is_reset(a: ActionView) -> bool {
    &&& a is Git
    &&& a->Git_0.len() == 3
    &&& a->Git_0[0] == "reset"@
}

/// The reset dialogue has confirmed the hard mode and not yet reset.
pub open spec fn hard_confirmed(m: ResetModel) -> bool {
    &&& m.option == "--hard"@
    &&& (m.stage is DropHeader || m.stage is DropLog || m.stage is DropShown || m.stage is Confirming)
}

proof fn lemma_reset_step(m: ResetModel, e: EventView)
    requires
        fits(reset_awaits(m), e),
    ensures
        is_reset(reset_next(m, e).1) ==> m.stage is Confirming && e == EventView::Flag(true)
            && reset_next(m, e).1 == ActionView::Git(seq!["reset"@, m.option, m.hash]),
        reset_next(m, e).0.stage is Confirming ==> reset_next(m, e).1 == ActionView::Confirm(
            Question::ConfirmReset,
            seq![reset_next(m, e).0.hash],
            false,
        ),
        reset_next(m, e).0.stage is ConfirmingHard ==> reset_next(m, e).1 == ActionView::Confirm(
            Question::ConfirmHardReset,
            seq![],
            false,
        ),
        hard_confirmed(reset_next(m, e).0) ==> hard_confirmed(m) || (m.stage is ConfirmingHard
            && e == EventView::Flag(true)),
{
    reveal(reset_next);
    reveal_strlit("reset");
    reveal_strlit("show");
    assert("show"@[0] != "reset"@[0]);
    reveal_strlit("--hard");
}

proof fn lemma_reset_run_len(m: ResetModel, es: Seq<EventView>)
    ensures
        reset_run(m, es).len() == es.len(),
    decreases es.len(),
{
    if es.len() > 0 {
        lemma_reset_run_len(reset_next(m, es[0]).0, es.drop_first());
    }
}

/// The facts of a run from any state, of which the law takes those of a run
/// from the start.
proof fn lemma_reset_run_from(m: ResetModel, es: Seq<EventView>, k: int)
    requires
        reset_events_fit(m, es),
        0 <= k < reset_run(m, es).len(),
        is_reset(reset_run(m, es)[k]),
    ensures
        k == 0 ==> m.stage is Confirming && es[0] == EventView::Flag(true),
        k >= 1 ==> es[k] == EventView::Flag(true) && reset_run(m, es)[k - 1] == ActionView::Confirm(
            Question::ConfirmReset,
            seq![reset_run(m, es)[k]->Git_0[2]],
            false,
        ),
        reset_run(m, es)[k]->Git_0[1] == "--hard"@ ==> {
            ||| hard_confirmed(m)
            ||| (m.stage is ConfirmingHard && es[0] == EventView::Flag(true))
            ||| exists|j: int|
                0 <= j && j + 1 < k && #[trigger] reset_run(m, es)[j] == ActionView::Confirm(
                    Question::ConfirmHardReset,
                    seq![],
                    false,
                ) && es[j + 1] == EventView::Flag(true)
        },
    decreases es.len(),
{
    lemma_reset_run_len(m, es);
    let (n, a) = reset_next(m, es[0]);
    let rest = es.drop_first();
    lemma_reset_run_len(n, rest);
    lemma_reset_step(m, es[0]);
    assert(reset_run(m, es) == seq![a] + reset_run(n, rest));
    if k == 0 {
        assert(reset_run(m, es)[0] == a);
    } else {
        assert(reset_run(m, es)[k] == reset_run(n, rest)[k - 1]);
        lemma_reset_run_from(n, rest, k - 1);
        if k == 1 {
            assert(reset_run(m, es)[0] == a);
            assert(rest[0] == es[1]);
            lemma_reset_step(n, rest[0]);
        } else {
            assert(reset_run(m, es)[k - 1] == reset_run(n, rest)[k - 2]);
            assert(rest[k - 1] == es[k]);
        }
        if reset_run(m, es)[k]->Git_0[1] == "--hard"@ {
            if hard_confirmed(n) {
            } else if n.stage is ConfirmingHard && rest[0] == EventView::Flag(true) {
                assert(reset_run(m, es)[0] == a);
                assert(rest[0] == es[1]);
                lemma_reset_run_from(n, rest, k - 1);
                if k == 1 {
                    lemma_reset_step(n, rest[0]);
                    assert(false);
                }
            } else {
                let j = choose|j: int|
                    0 <= j && j + 1 < k - 1 && #[trigger] reset_run(n, rest)[j] == ActionView::Confirm(
                        Question::ConfirmHardReset,
                        seq![],
                        false,
                    ) && rest[j + 1] == EventView::Flag(true);
                assert(reset_run(m, es)[j + 1] == reset_run(n, rest)[j]);
                assert(es[j + 2] == rest[j + 1]);
            }
        }
    }
}

/// Law: in a run of the reset dialogue from its start, `git reset <option>
/// <hash>` runs only as the answer yes to "reset to <hash>?" asked just
/// before it, and a hard reset only where "use --hard?" was asked earlier and
/// answered yes.
pub proof fn lemma_reset_confirmed_twice(es: Seq<EventView>, k: int)
    requires
        reset_events_fit(reset_start(), es),
        0 <= k < reset_run(reset_start(), es).len(),
        is_reset(reset_run(reset_start(), es)[k]),
    ensures
        k >= 1,
        es[k] == EventView::Flag(true),
        reset_run(reset_start(), es)[k - 1] == ActionView::Confirm(
            Question::ConfirmReset,
            seq![reset_run(reset_start(), es)[k]->Git_0[2]],
            false,
        ),
        reset_run(reset_start(), es)[k]->Git_0[1] == "--hard"@ ==> (exists|j: int|
            0 <= j && j + 1 < k && #[trigger] reset_run(reset_start(), es)[j] == ActionView::Confirm(
                Question::ConfirmHardReset,
                seq![],
                false,
            ) && es[j + 1] == EventView::Flag(true)),
{
    lemma_reset_run_from(reset_start(), es, k);
}

// ---------------------------------------------------------------- update

/// The actions of the update dialogue from `m` for the events `es`.
pub open spec fn update_run(m: UpdateModel, es: Seq<EventView>) -> Seq<ActionView>
    decreases es.len(),
{
    if es.len() == 0 {
        seq![]
    } else {
        let (n, a) = update_next(m, es[0]);
        seq![a] + update_run(n, es.drop_first())
    }
}

/// Each event of `es` is of the kind that the update dialogue waits for.
pub open spec fn update_events_fit(m: UpdateModel, es: Seq<EventView>) -> bool
    decreases es.len(),
{
    es.len() == 0 || (fits(update_awaits(m), es[0]) && update_events_fit(
        update_next(m, es[0]).0,
        es.drop_first(),
    ))
}

/// The answer that a `git` run succeeded.
pub open spec fn ran_ok(e: EventView) -> bool {
    e is Ran && e->Ran_0 is Ok
}

/// A `git pull ...` run.
pub open spec fn is_pull(a: ActionView) -> bool {
    &&& a is Git
    &&& a->Git_0.len() >= 1
    &&& a->Git_0[0] == "pull"@
}

/// The update has asked whether to go on (or gone past that question).
pub open spec fn update_late(s: UpdateStage) -> bool {
    s is Unstashing || s is Pulling || s is Rebasing || s is Conflicted || s is Reminded
        || s is Merged || s is RestoreAsked || s is Restoring || s is PopFailed || s is Restored
        || s is LogAfter || s is AfterShown || s is Ahead || s is UnpushedShown || s is PushAsked
        || s is Pushing || s is Finishing || s is Finished || s is Done
}

/// The update has fetched successfully and not yet asked whether to go on.
pub open spec fn update_fetched(s: UpdateStage) -> bool {
    s is Fetched || s is NewLog || s is NewCount || s is NewShown || s is ContinueAsked
}

proof fn lemma_update_step(m: UpdateModel, e: EventView)
    requires
        fits(update_awaits(m), e),
    ensures
        update_next(m, e).0.remote == m.remote,
        update_next(m, e).0.branch == m.branch,
        is_pull(update_next(m, e).1) ==> {
            &&& m.stage is ContinueAsked
            &&& e == EventView::Flag(true)
            &&& update_late(update_next(m, e).0.stage)
            &&& (update_next(m, e).1 == ActionView::Git(seq!["pull"@, m.remote, m.branch])
                || update_next(m, e).1 == ActionView::Git(
                seq!["pull"@, "--rebase"@, m.remote, m.branch],
            ))
        },
        update_late(m.stage) ==> update_late(update_next(m, e).0.stage) && !is_pull(
            update_next(m, e).1,
        ),
        update_next(m, e).0.stage is ContinueAsked ==> update_next(m, e).1 == ActionView::Confirm(
            Question::ContinueUpdate,
            seq![],
            true,
        ),
        update_next(m, e).0.stage is Fetching ==> update_next(m, e).1 == ActionView::Git(
            seq!["fetch"@, m.remote],
        ),
        update_fetched(update_next(m, e).0.stage) ==> update_fetched(m.stage) || (m.stage is Fetching
            && ran_ok(e)),
{
    reveal(update_next);
    reveal_strlit("pull");
    reveal_strlit("push");
    reveal_strlit("stash");
    reveal_strlit("reset");
    reveal_strlit("fetch");
    assert("push"@[2] != "pull"@[2]);
    assert("stash"@[0] != "pull"@[0]);
    assert("reset"@[0] != "pull"@[0]);
    assert("fetch"@[0] != "pull"@[0]);
    if m.stage is Pushing {
        let (p, a) = push_next(m.push, e);
        if a is Git {
            assert(a->Git_0[0] == "push"@);
        }
    }
    if m.stage is PushAsked {
        let (p, a) = push_next(update_push_start(m), EventView::Begin);
        assert(a is Confirm);
    }
}

proof fn lemma_update_run_len(m: UpdateModel, es: Seq<EventView>)
    ensures
        update_run(m, es).len() == es.len(),
    decreases es.len(),
{
    if es.len() > 0 {
        lemma_update_run_len(update_next(m, es[0]).0, es.drop_first());
    }
}

/// A run from a state that has gone past the question never pulls.
proof fn lemma_update_late_run(m: UpdateModel, es: Seq<EventView>, k: int)
    requires
        update_events_fit(m, es),
        update_late(m.stage),
        0 <= k < update_run(m, es).len(),
    ensures
        !is_pull(update_run(m, es)[k]),
    decreases es.len(),
{
    lemma_update_run_len(m, es);
    let (n, a) = update_next(m, es[0]);
    lemma_update_step(m, es[0]);
    lemma_update_run_len(n, es.drop_first());
    if k > 0 {
        assert(update_run(m, es)[k] == update_run(n, es.drop_first())[k - 1]);
        lemma_update_late_run(n, es.drop_first(), k - 1);
    }
}

/// The facts of a run from any state, of which the law takes those of a run
/// from the start.
proof fn lemma_update_run_from(m: UpdateModel, es: Seq<EventView>, k: int)
    requires
        update_events_fit(m, es),
        0 <= k < update_run(m, es).len(),
        is_pull(update_run(m, es)[k]),
    ensures
        forall|i: int| 0 <= i < update_run(m, es).len() && i != k ==> !is_pull(#[trigger] update_run(m, es)[i]),
        update_run(m, es)[k] == ActionView::Git(seq!["pull"@, m.remote, m.branch])
            || update_run(m, es)[k] == ActionView::Git(seq!["pull"@, "--rebase"@, m.remote, m.branch]),
        es[k] == EventView::Flag(true),
        k == 0 ==> m.stage is ContinueAsked,
        k >= 1 ==> update_run(m, es)[k - 1] == ActionView::Confirm(Question::ContinueUpdate, seq![], true),
        ({
            ||| update_fetched(m.stage)
            ||| (m.stage is Fetching && ran_ok(es[0]))
            ||| (exists|j: int|
                0 <= j && j + 1 < k && #[trigger] update_run(m, es)[j] == ActionView::Git(
                    seq!["fetch"@, m.remote],
                ) && ran_ok(es[j + 1]))
        }),
    decreases es.len(),
{
    lemma_update_run_len(m, es);
    let (n, a) = update_next(m, es[0]);
    let rest = es.drop_first();
    lemma_update_run_len(n, rest);
    lemma_update_step(m, es[0]);
    assert(update_run(m, es) == seq![a] + update_run(n, rest));
    assert(update_run(m, es)[0] == a);
    assert forall|i: int| 1 <= i < update_run(m, es).len() implies #[trigger] update_run(m, es)[i]
        == update_run(n, rest)[i - 1] by {}
    if k == 0 {
        assert forall|i: int| 0 <= i < update_run(m, es).len() && i != 0 implies !is_pull(
            #[trigger] update_run(m, es)[i],
        ) by {
            lemma_update_late_run(n, rest, i - 1);
        }
    } else {
        lemma_update_run_from(n, rest, k - 1);
        assert(rest[k - 1] == es[k]);
        if is_pull(a) {
            lemma_update_late_run(n, rest, k - 1);
        }
        if k == 1 {
            lemma_update_step(n, rest[0]);
        } else {
            assert(update_run(m, es)[k - 1] == update_run(n, rest)[k - 2]);
        }
        if update_fetched(n.stage) {
        } else if n.stage is Fetching && ran_ok(rest[0]) {
            assert(rest[0] == es[1]);
            if k == 1 {
                lemma_update_step(n, rest[0]);
                assert(false);
            }
        } else {
            let j = choose|j: int|
                0 <= j && j + 1 < k - 1 && #[trigger] update_run(n, rest)[j] == ActionView::Git(
                    seq!["fetch"@, n.remote],
                ) && ran_ok(rest[j + 1]);
            assert(update_run(m, es)[j + 1] == update_run(n, rest)[j]);
            assert(es[j + 2] == rest[j + 1]);
        }
    }
}

/// Law: in a run of the update dialogue from its start, at most one pull
/// runs: `git pull <remote> <branch>` or `git pull --rebase <remote>
/// <branch>`; it is the answer yes to "go on with the update?" asked just
/// before it, and `git fetch <remote>` ran earlier and succeeded.
pub proof fn lemma_update_pulls_once(c: ConfigView, es: Seq<EventView>, k: int)
    requires
        update_events_fit(update_start(c), es),
        0 <= k < update_run(update_start(c), es).len(),
        is_pull(update_run(update_start(c), es)[k]),
    ensures
        forall|i: int|
            0 <= i < update_run(update_start(c), es).len() && i != k ==> !is_pull(
                #[trigger] update_run(update_start(c), es)[i],
            ),
        update_run(update_start(c), es)[k] == ActionView::Git(
            seq!["pull"@, c.git_remote_name, c.git_branch],
        ) || update_run(update_start(c), es)[k] == ActionView::Git(
            seq!["pull"@, "--rebase"@, c.git_remote_name, c.git_branch],
        ),
        k >= 1,
        es[k] == EventView::Flag(true),
        update_run(update_start(c), es)[k - 1] == ActionView::Confirm(
            Question::ContinueUpdate,
            seq![],
            true,
        ),
        (exists|j: int|
            0 <= j && j + 1 < k && #[trigger] update_run(update_start(c), es)[j]
                == ActionView::Git(seq!["fetch"@, c.git_remote_name]) && ran_ok(es[j + 1])),
{
    lemma_update_run_from(update_start(c), es, k);
}

// ---------------------------------------------------------------- menu

/// The menu's states and actions for the events `es`: element `i` is the
/// state that event `i` comes to and the action that answers it.
pub open spec fn menu_trace(m: MenuModel, es: Seq<EventView>) -> Seq<(MenuModel, ActionView)>
    decreases es.len(),
{
    if es.len() == 0 {
        seq![]
    } else {
        let (n, a) = menu_next(m, es[0]);
        seq![(m, a)] + menu_trace(n, es.drop_first())
    }
}

proof fn lemma_menu_trace(m: MenuModel, es: Seq<EventView>)
    ensures
        menu_trace(m, es).len() == es.len(),
        es.len() > 0 ==> menu_trace(m, es)[0].0 == m,
        forall|i: int| 0 <= i < es.len() ==> (#[trigger] menu_trace(m, es)[i]).1 == menu_next(
            menu_trace(m, es)[i].0,
            es[i],
        ).1,
        forall|i: int| 0 <= i < es.len() - 1 ==> (#[trigger] menu_trace(m, es)[i + 1]).0 == menu_next(
            menu_trace(m, es)[i].0,
            es[i],
        ).0,
    decreases es.len(),
{
    if es.len() > 0 {
        let (n, a) = menu_next(m, es[0]);
        let rest = es.drop_first();
        lemma_menu_trace(n, rest);
        let t = menu_trace(m, es);
        assert(t == seq![(m, a)] + menu_trace(n, rest));
        assert forall|i: int| 0 <= i < es.len() implies (#[trigger] t[i]).1 == menu_next(t[i].0, es[i]).1 by {
            if i > 0 {
                assert(t[i] == menu_trace(n, rest)[i - 1]);
                assert(rest[i - 1] == es[i]);
            }
        }
        assert forall|i: int| 0 <= i < es.len() - 1 implies (#[trigger] t[i + 1]).0 == menu_next(
            t[i].0,
            es[i],
        ).0 by {
            assert(t[i + 1] == menu_trace(n, rest)[i]);
            if i > 0 {
                assert(t[i] == menu_trace(n, rest)[i - 1]);
                assert(rest[i - 1] == es[i]);
            }
        }
    }
}

/// Law: in a run of the menu from its start, the forced push `git push
/// <remote> <branch> --force` (the step that leaves the menu pushing) runs
/// only as the answer yes to "confirm the forced push?", asked just before
/// it; that question is asked only as the answer yes to "force-push to the
/// remote?", asked just before it; and that one only when the reset
/// dialogue has just ended with success. Both questions default to no.
pub proof fn lemma_menu_force_push_after_reset(pid: u32, es: Seq<EventView>, k: int)
    requires
        0 <= k < es.len(),
        forall|i: int| 0 <= i < es.len() ==> fits(
            menu_awaits((#[trigger] menu_trace(menu_start(pid), es)[i]).0),
            es[i],
        ),
        menu_next(menu_trace(menu_start(pid), es)[k].0, es[k]).0.stage is ForcePushing,
    ensures
        ({
            let t = menu_trace(menu_start(pid), es);
            &&& k >= 2
            &&& es[k] == EventView::Flag(true)
            &&& t[k].1 == ActionView::Git(
                seq!["push"@, t[k].0.config.git_remote_name, t[k].0.config.git_branch, "--force"@],
            )
            &&& es[k - 1] == EventView::Flag(true)
            &&& t[k - 1].1 == ActionView::Confirm(Question::ConfirmForcePushAfterReset, seq![], false)
            &&& t[k - 2].1 == ActionView::Confirm(Question::ForcePushAfterReset, seq![], false)
            &&& t[k - 2].0.stage is Resetting
            &&& dialogue_next(t[k - 2].0.dialog, es[k - 2]).1 is Finish
            &&& dialogue_next(t[k - 2].0.dialog, es[k - 2]).1->Finish_0 is Ok
        }),
{
    let m = menu_start(pid);
    lemma_menu_trace(m, es);
    let t = menu_trace(m, es);
    let _ = t[k];
    lemma_force_push_confirmed_twice(t[k].0, es[k]);
    assert(t[k].0.stage is ConfirmingForce);
    assert(k >= 1);
    let _ = t[k - 1];
    let _ = t[k - 1 + 1];
    lemma_force_push_confirmed_twice(t[k - 1].0, es[k - 1]);
    assert(t[k - 1].0.stage is AskedForce);
    assert(k >= 2);
    let _ = t[k - 2];
    let _ = t[k - 2 + 1];
    lemma_force_push_confirmed_twice(t[k - 2].0, es[k - 2]);
}

// ---------------------------------------------------------------- update stash

/// The update's states and actions for the events `es`: element `i` is the
/// state that event `i` comes to and the action that answers it.
pub open spec fn update_trace(m: UpdateModel, es: Seq<EventView>) -> Seq<(UpdateModel, ActionView)>
    decreases es.len(),
{
    if es.len() == 0 {
        seq![]
    } else {
        let (n, a) = update_next(m, es[0]);
        seq![(m, a)] + update_trace(n, es.drop_first())
    }
}

proof fn lemma_update_trace(m: UpdateModel, es: Seq<EventView>)
    ensures
        update_trace(m, es).len() == es.len(),
        es.len() > 0 ==> update_trace(m, es)[0].0 == m,
        forall|i: int| 0 <= i < es.len() ==> (#[trigger] update_trace(m, es)[i]).1 == update_next(
            update_trace(m, es)[i].0,
            es[i],
        ).1,
        forall|i: int| 0 <= i < es.len() - 1 ==> (#[trigger] update_trace(m, es)[i + 1]).0
            == update_next(update_trace(m, es)[i].0, es[i]).0,
    decreases es.len(),
{
    if es.len() > 0 {
        let (n, a) = update_next(m, es[0]);
        let rest = es.drop_first();
        lemma_update_trace(n, rest);
        let t = update_trace(m, es);
        assert(t == seq![(m, a)] + update_trace(n, rest));
        assert forall|i: int| 0 <= i < es.len() implies (#[trigger] t[i]).1 == update_next(t[i].0, es[i]).1 by {
            if i > 0 {
                assert(t[i] == update_trace(n, rest)[i - 1]);
                assert(rest[i - 1] == es[i]);
            }
        }
        assert forall|i: int| 0 <= i < es.len() - 1 implies (#[trigger] t[i + 1]).0 == update_next(
            t[i].0,
            es[i],
        ).0 by {
            assert(t[i + 1] == update_trace(n, rest)[i]);
            if i > 0 {
                assert(t[i] == update_trace(n, rest)[i - 1]);
                assert(rest[i - 1] == es[i]);
            }
        }
    }
}

/// `git stash pop`.
pub open spec fn stash_pop() -> ActionView {
    ActionView::Git(seq!["stash"@, "pop"@])
}

proof fn lemma_update_stash_step(m: UpdateModel, e: EventView)
    requires
        fits(update_awaits(m), e),
    ensures
        update_next(m, e).1 == stash_pop() ==> (m.stage is RestoreAsked && e == EventView::Flag(true)) || (
        m.stage is ContinueAsked && e == EventView::Flag(false)),
        update_next(m, e).1 == ActionView::Confirm(Question::RestoreStash, seq![], true)
            ==> update_next(m, e).0.stage is RestoreAsked,
        update_next(m, e).0.stage is RestoreAsked ==> update_next(m, e).1 == ActionView::Confirm(
            Question::RestoreStash,
            seq![],
            true,
        ),
        update_next(m, e).0.stage is ContinueAsked ==> update_next(m, e).1 == ActionView::Confirm(
            Question::ContinueUpdate,
            seq![],
            true,
        ),
        m.stage is RestoreAsked && e == EventView::Flag(true) ==> update_next(m, e).1 == stash_pop(),
        m.stage is RestoreAsked && e == EventView::Flag(false) ==> update_next(m, e).1
            == ActionView::Show(Notice::StashKept, seq![]),
{
    reveal(update_next);
    reveal_strlit("stash");
    reveal_strlit("push");
    reveal_strlit("pull");
    reveal_strlit("fetch");
    reveal_strlit("reset");
    assert("push"@[0] != "stash"@[0]);
    assert("pull"@[0] != "stash"@[0]);
    assert("fetch"@[0] != "stash"@[0]);
    assert("reset"@[0] != "stash"@[0]);
    reveal_strlit("pop");
    let a = update_next(m, e).1;
    if a == stash_pop() {
        assert(a->Git_0[0] == "stash"@);
        assert(a->Git_0.len() == 2);
    }
    if m.stage is Pushing {
        let (p, a) = push_next(m.push, e);
        if a is Git {
            assert(a->Git_0[0] == "push"@);
        }
    }
    if m.stage is PushAsked {
        let (p, a) = push_next(update_push_start(m), EventView::Begin);
        assert(a is Confirm);
    }
}

/// Law: in any run of the update dialogue, a yes to "restore the stashed
/// changes?" answers with `git stash pop`, and a no answers with the notice
/// that the changes stay in the stash (and no `git stash pop`).
pub proof fn lemma_update_restore_as_answered(m: UpdateModel, es: Seq<EventView>, k: int)
    requires
        1 <= k < es.len(),
        forall|i: int| 0 <= i < es.len() ==> fits(
            update_awaits((#[trigger] update_trace(m, es)[i]).0),
            es[i],
        ),
        update_trace(m, es)[k - 1].1 == ActionView::Confirm(Question::RestoreStash, seq![], true),
    ensures
        es[k] == EventView::Flag(true) ==> update_trace(m, es)[k].1 == stash_pop(),
        es[k] == EventView::Flag(false) ==> update_trace(m, es)[k].1 == ActionView::Show(
            Notice::StashKept,
            seq![],
        ),
{
    lemma_update_trace(m, es);
    let t = update_trace(m, es);
    let _ = t[k - 1];
    let _ = t[k - 1 + 1];
    lemma_update_stash_step(t[k - 1].0, es[k - 1]);
    let _ = t[k];
    lemma_update_stash_step(t[k].0, es[k]);
}

/// Law: in a run of the update dialogue from its start, `git stash pop`
/// runs only as the answer yes to "restore the stashed changes?" asked just
/// before it, or as the answer no to "go on with the update?" asked just
/// before it (which puts the stash back without updating).
pub proof fn lemma_update_stash_pop_answers(c: ConfigView, es: Seq<EventView>, k: int)
    requires
        0 <= k < es.len(),
        forall|i: int| 0 <= i < es.len() ==> fits(
            update_awaits((#[trigger] update_trace(update_start(c), es)[i]).0),
            es[i],
        ),
        update_trace(update_start(c), es)[k].1 == stash_pop(),
    ensures
        k >= 1,
        ({
            let t = update_trace(update_start(c), es);
            ||| t[k - 1].1 == ActionView::Confirm(Question::RestoreStash, seq![], true) && es[k]
                == EventView::Flag(true)
            ||| t[k - 1].1 == ActionView::Confirm(Question::ContinueUpdate, seq![], true) && es[k]
                == EventView::Flag(false)
        }),
{
    let m = update_start(c);
    lemma_update_trace(m, es);
    let t = update_trace(m, es);
    let _ = t[k];
    lemma_update_stash_step(t[k].0, es[k]);
    assert(k >= 1);
    let _ = t[k - 1];
    let _ = t[k - 1 + 1];
    lemma_update_stash_step(t[k - 1].0, es[k - 1]);
}

// ---------------------------------------------------------------- merge picks

/// The merge's states and actions for the events `es`: element `i` is the
/// state that event `i` comes to and the action that answers it.
pub open spec fn merge_trace(m: MergeModel, es: Seq<EventView>) -> Seq<(MergeModel, ActionView)>
    decreases es.len(),
{
    if es.len() == 0 {
        seq![]
    } else {
        let (n, a) = merge_next(m, es[0]);
        seq![(m, a)] + merge_trace(n, es.drop_first())
    }
}

/// A `git cherry-pick ...` run.
pub open spec fn is_pick(a: ActionView) -> bool {
    &&& a is Git
    &&& a->Git_0.len() >= 1
    &&& a->Git_0[0] == "cherry-pick"@
}

proof fn lemma_merge_step(m: MergeModel, e: EventView)
    requires
        fits(merge_awaits(m), e),
    ensures
        merge_next(m, e).0.temp == m.temp,
        is_pick(merge_next(m, e).1) ==> e == EventView::Flag(true) && (m.stage is PickAsked
            || m.stage is BatchAsked),
        merge_next(m, e).0.stage is PickAsked ==> merge_next(m, e).1 == ActionView::Confirm(
            Question::ConfirmPick,
            seq![],
            true,
        ),
        merge_next(m, e).0.stage is BatchAsked ==> {
            &&& merge_next(m, e).1 is Confirm
            &&& merge_next(m, e).1->Confirm_0 == Question::ConfirmBatch
            &&& merge_next(m, e).1->Confirm_2
        },
        merge_next(m, e).1 == ActionView::Confirm(Question::ConfirmPick, seq![], true)
            ==> merge_next(m, e).0.stage is PickAsked,
        m.stage is PickAsked && e == EventView::Flag(false) ==> merge_next(m, e).1 == ActionView::Git(
            seq!["remote"@, "remove"@, m.temp],
        ) && merge_next(m, e).0.stage is Cleanup,
        m.stage is PickAsked && e == EventView::Flag(true) ==> merge_next(m, e).1 == ActionView::Git(
            seq!["cherry-pick"@, "-s"@, m.sha],
        ),
{
    reveal(merge_next);
    reveal_strlit("cherry-pick");
    reveal_strlit("push");
    reveal_strlit("remote");
    reveal_strlit("fetch");
    assert("push"@[0] != "cherry-pick"@[0]);
    assert("remote"@[0] != "cherry-pick"@[0]);
    assert("fetch"@[0] != "cherry-pick"@[0]);
    if m.stage is Pushing {
        let (p, a) = push_next(m.push, e);
        if a is Git {
            assert(a->Git_0[0] == "push"@);
        }
    }
    if m.stage is PushAsked {
        let (p, a) = push_next(merge_push_start(m), EventView::Begin);
        assert(a is Confirm);
    }
}

proof fn lemma_merge_trace_len(m: MergeModel, es: Seq<EventView>)
    ensures
        merge_trace(m, es).len() == es.len(),
    decreases es.len(),
{
    if es.len() > 0 {
        lemma_merge_trace_len(merge_next(m, es[0]).0, es.drop_first());
    }
}

proof fn lemma_merge_trace(m: MergeModel, es: Seq<EventView>)
    requires
        forall|i: int| 0 <= i < es.len() ==> fits(
            merge_awaits((#[trigger] merge_trace(m, es)[i]).0),
            es[i],
        ),
    ensures
        merge_trace(m, es).len() == es.len(),
        es.len() > 0 ==> merge_trace(m, es)[0].0 == m,
        forall|i: int| 0 <= i < es.len() ==> (#[trigger] merge_trace(m, es)[i]).1 == merge_next(
            merge_trace(m, es)[i].0,
            es[i],
        ).1,
        forall|i: int| 0 <= i < es.len() - 1 ==> (#[trigger] merge_trace(m, es)[i + 1]).0
            == merge_next(merge_trace(m, es)[i].0, es[i]).0,
        forall|i: int| 0 <= i < es.len() ==> (#[trigger] merge_trace(m, es)[i]).0.temp == m.temp,
    decreases es.len(),
{
    if es.len() > 0 {
        let (n, a) = merge_next(m, es[0]);
        let rest = es.drop_first();
        let t = merge_trace(m, es);
        lemma_merge_trace_len(m, es);
        lemma_merge_trace_len(n, rest);
        assert(t == seq![(m, a)] + merge_trace(n, rest));
        assert(t[0].0 == m);
        lemma_merge_step(m, es[0]);
        assert forall|i: int| 0 <= i < rest.len() implies fits(
            merge_awaits((#[trigger] merge_trace(n, rest)[i]).0),
            rest[i],
        ) by {
            assert(t[i + 1] == merge_trace(n, rest)[i]);
            assert(rest[i] == es[i + 1]);
            let _ = t[i + 1];
        }
        lemma_merge_trace(n, rest);
        assert forall|i: int| 0 <= i < es.len() implies (#[trigger] t[i]).1 == merge_next(t[i].0, es[i]).1
            && t[i].0.temp == m.temp by {
            if i > 0 {
                assert(t[i] == merge_trace(n, rest)[i - 1]);
                assert(rest[i - 1] == es[i]);
            }
        }
        assert forall|i: int| 0 <= i < es.len() - 1 implies (#[trigger] t[i + 1]).0 == merge_next(
            t[i].0,
            es[i],
        ).0 by {
            assert(t[i + 1] == merge_trace(n, rest)[i]);
            if i > 0 {
                assert(t[i] == merge_trace(n, rest)[i - 1]);
                assert(rest[i - 1] == es[i]);
            }
        }
    }
}

/// Law: in a run of the merge dialogue of process `pid`, a cherry-pick runs
/// only as the answer yes to "merge this commit?" or "merge these n
/// commits?" asked just before it; a no to "merge this commit?" is answered
/// by removing the temporary remote `temp_merge_remote_<pid>`, with no
/// cherry-pick, after which the dialogue ends with what the removal gave.
pub proof fn lemma_merge_picks_as_answered(c: ConfigView, pid: nat, es: Seq<EventView>, k: int)
    requires
        0 <= k < es.len(),
        forall|i: int| 0 <= i < es.len() ==> fits(
            merge_awaits((#[trigger] merge_trace(merge_start(c, pid), es)[i]).0),
            es[i],
        ),
    ensures
        ({
            let t = merge_trace(merge_start(c, pid), es);
            &&& is_pick(t[k].1) ==> {
                &&& k >= 1
                &&& es[k] == EventView::Flag(true)
                &&& (t[k - 1].1 == ActionView::Confirm(Question::ConfirmPick, seq![], true) || (t[k
                    - 1].1 is Confirm && t[k - 1].1->Confirm_0 == Question::ConfirmBatch))
            }
            &&& (k >= 1 && t[k - 1].1 == ActionView::Confirm(Question::ConfirmPick, seq![], true)
                && es[k] == EventView::Flag(false)) ==> {
                &&& t[k].1 == ActionView::Git(seq!["remote"@, "remove"@, temp_remote(pid)])
                &&& k + 1 < es.len() ==> merge_next(t[k + 1].0, es[k + 1]).1 == ActionView::Finish(
                    match es[k + 1] {
                        EventView::Ran(r) => r,
                        _ => Ok(()),
                    },
                )
            }
        }),
{
    let m = merge_start(c, pid);
    lemma_merge_trace(m, es);
    let t = merge_trace(m, es);
    let _ = t[k];
    lemma_merge_step(t[k].0, es[k]);
    if k >= 1 {
        let _ = t[k - 1];
        let _ = t[k - 1 + 1];
        lemma_merge_step(t[k - 1].0, es[k - 1]);
        if t[k - 1].1 == ActionView::Confirm(Question::ConfirmPick, seq![], true) && es[k]
            == EventView::Flag(false) && k + 1 < es.len() {
            let _ = t[k + 1];
            let _ = t[k + 1];
            assert(t[k + 1].0 == merge_next(t[k].0, es[k]).0);
            reveal(merge_next);
        }
    }
}

} // verus!
