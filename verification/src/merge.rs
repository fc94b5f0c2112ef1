//! Merging commits of another repository's branch (`merge_from_remote`).
use vstd::prelude::*;
use crate::config::{Config, ConfigView};
use crate::flow::{
    Action, ActionView, Awaits, Event, EventView, Notice, Question, ask, ask_blank, confirm,
    finish_err, finish_ok, fits, git, git_read, show, strs, texts,
};
use crate::ops::{
    PushFlow, PushModel, PushStage, do_push, github_url, github_url_of, push_awaits, push_next, remote_ref_of,
};
use crate::records::{lemma_records_width, record_texts, records, records_of};
use crate::text::{column, column_of, joined, decimal, lemma_decimal_parses_back, parse_usize, parsed_usize, push_char, same_text, usize_text};

verus! {

/// The name of the temporary remote of process `pid`.
pub open spec fn temp_remote(pid: nat) -> Seq<char> {
    "temp_merge_remote_"@ + decimal(pid)
}

#[derive(Debug, Clone, Copy, PartialEq, Eq, Structural)]
pub enum MergeStage {
    Start,
    KindsShown,
    KindAsked,
    RepoAsked,
    UrlAsked,
    BranchAsked,
    Clearing,
    Adding,
    FetchModesShown,
    FetchModeAsked,
    DepthAsked,
    FetchAnnounced,
    DepthShown,
    Fetching,
    Fetched,
    MergeModesShown,
    MergeModeAsked,
    ShaAsked,
    PickAsked,
    Picking,
    ConflictShown,
    PickedShown,
    PushAsked,
    Pushing,
    Listing,
    NoCommitsShown,
    Lines,
    StartAsked,
    EndAsked,
    BatchAsked,
    BatchPicking,
    Cleanup,
    CleanupThenFail,
    Done,
}

/// The merge dialogue (`merge_from_remote`).
pub struct MergeFlow {
    pub stage: MergeStage,
    pub temp: String,
    pub url: String,
    pub branch: String,
    pub depth: Option<String>,
    pub sha: String,
    pub commits: Vec<Vec<String>>,
    pub cursor: usize,
    pub ellipsis: bool,
    pub first: usize,
    pub last: usize,
    pub error: String,
    pub remote: String,
    pub push_branch: String,
    pub push: PushFlow,
}

pub struct MergeModel {
    pub stage: MergeStage,
    pub temp: Seq<char>,
    pub url: Seq<char>,
    pub branch: Seq<char>,
    pub depth: Option<Seq<char>>,
    pub sha: Seq<char>,
    pub commits: Seq<Seq<Seq<char>>>,
    pub cursor: usize,
    pub ellipsis: bool,
    pub first: usize,
    pub last: usize,
    pub error: Seq<char>,
    pub remote: Seq<char>,
    pub push_branch: Seq<char>,
    pub push: PushModel,
}

impl View for MergeFlow {
    type V = MergeModel;

    open spec fn view(&self) -> MergeModel {
        MergeModel {
            stage: self.stage,
            temp: self.temp@,
            url: self.url@,
            branch: self.branch@,
            depth: match self.depth {
                Some(d) => Some(d@),
                None => None,
            },
            sha: self.sha@,
            commits: record_texts(self.commits@),
            cursor: self.cursor,
            ellipsis: self.ellipsis,
            first: self.first,
            last: self.last,
            error: self.error@,
            remote: self.remote@,
            push_branch: self.push_branch@,
            push: self.push@,
        }
    }
}

pub open spec fn merge_push_start(m: MergeModel) -> PushModel {
    PushModel {
        stage: PushStage::Start,
        question: "是否现在推送合并的提交？"@,
        remote: m.remote,
        branch: m.push_branch,
        force: false,
    }
}

pub open spec fn merge_start(c: ConfigView, pid: nat) -> MergeModel {
    MergeModel {
        stage: MergeStage::Start,
        temp: temp_remote(pid),
        url: Seq::empty(),
        branch: Seq::empty(),
        depth: None,
        sha: Seq::empty(),
        commits: seq![],
        cursor: 0,
        ellipsis: false,
        first: 0,
        last: 0,
        error: Seq::empty(),
        remote: c.git_remote_name,
        push_branch: c.git_branch,
        push: PushModel {
            stage: PushStage::Start,
            question: "是否现在推送合并的提交？"@,
            remote: c.git_remote_name,
            branch: c.git_branch,
            force: false,
        },
    }
}

pub open spec fn merge_awaits(m: MergeModel) -> Awaits {
    match m.stage {
        MergeStage::Start => Awaits::Begin,
        MergeStage::KindsShown => Awaits::Shown,
        MergeStage::KindAsked => Awaits::Answer,
        MergeStage::RepoAsked => Awaits::Answer,
        MergeStage::UrlAsked => Awaits::Answer,
        MergeStage::BranchAsked => Awaits::Answer,
        MergeStage::Clearing => Awaits::Ran,
        MergeStage::Adding => Awaits::Ran,
        MergeStage::FetchModesShown => Awaits::Shown,
        MergeStage::FetchModeAsked => Awaits::Answer,
        MergeStage::DepthAsked => Awaits::Answer,
        MergeStage::FetchAnnounced => Awaits::Shown,
        MergeStage::DepthShown => Awaits::Shown,
        MergeStage::Fetching => Awaits::Ran,
        MergeStage::Fetched => Awaits::Shown,
        MergeStage::MergeModesShown => Awaits::Shown,
        MergeStage::MergeModeAsked => Awaits::Answer,
        MergeStage::ShaAsked => Awaits::Answer,
        MergeStage::PickAsked => Awaits::Flag,
        MergeStage::Picking => Awaits::Ran,
        MergeStage::ConflictShown => Awaits::Shown,
        MergeStage::PickedShown => Awaits::Shown,
        MergeStage::PushAsked => Awaits::Flag,
        MergeStage::Pushing => push_awaits(m.push),
        MergeStage::Listing => Awaits::Read,
        MergeStage::NoCommitsShown => Awaits::Shown,
        MergeStage::Lines => Awaits::Shown,
        MergeStage::StartAsked => Awaits::Answer,
        MergeStage::EndAsked => Awaits::Answer,
        MergeStage::BatchAsked => Awaits::Flag,
        MergeStage::BatchPicking => Awaits::Ran,
        MergeStage::Cleanup => Awaits::Ran,
        MergeStage::CleanupThenFail => Awaits::Ran,
        MergeStage::Done => Awaits::Nothing,
    }
}

/// The listed commits have a hash and a subject each.
pub open spec fn merge_wf(m: MergeModel) -> bool {
    &&& forall|i: int| 0 <= i < m.commits.len() ==> #[trigger] m.commits[i].len() == 2
    &&& m.stage is BatchAsked ==> 1 <= m.first <= m.last <= m.commits.len()
}

pub open spec fn merge_to(m: MergeModel, stage: MergeStage, a: ActionView) -> (MergeModel, ActionView) {
    (MergeModel { stage, ..m }, a)
}

/// Removing the temporary remote.
pub open spec fn remove_remote(m: MergeModel) -> ActionView {
    ActionView::Git(seq!["remote"@, "remove"@, m.temp])
}

/// The arguments of the fetch: `git fetch --no-tags <temp> <branch>`, with
/// `--depth <n>` for a shallow fetch.
pub open spec fn fetch_args(m: MergeModel) -> Seq<Seq<char>> {
    let base = seq!["fetch"@, "--no-tags"@, m.temp, m.branch];
    match m.depth {
        Some(d) => base + seq!["--depth"@, d],
        None => base,
    }
}

/// The hashes of the chosen commits `first..=last` (counted from 1).
pub open spec fn chosen_hashes(m: MergeModel) -> Seq<Seq<char>> {
    m.commits.subrange(m.first - 1, m.last as int).map_values(|c: Seq<Seq<char>>| c[0])
}

/// The next line of the commit list (number, hash as a column of 8 bytes,
/// subject): the first ten and the last ten with an ellipsis between them
/// where there are more than twenty, else all; after the list the first
/// number is asked for.
pub open spec fn merge_list_step(m: MergeModel) -> (MergeModel, ActionView) {
    let len = m.commits.len();
    let head = if len > 20 {
        10
    } else {
        len
    };
    if (!m.ellipsis && m.cursor < head) || (m.ellipsis && m.cursor < len) {
        let c = m.commits[m.cursor as int];
        (
            MergeModel { stage: MergeStage::Lines, cursor: (m.cursor + 1) as usize, ..m },
            ActionView::Show(Notice::CommitLine, seq![decimal((m.cursor + 1) as nat), column(c[0], 8, 8), c[1]]),
        )
    } else if !m.ellipsis && len > 20 {
        (
            MergeModel { stage: MergeStage::Lines, cursor: (len - 10) as usize, ellipsis: true, ..m },
            ActionView::Show(Notice::Ellipsis, seq![]),
        )
    } else {
        merge_to(m, MergeStage::StartAsked, ActionView::Ask(Question::StartIndex, seq![], "1"@))
    }
}

/// Merges commits of a branch of another repository, through a temporary
/// remote named after the process: the repository is a GitHub
/// `username/repository` (1) or a URL (2); a blank answer at any of these
/// prompts leaves quietly, another kind is an error. The remote is removed
/// first (whatever that gives) and added; the branch is fetched in full or
/// to a given depth, a failed fetch removes the remote and fails with
/// `无法获取远程分支: <error>`. One commit is then cherry-picked by hash
/// (blank: nothing), or a range `first..=last` of the branch's commits,
/// oldest first, is chosen from a list (unparsable numbers count as the
/// first and the last commit; an invalid range removes the remote and fails
/// with `序号无效`). Each cherry-pick is confirmed (default yes); a conflict
/// is reported, the remote removed and git's error returned; after a merge a
/// push may follow. Once added, the remote is removed on every way out: a
/// failed listing or push removes it and then returns its error; an error of
/// a removal replaces the result.
#[verifier::opaque]
pub open spec fn merge_next(m: MergeModel, e: EventView) -> (MergeModel, ActionView) {
    let len = m.commits.len();
    match (m.stage, e) {
        (MergeStage::Start, _) => merge_to(m, MergeStage::KindsShown, ActionView::Show(Notice::RemoteKinds, seq![])),
        (MergeStage::KindsShown, EventView::Shown) => merge_to(
            m,
            MergeStage::KindAsked,
            ActionView::Ask(Question::RemoteKind, seq![], Seq::empty()),
        ),
        (MergeStage::KindAsked, EventView::Answered(k)) => if k.len() == 0 {
            merge_to(m, MergeStage::Done, ActionView::Finish(Ok(())))
        } else if k == "1"@ {
            merge_to(m, MergeStage::RepoAsked, ActionView::Ask(Question::GithubRepo, seq![], Seq::empty()))
        } else if k == "2"@ {
            merge_to(m, MergeStage::UrlAsked, ActionView::Ask(Question::ExternalUrl, seq![], Seq::empty()))
        } else {
            merge_to(m, MergeStage::Done, ActionView::Finish(Err("无效的选择"@)))
        },
        (MergeStage::RepoAsked, EventView::Answered(r)) => if r.len() == 0 {
            merge_to(m, MergeStage::Done, ActionView::Finish(Ok(())))
        } else {
            (
                MergeModel { stage: MergeStage::BranchAsked, url: github_url(r), ..m },
                ActionView::Ask(Question::BranchName, seq![], Seq::empty()),
            )
        },
        (MergeStage::UrlAsked, EventView::Answered(u)) => if u.len() == 0 {
            merge_to(m, MergeStage::Done, ActionView::Finish(Ok(())))
        } else {
            (
                MergeModel { stage: MergeStage::BranchAsked, url: u, ..m },
                ActionView::Ask(Question::BranchName, seq![], Seq::empty()),
            )
        },
        (MergeStage::BranchAsked, EventView::Answered(b)) => if b.len() == 0 {
            merge_to(m, MergeStage::Done, ActionView::Finish(Ok(())))
        } else {
            (MergeModel { stage: MergeStage::Clearing, branch: b, ..m }, remove_remote(m))
        },
        (MergeStage::Clearing, EventView::Ran(_)) => merge_to(
            m,
            MergeStage::Adding,
            ActionView::Git(seq!["remote"@, "add"@, m.temp, m.url]),
        ),
        (MergeStage::Adding, EventView::Ran(Err(err))) => merge_to(m, MergeStage::Done, ActionView::Finish(Err(err))),
        (MergeStage::Adding, EventView::Ran(Ok(()))) => merge_to(
            m,
            MergeStage::FetchModesShown,
            ActionView::Show(Notice::FetchModes, seq![]),
        ),
        (MergeStage::FetchModesShown, EventView::Shown) => merge_to(
            m,
            MergeStage::FetchModeAsked,
            ActionView::Ask(Question::FetchMode, seq![], "1"@),
        ),
        (MergeStage::FetchModeAsked, EventView::Answered(f)) => if f == "2"@ {
            merge_to(m, MergeStage::DepthAsked, ActionView::Ask(Question::FetchDepth, seq![], "50"@))
        } else {
            (
                MergeModel { stage: MergeStage::FetchAnnounced, depth: None, ..m },
                ActionView::Show(Notice::FetchingBranch, seq![m.branch]),
            )
        },
        (MergeStage::DepthAsked, EventView::Answered(d)) => (
            MergeModel { stage: MergeStage::FetchAnnounced, depth: Some(d), ..m },
            ActionView::Show(Notice::FetchingBranch, seq![m.branch]),
        ),
        (MergeStage::FetchAnnounced, EventView::Shown) => match m.depth {
            Some(d) => merge_to(m, MergeStage::DepthShown, ActionView::Show(Notice::ShallowFetch, seq![d])),
            None => merge_to(m, MergeStage::DepthShown, ActionView::Show(Notice::FullFetch, seq![])),
        },
        (MergeStage::DepthShown, EventView::Shown) => merge_to(m, MergeStage::Fetching, ActionView::Git(fetch_args(m))),
        (MergeStage::Fetching, EventView::Ran(Err(err))) => (
            MergeModel { stage: MergeStage::CleanupThenFail, error: "无法获取远程分支: "@ + err, ..m },
            remove_remote(m),
        ),
        (MergeStage::Fetching, EventView::Ran(Ok(()))) => merge_to(
            m,
            MergeStage::Fetched,
            ActionView::Show(Notice::BranchFetched, seq![]),
        ),
        (MergeStage::Fetched, EventView::Shown) => merge_to(
            m,
            MergeStage::MergeModesShown,
            ActionView::Show(Notice::MergeModes, seq![]),
        ),
        (MergeStage::MergeModesShown, EventView::Shown) => merge_to(
            m,
            MergeStage::MergeModeAsked,
            ActionView::Ask(Question::MergeMode, seq![], "1"@),
        ),
        (MergeStage::MergeModeAsked, EventView::Answered(t)) => if t == "1"@ {
            merge_to(m, MergeStage::ShaAsked, ActionView::Ask(Question::CommitSha, seq![], Seq::empty()))
        } else {
            merge_to(
                m,
                MergeStage::Listing,
                ActionView::GitRead(
                    seq!["log"@, m.temp + seq!['/'] + m.branch, "--format=%H|%s"@, "--reverse"@],
                ),
            )
        },
        (MergeStage::ShaAsked, EventView::Answered(s)) => if s.len() == 0 {
            merge_to(m, MergeStage::Cleanup, remove_remote(m))
        } else {
            (
                MergeModel { stage: MergeStage::PickAsked, sha: s, ..m },
                ActionView::Confirm(Question::ConfirmPick, seq![], true),
            )
        },
        (MergeStage::PickAsked, EventView::Flag(yes)) => if !yes {
            merge_to(m, MergeStage::Cleanup, remove_remote(m))
        } else {
            merge_to(m, MergeStage::Picking, ActionView::Git(seq!["cherry-pick"@, "-s"@, m.sha]))
        },
        (MergeStage::Picking, EventView::Ran(Err(err))) => (
            MergeModel { stage: MergeStage::ConflictShown, error: err, ..m },
            ActionView::Show(Notice::PickConflict, seq![]),
        ),
        (MergeStage::Picking, EventView::Ran(Ok(()))) => merge_to(
            m,
            MergeStage::PickedShown,
            ActionView::Show(Notice::Picked, seq![]),
        ),
        (MergeStage::ConflictShown, EventView::Shown) => merge_to(m, MergeStage::CleanupThenFail, remove_remote(m)),
        (MergeStage::PickedShown, EventView::Shown) => merge_to(
            m,
            MergeStage::PushAsked,
            ActionView::Confirm(Question::PushMerged, seq![], true),
        ),
        (MergeStage::PushAsked, EventView::Flag(yes)) => if yes {
            let (p, a) = push_next(merge_push_start(m), EventView::Begin);
            (MergeModel { stage: MergeStage::Pushing, push: p, ..m }, a)
        } else {
            merge_to(m, MergeStage::Cleanup, remove_remote(m))
        },
        (MergeStage::Pushing, _) => {
            let (p, a) = push_next(m.push, e);
            match a {
                ActionView::Finish(Err(err)) => (
                    MergeModel { stage: MergeStage::CleanupThenFail, push: p, error: err, ..m },
                    remove_remote(m),
                ),
                ActionView::Finish(Ok(())) => (
                    MergeModel { stage: MergeStage::Cleanup, push: p, ..m },
                    remove_remote(m),
                ),
                _ => (MergeModel { push: p, ..m }, a),
            }
        },
        (MergeStage::Listing, EventView::Read(Err(err))) => (
            MergeModel { stage: MergeStage::CleanupThenFail, error: err, ..m },
            remove_remote(m),
        ),
        (MergeStage::Listing, EventView::Read(Ok(out))) => {
            let commits = records_of(out, 2);
            if commits.len() == 0 {
                (
                    MergeModel { stage: MergeStage::NoCommitsShown, commits, ellipsis: false, ..m },
                    ActionView::Show(Notice::NoCommits, seq![]),
                )
            } else {
                (
                    MergeModel { stage: MergeStage::Lines, commits, cursor: 0, ellipsis: false, ..m },
                    ActionView::Show(Notice::CommitsFound, seq![decimal(commits.len())]),
                )
            }
        },
        (MergeStage::NoCommitsShown, EventView::Shown) => merge_to(m, MergeStage::Cleanup, remove_remote(m)),
        (MergeStage::Lines, EventView::Shown) => merge_list_step(m),
        (MergeStage::StartAsked, EventView::Answered(t)) => (
            MergeModel {
                stage: MergeStage::EndAsked,
                first: match parsed_usize(t) {
                    Some(n) => n,
                    None => 1,
                },
                ..m
            },
            ActionView::Ask(Question::EndIndex, seq![], decimal(len)),
        ),
        (MergeStage::EndAsked, EventView::Answered(t)) => {
            let last = match parsed_usize(t) {
                Some(n) => n as int,
                None => len as int,
            };
            if m.first < 1 || last > len || m.first > last {
                (
                    MergeModel { stage: MergeStage::CleanupThenFail, error: "序号无效"@, ..m },
                    remove_remote(m),
                )
            } else {
                (
                    MergeModel { stage: MergeStage::BatchAsked, last: last as usize, ..m },
                    ActionView::Confirm(Question::ConfirmBatch, seq![decimal((last - m.first + 1) as nat)], true),
                )
            }
        },
        (MergeStage::BatchAsked, EventView::Flag(yes)) => if !yes {
            merge_to(m, MergeStage::Cleanup, remove_remote(m))
        } else {
            merge_to(
                m,
                MergeStage::BatchPicking,
                ActionView::Git(seq!["cherry-pick"@, "-s"@] + chosen_hashes(m)),
            )
        },
        (MergeStage::BatchPicking, EventView::Ran(Err(err))) => (
            MergeModel { stage: MergeStage::ConflictShown, error: err, ..m },
            ActionView::Show(Notice::BatchConflict, seq![]),
        ),
        (MergeStage::BatchPicking, EventView::Ran(Ok(()))) => merge_to(
            m,
            MergeStage::PickedShown,
            ActionView::Show(Notice::BatchPicked, seq![]),
        ),
        (MergeStage::Cleanup, EventView::Ran(r)) => merge_to(m, MergeStage::Done, ActionView::Finish(r)),
        (MergeStage::CleanupThenFail, EventView::Ran(Err(err))) => merge_to(
            m,
            MergeStage::Done,
            ActionView::Finish(Err(err)),
        ),
        (MergeStage::CleanupThenFail, EventView::Ran(Ok(()))) => merge_to(
            m,
            MergeStage::Done,
            ActionView::Finish(Err(m.error)),
        ),
        _ => (m, ActionView::Finish(Ok(()))),
    }
}

/// The stages in which the temporary remote has been added and not yet
/// removed.
pub open spec fn remote_added(s: MergeStage) -> bool {
    !(s is Start || s is KindsShown || s is KindAsked || s is RepoAsked || s is UrlAsked
        || s is BranchAsked || s is Clearing || s is Adding || s is Cleanup
        || s is CleanupThenFail || s is Done)
}

/// Law: once the temporary remote is added, the dialogue never finishes
/// while the remote is still there: each way out first runs `git remote
/// remove <temp>`, and the dialogue finishes only on the answer to that run.
pub proof fn lemma_temp_remote_removed(m: MergeModel, e: EventView)
    requires
        fits(merge_awaits(m), e),
    ensures
        (remote_added(m.stage) || m.stage is Cleanup || m.stage is CleanupThenFail) ==> {
            let (n, a) = merge_next(m, e);
            ||| remote_added(n.stage) && !(a is Finish)
            ||| (n.stage is Cleanup || n.stage is CleanupThenFail) && a == remove_remote(m)
            ||| (m.stage is Cleanup || m.stage is CleanupThenFail) && n.stage is Done && a is Finish
        },
        m.stage is Adding && e == EventView::Ran(Ok(())) ==> remote_added(merge_next(m, e).0.stage),
{
    reveal(merge_next);
    if m.stage is Pushing {
        crate::protocol::lemma_push_in_step(m.push, e);
    }
    if m.stage is PushAsked {
        crate::protocol::lemma_push_in_step(merge_push_start(m), EventView::Begin);
    }
}

/// Law: asked "merge these n commits?" (default yes) for the chosen range,
/// the merge cherry-picks exactly the hashes of the commits `first..=last`,
/// oldest first, on a yes, and on a no removes the temporary remote and
/// picks nothing.
pub proof fn lemma_merge_batch_as_answered(m: MergeModel, e: EventView)
    requires
        fits(merge_awaits(m), e),
        merge_wf(m),
        m.stage is BatchAsked,
    ensures
        e == EventView::Flag(true) ==> ({
            let a = merge_next(m, e).1;
            &&& a is Git
            &&& a->Git_0.len() == 2 + m.last - m.first + 1
            &&& a->Git_0[0] == "cherry-pick"@
            &&& a->Git_0[1] == "-s"@
            &&& forall|i: int| 0 <= i <= m.last - m.first ==> #[trigger] a->Git_0[2 + i] == m.commits[m.first
                - 1 + i][0]
        }),
        e == EventView::Flag(false) ==> merge_next(m, e).1 == ActionView::Git(
            seq!["remote"@, "remove"@, m.temp],
        ),
{
    reveal(merge_next);
    if e == EventView::Flag(true) {
        let a = merge_next(m, e).1;
        let h = chosen_hashes(m);
        assert(a->Git_0 == seq!["cherry-pick"@, "-s"@] + h);
        assert forall|i: int| 0 <= i <= m.last - m.first implies #[trigger] a->Git_0[2 + i]
            == m.commits[m.first - 1 + i][0] by {
            assert(a->Git_0[2 + i] == h[i]);
        }
    }
}

/// Law: with the first number of the range chosen, a last number `l` with
/// `first <= l <= n` (`n` commits listed, `first >= 1`) asks to merge the
/// `l - first + 1` commits; a range that is not within `1..=n` in order is
/// refused: the temporary remote is removed and the merge fails with
/// `序号无效`.
pub proof fn lemma_merge_range(m: MergeModel, l: usize)
    requires
        m.stage is EndAsked,
    ensures
        ({
            let (p, a) = merge_next(m, EventView::Answered(decimal(l as nat)));
            &&& (1 <= m.first <= l <= m.commits.len()) ==> a == ActionView::Confirm(
                Question::ConfirmBatch,
                seq![decimal((l - m.first + 1) as nat)],
                true,
            ) && p.stage is BatchAsked && p.last == l
            &&& !(1 <= m.first <= l <= m.commits.len()) ==> a == remove_remote(m) && p.stage is CleanupThenFail
                && p.error == "序号无效"@
        }),
{
    reveal(merge_next);
    lemma_decimal_parses_back(l);
}

impl MergeFlow {
    /// The dialogue for the process `pid`, pushing to the configured remote.
    pub fn new(config: &Config, pid: u32) -> (f: MergeFlow)
        ensures
            f@ == merge_start(config@, pid as nat),
    {
        let mut temp = "temp_merge_remote_".to_owned();
        let n = usize_text(pid as usize);
        temp.append(n.as_str());
        let f = MergeFlow {
            stage: MergeStage::Start,
            temp,
            url: String::new(),
            branch: String::new(),
            depth: None,
            sha: String::new(),
            commits: Vec::new(),
            cursor: 0,
            ellipsis: false,
            first: 0,
            last: 0,
            error: String::new(),
            remote: config.git_remote_name.clone(),
            push_branch: config.git_branch.clone(),
            push: PushFlow::new("是否现在推送合并的提交？", config),
        };
        assert(f@.commits =~= seq![]);
        f
    }

    fn to(&mut self, stage: MergeStage, a: Action) -> (r: Action)
        ensures
            (final(self)@, r@) == merge_to(old(self)@, stage, a@),
    {
        self.stage = stage;
        a
    }

    fn remove(&self) -> (a: Action)
        ensures
            a@ == remove_remote(self@),
    {
        let parts = vec!["remote", "remove", self.temp.as_str()];
        assert(strs(parts@) =~= seq!["remote"@, "remove"@, self.temp@]);
        git(parts)
    }

    fn list_step(&mut self) -> (a: Action)
        requires
            merge_wf(old(self)@),
            old(self)@.ellipsis ==> old(self)@.commits.len() > 20,
        ensures
            (final(self)@, a@) == merge_list_step(old(self)@),
            merge_wf(final(self)@),
            final(self)@.ellipsis ==> final(self)@.commits.len() > 20,
    {
        let ghost m = self@;
        let len = self.commits.len();
        let head = if len > 20 {
            10
        } else {
            len
        };
        if (!self.ellipsis && self.cursor < head) || (self.ellipsis && self.cursor < len) {
            let i = self.cursor;
            let c = &self.commits[i];
            assert(m.commits[i as int] == texts(self.commits@[i as int]@));
            assert(m.commits[i as int].len() == 2);
            let n = usize_text(i + 1);
            let hash = column_of(c[0].as_str(), 8, 8);
            let parts = vec![n.as_str(), hash.as_str(), c[1].as_str()];
            assert(strs(parts@) =~= seq![decimal((i + 1) as nat), column(m.commits[i as int][0], 8, 8), m.commits[i as int][1]]);
            let a = show(Notice::CommitLine, parts);
            self.cursor = i + 1;
            self.to(MergeStage::Lines, a)
        } else if !self.ellipsis && len > 20 {
            self.cursor = len - 10;
            self.ellipsis = true;
            let a = show(Notice::Ellipsis, vec![]);
            assert(strs(seq![]) =~= seq![]);
            self.to(MergeStage::Lines, a)
        } else {
            let a = ask(Question::StartIndex, vec![], "1");
            assert(strs(seq![]) =~= seq![]);
            self.to(MergeStage::StartAsked, a)
        }
    }

    /// Steps up to the fetch.
    fn choose_source(&mut self, event: Event) -> (a: Action)
        requires
            fits(merge_awaits(old(self)@), event@),
            old(self)@.stage is Start || old(self)@.stage is KindsShown || old(self)@.stage is KindAsked
                || old(self)@.stage is RepoAsked || old(self)@.stage is UrlAsked
                || old(self)@.stage is BranchAsked || old(self)@.stage is Clearing
                || old(self)@.stage is Adding || old(self)@.stage is FetchModesShown
                || old(self)@.stage is FetchModeAsked || old(self)@.stage is DepthAsked
                || old(self)@.stage is FetchAnnounced || old(self)@.stage is DepthShown
                || old(self)@.stage is Fetching,
        ensures
            (final(self)@, a@) == merge_next(old(self)@, event@),
            final(self)@.commits == old(self)@.commits,
            final(self)@.ellipsis == old(self)@.ellipsis,
    {
        proof {
            reveal(merge_next);
        }
        match self.stage {
            MergeStage::Start => {
                let a = show(Notice::RemoteKinds, vec![]);
                assert(strs(seq![]) =~= seq![]);
                self.to(MergeStage::KindsShown, a)
            },
            MergeStage::KindsShown => {
                let a = ask_blank(Question::RemoteKind, vec![]);
                assert(strs(seq![]) =~= seq![]);
                self.to(MergeStage::KindAsked, a)
            },
            MergeStage::KindAsked => match event {
                Event::Answered(k) => {
                    if k.as_str().is_empty() {
                        self.to(MergeStage::Done, finish_ok())
                    } else if same_text(k.as_str(), "1") {
                        let a = ask_blank(Question::GithubRepo, vec![]);
                        assert(strs(seq![]) =~= seq![]);
                        self.to(MergeStage::RepoAsked, a)
                    } else if same_text(k.as_str(), "2") {
                        let a = ask_blank(Question::ExternalUrl, vec![]);
                        assert(strs(seq![]) =~= seq![]);
                        self.to(MergeStage::UrlAsked, a)
                    } else {
                        self.to(MergeStage::Done, finish_err("无效的选择"))
                    }
                },
                _ => vstd::pervasive::unreached(),
            },
            MergeStage::RepoAsked => match event {
                Event::Answered(r) => {
                    if r.as_str().is_empty() {
                        self.to(MergeStage::Done, finish_ok())
                    } else {
                        self.url = github_url_of(r.as_str());
                        let a = ask_blank(Question::BranchName, vec![]);
                        assert(strs(seq![]) =~= seq![]);
                        self.to(MergeStage::BranchAsked, a)
                    }
                },
                _ => vstd::pervasive::unreached(),
            },
            MergeStage::UrlAsked => match event {
                Event::Answered(u) => {
                    if u.as_str().is_empty() {
                        self.to(MergeStage::Done, finish_ok())
                    } else {
                        self.url = u;
                        let a = ask_blank(Question::BranchName, vec![]);
                        assert(strs(seq![]) =~= seq![]);
                        self.to(MergeStage::BranchAsked, a)
                    }
                },
                _ => vstd::pervasive::unreached(),
            },
            MergeStage::BranchAsked => match event {
                Event::Answered(b) => {
                    if b.as_str().is_empty() {
                        self.to(MergeStage::Done, finish_ok())
                    } else {
                        let a = self.remove();
                        self.branch = b;
                        self.to(MergeStage::Clearing, a)
                    }
                },
                _ => vstd::pervasive::unreached(),
            },
            MergeStage::Clearing => {
                let parts = vec!["remote", "add", self.temp.as_str(), self.url.as_str()];
                assert(strs(parts@) =~= seq!["remote"@, "add"@, self.temp@, self.url@]);
                self.to(MergeStage::Adding, git(parts))
            },
            MergeStage::Adding => match event {
                Event::Ran(Err(err)) => self.to(MergeStage::Done, Action::Finish { result: Err(err) }),
                Event::Ran(Ok(())) => {
                    let a = show(Notice::FetchModes, vec![]);
                    assert(strs(seq![]) =~= seq![]);
                    self.to(MergeStage::FetchModesShown, a)
                },
                _ => vstd::pervasive::unreached(),
            },
            MergeStage::FetchModesShown => {
                let a = ask(Question::FetchMode, vec![], "1");
                assert(strs(seq![]) =~= seq![]);
                self.to(MergeStage::FetchModeAsked, a)
            },
            MergeStage::FetchModeAsked => match event {
                Event::Answered(f) => {
                    if same_text(f.as_str(), "2") {
                        let a = ask(Question::FetchDepth, vec![], "50");
                        assert(strs(seq![]) =~= seq![]);
                        self.to(MergeStage::DepthAsked, a)
                    } else {
                        self.depth = None;
                        let parts = vec![self.branch.as_str()];
                        assert(strs(parts@) =~= seq![self.branch@]);
                        let a = show(Notice::FetchingBranch, parts);
                        self.to(MergeStage::FetchAnnounced, a)
                    }
                },
                _ => vstd::pervasive::unreached(),
            },
            MergeStage::DepthAsked => match event {
                Event::Answered(d) => {
                    self.depth = Some(d);
                    let parts = vec![self.branch.as_str()];
                    assert(strs(parts@) =~= seq![self.branch@]);
                    let a = show(Notice::FetchingBranch, parts);
                    self.to(MergeStage::FetchAnnounced, a)
                },
                _ => vstd::pervasive::unreached(),
            },
            MergeStage::FetchAnnounced => {
                let a = match &self.depth {
                    Some(d) => {
                        let parts = vec![d.as_str()];
                        assert(strs(parts@) =~= seq![d@]);
                        show(Notice::ShallowFetch, parts)
                    },
                    None => {
                        let a = show(Notice::FullFetch, vec![]);
                        assert(strs(seq![]) =~= seq![]);
                        a
                    },
                };
                self.to(MergeStage::DepthShown, a)
            },
            MergeStage::DepthShown => {
                let a = match &self.depth {
                    Some(d) => {
                        let parts = vec!["fetch", "--no-tags", self.temp.as_str(), self.branch.as_str(), "--depth", d.as_str()];
                        assert(strs(parts@) =~= fetch_args(self@));
                        git(parts)
                    },
                    None => {
                        let parts = vec!["fetch", "--no-tags", self.temp.as_str(), self.branch.as_str()];
                        assert(strs(parts@) =~= fetch_args(self@));
                        git(parts)
                    },
                };
                self.to(MergeStage::Fetching, a)
            },
            MergeStage::Fetching => match event {
                Event::Ran(Err(err)) => {
                    let a = self.remove();
                    self.error = joined("无法获取远程分支: ", err.as_str());
                    self.to(MergeStage::CleanupThenFail, a)
                },
                Event::Ran(Ok(())) => {
                    let a = show(Notice::BranchFetched, vec![]);
                    assert(strs(seq![]) =~= seq![]);
                    self.to(MergeStage::Fetched, a)
                },
                _ => vstd::pervasive::unreached(),
            },
            _ => vstd::pervasive::unreached(),
        }
    }

    /// Steps from the fetch on.
    fn pick(&mut self, event: Event) -> (a: Action)
        requires
            fits(merge_awaits(old(self)@), event@),
            merge_wf(old(self)@),
            old(self)@.ellipsis ==> old(self)@.commits.len() > 20,
            !(old(self)@.stage is Start || old(self)@.stage is KindsShown || old(self)@.stage is KindAsked
                || old(self)@.stage is RepoAsked || old(self)@.stage is UrlAsked
                || old(self)@.stage is BranchAsked || old(self)@.stage is Clearing
                || old(self)@.stage is Adding || old(self)@.stage is FetchModesShown
                || old(self)@.stage is FetchModeAsked || old(self)@.stage is DepthAsked
                || old(self)@.stage is FetchAnnounced || old(self)@.stage is DepthShown
                || old(self)@.stage is Fetching || old(self)@.stage is Done),
        ensures
            (final(self)@, a@) == merge_next(old(self)@, event@),
            merge_wf(final(self)@),
            final(self)@.ellipsis ==> final(self)@.commits.len() > 20,
    {
        proof {
            reveal(merge_next);
        }
        let ghost m = self@;
        match self.stage {
            MergeStage::Fetched => {
                let a = show(Notice::MergeModes, vec![]);
                assert(strs(seq![]) =~= seq![]);
                self.to(MergeStage::MergeModesShown, a)
            },
            MergeStage::MergeModesShown => {
                let a = ask(Question::MergeMode, vec![], "1");
                assert(strs(seq![]) =~= seq![]);
                self.to(MergeStage::MergeModeAsked, a)
            },
            MergeStage::MergeModeAsked => match event {
                Event::Answered(t) => {
                    if same_text(t.as_str(), "1") {
                        let a = ask_blank(Question::CommitSha, vec![]);
                        assert(strs(seq![]) =~= seq![]);
                        self.to(MergeStage::ShaAsked, a)
                    } else {
                        let r = remote_ref_of(self.temp.as_str(), self.branch.as_str());
                        let parts = vec!["log", r.as_str(), "--format=%H|%s", "--reverse"];
                        assert(strs(parts@) =~= seq!["log"@, self.temp@ + seq!['/'] + self.branch@, "--format=%H|%s"@, "--reverse"@]);
                        self.to(MergeStage::Listing, git_read(parts))
                    }
                },
                _ => vstd::pervasive::unreached(),
            },
            MergeStage::ShaAsked => match event {
                Event::Answered(s) => {
                    if s.as_str().is_empty() {
                        let a = self.remove();
                        self.to(MergeStage::Cleanup, a)
                    } else {
                        self.sha = s;
                        let a = confirm(Question::ConfirmPick, vec![], true);
                        assert(strs(seq![]) =~= seq![]);
                        self.to(MergeStage::PickAsked, a)
                    }
                },
                _ => vstd::pervasive::unreached(),
            },
            MergeStage::PickAsked => match event {
                Event::Flag(yes) => {
                    if !yes {
                        let a = self.remove();
                        self.to(MergeStage::Cleanup, a)
                    } else {
                        let parts = vec!["cherry-pick", "-s", self.sha.as_str()];
                        assert(strs(parts@) =~= seq!["cherry-pick"@, "-s"@, self.sha@]);
                        self.to(MergeStage::Picking, git(parts))
                    }
                },
                _ => vstd::pervasive::unreached(),
            },
            MergeStage::Picking => match event {
                Event::Ran(Err(err)) => {
                    self.error = err;
                    let a = show(Notice::PickConflict, vec![]);
                    assert(strs(seq![]) =~= seq![]);
                    self.to(MergeStage::ConflictShown, a)
                },
                Event::Ran(Ok(())) => {
                    let a = show(Notice::Picked, vec![]);
                    assert(strs(seq![]) =~= seq![]);
                    self.to(MergeStage::PickedShown, a)
                },
                _ => vstd::pervasive::unreached(),
            },
            MergeStage::ConflictShown => {
                let a = self.remove();
                self.to(MergeStage::CleanupThenFail, a)
            },
            MergeStage::PickedShown => {
                let a = confirm(Question::PushMerged, vec![], true);
                assert(strs(seq![]) =~= seq![]);
                self.to(MergeStage::PushAsked, a)
            },
            MergeStage::PushAsked => match event {
                Event::Flag(yes) => {
                    if yes {
                        self.stage = MergeStage::Pushing;
                        self.push = PushFlow {
                            stage: PushStage::Start,
                            question: "是否现在推送合并的提交？".to_owned(),
                            remote: self.remote.clone(),
                            branch: self.push_branch.clone(),
                            force: false,
                        };
                        do_push(&mut self.push, Event::Begin)
                    } else {
                        let a = self.remove();
                        self.to(MergeStage::Cleanup, a)
                    }
                },
                _ => vstd::pervasive::unreached(),
            },
            MergeStage::Pushing => {
                let a = do_push(&mut self.push, event);
                match a {
                    Action::Finish { result: Err(err) } => {
                        self.stage = MergeStage::CleanupThenFail;
                        self.error = err;
                        self.remove()
                    },
                    Action::Finish { result: Ok(()) } => {
                        self.stage = MergeStage::Cleanup;
                        self.remove()
                    },
                    other => other,
                }
            },
            MergeStage::Listing => match event {
                Event::Read(Err(err)) => {
                    self.error = err;
                    let a = self.remove();
                    self.to(MergeStage::CleanupThenFail, a)
                },
                Event::Read(Ok(out)) => {
                    let commits = records(out.as_str(), 2);
                    proof {
                        lemma_records_width(out@, 0, 2);
                    }
                    if commits.len() == 0 {
                        self.commits = commits;
                        self.ellipsis = false;
                        let a = show(Notice::NoCommits, vec![]);
                        assert(strs(seq![]) =~= seq![]);
                        self.to(MergeStage::NoCommitsShown, a)
                    } else {
                        let n = usize_text(commits.len());
                        let parts = vec![n.as_str()];
                        assert(strs(parts@) =~= seq![decimal(commits@.len() as nat)]);
                        self.commits = commits;
                        self.cursor = 0;
                        self.ellipsis = false;
                        let a = show(Notice::CommitsFound, parts);
                        self.to(MergeStage::Lines, a)
                    }
                },
                _ => vstd::pervasive::unreached(),
            },
            MergeStage::NoCommitsShown => {
                let a = self.remove();
                self.to(MergeStage::Cleanup, a)
            },
            MergeStage::Lines => self.list_step(),
            MergeStage::StartAsked => match event {
                Event::Answered(t) => {
                    self.first = match parse_usize(t.as_str()) {
                        Some(n) => n,
                        None => 1,
                    };
                    let d = usize_text(self.commits.len());
                    let a = ask(Question::EndIndex, vec![], d.as_str());
                    assert(strs(seq![]) =~= seq![]);
                    self.to(MergeStage::EndAsked, a)
                },
                _ => vstd::pervasive::unreached(),
            },
            MergeStage::EndAsked => match event {
                Event::Answered(t) => {
                    let len = self.commits.len();
                    let last = match parse_usize(t.as_str()) {
                        Some(n) => n,
                        None => len,
                    };
                    if self.first < 1 || last > len || self.first > last {
                        let a = self.remove();
                        self.error = "序号无效".to_owned();
                        self.to(MergeStage::CleanupThenFail, a)
                    } else {
                        self.last = last;
                        let n = usize_text(last - self.first + 1);
                        let parts = vec![n.as_str()];
                        assert(strs(parts@) =~= seq![decimal((last - m.first + 1) as nat)]);
                        let a = confirm(Question::ConfirmBatch, parts, true);
                        self.to(MergeStage::BatchAsked, a)
                    }
                },
                _ => vstd::pervasive::unreached(),
            },
            MergeStage::BatchAsked => match event {
                Event::Flag(yes) => {
                    if !yes {
                        let a = self.remove();
                        self.to(MergeStage::Cleanup, a)
                    } else {
                        let a = self.batch_pick();
                        self.to(MergeStage::BatchPicking, a)
                    }
                },
                _ => vstd::pervasive::unreached(),
            },
            MergeStage::BatchPicking => match event {
                Event::Ran(Err(err)) => {
                    self.error = err;
                    let a = show(Notice::BatchConflict, vec![]);
                    assert(strs(seq![]) =~= seq![]);
                    self.to(MergeStage::ConflictShown, a)
                },
                Event::Ran(Ok(())) => {
                    let a = show(Notice::BatchPicked, vec![]);
                    assert(strs(seq![]) =~= seq![]);
                    self.to(MergeStage::PickedShown, a)
                },
                _ => vstd::pervasive::unreached(),
            },
            MergeStage::Cleanup => match event {
                Event::Ran(r) => self.to(MergeStage::Done, Action::Finish { result: r }),
                _ => vstd::pervasive::unreached(),
            },
            MergeStage::CleanupThenFail => match event {
                Event::Ran(Err(err)) => self.to(MergeStage::Done, Action::Finish { result: Err(err) }),
                Event::Ran(Ok(())) => {
                    let r = Action::Finish { result: Err(self.error.clone()) };
                    self.to(MergeStage::Done, r)
                },
                _ => vstd::pervasive::unreached(),
            },
            _ => vstd::pervasive::unreached(),
        }
    }

    /// `git cherry-pick -s` with the hashes of the chosen commits.
    fn batch_pick(&self) -> (a: Action)
        requires
            merge_wf(self@),
            1 <= self.first <= self.last <= self@.commits.len(),
        ensures
            a@ == ActionView::Git(seq!["cherry-pick"@, "-s"@] + chosen_hashes(self@)),
    {
        let mut args: Vec<String> = Vec::new();
        args.push("cherry-pick".to_owned());
        args.push("-s".to_owned());
        let mut i = self.first - 1;
        while i < self.last
            invariant
                merge_wf(self@),
                1 <= self.first <= self.last <= self@.commits.len(),
                self.first - 1 <= i <= self.last,
                texts(args@) == seq!["cherry-pick"@, "-s"@]
                    + self@.commits.subrange(self.first - 1, i as int).map_values(|c: Seq<Seq<char>>| c[0]),
            decreases self.last - i,
        {
            let c = &self.commits[i];
            assert(self@.commits[i as int] == texts(self.commits@[i as int]@));
            assert(self@.commits[i as int].len() == 2);
            let ghost before = args@;
            let h = c[0].clone();
            assert(h@ == self@.commits[i as int][0]);
            args.push(h);
            assert(texts(args@) =~= texts(before).push(h@));
            assert(self@.commits.subrange(self.first - 1, i + 1).map_values(|c: Seq<Seq<char>>| c[0])
                =~= self@.commits.subrange(self.first - 1, i as int).map_values(|c: Seq<Seq<char>>| c[0]).push(h@));
            assert(texts(args@) =~= seq!["cherry-pick"@, "-s"@]
                + self@.commits.subrange(self.first - 1, i + 1).map_values(|c: Seq<Seq<char>>| c[0]));
            i += 1;
        }
        Action::Git { args }
    }
}

/// One step of the merge dialogue (`merge_from_remote`).
pub fn merge_from_remote(flow: &mut MergeFlow, event: Event) -> (a: Action)
    requires
        fits(merge_awaits(old(flow)@), event@),
        merge_wf(old(flow)@),
        old(flow)@.ellipsis ==> old(flow)@.commits.len() > 20,
    ensures
        (final(flow)@, a@) == merge_next(old(flow)@, event@),
        merge_wf(final(flow)@),
        final(flow)@.ellipsis ==> final(flow)@.commits.len() > 20,
{
    proof {
        reveal(merge_next);
    }
    match flow.stage {
        MergeStage::Start | MergeStage::KindsShown | MergeStage::KindAsked | MergeStage::RepoAsked
        | MergeStage::UrlAsked | MergeStage::BranchAsked | MergeStage::Clearing | MergeStage::Adding
        | MergeStage::FetchModesShown | MergeStage::FetchModeAsked | MergeStage::DepthAsked
        | MergeStage::FetchAnnounced | MergeStage::DepthShown | MergeStage::Fetching => flow.choose_source(
            event,
        ),
        MergeStage::Done => vstd::pervasive::unreached(),
        _ => flow.pick(event),
    }
}

} // verus!
