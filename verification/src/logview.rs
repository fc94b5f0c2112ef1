//! The paged commit-log viewer (`view_log_interactive`).
use vstd::prelude::*;
use crate::flow::{
    Action, ActionView, Awaits, Event, EventView, Notice, Question, ask, ask_blank, finish_err,
    finish_ok, fits, git_read, show, strs, texts, words,
};
use crate::records::{entries, entries_of, record_texts};
use crate::text::{
    column, column_of, char_lower_is, decimal, lemma_printed_number, lemma_decimal_parses_back, lower_equals, lower_is, parse_usize, parsed_usize, trim_text,
    trimmed, usize_text,
};

verus! {

/// The number of pages of `len` commits, `size` to a page.
pub open spec fn page_count(len: nat, size: nat) -> nat {
    if size == 0 {
        0
    } else {
        ((len + size - 1) as nat) / size
    }
}

/// The number of commits `git rev-list --count HEAD` reported: its trimmed
/// output parsed, 0 where the run failed or the output is no number.
pub open spec fn reported_total(r: Result<Seq<char>, Seq<char>>) -> usize {
    let text = match r {
        Ok(o) => o,
        Err(_) => "0"@,
    };
    match parsed_usize(trimmed(text)) {
        Some(n) => n,
        None => 0,
    }
}

#[derive(Debug, Clone, Copy, PartialEq, Eq, Structural)]
pub enum LogStage {
    Start,
    Titled,
    Checking,
    Counting,
    Empty,
    Reading,
    Listing,
    Options,
    Choosing,
    GotoAsked,
    SizeAsked,
    DetailAsked,
    Detail,
    Paused,
    Notified,
    Done,
}

/// The viewer: the commits (hash, subject, author, date, body), the page
/// size, the current page, and the rows still to list on this page.
pub struct LogFlow {
    pub stage: LogStage,
    pub commits: Vec<Vec<String>>,
    pub size: usize,
    pub page: usize,
    pub row: usize,
    pub end: usize,
}

pub struct LogModel {
    pub stage: LogStage,
    pub commits: Seq<Seq<Seq<char>>>,
    pub size: usize,
    pub page: usize,
    pub row: usize,
    pub end: usize,
}

impl View for LogFlow {
    type V = LogModel;

    open spec fn view(&self) -> LogModel {
        LogModel {
            stage: self.stage,
            commits: record_texts(self.commits@),
            size: self.size,
            page: self.page,
            row: self.row,
            end: self.end,
        }
    }
}

pub open spec fn log_start() -> LogModel {
    LogModel { stage: LogStage::Start, commits: seq![], size: 20, page: 1, row: 0, end: 0 }
}

pub open spec fn log_awaits(m: LogModel) -> Awaits {
    match m.stage {
        LogStage::Start => Awaits::Begin,
        LogStage::Titled => Awaits::Shown,
        LogStage::Checking => Awaits::Flag,
        LogStage::Counting => Awaits::Read,
        LogStage::Empty => Awaits::Shown,
        LogStage::Reading => Awaits::Read,
        LogStage::Listing => Awaits::Shown,
        LogStage::Options => Awaits::Shown,
        LogStage::Choosing => Awaits::Answer,
        LogStage::GotoAsked => Awaits::Answer,
        LogStage::SizeAsked => Awaits::Answer,
        LogStage::DetailAsked => Awaits::Answer,
        LogStage::Detail => Awaits::Shown,
        LogStage::Paused => Awaits::Answer,
        LogStage::Notified => Awaits::Shown,
        LogStage::Done => Awaits::Nothing,
    }
}

/// The viewer is paging (the commits are read).
pub open spec fn log_paging(m: LogModel) -> bool {
    !(m.stage is Start || m.stage is Titled || m.stage is Checking || m.stage is Counting || m.stage is Empty
        || m.stage is Reading || m.stage is Done)
}

/// The viewer's invariant: while paging, the page size is positive and small
/// enough for the page count to be computed, every commit has five fields,
/// the current page is a page of the log (page 1 of an empty log), and the
/// rows still to list lie on the log.
pub open spec fn log_wf(m: LogModel) -> bool {
    log_paging(m) ==> {
        &&& m.size >= 1
        &&& m.commits.len() + m.size - 1 <= usize::MAX
        &&& forall|i: int| 0 <= i < m.commits.len() ==> #[trigger] m.commits[i].len() == 5
        &&& 1 <= m.page
        &&& m.page <= page_count(m.commits.len(), m.size as nat) || m.page == 1
        &&& m.row <= m.end <= m.commits.len()
    }
}

/// A page size typed at the page-size prompt that the viewer can page with
/// (with a larger one, counting the pages overflows).
pub open spec fn log_size_fits(m: LogModel, e: EventView) -> bool {
    (m.stage is SizeAsked && e is Answered) ==> match parsed_usize(e->Answered_0) {
        Some(n) => n > 0 ==> m.commits.len() + n - 1 <= usize::MAX,
        None => true,
    }
}

/// The top of the viewer's loop: the current page, pulled back to the last
/// page where it lies beyond, and the header of that page.
pub open spec fn log_top(m: LogModel) -> (LogModel, ActionView) {
    let len = m.commits.len();
    let pages = page_count(len, m.size as nat);
    let page = if m.page > pages && pages > 0 {
        pages as usize
    } else {
        m.page
    };
    let start = (page - 1) * m.size;
    let end = if start + m.size < len {
        start + m.size
    } else {
        len as int
    };
    (
        LogModel { stage: LogStage::Listing, page, row: start as usize, end: end as usize, ..m },
        ActionView::Show(
            Notice::PageHeader,
            seq![decimal(page as nat), decimal(pages), decimal(len), decimal(m.size as nat)],
        ),
    )
}

/// A message, after which the loop starts over.
pub open spec fn log_notify(m: LogModel, notice: Notice, args: Seq<Seq<char>>) -> (LogModel, ActionView) {
    (LogModel { stage: LogStage::Notified, ..m }, ActionView::Show(notice, args))
}

/// The pages of the log, `size` commits to a page, newest first, starting at
/// page 1 with 20 commits a page. Outside a repository an error; an empty
/// history (by `git rev-list --count HEAD`) is reported. The commits are read
/// with separators, so a body keeps all its lines. Each page lists its
/// commits (number, then hash, author, date and subject as columns of 8, 12,
/// 16 and 40 bytes, a longer subject cut to 37) and the options: `n` next,
/// `p` previous (each reports when there is none), `g` go to a page, `s` set
/// the page size (back to page 1), `v` show one commit in full (its whole
/// body included), `q` quit; the letters in either case. Invalid numbers and
/// unknown options are reported and the page shown again.
#[verifier::opaque]
pub open spec fn log_next(m: LogModel, e: EventView) -> (LogModel, ActionView) {
    let len = m.commits.len();
    let pages = page_count(len, m.size as nat);
    match (m.stage, e) {
        (LogStage::Start, _) => (LogModel { stage: LogStage::Titled, ..m }, ActionView::Show(Notice::LogTitle, seq![])),
        (LogStage::Titled, EventView::Shown) => (LogModel { stage: LogStage::Checking, ..m }, ActionView::CheckRepo),
        (LogStage::Checking, EventView::Flag(repo)) => if !repo {
            (LogModel { stage: LogStage::Done, ..m }, ActionView::Finish(Err("当前目录不是 Git 仓库"@)))
        } else {
            (
                LogModel { stage: LogStage::Counting, ..m },
                ActionView::GitRead(seq!["rev-list"@, "--count"@, "HEAD"@]),
            )
        },
        (LogStage::Counting, EventView::Read(r)) => if reported_total(r) == 0 {
            (LogModel { stage: LogStage::Empty, ..m }, ActionView::Show(Notice::EmptyHistory, seq![]))
        } else {
            (
                LogModel { stage: LogStage::Reading, ..m },
                ActionView::GitRead(seq!["log"@, "--format=%H%x1f%s%x1f%an%x1f%ad%x1f%b%x1e"@, "--date=iso"@]),
            )
        },
        (LogStage::Empty, EventView::Shown) => (
            LogModel { stage: LogStage::Done, ..m },
            ActionView::Finish(Ok(())),
        ),
        (LogStage::Reading, EventView::Read(Err(err))) => (
            LogModel { stage: LogStage::Done, ..m },
            ActionView::Finish(Err(err)),
        ),
        (LogStage::Reading, EventView::Read(Ok(out))) => log_top(
            LogModel { commits: entries_of(out, 5), size: 20, page: 1, ..m },
        ),
        (LogStage::Listing, EventView::Shown) => if m.row < m.end {
            let c = m.commits[m.row as int];
            (
                LogModel { row: (m.row + 1) as usize, ..m },
                ActionView::Show(
                    Notice::LogRow,
                    seq![
                        decimal((m.row + 1) as nat),
                        column(c[0], 8, 8),
                        column(c[2], 12, 12),
                        column(c[3], 16, 16),
                        column(c[1], 40, 37),
                    ],
                ),
            )
        } else {
            (
                LogModel { stage: LogStage::Options, ..m },
                ActionView::Show(Notice::PagerOptions, seq![decimal(pages), decimal(m.size as nat)]),
            )
        },
        (LogStage::Options, EventView::Shown) => (
            LogModel { stage: LogStage::Choosing, ..m },
            ActionView::Ask(Question::PagerChoice, seq![], Seq::empty()),
        ),
        (LogStage::Choosing, EventView::Answered(c)) => if lower_is(c, "n"@) {
            if m.page < pages {
                log_top(LogModel { page: (m.page + 1) as usize, ..m })
            } else {
                log_notify(m, Notice::LastPage, seq![])
            }
        } else if lower_is(c, "p"@) {
            if m.page > 1 {
                log_top(LogModel { page: (m.page - 1) as usize, ..m })
            } else {
                log_notify(m, Notice::FirstPage, seq![])
            }
        } else if lower_is(c, "g"@) {
            (
                LogModel { stage: LogStage::GotoAsked, ..m },
                ActionView::Ask(Question::GotoPage, seq![decimal(pages)], "1"@),
            )
        } else if lower_is(c, "s"@) {
            (
                LogModel { stage: LogStage::SizeAsked, ..m },
                ActionView::Ask(Question::PageSize, seq![], decimal(m.size as nat)),
            )
        } else if lower_is(c, "v"@) {
            (
                LogModel { stage: LogStage::DetailAsked, ..m },
                ActionView::Ask(Question::DetailIndex, seq![], Seq::empty()),
            )
        } else if lower_is(c, "q"@) {
            (LogModel { stage: LogStage::Done, ..m }, ActionView::Finish(Ok(())))
        } else {
            log_notify(m, Notice::InvalidOption, seq![])
        },
        (LogStage::GotoAsked, EventView::Answered(t)) => match parsed_usize(t) {
            Some(p) => if 1 <= p <= pages {
                log_top(LogModel { page: p, ..m })
            } else {
                log_notify(m, Notice::PageOutOfRange, seq![decimal(pages)])
            },
            None => log_notify(m, Notice::InvalidPage, seq![]),
        },
        (LogStage::SizeAsked, EventView::Answered(t)) => match parsed_usize(t) {
            Some(n) => if n > 0 {
                log_notify(LogModel { size: n, page: 1, ..m }, Notice::PageSizeSet, seq![decimal(n as nat)])
            } else {
                log_notify(m, Notice::PageSizeNotPositive, seq![])
            },
            None => log_notify(m, Notice::NotANumber, seq![]),
        },
        (LogStage::DetailAsked, EventView::Answered(t)) => match parsed_usize(t) {
            Some(i) => if 1 <= i <= len {
                let c = m.commits[i - 1];
                (
                    LogModel { stage: LogStage::Detail, ..m },
                    ActionView::Show(Notice::CommitDetails, seq![decimal(i as nat), c[0], c[2], c[3], c[1], c[4]]),
                )
            } else {
                log_notify(m, Notice::IndexOutOfRange, seq![decimal(len)])
            },
            None => log_notify(m, Notice::NotANumber, seq![]),
        },
        (LogStage::Detail, EventView::Shown) => (
            LogModel { stage: LogStage::Paused, ..m },
            ActionView::Ask(Question::PressEnter, seq![], Seq::empty()),
        ),
        (LogStage::Paused, EventView::Answered(_)) => log_top(m),
        (LogStage::Notified, EventView::Shown) => log_top(m),
        _ => (m, ActionView::Finish(Ok(()))),
    }
}

/// Law: with `git rev-list --count HEAD` printing a positive total, the
/// viewer goes on to read the log; with a total of 0, or no total at all,
/// it reports an empty history and ends with success.
pub proof fn lemma_log_follows_total(m: LogModel, n: nat, err: Seq<char>)
    requires
        m.stage is Counting,
        n <= usize::MAX,
    ensures
        n > 0 ==> {
            let (p, a) = log_next(m, EventView::Read(Ok(decimal(n) + seq!['\n'])));
            &&& a == ActionView::GitRead(
                seq!["log"@, "--format=%H%x1f%s%x1f%an%x1f%ad%x1f%b%x1e"@, "--date=iso"@],
            )
            &&& p.stage is Reading
        },
        n == 0 ==> {
            let (p, a) = log_next(m, EventView::Read(Ok(decimal(n) + seq!['\n'])));
            &&& a == ActionView::Show(Notice::EmptyHistory, seq![])
            &&& log_next(p, EventView::Shown).1 == ActionView::Finish(Ok(()))
        },
        log_next(m, EventView::Read(Err(err))).1 == ActionView::Show(Notice::EmptyHistory, seq![]),
{
    reveal(log_next);
    lemma_printed_number(n);
    lemma_printed_number(0);
    reveal_strlit("0");
    assert("0"@ =~= decimal(0));
}

/// Law: at "go to page", a typed page `p` within `1..=T` (`T` the page
/// count) is shown; any other number is refused with the range; a text that
/// is not a number is refused as such. At "page size", a typed size `s > 0`
/// becomes the page size and the viewer goes back to page 1; 0 and
/// non-numbers are refused and leave size and page as they were.
pub proof fn lemma_pager_numbers(m: LogModel, p: usize, t: Seq<char>)
    requires
        log_wf(m),
        parsed_usize(t) is None,
    ensures
        m.stage is GotoAsked ==> {
            let pages = page_count(m.commits.len(), m.size as nat);
            let (n, a) = log_next(m, EventView::Answered(decimal(p as nat)));
            &&& 1 <= p <= pages ==> a is Show && a->Show_0 == Notice::PageHeader && n.page == p
            &&& !(1 <= p <= pages) ==> a == ActionView::Show(Notice::PageOutOfRange, seq![decimal(pages)])
                && n.page == m.page
            &&& log_next(m, EventView::Answered(t)).1 == ActionView::Show(Notice::InvalidPage, seq![])
        },
        m.stage is SizeAsked ==> {
            let (n, a) = log_next(m, EventView::Answered(decimal(p as nat)));
            &&& p > 0 ==> a == ActionView::Show(Notice::PageSizeSet, seq![decimal(p as nat)]) && n.size
                == p && n.page == 1
            &&& p == 0 ==> a == ActionView::Show(Notice::PageSizeNotPositive, seq![]) && n.size == m.size
                && n.page == m.page
            &&& log_next(m, EventView::Answered(t)).1 == ActionView::Show(Notice::NotANumber, seq![])
        },
{
    reveal(log_next);
    lemma_decimal_parses_back(p);
    if m.stage is GotoAsked {
        let pages = page_count(m.commits.len(), m.size as nat);
        if 1 <= p <= pages {
            lemma_log_top(LogModel { page: p, ..m });
        }
    }
}

/// What a page shown from `m` holds.
pub open spec fn page_shown(n: LogModel, a: ActionView) -> bool {
    let len = n.commits.len();
    let pages = page_count(len, n.size as nat);
    &&& 1 <= n.page
    &&& n.page <= pages || pages == 0
    &&& pages * n.size >= len
    &&& pages >= 1 ==> (pages - 1) * n.size < len
    &&& a == ActionView::Show(
        Notice::PageHeader,
        seq![decimal(n.page as nat), decimal(pages), decimal(len), decimal(n.size as nat)],
    )
    &&& n.row == (n.page - 1) * n.size
    &&& n.end == if n.page * n.size < len {
        n.page * n.size
    } else {
        len as int
    }
    &&& n.stage is Listing
}

proof fn lemma_log_top(m: LogModel)
    requires
        m.size >= 1,
        m.commits.len() + m.size - 1 <= usize::MAX,
        1 <= m.page,
        m.page <= page_count(m.commits.len(), m.size as nat) || m.page == 1,
    ensures
        page_shown(log_top(m).0, log_top(m).1),
        log_top(m).0.commits == m.commits,
        log_top(m).0.size == m.size,
        m.page <= page_count(m.commits.len(), m.size as nat) ==> log_top(m).0.page == m.page,
{
    let len = m.commits.len();
    let pages = page_count(len, m.size as nat);
    let page = if m.page > pages && pages > 0 {
        pages as usize
    } else {
        m.page
    };
    lemma_page_bounds(len, m.size as nat, page as nat);
    assert(pages * m.size >= len && (pages >= 1 ==> (pages - 1) * m.size < len)) by (nonlinear_arith)
        requires
            m.size >= 1,
            pages == ((len + m.size - 1) as nat) / (m.size as nat),
    ;
    assert(page * m.size == (page - 1) * m.size + m.size) by (nonlinear_arith);
}

/// Law: every page the viewer shows is a page of the log: its number `p`
/// is at least 1 and at most the page count `T` (the ceiling of commits over
/// page size: `T * size >= commits > (T - 1) * size`; an empty log has page 1
/// of 0), the header gives `p`, `T`, the number of commits and the page
/// size, and the rows that follow are those of the commits `(p - 1) * size`
/// up to `min(p * size, commits)`.
pub proof fn lemma_log_page_shown(m: LogModel, e: EventView)
    requires
        fits(log_awaits(m), e),
        log_wf(m),
        (e is Read && e->Read_0 is Ok) ==> e->Read_0->Ok_0.len() <= usize::MAX,
    ensures
        (log_next(m, e).1 is Show && log_next(m, e).1->Show_0 == Notice::PageHeader) ==> page_shown(
            log_next(m, e).0,
            log_next(m, e).1,
        ),
{
    reveal(log_next);
    let len = m.commits.len();
    let pages = page_count(len, m.size as nat);
    match (m.stage, e) {
        (LogStage::Reading, EventView::Read(Ok(out))) => {
            crate::records::lemma_entries_count(out, 5);
            lemma_log_top(LogModel { commits: entries_of(out, 5), size: 20, page: 1, ..m });
        },
        (LogStage::Choosing, EventView::Answered(c)) => {
            if m.page < pages {
                lemma_log_top(LogModel { page: (m.page + 1) as usize, ..m });
            }
            if m.page > 1 {
                lemma_log_top(LogModel { page: (m.page - 1) as usize, ..m });
            }
        },
        (LogStage::GotoAsked, EventView::Answered(t)) => {
            match parsed_usize(t) {
                Some(p) => {
                    if 1 <= p <= pages {
                        lemma_log_top(LogModel { page: p, ..m });
                    }
                },
                None => {},
            }
        },
        (LogStage::Paused, _) => {
            lemma_log_top(m);
        },
        (LogStage::Notified, _) => {
            lemma_log_top(m);
        },
        _ => {},
    }
}

/// Law: the pager's options move the page as follows: `n` to the next page
/// where there is one (else it reports the last page), `p` to the previous
/// page where there is one (else it reports the first page), `q` ends the
/// viewer; any case of the letters.
pub proof fn lemma_pager_moves(m: LogModel, choice: Seq<char>)
    requires
        m.stage is Choosing,
        log_wf(m),
    ensures
        lower_is(choice, "n"@) && m.page < page_count(m.commits.len(), m.size as nat) ==> {
            &&& log_next(m, EventView::Answered(choice)).1 is Show
            &&& log_next(m, EventView::Answered(choice)).1->Show_0 == Notice::PageHeader
            &&& log_next(m, EventView::Answered(choice)).0.page == m.page + 1
        },
        lower_is(choice, "n"@) && m.page >= page_count(m.commits.len(), m.size as nat) ==> {
            &&& log_next(m, EventView::Answered(choice)).1 == ActionView::Show(Notice::LastPage, seq![])
            &&& log_next(m, EventView::Answered(choice)).0.page == m.page
        },
        lower_is(choice, "p"@) && m.page > 1 ==> {
            &&& log_next(m, EventView::Answered(choice)).1 is Show
            &&& log_next(m, EventView::Answered(choice)).1->Show_0 == Notice::PageHeader
            &&& log_next(m, EventView::Answered(choice)).0.page == m.page - 1
        },
        lower_is(choice, "p"@) && m.page <= 1 ==> {
            &&& log_next(m, EventView::Answered(choice)).1 == ActionView::Show(Notice::FirstPage, seq![])
            &&& log_next(m, EventView::Answered(choice)).0.page == m.page
        },
        lower_is(choice, "q"@) ==> log_next(m, EventView::Answered(choice)).1 == ActionView::Finish(
            Ok(()),
        ),
{
    reveal(log_next);
    reveal_strlit("n");
    reveal_strlit("p");
    reveal_strlit("q");
    if choice.len() == 1 {
        let c = choice[0];
        assert("n"@[0] == 'n' && "p"@[0] == 'p' && "q"@[0] == 'q');
        assert(lower_is(choice, "n"@) == char_lower_is(c, "n"@[0]));
        assert(lower_is(choice, "p"@) == char_lower_is(c, "p"@[0]));
        assert(lower_is(choice, "q"@) == char_lower_is(c, "q"@[0]));
        assert(lower_is(choice, "n"@) == char_lower_is(c, 'n'));
        assert(lower_is(choice, "p"@) == char_lower_is(c, 'p'));
        assert(lower_is(choice, "q"@) == char_lower_is(c, 'q'));
        assert(!(char_lower_is(c, 'n') && char_lower_is(c, 'p')));
        assert(!(char_lower_is(c, 'n') && char_lower_is(c, 'q')));
        assert(!(char_lower_is(c, 'p') && char_lower_is(c, 'q')));
        reveal_strlit("g");
        reveal_strlit("s");
        reveal_strlit("v");
        assert("g"@[0] == 'g' && "s"@[0] == 's' && "v"@[0] == 'v');
        assert(lower_is(choice, "g"@) == char_lower_is(c, "g"@[0]));
        assert(lower_is(choice, "s"@) == char_lower_is(c, "s"@[0]));
        assert(lower_is(choice, "v"@) == char_lower_is(c, "v"@[0]));
        assert(!(char_lower_is(c, 'g') && char_lower_is(c, 'q')));
        assert(!(char_lower_is(c, 's') && char_lower_is(c, 'q')));
        assert(!(char_lower_is(c, 'v') && char_lower_is(c, 'q')));
    }
    let pages = page_count(m.commits.len(), m.size as nat);
    if m.page < pages {
        lemma_log_top(LogModel { page: (m.page + 1) as usize, ..m });
    }
    if m.page > 1 {
        lemma_log_top(LogModel { page: (m.page - 1) as usize, ..m });
    }
}

proof fn lemma_page_bounds(len: nat, size: nat, page: nat)
    requires
        size >= 1,
        1 <= page,
        page <= page_count(len, size) || page == 1,
        len + size - 1 <= usize::MAX,
        size <= usize::MAX,
    ensures
        (page - 1) * size <= len,
        (page - 1) * size < len || len == 0,
        (page - 1) * size + size <= usize::MAX,
{
    let pages = page_count(len, size);
    assert(pages * size >= len && (pages >= 1 ==> (pages - 1) * size < len)) by (nonlinear_arith)
        requires
            size >= 1,
            pages == ((len + size - 1) as nat) / size,
    ;
    if page > 1 {
        assert((page - 1) * size <= (pages - 1) * size) by (nonlinear_arith)
            requires
                page <= pages,
                size >= 1,
        ;
    } else {
        assert((page - 1) * size == 0) by (nonlinear_arith)
            requires
                page == 1,
        ;
        if len > 0 {
            assert(pages >= 1) by (nonlinear_arith)
                requires
                    size >= 1,
                    len >= 1,
                    pages == ((len + size - 1) as nat) / size,
            ;
        }
    }
}

impl LogFlow {
    pub fn new() -> (f: LogFlow)
        ensures
            f@ == log_start(),
    {
        let f = LogFlow { stage: LogStage::Start, commits: Vec::new(), size: 20, page: 1, row: 0, end: 0 };
        assert(f@.commits =~= log_start().commits);
        f
    }

    fn pages(&self) -> (n: usize)
        requires
            self.size >= 1,
            self.commits@.len() + self.size - 1 <= usize::MAX,
        ensures
            n == page_count(self.commits@.len(), self.size as nat),
    {
        let n = (self.commits.len() + (self.size - 1)) / self.size;
        assert(n == ((self.commits@.len() + self.size - 1) as nat) / (self.size as nat));
        n
    }

    fn top(&mut self) -> (a: Action)
        requires
            old(self)@.size >= 1,
            old(self)@.commits.len() + old(self)@.size - 1 <= usize::MAX,
            forall|i: int| 0 <= i < old(self)@.commits.len() ==> #[trigger] old(self)@.commits[i].len() == 5,
            1 <= old(self)@.page,
            old(self)@.page <= page_count(old(self)@.commits.len(), old(self)@.size as nat) || old(self)@.page == 1,
        ensures
            (final(self)@, a@) == log_top(old(self)@),
            log_wf(final(self)@),
    {
        let len = self.commits.len();
        let pages = self.pages();
        if self.page > pages && pages > 0 {
            self.page = pages;
        }
        proof {
            lemma_page_bounds(len as nat, self.size as nat, self.page as nat);
        }
        let start = (self.page - 1) * self.size;
        let end = if start + self.size < len {
            start + self.size
        } else {
            len
        };
        self.stage = LogStage::Listing;
        self.row = start;
        self.end = end;
        let a = usize_text(self.page);
        let b = usize_text(pages);
        let c = usize_text(len);
        let d = usize_text(self.size);
        let parts = vec![a.as_str(), b.as_str(), c.as_str(), d.as_str()];
        assert(strs(parts@) =~= seq![decimal(self.page as nat), decimal(pages as nat), decimal(len as nat), decimal(self.size as nat)]);
        show(Notice::PageHeader, parts)
    }

    fn notify(&mut self, notice: Notice, args: Vec<&str>) -> (a: Action)
        ensures
            (final(self)@, a@) == log_notify(old(self)@, notice, strs(args@)),
    {
        self.stage = LogStage::Notified;
        show(notice, args)
    }

    fn on_counting(&mut self, event: Event) -> (a: Action)
        requires
            old(self)@.stage == LogStage::Counting,
            fits(log_awaits(old(self)@), event@),
            log_wf(old(self)@),
            log_size_fits(old(self)@, event@),
        ensures
            (final(self)@, a@) == log_next(old(self)@, event@),
            log_wf(final(self)@),
    {
        proof {
            reveal(log_next);
        }
        let ghost mm = self@;
        match event {
        Event::Read(r) => {
            let text = match r {
                Ok(o) => o,
                Err(_) => "0".to_owned(),
            };
            let t = trim_text(text.as_str());
            let total = match parse_usize(t.as_str()) {
                Some(n) => n,
                None => 0,
            };
            if total == 0 {
                self.stage = LogStage::Empty;
                let a = show(Notice::EmptyHistory, vec![]);
                assert(strs(seq![]) =~= seq![]);
                a
            } else {
                self.stage = LogStage::Reading;
                let parts = vec!["log", "--format=%H%x1f%s%x1f%an%x1f%ad%x1f%b%x1e", "--date=iso"];
                assert(strs(parts@) =~= seq!["log"@, "--format=%H%x1f%s%x1f%an%x1f%ad%x1f%b%x1e"@, "--date=iso"@]);
                git_read(parts)
            }
        },
        _ => vstd::pervasive::unreached(),
    }
    }

    fn on_listing(&mut self, event: Event) -> (a: Action)
        requires
            old(self)@.stage == LogStage::Listing,
            fits(log_awaits(old(self)@), event@),
            log_wf(old(self)@),
            log_size_fits(old(self)@, event@),
        ensures
            (final(self)@, a@) == log_next(old(self)@, event@),
            log_wf(final(self)@),
    {
        proof {
            reveal(log_next);
        }
        let ghost mm = self@;
        {
        if self.row < self.end {
            let i = self.row;
            let c = &self.commits[i];
            assert(mm.commits[i as int] == texts(self.commits@[i as int]@));
            assert(c@.len() == 5);
            let n = usize_text(i + 1);
            let hash = column_of(c[0].as_str(), 8, 8);
            let author = column_of(c[2].as_str(), 12, 12);
            let date = column_of(c[3].as_str(), 16, 16);
            let subject = column_of(c[1].as_str(), 40, 37);
            let parts = vec![n.as_str(), hash.as_str(), author.as_str(), date.as_str(), subject.as_str()];
            proof {
                assert(texts(c@) == mm.commits[i as int]);
                assert(strs(parts@) =~= seq![
                    decimal((i + 1) as nat),
                    column(mm.commits[i as int][0], 8, 8),
                    column(mm.commits[i as int][2], 12, 12),
                    column(mm.commits[i as int][3], 16, 16),
                    column(mm.commits[i as int][1], 40, 37),
                ]);
            }
            self.row = i + 1;
            show(Notice::LogRow, parts)
        } else {
            self.stage = LogStage::Options;
            let pages = self.pages();
            let a = usize_text(pages);
            let b = usize_text(self.size);
            let parts = vec![a.as_str(), b.as_str()];
            assert(strs(parts@) =~= seq![decimal(pages as nat), decimal(self.size as nat)]);
            show(Notice::PagerOptions, parts)
        }
    }
    }

    fn on_choosing(&mut self, event: Event) -> (a: Action)
        requires
            old(self)@.stage == LogStage::Choosing,
            fits(log_awaits(old(self)@), event@),
            log_wf(old(self)@),
            log_size_fits(old(self)@, event@),
        ensures
            (final(self)@, a@) == log_next(old(self)@, event@),
            log_wf(final(self)@),
    {
        proof {
            reveal(log_next);
        }
        let ghost mm = self@;
        match event {
        Event::Answered(c) => {
            let pages = self.pages();
            if lower_equals(c.as_str(), "n") {
                if self.page < pages {
                    self.page = self.page + 1;
                    self.top()
                } else {
                    let a = self.notify(Notice::LastPage, vec![]);
                    assert(strs(seq![]) =~= seq![]);
                    a
                }
            } else if lower_equals(c.as_str(), "p") {
                if self.page > 1 {
                    self.page = self.page - 1;
                    self.top()
                } else {
                    let a = self.notify(Notice::FirstPage, vec![]);
                    assert(strs(seq![]) =~= seq![]);
                    a
                }
            } else if lower_equals(c.as_str(), "g") {
                self.stage = LogStage::GotoAsked;
                let t = usize_text(pages);
                let parts = vec![t.as_str()];
                assert(strs(parts@) =~= seq![decimal(pages as nat)]);
                ask(Question::GotoPage, parts, "1")
            } else if lower_equals(c.as_str(), "s") {
                self.stage = LogStage::SizeAsked;
                let t = usize_text(self.size);
                let a = ask(Question::PageSize, vec![], t.as_str());
                assert(strs(seq![]) =~= seq![]);
                a
            } else if lower_equals(c.as_str(), "v") {
                self.stage = LogStage::DetailAsked;
                let a = ask_blank(Question::DetailIndex, vec![]);
                assert(strs(seq![]) =~= seq![]);
                a
            } else if lower_equals(c.as_str(), "q") {
                self.stage = LogStage::Done;
                finish_ok()
            } else {
                let a = self.notify(Notice::InvalidOption, vec![]);
                assert(strs(seq![]) =~= seq![]);
                a
            }
        },
        _ => vstd::pervasive::unreached(),
    }
    }

    fn on_goto_asked(&mut self, event: Event) -> (a: Action)
        requires
            old(self)@.stage == LogStage::GotoAsked,
            fits(log_awaits(old(self)@), event@),
            log_wf(old(self)@),
            log_size_fits(old(self)@, event@),
        ensures
            (final(self)@, a@) == log_next(old(self)@, event@),
            log_wf(final(self)@),
    {
        proof {
            reveal(log_next);
        }
        let ghost mm = self@;
        match event {
        Event::Answered(t) => {
            let pages = self.pages();
            match parse_usize(t.as_str()) {
                Some(p) => {
                    if 1 <= p && p <= pages {
                        self.page = p;
                        self.top()
                    } else {
                        let s = usize_text(pages);
                        let parts = vec![s.as_str()];
                        assert(strs(parts@) =~= seq![decimal(pages as nat)]);
                        self.notify(Notice::PageOutOfRange, parts)
                    }
                },
                None => {
                    let a = self.notify(Notice::InvalidPage, vec![]);
                    assert(strs(seq![]) =~= seq![]);
                    a
                },
            }
        },
        _ => vstd::pervasive::unreached(),
    }
    }

    fn on_size_asked(&mut self, event: Event) -> (a: Action)
        requires
            old(self)@.stage == LogStage::SizeAsked,
            fits(log_awaits(old(self)@), event@),
            log_wf(old(self)@),
            log_size_fits(old(self)@, event@),
        ensures
            (final(self)@, a@) == log_next(old(self)@, event@),
            log_wf(final(self)@),
    {
        proof {
            reveal(log_next);
        }
        let ghost mm = self@;
        match event {
        Event::Answered(t) => match parse_usize(t.as_str()) {
            Some(n) => {
                if n > 0 {
                    self.size = n;
                    self.page = 1;
                    let s = usize_text(n);
                    let parts = vec![s.as_str()];
                    assert(strs(parts@) =~= seq![decimal(n as nat)]);
                    self.notify(Notice::PageSizeSet, parts)
                } else {
                    let a = self.notify(Notice::PageSizeNotPositive, vec![]);
                    assert(strs(seq![]) =~= seq![]);
                    a
                }
            },
            None => {
                let a = self.notify(Notice::NotANumber, vec![]);
                assert(strs(seq![]) =~= seq![]);
                a
            },
        },
        _ => vstd::pervasive::unreached(),
    }
    }

    fn on_detail_asked(&mut self, event: Event) -> (a: Action)
        requires
            old(self)@.stage == LogStage::DetailAsked,
            fits(log_awaits(old(self)@), event@),
            log_wf(old(self)@),
            log_size_fits(old(self)@, event@),
        ensures
            (final(self)@, a@) == log_next(old(self)@, event@),
            log_wf(final(self)@),
    {
        proof {
            reveal(log_next);
        }
        let ghost mm = self@;
        match event {
        Event::Answered(t) => match parse_usize(t.as_str()) {
            Some(i) => {
                if 1 <= i && i <= self.commits.len() {
                    self.stage = LogStage::Detail;
                    let c = &self.commits[i - 1];
                    assert(mm.commits[i - 1] == texts(self.commits@[i - 1]@));
                    assert(mm.commits[i - 1].len() == 5);
                    assert(c@.len() == 5);
                    let n = usize_text(i);
                    let parts = vec![n.as_str(), c[0].as_str(), c[2].as_str(), c[3].as_str(), c[1].as_str(), c[4].as_str()];
                    proof {
                        assert(texts(c@) == mm.commits[i - 1]);
                        assert(strs(parts@) =~= seq![decimal(i as nat), mm.commits[i - 1][0], mm.commits[i - 1][2], mm.commits[i - 1][3], mm.commits[i - 1][1], mm.commits[i - 1][4]]);
                    }
                    show(Notice::CommitDetails, parts)
                } else {
                    let s = usize_text(self.commits.len());
                    let parts = vec![s.as_str()];
                    assert(strs(parts@) =~= seq![decimal(self.commits@.len() as nat)]);
                    self.notify(Notice::IndexOutOfRange, parts)
                }
            },
            None => {
                let a = self.notify(Notice::NotANumber, vec![]);
                assert(strs(seq![]) =~= seq![]);
                a
            },
        },
        _ => vstd::pervasive::unreached(),
    }
    }

}

/// One step of the log viewer (`view_log_interactive`).
pub fn view_log_interactive(flow: &mut LogFlow, event: Event) -> (a: Action)
    requires
        fits(log_awaits(old(flow)@), event@),
        log_wf(old(flow)@),
        log_size_fits(old(flow)@, event@),
    ensures
        (final(flow)@, a@) == log_next(old(flow)@, event@),
        log_wf(final(flow)@),
{
    proof {
        reveal(log_next);
    }
    let ghost m = flow@;
    match flow.stage {
        LogStage::Start => {
            flow.stage = LogStage::Titled;
            let a = show(Notice::LogTitle, vec![]);
            assert(strs(seq![]) =~= seq![]);
            a
        },
        LogStage::Titled => {
            flow.stage = LogStage::Checking;
            Action::CheckRepo
        },
        LogStage::Checking => match event {
            Event::Flag(repo) => {
                if !repo {
                    flow.stage = LogStage::Done;
                    finish_err("当前目录不是 Git 仓库")
                } else {
                    flow.stage = LogStage::Counting;
                    let parts = vec!["rev-list", "--count", "HEAD"];
                    assert(strs(parts@) =~= seq!["rev-list"@, "--count"@, "HEAD"@]);
                    git_read(parts)
                }
            },
            _ => vstd::pervasive::unreached(),
        },
        LogStage::Counting => flow.on_counting(event),
        LogStage::Empty => {
            flow.stage = LogStage::Done;
            finish_ok()
        },
        LogStage::Reading => match event {
            Event::Read(Err(err)) => {
                flow.stage = LogStage::Done;
                Action::Finish { result: Err(err) }
            },
            Event::Read(Ok(out)) => {
                flow.commits = entries(out.as_str(), 5);
                flow.size = 20;
                flow.page = 1;
                proof {
                    assert forall|i: int| 0 <= i < flow@.commits.len() implies #[trigger] flow@.commits[i].len() == 5 by {
                        assert(flow@.commits[i] == texts(flow.commits@[i]@));
                    }
                }
                flow.top()
            },
            _ => vstd::pervasive::unreached(),
        },
        LogStage::Listing => flow.on_listing(event),
        LogStage::Options => {
            flow.stage = LogStage::Choosing;
            let a = ask_blank(Question::PagerChoice, vec![]);
            assert(strs(seq![]) =~= seq![]);
            a
        },
        LogStage::Choosing => flow.on_choosing(event),
        LogStage::GotoAsked => flow.on_goto_asked(event),
        LogStage::SizeAsked => flow.on_size_asked(event),
        LogStage::DetailAsked => flow.on_detail_asked(event),
        LogStage::Detail => {
            flow.stage = LogStage::Paused;
            let a = ask_blank(Question::PressEnter, vec![]);
            assert(strs(seq![]) =~= seq![]);
            a
        },
        LogStage::Paused => flow.top(),
        LogStage::Notified => flow.top(),
        LogStage::Done => vstd::pervasive::unreached(),
    }
}

} // verus!
