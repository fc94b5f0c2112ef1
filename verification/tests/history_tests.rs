use lib::flow::{Action, Event, Place};
use lib::history::{ResetFlow, RevertFlow, do_reset, do_revert, reset_option_of};
use lib::logview::{LogFlow, view_log_interactive};

fn place_text(p: &Place) -> String {
    let base = if p.in_program_dir { format!("~/{}", p.path) } else { p.path.clone() };
    match &p.child {
        Some(c) => format!("{}/{}", base, c),
        None => base,
    }
}

fn describe(a: &Action) -> String {
    match a {
        Action::Show { notice, args } => format!("show {:?} {:?}", notice, args),
        Action::Ask { question, args, default } => format!("ask {:?} {:?} [{}]", question, args, default),
        Action::Confirm { question, args, default_yes } => {
            format!("confirm {:?} {:?} {}", question, args, default_yes)
        },
        Action::Git { args } => format!("git {}", args.join(" ")),
        Action::GitRead { args } => format!("read git {}", args.join(" ")),
        Action::GitStatus { args } => format!("status git {}", args.join(" ")),
        Action::CheckRepo => "check repo".to_string(),
        Action::Exists { place } => format!("exists {}", place_text(place)),
        Action::CreateDir { place } => format!("create {}", place_text(place)),
        Action::EnterDir { place } => format!("enter {}", place_text(place)),
        Action::RelativePath { place, fallback } => format!("relative {} [{}]", place_text(place), fallback),
        Action::Describe { place } => format!("describe {}", place_text(place)),
        Action::Save { config } => format!("save {}", config.to_ini()),
        Action::ReadSettings => "read settings".to_string(),
        Action::Finish { result } => match result {
            Ok(()) => "finish ok".to_string(),
            Err(e) => format!("finish err {}", e),
        },
    }
}

fn answer(s: &str) -> Event {
    Event::Answered(s.to_string())
}

#[test]
fn revert_a_chosen_commit() {
    let mut f = RevertFlow::new();
    assert_eq!(describe(&do_revert(&mut f, Event::Begin)), "show RecentCommits []");
    assert_eq!(describe(&do_revert(&mut f, Event::Shown)), "read git log --oneline -10");
    assert_eq!(
        describe(&do_revert(&mut f, Event::Read(Ok("abc first\n".to_string())))),
        "show LogBlock [\"abc first\\n\"]"
    );
    assert_eq!(describe(&do_revert(&mut f, Event::Shown)), "ask RevertHash [] []");
    assert_eq!(describe(&do_revert(&mut f, answer("abc"))), "git show --quiet abc");
    assert_eq!(describe(&do_revert(&mut f, Event::Ran(Ok(())))), "confirm ConfirmRevert [\"abc\"] false");
    assert_eq!(describe(&do_revert(&mut f, Event::Flag(true))), "git revert --no-edit abc");
    assert_eq!(describe(&do_revert(&mut f, Event::Ran(Ok(())))), "show Reverted []");
    assert_eq!(describe(&do_revert(&mut f, Event::Shown)), "finish ok");
}

#[test]
fn revert_cancel_empty_and_conflict() {
    let mut f = RevertFlow::new();
    do_revert(&mut f, Event::Begin);
    do_revert(&mut f, Event::Shown);
    do_revert(&mut f, Event::Read(Ok(String::new())));
    do_revert(&mut f, Event::Shown);
    assert_eq!(describe(&do_revert(&mut f, answer("cancel"))), "show RevertCancelled []");
    assert_eq!(describe(&do_revert(&mut f, Event::Shown)), "finish ok");

    let mut g = RevertFlow::new();
    do_revert(&mut g, Event::Begin);
    do_revert(&mut g, Event::Shown);
    do_revert(&mut g, Event::Read(Ok(String::new())));
    do_revert(&mut g, Event::Shown);
    assert_eq!(describe(&do_revert(&mut g, answer(""))), "finish err 提交哈希值不能为空");

    let mut h = RevertFlow::new();
    do_revert(&mut h, Event::Begin);
    do_revert(&mut h, Event::Shown);
    do_revert(&mut h, Event::Read(Ok(String::new())));
    do_revert(&mut h, Event::Shown);
    do_revert(&mut h, answer("abc"));
    do_revert(&mut h, Event::Ran(Ok(())));
    do_revert(&mut h, Event::Flag(true));
    assert_eq!(describe(&do_revert(&mut h, Event::Ran(Err("conflict".to_string())))), "show RevertConflict []");
    assert_eq!(describe(&do_revert(&mut h, Event::Shown)), "finish err conflict");
}

#[test]
fn revert_declined_ends_quietly() {
    let mut f = RevertFlow::new();
    do_revert(&mut f, Event::Begin);
    do_revert(&mut f, Event::Shown);
    do_revert(&mut f, Event::Read(Ok(String::new())));
    do_revert(&mut f, Event::Shown);
    do_revert(&mut f, answer("abc"));
    assert_eq!(describe(&do_revert(&mut f, Event::Ran(Err("bad".to_string())))), "finish err bad");
    let mut g = RevertFlow::new();
    do_revert(&mut g, Event::Begin);
    do_revert(&mut g, Event::Shown);
    do_revert(&mut g, Event::Read(Ok(String::new())));
    do_revert(&mut g, Event::Shown);
    do_revert(&mut g, answer("abc"));
    do_revert(&mut g, Event::Ran(Ok(())));
    assert_eq!(describe(&do_revert(&mut g, Event::Flag(false))), "finish ok");
}

#[test]
fn reset_modes_by_number() {
    assert_eq!(reset_option_of("1"), "--soft");
    assert_eq!(reset_option_of("2"), "--mixed");
    assert_eq!(reset_option_of("3"), "--hard");
    assert_eq!(reset_option_of("9"), "--mixed");
}

fn reset_to_mode(f: &mut ResetFlow) {
    do_reset(f, Event::Begin);
    do_reset(f, Event::Shown);
    do_reset(f, Event::Read(Ok("c1 one\n".to_string())));
    do_reset(f, Event::Shown);
    do_reset(f, answer("c0"));
    assert_eq!(describe(&do_reset(f, Event::Ran(Ok(())))), "show ResetModes []");
    assert_eq!(describe(&do_reset(f, Event::Shown)), "ask ResetMode [] [2]");
}

#[test]
fn soft_reset_after_confirmation() {
    let mut f = ResetFlow::new();
    reset_to_mode(&mut f);
    assert_eq!(describe(&do_reset(&mut f, answer("1"))), "show CommitsToDrop [\"c0\"]");
    assert_eq!(describe(&do_reset(&mut f, Event::Shown)), "read git log --oneline c0..HEAD");
    assert_eq!(
        describe(&do_reset(&mut f, Event::Read(Ok("c1 one\n".to_string())))),
        "show LogBlock [\"c1 one\\n\"]"
    );
    assert_eq!(describe(&do_reset(&mut f, Event::Shown)), "confirm ConfirmReset [\"c0\"] false");
    assert_eq!(describe(&do_reset(&mut f, Event::Flag(true))), "git reset --soft c0");
    assert_eq!(describe(&do_reset(&mut f, Event::Ran(Ok(())))), "show ResetDone [\"c0\"]");
    assert_eq!(describe(&do_reset(&mut f, Event::Shown)), "finish ok");
}

#[test]
fn hard_reset_is_confirmed_and_warned() {
    let mut f = ResetFlow::new();
    reset_to_mode(&mut f);
    assert_eq!(describe(&do_reset(&mut f, answer("3"))), "confirm ConfirmHardReset [] false");
    assert_eq!(describe(&do_reset(&mut f, Event::Flag(true))), "show CommitsToDrop [\"c0\"]");
    do_reset(&mut f, Event::Shown);
    do_reset(&mut f, Event::Read(Ok(String::new())));
    do_reset(&mut f, Event::Shown);
    assert_eq!(describe(&do_reset(&mut f, Event::Flag(true))), "git reset --hard c0");
    do_reset(&mut f, Event::Ran(Ok(())));
    assert_eq!(describe(&do_reset(&mut f, Event::Shown)), "show HardResetWarning []");
    assert_eq!(describe(&do_reset(&mut f, Event::Shown)), "finish ok");

    let mut g = ResetFlow::new();
    reset_to_mode(&mut g);
    do_reset(&mut g, answer("3"));
    assert_eq!(describe(&do_reset(&mut g, Event::Flag(false))), "finish ok");
}

#[test]
fn reset_default_mode_is_mixed() {
    let mut f = ResetFlow::new();
    reset_to_mode(&mut f);
    do_reset(&mut f, answer("2"));
    do_reset(&mut f, Event::Shown);
    do_reset(&mut f, Event::Read(Ok(String::new())));
    do_reset(&mut f, Event::Shown);
    assert_eq!(describe(&do_reset(&mut f, Event::Flag(true))), "git reset --mixed c0");
    assert_eq!(describe(&do_reset(&mut f, Event::Ran(Err("locked".to_string())))), "finish err locked");
}

#[test]
fn reset_cancelled_or_declined() {
    let mut f = ResetFlow::new();
    do_reset(&mut f, Event::Begin);
    do_reset(&mut f, Event::Shown);
    do_reset(&mut f, Event::Read(Ok(String::new())));
    do_reset(&mut f, Event::Shown);
    assert_eq!(describe(&do_reset(&mut f, answer("cancel"))), "show ResetCancelled []");
    assert_eq!(describe(&do_reset(&mut f, Event::Shown)), "finish ok");
    let mut g = ResetFlow::new();
    reset_to_mode(&mut g);
    do_reset(&mut g, answer("1"));
    do_reset(&mut g, Event::Shown);
    do_reset(&mut g, Event::Read(Ok(String::new())));
    do_reset(&mut g, Event::Shown);
    assert_eq!(describe(&do_reset(&mut g, Event::Flag(false))), "finish ok");
}

fn log_text(n: usize) -> String {
    let mut s = String::new();
    for i in 1..=n {
        s.push_str(&format!(
            "h{}\u{1f}subject {}\u{1f}author\u{1f}2024-01-0{} 10:00:00 +0000\u{1f}body {}\n\u{1e}\n",
            i,
            i,
            i % 9,
            i
        ));
    }
    s
}

fn open_log(f: &mut LogFlow, n: usize) -> String {
    assert_eq!(describe(&view_log_interactive(f, Event::Begin)), "show LogTitle []");
    assert_eq!(describe(&view_log_interactive(f, Event::Shown)), "check repo");
    assert_eq!(describe(&view_log_interactive(f, Event::Flag(true))), "read git rev-list --count HEAD");
    assert_eq!(
        describe(&view_log_interactive(f, Event::Read(Ok(format!("{}\n", n))))),
        "read git log --format=%H%x1f%s%x1f%an%x1f%ad%x1f%b%x1e --date=iso"
    );
    describe(&view_log_interactive(f, Event::Read(Ok(log_text(n)))))
}

fn list_page(f: &mut LogFlow) -> Vec<String> {
    let mut rows = Vec::new();
    loop {
        let a = view_log_interactive(f, Event::Shown);
        let d = describe(&a);
        rows.push(d.clone());
        if d.starts_with("show PagerOptions") {
            break;
        }
    }
    rows
}

#[test]
fn log_pages_hold_twenty_commits_by_default() {
    let mut f = LogFlow::new();
    assert_eq!(open_log(&mut f, 25), "show PageHeader [\"1\", \"2\", \"25\", \"20\"]");
    let rows = list_page(&mut f);
    assert_eq!(rows.len(), 21);
    assert_eq!(rows[0], "show LogRow [\"1\", \"h1\", \"author\", \"2024-01-01 10:00\", \"subject 1\"]");
    assert_eq!(rows[20], "show PagerOptions [\"2\", \"20\"]");
    assert_eq!(describe(&view_log_interactive(&mut f, Event::Shown)), "ask PagerChoice [] []");
    assert_eq!(
        describe(&view_log_interactive(&mut f, answer("N"))),
        "show PageHeader [\"2\", \"2\", \"25\", \"20\"]"
    );
    let rows = list_page(&mut f);
    assert_eq!(rows.len(), 6);
    assert_eq!(rows[0], "show LogRow [\"21\", \"h21\", \"author\", \"2024-01-03 10:00\", \"subject 21\"]");
    view_log_interactive(&mut f, Event::Shown);
    assert_eq!(describe(&view_log_interactive(&mut f, answer("n"))), "show LastPage []");
    assert_eq!(
        describe(&view_log_interactive(&mut f, Event::Shown)),
        "show PageHeader [\"2\", \"2\", \"25\", \"20\"]"
    );
    list_page(&mut f);
    view_log_interactive(&mut f, Event::Shown);
    assert_eq!(describe(&view_log_interactive(&mut f, answer("q"))), "finish ok");
}

#[test]
fn log_page_size_goto_and_details() {
    let mut f = LogFlow::new();
    open_log(&mut f, 5);
    list_page(&mut f);
    view_log_interactive(&mut f, Event::Shown);
    assert_eq!(describe(&view_log_interactive(&mut f, answer("s"))), "ask PageSize [] [20]");
    assert_eq!(describe(&view_log_interactive(&mut f, answer("2"))), "show PageSizeSet [\"2\"]");
    assert_eq!(
        describe(&view_log_interactive(&mut f, Event::Shown)),
        "show PageHeader [\"1\", \"3\", \"5\", \"2\"]"
    );
    list_page(&mut f);
    view_log_interactive(&mut f, Event::Shown);
    assert_eq!(describe(&view_log_interactive(&mut f, answer("g"))), "ask GotoPage [\"3\"] [1]");
    assert_eq!(
        describe(&view_log_interactive(&mut f, answer("3"))),
        "show PageHeader [\"3\", \"3\", \"5\", \"2\"]"
    );
    let rows = list_page(&mut f);
    assert_eq!(rows.len(), 2);
    view_log_interactive(&mut f, Event::Shown);
    assert_eq!(describe(&view_log_interactive(&mut f, answer("g"))), "ask GotoPage [\"3\"] [1]");
    assert_eq!(describe(&view_log_interactive(&mut f, answer("4"))), "show PageOutOfRange [\"3\"]");
    view_log_interactive(&mut f, Event::Shown);
    list_page(&mut f);
    view_log_interactive(&mut f, Event::Shown);
    assert_eq!(describe(&view_log_interactive(&mut f, answer("v"))), "ask DetailIndex [] []");
    assert_eq!(
        describe(&view_log_interactive(&mut f, answer("2"))),
        "show CommitDetails [\"2\", \"h2\", \"author\", \"2024-01-02 10:00:00 +0000\", \"subject 2\", \"body 2\\n\"]"
    );
    assert_eq!(describe(&view_log_interactive(&mut f, Event::Shown)), "ask PressEnter [] []");
    assert_eq!(
        describe(&view_log_interactive(&mut f, answer(""))),
        "show PageHeader [\"3\", \"3\", \"5\", \"2\"]"
    );
}

#[test]
fn log_rejects_bad_answers() {
    let mut f = LogFlow::new();
    open_log(&mut f, 3);
    list_page(&mut f);
    view_log_interactive(&mut f, Event::Shown);
    assert_eq!(describe(&view_log_interactive(&mut f, answer("p"))), "show FirstPage []");
    view_log_interactive(&mut f, Event::Shown);
    list_page(&mut f);
    view_log_interactive(&mut f, Event::Shown);
    assert_eq!(describe(&view_log_interactive(&mut f, answer("x"))), "show InvalidOption []");
    view_log_interactive(&mut f, Event::Shown);
    list_page(&mut f);
    view_log_interactive(&mut f, Event::Shown);
    view_log_interactive(&mut f, answer("s"));
    assert_eq!(describe(&view_log_interactive(&mut f, answer("0"))), "show PageSizeNotPositive []");
    view_log_interactive(&mut f, Event::Shown);
    list_page(&mut f);
    view_log_interactive(&mut f, Event::Shown);
    view_log_interactive(&mut f, answer("s"));
    assert_eq!(describe(&view_log_interactive(&mut f, answer("abc"))), "show NotANumber []");
    view_log_interactive(&mut f, Event::Shown);
    list_page(&mut f);
    view_log_interactive(&mut f, Event::Shown);
    view_log_interactive(&mut f, answer("g"));
    assert_eq!(describe(&view_log_interactive(&mut f, answer("x"))), "show InvalidPage []");
    view_log_interactive(&mut f, Event::Shown);
    list_page(&mut f);
    view_log_interactive(&mut f, Event::Shown);
    view_log_interactive(&mut f, answer("v"));
    assert_eq!(describe(&view_log_interactive(&mut f, answer("4"))), "show IndexOutOfRange [\"3\"]");
}

#[test]
fn log_outside_a_repository_or_empty() {
    let mut f = LogFlow::new();
    view_log_interactive(&mut f, Event::Begin);
    view_log_interactive(&mut f, Event::Shown);
    assert_eq!(
        describe(&view_log_interactive(&mut f, Event::Flag(false))),
        "finish err 当前目录不是 Git 仓库"
    );
    let mut g = LogFlow::new();
    view_log_interactive(&mut g, Event::Begin);
    view_log_interactive(&mut g, Event::Shown);
    view_log_interactive(&mut g, Event::Flag(true));
    assert_eq!(
        describe(&view_log_interactive(&mut g, Event::Read(Err("no commits".to_string())))),
        "show EmptyHistory []"
    );
    assert_eq!(describe(&view_log_interactive(&mut g, Event::Shown)), "finish ok");
}

#[test]
fn log_details_keep_the_whole_body_and_rows_are_cut_at_characters() {
    let mut f = LogFlow::new();
    view_log_interactive(&mut f, Event::Begin);
    view_log_interactive(&mut f, Event::Shown);
    view_log_interactive(&mut f, Event::Flag(true));
    view_log_interactive(&mut f, Event::Read(Ok("2\n".to_string())));
    let log = "0123456789abcdef\u{1f}修复一个非常重要的问题并且补充测试用例\u{1f}张三李四王五\u{1f}2024-05-06 07:08:09 +0800\u{1f}first line\nsecond | a | b | c | d\n\nthird\n\u{1e}\n\
                 fedcba9876543210\u{1f}short\u{1f}ann\u{1f}2024-05-05 00:00:00 +0000\u{1f}\u{1e}\n";
    assert_eq!(
        describe(&view_log_interactive(&mut f, Event::Read(Ok(log.to_string())))),
        "show PageHeader [\"1\", \"1\", \"2\", \"20\"]"
    );
    assert_eq!(
        describe(&view_log_interactive(&mut f, Event::Shown)),
        "show LogRow [\"1\", \"01234567\", \"张三李四\", \"2024-05-06 07:08\", \"修复一个非常重要的问题并\"]"
    );
    assert_eq!(
        describe(&view_log_interactive(&mut f, Event::Shown)),
        "show LogRow [\"2\", \"fedcba98\", \"ann\", \"2024-05-05 00:00\", \"short\"]"
    );
    view_log_interactive(&mut f, Event::Shown);
    view_log_interactive(&mut f, Event::Shown);
    view_log_interactive(&mut f, answer("v"));
    assert_eq!(
        describe(&view_log_interactive(&mut f, answer("1"))),
        "show CommitDetails [\"1\", \"0123456789abcdef\", \"张三李四王五\", \"2024-05-06 07:08:09 +0800\", \"修复一个非常重要的问题并且补充测试用例\", \"first line\\nsecond | a | b | c | d\\n\\nthird\\n\"]"
    );
    view_log_interactive(&mut f, Event::Shown);
    view_log_interactive(&mut f, answer(""));
    list_page(&mut f);
    view_log_interactive(&mut f, Event::Shown);
    view_log_interactive(&mut f, answer("v"));
    assert_eq!(
        describe(&view_log_interactive(&mut f, answer("2"))),
        "show CommitDetails [\"2\", \"fedcba9876543210\", \"ann\", \"2024-05-05 00:00:00 +0000\", \"short\", \"\"]"
    );
}
