use lib::config::Config;
use lib::flow::{Action, Event, Place};
use lib::update::{UpdateFlow, do_update};

fn place_text(p: &Place) -> String {
    let base = if p.in_program_dir { format!("~/{}", p.path) } else { p.path.clone() };
    match &p.child {
        Some(c) => format!("{}/{}", base, c),
        None => base,
    }
}

fn describe(a: &Action) -> String {
    match a {
        Action::Show { notice, args } => format!("show {:?} {:?}", notice, args),
        Action::Ask { question, args, default } => format!("ask {:?} {:?} [{}]", question, args, default),
        Action::Confirm { question, args, default_yes } => {
            format!("confirm {:?} {:?} {}", question, args, default_yes)
        },
        Action::Git { args } => format!("git {}", args.join(" ")),
        Action::GitRead { args } => format!("read git {}", args.join(" ")),
        Action::GitStatus { args } => format!("status git {}", args.join(" ")),
        Action::CheckRepo => "check repo".to_string(),
        Action::Exists { place } => format!("exists {}", place_text(place)),
        Action::CreateDir { place } => format!("create {}", place_text(place)),
        Action::EnterDir { place } => format!("enter {}", place_text(place)),
        Action::RelativePath { place, fallback } => format!("relative {} [{}]", place_text(place), fallback),
        Action::Describe { place } => format!("describe {}", place_text(place)),
        Action::Save { config } => format!("save {}", config.to_ini()),
        Action::ReadSettings => "read settings".to_string(),
        Action::Finish { result } => match result {
            Ok(()) => "finish ok".to_string(),
            Err(e) => format!("finish err {}", e),
        },
    }
}

fn config() -> Config {
    Config {
        dir: "repo".to_string(),
        git_name: "Ann".to_string(),
        git_email: "ann@example.com".to_string(),
        git_remote_name: "origin".to_string(),
        git_remote_repo: "ann/tool".to_string(),
        git_branch: "main".to_string(),
    }
}

fn step(f: &mut UpdateFlow, e: Event) -> String {
    describe(&do_update(f, e))
}

fn answer(s: &str) -> Event {
    Event::Answered(s.to_string())
}

fn read(s: &str) -> Event {
    Event::Read(Ok(s.to_string()))
}

/// Runs an update up to the question about the working tree's state.
fn to_status(f: &mut UpdateFlow) {
    assert_eq!(step(f, Event::Begin), "show UpdateTitle []");
    assert_eq!(step(f, Event::Shown), "check repo");
    assert_eq!(step(f, Event::Flag(true)), "read git symbolic-ref --short HEAD");
    assert_eq!(step(f, read("dev\n")), "show UpdateHeader [\"dev\", \"origin\", \"main\"]");
    assert_eq!(step(f, Event::Shown), "show StateBefore []");
    assert_eq!(step(f, Event::Shown), "read git log --oneline -5");
    assert_eq!(step(f, read("a1 one\n")), "show LogBlock [\"a1 one\\n\"]");
    assert_eq!(step(f, Event::Shown), "read git status --porcelain");
}

#[test]
fn clean_pull_then_push() {
    let mut f = UpdateFlow::new(&config());
    to_status(&mut f);
    assert_eq!(step(&mut f, read("")), "show UpdateModes []");
    assert_eq!(step(&mut f, Event::Shown), "ask UpdateMode [] [1]");
    assert_eq!(step(&mut f, answer("1")), "show Fetching []");
    assert_eq!(step(&mut f, Event::Shown), "git fetch origin");
    assert_eq!(step(&mut f, Event::Ran(Ok(()))), "show Fetched []");
    assert_eq!(step(&mut f, Event::Shown), "read git log --oneline dev..origin/main");
    assert_eq!(step(&mut f, read("b2 two\n")), "read git rev-list --count dev..origin/main");
    assert_eq!(
        step(&mut f, read(" 1\n")),
        "show NewCommits [\"origin\", \"main\", \"b2 two\\n\", \"1\"]"
    );
    assert_eq!(step(&mut f, Event::Shown), "confirm ContinueUpdate [] true");
    assert_eq!(step(&mut f, Event::Flag(true)), "git pull origin main");
    assert_eq!(step(&mut f, Event::Ran(Ok(()))), "show Pulled []");
    assert_eq!(step(&mut f, Event::Shown), "read git log --oneline -5");
    assert_eq!(step(&mut f, read("b2 two\n")), "show StateAfter [\"b2 two\\n\"]");
    assert_eq!(step(&mut f, Event::Shown), "read git rev-list --count origin/main..HEAD");
    assert_eq!(step(&mut f, read("2\n")), "show Unpushed [\"2\"]");
    assert_eq!(step(&mut f, Event::Shown), "confirm PushAfterUpdate [] true");
    assert_eq!(step(&mut f, Event::Flag(true)), "confirm ForcePush [] false");
    assert_eq!(
        step(&mut f, Event::Flag(false)),
        "confirm PushNow [\"是否现在推送本地提交？\"] true"
    );
    assert_eq!(step(&mut f, Event::Flag(true)), "git push origin main");
    assert_eq!(step(&mut f, Event::Ran(Ok(()))), "show UpdateFinished []");
    assert_eq!(step(&mut f, Event::Shown), "finish ok");
}

#[test]
fn stash_rebase_and_restore() {
    let mut f = UpdateFlow::new(&config());
    to_status(&mut f);
    assert_eq!(step(&mut f, read(" M x\n")), "show DirtyTree [\" M x\\n\"]");
    assert_eq!(step(&mut f, Event::Shown), "ask DirtyTreeChoice [] [1]");
    assert_eq!(step(&mut f, answer("1")), "git stash");
    assert_eq!(step(&mut f, Event::Ran(Ok(()))), "show Stashed []");
    assert_eq!(step(&mut f, Event::Shown), "show UpdateModes []");
    step(&mut f, Event::Shown);
    step(&mut f, answer("3"));
    step(&mut f, Event::Shown);
    step(&mut f, Event::Ran(Ok(())));
    step(&mut f, Event::Shown);
    assert_eq!(
        step(&mut f, Event::Read(Err("no branch".to_string()))),
        "read git rev-list --count dev..origin/main"
    );
    assert_eq!(
        step(&mut f, Event::Read(Err("no branch".to_string()))),
        "show NewCommits [\"origin\", \"main\", \"（无新提交或分支不存在）\", \"0\"]"
    );
    step(&mut f, Event::Shown);
    assert_eq!(step(&mut f, Event::Flag(true)), "git pull --rebase origin main");
    assert_eq!(step(&mut f, Event::Ran(Ok(()))), "show Rebased []");
    assert_eq!(step(&mut f, Event::Shown), "confirm RestoreStash [] true");
    assert_eq!(step(&mut f, Event::Flag(true)), "git stash pop");
    assert_eq!(step(&mut f, Event::Ran(Ok(()))), "show StashRestored []");
    assert_eq!(step(&mut f, Event::Shown), "read git log --oneline -5");
    step(&mut f, read(""));
    step(&mut f, Event::Shown);
    assert_eq!(step(&mut f, read("0")), "show InSync []");
    assert_eq!(step(&mut f, Event::Shown), "show UpdateFinished []");
    assert_eq!(step(&mut f, Event::Shown), "finish ok");
}

#[test]
fn pull_conflict_reminds_of_the_stash() {
    let mut f = UpdateFlow::new(&config());
    to_status(&mut f);
    step(&mut f, read("?? y\n"));
    step(&mut f, Event::Shown);
    step(&mut f, answer("1"));
    step(&mut f, Event::Ran(Ok(())));
    step(&mut f, Event::Shown);
    step(&mut f, Event::Shown);
    step(&mut f, answer("1"));
    step(&mut f, Event::Shown);
    step(&mut f, Event::Ran(Ok(())));
    step(&mut f, Event::Shown);
    step(&mut f, read(""));
    step(&mut f, read("0"));
    step(&mut f, Event::Shown);
    assert_eq!(step(&mut f, Event::Flag(true)), "git pull origin main");
    assert_eq!(step(&mut f, Event::Ran(Err("conflict".to_string()))), "show PullConflict []");
    assert_eq!(step(&mut f, Event::Shown), "show StashReminder []");
    assert_eq!(step(&mut f, Event::Shown), "finish err conflict");
}

#[test]
fn fetch_only_and_discard() {
    let mut f = UpdateFlow::new(&config());
    to_status(&mut f);
    step(&mut f, read(" D z\n"));
    step(&mut f, Event::Shown);
    assert_eq!(step(&mut f, answer("2")), "confirm ConfirmDiscard [] false");
    assert_eq!(step(&mut f, Event::Flag(true)), "git reset --hard HEAD");
    assert_eq!(step(&mut f, Event::Ran(Ok(()))), "show ChangesDiscarded []");
    step(&mut f, Event::Shown);
    step(&mut f, Event::Shown);
    step(&mut f, answer("2"));
    step(&mut f, Event::Shown);
    step(&mut f, Event::Ran(Ok(())));
    step(&mut f, Event::Shown);
    step(&mut f, read(""));
    step(&mut f, read("0"));
    step(&mut f, Event::Shown);
    assert_eq!(step(&mut f, Event::Flag(true)), "show ManualMergeHint [\"origin\", \"main\"]");
    assert_eq!(step(&mut f, Event::Shown), "read git log --oneline -5");
}

#[test]
fn update_cancellations() {
    let mut f = UpdateFlow::new(&config());
    step(&mut f, Event::Begin);
    step(&mut f, Event::Shown);
    assert_eq!(step(&mut f, Event::Flag(false)), "finish err 当前目录不是 Git 仓库");

    let mut g = UpdateFlow::new(&config());
    to_status(&mut g);
    step(&mut g, read(" M x\n"));
    step(&mut g, Event::Shown);
    assert_eq!(step(&mut g, answer("3")), "finish err 取消更新");

    let mut h = UpdateFlow::new(&config());
    to_status(&mut h);
    step(&mut h, read(" M x\n"));
    step(&mut h, Event::Shown);
    step(&mut h, answer("2"));
    assert_eq!(step(&mut h, Event::Flag(false)), "finish err 取消更新");

    let mut k = UpdateFlow::new(&config());
    to_status(&mut k);
    step(&mut k, read(""));
    step(&mut k, Event::Shown);
    step(&mut k, answer("7"));
    step(&mut k, Event::Shown);
    step(&mut k, Event::Ran(Ok(())));
    step(&mut k, Event::Shown);
    step(&mut k, read(""));
    step(&mut k, read("0"));
    step(&mut k, Event::Shown);
    assert_eq!(step(&mut k, Event::Flag(true)), "finish err 无效的更新方式");
}

#[test]
fn declining_restores_the_stash() {
    let mut f = UpdateFlow::new(&config());
    to_status(&mut f);
    step(&mut f, read(" M x\n"));
    step(&mut f, Event::Shown);
    step(&mut f, answer("1"));
    step(&mut f, Event::Ran(Ok(())));
    step(&mut f, Event::Shown);
    step(&mut f, Event::Shown);
    step(&mut f, answer("1"));
    step(&mut f, Event::Shown);
    step(&mut f, Event::Ran(Ok(())));
    step(&mut f, Event::Shown);
    step(&mut f, read(""));
    step(&mut f, read("0"));
    step(&mut f, Event::Shown);
    assert_eq!(step(&mut f, Event::Flag(false)), "git stash pop");
    assert_eq!(step(&mut f, Event::Ran(Ok(()))), "finish ok");
}
