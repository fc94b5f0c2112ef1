use lib::config::Config;
use lib::flow::{Action, Event, Place};
use lib::menu::{MenuFlow, menu_loop};
use lib::startup::{StartFlow, start_up};

fn place_text(p: &Place) -> String {
    let base = if p.in_program_dir { format!("~/{}", p.path) } else { p.path.clone() };
    match &p.child {
        Some(c) => format!("{}/{}", base, c),
        None => base,
    }
}

fn describe(a: &Action) -> String {
    match a {
        Action::Show { notice, args } => format!("show {:?} {:?}", notice, args),
        Action::Ask { question, args, default } => format!("ask {:?} {:?} [{}]", question, args, default),
        Action::Confirm { question, args, default_yes } => {
            format!("confirm {:?} {:?} {}", question, args, default_yes)
        },
        Action::Git { args } => format!("git {}", args.join(" ")),
        Action::GitRead { args } => format!("read git {}", args.join(" ")),
        Action::GitStatus { args } => format!("status git {}", args.join(" ")),
        Action::CheckRepo => "check repo".to_string(),
        Action::Exists { place } => format!("exists {}", place_text(place)),
        Action::CreateDir { place } => format!("create {}", place_text(place)),
        Action::EnterDir { place } => format!("enter {}", place_text(place)),
        Action::RelativePath { place, fallback } => format!("relative {} [{}]", place_text(place), fallback),
        Action::Describe { place } => format!("describe {}", place_text(place)),
        Action::Save { config } => format!("save {}", config.to_ini()),
        Action::ReadSettings => "read settings".to_string(),
        Action::Finish { result } => match result {
            Ok(()) => "finish ok".to_string(),
            Err(e) => format!("finish err {}", e),
        },
    }
}

fn settings_text() -> String {
    Config {
        dir: "repo".to_string(),
        git_name: "Ann".to_string(),
        git_email: "ann@example.com".to_string(),
        git_remote_name: "origin".to_string(),
        git_remote_repo: "ann/tool".to_string(),
        git_branch: "main".to_string(),
    }
    .to_ini()
}

fn answer(s: &str) -> Event {
    Event::Answered(s.to_string())
}

fn menu(f: &mut MenuFlow, e: Event) -> String {
    describe(&menu_loop(f, e))
}

fn start(f: &mut StartFlow, e: Event) -> String {
    describe(&start_up(f, e))
}

/// One round of the menu up to the choice.
fn to_choice(f: &mut MenuFlow) {
    assert_eq!(menu(f, Event::Read(Ok(settings_text()))), "exists ~/repo");
    assert_eq!(menu(f, Event::Flag(true)), "enter ~/repo");
    assert_eq!(menu(f, Event::Ran(Ok(()))), "show MainMenu []");
    assert_eq!(menu(f, Event::Shown), "ask MenuChoice [] [0]");
}

#[test]
fn menu_quits_on_eleven() {
    let mut f = MenuFlow::new(1);
    assert_eq!(menu(&mut f, Event::Begin), "read settings");
    to_choice(&mut f);
    assert_eq!(menu(&mut f, answer("11")), "show Goodbye []");
    assert_eq!(menu(&mut f, Event::Shown), "finish ok");
}

#[test]
fn menu_reports_an_unknown_entry_and_starts_over() {
    let mut f = MenuFlow::new(1);
    menu(&mut f, Event::Begin);
    to_choice(&mut f);
    assert_eq!(menu(&mut f, answer("0")), "show InvalidChoice []");
    assert_eq!(menu(&mut f, Event::Shown), "read settings");
    assert_eq!(menu(&mut f, Event::Read(Err("missing".to_string()))), "exists ~/");
    assert_eq!(menu(&mut f, Event::Flag(false)), "show MainMenu []");
}

#[test]
fn menu_commit_applies_identity_and_remote_first() {
    let mut f = MenuFlow::new(1);
    menu(&mut f, Event::Begin);
    to_choice(&mut f);
    assert_eq!(menu(&mut f, answer("1")), "git config user.name Ann");
    assert_eq!(menu(&mut f, Event::Ran(Err("no git".to_string()))), "read git remote");
    assert_eq!(
        menu(&mut f, Event::Read(Err("no git".to_string()))),
        "ask CommitSubject [] []"
    );
    assert_eq!(menu(&mut f, answer("")), "show CommitFailed [\"提交标题不能为空\"]");
    assert_eq!(menu(&mut f, Event::Shown), "read settings");
}

#[test]
fn menu_commit_then_push() {
    let mut f = MenuFlow::new(1);
    menu(&mut f, Event::Begin);
    to_choice(&mut f);
    menu(&mut f, answer("1"));
    assert_eq!(menu(&mut f, Event::Ran(Ok(()))), "git config user.email ann@example.com");
    menu(&mut f, Event::Ran(Ok(())));
    assert_eq!(
        menu(&mut f, Event::Read(Ok("origin\n".to_string()))),
        "git remote set-url origin git@github.com:ann/tool.git"
    );
    assert_eq!(menu(&mut f, Event::Ran(Ok(()))), "ask CommitSubject [] []");
    menu(&mut f, answer("msg"));
    menu(&mut f, answer(""));
    menu(&mut f, Event::Ran(Ok(())));
    assert_eq!(menu(&mut f, Event::Ran(Ok(()))), "confirm ForcePush [] false");
    assert_eq!(
        menu(&mut f, Event::Flag(false)),
        "confirm PushNow [\"是否现在开始推送？\"] true"
    );
    assert_eq!(menu(&mut f, Event::Flag(false)), "show PushSkipped []");
    assert_eq!(menu(&mut f, Event::Shown), "read settings");
}

#[test]
fn menu_branch_failure_is_reported() {
    let mut f = MenuFlow::new(1);
    menu(&mut f, Event::Begin);
    to_choice(&mut f);
    assert_eq!(menu(&mut f, answer("2")), "check repo");
    assert_eq!(menu(&mut f, Event::Flag(false)), "show BranchFailed [\"不是 Git 仓库\"]");
    assert_eq!(menu(&mut f, Event::Shown), "read settings");
}

#[test]
fn menu_reset_forces_only_after_two_yes() {
    let mut f = MenuFlow::new(1);
    menu(&mut f, Event::Begin);
    to_choice(&mut f);
    assert_eq!(menu(&mut f, answer("8")), "show RecentCommits []");
    menu(&mut f, Event::Shown);
    menu(&mut f, Event::Read(Ok(String::new())));
    menu(&mut f, Event::Shown);
    menu(&mut f, answer("c0"));
    menu(&mut f, Event::Ran(Ok(())));
    menu(&mut f, Event::Shown);
    menu(&mut f, answer("1"));
    menu(&mut f, Event::Shown);
    menu(&mut f, Event::Read(Ok(String::new())));
    menu(&mut f, Event::Shown);
    assert_eq!(menu(&mut f, Event::Flag(true)), "git reset --soft c0");
    menu(&mut f, Event::Ran(Ok(())));
    assert_eq!(menu(&mut f, Event::Shown), "confirm ForcePushAfterReset [] false");
    assert_eq!(menu(&mut f, Event::Flag(true)), "confirm ConfirmForcePushAfterReset [] false");
    assert_eq!(menu(&mut f, Event::Flag(true)), "git push origin main --force");
    assert_eq!(menu(&mut f, Event::Ran(Err("rejected".to_string()))), "read settings");
    to_choice(&mut f);
    menu(&mut f, answer("8"));
    menu(&mut f, Event::Shown);
    menu(&mut f, Event::Read(Ok(String::new())));
    menu(&mut f, Event::Shown);
    menu(&mut f, answer("c0"));
    menu(&mut f, Event::Ran(Ok(())));
    menu(&mut f, Event::Shown);
    menu(&mut f, answer("2"));
    menu(&mut f, Event::Shown);
    menu(&mut f, Event::Read(Ok(String::new())));
    menu(&mut f, Event::Shown);
    menu(&mut f, Event::Flag(true));
    menu(&mut f, Event::Ran(Ok(())));
    menu(&mut f, Event::Shown);
    assert_eq!(menu(&mut f, Event::Flag(true)), "confirm ConfirmForcePushAfterReset [] false");
    assert_eq!(menu(&mut f, Event::Flag(false)), "read settings");
}

#[test]
fn menu_revert_offers_a_push() {
    let mut f = MenuFlow::new(1);
    menu(&mut f, Event::Begin);
    to_choice(&mut f);
    menu(&mut f, answer("7"));
    menu(&mut f, Event::Shown);
    menu(&mut f, Event::Read(Ok(String::new())));
    menu(&mut f, Event::Shown);
    assert_eq!(menu(&mut f, answer("cancel")), "show RevertCancelled []");
    assert_eq!(menu(&mut f, Event::Shown), "confirm PushRevert [] true");
    assert_eq!(menu(&mut f, Event::Flag(true)), "confirm ForcePush [] false");
    assert_eq!(
        menu(&mut f, Event::Flag(false)),
        "confirm PushNow [\"是否现在推送撤销更改？\"] true"
    );
}

#[test]
fn menu_other_entries_start_their_dialogues() {
    let mut f = MenuFlow::new(99);
    menu(&mut f, Event::Begin);
    to_choice(&mut f);
    assert_eq!(menu(&mut f, answer("3")), "show CloneTitle []");
    assert_eq!(menu(&mut f, Event::Shown), "confirm CloneHere [] true");
    let mut g = MenuFlow::new(99);
    menu(&mut g, Event::Begin);
    to_choice(&mut g);
    assert_eq!(menu(&mut g, answer("4")), "show RemoteKinds []");
    menu(&mut g, Event::Shown);
    assert_eq!(menu(&mut g, answer("5")), "show MergeFailed [\"无效的选择\"]");
    let mut h = MenuFlow::new(99);
    menu(&mut h, Event::Begin);
    to_choice(&mut h);
    assert_eq!(menu(&mut h, answer("5")), "show UpdateTitle []");
    assert_eq!(menu(&mut h, Event::Shown), "check repo");
    assert_eq!(menu(&mut h, Event::Flag(false)), "show UpdateFailed [\"当前目录不是 Git 仓库\"]");
    let mut k = MenuFlow::new(99);
    menu(&mut k, Event::Begin);
    to_choice(&mut k);
    assert_eq!(menu(&mut k, answer("6")), "show DirectoryListing []");
    menu(&mut k, Event::Shown);
    assert_eq!(menu(&mut k, answer("exit")), "show ConfigFailed [\"用户取消配置\"]");
    let mut l = MenuFlow::new(99);
    menu(&mut l, Event::Begin);
    to_choice(&mut l);
    assert_eq!(menu(&mut l, answer("9")), "show LogTitle []");
    assert_eq!(menu(&mut l, Event::Shown), "check repo");
    assert_eq!(menu(&mut l, Event::Flag(false)), "show LogFailed [\"当前目录不是 Git 仓库\"]");
    let mut n = MenuFlow::new(99);
    menu(&mut n, Event::Begin);
    to_choice(&mut n);
    assert_eq!(menu(&mut n, answer("10")), "git config user.name Ann");
    menu(&mut n, Event::Ran(Ok(())));
    menu(&mut n, Event::Ran(Ok(())));
    menu(&mut n, Event::Read(Ok(String::new())));
    assert_eq!(menu(&mut n, Event::Ran(Ok(()))), "show UploadTitle []");
    assert_eq!(menu(&mut n, Event::Shown), "read git status --porcelain");
    assert_eq!(
        menu(&mut n, Event::Read(Err("broken".to_string()))),
        "show UploadFailed [\"broken\"]"
    );
}

#[test]
fn start_with_complete_settings() {
    let mut f = StartFlow::new();
    assert_eq!(start(&mut f, Event::Begin), "show ProgramLocation []");
    assert_eq!(start(&mut f, Event::Shown), "read settings");
    assert_eq!(start(&mut f, Event::Read(Ok(settings_text()))), "exists ~/repo");
    assert_eq!(start(&mut f, Event::Flag(true)), "enter ~/repo");
    assert_eq!(start(&mut f, Event::Ran(Ok(()))), "show WorkingDirectory [\"repo\"]");
    assert_eq!(start(&mut f, Event::Shown), "git config user.name Ann");
    assert_eq!(start(&mut f, Event::Ran(Ok(()))), "git config user.email ann@example.com");
    assert_eq!(start(&mut f, Event::Ran(Ok(()))), "read git remote");
    assert_eq!(
        start(&mut f, Event::Read(Ok(String::new()))),
        "git remote add origin git@github.com:ann/tool.git"
    );
    assert_eq!(start(&mut f, Event::Ran(Err("exists".to_string()))), "show RemoteFailed [\"exists\"]");
    assert_eq!(start(&mut f, Event::Shown), "check repo");
    start(&mut f, Event::Flag(true));
    assert_eq!(start(&mut f, Event::Status(Ok(true))), "git checkout main");
    assert_eq!(start(&mut f, Event::Ran(Ok(()))), "finish ok");
}

#[test]
fn start_reports_identity_and_branch_failures() {
    let mut f = StartFlow::new();
    start(&mut f, Event::Begin);
    start(&mut f, Event::Shown);
    start(&mut f, Event::Read(Ok(settings_text())));
    start(&mut f, Event::Flag(true));
    start(&mut f, Event::Ran(Ok(())));
    start(&mut f, Event::Shown);
    assert_eq!(start(&mut f, Event::Ran(Err("bad".to_string()))), "show IdentityFailed [\"bad\"]");
    assert_eq!(start(&mut f, Event::Shown), "read git remote");
    start(&mut f, Event::Read(Ok(String::new())));
    assert_eq!(start(&mut f, Event::Ran(Ok(()))), "check repo");
    assert_eq!(start(&mut f, Event::Flag(false)), "show BranchSetupFailed [\"不是 Git 仓库\"]");
    assert_eq!(start(&mut f, Event::Shown), "finish ok");
}

#[test]
fn start_without_settings_asks_how_to_set_up() {
    let mut f = StartFlow::new();
    start(&mut f, Event::Begin);
    start(&mut f, Event::Shown);
    assert_eq!(start(&mut f, Event::Read(Ok(String::new()))), "show SetupNeeded []");
    assert_eq!(start(&mut f, Event::Shown), "ask SetupChoice [] [1]");
    assert_eq!(start(&mut f, answer("3")), "show InvalidSetupChoice []");
    assert_eq!(start(&mut f, Event::Shown), "finish err 无效选项，退出");

    let mut g = StartFlow::new();
    start(&mut g, Event::Begin);
    start(&mut g, Event::Shown);
    start(&mut g, Event::Read(Err("no file".to_string())));
    start(&mut g, Event::Shown);
    assert_eq!(start(&mut g, answer("1")), "show DirectoryListing []");
    start(&mut g, Event::Shown);
    assert_eq!(start(&mut g, answer("exit")), "show SetupFailed [\"用户取消配置\"]");
    assert_eq!(start(&mut g, Event::Shown), "finish err 用户取消配置");

    let mut h = StartFlow::new();
    start(&mut h, Event::Begin);
    start(&mut h, Event::Shown);
    start(&mut h, Event::Read(Ok(String::new())));
    start(&mut h, Event::Shown);
    assert_eq!(start(&mut h, answer("2")), "show CloneTitle []");
}

#[test]
fn start_reloads_after_set_up() {
    let mut f = StartFlow::new();
    start(&mut f, Event::Begin);
    start(&mut f, Event::Shown);
    start(&mut f, Event::Read(Ok(String::new())));
    start(&mut f, Event::Shown);
    start(&mut f, answer("1"));
    start(&mut f, Event::Shown);
    start(&mut f, answer("repo"));
    start(&mut f, Event::Flag(true));
    start(&mut f, Event::Ran(Ok(())));
    start(&mut f, Event::Flag(true));
    start(&mut f, answer(""));
    start(&mut f, answer(""));
    start(&mut f, answer(""));
    start(&mut f, answer(""));
    start(&mut f, answer(""));
    start(&mut f, Event::Ran(Ok(())));
    assert_eq!(start(&mut f, Event::Shown), "read settings");
    assert_eq!(start(&mut f, Event::Read(Ok("DIR=repo\n".to_string()))), "show StillIncomplete []");
    assert_eq!(start(&mut f, Event::Shown), "finish err 配置仍不完整，请重新运行程序配置");
}

#[test]
fn start_sets_up_a_missing_directory_again() {
    let mut f = StartFlow::new();
    start(&mut f, Event::Begin);
    start(&mut f, Event::Shown);
    start(&mut f, Event::Read(Ok(settings_text())));
    assert_eq!(start(&mut f, Event::Flag(false)), "show RepoDirectoryMissing [\"repo\"]");
    assert_eq!(start(&mut f, Event::Shown), "show DirectoryListing []");
    start(&mut f, Event::Shown);
    start(&mut f, answer("other"));
    start(&mut f, Event::Flag(true));
    start(&mut f, Event::Ran(Ok(())));
    start(&mut f, Event::Flag(true));
    start(&mut f, answer("Ann"));
    start(&mut f, answer("ann@example.com"));
    start(&mut f, answer("origin"));
    start(&mut f, answer("ann/tool"));
    start(&mut f, answer(""));
    start(&mut f, Event::Ran(Ok(())));
    assert_eq!(start(&mut f, Event::Shown), "enter ~/other");
    assert_eq!(start(&mut f, Event::Ran(Err("gone".to_string()))), "show CannotEnterNew [\"gone\"]");
    assert_eq!(start(&mut f, Event::Shown), "finish err gone");
}

#[test]
fn start_stops_when_the_directory_cannot_be_entered() {
    let mut f = StartFlow::new();
    start(&mut f, Event::Begin);
    start(&mut f, Event::Shown);
    start(&mut f, Event::Read(Ok(settings_text())));
    start(&mut f, Event::Flag(true));
    assert_eq!(
        start(&mut f, Event::Ran(Err("denied".to_string()))),
        "show CannotEnter [\"repo\", \"denied\"]"
    );
    assert_eq!(start(&mut f, Event::Shown), "finish err denied");
}
