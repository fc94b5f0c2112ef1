use lib::config::Config;
use lib::flow::{Action, Event, Place};
use lib::ops::{
    BranchFlow, CommitFlow, IdentityFlow, PushFlow, RemoteFlow, UploadFlow, apply_git_config,
    backslashes_to_newlines, checkout_branch, count_of, do_commit, do_push, do_push_direct,
    get_default_branch, github_url_of, has_line, remote_ref_of, run_identity, setup_remote,
};

fn place_text(p: &Place) -> String {
    let base = if p.in_program_dir { format!("~/{}", p.path) } else { p.path.clone() };
    match &p.child {
        Some(c) => format!("{}/{}", base, c),
        None => base,
    }
}

fn describe(a: &Action) -> String {
    match a {
        Action::Show { notice, args } => format!("show {:?} {:?}", notice, args),
        Action::Ask { question, args, default } => format!("ask {:?} {:?} [{}]", question, args, default),
        Action::Confirm { question, args, default_yes } => {
            format!("confirm {:?} {:?} {}", question, args, default_yes)
        },
        Action::Git { args } => format!("git {}", args.join(" ")),
        Action::GitRead { args } => format!("read git {}", args.join(" ")),
        Action::GitStatus { args } => format!("status git {}", args.join(" ")),
        Action::CheckRepo => "check repo".to_string(),
        Action::Exists { place } => format!("exists {}", place_text(place)),
        Action::CreateDir { place } => format!("create {}", place_text(place)),
        Action::EnterDir { place } => format!("enter {}", place_text(place)),
        Action::RelativePath { place, fallback } => format!("relative {} [{}]", place_text(place), fallback),
        Action::Describe { place } => format!("describe {}", place_text(place)),
        Action::Save { config } => format!("save {}", config.to_ini()),
        Action::ReadSettings => "read settings".to_string(),
        Action::Finish { result } => match result {
            Ok(()) => "finish ok".to_string(),
            Err(e) => format!("finish err {}", e),
        },
    }
}

fn config() -> Config {
    Config {
        dir: "repo".to_string(),
        git_name: "Ann".to_string(),
        git_email: "ann@example.com".to_string(),
        git_remote_name: "origin".to_string(),
        git_remote_repo: "ann/tool".to_string(),
        git_branch: "main".to_string(),
    }
}

fn answer(s: &str) -> Event {
    Event::Answered(s.to_string())
}

#[test]
fn addresses_are_built_from_the_settings() {
    assert_eq!(github_url_of("username/repository"), "git@github.com:username/repository.git");
    assert_eq!(remote_ref_of("origin", "main"), "origin/main");
}

#[test]
fn identity_commands_follow_the_settings() {
    let cmds = apply_git_config(&config());
    assert_eq!(cmds, vec![
        vec!["config".to_string(), "user.name".to_string(), "Ann".to_string()],
        vec!["config".to_string(), "user.email".to_string(), "ann@example.com".to_string()],
    ]);
    let mut c = config();
    c.git_name = String::new();
    assert_eq!(apply_git_config(&c), vec![vec![
        "config".to_string(),
        "user.email".to_string(),
        "ann@example.com".to_string(),
    ]]);
    c.git_email = String::new();
    assert!(apply_git_config(&c).is_empty());
}

#[test]
fn identity_dialogue_stops_at_the_first_failure() {
    let mut f = IdentityFlow::new(&config());
    assert_eq!(describe(&run_identity(&mut f, Event::Begin)), "git config user.name Ann");
    assert_eq!(
        describe(&run_identity(&mut f, Event::Ran(Err("boom".to_string())))),
        "finish err boom"
    );
    let mut g = IdentityFlow::new(&config());
    run_identity(&mut g, Event::Begin);
    assert_eq!(
        describe(&run_identity(&mut g, Event::Ran(Ok(())))),
        "git config user.email ann@example.com"
    );
    assert_eq!(describe(&run_identity(&mut g, Event::Ran(Ok(())))), "finish ok");
    let mut empty = Config::default();
    empty.dir = "x".to_string();
    let mut h = IdentityFlow::new(&empty);
    assert_eq!(describe(&run_identity(&mut h, Event::Begin)), "finish ok");
}

#[test]
fn default_branch_comes_from_the_output() {
    assert_eq!(get_default_branch(&Ok("  dev\n".to_string())), "dev");
    assert_eq!(get_default_branch(&Ok("\n".to_string())), "main");
    assert_eq!(get_default_branch(&Err("no HEAD".to_string())), "main");
}

#[test]
fn lines_of_git_remote_are_matched_whole() {
    assert!(has_line("origin\nupstream\n", "upstream"));
    assert!(has_line("origin", "origin"));
    assert!(has_line("a\r\norigin\r\n", "origin"));
    assert!(!has_line("origin2\n", "origin"));
    assert!(!has_line("", "origin"));
}

#[test]
fn commit_counts_fall_back_to_zero() {
    assert_eq!(count_of(Ok(" 3\n".to_string())), 3);
    assert_eq!(count_of(Ok("x".to_string())), 0);
    assert_eq!(count_of(Err("fail".to_string())), 0);
}

#[test]
fn remote_is_added_when_missing() {
    let mut f = RemoteFlow::new(&config());
    assert_eq!(describe(&setup_remote(&mut f, Event::Begin)), "read git remote");
    assert_eq!(
        describe(&setup_remote(&mut f, Event::Read(Ok("upstream\n".to_string())))),
        "git remote add origin git@github.com:ann/tool.git"
    );
    assert_eq!(describe(&setup_remote(&mut f, Event::Ran(Ok(())))), "finish ok");
}

#[test]
fn remote_url_is_reset_when_present() {
    let mut f = RemoteFlow::new(&config());
    setup_remote(&mut f, Event::Begin);
    assert_eq!(
        describe(&setup_remote(&mut f, Event::Read(Ok("origin\n".to_string())))),
        "git remote set-url origin git@github.com:ann/tool.git"
    );
    assert_eq!(
        describe(&setup_remote(&mut f, Event::Ran(Err("denied".to_string())))),
        "finish err denied"
    );
}

#[test]
fn remote_needs_name_and_repository() {
    let mut c = config();
    c.git_remote_repo = String::new();
    let mut f = RemoteFlow::new(&c);
    assert_eq!(describe(&setup_remote(&mut f, Event::Begin)), "finish err 远程仓库未配置");
}

#[test]
fn commit_with_subject_and_body() {
    assert_eq!(backslashes_to_newlines("a\\b\\\\c"), "a\nb\n\nc");
    let mut f = CommitFlow::new();
    assert_eq!(describe(&do_commit(&mut f, Event::Begin)), "ask CommitSubject [] []");
    assert_eq!(describe(&do_commit(&mut f, answer("Fix bug"))), "ask CommitBody [] []");
    assert_eq!(describe(&do_commit(&mut f, answer("line one\\line two"))), "git add .");
    let a = do_commit(&mut f, Event::Ran(Ok(())));
    match a {
        Action::Git { args } => assert_eq!(args, vec![
            "commit".to_string(),
            "-s".to_string(),
            "-m".to_string(),
            "Fix bug".to_string(),
            "-m".to_string(),
            "line one\nline two".to_string(),
        ]),
        other => panic!("{}", describe(&other)),
    }
    assert_eq!(describe(&do_commit(&mut f, Event::Ran(Ok(())))), "finish ok");
}

#[test]
fn commit_without_body_and_failures() {
    let mut f = CommitFlow::new();
    do_commit(&mut f, Event::Begin);
    do_commit(&mut f, answer("Only subject"));
    do_commit(&mut f, answer(""));
    assert_eq!(describe(&do_commit(&mut f, Event::Ran(Ok(())))), "git commit -s -m Only subject");
    let mut g = CommitFlow::new();
    do_commit(&mut g, Event::Begin);
    assert_eq!(describe(&do_commit(&mut g, answer(""))), "finish err 提交标题不能为空");
    let mut h = CommitFlow::new();
    do_commit(&mut h, Event::Begin);
    do_commit(&mut h, answer("s"));
    do_commit(&mut h, answer(""));
    assert_eq!(
        describe(&do_commit(&mut h, Event::Ran(Err("add failed".to_string())))),
        "finish err add failed"
    );
}

#[test]
fn push_plain_and_skipped() {
    let mut f = PushFlow::new("是否现在开始推送？", &config());
    assert_eq!(describe(&do_push(&mut f, Event::Begin)), "confirm ForcePush [] false");
    assert_eq!(
        describe(&do_push(&mut f, Event::Flag(false))),
        "confirm PushNow [\"是否现在开始推送？\"] true"
    );
    assert_eq!(describe(&do_push(&mut f, Event::Flag(true))), "git push origin main");
    assert_eq!(describe(&do_push(&mut f, Event::Ran(Ok(())))), "finish ok");
    let mut g = PushFlow::new("q", &config());
    do_push(&mut g, Event::Begin);
    do_push(&mut g, Event::Flag(false));
    assert_eq!(describe(&do_push(&mut g, Event::Flag(false))), "show PushSkipped []");
    assert_eq!(describe(&do_push(&mut g, Event::Shown)), "finish ok");
}

#[test]
fn forced_push_needs_a_second_yes() {
    let mut f = PushFlow::new("q", &config());
    do_push(&mut f, Event::Begin);
    do_push(&mut f, Event::Flag(true));
    assert_eq!(describe(&do_push(&mut f, Event::Flag(true))), "confirm ConfirmForcePush [] false");
    assert_eq!(
        describe(&do_push(&mut f, Event::Flag(true))),
        "git push origin main --force-with-lease"
    );
    let mut g = PushFlow::new("q", &config());
    do_push(&mut g, Event::Begin);
    do_push(&mut g, Event::Flag(true));
    do_push(&mut g, Event::Flag(true));
    assert_eq!(describe(&do_push(&mut g, Event::Flag(false))), "finish ok");
}

#[test]
fn existing_branch_is_checked_out() {
    let mut f = BranchFlow::new("main");
    assert_eq!(describe(&checkout_branch(&mut f, Event::Begin)), "check repo");
    assert_eq!(
        describe(&checkout_branch(&mut f, Event::Flag(true))),
        "status git show-ref --verify refs/heads/main"
    );
    assert_eq!(describe(&checkout_branch(&mut f, Event::Status(Ok(true)))), "git checkout main");
    assert_eq!(describe(&checkout_branch(&mut f, Event::Ran(Ok(())))), "finish ok");
}

#[test]
fn missing_branch_is_created() {
    let mut f = BranchFlow::new("feature");
    checkout_branch(&mut f, Event::Begin);
    checkout_branch(&mut f, Event::Flag(true));
    assert_eq!(
        describe(&checkout_branch(&mut f, Event::Status(Ok(false)))),
        "show BranchMissing [\"feature\"]"
    );
    assert_eq!(describe(&checkout_branch(&mut f, Event::Shown)), "git checkout -b feature");
    assert_eq!(
        describe(&checkout_branch(&mut f, Event::Ran(Ok(())))),
        "show BranchCreated [\"feature\"]"
    );
    assert_eq!(describe(&checkout_branch(&mut f, Event::Shown)), "finish ok");
    let mut g = BranchFlow::new("x");
    checkout_branch(&mut g, Event::Begin);
    checkout_branch(&mut g, Event::Flag(true));
    assert_eq!(
        describe(&checkout_branch(&mut g, Event::Status(Err("no git".to_string())))),
        "show BranchMissing [\"x\"]"
    );
}

#[test]
fn branch_outside_a_repository_fails() {
    let mut f = BranchFlow::new("main");
    checkout_branch(&mut f, Event::Begin);
    assert_eq!(describe(&checkout_branch(&mut f, Event::Flag(false))), "finish err 不是 Git 仓库");
}

#[test]
fn upload_with_nothing_ahead() {
    let mut f = UploadFlow::new(&config());
    assert_eq!(describe(&do_push_direct(&mut f, Event::Begin)), "show UploadTitle []");
    assert_eq!(describe(&do_push_direct(&mut f, Event::Shown)), "read git status --porcelain");
    assert_eq!(
        describe(&do_push_direct(&mut f, Event::Read(Ok(String::new())))),
        "read git rev-list --count origin/main..HEAD"
    );
    assert_eq!(
        describe(&do_push_direct(&mut f, Event::Read(Ok("0\n".to_string())))),
        "show NothingToUpload []"
    );
    assert_eq!(describe(&do_push_direct(&mut f, Event::Shown)), "finish ok");
}

#[test]
fn upload_commits_first_then_pushes() {
    let mut f = UploadFlow::new(&config());
    do_push_direct(&mut f, Event::Begin);
    do_push_direct(&mut f, Event::Shown);
    assert_eq!(
        describe(&do_push_direct(&mut f, Event::Read(Ok(" M a.rs\n".to_string())))),
        "show UncommittedChanges []"
    );
    assert_eq!(describe(&do_push_direct(&mut f, Event::Shown)), "confirm CommitNow [] true");
    assert_eq!(describe(&do_push_direct(&mut f, Event::Flag(true))), "ask CommitSubject [] []");
    do_push_direct(&mut f, answer("wip"));
    do_push_direct(&mut f, answer(""));
    do_push_direct(&mut f, Event::Ran(Ok(())));
    assert_eq!(
        describe(&do_push_direct(&mut f, Event::Ran(Ok(())))),
        "read git rev-list --count origin/main..HEAD"
    );
    assert_eq!(
        describe(&do_push_direct(&mut f, Event::Read(Ok("2\n".to_string())))),
        "show CommitsToUpload [\"2\"]"
    );
    assert_eq!(describe(&do_push_direct(&mut f, Event::Shown)), "confirm ForcePush [] false");
    assert_eq!(
        describe(&do_push_direct(&mut f, Event::Flag(false))),
        "confirm PushNow [\"确认直接上传？\"] true"
    );
    assert_eq!(describe(&do_push_direct(&mut f, Event::Flag(true))), "git push origin main");
    assert_eq!(describe(&do_push_direct(&mut f, Event::Ran(Ok(())))), "finish ok");
}

#[test]
fn upload_refused_without_commit() {
    let mut f = UploadFlow::new(&config());
    do_push_direct(&mut f, Event::Begin);
    do_push_direct(&mut f, Event::Shown);
    do_push_direct(&mut f, Event::Read(Ok("?? new\n".to_string())));
    do_push_direct(&mut f, Event::Shown);
    assert_eq!(
        describe(&do_push_direct(&mut f, Event::Flag(false))),
        "finish err 未提交更改，无法上传"
    );
}
