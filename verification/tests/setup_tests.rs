use lib::config::Config;
use lib::flow::{Action, Event, Place};
use lib::setup::{CloneFlow, InitFlow, do_clone, init_config, last_segment_of};

fn place_text(p: &Place) -> String {
    let base = if p.in_program_dir { format!("~/{}", p.path) } else { p.path.clone() };
    match &p.child {
        Some(c) => format!("{}/{}", base, c),
        None => base,
    }
}

fn describe(a: &Action) -> String {
    match a {
        Action::Show { notice, args } => format!("show {:?} {:?}", notice, args),
        Action::Ask { question, args, default } => format!("ask {:?} {:?} [{}]", question, args, default),
        Action::Confirm { question, args, default_yes } => {
            format!("confirm {:?} {:?} {}", question, args, default_yes)
        },
        Action::Git { args } => format!("git {}", args.join(" ")),
        Action::GitRead { args } => format!("read git {}", args.join(" ")),
        Action::GitStatus { args } => format!("status git {}", args.join(" ")),
        Action::CheckRepo => "check repo".to_string(),
        Action::Exists { place } => format!("exists {}", place_text(place)),
        Action::CreateDir { place } => format!("create {}", place_text(place)),
        Action::EnterDir { place } => format!("enter {}", place_text(place)),
        Action::RelativePath { place, fallback } => format!("relative {} [{}]", place_text(place), fallback),
        Action::Describe { place } => format!("describe {}", place_text(place)),
        Action::Save { config } => format!("save {}", config.to_ini()),
        Action::ReadSettings => "read settings".to_string(),
        Action::Finish { result } => match result {
            Ok(()) => "finish ok".to_string(),
            Err(e) => format!("finish err {}", e),
        },
    }
}

fn config() -> Config {
    Config {
        dir: "repo".to_string(),
        git_name: "Ann".to_string(),
        git_email: "ann@example.com".to_string(),
        git_remote_name: "origin".to_string(),
        git_remote_repo: "ann/tool".to_string(),
        git_branch: "main".to_string(),
    }
}

fn answer(s: &str) -> Event {
    Event::Answered(s.to_string())
}

fn init(f: &mut InitFlow, e: Event) -> String {
    describe(&init_config(f, e))
}

fn clone(f: &mut CloneFlow, e: Event) -> String {
    describe(&do_clone(f, e))
}

#[test]
fn last_segment_is_the_repository_name() {
    assert_eq!(last_segment_of("torvalds/linux"), "linux");
    assert_eq!(last_segment_of("a/b/c"), "c");
    assert_eq!(last_segment_of("plain"), "plain");
    assert_eq!(last_segment_of("trailing/"), "");
}

#[test]
fn settings_dialogue_in_an_existing_repository() {
    let mut f = InitFlow::new(&config());
    assert_eq!(init(&mut f, Event::Begin), "show DirectoryListing []");
    assert_eq!(init(&mut f, Event::Shown), "ask RepoDirectory [] [repo]");
    assert_eq!(init(&mut f, answer("kernel")), "exists ~/kernel");
    assert_eq!(init(&mut f, Event::Flag(true)), "enter ~/kernel");
    assert_eq!(init(&mut f, Event::Ran(Ok(()))), "exists ~/kernel/.git");
    assert_eq!(init(&mut f, Event::Flag(true)), "ask GitUserName [] [Ann]");
    assert_eq!(init(&mut f, answer("Bob")), "ask GitUserEmail [] [ann@example.com]");
    assert_eq!(init(&mut f, answer("bob@example.com")), "ask RemoteName [] [origin]");
    assert_eq!(init(&mut f, answer("up")), "ask RemoteRepo [] [ann/tool]");
    assert_eq!(init(&mut f, answer("bob/kernel")), "ask DefaultBranch [] [main]");
    assert_eq!(
        init(&mut f, answer("dev")),
        "save DIR=\"kernel\"\nGIT_NAME=\"Bob\"\nGIT_EMAIL=\"bob@example.com\"\nGIT_REMOTE_NAME=\"up\"\nGIT_REMOTE_REPO=\"bob/kernel\"\nGIT_BRANCH=\"dev\"\n"
    );
    assert_eq!(init(&mut f, Event::Ran(Ok(()))), "show ConfigSaved []");
    assert_eq!(init(&mut f, Event::Shown), "finish ok");
    assert_eq!(f.config.dir, "kernel");
    assert_eq!(f.config.git_branch, "dev");
}

#[test]
fn settings_dialogue_creates_and_initialises() {
    let mut f = InitFlow::new(&Config::default());
    init(&mut f, Event::Begin);
    assert_eq!(init(&mut f, Event::Shown), "ask RepoDirectory [] []");
    init(&mut f, answer("new"));
    assert_eq!(init(&mut f, Event::Flag(false)), "describe ~/new");
    assert_eq!(init(&mut f, answer("/opt/app/new")), "show DirectoryMissing [\"/opt/app/new\"]");
    assert_eq!(init(&mut f, Event::Shown), "confirm CreateDirectory [] false");
    assert_eq!(init(&mut f, Event::Flag(true)), "create ~/new");
    assert_eq!(init(&mut f, Event::Ran(Ok(()))), "show DirectoryCreated []");
    assert_eq!(init(&mut f, Event::Shown), "enter ~/new");
    init(&mut f, Event::Ran(Ok(())));
    assert_eq!(init(&mut f, Event::Flag(false)), "confirm InitRepo [] true");
    assert_eq!(init(&mut f, Event::Flag(true)), "git init");
    assert_eq!(init(&mut f, Event::Ran(Ok(()))), "show RepoInitialised []");
    assert_eq!(init(&mut f, Event::Shown), "ask GitUserName [] []");
}

#[test]
fn settings_dialogue_refusals() {
    let mut f = InitFlow::new(&config());
    init(&mut f, Event::Begin);
    init(&mut f, Event::Shown);
    assert_eq!(init(&mut f, answer("exit")), "finish err 用户取消配置");

    let mut g = InitFlow::new(&config());
    init(&mut g, Event::Begin);
    init(&mut g, Event::Shown);
    init(&mut g, answer("x"));
    init(&mut g, Event::Flag(false));
    init(&mut g, answer("x"));
    init(&mut g, Event::Shown);
    assert_eq!(init(&mut g, Event::Flag(false)), "finish err 目录不存在，配置终止");

    let mut h = InitFlow::new(&config());
    init(&mut h, Event::Begin);
    init(&mut h, Event::Shown);
    init(&mut h, answer("x"));
    init(&mut h, Event::Flag(true));
    assert_eq!(init(&mut h, Event::Ran(Err("denied".to_string()))), "finish err 切换到目录失败: denied");

    let mut k = InitFlow::new(&config());
    init(&mut k, Event::Begin);
    init(&mut k, Event::Shown);
    init(&mut k, answer("x"));
    init(&mut k, Event::Flag(false));
    init(&mut k, answer("x"));
    init(&mut k, Event::Shown);
    init(&mut k, Event::Flag(true));
    assert_eq!(init(&mut k, Event::Ran(Err("full".to_string()))), "finish err 创建目录失败: full");
}

#[test]
fn clone_beside_the_program_with_a_branch() {
    let mut f = CloneFlow::new(&config());
    assert_eq!(clone(&mut f, Event::Begin), "show CloneTitle []");
    assert_eq!(clone(&mut f, Event::Shown), "confirm CloneHere [] true");
    assert_eq!(clone(&mut f, Event::Flag(true)), "ask CloneRepo [] []");
    assert_eq!(clone(&mut f, answer("torvalds/linux")), "ask CloneBranch [] []");
    assert_eq!(clone(&mut f, answer("v6")), "show CloneModes []");
    assert_eq!(clone(&mut f, Event::Shown), "ask CloneMode [] [1]");
    assert_eq!(clone(&mut f, answer("2")), "describe ~//linux");
    assert_eq!(
        clone(&mut f, answer("/opt/linux")),
        "show CloneSummaryShallow [\"git@github.com:torvalds/linux.git\", \"v6\", \"/opt/linux\"]"
    );
    assert_eq!(clone(&mut f, Event::Shown), "confirm ConfirmClone [] true");
    assert_eq!(clone(&mut f, Event::Flag(true)), "enter ~/");
    assert_eq!(
        clone(&mut f, Event::Ran(Ok(()))),
        "show Running [\"clone\", \"-b\", \"v6\", \"--depth\", \"1\", \"git@github.com:torvalds/linux.git\"]"
    );
    assert_eq!(
        clone(&mut f, Event::Shown),
        "status git clone -b v6 --depth 1 git@github.com:torvalds/linux.git"
    );
    assert_eq!(clone(&mut f, Event::Status(Ok(true))), "show Cloned []");
    assert_eq!(clone(&mut f, Event::Shown), "exists ~//linux");
    assert_eq!(clone(&mut f, Event::Flag(true)), "confirm EnterClone [] true");
    assert_eq!(clone(&mut f, Event::Flag(true)), "relative ~//linux [linux]");
    assert_eq!(
        clone(&mut f, answer("linux")),
        "save DIR=\"linux\"\nGIT_NAME=\"Ann\"\nGIT_EMAIL=\"ann@example.com\"\nGIT_REMOTE_NAME=\"origin\"\nGIT_REMOTE_REPO=\"torvalds/linux\"\nGIT_BRANCH=\"v6\"\n"
    );
    assert_eq!(
        clone(&mut f, Event::Ran(Ok(()))),
        "show ConfigUpdated [\"linux\", \"torvalds/linux\", \"v6\"]"
    );
    assert_eq!(clone(&mut f, Event::Shown), "enter ~//linux");
    assert_eq!(clone(&mut f, Event::Ran(Ok(()))), "show EnteredClone [\"/opt/linux\"]");
    assert_eq!(clone(&mut f, Event::Shown), "finish ok");
}

#[test]
fn clone_elsewhere_takes_the_current_branch() {
    let mut f = CloneFlow::new(&config());
    clone(&mut f, Event::Begin);
    clone(&mut f, Event::Shown);
    assert_eq!(clone(&mut f, Event::Flag(false)), "ask CloneBaseDir [] []");
    assert_eq!(clone(&mut f, answer("/src")), "exists /src");
    assert_eq!(clone(&mut f, Event::Flag(false)), "confirm CreateCloneBase [] true");
    assert_eq!(clone(&mut f, Event::Flag(true)), "create /src");
    assert_eq!(clone(&mut f, Event::Ran(Ok(()))), "ask CloneRepo [] []");
    clone(&mut f, answer("bob/lib"));
    clone(&mut f, answer(""));
    clone(&mut f, Event::Shown);
    assert_eq!(clone(&mut f, answer("1")), "describe /src/lib");
    assert_eq!(
        clone(&mut f, answer("/src/lib")),
        "show CloneSummaryFull [\"git@github.com:bob/lib.git\", \"\", \"/src/lib\"]"
    );
    clone(&mut f, Event::Shown);
    assert_eq!(clone(&mut f, Event::Flag(true)), "enter /src");
    assert_eq!(
        clone(&mut f, Event::Ran(Ok(()))),
        "show Running [\"clone\", \"git@github.com:bob/lib.git\"]"
    );
    clone(&mut f, Event::Shown);
    clone(&mut f, Event::Status(Ok(true)));
    clone(&mut f, Event::Shown);
    clone(&mut f, Event::Flag(true));
    assert_eq!(clone(&mut f, Event::Flag(true)), "relative /src/lib [lib]");
    assert_eq!(clone(&mut f, answer("lib")), "enter /src/lib");
    assert_eq!(clone(&mut f, Event::Ran(Ok(()))), "read git symbolic-ref --short HEAD");
    assert_eq!(
        clone(&mut f, Event::Read(Ok("trunk\n".to_string()))),
        "save DIR=\"lib\"\nGIT_NAME=\"Ann\"\nGIT_EMAIL=\"ann@example.com\"\nGIT_REMOTE_NAME=\"origin\"\nGIT_REMOTE_REPO=\"bob/lib\"\nGIT_BRANCH=\"trunk\"\n"
    );
}

#[test]
fn clone_refusals_and_failures() {
    let mut f = CloneFlow::new(&config());
    clone(&mut f, Event::Begin);
    clone(&mut f, Event::Shown);
    clone(&mut f, Event::Flag(true));
    assert_eq!(clone(&mut f, answer("")), "finish err 远程仓库不能为空");

    let mut g = CloneFlow::new(&config());
    clone(&mut g, Event::Begin);
    clone(&mut g, Event::Shown);
    clone(&mut g, Event::Flag(true));
    assert_eq!(
        clone(&mut g, answer("linux")),
        "finish err 远程仓库格式错误，应为 username/repository-name"
    );

    let mut h = CloneFlow::new(&config());
    clone(&mut h, Event::Begin);
    clone(&mut h, Event::Shown);
    clone(&mut h, Event::Flag(false));
    assert_eq!(clone(&mut h, answer("")), "finish err 克隆目录不能为空");

    let mut k = CloneFlow::new(&config());
    clone(&mut k, Event::Begin);
    clone(&mut k, Event::Shown);
    clone(&mut k, Event::Flag(true));
    clone(&mut k, answer("a/b"));
    clone(&mut k, answer(""));
    clone(&mut k, Event::Shown);
    clone(&mut k, answer("1"));
    clone(&mut k, answer("b"));
    clone(&mut k, Event::Shown);
    assert_eq!(clone(&mut k, Event::Flag(false)), "show CloneCancelled []");
    assert_eq!(clone(&mut k, Event::Shown), "finish ok");

    let mut m = CloneFlow::new(&config());
    clone(&mut m, Event::Begin);
    clone(&mut m, Event::Shown);
    clone(&mut m, Event::Flag(true));
    clone(&mut m, answer("a/b"));
    clone(&mut m, answer(""));
    clone(&mut m, Event::Shown);
    clone(&mut m, answer("1"));
    clone(&mut m, answer("b"));
    clone(&mut m, Event::Shown);
    clone(&mut m, Event::Flag(true));
    clone(&mut m, Event::Ran(Ok(())));
    clone(&mut m, Event::Shown);
    assert_eq!(clone(&mut m, Event::Status(Ok(false))), "finish err git clone 执行失败");

    let mut n = CloneFlow::new(&config());
    clone(&mut n, Event::Begin);
    clone(&mut n, Event::Shown);
    clone(&mut n, Event::Flag(true));
    clone(&mut n, answer("a/b"));
    clone(&mut n, answer(""));
    clone(&mut n, Event::Shown);
    clone(&mut n, answer("1"));
    clone(&mut n, answer("/x/b"));
    clone(&mut n, Event::Shown);
    clone(&mut n, Event::Flag(true));
    clone(&mut n, Event::Ran(Ok(())));
    clone(&mut n, Event::Shown);
    clone(&mut n, Event::Status(Ok(true)));
    clone(&mut n, Event::Shown);
    assert_eq!(clone(&mut n, Event::Flag(false)), "finish err 克隆成功但未找到预期的目录: /x/b");
}

/// Runs a clone of `a/b` beside the program up to the confirmation.
fn clone_to_confirm(f: &mut CloneFlow) {
    clone(f, Event::Begin);
    clone(f, Event::Shown);
    clone(f, Event::Flag(true));
    clone(f, answer("a/b"));
    clone(f, answer(""));
    clone(f, Event::Shown);
    clone(f, answer("1"));
    clone(f, answer("/x/b"));
    clone(f, Event::Shown);
}

#[test]
fn clone_errors_carry_their_cause() {
    let mut f = CloneFlow::new(&config());
    clone_to_confirm(&mut f);
    clone(&mut f, Event::Flag(true));
    assert_eq!(
        clone(&mut f, Event::Ran(Err("denied".to_string()))),
        "finish err 切换到克隆基目录失败: denied"
    );

    let mut g = CloneFlow::new(&config());
    clone_to_confirm(&mut g);
    clone(&mut g, Event::Flag(true));
    clone(&mut g, Event::Ran(Ok(())));
    clone(&mut g, Event::Shown);
    assert_eq!(
        clone(&mut g, Event::Status(Err("not found".to_string()))),
        "finish err 执行 git clone 失败: not found"
    );

    let mut h = CloneFlow::new(&config());
    clone_to_confirm(&mut h);
    clone(&mut h, Event::Flag(true));
    clone(&mut h, Event::Ran(Ok(())));
    clone(&mut h, Event::Shown);
    clone(&mut h, Event::Status(Ok(true)));
    clone(&mut h, Event::Shown);
    clone(&mut h, Event::Flag(true));
    assert_eq!(clone(&mut h, Event::Flag(false)), "show CloneKept []");
    assert_eq!(clone(&mut h, Event::Shown), "finish ok");

    let mut k = CloneFlow::new(&config());
    clone_to_confirm(&mut k);
    clone(&mut k, Event::Flag(true));
    clone(&mut k, Event::Ran(Ok(())));
    clone(&mut k, Event::Shown);
    clone(&mut k, Event::Status(Ok(true)));
    clone(&mut k, Event::Shown);
    clone(&mut k, Event::Flag(true));
    clone(&mut k, Event::Flag(true));
    assert_eq!(clone(&mut k, answer("b")), "enter ~//b");
    assert_eq!(
        clone(&mut k, Event::Ran(Err("gone".to_string()))),
        "finish err 切换到克隆目录失败: gone"
    );

    let mut m = CloneFlow::new(&config());
    clone(&mut m, Event::Begin);
    clone(&mut m, Event::Shown);
    clone(&mut m, Event::Flag(false));
    clone(&mut m, answer("/nowhere"));
    clone(&mut m, Event::Flag(false));
    assert_eq!(clone(&mut m, Event::Flag(false)), "finish err 目录不存在且用户选择不创建");

    let mut n = CloneFlow::new(&config());
    clone(&mut n, Event::Begin);
    clone(&mut n, Event::Shown);
    clone(&mut n, Event::Flag(false));
    clone(&mut n, answer("/nowhere"));
    clone(&mut n, Event::Flag(false));
    clone(&mut n, Event::Flag(true));
    assert_eq!(clone(&mut n, Event::Ran(Err("ro".to_string()))), "finish err 创建目录失败: ro");
}

#[test]
fn settings_save_failure_is_the_result() {
    let mut f = InitFlow::new(&config());
    init(&mut f, Event::Begin);
    init(&mut f, Event::Shown);
    init(&mut f, answer("repo"));
    init(&mut f, Event::Flag(true));
    init(&mut f, Event::Ran(Ok(())));
    assert_eq!(init(&mut f, Event::Flag(false)), "confirm InitRepo [] true");
    assert_eq!(init(&mut f, Event::Flag(false)), "show RepoMissing []");
    assert_eq!(init(&mut f, Event::Shown), "ask GitUserName [] [Ann]");
    init(&mut f, answer("Ann"));
    init(&mut f, answer("e"));
    init(&mut f, answer("o"));
    init(&mut f, answer("r/x"));
    init(&mut f, answer("main"));
    assert_eq!(
        init(&mut f, Event::Ran(Err("保存配置文件失败: disk full".to_string()))),
        "finish err 保存配置文件失败: disk full"
    );
}
