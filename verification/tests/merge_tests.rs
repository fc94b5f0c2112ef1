use lib::config::Config;
use lib::flow::{Action, Event, Place};
use lib::merge::{MergeFlow, merge_from_remote};

fn place_text(p: &Place) -> String {
    let base = if p.in_program_dir { format!("~/{}", p.path) } else { p.path.clone() };
    match &p.child {
        Some(c) => format!("{}/{}", base, c),
        None => base,
    }
}

fn describe(a: &Action) -> String {
    match a {
        Action::Show { notice, args } => format!("show {:?} {:?}", notice, args),
        Action::Ask { question, args, default } => format!("ask {:?} {:?} [{}]", question, args, default),
        Action::Confirm { question, args, default_yes } => {
            format!("confirm {:?} {:?} {}", question, args, default_yes)
        },
        Action::Git { args } => format!("git {}", args.join(" ")),
        Action::GitRead { args } => format!("read git {}", args.join(" ")),
        Action::GitStatus { args } => format!("status git {}", args.join(" ")),
        Action::CheckRepo => "check repo".to_string(),
        Action::Exists { place } => format!("exists {}", place_text(place)),
        Action::CreateDir { place } => format!("create {}", place_text(place)),
        Action::EnterDir { place } => format!("enter {}", place_text(place)),
        Action::RelativePath { place, fallback } => format!("relative {} [{}]", place_text(place), fallback),
        Action::Describe { place } => format!("describe {}", place_text(place)),
        Action::Save { config } => format!("save {}", config.to_ini()),
        Action::ReadSettings => "read settings".to_string(),
        Action::Finish { result } => match result {
            Ok(()) => "finish ok".to_string(),
            Err(e) => format!("finish err {}", e),
        },
    }
}

fn config() -> Config {
    Config {
        dir: "repo".to_string(),
        git_name: "Ann".to_string(),
        git_email: "ann@example.com".to_string(),
        git_remote_name: "origin".to_string(),
        git_remote_repo: "ann/tool".to_string(),
        git_branch: "main".to_string(),
    }
}

fn step(f: &mut MergeFlow, e: Event) -> String {
    describe(&merge_from_remote(f, e))
}

fn answer(s: &str) -> Event {
    Event::Answered(s.to_string())
}

fn list(n: usize) -> String {
    let mut s = String::new();
    for i in 1..=n {
        s.push_str(&format!("c{}|subject {}\n", i, i));
    }
    s
}

/// Runs a merge from GitHub `bob/lib`, branch `dev`, up to the merge mode.
fn to_mode(f: &mut MergeFlow) {
    assert_eq!(step(f, Event::Begin), "show RemoteKinds []");
    assert_eq!(step(f, Event::Shown), "ask RemoteKind [] []");
    assert_eq!(step(f, answer("1")), "ask GithubRepo [] []");
    assert_eq!(step(f, answer("bob/lib")), "ask BranchName [] []");
    assert_eq!(step(f, answer("dev")), "git remote remove temp_merge_remote_42");
    assert_eq!(
        step(f, Event::Ran(Err("no such remote".to_string()))),
        "git remote add temp_merge_remote_42 git@github.com:bob/lib.git"
    );
    assert_eq!(step(f, Event::Ran(Ok(()))), "show FetchModes []");
    assert_eq!(step(f, Event::Shown), "ask FetchMode [] [1]");
    assert_eq!(step(f, answer("1")), "show FetchingBranch [\"dev\"]");
    assert_eq!(step(f, Event::Shown), "show FullFetch []");
    assert_eq!(step(f, Event::Shown), "git fetch --no-tags temp_merge_remote_42 dev");
    assert_eq!(step(f, Event::Ran(Ok(()))), "show BranchFetched []");
    assert_eq!(step(f, Event::Shown), "show MergeModes []");
    assert_eq!(step(f, Event::Shown), "ask MergeMode [] [1]");
}

#[test]
fn cherry_pick_one_commit_and_push() {
    let mut f = MergeFlow::new(&config(), 42);
    to_mode(&mut f);
    assert_eq!(step(&mut f, answer("1")), "ask CommitSha [] []");
    assert_eq!(step(&mut f, answer("abc123")), "confirm ConfirmPick [] true");
    assert_eq!(step(&mut f, Event::Flag(true)), "git cherry-pick -s abc123");
    assert_eq!(step(&mut f, Event::Ran(Ok(()))), "show Picked []");
    assert_eq!(step(&mut f, Event::Shown), "confirm PushMerged [] true");
    assert_eq!(step(&mut f, Event::Flag(true)), "confirm ForcePush [] false");
    assert_eq!(
        step(&mut f, Event::Flag(false)),
        "confirm PushNow [\"是否现在推送合并的提交？\"] true"
    );
    assert_eq!(step(&mut f, Event::Flag(true)), "git push origin main");
    assert_eq!(step(&mut f, Event::Ran(Ok(()))), "git remote remove temp_merge_remote_42");
    assert_eq!(step(&mut f, Event::Ran(Ok(()))), "finish ok");
}

#[test]
fn a_range_of_commits_is_picked_oldest_first() {
    let mut f = MergeFlow::new(&config(), 42);
    to_mode(&mut f);
    assert_eq!(
        step(&mut f, answer("2")),
        "read git log temp_merge_remote_42/dev --format=%H|%s --reverse"
    );
    assert_eq!(step(&mut f, Event::Read(Ok(list(3)))), "show CommitsFound [\"3\"]");
    assert_eq!(step(&mut f, Event::Shown), "show CommitLine [\"1\", \"c1\", \"subject 1\"]");
    assert_eq!(step(&mut f, Event::Shown), "show CommitLine [\"2\", \"c2\", \"subject 2\"]");
    assert_eq!(step(&mut f, Event::Shown), "show CommitLine [\"3\", \"c3\", \"subject 3\"]");
    assert_eq!(step(&mut f, Event::Shown), "ask StartIndex [] [1]");
    assert_eq!(step(&mut f, answer("2")), "ask EndIndex [] [3]");
    assert_eq!(step(&mut f, answer("3")), "confirm ConfirmBatch [\"2\"] true");
    assert_eq!(step(&mut f, Event::Flag(true)), "git cherry-pick -s c2 c3");
    assert_eq!(step(&mut f, Event::Ran(Ok(()))), "show BatchPicked []");
    assert_eq!(step(&mut f, Event::Shown), "confirm PushMerged [] true");
    assert_eq!(step(&mut f, Event::Flag(false)), "git remote remove temp_merge_remote_42");
    assert_eq!(step(&mut f, Event::Ran(Err("gone".to_string()))), "finish err gone");
}

#[test]
fn long_lists_are_cut_in_the_middle() {
    let mut f = MergeFlow::new(&config(), 42);
    to_mode(&mut f);
    step(&mut f, answer("2"));
    assert_eq!(step(&mut f, Event::Read(Ok(list(25)))), "show CommitsFound [\"25\"]");
    let mut shown = Vec::new();
    loop {
        let d = step(&mut f, Event::Shown);
        if d.starts_with("ask") {
            assert_eq!(d, "ask StartIndex [] [1]");
            break;
        }
        shown.push(d);
    }
    assert_eq!(shown.len(), 21);
    assert_eq!(shown[9], "show CommitLine [\"10\", \"c10\", \"subject 10\"]");
    assert_eq!(shown[10], "show Ellipsis []");
    assert_eq!(shown[11], "show CommitLine [\"16\", \"c16\", \"subject 16\"]");
    assert_eq!(shown[20], "show CommitLine [\"25\", \"c25\", \"subject 25\"]");
    assert_eq!(step(&mut f, answer("x")), "ask EndIndex [] [25]");
    assert_eq!(step(&mut f, answer("y")), "confirm ConfirmBatch [\"25\"] true");
}

#[test]
fn an_invalid_range_fails_after_cleanup() {
    let mut f = MergeFlow::new(&config(), 42);
    to_mode(&mut f);
    step(&mut f, answer("2"));
    step(&mut f, Event::Read(Ok(list(2))));
    step(&mut f, Event::Shown);
    step(&mut f, Event::Shown);
    step(&mut f, Event::Shown);
    step(&mut f, answer("2"));
    assert_eq!(step(&mut f, answer("1")), "git remote remove temp_merge_remote_42");
    assert_eq!(step(&mut f, Event::Ran(Ok(()))), "finish err 序号无效");
}

#[test]
fn shallow_fetch_from_a_url_that_fails() {
    let mut f = MergeFlow::new(&config(), 7);
    step(&mut f, Event::Begin);
    step(&mut f, Event::Shown);
    assert_eq!(step(&mut f, answer("2")), "ask ExternalUrl [] []");
    step(&mut f, answer("https://example.com/x.git"));
    step(&mut f, answer("main"));
    assert_eq!(
        step(&mut f, Event::Ran(Ok(()))),
        "git remote add temp_merge_remote_7 https://example.com/x.git"
    );
    step(&mut f, Event::Ran(Ok(())));
    step(&mut f, Event::Shown);
    assert_eq!(step(&mut f, answer("2")), "ask FetchDepth [] [50]");
    assert_eq!(step(&mut f, answer("5")), "show FetchingBranch [\"main\"]");
    assert_eq!(step(&mut f, Event::Shown), "show ShallowFetch [\"5\"]");
    assert_eq!(
        step(&mut f, Event::Shown),
        "git fetch --no-tags temp_merge_remote_7 main --depth 5"
    );
    assert_eq!(
        step(&mut f, Event::Ran(Err("timeout".to_string()))),
        "git remote remove temp_merge_remote_7"
    );
    assert_eq!(step(&mut f, Event::Ran(Ok(()))), "finish err 无法获取远程分支: timeout");
}

#[test]
fn blank_answers_leave_quietly() {
    let mut f = MergeFlow::new(&config(), 1);
    step(&mut f, Event::Begin);
    step(&mut f, Event::Shown);
    assert_eq!(step(&mut f, answer("")), "finish ok");
    let mut g = MergeFlow::new(&config(), 1);
    step(&mut g, Event::Begin);
    step(&mut g, Event::Shown);
    assert_eq!(step(&mut g, answer("9")), "finish err 无效的选择");
}

#[test]
fn a_conflict_is_reported_and_cleaned_up() {
    let mut f = MergeFlow::new(&config(), 42);
    to_mode(&mut f);
    step(&mut f, answer("1"));
    step(&mut f, answer("abc"));
    step(&mut f, Event::Flag(true));
    assert_eq!(step(&mut f, Event::Ran(Err("conflict".to_string()))), "show PickConflict []");
    assert_eq!(step(&mut f, Event::Shown), "git remote remove temp_merge_remote_42");
    assert_eq!(step(&mut f, Event::Ran(Ok(()))), "finish err conflict");
}

#[test]
fn failing_to_add_the_remote_ends_the_merge() {
    let mut f = MergeFlow::new(&config(), 3);
    step(&mut f, Event::Begin);
    step(&mut f, Event::Shown);
    step(&mut f, answer("1"));
    step(&mut f, answer("bob/lib"));
    step(&mut f, answer("dev"));
    step(&mut f, Event::Ran(Ok(())));
    assert_eq!(step(&mut f, Event::Ran(Err("bad url".to_string()))), "finish err bad url");
}

#[test]
fn an_empty_branch_has_nothing_to_pick() {
    let mut f = MergeFlow::new(&config(), 42);
    to_mode(&mut f);
    step(&mut f, answer("2"));
    assert_eq!(step(&mut f, Event::Read(Ok("no separator\n".to_string()))), "show NoCommits []");
    assert_eq!(step(&mut f, Event::Shown), "git remote remove temp_merge_remote_42");
    assert_eq!(step(&mut f, Event::Ran(Ok(()))), "finish ok");
}

#[test]
fn a_failed_push_still_removes_the_remote() {
    let mut f = MergeFlow::new(&config(), 42);
    to_mode(&mut f);
    step(&mut f, answer("1"));
    step(&mut f, answer("abc"));
    step(&mut f, Event::Flag(true));
    step(&mut f, Event::Ran(Ok(())));
    step(&mut f, Event::Shown);
    step(&mut f, Event::Flag(true));
    step(&mut f, Event::Flag(false));
    assert_eq!(step(&mut f, Event::Flag(true)), "git push origin main");
    assert_eq!(
        step(&mut f, Event::Ran(Err("rejected".to_string()))),
        "git remote remove temp_merge_remote_42"
    );
    assert_eq!(step(&mut f, Event::Ran(Ok(()))), "finish err rejected");
}

#[test]
fn a_failed_listing_still_removes_the_remote() {
    let mut f = MergeFlow::new(&config(), 42);
    to_mode(&mut f);
    step(&mut f, answer("2"));
    assert_eq!(
        step(&mut f, Event::Read(Err("bad ref".to_string()))),
        "git remote remove temp_merge_remote_42"
    );
    assert_eq!(step(&mut f, Event::Ran(Err("locked".to_string()))), "finish err locked");
}

#[test]
fn long_hashes_are_listed_by_their_first_eight_characters() {
    let mut f = MergeFlow::new(&config(), 42);
    to_mode(&mut f);
    step(&mut f, answer("2"));
    step(&mut f, Event::Read(Ok("0123456789abcdef|first\n".to_string())));
    assert_eq!(step(&mut f, Event::Shown), "show CommitLine [\"1\", \"01234567\", \"first\"]");
}
