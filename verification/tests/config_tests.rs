use lib::config::Config;

fn sample() -> Config {
    Config {
        dir: "my_kernel_repo".to_string(),
        git_name: "Your Name".to_string(),
        git_email: "you@example.com".to_string(),
        git_remote_name: "origin".to_string(),
        git_remote_repo: "username/repository".to_string(),
        git_branch: "main".to_string(),
    }
}

#[test]
fn reads_the_documented_example() {
    let text = "DIR=\"my_kernel_repo\"\nGIT_NAME=\"Your Name\"\nGIT_EMAIL=\"you@example.com\"\nGIT_REMOTE_NAME=\"origin\"\nGIT_REMOTE_REPO=\"username/repository\"\nGIT_BRANCH=\"main\"\n";
    assert!(Config::ini_readable(text));
    let c = Config::from_ini(text);
    assert_eq!(c.dir, "my_kernel_repo");
    assert_eq!(c.git_name, "Your Name");
    assert_eq!(c.git_email, "you@example.com");
    assert_eq!(c.git_remote_name, "origin");
    assert_eq!(c.git_remote_repo, "username/repository");
    assert_eq!(c.git_branch, "main");
    assert!(c.is_complete());
}

#[test]
fn empty_text_gives_empty_settings() {
    let c = Config::from_ini("");
    let d = Config::default();
    assert_eq!(c.dir, d.dir);
    assert_eq!(c.dir, "");
    assert_eq!(c.git_name, "");
    assert_eq!(c.git_email, "");
    assert_eq!(c.git_remote_name, "");
    assert_eq!(c.git_remote_repo, "");
    assert_eq!(c.git_branch, "");
    assert!(!c.is_complete());
}

#[test]
fn comments_blank_lines_and_unknown_keys_are_skipped() {
    let text = "; a comment\n# DIR=\"hidden\"\n\n   \nNOISE\nOTHER=1\nDIR = plain value  \n";
    let c = Config::from_ini(text);
    assert_eq!(c.dir, "plain value");
    assert_eq!(c.git_name, "");
}

#[test]
fn later_lines_override_and_quotes_are_stripped_once() {
    let text = "GIT_NAME=\"first\"\nGIT_NAME=\"\"second\"\"\nGIT_EMAIL=\"\"\nGIT_BRANCH=\"dev";
    let c = Config::from_ini(text);
    assert_eq!(c.git_name, "\"second\"");
    assert_eq!(c.git_email, "");
    assert_eq!(c.git_branch, "\"dev");
}

#[test]
fn value_may_hold_an_equals_sign_and_crlf_ends_lines() {
    let text = "DIR=a=b\r\nGIT_NAME=x\r\n";
    let c = Config::from_ini(text);
    assert_eq!(c.dir, "a=b");
    assert_eq!(c.git_name, "x");
    assert!(c.is_complete());
}

#[test]
fn a_lone_quote_value_is_not_readable() {
    assert!(!Config::ini_readable("DIR=\"\n"));
    assert!(!Config::ini_readable("GIT_NAME = \" "));
    assert!(Config::ini_readable("DIR=\"\"\n"));
    assert!(Config::ini_readable("# DIR=\"\n"));
}

#[test]
fn completeness_needs_directory_and_name() {
    let mut c = sample();
    assert!(c.is_complete());
    c.git_email = String::new();
    c.git_remote_repo = String::new();
    assert!(c.is_complete());
    c.git_name = String::new();
    assert!(!c.is_complete());
    let mut d = sample();
    d.dir = String::new();
    assert!(!d.is_complete());
}

#[test]
fn saving_writes_one_quoted_line_per_field() {
    let text = sample().to_ini();
    assert_eq!(
        text,
        "DIR=\"my_kernel_repo\"\nGIT_NAME=\"Your Name\"\nGIT_EMAIL=\"you@example.com\"\nGIT_REMOTE_NAME=\"origin\"\nGIT_REMOTE_REPO=\"username/repository\"\nGIT_BRANCH=\"main\"\n"
    );
}

#[test]
fn saved_settings_read_back_the_same() {
    let mut c = sample();
    c.git_name = "  spaced  name ".to_string();
    c.git_email = "\"quoted\"".to_string();
    c.git_branch = String::new();
    let text = c.to_ini();
    assert!(Config::ini_readable(&text));
    let back = Config::from_ini(&text);
    assert_eq!(back.dir, c.dir);
    assert_eq!(back.git_name, c.git_name);
    assert_eq!(back.git_email, c.git_email);
    assert_eq!(back.git_remote_name, c.git_remote_name);
    assert_eq!(back.git_remote_repo, c.git_remote_repo);
    assert_eq!(back.git_branch, c.git_branch);
}
