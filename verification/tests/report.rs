use profileit::deploy::Outcome;
use profileit::i18n::Strings;
use profileit::init::{init_steps, STARTER};
use profileit::message::Message;
use profileit::report::{check_summary, deploy_summary, diagnostic_line, warning_line};
use profileit::validate::Diagnostic;

#[test]
fn diagnostics_print_with_their_tag_and_path() {
    let en = Strings::load("en", "x", None).unwrap();
    let d = Diagnostic::error("site.title".into(), Message::new("msg.site.titleEmpty"));
    assert_eq!(diagnostic_line(&d, &en), "[error] site.title: The site title is empty.");
    let w = Message::new("msg.url.insecure");
    assert_eq!(warning_line(&w, &en), "[warning] This is an http address; use https if you can.");
}

#[test]
fn summaries_carry_their_numbers() {
    let m = check_summary(3, 2, 1);
    assert_eq!(m.key, "cli.checkOk");
    assert_eq!(m.args.get("sections").map(|s| s.as_str()), Some("3"));
    let o = Outcome {
        branch: "gh-pages".into(),
        commit: "0123456789abcdef".into(),
        files: 12,
        pages_url: Some("https://a.github.io/card/".into()),
        settings_url: None,
        warnings: vec![],
    };
    let lines = deploy_summary(&o);
    assert_eq!(lines.len(), 2);
    assert_eq!(lines[0].args.get("commit").map(|s| s.as_str()), Some("01234567"));
    assert_eq!(lines[0].args.get("files").map(|s| s.as_str()), Some("12"));
    assert_eq!(lines[1].key, "cli.deployUrl");
}

/// An existing file is never overwritten.
#[test]
fn init_never_overwrites() {
    let err = init_steps("card/profile.toml", true).err().unwrap();
    assert_eq!(err, "card/profile.toml 이 이미 있습니다.");
    let steps = init_steps("card/profile.toml", false).ok().unwrap();
    assert_eq!(steps.make_dir.as_deref(), Some("card"));
    assert_eq!(steps.contents, STARTER);
    assert!(init_steps("profile.toml", false).ok().unwrap().make_dir.is_none());
    assert!(STARTER.contains("schema_version = 1"));
}

/// The starter file uses only known section keys: a new card starts without warnings from the key lint.
#[test]
fn starter_sections_use_only_known_keys() {
    assert!(profileit::validate::lint_section_keys(STARTER).is_empty());
}

/// A nested path gets its whole folder created first.
#[test]
fn init_creates_nested_folders() {
    let steps = init_steps("a/b/profile.toml", false).ok().unwrap();
    assert_eq!(steps.make_dir.as_deref(), Some("a/b"));
}

/// An absolute path gets its folder created first too.
#[test]
fn init_creates_absolute_folders() {
    let steps = init_steps("/tmp/cards/mine/profile.toml", false).ok().unwrap();
    assert_eq!(steps.make_dir.as_deref(), Some("/tmp/cards/mine"));
}
