use profileit::i18n::Strings;
use profileit::message::Message;

#[test]
fn fills_placeholders() {
    let strings = Strings::load("ko", "./locales/ko.json", None).unwrap();
    let message = Message::new("msg.color.invalid").with("value", "#nothex");

    let rendered = message.render(&strings);
    assert!(rendered.contains("#nothex"), "{rendered}");
    assert!(!rendered.contains("{value}"), "{rendered}");
}

/// The same message should render differently per language.
#[test]
fn renders_in_each_language() {
    let message = Message::new("msg.color.invalid").with("value", "#zz");

    let mut seen = Vec::new();
    for lang in ["ko", "en", "ja"] {
        let strings = Strings::load(lang, "./locales/x.json", None).unwrap();
        let rendered = message.render(&strings);
        assert!(rendered.contains("#zz"), "{lang}: {rendered}");
        assert!(!rendered.starts_with("msg."), "{lang} 번역이 없습니다");
        seen.push(rendered);
    }
    assert_ne!(seen[0], seen[1], "한국어와 영어가 같습니다");
}

#[test]
fn unknown_key_shows_itself() {
    let strings = Strings::load("ko", "./locales/ko.json", None).unwrap();
    assert_eq!(Message::new("msg.nope").render(&strings), "msg.nope");
}

#[test]
fn key_arguments_are_translated_at_render_time() {
    let en = Strings::load("en", "x", None).unwrap();
    let m = Message::new("msg.deploy.gitFailed").with_key("step", "msg.deploy.step.push").with("detail", "denied");
    assert_eq!(m.render(&en), "git failed while pushing: denied");
    let ko = Strings::load("ko", "x", None).unwrap();
    assert_eq!(m.render(&ko), "git 푸시 단계에서 실패했습니다: denied");
}

#[test]
fn with_replaces_an_argument() {
    let m = Message::new("k").with("a", "1").with("a", "2");
    assert_eq!(m.args.len(), 1);
    assert_eq!(m.args.get("a").map(|s| s.as_str()), Some("2"));
}
