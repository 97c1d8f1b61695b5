use profileit::i18n::{builtin_codes, language_name, Strings, Text};
use profileit::locales::builtin;
use profileit::strmap::StrMap;

fn translated(pairs: &[(&str, &str)]) -> Text {
    Text::Translated(StrMap::from_pairs(
        pairs.iter().map(|(k, v)| (k.to_string(), v.to_string())).collect(),
    ))
}

#[test]
fn plain_text_is_shared_across_languages() {
    let text = Text::plain("Rust");
    assert_eq!(text.get("ko", "ko"), "Rust");
    assert_eq!(text.get("en", "ko"), "Rust");
    assert!(text.has("en"));
}

#[test]
fn missing_translation_falls_back_to_default_language() {
    let text = translated(&[("ko", "학력")]);
    assert_eq!(text.get("en", "ko"), "학력");
    assert!(!text.has("en"));
}

/// Even without the default language, show what there is rather than nothing.
#[test]
fn falls_back_to_any_available_language() {
    let text = translated(&[("ja", "学歴")]);
    assert_eq!(text.get("en", "ko"), "学歴");
}

#[test]
fn blank_translation_does_not_count_as_present() {
    let text = translated(&[("ko", "학력"), ("en", "   ")]);
    assert!(!text.has("en"));
    assert!(!text.is_empty());
}

#[test]
fn builtin_locales_parse_and_share_keys() {
    let ko = builtin("ko").unwrap();
    for code in builtin_codes() {
        let other = builtin(code).unwrap();
        // A key missing from one language shows up on screen as the key itself.
        let mut missing = Vec::new();
        for i in 0..ko.len() {
            let (key, _) = ko.entry(i);
            if other.get(key).is_none() {
                missing.push(key.clone());
            }
        }
        assert!(missing.is_empty(), "{code} 에 빠진 키: {missing:?}");
    }
}

#[test]
fn format_fills_placeholders() {
    let strings = Strings::from_maps(
        StrMap::from_pairs(vec![("checklist.progress".to_string(), "{total}개 중 {done}개".to_string())]),
        StrMap::new(),
    );
    assert_eq!(
        strings.format("checklist.progress", &[("total", "5"), ("done", "2")]),
        "5개 중 2개"
    );
}

/// A missing key shows itself, so it is clear what is missing.
#[test]
fn unknown_key_returns_itself() {
    let strings = Strings::default();
    assert_eq!(strings.get("nope.missing"), "nope.missing");
}

#[test]
fn project_file_overrides_single_phrases() {
    let source = r#"{"action.share": "Pass it on"}"#;
    let strings = Strings::load("en", "locales/en.json", Some(source)).unwrap();
    assert_eq!(strings.get("action.share"), "Pass it on");
    assert_eq!(strings.get("action.save_contact"), "Save contact");
}

#[test]
fn broken_project_file_is_reported_with_its_path() {
    let err = Strings::load("ko", "locales/ko.json", Some("{not json")).err().unwrap();
    assert!(err.starts_with("locales/ko.json 파싱 실패: "), "{err}");
}

#[test]
fn unknown_language_without_a_file_is_an_error() {
    let err = Strings::load("fr", "locales/fr.json", None).err().unwrap();
    assert_eq!(
        err,
        "'fr' 문구를 찾을 수 없습니다. 내장 언어(ko, en, ja)가 아니면 locales/fr.json 을 만들어 주세요."
    );
}

#[test]
fn english_is_the_safety_net_for_other_languages() {
    let source = r#"{"language.name": "Français"}"#;
    let strings = Strings::load("fr", "locales/fr.json", Some(source)).unwrap();
    assert_eq!(strings.get("language.name"), "Français");
    assert_eq!(strings.get("action.share"), "Share");
}

#[test]
fn languages_name_themselves() {
    assert_eq!(language_name("ja", "locales/ja.json", None), "日本語");
    assert_eq!(language_name("ko", "locales/ko.json", None), "한국어");
    assert_eq!(language_name("xx", "locales/xx.json", None), "xx");
}

#[test]
fn with_prefix_and_client_subset_pick_their_keys() {
    let strings = Strings::load("en", "locales/en.json", None).unwrap();
    let toasts = strings.with_prefix("toast.");
    assert_eq!(toasts.len(), 4);
    let client = strings.client_subset();
    assert_eq!(client.get("toast.copied").map(|s| s.as_str()), Some("Link copied."));
    assert_eq!(client.len(), 4);
}

/// A text is empty exactly when no language has a written string in it.
#[test]
fn empty_text_has_no_language() {
    let partly = translated(&[("ko", "학력"), ("en", "   ")]);
    assert!(!partly.is_empty());
    assert!(partly.has("ko") && !partly.has("en"));
    let blank = translated(&[("en", " ")]);
    assert!(blank.is_empty());
    assert!(!blank.has("en") && !blank.has("ko"));
    assert!(Text::plain("  ").is_empty() && !Text::plain("  ").has("ko"));
}
