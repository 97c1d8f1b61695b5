use profileit::config::{Config, Deploy, Features, Footer, Profile, Site, Theme};
use profileit::editor::{
    check_upload, choose_repo, display_language, editor_meta, is_openable, judge_upload, looks_like_image,
    mime_for, preview_allowed, preview_entries, preview_language, title_with, to_json_diagnostics,
    upload_config_path, upload_file_name, upload_kind, Editor, LocaleFile, RepoChoice, UploadRefusal,
};
use profileit::i18n::Text;
use profileit::message::Message;
use profileit::validate::Diagnostic;

/// No shell is ever involved, so special characters aren't commands by
/// themselves — but whitespace or control characters in a URL are never normal.
#[test]
fn rejects_anything_that_is_not_a_plain_web_address() {
    assert!(is_openable("https://github.com/settings/tokens/new?scopes=repo"));
    assert!(is_openable("http://127.0.0.1:4180/"));

    // Not a web scheme
    assert!(!is_openable("file:///C:/Windows/System32/calc.exe"));
    assert!(!is_openable("javascript:alert(1)"));
    assert!(!is_openable("ftp://example.com"));

    // Signs of tampering
    assert!(!is_openable("https://example.com/ & calc"));
    assert!(!is_openable("https://example.com/\ncalc"));
    assert!(!is_openable("https://example.com/\tcalc"));
    assert!(!is_openable("https://example.com/\u{0}calc"));
}

/// Characters a shell would treat as separators are a legitimate part of a
/// query string and pass straight through.
#[test]
fn keeps_legitimate_query_strings() {
    assert!(is_openable("https://example.com/?a=1&b=2"));
    assert!(is_openable("https://example.com/?x=100%25"));
}

#[test]
fn magic_numbers_are_checked() {
    assert!(looks_like_image(&[0x89, b'P', b'N', b'G', 0], "png"));
    assert!(!looks_like_image(b"GIF89a", "png"));
    assert!(looks_like_image(&[0xFF, 0xD8, 0xFF, 0xE0], "jpg"));
    assert!(looks_like_image(b"GIF89a....", "gif"));
    assert!(looks_like_image(b"RIFF\0\0\0\0WEBPVP8 ", "webp"));
    assert!(!looks_like_image(b"RIFF\0\0\0\0WEBP", "webp"));
    assert!(looks_like_image(b"  <SVG xmlns='http://www.w3.org/2000/svg'/>", "svg"));
    assert!(looks_like_image(b"<?XML version='1.0'?>", "svg"));
    assert!(!looks_like_image(b"<html></html>", "svg"));
    let mut late = vec![b' '; 600];
    late.extend_from_slice(b"<svg");
    assert!(!looks_like_image(&late, "svg"));
    assert!(!looks_like_image(b"anything", "bmp"));
}

#[test]
fn uploads_are_judged_in_order() {
    let png = [0x89u8, b'P', b'N', b'G', 1, 2, 3];
    assert!(matches!(judge_upload(&[], Some("png"), None), Err(UploadRefusal::Empty)));
    let big = vec![0u8; 8 * 1024 * 1024 + 1];
    assert!(matches!(judge_upload(&big, Some("png"), None), Err(UploadRefusal::TooBig { bytes }) if bytes == 8 * 1024 * 1024 + 1));
    assert!(matches!(judge_upload(&png, None, None), Err(UploadRefusal::BadFormat(f)) if f == "?"));
    assert!(matches!(judge_upload(&png, Some("EXE"), None), Err(UploadRefusal::BadFormat(f)) if f == "exe"));
    assert!(matches!(judge_upload(&png, Some("gif"), None), Err(UploadRefusal::NotAnImage(f)) if f == "gif"));
    let plan = judge_upload(&png, Some("PNG"), Some("../../avatar!")).ok().unwrap();
    assert_eq!(plan.extension, "png");
    assert_eq!(plan.kind, "avatar");
    let jpeg = [0xFFu8, 0xD8, 0xFF];
    assert_eq!(judge_upload(&jpeg, Some("jpeg"), None).ok().unwrap().extension, "jpg");
}

#[test]
fn upload_names_come_from_the_allowlist_only() {
    let png = [0x89u8, b'P', b'N', b'G'];
    let plan = check_upload(&png, "photo.Png", Some("thumb")).ok().unwrap();
    assert_eq!(plan.extension, "png");
    assert_eq!(plan.kind, "thumb");
    assert!(matches!(check_upload(&png, "noext", None), Err(UploadRefusal::BadFormat(f)) if f == "?"));
    assert_eq!(upload_kind(Some("")), "image");
    assert_eq!(upload_kind(None), "image");
    assert_eq!(upload_kind(Some("abcdefghijklmnopqrstuvwxyz0123")), "abcdefghijklmnopqrstuvwx");
    let name = upload_file_name("avatar", 1700000000, "png");
    assert_eq!(name, "avatar-1700000000.png");
    assert_eq!(upload_config_path(&name), "assets/avatar-1700000000.png");
}

#[test]
fn upload_refusals_become_messages() {
    let m = UploadRefusal::TooBig { bytes: 9_000_000 }.message("8.6");
    assert_eq!(m.key, "msg.upload.tooBig");
    assert_eq!(m.args.get("size").map(|s| s.as_str()), Some("8.6"));
    assert_eq!(UploadRefusal::Empty.message("").key, "msg.upload.empty");
    assert_eq!(UploadRefusal::NotAnImage("svg").message("").key, "msg.upload.notAnImage");
}

#[test]
fn preview_serves_project_files_only() {
    assert!(preview_allowed("assets/a.png"));
    assert!(!preview_allowed("../secret.txt"));
    assert!(!preview_allowed("assets/../../x"));
    assert_eq!(mime_for(Some("png")), "image/png");
    assert_eq!(mime_for(Some("jpeg")), "image/jpeg");
    assert_eq!(mime_for(Some("ico")), "image/x-icon");
    assert_eq!(mime_for(Some("PNG")), "application/octet-stream");
    assert_eq!(mime_for(None), "application/octet-stream");
}

#[test]
fn preview_picks_a_language_the_card_has() {
    let langs = vec!["ko".to_string(), "en".to_string()];
    assert_eq!(preview_language(Some("en"), &langs, "ko"), "en");
    assert_eq!(preview_language(Some("fr"), &langs, "ko"), "ko");
    assert_eq!(preview_language(None, &langs, "ko"), "ko");
    let names = vec!["한국어".to_string(), "English".to_string()];
    let entries = preview_entries(&langs, &names);
    assert_eq!(entries[1], ("en".to_string(), "English".to_string(), "?lang=en".to_string()));
}

/// Switching cards keeps the same server address.
#[test]
fn switching_projects_keeps_the_address() {
    let mut editor = Editor::new("http://127.0.0.1:4180/", "first/profile.toml");
    assert_eq!(editor.config_path(), "first/profile.toml");
    editor.open("second/profile.toml");
    assert_eq!(editor.url(), "http://127.0.0.1:4180/");
    assert_eq!(editor.config_path(), "second/profile.toml");
    assert_eq!(editor.root(), "second");
    editor.open("profile.toml");
    assert_eq!(editor.root(), ".");
}

#[test]
fn diagnostics_travel_as_keys() {
    let d = vec![
        Diagnostic::error("site.title".to_string(), Message::new("msg.site.titleEmpty")),
        Diagnostic::warning("x".to_string(), Message::new("msg.color.invalid").with("value", "#zz")),
    ];
    let j = to_json_diagnostics(&d);
    assert_eq!(j[0].severity, "error");
    assert_eq!(j[0].key, "msg.site.titleEmpty");
    assert_eq!(j[1].severity, "warning");
    assert_eq!(j[1].args.get("value").map(|s| s.as_str()), Some("#zz"));
}

#[test]
fn repository_choice_prefers_an_existing_one() {
    assert!(matches!(choose_repo(Some("u"), Some("n")), Ok(RepoChoice::Existing(u)) if u == "u"));
    assert!(matches!(choose_repo(None, Some("  card ")), Ok(RepoChoice::Create(n)) if n == "card"));
    assert!(matches!(choose_repo(None, None), Err(m) if m.key == "msg.api.pickRepo"));
}

#[test]
fn editor_meta_lists_every_choice() {
    let files = vec![
        LocaleFile { path: "locales/ko.json".into(), source: None },
        LocaleFile { path: "locales/en.json".into(), source: Some(r#"{"editor.title": "Card editor"}"#.into()) },
        LocaleFile { path: "locales/ja.json".into(), source: Some("{broken".into()) },
    ];
    let meta = editor_meta(&files);
    assert_eq!(meta.fonts.len(), 10);
    assert_eq!(meta.fonts[2].value, "noto_sans_kr");
    assert_eq!(meta.fonts[2].label_key, "font.notoSansKr");
    assert_eq!(meta.fonts[2].weights, vec![400, 500, 700, 800]);
    assert_eq!(meta.languages[2], ("ja".to_string(), "ja".to_string()));
    assert_eq!(meta.languages[0].1, "한국어");
    let en = meta.ui_strings[1].as_ref().unwrap();
    assert_eq!(en.get("editor.title").map(|s| s.as_str()), Some("Card editor"));
    assert_eq!(en.get("font.pretendard").map(|s| s.as_str()), Some("Pretendard"));
    assert!(en.get("action.share").is_none());
    assert!(meta.ui_strings[2].is_none());
    assert_eq!(meta.platforms.len(), 14);
    assert_eq!(meta.card_styles, vec!["fill", "outline", "glass"]);
}

#[test]
fn window_title_and_display_language() {
    assert_eq!(title_with(Some("card")), "ProfileIT — card");
    assert_eq!(title_with(None), "ProfileIT");
    assert_eq!(profileit::editor::title_for("/home/me/card/profile.toml"), "ProfileIT — card");
    assert_eq!(display_language(Some("en"), Some("ja")), "en");
    assert_eq!(display_language(None, Some("ja")), "ja");
    assert_eq!(display_language(None, None), "ko");
}

#[allow(dead_code)]
fn minimal_config() -> Config {
    Config {
        schema_version: 1,
        site: Site {
            title: Text::plain("t"),
            description: None,
            base_url: None,
            lang: "ko".to_string(),
            languages: vec![],
            og_image: None,
            favicon: None,
        },
        profile: Profile { name: Text::plain("n"), tagline: None, bio: None, avatar: None, location: None },
        socials: vec![],
        sections: vec![],
        theme: Theme::default(),
        features: Features::default(),
        footer: Footer::default(),
        deploy: Deploy::default(),
    }
}

/// Plain `/`-separated paths split the same way on every platform.
#[test]
fn plain_paths_name_their_parts() {
    assert_eq!(profileit::editor::title_for("a/b/profile.toml"), "ProfileIT — b");
    assert_eq!(profileit::editor::title_for("profile.toml"), "ProfileIT");
    assert_eq!(profileit::editor::preview_mime("assets/photo.png"), "image/png");
    assert_eq!(profileit::editor::preview_mime("assets/readme"), "application/octet-stream");
    let png = [0x89u8, b'P', b'N', b'G'];
    // The extension comes from the name, not from the content.
    assert!(matches!(check_upload(&png, "photo.gif", None), Err(UploadRefusal::NotAnImage(f)) if f == "gif"));
    let editor = Editor::new("http://127.0.0.1:4180/", "cards/mine/profile.toml");
    assert_eq!(editor.root(), "cards/mine");
}

/// Absolute paths (the desktop app's, a temporary folder's) name their folder too.
#[test]
fn absolute_paths_name_their_folder() {
    assert_eq!(profileit::editor::title_for("/home/me/card/profile.toml"), "ProfileIT — card");
    assert_eq!(profileit::editor::title_for("/profile.toml"), "ProfileIT");
    let mut editor = Editor::new("http://127.0.0.1:4180/", "/tmp/first/profile.toml");
    assert_eq!(editor.root(), "/tmp/first");
    editor.open("/tmp/second/profile.toml");
    assert_eq!(editor.root(), "/tmp/second");
    assert_eq!(editor.url(), "http://127.0.0.1:4180/");
}
