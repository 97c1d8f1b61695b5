use profileit::config::{
    AssetPath, ChecklistItem, Config, ContactItem, ContactKind, Deploy, Features, Footer, Platform,
    Profile, Section, SectionBody, Site, Social, Theme,
};
use profileit::i18n::{Strings, Text};
use profileit::markup::escape_html;
use profileit::render::{
    absolute_url, first_grapheme, page, paragraphs, phone_href, push_section, push_social,
    strip_scheme, with_line_breaks, Ctx,
};

fn minimal_config() -> Config {
    Config {
        schema_version: 1,
        site: Site {
            title: Text::plain("t"),
            description: None,
            base_url: None,
            lang: "ko".to_string(),
            languages: vec![],
            og_image: None,
            favicon: None,
        },
        profile: Profile { name: Text::plain("n"), tagline: None, bio: None, avatar: None, location: None },
        socials: vec![],
        sections: vec![],
        theme: Theme::default(),
        features: Features::default(),
        footer: Footer::default(),
        deploy: Deploy::default(),
    }
}

/// One social row's markup: building a whole page for it would be tedious.
fn social_html(icon: Option<&str>, prefix: &str) -> String {
    let strings = Strings::load("ko", "./locales/ko.json", None).unwrap_or_default();
    let config = minimal_config();
    let ctx = Ctx {
        config: &config,
        lang: "ko",
        fallback: "ko",
        strings: &strings,
        languages: &[],
        prefix,
    };
    let item = Social {
        platform: Platform::Github,
        url: "https://github.com/example".to_string(),
        label: None,
        icon: icon.map(|p| AssetPath(p.to_string())),
    };
    let mut out = String::new();
    push_social(&ctx, &mut out, &item);
    out
}

/// A supplied icon wins even for a platform with a built-in glyph.
#[test]
fn supplied_icon_beats_the_builtin_glyph() {
    let html = social_html(Some("assets/github.svg"), "");
    assert!(html.contains("assets/github.svg"), "{html}");
    assert!(!html.contains("<path"), "내장 글리프가 같이 나왔습니다: {html}");
}

#[test]
fn no_icon_falls_back_to_the_builtin_glyph() {
    let html = social_html(None, "");
    assert!(!html.contains("<image"), "{html}");
    assert!(html.contains("currentColor"), "{html}");
}

/// A language version in a subdirectory must still point at the same file.
#[test]
fn supplied_icon_follows_the_language_prefix() {
    let html = social_html(Some("assets/github.svg"), "../");
    assert!(html.contains("../assets/github.svg"), "{html}");
}

#[test]
fn line_breaks_become_br() {
    let html = with_line_breaks("첫 줄\n둘째 줄");
    assert_eq!(html, "첫 줄<br>둘째 줄");
}

#[test]
fn blank_line_splits_paragraphs() {
    assert_eq!(paragraphs("가\n\n나\n\n\n다"), vec!["가", "나", "다"]);
}

/// Config file content must never be interpreted as a tag.
#[test]
fn user_text_is_escaped() {
    let html = with_line_breaks("<script>alert(1)</script>");
    assert!(!html.contains("<script>"));
    assert!(html.contains("&lt;script&gt;"));
}

#[test]
fn phone_href_keeps_digits_only() {
    assert_eq!(phone_href("+82 10-1234-5678"), "+821012345678");
}

#[test]
fn scheme_is_stripped_for_display() {
    assert_eq!(strip_scheme("https://example.com/"), "example.com");
}

#[test]
fn og_image_becomes_absolute() {
    assert_eq!(
        absolute_url(Some("https://example.com/"), "assets/og.png"),
        "https://example.com/assets/og.png"
    );
    assert_eq!(absolute_url(None, "assets/og.png"), "assets/og.png");
}

#[test]
fn avatar_placeholder_uses_first_character() {
    assert_eq!(first_grapheme("김도윤"), "김");
    assert_eq!(first_grapheme(""), "");
}

#[test]
fn crlf_lines_and_quotes_are_handled() {
    assert_eq!(with_line_breaks("  a\r\nb \"c\" & d  "), "a<br>b &quot;c&quot; &amp; d");
    assert_eq!(with_line_breaks("   "), "");
    assert_eq!(strip_scheme("http://https://x.org//"), "https://x.org");
}

fn render_section(section: &Section) -> String {
    let strings = Strings::load("ko", "./locales/ko.json", None).unwrap();
    let config = minimal_config();
    let ctx = Ctx { config: &config, lang: "ko", fallback: "ko", strings: &strings, languages: &[], prefix: "" };
    let mut out = String::new();
    push_section(&ctx, &mut out, section);
    out
}

#[test]
fn checklist_shows_progress_in_words_and_as_a_bar() {
    let section = Section {
        title: Some(Text::plain("버킷리스트")),
        icon: Some("🎯".to_string()),
        enabled: true,
        body: SectionBody::Checklist {
            items: vec![
                ChecklistItem { text: Text::plain("A"), done: true, date: None, note: None },
                ChecklistItem { text: Text::plain("B"), done: false, date: None, note: None },
                ChecklistItem { text: Text::plain("C"), done: false, date: None, note: None },
            ],
            show_progress: true,
        },
    };
    let html = render_section(&section);
    assert!(html.contains("3개 중 1개 달성"), "{html}");
    assert!(html.contains("--pf-progress-value: 33%"), "{html}");
    assert!(html.contains("pf-checklist__item--done"), "{html}");
    assert!(html.starts_with("<section class=\"pf-section\"><h2 class=\"pf-section__title\"><span class=\"pf-section__icon\" aria-hidden=\"true\">🎯</span>버킷리스트</h2>"), "{html}");
}

#[test]
fn contact_rows_link_by_kind() {
    let section = Section {
        title: None,
        icon: None,
        enabled: true,
        body: SectionBody::Contact {
            items: vec![
                ContactItem { kind: ContactKind::Email, value: Text::plain("me@example.com"), label: None },
                ContactItem { kind: ContactKind::Phone, value: Text::plain("010-1234-5678"), label: None },
                ContactItem { kind: ContactKind::Website, value: Text::plain("https://ex.com/"), label: None },
            ],
        },
    };
    let html = render_section(&section);
    assert!(html.contains("href=\"mailto:me@example.com\""), "{html}");
    assert!(html.contains("href=\"tel:01012345678\""), "{html}");
    assert!(html.contains(">ex.com</a>"), "{html}");
    assert!(html.contains("<span class=\"pf-contact__label\">이메일</span>"), "{html}");
}

#[test]
fn whole_page_is_a_document_in_the_page_language() {
    let strings = Strings::load("en", "x", None).unwrap();
    let mut config = minimal_config();
    config.site.base_url = Some("https://example.com/card/".into());
    config.site.og_image = Some(AssetPath("assets/og.png".into()));
    config.profile.name = Text::plain("<Kim>");
    let entries = vec![
        ("ko".to_string(), "한국어".to_string(), String::new()),
        ("en".to_string(), "English".to_string(), "en/".to_string()),
    ];
    let ctx = Ctx { config: &config, lang: "en", fallback: "ko", strings: &strings, languages: &entries, prefix: "../" };
    let html = page(&ctx);
    assert!(html.starts_with("<!DOCTYPE html><html lang=\"en\" class=\"no-js\"><head><meta charset=\"utf-8\">"), "{html}");
    assert!(html.ends_with("</body></html>\n"), "{html}");
    assert!(html.contains("<meta property=\"og:image\" content=\"https://example.com/card/assets/og.png\">"), "{html}");
    assert!(html.contains("<link rel=\"alternate\" hreflang=\"en\" href=\"https://example.com/card/en/\">"), "{html}");
    assert!(html.contains("&lt;Kim&gt;"), "{html}");
    assert!(html.contains("<a class=\"pf-language\" href=\"../\" hreflang=\"ko\">한국어</a>"), "{html}");
    assert!(html.contains("<span class=\"pf-language pf-language--current\" aria-current=\"true\">English</span>"), "{html}");
    assert!(html.contains("<script src=\"../card.js\" defer></script>"), "{html}");
    assert!(html.contains("\"toast.copied\":\"Link copied.\""), "{html}");
    assert!(html.contains("<script type=\"application/json\" id=\"pf-vcard-data\">{\"email\":null,\"location\":null,\"name\":\"<Kim>\",\"phone\":null,\"tagline\":null,\"url\":\"https://example.com/card/\"}</script>"), "{html}");
}

/// The four characters that could open a tag or end an attribute are escaped; the rest stays.
#[test]
fn escape_html_escapes_markup_characters() {
    assert_eq!(escape_html("<a href=\"x\">Tom & Jerry</a>"), "&lt;a href=&quot;x&quot;&gt;Tom &amp; Jerry&lt;/a&gt;");
    assert_eq!(escape_html("안녕 it's plain"), "안녕 it's plain");
}
