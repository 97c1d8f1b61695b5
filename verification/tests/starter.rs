use profileit::config::{
    Background, Config, ContactItem, ContactKind, Decoration, DecorationPreset, Deploy, Features, Font, FontPreset,
    Footer, Profile, Section, SectionBody, Site, Tag, TextColors, Theme, TimelineItem,
};
use profileit::i18n::Text;
use profileit::validate::{has_errors, validate, Project, Severity};

/// The starter file's content (`init::STARTER`), written out as values.
fn starter() -> Config {
    let section = |title: &str, icon: &str, body: SectionBody| Section {
        title: Some(Text::plain(title)),
        icon: Some(icon.to_string()),
        enabled: true,
        body,
    };
    Config {
        schema_version: 1,
        site: Site {
            title: Text::plain("내 온라인 명함"),
            description: None,
            base_url: None,
            lang: "ko".to_string(),
            languages: vec![],
            og_image: None,
            favicon: None,
        },
        profile: Profile {
            name: Text::plain("이름"),
            tagline: Some(Text::plain("한 줄 소개")),
            bio: None,
            avatar: None,
            location: None,
        },
        socials: vec![],
        sections: vec![
            section("소개", "👋", SectionBody::About {
                body: Text::plain("여기에 자기소개를 적습니다.\n\n빈 줄로 문단을 나눕니다.\n"),
            }),
            section("경력", "💼", SectionBody::Timeline {
                items: vec![TimelineItem {
                    title: Text::plain("회사 이름"),
                    period: Some(Text::plain("2024 – 현재")),
                    subtitle: Some(Text::plain("맡은 일")),
                    description: None,
                    url: None,
                    enabled: true,
                }],
            }),
            section("관심사", "🧩", SectionBody::Tags {
                items: vec![
                    Tag::Simple(Text::plain("관심사")),
                    Tag::WithIcon { icon: "🍳".to_string(), text: Text::plain("이모지도 됩니다") },
                ],
            }),
            section("연락처", "📮", SectionBody::Contact {
                items: vec![ContactItem {
                    kind: ContactKind::Email,
                    value: Text::plain("me@example.com"),
                    label: None,
                }],
            }),
        ],
        theme: Theme {
            accent: "#2f9fd0".to_string(),
            background: Background::Gradient { from: "#dff2fb".into(), to: "#bfe6f7".into(), angle: 165 },
            decoration: Some(Decoration::Preset { name: DecorationPreset::Confetti }),
            text: TextColors {
                heading: "#14425c".into(),
                body: "#3c5a6b".into(),
                card_title: "#1a6f96".into(),
                muted: "#7b96a5".into(),
            },
            font: Font { preset: FontPreset::Pretendard, heading_weight: 800, ..Font::default() },
            ..Theme::default()
        },
        features: Features::default(),
        footer: Footer::default(),
        deploy: Deploy::default(),
    }
}

/// A freshly created card passes validation: no errors to stop a first-time user.
#[test]
fn starter_content_validates_without_errors() {
    let project = Project { existing_assets: vec![], loadable_languages: vec!["ko".to_string()] };
    let diagnostics = validate(&starter(), &project);
    let errors: Vec<_> = diagnostics.iter().filter(|d| d.severity == Severity::Error).map(|d| d.path.clone()).collect();
    assert!(errors.is_empty(), "{errors:?}");
    assert!(!has_errors(&diagnostics));
}
