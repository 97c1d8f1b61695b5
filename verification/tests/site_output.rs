use profileit::build::{collect_assets, language_entries, needs_script, render_pages};
use profileit::config::{
    AssetPath, Background, Config, Decoration, Deploy, Features, Footer, LinkItem, Profile, Section,
    SectionBody, Site, Theme,
};
use profileit::i18n::{Strings, Text};

fn config() -> Config {
    let link = |thumb: &str, enabled: bool| LinkItem {
        title: Text::plain("l"),
        url: "https://l.example".into(),
        subtitle: None,
        thumbnail: Some(AssetPath(thumb.into())),
        enabled,
        highlight: false,
        badge: None,
    };
    Config {
        schema_version: 1,
        site: Site {
            title: Text::plain("t"),
            description: None,
            base_url: None,
            lang: "ko".to_string(),
            languages: vec!["en".into(), "ko".into()],
            og_image: Some(AssetPath("assets/og.png".into())),
            favicon: None,
        },
        profile: Profile {
            name: Text::plain("n"),
            tagline: None,
            bio: None,
            avatar: Some(AssetPath("assets/og.png".into())),
            location: None,
        },
        socials: vec![],
        sections: vec![
            Section {
                title: None,
                icon: None,
                enabled: true,
                body: SectionBody::Links { items: vec![link("assets/a.png", true), link("assets/off.png", false)] },
            },
            Section {
                title: None,
                icon: None,
                enabled: false,
                body: SectionBody::Links { items: vec![link("assets/hidden.png", true)] },
            },
        ],
        theme: Theme {
            background: Background::Image {
                src: AssetPath("assets/bg.jpg".into()),
                fit: profileit::config::ImageFit::Cover,
                position: "center".into(),
                blur: "0px".into(),
                overlay: None,
            },
            decoration: Some(Decoration::Custom { top: Some(AssetPath("assets/a.png".into())), bottom: None }),
            ..Theme::default()
        },
        features: Features { share_menu: false, vcard_download: false },
        footer: Footer::default(),
        deploy: Deploy::default(),
    }
}

/// The same file used twice is copied once; hidden cards copy nothing.
#[test]
fn assets_are_collected_once_each() {
    assert_eq!(
        collect_assets(&config()),
        vec!["assets/og.png", "assets/a.png", "assets/bg.jpg"]
    );
}

#[test]
fn script_ships_only_when_a_button_needs_it() {
    assert!(!needs_script(&config()));
    let mut c = config();
    c.features.share_menu = true;
    assert!(needs_script(&c));
}

#[test]
fn default_language_sits_at_the_root() {
    let c = config();
    let names = vec!["한국어".to_string(), "English".to_string()];
    let entries = language_entries(&c, &names);
    assert_eq!(entries[0], ("ko".to_string(), "한국어".to_string(), String::new()));
    assert_eq!(entries[1], ("en".to_string(), "English".to_string(), "en/".to_string()));

    let strings = vec![
        Strings::load("ko", "x", None).unwrap(),
        Strings::load("en", "x", None).unwrap(),
    ];
    let pages = render_pages(&c, &strings, &entries);
    assert_eq!(pages.len(), 2);
    assert_eq!(pages[0].dir, "");
    assert_eq!(pages[1].dir, "en/");
    assert!(pages[0].html.contains("href=\"styles.css\""));
    assert!(pages[1].html.contains("href=\"../styles.css\""));
    assert!(pages[1].html.contains("<html lang=\"en\""));
    assert!(!pages[1].html.contains("card.js"));
}
