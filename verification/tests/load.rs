use profileit::config::{
    AssetPath, Config, Deploy, Features, Footer, LinkItem, Profile, Section, SectionBody, Site, Social,
    Platform, Theme,
};
use profileit::i18n::Text;
use profileit::validate::{has_errors, lint_document, validate, Project, Severity, TomlTop};
use profileit::{load_parsed, project_root, root_of_parent, LoadError};

fn minimal_config() -> Config {
    Config {
        schema_version: 1,
        site: Site {
            title: Text::plain("t"),
            description: None,
            base_url: Some("https://example.com".into()),
            lang: "ko".to_string(),
            languages: vec![],
            og_image: None,
            favicon: None,
        },
        profile: Profile { name: Text::plain("n"), tagline: None, bio: None, avatar: None, location: None },
        socials: vec![],
        sections: vec![Section {
            title: Some(Text::plain("소개")),
            icon: None,
            enabled: true,
            body: SectionBody::About { body: Text::plain("안녕하세요") },
        }],
        theme: Theme::default(),
        features: Features::default(),
        footer: Footer::default(),
        deploy: Deploy::default(),
    }
}

fn project() -> Project {
    Project { existing_assets: vec![], loadable_languages: vec!["ko".into(), "en".into(), "ja".into()] }
}

/// `Path::parent` gives an empty path for a bare file name; git needs a real folder.
#[test]
fn bare_file_name_lives_in_the_current_folder() {
    assert_eq!(project_root("profile.toml"), ".");
    assert_eq!(project_root(""), ".");
    assert_eq!(project_root("cards/mine/profile.toml"), "cards/mine");
    assert_eq!(root_of_parent(Some("")), ".");
    assert_eq!(root_of_parent(None), ".");
    assert_eq!(root_of_parent(Some("a")), "a");
}

#[test]
fn a_clean_config_loads_with_its_warnings() {
    let (config, diagnostics) = load_parsed(minimal_config(), "", &project()).ok().unwrap();
    assert_eq!(config.site.lang, "ko");
    assert!(!has_errors(&diagnostics));
}

/// A config that fails validation is never built.
#[test]
fn an_error_stops_the_load() {
    let mut config = minimal_config();
    config.profile.name = Text::plain("   ");
    config.site.og_image = Some(AssetPath("assets/missing.png".into()));
    match load_parsed(config, "", &project()) {
        Err(LoadError::Invalid(diagnostics)) => {
            let errors = diagnostics.iter().filter(|d| d.severity == Severity::Error).count();
            assert_eq!(errors, 2);
            let message = LoadError::Invalid(diagnostics).message();
            assert_eq!(message.key, "msg.load.invalid");
            assert_eq!(message.args.get("count").map(|s| s.as_str()), Some("2"));
        }
        _ => panic!("expected the load to stop"),
    }
}

#[test]
fn unknown_section_keys_are_linted_from_the_source() {
    let source = "[[sections]]\ntype = \"about\"\nbody = \"x\"\nitems = []\n";
    let (_, diagnostics) = load_parsed(minimal_config(), source, &project()).ok().unwrap();
    assert!(diagnostics.iter().any(|d| d.message.key == "msg.section.unknownKey" && d.path == "sections[0].items"));
}

#[test]
fn read_and_parse_errors_name_the_file() {
    let m = LoadError::Read { path: "p.toml".into(), message: "gone".into() }.message();
    assert_eq!(m.key, "msg.load.read");
    assert_eq!(m.args.get("path").map(|s| s.as_str()), Some("p.toml"));
    assert_eq!(m.args.get("detail").map(|s| s.as_str()), Some("gone"));
    let m = LoadError::Parse { path: "p.toml".into(), message: "line 1".into() }.message();
    assert_eq!(m.key, "msg.load.parse");
}

#[test]
fn custom_social_needs_an_icon_and_thumbnails_are_checked() {
    let mut config = minimal_config();
    config.socials.push(Social { platform: Platform::Custom, url: "https://x.y".into(), label: None, icon: None });
    config.sections.push(Section {
        title: None,
        icon: None,
        enabled: true,
        body: SectionBody::Links {
            items: vec![LinkItem {
                title: Text::plain("a"),
                url: "https://a.b".into(),
                subtitle: None,
                thumbnail: Some(AssetPath("assets/t.png".into())),
                enabled: true,
                highlight: false,
                badge: None,
            }],
        },
    });
    let diagnostics = validate(&config, &project());
    assert!(diagnostics.iter().any(|d| d.message.key == "msg.social.customNeedsIcon"));
    assert!(diagnostics.iter().any(|d| d.message.key == "msg.asset.missing"));
}

/// A `javascript:` social link never reaches a page: loading stops.
#[test]
fn dangerous_social_link_stops_the_load() {
    let mut config = minimal_config();
    config.socials = vec![Social {
        platform: Platform::Github,
        url: "javascript:alert(1)".into(),
        label: None,
        icon: None,
    }];
    match load_parsed(config, "", &project()) {
        Err(LoadError::Invalid(diagnostics)) => {
            assert!(diagnostics
                .iter()
                .any(|d| d.severity == Severity::Error && d.path == "socials[0].url" && d.message.key == "msg.url.notAllowed"));
        }
        _ => panic!("expected the load to stop"),
    }
}

/// An absolute config path's folder is everything before its last `/`.
#[test]
fn absolute_config_paths_keep_their_folder() {
    assert_eq!(project_root("/home/me/card/profile.toml"), "/home/me/card");
    assert_eq!(project_root("/profile.toml"), "/");
}

/// The lint works on a parsed document as well as on source text.
#[test]
fn lint_reads_a_parsed_document() {
    let row = |cells: &[(&str, Option<&str>)]| {
        Some(cells.iter().map(|(k, v)| (k.to_string(), v.map(|s| s.to_string()))).collect::<Vec<_>>())
    };
    let doc = Some(vec![
        ("title".to_string(), TomlTop::Other),
        (
            "sections".to_string(),
            TomlTop::Array(vec![
                row(&[("type", Some("about")), ("body", Some("x")), ("items", None)]),
                None,
                row(&[("title", Some("no type"))]),
                row(&[("type", Some("tags")), ("items", None), ("colour", Some("red"))]),
            ]),
        ),
    ]);
    let d = lint_document(&doc);
    assert_eq!(d.len(), 2);
    assert_eq!(d[0].path, "sections[0].items");
    assert_eq!(d[1].path, "sections[3].colour");
    assert_eq!(d[1].message.args.get("type").map(|s| s.as_str()), Some("tags"));
    assert!(lint_document(&None).is_empty());
}
