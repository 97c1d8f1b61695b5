use profileit::config::{Config, Deploy, Features, Footer, Profile, Section, SectionBody, Site, Theme};
use profileit::i18n::Text;
use profileit::strmap::StrMap;
use profileit::validate::{validate, Project, Severity};

fn translated(pairs: &[(&str, &str)]) -> Text {
    Text::Translated(StrMap::from_pairs(pairs.iter().map(|(k, v)| (k.to_string(), v.to_string())).collect()))
}

fn card(lang: &str, languages: &[&str]) -> Config {
    Config {
        schema_version: 1,
        site: Site {
            title: translated(&[("ko", "명함")]),
            description: None,
            base_url: None,
            lang: lang.to_string(),
            languages: languages.iter().map(|l| l.to_string()).collect(),
            og_image: None,
            favicon: None,
        },
        profile: Profile { name: translated(&[("ko", "박")]), tagline: None, bio: None, avatar: None, location: None },
        socials: vec![],
        sections: vec![Section {
            title: Some(translated(&[("ko", "소개")])),
            icon: None,
            enabled: true,
            body: SectionBody::About { body: translated(&[("ko", "안녕하세요")]) },
        }],
        theme: Theme::default(),
        features: Features::default(),
        footer: Footer::default(),
        deploy: Deploy::default(),
    }
}

/// The default language comes first even when the list forgets it or puts it later.
#[test]
fn default_language_leads_and_each_language_appears_once() {
    assert_eq!(card("ko", &["en", "ko", "ja", "en"]).languages(), vec!["ko", "en", "ja"]);
    assert_eq!(card("ja", &[]).languages(), vec!["ja"]);
}

/// Several untranslated texts in `en` make one warning for `en`, none for `ko`.
#[test]
fn missing_translations_make_one_warning_per_language() {
    let config = card("ko", &["en", "ja"]);
    let project = Project { existing_assets: vec![], loadable_languages: vec!["ko".into(), "en".into(), "ja".into()] };
    let warnings: Vec<_> = validate(&config, &project)
        .into_iter()
        .filter(|d| d.message.key == "msg.lang.missingTranslations")
        .collect();
    assert_eq!(warnings.len(), 2);
    assert_eq!(warnings[0].path, "site.languages (en)");
    assert_eq!(warnings[1].path, "site.languages (ja)");
    assert!(warnings.iter().all(|d| d.severity == Severity::Warning));
    assert_eq!(warnings[0].message.args.get("count").map(|s| s.as_str()), Some("4"));
}

/// More than four missing paths: the first four, and how many more as an argument of its own.
#[test]
fn long_rollups_name_four_paths_and_count_the_rest() {
    let mut config = card("ko", &["en"]);
    config.profile.tagline = Some(translated(&[("ko", "한 줄")]));
    config.profile.bio = Some(translated(&[("ko", "소개")]));
    let project = Project { existing_assets: vec![], loadable_languages: vec!["ko".into(), "en".into()] };
    let warnings: Vec<_> = validate(&config, &project)
        .into_iter()
        .filter(|d| d.message.key.starts_with("msg.lang.missingTranslations"))
        .collect();
    assert_eq!(warnings.len(), 1);
    let m = &warnings[0].message;
    assert_eq!(m.key, "msg.lang.missingTranslationsMore");
    assert_eq!(m.args.get("count").map(|s| s.as_str()), Some("6"));
    assert_eq!(m.args.get("more").map(|s| s.as_str()), Some("2"));
    let sample = m.args.get("sample").unwrap();
    assert_eq!(sample.split(", ").count(), 4);
    assert!(!sample.contains('외'));
}
