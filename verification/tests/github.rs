use profileit::deploy::Token;
use profileit::github::{
    add_page, already_enabled, api_error, next_page, repos_path, status_message, to_pages, to_repo,
    token_page_url, Error, ListedRepo, RepoPayload, RepoSummary,
};

/// A token must never tag along into logs or error messages.
#[test]
fn token_never_prints_itself() {
    let token = Token::new("ghp_superSecretValue123");

    assert_eq!(token.debug_text(), "Token(***)");
    assert_eq!(token.clone().expose(), "ghp_superSecretValue123");
    assert!(!token.debug_text().contains("superSecret"));

    // Held inside another value, it still shows only its stand-in.
    let held = vec![token.clone()];
    let shown: Vec<String> = held.iter().map(|t| t.debug_text()).collect();
    assert!(!format!("{shown:?}").contains("superSecret"));
}

#[test]
fn token_page_url_asks_for_the_right_scope() {
    let url = token_page_url();
    assert!(url.starts_with("https://github.com/settings/tokens/new"));
    assert!(url.contains("scopes=repo"));
}

fn payload(pairs: &[(&str, &str)], owner: Option<&str>, private: Option<bool>) -> RepoPayload {
    let get = |k: &str| pairs.iter().find(|(key, _)| *key == k).map(|(_, v)| v.to_string());
    RepoPayload {
        full_name: get("full_name"),
        name: get("name"),
        owner_login: owner.map(|o| o.to_string()),
        private,
        default_branch: get("default_branch"),
        clone_url: get("clone_url"),
    }
}

#[test]
fn parses_a_repository_payload() {
    let value = payload(
        &[
            ("full_name", "aiden/card"),
            ("name", "card"),
            ("default_branch", "main"),
            ("clone_url", "https://github.com/aiden/card.git"),
        ],
        Some("aiden"),
        Some(false),
    );

    let repo = to_repo(&value).expect("저장소");
    assert_eq!(repo.owner, "aiden");
    assert_eq!(repo.name, "card");
    assert_eq!(repo.clone_url, "https://github.com/aiden/card.git");
}

/// A reply missing required fields must not become the wrong repository.
#[test]
fn incomplete_repository_payload_is_rejected() {
    let value = payload(&[("name", "card")], None, None);
    assert!(to_repo(&value).is_none());
}

#[test]
fn reads_pages_source_branch() {
    let pages = to_pages(
        &Some("https://aiden.github.io/card/".to_string()),
        &Some("gh-pages".to_string()),
        &None,
    );
    assert_eq!(pages.url.as_deref(), Some("https://aiden.github.io/card/"));
    assert_eq!(pages.branch.as_deref(), Some("gh-pages"));
}

#[test]
fn missing_branch_means_main_and_empty_fields_count_as_missing() {
    let value = payload(
        &[("full_name", "a/b"), ("name", "b"), ("default_branch", ""), ("clone_url", "u")],
        Some("a"),
        None,
    );
    let repo = to_repo(&value).unwrap();
    assert_eq!(repo.default_branch, "main");
    assert!(!repo.private);
    let value = payload(&[("full_name", "a/b"), ("name", ""), ("clone_url", "u")], Some("a"), None);
    assert!(to_repo(&value).is_none());
    let pages = to_pages(&Some(String::new()), &None, &Some("main".into()));
    assert!(pages.url.is_none());
    assert_eq!(pages.branch.as_deref(), Some("main"));
}

#[test]
fn status_codes_become_messages() {
    assert_eq!(status_message(401, "").key, "msg.gh.badToken");
    assert_eq!(status_message(403, "API rate limit exceeded").key, "msg.gh.rateLimit");
    let forbidden = status_message(403, "nope");
    assert_eq!(forbidden.key, "msg.gh.forbidden");
    assert_eq!(forbidden.args.get("scopes").map(|s| s.as_str()), Some("repo"));
    assert_eq!(status_message(404, "x").key, "msg.gh.notFound");
    let detail = status_message(422, "name already exists");
    assert_eq!(detail.key, "msg.gh.detail");
    assert_eq!(detail.args.get("detail").map(|s| s.as_str()), Some("name already exists"));
    let bare = status_message(500, "");
    assert_eq!(bare.key, "msg.gh.status");
    assert_eq!(bare.args.get("status").map(|s| s.as_str()), Some("500"));
}

#[test]
fn conflict_means_pages_is_already_on() {
    assert!(already_enabled(&api_error(409, "")));
    assert!(!already_enabled(&api_error(404, "")));
    assert!(!already_enabled(&Error::Network("down".into())));
    assert_eq!(Error::Keyring("locked".into()).message().key, "msg.gh.keyring");
}

fn summary(name: &str) -> RepoSummary {
    RepoSummary {
        full_name: format!("a/{name}"),
        name: name.to_string(),
        owner: "a".to_string(),
        private: false,
        default_branch: "main".to_string(),
        clone_url: format!("https://github.com/a/{name}.git"),
    }
}

#[test]
fn only_pushable_repositories_are_listed() {
    let mut repos = Vec::new();
    add_page(
        &mut repos,
        vec![
            ListedRepo { can_push: true, repo: Some(summary("one")) },
            ListedRepo { can_push: false, repo: Some(summary("two")) },
            ListedRepo { can_push: true, repo: None },
            ListedRepo { can_push: true, repo: Some(summary("three")) },
        ],
    );
    let names: Vec<&str> = repos.iter().map(|r| r.name.as_str()).collect();
    assert_eq!(names, vec!["one", "three"]);
}

#[test]
fn listing_stops_at_a_short_page_or_the_third() {
    assert_eq!(next_page(1, 100), Some(2));
    assert_eq!(next_page(2, 100), Some(3));
    assert_eq!(next_page(3, 100), None);
    assert_eq!(next_page(1, 99), None);
    assert_eq!(next_page(1, 0), None);
    assert_eq!(
        repos_path(2),
        "/user/repos?per_page=100&page=2&sort=updated&affiliation=owner,collaborator"
    );
}
