//! GitHub integration: the decisions around the REST API.
//!
//! The token lives in the OS credential store, never in the config file or
//! the app folder, so sharing or committing a project folder never takes it
//! along. Talking to the store and to the API is the caller's part; this
//! module says which requests to make, what a reply means, and what to tell
//! the user.

use vstd::prelude::*;

use crate::deploy::{is_user_site, opt_view, unicode_lowercase, Repo};
use crate::message::{msg, msg_args, Message, MessageView};
use crate::text::{concat, concat3, contains, dec, decimal, owned, str_contains};

verus! {

/// The permission a token needs. The link pre-fills it on GitHub's token page.
pub const SCOPES: &'static str = "repo";

/// The description a created repository gets. It stays on GitHub for anyone
/// to see, and the reader need not be an app user, so it is fixed in English
/// rather than following the app's language.
pub const REPO_DESCRIPTION: &'static str = "An online business card made with ProfileIT";

/// GitHub's token page, with the permission and a name pre-filled.
pub fn token_page_url() -> (r: String)
    ensures
        r@ == "https://github.com/settings/tokens/new?scopes="@ + SCOPES@
            + "&description=ProfileIT"@,
{
    concat3("https://github.com/settings/tokens/new?scopes=", SCOPES, "&description=ProfileIT")
}

// ─────────────────────────────────────────────────────────────────────────────
// What the API returns, as the app uses it
// ─────────────────────────────────────────────────────────────────────────────

pub struct Account {
    pub login: String,
    pub name: Option<String>,
    pub avatar_url: Option<String>,
}

#[derive(Clone, Debug)]
pub struct RepoSummary {
    pub full_name: String,
    pub name: String,
    pub owner: String,
    pub private: bool,
    pub default_branch: String,
    /// The https address git uses.
    pub clone_url: String,
}

pub struct PagesInfo {
    pub url: Option<String>,
    pub branch: Option<String>,
}

/// The fields of a repository payload the app reads, each as found: a
/// string field that is missing or not a string is `None`.
pub struct RepoPayload {
    pub full_name: Option<String>,
    pub name: Option<String>,
    pub owner_login: Option<String>,
    pub private: Option<bool>,
    pub default_branch: Option<String>,
    pub clone_url: Option<String>,
}

/// A string field counts only when it is non-empty.
pub open spec fn present(s: Option<Seq<char>>) -> Option<Seq<char>> {
    match s {
        Some(v) => if v.len() > 0 {
            Some(v)
        } else {
            None
        },
        None => None,
    }
}

pub fn nonempty(s: &Option<String>) -> (r: Option<String>)
    ensures
        opt_view(r) == present(opt_view(*s)),
{
    match s {
        Some(v) => if v.as_str().is_empty() {
            None
        } else {
            Some(owned(v.as_str()))
        },
        None => None,
    }
}

/// A repository payload becomes a summary only with its full name, name,
/// owner login and clone URL all present: building something from an
/// incomplete reply would point the remote at the wrong repository. A
/// missing default branch means `main`; a missing `private`, public.
pub fn to_repo(p: &RepoPayload) -> (r: Option<RepoSummary>)
    ensures
        match (
            present(opt_view(p.full_name)),
            present(opt_view(p.name)),
            present(opt_view(p.owner_login)),
            present(opt_view(p.clone_url)),
        ) {
            (Some(full), Some(name), Some(owner), Some(url)) => r matches Some(s) && s.full_name@
                == full && s.name@ == name && s.owner@ == owner && s.clone_url@ == url && s.private
                == (p.private == Some(true)) && s.default_branch@ == match present(
                opt_view(p.default_branch),
            ) {
                Some(b) => b,
                None => "main"@,
            },
            _ => r is None,
        },
{
    let full_name = nonempty(&p.full_name);
    let name = nonempty(&p.name);
    let owner = nonempty(&p.owner_login);
    let clone_url = nonempty(&p.clone_url);
    match (full_name, name, owner, clone_url) {
        (Some(full_name), Some(name), Some(owner), Some(clone_url)) => {
            let default_branch = match nonempty(&p.default_branch) {
                Some(b) => b,
                None => owned("main"),
            };
            let private = match p.private {
                Some(b) => b,
                None => false,
            };
            Some(RepoSummary { full_name, name, owner, private, default_branch, clone_url })
        },
        _ => None,
    }
}

/// Pages status: its address, and the branch it serves (under `source`, or
/// at the top level in older replies).
pub fn to_pages(html_url: &Option<String>, source_branch: &Option<String>, branch: &Option<String>) -> (r: PagesInfo)
    ensures
        opt_view(r.url) == present(opt_view(*html_url)),
        opt_view(r.branch) == match present(opt_view(*source_branch)) {
            Some(b) => Some(b),
            None => present(opt_view(*branch)),
        },
{
    let url = nonempty(html_url);
    let from_source = nonempty(source_branch);
    let branch = match from_source {
        Some(b) => Some(b),
        None => nonempty(branch),
    };
    PagesInfo { url, branch }
}

// ─────────────────────────────────────────────────────────────────────────────
// Listing repositories
// ─────────────────────────────────────────────────────────────────────────────

/// Repositories are listed 100 to a page, at most 3 pages; past that, typing
/// the name beats picking it from a list.
pub const PAGE_SIZE: usize = 100;
pub const MAX_PAGES: u32 = 3;

/// The API path of one page of the repositories the account can reach,
/// most recently updated first.
pub fn repos_path(page: u32) -> (r: String)
    ensures
        r@ == "/user/repos?per_page=100&page="@ + dec(page as nat)
            + "&sort=updated&affiliation=owner,collaborator"@,
{
    let n = decimal(page as u64);
    concat3(
        "/user/repos?per_page=100&page=",
        n.as_str(),
        "&sort=updated&affiliation=owner,collaborator",
    )
}

/// One entry of a listed page: whether the account may push to it, and the
/// summary its payload makes (if it makes one).
pub struct ListedRepo {
    pub can_push: bool,
    pub repo: Option<RepoSummary>,
}

/// What a page adds to the list: the repositories the account can push to —
/// one it can't would only fail after being picked.
pub open spec fn pushable(items: Seq<ListedRepo>) -> Seq<RepoSummary>
    decreases items.len(),
{
    if items.len() == 0 {
        Seq::empty()
    } else {
        let rest = pushable(items.drop_last());
        match items.last().repo {
            Some(r) => if items.last().can_push {
                rest.push(r)
            } else {
                rest
            },
            None => rest,
        }
    }
}

pub fn add_page(repos: &mut Vec<RepoSummary>, items: Vec<ListedRepo>)
    ensures
        final(repos)@ == old(repos)@ + pushable(items@),
{
    let n = items.len();
    let ghost all = items@;
    let mut rest = items;
    let mut acc: Vec<RepoSummary> = Vec::new();
    let mut k: usize = 0;
    while k < n
        invariant
            n == all.len(),
            k <= n,
            rest@ == all.skip(k as int),
            acc@ == pushable(all.take(k as int)),
        decreases n - k,
    {
        let item = rest.remove(0);
        proof {
            assert(all.take(k + 1).drop_last() =~= all.take(k as int));
            assert(all.take(k + 1).last() == item);
        }
        if item.can_push {
            match item.repo {
                Some(r) => acc.push(r),
                None => {},
            }
        }
        assert(rest@ =~= all.skip(k + 1));
        k = k + 1;
    }
    assert(all.take(n as int) =~= all);
    repos.append(&mut acc);
}

/// Whether to ask for the page after `page`, which held `count` items: a
/// short or empty page is the last one, and so is the third.
pub fn next_page(page: u32, count: usize) -> (r: Option<u32>)
    ensures
        r == if count == 0 || count < PAGE_SIZE || page >= MAX_PAGES {
            None::<u32>
        } else {
            Some((page + 1) as u32)
        },
{
    if count == 0 || count < PAGE_SIZE || page >= MAX_PAGES {
        None
    } else {
        Some(page + 1)
    }
}

// ─────────────────────────────────────────────────────────────────────────────
// Pages
// ─────────────────────────────────────────────────────────────────────────────

/// The address to show once Pages is on: what GitHub reports, else (right
/// after enabling, before GitHub has it) the address by convention — the
/// custom domain, or the repository's Pages URL.
pub open spec fn pages_address_spec(reported: Option<Seq<char>>, cname: Option<Seq<char>>, owner: Seq<char>, name: Seq<char>) -> Seq<char> {
    match reported {
        Some(u) => u,
        None => match cname {
            Some(d) => "https://"@ + d + "/"@,
            None => if is_user_site(owner, name) {
                "https://"@ + unicode_lowercase(owner) + ".github.io/"@
            } else {
                "https://"@ + unicode_lowercase(owner) + ".github.io/"@ + name + "/"@
            },
        },
    }
}

pub fn pages_address(reported: &Option<String>, cname: &Option<String>, repo: &Repo) -> (r: String)
    ensures
        r@ == pages_address_spec(opt_view(*reported), opt_view(*cname), repo.owner@, repo.name@),
{
    match reported {
        Some(u) => owned(u.as_str()),
        None => match cname {
            Some(d) => concat3("https://", d.as_str(), "/"),
            None => repo.pages_url(),
        },
    }
}

// ─────────────────────────────────────────────────────────────────────────────
// Errors
// ─────────────────────────────────────────────────────────────────────────────

pub enum Error {
    Keyring(String),
    Network(String),
    Api { status: u16, message: Message },
}

/// What an API error status means to the user. GitHub explains itself in a
/// `message` field (`detail`), which beats a bare "request failed".
pub open spec fn status_message_spec(status: u16, detail: Seq<char>) -> MessageView {
    if status == 401 {
        msg("msg.gh.badToken"@)
    } else if status == 403 && contains(detail, "rate limit"@) {
        msg("msg.gh.rateLimit"@)
    } else if status == 403 {
        msg_args("msg.gh.forbidden"@, Map::empty().insert("scopes"@, SCOPES@))
    } else if status == 404 {
        msg("msg.gh.notFound"@)
    } else if detail.len() > 0 {
        msg_args("msg.gh.detail"@, Map::empty().insert("detail"@, detail))
    } else {
        msg_args("msg.gh.status"@, Map::empty().insert("status"@, dec(status as nat)))
    }
}

pub fn status_message(status: u16, detail: &str) -> (r: Message)
    ensures
        r@ == status_message_spec(status, detail@),
{
    if status == 401 {
        Message::new("msg.gh.badToken")
    } else if status == 403 && str_contains(detail, "rate limit") {
        Message::new("msg.gh.rateLimit")
    } else if status == 403 {
        Message::new("msg.gh.forbidden").with("scopes", SCOPES)
    } else if status == 404 {
        Message::new("msg.gh.notFound")
    } else if !detail.is_empty() {
        Message::new("msg.gh.detail").with("detail", detail)
    } else {
        let n = decimal(status as u64);
        Message::new("msg.gh.status").with("status", n.as_str())
    }
}

/// An error reply: its status and the message it means.
pub fn api_error(status: u16, detail: &str) -> (r: Error)
    ensures
        r matches Error::Api { status: s, message: m } && s == status && m@
            == status_message_spec(status, detail@),
{
    Error::Api { status, message: status_message(status, detail) }
}

/// A reply GitHub sent but that isn't the JSON expected.
pub fn bad_response(detail: &str) -> (r: Error)
    ensures
        r matches Error::Api { status: s, message: m } && s == 0 && m@ == msg_args(
            "msg.gh.badResponse"@,
            Map::empty().insert("detail"@, detail@),
        ),
{
    Error::Api { status: 0, message: Message::new("msg.gh.badResponse").with("detail", detail) }
}

/// A created repository whose payload lacks what a summary needs.
pub fn bad_repo() -> (r: Error)
    ensures
        r matches Error::Api { status: s, message: m } && s == 0 && m@ == msg("msg.gh.badRepo"@),
{
    Error::Api { status: 0, message: Message::new("msg.gh.badRepo") }
}

/// Whether enabling Pages found it already enabled (GitHub answers 409),
/// in which case the source branch is updated instead.
pub fn already_enabled(e: &Error) -> (r: bool)
    ensures
        r == (e matches Error::Api { status: s, .. } && s == 409),
{
    match e {
        Error::Api { status, .. } => *status == 409,
        _ => false,
    }
}

impl Error {
    /// The message to show. Which language it renders in is up to the caller.
    pub fn message(&self) -> (r: Message)
        ensures
            r@ == match self {
                Error::Keyring(d) => msg_args("msg.gh.keyring"@, Map::empty().insert("detail"@, d@)),
                Error::Network(d) => msg_args("msg.gh.network"@, Map::empty().insert("detail"@, d@)),
                Error::Api { message, .. } => message@,
            },
    {
        match self {
            Error::Keyring(d) => Message::new("msg.gh.keyring").with("detail", d.as_str()),
            Error::Network(d) => Message::new("msg.gh.network").with("detail", d.as_str()),
            Error::Api { message, .. } => message.copy(),
        }
    }
}

} // verus!
