//! GitHub Pages deployment.
//!
//! `dist/` is pushed to the repository's deploy branch (`gh-pages` by
//! default). The working tree is never touched: a tree is built from `dist/`
//! in a temporary index, a commit is forged with `commit-tree`, and that is
//! pushed — since the branch is never checked out, files being edited can't
//! disappear or get mixed in.
//!
//! Running git is the caller's part. This module decides: what to run next,
//! what a failure means, and what to tell the user afterwards
//! ([`Publish`] is the whole procedure as a state machine).
//!
//! There are two authentication paths. With a connected GitHub account the
//! stored token reaches git through `GIT_ASKPASS`; otherwise git's own
//! credentials are used. Either way the token never ends up in a command
//! line, a remote URL or an error message ([`scrub`]).

use vstd::prelude::*;

use crate::config::views;
use crate::message::{msg, msg_args, Message, MessageView};
use crate::text::{
    chars_of, concat, concat3, contains, eq_ascii_ci, find_from, index_of, is_whitespace, is_ws, lower, owned,
    starts_with, str_eq_ascii_ci, strip_end, string_from, substring, trim, trim_bounds,
    trim_end_char, vec_ends_with, vec_index_of, vec_starts_with,
};

verus! {

// ─────────────────────────────────────────────────────────────────────────────
// The token
// ─────────────────────────────────────────────────────────────────────────────

/// A GitHub token.
///
/// It has no `Debug`: nothing can print it by accident. [`Token::debug_text`]
/// is what a log line may show of it.
pub struct Token(String);

impl Clone for Token {
    /// A copy holding the same value.
    fn clone(&self) -> (r: Token)
        ensures
            r.value() == self.value(),
    {
        Token(owned(self.0.as_str()))
    }
}

impl Token {
    /// The raw value the token holds.
    pub closed spec fn value(&self) -> Seq<char> {
        self.0@
    }

    pub fn new(value: &str) -> (r: Token)
        ensures
            r.value() == value@,
    {
        Token(owned(value))
    }

    /// Returns the raw value. Use this **only** to hand it to git or GitHub.
    /// Never put it in a log line or error message.
    pub fn expose(&self) -> (r: &str)
        ensures
            r@ == self.value(),
    {
        self.0.as_str()
    }

    /// How the token shows in logs: never its value.
    pub fn debug_text(&self) -> (r: String)
        ensures
            r@ == "Token(***)"@,
    {
        owned("Token(***)")
    }
}

// ─────────────────────────────────────────────────────────────────────────────
// Errors
// ─────────────────────────────────────────────────────────────────────────────

pub enum Error {
    GitMissing,
    NotARepository(String),
    NoRemote(String),
    NothingToDeploy(String),
    Git { step: &'static str, message: String },
    Io(String),
}

/// The locale key naming a git step, so the step reads in the UI language.
pub open spec fn step_key_of(step: Seq<char>) -> Seq<char> {
    if step == "stage"@ {
        "msg.deploy.step.stage"@
    } else if step == "tree"@ {
        "msg.deploy.step.tree"@
    } else if step == "commit"@ {
        "msg.deploy.step.commit"@
    } else if step == "push"@ {
        "msg.deploy.step.push"@
    } else if step == "init"@ {
        "msg.deploy.step.init"@
    } else if step == "remote"@ {
        "msg.deploy.step.remote"@
    } else {
        "msg.deploy.step.unknown"@
    }
}

/// Name of a git step. Kept as a key so it gets translated to the UI language.
pub fn step_key(step: &str) -> (r: &'static str)
    ensures
        r@ == step_key_of(step@),
{
    if crate::text::str_eq(step, "stage") {
        "msg.deploy.step.stage"
    } else if crate::text::str_eq(step, "tree") {
        "msg.deploy.step.tree"
    } else if crate::text::str_eq(step, "commit") {
        "msg.deploy.step.commit"
    } else if crate::text::str_eq(step, "push") {
        "msg.deploy.step.push"
    } else if crate::text::str_eq(step, "init") {
        "msg.deploy.step.init"
    } else if crate::text::str_eq(step, "remote") {
        "msg.deploy.step.remote"
    } else {
        "msg.deploy.step.unknown"
    }
}

impl Error {
    /// The message to show the user. The caller decides what language to render it in.
    pub fn message(&self) -> (r: Message)
        ensures
            r@ == match self {
                Error::GitMissing => msg("msg.deploy.gitMissing"@),
                Error::NotARepository(path) => msg_args(
                    "msg.deploy.notARepository"@,
                    Map::empty().insert("path"@, path@),
                ),
                Error::NoRemote(name) => msg_args(
                    "msg.deploy.noRemote"@,
                    Map::empty().insert("remote"@, name@),
                ),
                Error::NothingToDeploy(path) => msg_args(
                    "msg.deploy.nothingToDeploy"@,
                    Map::empty().insert("path"@, path@),
                ),
                Error::Git { step, message } => msg_args(
                    "msg.deploy.gitFailed"@,
                    Map::empty().insert("step"@, seq!['@'] + step_key_of(step@)).insert(
                        "detail"@,
                        message@,
                    ),
                ),
                Error::Io(detail) => msg_args(
                    "msg.deploy.io"@,
                    Map::empty().insert("detail"@, detail@),
                ),
            },
    {
        match self {
            Error::GitMissing => Message::new("msg.deploy.gitMissing"),
            Error::NotARepository(path) => Message::new("msg.deploy.notARepository").with(
                "path",
                path.as_str(),
            ),
            Error::NoRemote(name) => Message::new("msg.deploy.noRemote").with(
                "remote",
                name.as_str(),
            ),
            Error::NothingToDeploy(path) => Message::new("msg.deploy.nothingToDeploy").with(
                "path",
                path.as_str(),
            ),
            Error::Git { step, message } => Message::new("msg.deploy.gitFailed").with_key(
                "step",
                step_key(step),
            ).with("detail", message.as_str()),
            Error::Io(detail) => Message::new("msg.deploy.io").with("detail", detail.as_str()),
        }
    }
}

// ─────────────────────────────────────────────────────────────────────────────
// Keeping the token out of messages
// ─────────────────────────────────────────────────────────────────────────────

/// `str::split_whitespace`: the maximal runs of non-whitespace characters.
pub open spec fn words(s: Seq<char>) -> Seq<Seq<char>>
    decreases s.len(),
{
    if s.len() == 0 {
        Seq::empty()
    } else {
        let w = words(s.drop_last());
        if is_ws(s.last()) {
            w
        } else if s.len() > 1 && !is_ws(s[s.len() - 2]) {
            w.update(w.len() - 1, w.last().push(s.last()))
        } else {
            w.push(seq![s.last()])
        }
    }
}

/// A word holding a GitHub token (`ghp_…`, `github_pat_…`) anywhere —
/// also glued to other text, after `=` or inside quotes — becomes `***`.
pub open spec fn redact(w: Seq<char>) -> Seq<char> {
    if contains(w, "ghp_"@) || contains(w, "github_pat_"@) {
        "***"@
    } else {
        w
    }
}

/// Words joined with single spaces.
pub open spec fn join_words(ws: Seq<Seq<char>>) -> Seq<char>
    decreases ws.len(),
{
    if ws.len() == 0 {
        Seq::empty()
    } else if ws.len() == 1 {
        ws[0]
    } else {
        join_words(ws.drop_last()) + " "@ + ws.last()
    }
}

/// A message with every word that holds a token replaced, words rejoined by single spaces.
pub open spec fn scrubbed(s: Seq<char>) -> Seq<char> {
    join_words(words(s).map_values(|w: Seq<char>| redact(w)))
}

/// The whitespace-separated words of `v`.
pub fn split_words(v: &Vec<char>) -> (r: Vec<String>)
    ensures
        views(r@) == words(v@),
{
    let n = v.len();
    let mut ws: Vec<String> = Vec::new();
    let mut cur: Vec<char> = Vec::new();
    let mut in_word = false;
    let mut i: usize = 0;
    assert(v@.take(0) =~= Seq::<char>::empty());
    while i < n
        invariant
            n == v@.len(),
            i <= n,
            in_word == (i > 0 && !is_ws(v@[i - 1])),
            in_word ==> cur@.len() > 0,
            words(v@.take(i as int)) == if in_word {
                views(ws@).push(cur@)
            } else {
                views(ws@)
            },
        decreases n - i,
    {
        let c = v[i];
        let ghost before = v@.take(i as int);
        assert(v@.take(i + 1).drop_last() =~= before);
        assert(v@.take(i + 1).last() == c);
        if is_whitespace(c) {
            if in_word {
                let w = string_from(cur.as_slice());
                let ghost old_ws = ws@;
                ws.push(w);
                assert(views(ws@) =~= views(old_ws).push(cur@));
                cur = Vec::new();
            }
            in_word = false;
        } else {
            if in_word {
                proof {
                    assert(v@.take(i + 1)[i - 1] == v@[i - 1]);
                }
                let ghost old_cur = cur@;
                cur.push(c);
                assert(views(ws@).push(old_cur).update(views(ws@).len() as int, old_cur.push(c))
                    =~= views(ws@).push(cur@));
            } else {
                proof {
                    if i > 0 {
                        assert(v@.take(i + 1)[i - 1] == v@[i - 1]);
                    }
                }
                cur = Vec::new();
                cur.push(c);
                assert(cur@ =~= seq![c]);
            }
            in_word = true;
        }
        i = i + 1;
    }
    assert(v@.take(n as int) =~= v@);
    if in_word {
        let w = string_from(cur.as_slice());
        let ghost old_ws = ws@;
        ws.push(w);
        assert(views(ws@) =~= views(old_ws).push(cur@));
    }
    ws
}

/// Strips every word that holds a token, wherever in the word it starts,
/// so a token can't show up mixed into an error message (git sometimes
/// echoes credentials back).
pub fn scrub(message: &str) -> (r: String)
    ensures
        r@ == scrubbed(message@),
{
    let v = chars_of(message);
    let ws = split_words(&v);
    let ghost red = words(v@).map_values(|w: Seq<char>| redact(w));
    let n = ws.len();
    let mut out: Vec<char> = Vec::new();
    let mut k: usize = 0;
    proof {
        reveal_strlit("***");
        reveal_strlit("ghp_");
        reveal_strlit("github_pat_");
        reveal_strlit(" ");
        assert(red.take(0) =~= Seq::<Seq<char>>::empty());
    }
    while k < n
        invariant
            n == ws@.len() == red.len(),
            k <= n,
            views(ws@) == words(v@),
            red == words(v@).map_values(|w: Seq<char>| redact(w)),
            out@ == join_words(red.take(k as int)),
        decreases n - k,
    {
        let w = chars_of(ws[k].as_str());
        assert(w@ == views(ws@)[k as int]);
        let token = find_from(&w, &chars_of("ghp_"), 0).is_some() || find_from(
            &w,
            &chars_of("github_pat_"),
            0,
        ).is_some();

        let ghost before = out@;
        if k > 0 {
            out.push(' ');
        }
        if token {
            out.push('*');
            out.push('*');
            out.push('*');
        } else {
            crate::text::push_all(&mut out, &w);
        }
        proof {
            reveal_strlit("***");
            reveal_strlit(" ");
            assert(red.take(k + 1).drop_last() =~= red.take(k as int));
            assert(red[k as int] == redact(w@));
            if token {
                assert(redact(w@) =~= seq!['*', '*', '*']);
            }
            if k == 0 {
                assert(out@ =~= red.take(1)[0]);
            } else {
                assert(out@ =~= before + " "@ + red[k as int]);
            }
        }
        k = k + 1;
    }
    assert(red.take(n as int) =~= red);
    string_from(out.as_slice())
}

// ─────────────────────────────────────────────────────────────────────────────
// Comparing URLs
// ─────────────────────────────────────────────────────────────────────────────

/// URLs that only differ by trailing slashes or ASCII case count as the same.
pub open spec fn same_url_spec(a: Seq<char>, b: Seq<char>) -> bool {
    eq_ascii_ci(strip_end(a, '/'), strip_end(b, '/'))
}

pub fn same_url(a: &str, b: &str) -> (r: bool)
    ensures
        r == same_url_spec(a@, b@),
{
    let x = trim_end_char(a, '/');
    let y = trim_end_char(b, '/');
    str_eq_ascii_ci(x.as_str(), y.as_str())
}

// ─────────────────────────────────────────────────────────────────────────────
// Figuring out the GitHub repository
// ─────────────────────────────────────────────────────────────────────────────

#[derive(Debug, PartialEq, Eq)]
pub struct Repo {
    pub owner: String,
    pub name: String,
}

/// `str::to_lowercase` of a string: its Unicode lowercase mapping.
pub uninterp spec fn unicode_lowercase(s: Seq<char>) -> Seq<char>;

/// `str::to_lowercase`.
///
/// Claimed: the result is `unicode_lowercase` of the input — the Unicode
/// lowercase mapping depends on the characters alone — and, for text that is
/// all ASCII, it is the ASCII lowercase, letter for letter (Unicode maps
/// `A`–`Z` to `a`–`z` and leaves other ASCII alone). What it does to other
/// characters is not written out here.
#[verifier::external_body]
fn to_lowercase(s: &str) -> (r: String)
    ensures
        r@ == unicode_lowercase(s@),
        (forall|i: int| 0 <= i < s@.len() ==> (#[trigger] s@[i] as u32) < 128) ==> r@
            == s@.map_values(|c: char| lower(c)),
{
    s.to_lowercase()
}

/// Whether the repository is the account's own `<owner>.github.io` site.
pub open spec fn is_user_site(owner: Seq<char>, name: Seq<char>) -> bool {
    eq_ascii_ci(name, owner + ".github.io"@)
}

impl Repo {
    /// The Pages URL this repository gets, with the owner lowercased (an
    /// ASCII owner letter for letter: `Aiden` gives `aiden`). Only a
    /// `<owner>.github.io` repository lives at the domain root; any other is
    /// served under its name.
    pub fn pages_url(&self) -> (r: String)
        ensures
            (forall|i: int| 0 <= i < self.owner@.len() ==> (#[trigger] self.owner@[i] as u32) < 128)
                ==> unicode_lowercase(self.owner@) == self.owner@.map_values(|c: char| lower(c)),
            r@ == if is_user_site(self.owner@, self.name@) {
                "https://"@ + unicode_lowercase(self.owner@) + ".github.io/"@
            } else {
                "https://"@ + unicode_lowercase(self.owner@) + ".github.io/"@ + self.name@
                    + "/"@
            },
    {
        let site = concat(self.owner.as_str(), ".github.io");
        let owner = to_lowercase(self.owner.as_str());
        if str_eq_ascii_ci(self.name.as_str(), site.as_str()) {
            concat3("https://", owner.as_str(), ".github.io/")
        } else {
            let mut out = concat3("https://", owner.as_str(), ".github.io/");
            out.append(self.name.as_str());
            out.append("/");
            out
        }
    }

    /// The repository's Pages settings, for when Pages isn't enabled yet.
    pub fn settings_url(&self) -> (r: String)
        ensures
            r@ == "https://github.com/"@ + self.owner@ + "/"@ + self.name@ + "/settings/pages"@,
    {
        let mut out = concat3("https://github.com/", self.owner.as_str(), "/");
        out.append(self.name.as_str());
        out.append("/settings/pages");
        out
    }
}

/// What follows a GitHub host prefix of a remote URL, if it has one.
pub open spec fn github_rest(url: Seq<char>) -> Option<Seq<char>> {
    if starts_with(url, "git@github.com:"@) {
        Some(url.skip(15))
    } else if starts_with(url, "https://github.com/"@) {
        Some(url.skip(19))
    } else if starts_with(url, "ssh://git@github.com/"@) {
        Some(url.skip(21))
    } else {
        None
    }
}

/// `s` without one trailing `.git`.
pub open spec fn without_git(s: Seq<char>) -> Seq<char> {
    if crate::text::ends_with(s, ".git"@) {
        s.take(s.len() - 4)
    } else {
        s
    }
}

/// The owner and name a remote URL points at: the URL is trimmed and loses
/// its trailing slashes, must start with one of GitHub's three remote forms,
/// loses a `.git` suffix, and splits at its first `/` into two non-empty parts.
pub open spec fn github_repo(url: Seq<char>) -> Option<(Seq<char>, Seq<char>)> {
    match github_rest(strip_end(trim(url), '/')) {
        None => None,
        Some(rest) => {
            let path = without_git(rest);
            let k = index_of(path, '/');
            if k < 0 {
                None
            } else if k == 0 || k + 1 == path.len() {
                None
            } else {
                Some((path.take(k), path.skip(k + 1)))
            }
        },
    }
}

/// Extracts the owner and name from a remote URL. `None` if it isn't GitHub.
pub fn parse_github(url: &str) -> (r: Option<Repo>)
    ensures
        match github_repo(url@) {
            Some((owner, name)) => r matches Some(repo) && repo.owner@ == owner && repo.name@
                == name,
            None => r is None,
        },
{
    proof {
        reveal_strlit("git@github.com:");
        reveal_strlit("https://github.com/");
        reveal_strlit("ssh://git@github.com/");
        reveal_strlit(".git");
    }
    let v = chars_of(url);
    let (a, b) = trim_bounds(&v);
    let t = substring(&v, a, b);
    let tv = chars_of(t.as_str());
    let end = crate::text::strip_end_bound(&tv, tv.len(), '/');
    assert(tv@.take(tv@.len() as int) =~= tv@);
    let u = substring(&tv, 0, end);
    let uv = chars_of(u.as_str());
    let ghost uu = strip_end(trim(url@), '/');
    assert(uv@ == uu);
    let skip: usize = if vec_starts_with(&uv, &chars_of("git@github.com:")) {
        15
    } else if vec_starts_with(&uv, &chars_of("https://github.com/")) {
        19
    } else if vec_starts_with(&uv, &chars_of("ssh://git@github.com/")) {
        21
    } else {
        return None;
    };
    let rest = substring(&uv, skip, uv.len());
    let rv = chars_of(rest.as_str());
    assert(rv@ == uu.skip(skip as int));
    let path = if vec_ends_with(&rv, &chars_of(".git")) {
        substring(&rv, 0, rv.len() - 4)
    } else {
        substring(&rv, 0, rv.len())
    };
    let pv = chars_of(path.as_str());
    assert(rv@.subrange(0, rv@.len() as int) =~= rv@);
    assert(pv@ == without_git(rv@));
    proof {
        crate::text::lemma_index_of(pv@, '/');
    }
    match vec_index_of(&pv, '/') {
        None => None,
        Some(k) => {
            if k == 0 || k + 1 == pv.len() {
                None
            } else {
                let owner = substring(&pv, 0, k);
                let name = substring(&pv, k + 1, pv.len());
                assert(pv@.subrange(0, k as int) =~= pv@.take(k as int));
                assert(pv@.subrange(k + 1, pv@.len() as int) =~= pv@.skip(k + 1));
                Some(Repo { owner, name })
            }
        },
    }
}


// ─────────────────────────────────────────────────────────────────────────────
// The outcome
// ─────────────────────────────────────────────────────────────────────────────

pub struct Outcome {
    pub branch: String,
    pub commit: String,
    /// Number of files pushed.
    pub files: u64,
    /// The resulting Pages URL. `None` if the remote isn't GitHub.
    pub pages_url: Option<String>,
    /// Settings-page URL to point to, since Pages might not be enabled yet.
    pub settings_url: Option<String>,
    /// The push succeeded, but here's what's worth knowing about it.
    pub warnings: Vec<Message>,
}

pub open spec fn opt_view(o: Option<String>) -> Option<Seq<char>> {
    match o {
        Some(s) => Some(s@),
        None => None,
    }
}

/// Where the site will be served, and its settings page: a custom domain
/// wins over the repository's own Pages address. Nothing for a remote that
/// isn't GitHub.
pub open spec fn site_urls(cname: Option<Seq<char>>, remote_url: Seq<char>) -> (
    Option<Seq<char>>,
    Option<Seq<char>>,
) {
    match github_repo(remote_url) {
        None => (None, None),
        Some((owner, name)) => (
            Some(
                match cname {
                    Some(d) => "https://"@ + d + "/"@,
                    None => if is_user_site(owner, name) {
                        "https://"@ + unicode_lowercase(owner) + ".github.io/"@
                    } else {
                        "https://"@ + unicode_lowercase(owner) + ".github.io/"@ + name + "/"@
                    },
                },
            ),
            Some("https://github.com/"@ + owner + "/"@ + name + "/settings/pages"@),
        ),
    }
}

pub fn deploy_urls(cname: &Option<String>, remote_url: &str) -> (r: (Option<String>, Option<String>))
    ensures
        (opt_view(r.0), opt_view(r.1)) == site_urls(opt_view(*cname), remote_url@),
{
    match parse_github(remote_url) {
        None => (None, None),
        Some(repo) => {
            let pages = match cname {
                Some(d) => concat3("https://", d.as_str(), "/"),
                None => repo.pages_url(),
            };
            (Some(pages), Some(repo.settings_url()))
        },
    }
}

/// What is worth a warning after a push: a configured `base_url` that isn't
/// where the site actually lives makes og:url and canonical point somewhere
/// wrong. The page looks fine either way, so this stays invisible until
/// someone shares the link.
pub open spec fn mismatch(pages_url: Option<Seq<char>>, base_url: Option<Seq<char>>) -> Seq<
    MessageView,
> {
    match (pages_url, base_url) {
        (Some(actual), Some(configured)) => if same_url_spec(actual, configured) {
            Seq::empty()
        } else {
            seq![
                msg_args(
                    "msg.deploy.baseUrlMismatch"@,
                    Map::empty().insert("configured"@, configured).insert("actual"@, actual),
                ),
            ]
        },
        _ => Seq::empty(),
    }
}

pub open spec fn messages(v: Seq<Message>) -> Seq<MessageView> {
    v.map_values(|m: Message| m@)
}

pub fn deploy_warnings(pages_url: &Option<String>, base_url: &Option<String>) -> (r: Vec<Message>)
    ensures
        messages(r@) == mismatch(opt_view(*pages_url), opt_view(*base_url)),
{
    let mut out: Vec<Message> = Vec::new();
    if let (Some(actual), Some(configured)) = (pages_url, base_url) {
        if !same_url(actual.as_str(), configured.as_str()) {
            out.push(
                Message::new("msg.deploy.baseUrlMismatch").with("configured", configured.as_str()).with(
                    "actual",
                    actual.as_str(),
                ),
            );
        }
    }
    assert(messages(out@) =~= mismatch(opt_view(*pages_url), opt_view(*base_url)));
    out
}

// ─────────────────────────────────────────────────────────────────────────────
// The procedure
// ─────────────────────────────────────────────────────────────────────────────

/// What a deploy starts from.
pub struct PublishPlan {
    /// The project folder; plain git commands run there.
    pub root: String,
    /// The built site.
    pub dist: String,
    pub remote: String,
    pub branch: String,
    pub cname: Option<String>,
    pub base_url: Option<String>,
    /// Whether a stored token authenticates the push.
    pub has_token: bool,
    /// Seconds since the epoch, stamped into the commit message.
    pub stamp: u64,
}

impl PublishPlan {
    pub fn new(
        config: &crate::config::Config,
        root: &str,
        dist: &str,
        has_token: bool,
        stamp: u64,
    ) -> (r: PublishPlan)
        ensures
            r.root@ == root@,
            r.dist@ == dist@,
            r.remote@ == config.deploy.remote@,
            r.branch@ == config.deploy.branch@,
            opt_view(r.cname) == opt_view(config.deploy.cname),
            opt_view(r.base_url) == opt_view(config.site.base_url),
            r.has_token == has_token,
            r.stamp == stamp,
    {
        PublishPlan {
            root: owned(root),
            dist: owned(dist),
            remote: owned(config.deploy.remote.as_str()),
            branch: owned(config.deploy.branch.as_str()),
            cname: clone_opt(&config.deploy.cname),
            base_url: clone_opt(&config.site.base_url),
            has_token,
            stamp,
        }
    }
}

pub fn clone_opt(o: &Option<String>) -> (r: Option<String>)
    ensures
        opt_view(r) == opt_view(*o),
{
    match o {
        Some(s) => Some(owned(s.as_str())),
        None => None,
    }
}

/// Where a deploy stands.
#[derive(Clone, Copy, Debug, PartialEq, Eq, Structural)]
pub enum Stage {
    CheckDist,
    CheckGit,
    FindGitDir,
    FindRemote,
    Prepare,
    Fetch,
    OpenIndex,
    StageFiles,
    WriteTree,
    DropIndex,
    FindParent,
    Commit,
    Push,
    CountFiles,
    Finished,
}

/// What the caller reports back after carrying out an [`Action`].
pub enum Reply {
    /// It worked; the command's trimmed output, if it has one.
    Output(String),
    /// It did not: the command failed (its message), or the answer is no.
    Failed(String),
    /// A file operation failed, with the error's text.
    IoError(String),
    /// How many files `dist/` holds, counted recursively.
    Files(u64),
}

/// What to do next.
pub enum Action {
    /// Does `dist` exist with something in it? `Output` yes, `Failed` no,
    /// `IoError` if the folder can't be read.
    CheckDist { dist: String },
    /// Does `git --version` run? `Output` yes, anything else no.
    CheckGit,
    /// Run git in the project folder with these arguments.
    Git { args: Vec<String> },
    /// Write `.nojekyll` (without it GitHub runs Jekyll, which silently drops
    /// every file starting with `_`) and, for a custom domain, `CNAME` into `dist`.
    Prepare { dist: String, cname: Option<String> },
    /// Remove a stale temporary index in `git_dir` and reply with `dist`
    /// made absolute (the work tree).
    OpenIndex { git_dir: String, dist: String },
    /// Run git against the temporary index, with `work_tree` as the work tree
    /// and as the working directory, so the real index stays untouched.
    GitIndexed { git_dir: String, work_tree: String, args: Vec<String> },
    /// Remove the temporary index; the reply does not matter.
    DropIndex { git_dir: String },
    /// Push with the stored token handed over through `GIT_ASKPASS` (a
    /// helper script inside `git_dir` reads it from the environment).
    /// `IoError` when the helper can't be written.
    PushWithToken { git_dir: String, target: String, refspec: String },
    /// Count the files under `dist`.
    CountFiles { dist: String },
    /// The deploy is over.
    Done(Result<Outcome, Error>),
}

/// A deploy in progress: the plan, the stage reached, and what the earlier
/// steps found out.
pub struct Publish {
    pub plan: PublishPlan,
    pub stage: Stage,
    pub git_dir: String,
    pub remote_url: String,
    pub work_tree: String,
    pub tree: String,
    pub commit: String,
}

/// The commit message: a marker and the time.
pub open spec fn commit_message(stamp: nat) -> Seq<char> {
    "명함 갱신 — "@ + crate::text::dec(stamp)
}

/// `commit-tree` on the tree, on top of the previous deploy when there is
/// one: history has to stay connected for the push to fast-forward.
pub open spec fn commit_args(tree: Seq<char>, stamp: nat, parent: Option<Seq<char>>) -> Seq<
    Seq<char>,
> {
    let base = seq!["commit-tree"@, tree, "-m"@, commit_message(stamp)];
    match parent {
        Some(p) => base + seq!["-p"@, p],
        None => base,
    }
}

/// The ref the commit is pushed to.
pub open spec fn refspec(commit: Seq<char>, branch: Seq<char>) -> Seq<char> {
    commit + ":refs/heads/"@ + branch
}

/// Where a token push goes: the username is baked into the URL, only the
/// password comes from askpass.
pub open spec fn push_target(remote_url: Seq<char>) -> Seq<char> {
    match github_repo(remote_url) {
        Some((owner, name)) => "https://x-access-token@github.com/"@ + owner + "/"@ + name
            + ".git"@,
        None => remote_url,
    }
}

pub open spec fn is_git(a: Action, args: Seq<Seq<char>>) -> bool {
    match a {
        Action::Git { args: x } => views(x@) == args,
        _ => false,
    }
}

pub open spec fn is_git_indexed(a: Action, git_dir: Seq<char>, work_tree: Seq<char>, args: Seq<
    Seq<char>,
>) -> bool {
    match a {
        Action::GitIndexed { git_dir: g, work_tree: w, args: x } => g@ == git_dir && w@
            == work_tree && views(x@) == args,
        _ => false,
    }
}

pub open spec fn is_prepare(a: Action, dist: Seq<char>, cname: Option<Seq<char>>) -> bool {
    match a {
        Action::Prepare { dist: d, cname: c } => d@ == dist && opt_view(c) == cname,
        _ => false,
    }
}

pub open spec fn is_open_index(a: Action, git_dir: Seq<char>, dist: Seq<char>) -> bool {
    match a {
        Action::OpenIndex { git_dir: g, dist: d } => g@ == git_dir && d@ == dist,
        _ => false,
    }
}

pub open spec fn is_drop_index(a: Action, git_dir: Seq<char>) -> bool {
    match a {
        Action::DropIndex { git_dir: g } => g@ == git_dir,
        _ => false,
    }
}

pub open spec fn is_token_push(a: Action, git_dir: Seq<char>, target: Seq<char>, spec: Seq<
    char,
>) -> bool {
    match a {
        Action::PushWithToken { git_dir: g, target: t, refspec: r } => g@ == git_dir && t@
            == target && r@ == spec,
        _ => false,
    }
}

pub open spec fn is_count(a: Action, dist: Seq<char>) -> bool {
    match a {
        Action::CountFiles { dist: d } => d@ == dist,
        _ => false,
    }
}

/// The deploy ended with this error.
pub open spec fn ends_with_error(a: Action, e: ErrorView) -> bool {
    match a {
        Action::Done(Err(err)) => error_view(err) == e,
        _ => false,
    }
}

/// What an error says, as plain values.
pub enum ErrorView {
    GitMissing,
    NotARepository(Seq<char>),
    NoRemote(Seq<char>),
    NothingToDeploy(Seq<char>),
    Git(Seq<char>, Seq<char>),
    Io(Seq<char>),
}

pub open spec fn error_view(e: Error) -> ErrorView {
    match e {
        Error::GitMissing => ErrorView::GitMissing,
        Error::NotARepository(p) => ErrorView::NotARepository(p@),
        Error::NoRemote(r) => ErrorView::NoRemote(r@),
        Error::NothingToDeploy(p) => ErrorView::NothingToDeploy(p@),
        Error::Git { step, message } => ErrorView::Git(step@, message@),
        Error::Io(d) => ErrorView::Io(d@),
    }
}

/// The text a reply carries (none for a file count).
pub open spec fn reply_text_of(reply: Reply) -> Seq<char> {
    match reply {
        Reply::Output(m) => m@,
        Reply::Failed(m) => m@,
        Reply::IoError(m) => m@,
        Reply::Files(_) => Seq::empty(),
    }
}

pub open spec fn succeeded(reply: Reply) -> bool {
    reply is Output
}

/// The outcome a finished deploy reports.
pub open spec fn finished(p: Publish, files: u64, o: Outcome) -> bool {
    &&& o.branch@ == p.plan.branch@
    &&& o.commit@ == p.commit@
    &&& o.files == files
    &&& (opt_view(o.pages_url), opt_view(o.settings_url)) == site_urls(
        opt_view(p.plan.cname),
        p.remote_url@,
    )
    &&& messages(o.warnings@) == mismatch(opt_view(o.pages_url), opt_view(p.plan.base_url))
}

pub open spec fn ends_well(a: Action, p: Publish, files: u64) -> bool {
    match a {
        Action::Done(Ok(o)) => finished(p, files, o),
        _ => false,
    }
}

/// Everything but the stage stays as it was.
pub open spec fn keeps(a: Publish, b: Publish) -> bool {
    &&& b.plan == a.plan
    &&& b.git_dir == a.git_dir
    &&& b.remote_url == a.remote_url
    &&& b.work_tree == a.work_tree
    &&& b.tree == a.tree
    &&& b.commit == a.commit
}

/// The step stops the deploy with this error.
pub open spec fn stops(a: Publish, b: Publish, act: Action, e: ErrorView) -> bool {
    keeps(a, b) && b.stage == Stage::Finished && ends_with_error(act, e)
}

/// One step of the procedure: given where the deploy stands and what the
/// last action came to, the next stage and action.
pub open spec fn step_spec(a: Publish, reply: Reply, b: Publish, act: Action) -> bool {
    let plan = a.plan;
    let text = reply_text_of(reply);
    match a.stage {
        Stage::CheckDist => if succeeded(reply) {
            keeps(a, b) && b.stage == Stage::CheckGit && act is CheckGit
        } else if reply is IoError {
            stops(a, b, act, ErrorView::Io(text))
        } else {
            stops(a, b, act, ErrorView::NothingToDeploy(plan.dist@))
        },
        Stage::CheckGit => if succeeded(reply) {
            keeps(a, b) && b.stage == Stage::FindGitDir && is_git(
                act,
                seq!["rev-parse"@, "--absolute-git-dir"@],
            )
        } else {
            stops(a, b, act, ErrorView::GitMissing)
        },
        Stage::FindGitDir => if succeeded(reply) {
            &&& b.stage == Stage::FindRemote
            &&& b.git_dir@ == text
            &&& b.plan == plan
            &&& b.remote_url == a.remote_url
            &&& is_git(act, seq!["remote"@, "get-url"@, plan.remote@])
        } else {
            stops(a, b, act, ErrorView::NotARepository(plan.root@))
        },
        Stage::FindRemote => if succeeded(reply) {
            &&& b.stage == Stage::Prepare
            &&& b.remote_url@ == text
            &&& b.plan == plan
            &&& b.git_dir == a.git_dir
            &&& is_prepare(act, plan.dist@, opt_view(plan.cname))
        } else {
            stops(a, b, act, ErrorView::NoRemote(plan.remote@))
        },
        Stage::Prepare => if succeeded(reply) {
            keeps(a, b) && b.stage == Stage::Fetch && is_git(
                act,
                seq!["fetch"@, plan.remote@, plan.branch@],
            )
        } else {
            stops(a, b, act, ErrorView::Io(text))
        },
        // The remote branch may not exist yet on a first deploy: whatever
        // the fetch came to, the deploy goes on.
        Stage::Fetch => keeps(a, b) && b.stage == Stage::OpenIndex && is_open_index(
            act,
            a.git_dir@,
            plan.dist@,
        ),
        Stage::OpenIndex => if succeeded(reply) {
            &&& b.stage == Stage::StageFiles
            &&& b.work_tree@ == text
            &&& b.plan == plan
            &&& b.git_dir == a.git_dir
            &&& b.remote_url == a.remote_url
            &&& is_git_indexed(act, a.git_dir@, text, seq!["add"@, "-A"@, "-f"@, "."@])
        } else {
            stops(a, b, act, ErrorView::Io(text))
        },
        Stage::StageFiles => if succeeded(reply) {
            keeps(a, b) && b.stage == Stage::WriteTree && is_git_indexed(
                act,
                a.git_dir@,
                a.work_tree@,
                seq!["write-tree"@],
            )
        } else {
            stops(a, b, act, ErrorView::Git("stage"@, text))
        },
        Stage::WriteTree => if succeeded(reply) {
            &&& b.stage == Stage::DropIndex
            &&& b.tree@ == text
            &&& b.plan == plan
            &&& b.git_dir == a.git_dir
            &&& b.remote_url == a.remote_url
            &&& is_drop_index(act, a.git_dir@)
        } else {
            stops(a, b, act, ErrorView::Git("tree"@, text))
        },
        Stage::DropIndex => keeps(a, b) && b.stage == Stage::FindParent && is_git(
            act,
            seq!["rev-parse"@, "--verify"@, plan.remote@ + "/"@ + plan.branch@],
        ),
        // No previous deploy: the commit starts a fresh history.
        Stage::FindParent => keeps(a, b) && b.stage == Stage::Commit && is_git(
            act,
            commit_args(
                a.tree@,
                plan.stamp as nat,
                if succeeded(reply) {
                    Some(text)
                } else {
                    None
                },
            ),
        ),
        Stage::Commit => if succeeded(reply) {
            &&& b.stage == Stage::Push
            &&& b.commit@ == text
            &&& b.plan == plan
            &&& b.git_dir == a.git_dir
            &&& b.remote_url == a.remote_url
            &&& b.tree == a.tree
            &&& if plan.has_token {
                is_token_push(
                    act,
                    a.git_dir@,
                    push_target(a.remote_url@),
                    refspec(text, plan.branch@),
                )
            } else {
                is_git(act, seq!["push"@, plan.remote@, refspec(text, plan.branch@)])
            }
        } else {
            stops(a, b, act, ErrorView::Git("commit"@, text))
        },
        // With a token in play, git's words are scrubbed of anything token-like.
        // The askpass helper that could not be written is a file error.
        Stage::Push => if succeeded(reply) {
            keeps(a, b) && b.stage == Stage::CountFiles && is_count(act, plan.dist@)
        } else if reply is IoError {
            stops(a, b, act, ErrorView::Io(text))
        } else {
            stops(
                a,
                b,
                act,
                ErrorView::Git(
                    "push"@,
                    if plan.has_token {
                        scrubbed(text)
                    } else {
                        text
                    },
                ),
            )
        },
        Stage::CountFiles => keeps(a, b) && b.stage == Stage::Finished && ends_well(
            act,
            a,
            match reply {
                Reply::Files(n) => n,
                _ => 0,
            },
        ),
        Stage::Finished => stops(a, b, act, ErrorView::Io(Seq::empty())),
    }
}

pub fn strings(items: &[&str]) -> (r: Vec<String>)
    ensures
        r@.len() == items@.len(),
        forall|i: int| 0 <= i < items@.len() ==> #[trigger] r@[i]@ == items@[i]@,
{
    let mut out: Vec<String> = Vec::new();
    let n = items.len();
    let mut i: usize = 0;
    while i < n
        invariant
            n == items@.len(),
            i <= n,
            out@.len() == i,
            forall|k: int| 0 <= k < i ==> #[trigger] out@[k]@ == items@[k]@,
        decreases n - i,
    {
        out.push(owned(items[i]));
        i = i + 1;
    }
    out
}

fn reply_text(reply: &Reply) -> (r: String)
    ensures
        r@ == match reply {
            Reply::Output(m) => m@,
            Reply::Failed(m) => m@,
            Reply::IoError(m) => m@,
            Reply::Files(_) => Seq::empty(),
        },
{
    match reply {
        Reply::Output(m) => owned(m.as_str()),
        Reply::Failed(m) => owned(m.as_str()),
        Reply::IoError(m) => owned(m.as_str()),
        Reply::Files(_) => String::new(),
    }
}

impl Publish {
    /// Starts a deploy: first, is there anything in `dist/` to push?
    pub fn start(plan: PublishPlan) -> (r: (Publish, Action))
        ensures
            r.0.plan == plan,
            r.0.stage == Stage::CheckDist,
            r.1 matches Action::CheckDist { dist: d } && d@ == plan.dist@,
    {
        let dist = owned(plan.dist.as_str());
        (
            Publish {
                plan,
                stage: Stage::CheckDist,
                git_dir: String::new(),
                remote_url: String::new(),
                work_tree: String::new(),
                tree: String::new(),
                commit: String::new(),
            },
            Action::CheckDist { dist },
        )
    }

    /// Takes the reply to the last action and returns the next one.
    #[verifier::rlimit(40)]
    pub fn step(&mut self, reply: Reply) -> (act: Action)
        ensures
            step_spec(*old(self), reply, *final(self), act),
    {
        proof {
            reveal_strlit("rev-parse");
            reveal_strlit("--absolute-git-dir");
        }
        match self.stage {
            Stage::CheckDist => match reply {
                Reply::Output(_) => {
                    self.stage = Stage::CheckGit;
                    Action::CheckGit
                },
                Reply::IoError(m) => {
                    self.stage = Stage::Finished;
                    Action::Done(Err(Error::Io(m)))
                },
                _ => {
                    self.stage = Stage::Finished;
                    Action::Done(Err(Error::NothingToDeploy(owned(self.plan.dist.as_str()))))
                },
            },
            Stage::CheckGit => match reply {
                Reply::Output(_) => {
                    self.stage = Stage::FindGitDir;
                    let args = strings(&["rev-parse", "--absolute-git-dir"]);
                    assert(views(args@) =~= seq!["rev-parse"@, "--absolute-git-dir"@]);
                    Action::Git { args }
                },
                _ => {
                    self.stage = Stage::Finished;
                    Action::Done(Err(Error::GitMissing))
                },
            },
            Stage::FindGitDir => match reply {
                Reply::Output(dir) => {
                    self.stage = Stage::FindRemote;
                    self.git_dir = dir;
                    let args = strings(&["remote", "get-url", self.plan.remote.as_str()]);
                    assert(views(args@) =~= seq!["remote"@, "get-url"@, self.plan.remote@]);
                    Action::Git { args }
                },
                _ => {
                    self.stage = Stage::Finished;
                    Action::Done(Err(Error::NotARepository(owned(self.plan.root.as_str()))))
                },
            },
            Stage::FindRemote => match reply {
                Reply::Output(url) => {
                    self.stage = Stage::Prepare;
                    self.remote_url = url;
                    Action::Prepare {
                        dist: owned(self.plan.dist.as_str()),
                        cname: clone_opt(&self.plan.cname),
                    }
                },
                _ => {
                    self.stage = Stage::Finished;
                    Action::Done(Err(Error::NoRemote(owned(self.plan.remote.as_str()))))
                },
            },
            Stage::Prepare => match reply {
                Reply::Output(_) => {
                    self.stage = Stage::Fetch;
                    let args = strings(
                        &["fetch", self.plan.remote.as_str(), self.plan.branch.as_str()],
                    );
                    assert(views(args@) =~= seq!["fetch"@, self.plan.remote@, self.plan.branch@]);
                    Action::Git { args }
                },
                other => {
                    self.stage = Stage::Finished;
                    Action::Done(Err(Error::Io(reply_text(&other))))
                },
            },
            Stage::Fetch => {
                self.stage = Stage::OpenIndex;
                Action::OpenIndex {
                    git_dir: owned(self.git_dir.as_str()),
                    dist: owned(self.plan.dist.as_str()),
                }
            },
            Stage::OpenIndex => match reply {
                Reply::Output(w) => {
                    self.stage = Stage::StageFiles;
                    self.work_tree = w;
                    let args = strings(&["add", "-A", "-f", "."]);
                    assert(views(args@) =~= seq!["add"@, "-A"@, "-f"@, "."@]);
                    Action::GitIndexed {
                        git_dir: owned(self.git_dir.as_str()),
                        work_tree: owned(self.work_tree.as_str()),
                        args,
                    }
                },
                other => {
                    self.stage = Stage::Finished;
                    Action::Done(Err(Error::Io(reply_text(&other))))
                },
            },
            Stage::StageFiles => match reply {
                Reply::Output(_) => {
                    self.stage = Stage::WriteTree;
                    let args = strings(&["write-tree"]);
                    assert(views(args@) =~= seq!["write-tree"@]);
                    Action::GitIndexed {
                        git_dir: owned(self.git_dir.as_str()),
                        work_tree: owned(self.work_tree.as_str()),
                        args,
                    }
                },
                other => {
                    self.stage = Stage::Finished;
                    Action::Done(Err(Error::Git { step: "stage", message: reply_text(&other) }))
                },
            },
            Stage::WriteTree => match reply {
                Reply::Output(t) => {
                    self.stage = Stage::DropIndex;
                    self.tree = t;
                    Action::DropIndex { git_dir: owned(self.git_dir.as_str()) }
                },
                other => {
                    self.stage = Stage::Finished;
                    Action::Done(Err(Error::Git { step: "tree", message: reply_text(&other) }))
                },
            },
            Stage::DropIndex => {
                self.stage = Stage::FindParent;
                let target = concat3(self.plan.remote.as_str(), "/", self.plan.branch.as_str());
                let args = strings(&["rev-parse", "--verify", target.as_str()]);
                assert(views(args@) =~= seq![
                    "rev-parse"@,
                    "--verify"@,
                    self.plan.remote@ + "/"@ + self.plan.branch@,
                ]);
                Action::Git { args }
            },
            Stage::FindParent => {
                self.stage = Stage::Commit;
                let stamp = crate::text::decimal(self.plan.stamp);
                let message = concat("명함 갱신 — ", stamp.as_str());
                let mut args = strings(&["commit-tree", self.tree.as_str(), "-m", message.as_str()]);
                let ghost base = seq!["commit-tree"@, self.tree@, "-m"@, message@];
                assert(views(args@) =~= base);
                if let Reply::Output(p) = reply {
                    let ghost before = args@;
                    args.push(owned("-p"));
                    args.push(p);
                    assert(views(args@) =~= views(before) + seq!["-p"@, p@]);
                }
                Action::Git { args }
            },
            Stage::Commit => match reply {
                Reply::Output(c) => {
                    self.stage = Stage::Push;
                    self.commit = c;
                    let spec = concat3(self.commit.as_str(), ":refs/heads/", self.plan.branch.as_str());
                    if self.plan.has_token {
                        let target = token_push_target(self.remote_url.as_str());
                        Action::PushWithToken {
                            git_dir: owned(self.git_dir.as_str()),
                            target,
                            refspec: spec,
                        }
                    } else {
                        let args = strings(&["push", self.plan.remote.as_str(), spec.as_str()]);
                        assert(views(args@) =~= seq!["push"@, self.plan.remote@, spec@]);
                        Action::Git { args }
                    }
                },
                other => {
                    self.stage = Stage::Finished;
                    Action::Done(Err(Error::Git { step: "commit", message: reply_text(&other) }))
                },
            },
            Stage::Push => match reply {
                Reply::Output(_) => {
                    self.stage = Stage::CountFiles;
                    Action::CountFiles { dist: owned(self.plan.dist.as_str()) }
                },
                Reply::IoError(m) => {
                    self.stage = Stage::Finished;
                    Action::Done(Err(Error::Io(m)))
                },
                other => {
                    self.stage = Stage::Finished;
                    let text = reply_text(&other);
                    let message = if self.plan.has_token {
                        scrub(text.as_str())
                    } else {
                        text
                    };
                    Action::Done(Err(Error::Git { step: "push", message }))
                },
            },
            Stage::CountFiles => {
                self.stage = Stage::Finished;
                let files: u64 = match reply {
                    Reply::Files(n) => n,
                    _ => 0,
                };
                let (pages_url, settings_url) = deploy_urls(&self.plan.cname, self.remote_url.as_str());
                let warnings = deploy_warnings(&pages_url, &self.plan.base_url);
                Action::Done(
                    Ok(
                        Outcome {
                            branch: owned(self.plan.branch.as_str()),
                            commit: owned(self.commit.as_str()),
                            files,
                            pages_url,
                            settings_url,
                            warnings,
                        },
                    ),
                )
            },
            Stage::Finished => Action::Done(Err(Error::Io(String::new()))),
        }
    }
}

/// The URL a token push goes to; see [`push_target`].
pub fn token_push_target(remote_url: &str) -> (r: String)
    ensures
        r@ == push_target(remote_url@),
{
    match parse_github(remote_url) {
        Some(repo) => {
            let mut out = concat3(
                "https://x-access-token@github.com/",
                repo.owner.as_str(),
                "/",
            );
            out.append(repo.name.as_str());
            out.append(".git");
            out
        },
        None => owned(remote_url),
    }
}


// ─────────────────────────────────────────────────────────────────────────────
// Preparing the repository
// ─────────────────────────────────────────────────────────────────────────────

/// Where pointing a folder's remote at a repository stands.
#[derive(Clone, Copy, Debug, PartialEq, Eq, Structural)]
pub enum SetupStage {
    CheckRepository,
    InitRepository,
    CheckRemote,
    WriteRemote,
    Finished,
}

/// What to do next while preparing the repository.
pub enum SetupAction {
    /// Run git in the project folder with these arguments.
    Git { args: Vec<String> },
    Done(Result<(), Error>),
}

/// Creating a repository where there is none (card folders are usually fresh
/// folders), and then, if asked, pointing a remote at a URL — adding the
/// remote, or just updating its URL when it already exists.
pub struct RemoteSetup {
    /// The remote to point and its URL; `None` to only make sure there is a repository.
    pub remote: Option<(String, String)>,
    pub stage: SetupStage,
}

pub open spec fn is_setup_git(a: SetupAction, args: Seq<Seq<char>>) -> bool {
    match a {
        SetupAction::Git { args: x } => views(x@) == args,
        _ => false,
    }
}

pub open spec fn setup_ends(a: SetupAction, e: Option<ErrorView>) -> bool {
    match (a, e) {
        (SetupAction::Done(Ok(())), None) => true,
        (SetupAction::Done(Err(err)), Some(v)) => error_view(err) == v,
        _ => false,
    }
}

/// The command that points the remote: `set-url` if it exists, else `add`.
pub open spec fn remote_args(exists: bool, name: Seq<char>, url: Seq<char>) -> Seq<Seq<char>> {
    if exists {
        seq!["remote"@, "set-url"@, name, url]
    } else {
        seq!["remote"@, "add"@, name, url]
    }
}

/// After the repository is known to exist: check the remote, or finish.
pub open spec fn after_repository(a: RemoteSetup, b: RemoteSetup, act: SetupAction) -> bool {
    match a.remote {
        Some((name, _)) => b.stage == SetupStage::CheckRemote && is_setup_git(
            act,
            seq!["remote"@, "get-url"@, name@],
        ),
        None => b.stage == SetupStage::Finished && setup_ends(act, None),
    }
}

pub open spec fn setup_step_spec(a: RemoteSetup, reply: Reply, b: RemoteSetup, act: SetupAction) -> bool {
    let text = reply_text_of(reply);
    b.remote == a.remote && match a.stage {
        SetupStage::CheckRepository => if succeeded(reply) {
            after_repository(a, b, act)
        } else {
            b.stage == SetupStage::InitRepository && is_setup_git(act, seq!["init"@])
        },
        SetupStage::InitRepository => if succeeded(reply) {
            after_repository(a, b, act)
        } else {
            b.stage == SetupStage::Finished && setup_ends(act, Some(ErrorView::Git("init"@, text)))
        },
        SetupStage::CheckRemote => match a.remote {
            Some((name, url)) => b.stage == SetupStage::WriteRemote && is_setup_git(
                act,
                remote_args(succeeded(reply), name@, url@),
            ),
            None => b.stage == SetupStage::Finished && setup_ends(act, None),
        },
        SetupStage::WriteRemote => b.stage == SetupStage::Finished && if succeeded(reply) {
            setup_ends(act, None)
        } else {
            setup_ends(act, Some(ErrorView::Git("remote"@, text)))
        },
        SetupStage::Finished => b.stage == SetupStage::Finished && setup_ends(act, None),
    }
}

impl RemoteSetup {
    /// Makes sure the folder is a repository: is there one already?
    pub fn ensure_repository() -> (r: (RemoteSetup, SetupAction))
        ensures
            r.0.remote is None,
            r.0.stage == SetupStage::CheckRepository,
            is_setup_git(r.1, seq!["rev-parse"@, "--git-dir"@]),
    {
        let args = strings(&["rev-parse", "--git-dir"]);
        assert(views(args@) =~= seq!["rev-parse"@, "--git-dir"@]);
        (RemoteSetup { remote: None, stage: SetupStage::CheckRepository }, SetupAction::Git { args })
    }

    /// Points the remote `name` at `url`, creating the repository first if needed.
    pub fn set_remote(name: &str, url: &str) -> (r: (RemoteSetup, SetupAction))
        ensures
            r.0.remote matches Some((n, u)) && n@ == name@ && u@ == url@,
            r.0.stage == SetupStage::CheckRepository,
            is_setup_git(r.1, seq!["rev-parse"@, "--git-dir"@]),
    {
        let args = strings(&["rev-parse", "--git-dir"]);
        assert(views(args@) =~= seq!["rev-parse"@, "--git-dir"@]);
        (
            RemoteSetup {
                remote: Some((owned(name), owned(url))),
                stage: SetupStage::CheckRepository,
            },
            SetupAction::Git { args },
        )
    }

    fn after_repository(&mut self) -> (act: SetupAction)
        ensures
            final(self).remote == old(self).remote,
            after_repository(*old(self), *final(self), act),
    {
        match &self.remote {
            Some((name, _)) => {
                let args = strings(&["remote", "get-url", name.as_str()]);
                assert(views(args@) =~= seq!["remote"@, "get-url"@, name@]);
                self.stage = SetupStage::CheckRemote;
                SetupAction::Git { args }
            },
            None => {
                self.stage = SetupStage::Finished;
                SetupAction::Done(Ok(()))
            },
        }
    }

    /// Takes the reply to the last git command and returns the next action.
    pub fn step(&mut self, reply: Reply) -> (act: SetupAction)
        ensures
            setup_step_spec(*old(self), reply, *final(self), act),
    {
        let ok = match reply {
            Reply::Output(_) => true,
            _ => false,
        };
        match self.stage {
            SetupStage::CheckRepository => if ok {
                self.after_repository()
            } else {
                self.stage = SetupStage::InitRepository;
                let args = strings(&["init"]);
                assert(views(args@) =~= seq!["init"@]);
                SetupAction::Git { args }
            },
            SetupStage::InitRepository => if ok {
                self.after_repository()
            } else {
                self.stage = SetupStage::Finished;
                SetupAction::Done(Err(Error::Git { step: "init", message: reply_text(&reply) }))
            },
            SetupStage::CheckRemote => match &self.remote {
                Some((name, url)) => {
                    let verb = if ok {
                        "set-url"
                    } else {
                        "add"
                    };
                    let args = strings(&["remote", verb, name.as_str(), url.as_str()]);
                    assert(views(args@) =~= remote_args(ok, name@, url@));
                    self.stage = SetupStage::WriteRemote;
                    SetupAction::Git { args }
                },
                None => {
                    self.stage = SetupStage::Finished;
                    SetupAction::Done(Ok(()))
                },
            },
            SetupStage::WriteRemote => {
                self.stage = SetupStage::Finished;
                if ok {
                    SetupAction::Done(Ok(()))
                } else {
                    SetupAction::Done(
                        Err(Error::Git { step: "remote", message: reply_text(&reply) }),
                    )
                }
            },
            SetupStage::Finished => SetupAction::Done(Ok(())),
        }
    }
}

} // verus!
