//! ProfileIT — a static site generator for section-based online business cards.
//!
//! The command line and the editor share this library, so there is exactly
//! one set of validation rules, one renderer and one deploy procedure.

pub mod build;
pub mod config;
pub mod decor;
pub mod deploy;
pub mod editor;
pub mod github;
pub mod i18n;
pub mod icons;
pub mod init;
pub mod laws;
pub mod locales;
pub mod markup;
pub mod message;
pub mod paths;
pub mod render;
pub mod report;
pub mod save;
pub mod strmap;
pub mod text;
pub mod theme;
pub mod validate;

use vstd::prelude::*;

use crate::config::Config;
use crate::message::{msg_args, Message, MessageView};
use crate::paths::{parent_of, path_parent, plain_path, rooted_parent, rooted_path};
use crate::text::{dec, decimal, owned};
use crate::validate::{
    diags, has_errors, lint, lint_section_keys, validate, validation, DiagView, Diagnostic,
    Project, Severity,
};

verus! {

/// The folder a config file's parent names: the parent itself, or `"."`
/// when there is none or it is empty. `Path::parent` gives an empty path for
/// a bare file name like `"profile.toml"`, and git run in an empty directory
/// fails with a confusing "not a repository".
pub open spec fn root_for(parent: Option<Seq<char>>) -> Seq<char> {
    match parent {
        Some(p) => if p.len() > 0 {
            p
        } else {
            "."@
        },
        None => "."@,
    }
}

/// The project folder for a given parent of the config path.
pub fn root_of_parent(parent: Option<&str>) -> (r: String)
    ensures
        r@ == root_for(match parent {
            Some(p) => Some(p@),
            None => None,
        }),
{
    proof {
        reveal_strlit(".");
    }
    match parent {
        Some(p) => if p.is_empty() {
            owned(".")
        } else {
            owned(p)
        },
        None => owned("."),
    }
}

/// The folder the config file lives in: the base for asset paths and git.
///
/// For a plain relative path (see [`paths::plain_path`]) it is everything
/// before the last `/`, or `"."` when there is none; `"profile.toml"` gives
/// `"."`. For an absolute one (see [`paths::rooted_path`]) it is everything
/// before the last `/`, or `/` itself: `/home/me/card/profile.toml` gives
/// `/home/me/card`. Whatever the platform's path rules make of any other
/// path, the result is never empty.
pub fn project_root(config_path: &str) -> (r: String)
    ensures
        exists|parent: Option<Seq<char>>| r@ == #[trigger] root_for(parent),
        plain_path(config_path@) ==> r@ == root_for(Some(parent_of(config_path@))),
        rooted_path(config_path@) ==> r@ == rooted_parent(config_path@),
        r@.len() > 0,
        config_path@.len() == 0 ==> r@ == "."@,
{
    proof {
        reveal_strlit(".");
        reveal_strlit("/");
        crate::paths::lemma_last_index_of(config_path@, '/');
    }
    let parent = path_parent(config_path);
    match parent {
        Some(p) => {
            let r = root_of_parent(Some(p.as_str()));
            assert(r@ == root_for(Some(p@)));
            r
        },
        None => {
            let r = root_of_parent(None);
            assert(r@ == root_for(None));
            r
        },
    }
}

/// Why a config could not be loaded.
pub enum LoadError {
    /// The file could not be read.
    Read { path: String, message: String },
    /// The file is not valid TOML for the schema (the parser's own text,
    /// which already carries the line and column).
    Parse { path: String, message: String },
    /// Validation found at least one error; every diagnostic is kept.
    Invalid(Vec<Diagnostic>),
}

/// How many diagnostics are errors.
pub open spec fn error_count(d: Seq<DiagView>) -> nat
    decreases d.len(),
{
    if d.len() == 0 {
        0
    } else {
        error_count(d.drop_last()) + if d.last().severity == Severity::Error {
            1nat
        } else {
            0nat
        }
    }
}

impl LoadError {
    /// The message to display. Whichever side calls this decides the language.
    pub fn message(&self) -> (r: Message)
        ensures
            r@ == match self {
                LoadError::Read { path, message } => msg_args(
                    "msg.load.read"@,
                    Map::empty().insert("path"@, path@).insert("detail"@, message@),
                ),
                LoadError::Parse { path, message } => msg_args(
                    "msg.load.parse"@,
                    Map::empty().insert("path"@, path@).insert("detail"@, message@),
                ),
                LoadError::Invalid(d) => msg_args(
                    "msg.load.invalid"@,
                    Map::empty().insert("count"@, dec(error_count(diags(d@)))),
                ),
            },
    {
        match self {
            LoadError::Read { path, message } => Message::new("msg.load.read").with(
                "path",
                path.as_str(),
            ).with("detail", message.as_str()),
            LoadError::Parse { path, message } => Message::new("msg.load.parse").with(
                "path",
                path.as_str(),
            ).with("detail", message.as_str()),
            LoadError::Invalid(d) => {
                let n = count_errors(d);
                let count = decimal(n);
                Message::new("msg.load.invalid").with("count", count.as_str())
            },
        }
    }
}

/// Counts the errors among the diagnostics.
pub fn count_errors(d: &Vec<Diagnostic>) -> (r: u64)
    ensures
        r == error_count(diags(d@)),
{
    let n = d.len();
    let mut i: usize = 0;
    let mut count: u64 = 0;
    while i < n
        invariant
            n == d@.len(),
            i <= n,
            count == error_count(diags(d@.take(i as int))),
            count <= i,
        decreases n - i,
    {
        proof {
            assert(diags(d@.take(i + 1)).drop_last() =~= diags(d@.take(i as int)));
        }
        if d[i].severity == Severity::Error {
            count = count + 1;
        }
        i = i + 1;
    }
    assert(d@.take(n as int) =~= d@);
    count
}

/// Every diagnostic a loaded config gets: the schema rules, then the
/// section-key lint over the raw source (unknown section keys slip past parsing).
pub open spec fn load_diagnostics(c: Config, source: Seq<char>, p: Project) -> Seq<DiagView> {
    validation(c, p) + lint(source)
}

/// Whether any of the diagnostics is an error.
pub open spec fn any_error(d: Seq<DiagView>) -> bool {
    exists|i: int| 0 <= i < d.len() && #[trigger] d[i].severity == Severity::Error
}

/// Runs a parsed config through validation.
///
/// Returns `Err` if there's even a single error — **a config that failed
/// validation is never built.** A stopped build beats a broken result getting
/// deployed. Warnings come back alongside the config, for the caller to show.
pub fn load_parsed(config: Config, source: &str, project: &Project) -> (r: Result<
    (Config, Vec<Diagnostic>),
    LoadError,
>)
    ensures
        match r {
            Ok((c, d)) => c == config && diags(d@) == load_diagnostics(config, source@, *project)
                && !any_error(load_diagnostics(config, source@, *project)),
            Err(LoadError::Invalid(d)) => diags(d@) == load_diagnostics(
                config,
                source@,
                *project,
            ) && any_error(load_diagnostics(config, source@, *project)),
            Err(_) => false,
        },
{
    let mut diagnostics = validate(&config, project);
    let mut extra = lint_section_keys(source);
    let ghost first = diagnostics@;
    let ghost second = extra@;
    diagnostics.append(&mut extra);
    proof {
        assert(diagnostics@ == first + second);
        assert(diags(diagnostics@) =~= diags(first) + diags(second));
    }
    let bad = has_errors(diagnostics.as_slice());
    proof {
        let all = diags(diagnostics@);
        if bad {
            let i = choose|i: int|
                0 <= i < diagnostics@.len() && #[trigger] diagnostics@[i].severity
                    == Severity::Error;
            assert(all[i].severity == Severity::Error);
        } else {
            assert forall|i: int| 0 <= i < all.len() implies #[trigger] all[i].severity
                != Severity::Error by {
                assert(diagnostics@[i].severity != Severity::Error);
            }
        }
    }
    if bad {
        Err(LoadError::Invalid(diagnostics))
    } else {
        Ok((config, diagnostics))
    }
}

} // verus!
