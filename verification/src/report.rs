//! What the command line prints, as messages and lines.
//!
//! The lines are rendered in the display language the caller picked.

use vstd::prelude::*;

use crate::deploy::Outcome;
use crate::i18n::Strings;
use crate::message::{msg_args, rendered, Message, MessageView};
use crate::text::{chars_of, concat, dec, decimal, owned, substring};
use crate::validate::{Diagnostic, Severity};

verus! {

/// `[error] path: message` — one diagnostic as the terminal shows it.
pub open spec fn diagnostic_line_of(strings: Strings, d: Diagnostic) -> Seq<char> {
    "["@ + strings.ui(
        match d.severity {
            Severity::Error => "cli.error"@,
            Severity::Warning => "cli.warning"@,
        },
    ) + "] "@ + d.path@ + ": "@ + rendered(strings, d.message.key@, d.message.args@)
}

pub fn diagnostic_line(d: &Diagnostic, strings: &Strings) -> (r: String)
    ensures
        r@ == diagnostic_line_of(*strings, *d),
{
    let tag = match d.severity {
        Severity::Error => strings.get("cli.error"),
        Severity::Warning => strings.get("cli.warning"),
    };
    let mut out = concat("[", tag);
    out.append("] ");
    out.append(d.path.as_str());
    out.append(": ");
    let text = d.message.render(strings);
    out.append(text.as_str());
    out
}

/// `[warning] message` — a deploy warning as the terminal shows it.
pub fn warning_line(m: &Message, strings: &Strings) -> (r: String)
    ensures
        r@ == "["@ + strings.ui("cli.warning"@) + "] "@ + rendered(*strings, m.key@, m.args@),
{
    let mut out = concat("[", strings.get("cli.warning"));
    out.append("] ");
    let text = m.render(strings);
    out.append(text.as_str());
    out
}

/// What `check` reports when the config is fine.
pub fn check_summary(sections: u64, socials: u64, warnings: u64) -> (r: Message)
    ensures
        r@ == msg_args(
            "cli.checkOk"@,
            Map::empty().insert("sections"@, dec(sections as nat)).insert(
                "socials"@,
                dec(socials as nat),
            ).insert("warnings"@, dec(warnings as nat)),
        ),
{
    let a = decimal(sections);
    let b = decimal(socials);
    let c = decimal(warnings);
    Message::new("cli.checkOk").with("sections", a.as_str()).with("socials", b.as_str()).with(
        "warnings",
        c.as_str(),
    )
}

/// A commit id shortened for display: its first eight characters.
pub open spec fn short_commit(c: Seq<char>) -> Seq<char> {
    if c.len() <= 8 {
        c
    } else {
        c.take(8)
    }
}

/// What `deploy` reports after a push: the branch, file count and commit,
/// then the site's address and its settings page when known.
pub open spec fn deploy_report(o: Outcome) -> Seq<MessageView> {
    seq![
        msg_args(
            "cli.deployOk"@,
            Map::empty().insert("branch"@, o.branch@).insert("files"@, dec(o.files as nat)).insert(
                "commit"@,
                short_commit(o.commit@),
            ),
        ),
    ] + match o.pages_url {
        Some(u) => seq![msg_args("cli.deployUrl"@, Map::empty().insert("url"@, u@))],
        None => Seq::empty(),
    } + match o.settings_url {
        Some(u) => seq![msg_args("cli.deploySettings"@, Map::empty().insert("url"@, u@))],
        None => Seq::empty(),
    }
}

pub fn deploy_summary(o: &Outcome) -> (r: Vec<Message>)
    ensures
        crate::deploy::messages(r@) == deploy_report(*o),
{
    let v = chars_of(o.commit.as_str());
    let short = if v.len() <= 8 {
        substring(&v, 0, v.len())
    } else {
        substring(&v, 0, 8)
    };
    assert(v@.subrange(0, v@.len() as int) =~= v@);
    assert(v@.len() > 8 ==> v@.subrange(0, 8) =~= v@.take(8));
    let files = decimal(o.files);
    let mut out: Vec<Message> = Vec::new();
    out.push(
        Message::new("cli.deployOk").with("branch", o.branch.as_str()).with("files", files.as_str()).with(
            "commit",
            short.as_str(),
        ),
    );
    let ghost first = crate::deploy::messages(out@);
    match &o.pages_url {
        Some(u) => out.push(Message::new("cli.deployUrl").with("url", u.as_str())),
        None => {},
    }
    let ghost second = crate::deploy::messages(out@);
    match &o.settings_url {
        Some(u) => out.push(Message::new("cli.deploySettings").with("url", u.as_str())),
        None => {},
    }
    assert(crate::deploy::messages(out@) =~= deploy_report(*o));
    out
}

} // verus!
