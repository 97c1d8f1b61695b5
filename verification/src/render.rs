//! Turns a `Config` into HTML.
//!
//! Every piece of text from the config is escaped on its way in (see
//! [`crate::markup`]), so nothing from the config file is ever interpreted as
//! a tag. The only unescaped markup is what this module writes itself.

use vstd::prelude::*;

use crate::{decor, icons};
use crate::config::{
    views, ChecklistItem, Config, ContactItem, ContactKind, Decoration, LinkItem, Section,
    SectionBody, Social, Tag, TimelineItem,
};
use crate::i18n::{Strings, Text};
use crate::markup::{escaped, json_string, push_json_string, push_raw, push_text};
use crate::text::{
    chars_of, concat, is_ascii_digit, is_digit, owned, split_on, split_str, starts_with,
    strip_end, strip_prefix_all, strip_start, string_from, substring, trim, trim_bounds,
};

verus! {

// ─────────────────────────────────────────────────────────────────────────────
// String helpers
// ─────────────────────────────────────────────────────────────────────────────

/// `path` made absolute under `base` when there is one; otherwise left
/// relative. Most platforms ignore og:image unless it's an absolute URL.
pub open spec fn absolute(base: Option<Seq<char>>, path: Seq<char>) -> Seq<char> {
    match base {
        None => path,
        Some(b) => strip_end(b, '/') + "/"@ + strip_start(path, '/'),
    }
}

pub fn absolute_url(base: Option<&str>, path: &str) -> (r: String)
    ensures
        r@ == absolute(
            match base {
                Some(b) => Some(b@),
                None => None,
            },
            path@,
        ),
{
    match base {
        None => owned(path),
        Some(b) => {
            let head = crate::text::trim_end_char(b, '/');
            let tail = crate::text::trim_start_char(path, '/');
            crate::text::concat3(head.as_str(), "/", tail.as_str())
        },
    }
}

/// The non-empty strings, in order.
pub open spec fn nonempty_only(s: Seq<Seq<char>>) -> Seq<Seq<char>>
    decreases s.len(),
{
    if s.len() == 0 {
        Seq::empty()
    } else {
        let rest = nonempty_only(s.drop_last());
        if s.last().len() > 0 {
            rest.push(s.last())
        } else {
            rest
        }
    }
}

/// Paragraphs: the text split at blank lines (`"\n\n"`), each trimmed,
/// empty ones dropped.
pub open spec fn paragraphs_of(text: Seq<char>) -> Seq<Seq<char>> {
    nonempty_only(split_str(text, "\n\n"@).map_values(|p: Seq<char>| trim(p)))
}

pub fn paragraphs(text: &str) -> (r: Vec<String>)
    ensures
        views(r@) == paragraphs_of(text@),
{
    proof {
        reveal_strlit("\n\n");
    }
    let v = chars_of(text);
    let sep = chars_of("\n\n");
    let pieces = split_on(&v, &sep);
    let ghost trimmed = views(pieces@).map_values(|p: Seq<char>| trim(p));
    let n = pieces.len();
    let mut out: Vec<String> = Vec::new();
    let mut i: usize = 0;
    while i < n
        invariant
            n == pieces@.len(),
            i <= n,
            trimmed == views(pieces@).map_values(|p: Seq<char>| trim(p)),
            views(out@) == nonempty_only(trimmed.take(i as int)),
        decreases n - i,
    {
        let t = crate::text::trimmed(pieces[i].as_str());
        proof {
            assert(trimmed.take(i + 1).drop_last() =~= trimmed.take(i as int));
            assert(trimmed[i as int] == trim(pieces@[i as int]@));
        }
        if !t.as_str().is_empty() {
            let ghost before = out@;
            out.push(t);
            assert(views(out@) =~= views(before).push(trimmed[i as int]));
        }
        i = i + 1;
    }
    assert(trimmed.take(n as int) =~= trimmed);
    out
}

/// A URL without its scheme and trailing slashes, for display: a long URL
/// would overflow the card width.
pub open spec fn without_scheme(url: Seq<char>) -> Seq<char> {
    strip_end(strip_prefix_all(strip_prefix_all(url, "https://"@), "http://"@), '/')
}

pub fn strip_scheme(url: &str) -> (r: String)
    ensures
        r@ == without_scheme(url@),
{
    proof {
        reveal_strlit("https://");
        reveal_strlit("http://");
    }
    let v = chars_of(url);
    let a = crate::text::strip_prefix_all_bound(&v, 0, &chars_of("https://"));
    let b = crate::text::strip_prefix_all_bound(&v, a, &chars_of("http://"));
    assert(v@.skip(0) =~= v@);
    let rest = substring(&v, b, v.len());
    assert(rest@ =~= v@.skip(b as int));
    let w = chars_of(rest.as_str());
    let e = crate::text::strip_end_bound(&w, w.len(), '/');
    assert(w@.take(w@.len() as int) =~= w@);
    substring(&w, 0, e)
}

/// Only the digits and `+` of a phone number, for `tel:`. Spaces or hyphens
/// mixed in keep the phone app from opening on some devices.
pub open spec fn dial_chars(s: Seq<char>) -> Seq<char>
    decreases s.len(),
{
    if s.len() == 0 {
        Seq::empty()
    } else {
        let rest = dial_chars(s.drop_last());
        if is_digit(s.last()) || s.last() == '+' {
            rest.push(s.last())
        } else {
            rest
        }
    }
}

pub fn phone_href(value: &str) -> (r: String)
    ensures
        r@ == dial_chars(value@),
{
    let v = chars_of(value);
    let n = v.len();
    let mut out: Vec<char> = Vec::new();
    let mut i: usize = 0;
    while i < n
        invariant
            n == v@.len(),
            i <= n,
            out@ == dial_chars(v@.take(i as int)),
        decreases n - i,
    {
        let c = v[i];
        assert(v@.take(i + 1).drop_last() =~= v@.take(i as int));
        if is_ascii_digit(c) || c == '+' {
            out.push(c);
        }
        i = i + 1;
    }
    assert(v@.take(n as int) =~= v@);
    string_from(out.as_slice())
}

/// The first character of the trimmed name, to fill the avatar placeholder;
/// nothing for a blank name.
pub open spec fn first_char(name: Seq<char>) -> Seq<char> {
    if trim(name).len() > 0 {
        seq![trim(name)[0]]
    } else {
        Seq::empty()
    }
}

pub fn first_grapheme(name: &str) -> (r: String)
    ensures
        r@ == first_char(name@),
{
    let v = chars_of(name);
    let (a, b) = trim_bounds(&v);
    if a < b {
        substring(&v, a, a + 1)
    } else {
        String::new()
    }
}

/// The lines of a text as `str::lines` gives them: split at `\n`, a `\r`
/// before the `\n` dropped, and no empty line after a final `\n`.
pub open spec fn lines_of(s: Seq<char>) -> Seq<Seq<char>> {
    let parts = split_str(s, "\n"@);
    let n = parts.len();
    if s.len() == 0 {
        Seq::empty()
    } else if s.last() == '\n' {
        parts.take(n - 1).map_values(|p: Seq<char>| strip_cr(p))
    } else {
        parts.take(n - 1).map_values(|p: Seq<char>| strip_cr(p)).push(parts[n - 1])
    }
}

/// A line without one trailing `\r`.
pub open spec fn strip_cr(p: Seq<char>) -> Seq<char> {
    if p.len() > 0 && p.last() == '\r' {
        p.drop_last()
    } else {
        p
    }
}

/// The lines, each escaped, joined with `<br>`.
pub open spec fn joined_lines(ls: Seq<Seq<char>>) -> Seq<char>
    decreases ls.len(),
{
    if ls.len() == 0 {
        Seq::empty()
    } else if ls.len() == 1 {
        escaped(ls[0])
    } else {
        joined_lines(ls.drop_last()) + "<br>"@ + escaped(ls.last())
    }
}

/// Markup for a text with line breaks: the trimmed text's lines, each
/// escaped, separated by `<br>`.
pub open spec fn line_breaks(text: Seq<char>) -> Seq<char> {
    joined_lines(lines_of(trim(text)))
}

fn strip_cr_string(p: &str) -> (r: String)
    ensures
        r@ == strip_cr(p@),
{
    let v = chars_of(p);
    if v.len() > 0 && v[v.len() - 1] == '\r' {
        substring(&v, 0, v.len() - 1)
    } else {
        substring(&v, 0, v.len())
    }
}

/// Appends a text's lines, escaped, with `<br>` between them.
pub fn push_line_breaks(out: &mut String, text: &str)
    ensures
        final(out)@ == old(out)@ + line_breaks(text@),
{
    proof {
        reveal_strlit("\n");
        reveal_strlit("<br>");
    }
    let t = crate::text::trimmed(text);
    let v = chars_of(t.as_str());
    if v.len() == 0 {
        assert(lines_of(trim(text@)) =~= Seq::<Seq<char>>::empty());
        return;
    }
    let parts = split_on(&v, &chars_of("\n"));
    let ghost ps = views(parts@);
    let ghost ls = lines_of(v@);
    let ends_nl = v[v.len() - 1] == '\n';
    let n = parts.len();
    let count = if ends_nl {
        n - 1
    } else {
        n
    };
    assert(ls.len() == count);
    let ghost start = out@;
    let mut i: usize = 0;
    while i < count
        invariant
            n == parts@.len() == ps.len(),
            ps == views(parts@),
            count <= n,
            ls.len() == count,
            ls == lines_of(v@),
            v@.len() > 0,
            ends_nl == (v@.last() == '\n'),
            count == if ends_nl {
                n - 1
            } else {
                n as int
            },
            ps == split_str(v@, "\n"@),
            i <= count,
            out@ == start + joined_lines(ls.take(i as int)),
        decreases count - i,
    {
        let line = if i + 1 < n || ends_nl {
            strip_cr_string(parts[i].as_str())
        } else {
            owned(parts[i].as_str())
        };
        assert(line@ == ls[i as int]);
        let ghost before = out@;
        if i > 0 {
            push_raw(out, "<br>");
        }
        push_text(out, line.as_str());
        proof {
            assert(ls.take(i + 1).drop_last() =~= ls.take(i as int));
            if i == 0 {
                assert(joined_lines(ls.take(1)) == escaped(ls[0]));
            }
        }
        i = i + 1;
    }
    assert(ls.take(count as int) =~= ls);
}

/// A text with line breaks, as markup.
pub fn with_line_breaks(text: &str) -> (r: String)
    ensures
        r@ == line_breaks(text@),
{
    let mut out = String::new();
    proof {
        reveal_strlit("");
    }
    push_line_breaks(&mut out, text);
    out
}


// ─────────────────────────────────────────────────────────────────────────────
// Rendering context
// ─────────────────────────────────────────────────────────────────────────────

/// Everything needed to render one language version.
pub struct Ctx<'a> {
    pub config: &'a Config,
    /// The language being rendered.
    pub lang: &'a str,
    /// Language to fall back to when a translation is missing.
    pub fallback: &'a str,
    pub strings: &'a Strings,
    /// (code, display name, path relative to the output root) for the
    /// language switcher. The path is `""` for the default language and
    /// something like `"en/"` for the rest.
    pub languages: &'a [(String, String, String)],
    /// Prefix that gets this page back to the output root: `""` for the
    /// default language, `"../"` for a language in a subdirectory.
    pub prefix: &'a str,
}

impl<'a> Ctx<'a> {
    /// A translatable value in the current language.
    pub open spec fn tr(&self, text: Text) -> Seq<char> {
        text.text_in(self.lang@, self.fallback@)
    }

    /// A UI phrase in the current language.
    pub open spec fn ui(&self, key: Seq<char>) -> Seq<char> {
        self.strings.ui(key)
    }

    /// An asset path as seen from this page. Stylesheets, scripts and images
    /// live in one copy at the output root, shared by every language version.
    pub open spec fn asset(&self, path: Seq<char>) -> Seq<char> {
        self.prefix@ + path
    }

    /// A link to another language version; an empty href isn't valid when
    /// pointing at the index of the same directory.
    pub open spec fn relative(&self, path: Seq<char>) -> Seq<char> {
        if (self.prefix@ + path).len() == 0 {
            "./"@
        } else {
            self.prefix@ + path
        }
    }

    pub fn t<'t>(&self, text: &'t Text) -> (r: &'t str)
        ensures
            r@ == self.tr(*text),
    {
        text.get(self.lang, self.fallback)
    }

    pub fn asset_path(&self, path: &str) -> (r: String)
        ensures
            r@ == self.asset(path@),
    {
        concat(self.prefix, path)
    }

    pub fn relative_path(&self, path: &str) -> (r: String)
        ensures
            r@ == self.relative(path@),
    {
        let joined = concat(self.prefix, path);
        if joined.as_str().is_empty() {
            proof {
                reveal_strlit("");
            }
            owned("./")
        } else {
            joined
        }
    }
}

/// Bookkeeping for writing a fragment piece by piece: `acc` is what has been
/// written after `start`; appending `piece` extends it.
pub proof fn grow(start: Seq<char>, acc: Seq<char>, piece: Seq<char>) -> (r: Seq<char>)
    ensures
        r == acc + piece,
        (start + acc) + piece == start + r,
{
    assert((start + acc) + piece =~= start + (acc + piece));
    acc + piece
}

pub proof fn begin(start: Seq<char>)
    ensures
        start == start + Seq::<char>::empty(),
{
    assert(start =~= start + Seq::<char>::empty());
}

/// An attribute with an escaped value.
pub open spec fn attr(name: Seq<char>, value: Seq<char>) -> Seq<char> {
    " "@ + name + "=\""@ + escaped(value) + "\""@
}

pub fn push_attr(out: &mut String, name: &str, value: &str)
    ensures
        final(out)@ == old(out)@ + attr(name@, value@),
{
    let ghost start = old(out)@;
    push_raw(out, " ");
    push_raw(out, name);
    push_raw(out, "=\"");
    push_text(out, value);
    push_raw(out, "\"");
    assert(out@ =~= start + attr(name@, value@));
}

/// An element with escaped text inside: `open`, the text, `close`.
pub open spec fn wrapped(open: Seq<char>, text: Seq<char>, close: Seq<char>) -> Seq<char> {
    open + escaped(text) + close
}

pub fn push_wrapped(out: &mut String, open: &str, text: &str, close: &str)
    ensures
        final(out)@ == old(out)@ + wrapped(open@, text@, close@),
{
    let ghost start = old(out)@;
    push_raw(out, open);
    push_text(out, text);
    push_raw(out, close);
    assert(out@ =~= start + wrapped(open@, text@, close@));
}

/// The same element around a translatable value, when there is one.
pub open spec fn optional(c: Ctx, open: Seq<char>, text: Option<Text>, close: Seq<char>) -> Seq<
    char,
> {
    match text {
        Some(t) => wrapped(open, c.tr(t), close),
        None => Seq::empty(),
    }
}

pub fn push_optional(c: &Ctx, out: &mut String, open: &str, text: &Option<Text>, close: &str)
    ensures
        final(out)@ == old(out)@ + optional(*c, open@, *text, close@),
{
    match text {
        Some(t) => push_wrapped(out, open, c.t(t), close),
        None => {
            assert(out@ =~= out@ + Seq::<char>::empty());
        },
    }
}

/// An inline `<svg>` holding built-in artwork.
pub open spec fn icon_svg(open: Seq<char>, body: Seq<char>) -> Seq<char> {
    open + body + "</svg>"@
}

// ─────────────────────────────────────────────────────────────────────────────
// Socials
// ─────────────────────────────────────────────────────────────────────────────

/// The visible name of a social link: its own label, else the platform's name.
pub open spec fn social_label(c: Ctx, s: Social) -> Seq<char> {
    match s.label {
        Some(l) => c.tr(l),
        None => c.ui(s.platform.key_of()),
    }
}

/// One social link. A user-supplied icon always wins over the built-in glyph
/// (those merely evoke the brand mark); it is referenced with `<image>`
/// rather than inlined, since inlining someone else's file could smuggle in
/// a script.
pub open spec fn social_html(c: Ctx, s: Social) -> Seq<char> {
    "<a class=\"pf-social\""@ + attr("href"@, s.url@)
        + " target=\"_blank\" rel=\"noopener noreferrer me\">"@ + wrapped(
        "<span class=\"pf-sr-only\">"@,
        social_label(c, s),
        "</span>"@,
    ) + "<svg viewBox=\"0 0 24 24\" aria-hidden=\"true\" focusable=\"false\">"@ + match s.icon {
        Some(icon) => "<image"@ + attr("href"@, c.asset(icon.0@)) + " width=\"24\" height=\"24\"></image>"@,
        None => icons::platform_of(s.platform),
    } + "</svg></a>"@
}

pub fn push_social(c: &Ctx, out: &mut String, s: &Social)
    ensures
        final(out)@ == old(out)@ + social_html(*c, *s),
{
    let ghost start = old(out)@;
    push_raw(out, "<a class=\"pf-social\"");
    push_attr(out, "href", s.url.as_str());
    push_raw(out, " target=\"_blank\" rel=\"noopener noreferrer me\">");
    let label = match &s.label {
        Some(l) => c.t(l),
        None => c.strings.get(s.platform.locale_key()),
    };
    push_wrapped(out, "<span class=\"pf-sr-only\">", label, "</span>");
    push_raw(out, "<svg viewBox=\"0 0 24 24\" aria-hidden=\"true\" focusable=\"false\">");
    let ghost mid = out@;
    match &s.icon {
        Some(icon) => {
            push_raw(out, "<image");
            let src = c.asset_path(icon.0.as_str());
            push_attr(out, "href", src.as_str());
            push_raw(out, " width=\"24\" height=\"24\"></image>");
        },
        None => push_raw(out, icons::platform(s.platform)),
    }
    push_raw(out, "</svg></a>");
    assert(out@ =~= start + social_html(*c, *s));
}

// ─────────────────────────────────────────────────────────────────────────────
// Decoration
// ─────────────────────────────────────────────────────────────────────────────

/// Background decoration: purely decorative, so hidden from screen readers.
pub open spec fn decoration_html(c: Ctx) -> Seq<char> {
    match c.config.theme.decoration {
        None => Seq::empty(),
        Some(Decoration::Preset { name }) => "<div class=\"pf-decor\" aria-hidden=\"true\">"@
            + icon_svg(
            "<svg class=\"pf-decor__top\" viewBox=\"0 0 400 190\" preserveAspectRatio=\"xMidYMin slice\">"@,
            decor::top_of(name),
        ) + icon_svg(
            "<svg class=\"pf-decor__bottom\" viewBox=\"0 0 400 150\" preserveAspectRatio=\"xMidYMax slice\">"@,
            decor::bottom_of(name),
        ) + "</div>"@,
        Some(Decoration::Custom { top, bottom }) => "<div class=\"pf-decor\" aria-hidden=\"true\">"@
            + match top {
            Some(t) => "<img class=\"pf-decor__top\""@ + attr("src"@, c.asset(t.0@)) + " alt=\"\">"@,
            None => Seq::empty(),
        } + match bottom {
            Some(b) => "<img class=\"pf-decor__bottom\""@ + attr("src"@, c.asset(b.0@)) + " alt=\"\">"@,
            None => Seq::empty(),
        } + "</div>"@,
    }
}

pub fn push_decoration(c: &Ctx, out: &mut String)
    ensures
        final(out)@ == old(out)@ + decoration_html(*c),
{
    let ghost start = old(out)@;
    match &c.config.theme.decoration {
        None => {
            assert(out@ =~= start + Seq::<char>::empty());
        },
        Some(Decoration::Preset { name }) => {
            push_raw(out, "<div class=\"pf-decor\" aria-hidden=\"true\">");
            push_raw(
                out,
                "<svg class=\"pf-decor__top\" viewBox=\"0 0 400 190\" preserveAspectRatio=\"xMidYMin slice\">",
            );
            push_raw(out, decor::top(*name));
            push_raw(out, "</svg>");
            push_raw(
                out,
                "<svg class=\"pf-decor__bottom\" viewBox=\"0 0 400 150\" preserveAspectRatio=\"xMidYMax slice\">",
            );
            push_raw(out, decor::bottom(*name));
            push_raw(out, "</svg>");
            push_raw(out, "</div>");
            assert(out@ =~= start + decoration_html(*c));
        },
        Some(Decoration::Custom { top, bottom }) => {
            push_raw(out, "<div class=\"pf-decor\" aria-hidden=\"true\">");
            let ghost a = out@;
            match top {
                Some(t) => {
                    push_raw(out, "<img class=\"pf-decor__top\"");
                    let src = c.asset_path(t.0.as_str());
                    push_attr(out, "src", src.as_str());
                    push_raw(out, " alt=\"\">");
                },
                None => {},
            }
            let ghost b = out@;
            match bottom {
                Some(x) => {
                    push_raw(out, "<img class=\"pf-decor__bottom\"");
                    let src = c.asset_path(x.0.as_str());
                    push_attr(out, "src", src.as_str());
                    push_raw(out, " alt=\"\">");
                },
                None => {},
            }
            push_raw(out, "</div>");
            assert(out@ =~= start + decoration_html(*c));
        },
    }
}


// ─────────────────────────────────────────────────────────────────────────────
// Section bodies
// ─────────────────────────────────────────────────────────────────────────────

/// One tag. Emoji here are decorative — a screen reader spelling out
/// "fire cooking" would just get in the way — so the icon is hidden from it.
pub open spec fn tag_html(c: Ctx, t: Tag) -> Seq<char> {
    "<li class=\"pf-tag\">"@ + match t {
        Tag::WithIcon { icon, .. } => wrapped(
            "<span class=\"pf-tag__icon\" aria-hidden=\"true\">"@,
            icon@,
            "</span>"@,
        ),
        Tag::Simple(_) => Seq::empty(),
    } + escaped(c.tr(t.text_of())) + "</li>"@
}

pub open spec fn tags_html(c: Ctx, items: Seq<Tag>) -> Seq<char>
    decreases items.len(),
{
    if items.len() == 0 {
        Seq::empty()
    } else {
        tags_html(c, items.drop_last()) + tag_html(c, items.last())
    }
}

pub fn push_tags(c: &Ctx, out: &mut String, items: &Vec<Tag>)
    ensures
        final(out)@ == old(out)@ + tags_html(*c, items@),
{
    let ghost start = old(out)@;
    let n = items.len();
    let mut i: usize = 0;
    while i < n
        invariant
            n == items@.len(),
            i <= n,
            out@ == start + tags_html(*c, items@.take(i as int)),
        decreases n - i,
    {
        let t = &items[i];
        let ghost before = out@;
        push_raw(out, "<li class=\"pf-tag\">");
        match t.icon() {
            Some(icon) => push_wrapped(
                out,
                "<span class=\"pf-tag__icon\" aria-hidden=\"true\">",
                icon,
                "</span>",
            ),
            None => {},
        }
        push_text(out, c.t(t.text()));
        push_raw(out, "</li>");
        proof {
            assert(items@.take(i + 1).drop_last() =~= items@.take(i as int));
            assert(out@ =~= before + tag_html(*c, items@[i as int]));
        }
        i = i + 1;
    }
    assert(items@.take(n as int) =~= items@);
}

/// A timeline entry's title, linked when it has a URL.
pub open spec fn timeline_title_html(c: Ctx, it: TimelineItem) -> Seq<char> {
    match it.url {
        Some(u) => "<a"@ + attr("href"@, u@) + " target=\"_blank\" rel=\"noopener noreferrer\">"@
            + escaped(c.tr(it.title)) + "</a>"@,
        None => escaped(c.tr(it.title)),
    }
}

/// A timeline entry's description, with its line breaks.
pub open spec fn timeline_desc_html(c: Ctx, it: TimelineItem) -> Seq<char> {
    match it.description {
        Some(d) => "<p class=\"pf-timeline__desc\">"@ + line_breaks(c.tr(d)) + "</p>"@,
        None => Seq::empty(),
    }
}

/// One timeline entry.
pub open spec fn timeline_item_html(c: Ctx, it: TimelineItem) -> Seq<char> {
    "<li class=\"pf-timeline__item\">"@ + optional(
        c,
        "<p class=\"pf-timeline__period\">"@,
        it.period,
        "</p>"@,
    ) + "<h3 class=\"pf-timeline__title\">"@ + timeline_title_html(c, it) + "</h3>"@ + optional(
        c,
        "<p class=\"pf-timeline__subtitle\">"@,
        it.subtitle,
        "</p>"@,
    ) + timeline_desc_html(c, it) + "</li>"@
}

/// The enabled entries, in order.
pub open spec fn timeline_html(c: Ctx, items: Seq<TimelineItem>) -> Seq<char>
    decreases items.len(),
{
    if items.len() == 0 {
        Seq::empty()
    } else {
        timeline_html(c, items.drop_last()) + if items.last().enabled {
            timeline_item_html(c, items.last())
        } else {
            Seq::empty()
        }
    }
}

pub fn push_timeline_item(c: &Ctx, out: &mut String, it: &TimelineItem)
    ensures
        final(out)@ == old(out)@ + timeline_item_html(*c, *it),
{
    let ghost start = old(out)@;
    let ghost mut acc = Seq::<char>::empty();
    proof {
        begin(start);
    }
    push_raw(out, "<li class=\"pf-timeline__item\">");
    proof {
        acc = grow(start, acc, "<li class=\"pf-timeline__item\">"@);
    }
    push_optional(c, out, "<p class=\"pf-timeline__period\">", &it.period, "</p>");
    proof {
        acc = grow(start, acc, optional(*c, "<p class=\"pf-timeline__period\">"@, it.period, "</p>"@));
    }
    push_raw(out, "<h3 class=\"pf-timeline__title\">");
    proof {
        acc = grow(start, acc, "<h3 class=\"pf-timeline__title\">"@);
    }
    let title = c.t(&it.title);
    let ghost before = out@;
    match &it.url {
        Some(u) => {
            push_raw(out, "<a");
            push_attr(out, "href", u.as_str());
            push_raw(out, " target=\"_blank\" rel=\"noopener noreferrer\">");
            push_text(out, title);
            push_raw(out, "</a>");
            assert(out@ =~= before + timeline_title_html(*c, *it));
        },
        None => push_text(out, title),
    }
    proof {
        acc = grow(start, acc, timeline_title_html(*c, *it));
    }
    push_raw(out, "</h3>");
    proof {
        acc = grow(start, acc, "</h3>"@);
    }
    push_optional(c, out, "<p class=\"pf-timeline__subtitle\">", &it.subtitle, "</p>");
    proof {
        acc = grow(start, acc, optional(*c, "<p class=\"pf-timeline__subtitle\">"@, it.subtitle, "</p>"@));
    }
    let ghost before2 = out@;
    match &it.description {
        Some(d) => {
            push_raw(out, "<p class=\"pf-timeline__desc\">");
            push_line_breaks(out, c.t(d));
            push_raw(out, "</p>");
            assert(out@ =~= before2 + timeline_desc_html(*c, *it));
        },
        None => {
            assert(out@ =~= before2 + timeline_desc_html(*c, *it));
        },
    }
    proof {
        acc = grow(start, acc, timeline_desc_html(*c, *it));
    }
    push_raw(out, "</li>");
    proof {
        acc = grow(start, acc, "</li>"@);
    }
    assert(acc == timeline_item_html(*c, *it));
}

pub fn push_timeline(c: &Ctx, out: &mut String, items: &Vec<TimelineItem>)
    ensures
        final(out)@ == old(out)@ + timeline_html(*c, items@),
{
    let ghost start = old(out)@;
    let n = items.len();
    let mut i: usize = 0;
    while i < n
        invariant
            n == items@.len(),
            i <= n,
            out@ == start + timeline_html(*c, items@.take(i as int)),
        decreases n - i,
    {
        let ghost before = out@;
        if items[i].enabled {
            push_timeline_item(c, out, &items[i]);
        }
        proof {
            assert(items@.take(i + 1).drop_last() =~= items@.take(i as int));
            assert(out@ =~= before + if items@[i as int].enabled {
                timeline_item_html(*c, items@[i as int])
            } else {
                Seq::<char>::empty()
            });
        }
        i = i + 1;
    }
    assert(items@.take(n as int) =~= items@);
}

/// How many items are done.
pub open spec fn done_count(items: Seq<ChecklistItem>) -> nat
    decreases items.len(),
{
    if items.len() == 0 {
        0
    } else {
        done_count(items.drop_last()) + if items.last().done {
            1nat
        } else {
            0nat
        }
    }
}

/// The progress bar's share, in whole percent.
pub open spec fn percent(done: nat, total: nat) -> nat {
    if total == 0 {
        0
    } else {
        done * 100 / total
    }
}

/// The progress line. The numbers are spelled out in text too, so the bar
/// isn't the only thing conveying them.
pub open spec fn progress_html(c: Ctx, done: nat, total: nat) -> Seq<char> {
    "<p class=\"pf-progress\">"@ + wrapped(
        "<span class=\"pf-progress__label\">"@,
        crate::text::replace(
            crate::text::replace(
                c.ui("checklist.progress"@),
                crate::message::placeholder("total"@),
                crate::text::dec(total),
            ),
            crate::message::placeholder("done"@),
            crate::text::dec(done),
        ),
        "</span>"@,
    ) + "<span class=\"pf-progress__track\" aria-hidden=\"true\"><span class=\"pf-progress__bar\""@
        + attr("style"@, "--pf-progress-value: "@ + crate::text::dec(percent(done, total)) + "%"@)
        + "></span></span></p>"@
}


pub proof fn lemma_done_count(items: Seq<ChecklistItem>)
    ensures
        done_count(items) <= items.len(),
    decreases items.len(),
{
    if items.len() > 0 {
        lemma_done_count(items.drop_last());
    }
}

pub fn count_done(items: &Vec<ChecklistItem>) -> (r: u64)
    ensures
        r == done_count(items@),
{
    let n = items.len();
    let mut i: usize = 0;
    let mut k: u64 = 0;
    while i < n
        invariant
            n == items@.len(),
            i <= n,
            k == done_count(items@.take(i as int)),
            k <= i,
        decreases n - i,
    {
        assert(items@.take(i + 1).drop_last() =~= items@.take(i as int));
        if items[i].done {
            k = k + 1;
        }
        i = i + 1;
    }
    assert(items@.take(n as int) =~= items@);
    k
}

pub fn push_progress(c: &Ctx, out: &mut String, done: u64, total: u64)
    requires
        done <= total,
    ensures
        final(out)@ == old(out)@ + progress_html(*c, done as nat, total as nat),
{
    let ghost start = old(out)@;
    let pct: u64 = if total == 0 {
        0
    } else {
        let prod: u128 = (done as u128) * 100;
        let q: u128 = prod / (total as u128);
        proof {
            let di = done as int;
            let ti = total as int;
            assert(di * 100 <= ti * 100) by (nonlinear_arith)
                requires
                    di <= ti,
            ;
            assert((di * 100) / ti <= (ti * 100) / ti) by (nonlinear_arith)
                requires
                    di * 100 <= ti * 100,
                    ti > 0,
            ;
            assert((ti * 100) / ti == 100) by (nonlinear_arith)
                requires
                    ti > 0,
            ;
        }
        q as u64
    };
    assert(pct == percent(done as nat, total as nat));
    let t = crate::text::decimal(total);
    let d = crate::text::decimal(done);
    let args: [(&str, &str); 2] = [("total", t.as_str()), ("done", d.as_str())];
    let label = c.strings.format("checklist.progress", &args);
    proof {
        let a = args@;
        assert(a.drop_last().drop_last() =~= Seq::<(&str, &str)>::empty());
        assert(a.drop_last().last().0@ == "total"@ && a.drop_last().last().1@ == t@);
        assert(a.last().0@ == "done"@ && a.last().1@ == d@);
        reveal_with_fuel(crate::i18n::fill_in_order, 3);
        assert(label@ == crate::text::replace(
            crate::text::replace(
                c.ui("checklist.progress"@),
                crate::message::placeholder("total"@),
                t@,
            ),
            crate::message::placeholder("done"@),
            d@,
        ));
    }
    push_raw(out, "<p class=\"pf-progress\">");
    push_wrapped(out, "<span class=\"pf-progress__label\">", label.as_str(), "</span>");
    push_raw(
        out,
        "<span class=\"pf-progress__track\" aria-hidden=\"true\"><span class=\"pf-progress__bar\"",
    );
    let p = crate::text::decimal(pct);
    let mut style = concat("--pf-progress-value: ", p.as_str());
    style.append("%");
    push_attr(out, "style", style.as_str());
    push_raw(out, "></span></span></p>");
    assert(out@ =~= start + progress_html(*c, done as nat, total as nat));
}

/// The check mark of a done item.
pub open spec fn check_mark_html(it: ChecklistItem) -> Seq<char> {
    if it.done {
        icon_svg("<svg viewBox=\"0 0 24 24\" focusable=\"false\">"@, icons::ICON_CHECK@)
    } else {
        Seq::empty()
    }
}

/// The screen-reader prefix of a done item.
pub open spec fn done_prefix_html(c: Ctx, it: ChecklistItem) -> Seq<char> {
    if it.done {
        wrapped("<span class=\"pf-sr-only\">"@, c.ui("checklist.done_prefix"@), "</span>"@)
    } else {
        Seq::empty()
    }
}

pub open spec fn checklist_class(it: ChecklistItem) -> Seq<char> {
    if it.done {
        "pf-checklist__item pf-checklist__item--done"@
    } else {
        "pf-checklist__item"@
    }
}

/// One checklist item. The state isn't conveyed through color and
/// strikethrough alone: a done item carries a screen-reader prefix. The
/// strikethrough is scoped to the label so it doesn't run into the date.
pub open spec fn checklist_item_html(c: Ctx, it: ChecklistItem) -> Seq<char> {
    "<li"@ + attr("class"@, checklist_class(it)) + ">"@
        + "<span class=\"pf-checklist__mark\" aria-hidden=\"true\">"@ + check_mark_html(it)
        + "</span>"@ + "<span class=\"pf-checklist__text\"><span class=\"pf-checklist__label\">"@
        + done_prefix_html(c, it) + escaped(c.tr(it.text)) + "</span>"@ + optional(
        c,
        "<span class=\"pf-checklist__date\">"@,
        it.date,
        "</span>"@,
    ) + "</span>"@ + optional(c, "<span class=\"pf-checklist__note\">"@, it.note, "</span>"@)
        + "</li>"@
}

pub open spec fn checklist_html(c: Ctx, items: Seq<ChecklistItem>) -> Seq<char>
    decreases items.len(),
{
    if items.len() == 0 {
        Seq::empty()
    } else {
        checklist_html(c, items.drop_last()) + checklist_item_html(c, items.last())
    }
}

fn push_check_mark(out: &mut String, it: &ChecklistItem)
    ensures
        final(out)@ == old(out)@ + check_mark_html(*it),
{
    let ghost start = old(out)@;
    if it.done {
        push_raw(out, "<svg viewBox=\"0 0 24 24\" focusable=\"false\">");
        push_raw(out, icons::check());
        push_raw(out, "</svg>");
    }
    assert(out@ =~= start + check_mark_html(*it));
}

fn push_done_prefix(c: &Ctx, out: &mut String, it: &ChecklistItem)
    ensures
        final(out)@ == old(out)@ + done_prefix_html(*c, *it),
{
    let ghost start = old(out)@;
    if it.done {
        push_wrapped(
            out,
            "<span class=\"pf-sr-only\">",
            c.strings.get("checklist.done_prefix"),
            "</span>",
        );
    }
    assert(out@ =~= start + done_prefix_html(*c, *it));
}

pub fn push_checklist_item(c: &Ctx, out: &mut String, it: &ChecklistItem)
    ensures
        final(out)@ == old(out)@ + checklist_item_html(*c, *it),
{
    let ghost start = old(out)@;
    let mut h = owned("<li");
    let ghost mut acc = "<li"@;
    let class = if it.done {
        "pf-checklist__item pf-checklist__item--done"
    } else {
        "pf-checklist__item"
    };
    push_attr(&mut h, "class", class);
    proof {
        acc = acc + attr("class"@, checklist_class(*it));
    }
    push_raw(&mut h, ">");
    proof {
        acc = acc + ">"@;
    }
    push_raw(&mut h, "<span class=\"pf-checklist__mark\" aria-hidden=\"true\">");
    proof {
        acc = acc + "<span class=\"pf-checklist__mark\" aria-hidden=\"true\">"@;
    }
    push_check_mark(&mut h, it);
    proof {
        acc = acc + check_mark_html(*it);
    }
    push_raw(&mut h, "</span>");
    proof {
        acc = acc + "</span>"@;
    }
    push_raw(&mut h, "<span class=\"pf-checklist__text\"><span class=\"pf-checklist__label\">");
    proof {
        acc = acc + "<span class=\"pf-checklist__text\"><span class=\"pf-checklist__label\">"@;
    }
    push_done_prefix(c, &mut h, it);
    proof {
        acc = acc + done_prefix_html(*c, *it);
    }
    push_text(&mut h, c.t(&it.text));
    proof {
        acc = acc + escaped(c.tr(it.text));
    }
    push_raw(&mut h, "</span>");
    proof {
        acc = acc + "</span>"@;
    }
    push_optional(c, &mut h, "<span class=\"pf-checklist__date\">", &it.date, "</span>");
    proof {
        acc = acc + optional(*c, "<span class=\"pf-checklist__date\">"@, it.date, "</span>"@);
    }
    push_raw(&mut h, "</span>");
    proof {
        acc = acc + "</span>"@;
    }
    push_optional(c, &mut h, "<span class=\"pf-checklist__note\">", &it.note, "</span>");
    proof {
        acc = acc + optional(*c, "<span class=\"pf-checklist__note\">"@, it.note, "</span>"@);
    }
    push_raw(&mut h, "</li>");
    proof {
        acc = acc + "</li>"@;
        assert(acc == checklist_item_html(*c, *it));
    }
    push_raw(out, h.as_str());
}

pub fn push_checklist(c: &Ctx, out: &mut String, items: &Vec<ChecklistItem>)
    ensures
        final(out)@ == old(out)@ + checklist_html(*c, items@),
{
    let ghost start = old(out)@;
    let n = items.len();
    let mut i: usize = 0;
    while i < n
        invariant
            n == items@.len(),
            i <= n,
            out@ == start + checklist_html(*c, items@.take(i as int)),
        decreases n - i,
    {
        let ghost before = out@;
        push_checklist_item(c, out, &items[i]);
        proof {
            assert(items@.take(i + 1).drop_last() =~= items@.take(i as int));
        }
        i = i + 1;
    }
    assert(items@.take(n as int) =~= items@);
}


/// A link card's class: highlighted cards stand out.
pub open spec fn link_class(it: LinkItem) -> Seq<char> {
    if it.highlight {
        "pf-card pf-card--highlight"@
    } else {
        "pf-card"@
    }
}

/// A link card's thumbnail, when it has one.
pub open spec fn link_thumb_html(c: Ctx, it: LinkItem) -> Seq<char> {
    match it.thumbnail {
        Some(t) => "<img class=\"pf-card__thumb\""@ + attr("src"@, c.asset(t.0@))
            + " alt=\"\" width=\"44\" height=\"44\" loading=\"lazy\" decoding=\"async\">"@,
        None => Seq::empty(),
    }
}

/// A link card's share button, when the share menu is on.
pub open spec fn link_share_html(c: Ctx, it: LinkItem) -> Seq<char> {
    if c.config.features.share_menu {
        "<button class=\"pf-card__share\" type=\"button\""@ + attr(
            "aria-label"@,
            crate::text::replace(
                c.ui("aria.share_item"@),
                crate::message::placeholder("title"@),
                c.tr(it.title),
            ),
        ) + ">"@ + icon_svg(
            "<svg viewBox=\"0 0 24 24\" aria-hidden=\"true\" focusable=\"false\">"@,
            icons::ICON_SHARE@,
        ) + "</button>"@
    } else {
        Seq::empty()
    }
}

/// One link card. The share button is a sibling of the link, not inside it:
/// a button inside a link is invalid HTML and breaks keyboard navigation.
pub open spec fn link_card_html(c: Ctx, it: LinkItem) -> Seq<char> {
    "<li"@ + attr("class"@, link_class(it)) + ">"@ + link_thumb_html(c, it)
        + "<a class=\"pf-card__link\""@ + attr("href"@, it.url@)
        + " target=\"_blank\" rel=\"noopener noreferrer\">"@ + escaped(c.tr(it.title)) + optional(
        c,
        "<span class=\"pf-card__badge\">"@,
        it.badge,
        "</span>"@,
    ) + optional(c, "<span class=\"pf-card__subtitle\">"@, it.subtitle, "</span>"@) + "</a>"@
        + link_share_html(c, it) + "</li>"@
}

pub open spec fn links_html(c: Ctx, items: Seq<LinkItem>) -> Seq<char>
    decreases items.len(),
{
    if items.len() == 0 {
        Seq::empty()
    } else {
        links_html(c, items.drop_last()) + if items.last().enabled {
            link_card_html(c, items.last())
        } else {
            Seq::empty()
        }
    }
}

fn push_link_thumb(c: &Ctx, out: &mut String, it: &LinkItem)
    ensures
        final(out)@ == old(out)@ + link_thumb_html(*c, *it),
{
    let ghost start = old(out)@;
    match &it.thumbnail {
        Some(t) => {
            push_raw(out, "<img class=\"pf-card__thumb\"");
            let src = c.asset_path(t.0.as_str());
            push_attr(out, "src", src.as_str());
            push_raw(out, " alt=\"\" width=\"44\" height=\"44\" loading=\"lazy\" decoding=\"async\">");
        },
        None => {},
    }
    assert(out@ =~= start + link_thumb_html(*c, *it));
}

fn push_link_share(c: &Ctx, out: &mut String, it: &LinkItem)
    ensures
        final(out)@ == old(out)@ + link_share_html(*c, *it),
{
    let ghost start = old(out)@;
    if c.config.features.share_menu {
        let title = c.t(&it.title);
        push_raw(out, "<button class=\"pf-card__share\" type=\"button\"");
        let args: [(&str, &str); 1] = [("title", title)];
        let label = c.strings.format("aria.share_item", &args);
        proof {
            let a = args@;
            assert(a.drop_last() =~= Seq::<(&str, &str)>::empty());
            assert(a.last().0@ == "title"@ && a.last().1@ == title@);
            reveal_with_fuel(crate::i18n::fill_in_order, 2);
        }
        push_attr(out, "aria-label", label.as_str());
        push_raw(out, ">");
        push_raw(out, "<svg viewBox=\"0 0 24 24\" aria-hidden=\"true\" focusable=\"false\">");
        push_raw(out, icons::share());
        push_raw(out, "</svg>");
        push_raw(out, "</button>");
    }
    assert(out@ =~= start + link_share_html(*c, *it));
}

pub fn push_link_card(c: &Ctx, out: &mut String, it: &LinkItem)
    ensures
        final(out)@ == old(out)@ + link_card_html(*c, *it),
{
    let ghost start = old(out)@;
    let ghost mut acc = Seq::<char>::empty();
    proof {
        begin(start);
    }
    let title = c.t(&it.title);
    push_raw(out, "<li");
    proof {
        acc = grow(start, acc, "<li"@);
    }
    let class = if it.highlight {
        "pf-card pf-card--highlight"
    } else {
        "pf-card"
    };
    push_attr(out, "class", class);
    proof {
        acc = grow(start, acc, attr("class"@, link_class(*it)));
    }
    push_raw(out, ">");
    proof {
        acc = grow(start, acc, ">"@);
    }
    push_link_thumb(c, out, it);
    proof {
        acc = grow(start, acc, link_thumb_html(*c, *it));
    }
    push_raw(out, "<a class=\"pf-card__link\"");
    proof {
        acc = grow(start, acc, "<a class=\"pf-card__link\""@);
    }
    push_attr(out, "href", it.url.as_str());
    proof {
        acc = grow(start, acc, attr("href"@, it.url@));
    }
    push_raw(out, " target=\"_blank\" rel=\"noopener noreferrer\">");
    proof {
        acc = grow(start, acc, " target=\"_blank\" rel=\"noopener noreferrer\">"@);
    }
    push_text(out, title);
    proof {
        acc = grow(start, acc, escaped(c.tr(it.title)));
    }
    push_optional(c, out, "<span class=\"pf-card__badge\">", &it.badge, "</span>");
    proof {
        acc = grow(start, acc, optional(*c, "<span class=\"pf-card__badge\">"@, it.badge, "</span>"@));
    }
    push_optional(c, out, "<span class=\"pf-card__subtitle\">", &it.subtitle, "</span>");
    proof {
        acc = grow(
            start,
            acc,
            optional(*c, "<span class=\"pf-card__subtitle\">"@, it.subtitle, "</span>"@),
        );
    }
    push_raw(out, "</a>");
    proof {
        acc = grow(start, acc, "</a>"@);
    }
    push_link_share(c, out, it);
    proof {
        acc = grow(start, acc, link_share_html(*c, *it));
    }
    push_raw(out, "</li>");
    proof {
        acc = grow(start, acc, "</li>"@);
    }
    assert(acc == link_card_html(*c, *it));
}

pub fn push_links(c: &Ctx, out: &mut String, items: &Vec<LinkItem>)
    ensures
        final(out)@ == old(out)@ + links_html(*c, items@),
{
    let ghost start = old(out)@;
    let n = items.len();
    let mut i: usize = 0;
    while i < n
        invariant
            n == items@.len(),
            i <= n,
            out@ == start + links_html(*c, items@.take(i as int)),
        decreases n - i,
    {
        let ghost before = out@;
        if items[i].enabled {
            push_link_card(c, out, &items[i]);
        }
        proof {
            assert(items@.take(i + 1).drop_last() =~= items@.take(i as int));
            assert(out@ =~= before + if items@[i as int].enabled {
                link_card_html(*c, items@[i as int])
            } else {
                Seq::<char>::empty()
            });
        }
        i = i + 1;
    }
    assert(items@.take(n as int) =~= items@);
}

/// The visible name of a contact row: its own label, else the kind's name.
pub open spec fn contact_label(c: Ctx, it: ContactItem) -> Seq<char> {
    match it.label {
        Some(l) => c.tr(l),
        None => c.ui(it.kind.key_of()),
    }
}

/// A contact value: email and phone become `mailto:` and `tel:` links, a
/// website links out and shows without its scheme, the rest is plain text.
pub open spec fn contact_value_html(c: Ctx, it: ContactItem) -> Seq<char> {
    let value = c.tr(it.value);
    match it.kind {
        ContactKind::Email => "<a class=\"pf-contact__value\""@ + attr("href"@, "mailto:"@ + value)
            + ">"@ + escaped(value) + "</a>"@,
        ContactKind::Phone => "<a class=\"pf-contact__value\""@ + attr(
            "href"@,
            "tel:"@ + dial_chars(value),
        ) + ">"@ + escaped(value) + "</a>"@,
        ContactKind::Website => "<a class=\"pf-contact__value\""@ + attr("href"@, value)
            + " target=\"_blank\" rel=\"noopener noreferrer\">"@ + escaped(without_scheme(value))
            + "</a>"@,
        _ => wrapped("<span class=\"pf-contact__value\">"@, value, "</span>"@),
    }
}

/// One contact row.
pub open spec fn contact_row_html(c: Ctx, it: ContactItem) -> Seq<char> {
    "<li class=\"pf-contact__row\">"@ + wrapped(
        "<span class=\"pf-contact__label\">"@,
        contact_label(c, it),
        "</span>"@,
    ) + contact_value_html(c, it) + "</li>"@
}

pub open spec fn contacts_html(c: Ctx, items: Seq<ContactItem>) -> Seq<char>
    decreases items.len(),
{
    if items.len() == 0 {
        Seq::empty()
    } else {
        contacts_html(c, items.drop_last()) + contact_row_html(c, items.last())
    }
}

fn push_contact_value(c: &Ctx, out: &mut String, it: &ContactItem)
    ensures
        final(out)@ == old(out)@ + contact_value_html(*c, *it),
{
    let ghost start = old(out)@;
    let value = c.t(&it.value);
    match it.kind {
        ContactKind::Email => {
            push_raw(out, "<a class=\"pf-contact__value\"");
            let href = concat("mailto:", value);
            push_attr(out, "href", href.as_str());
            push_raw(out, ">");
            push_text(out, value);
            push_raw(out, "</a>");
        },
        ContactKind::Phone => {
            push_raw(out, "<a class=\"pf-contact__value\"");
            let digits = phone_href(value);
            let href = concat("tel:", digits.as_str());
            push_attr(out, "href", href.as_str());
            push_raw(out, ">");
            push_text(out, value);
            push_raw(out, "</a>");
        },
        ContactKind::Website => {
            push_raw(out, "<a class=\"pf-contact__value\"");
            push_attr(out, "href", value);
            push_raw(out, " target=\"_blank\" rel=\"noopener noreferrer\">");
            let shown = strip_scheme(value);
            push_text(out, shown.as_str());
            push_raw(out, "</a>");
        },
        _ => push_wrapped(out, "<span class=\"pf-contact__value\">", value, "</span>"),
    }
    assert(out@ =~= start + contact_value_html(*c, *it));
}

pub fn push_contact_row(c: &Ctx, out: &mut String, it: &ContactItem)
    ensures
        final(out)@ == old(out)@ + contact_row_html(*c, *it),
{
    let ghost start = old(out)@;
    let label = match &it.label {
        Some(l) => c.t(l),
        None => c.strings.get(it.kind.locale_key()),
    };
    push_raw(out, "<li class=\"pf-contact__row\">");
    push_wrapped(out, "<span class=\"pf-contact__label\">", label, "</span>");
    push_contact_value(c, out, it);
    push_raw(out, "</li>");
    assert(out@ =~= start + contact_row_html(*c, *it));
}

pub fn push_contacts(c: &Ctx, out: &mut String, items: &Vec<ContactItem>)
    ensures
        final(out)@ == old(out)@ + contacts_html(*c, items@),
{
    let ghost start = old(out)@;
    let n = items.len();
    let mut i: usize = 0;
    while i < n
        invariant
            n == items@.len(),
            i <= n,
            out@ == start + contacts_html(*c, items@.take(i as int)),
        decreases n - i,
    {
        push_contact_row(c, out, &items[i]);
        proof {
            assert(items@.take(i + 1).drop_last() =~= items@.take(i as int));
        }
        i = i + 1;
    }
    assert(items@.take(n as int) =~= items@);
}

/// Paragraphs of the about text, each with its line breaks.
pub open spec fn about_html(ps: Seq<Seq<char>>) -> Seq<char>
    decreases ps.len(),
{
    if ps.len() == 0 {
        Seq::empty()
    } else {
        about_html(ps.drop_last()) + "<p>"@ + line_breaks(ps.last()) + "</p>"@
    }
}

/// A section's body, by type.
pub open spec fn section_body_html(c: Ctx, b: SectionBody) -> Seq<char> {
    match b {
        SectionBody::About { body } => "<div class=\"pf-about\">"@ + about_html(
            paragraphs_of(c.tr(body)),
        ) + "</div>"@,
        SectionBody::Timeline { items } => "<ol class=\"pf-timeline\">"@ + timeline_html(c, items@)
            + "</ol>"@,
        SectionBody::Checklist { items, show_progress } => (if show_progress && items@.len() > 0 {
            progress_html(c, done_count(items@), items@.len())
        } else {
            Seq::empty()
        }) + "<ul class=\"pf-checklist\">"@ + checklist_html(c, items@) + "</ul>"@,
        SectionBody::Tags { items } => "<ul class=\"pf-tags\">"@ + tags_html(c, items@) + "</ul>"@,
        SectionBody::Links { items } => "<ul class=\"pf-links\">"@ + links_html(c, items@) + "</ul>"@,
        SectionBody::Contact { items } => "<ul class=\"pf-contact\">"@ + contacts_html(c, items@)
            + "</ul>"@,
    }
}

pub fn push_about(c: &Ctx, out: &mut String, body: &Text)
    ensures
        final(out)@ == old(out)@ + about_html(paragraphs_of(c.tr(*body))),
{
    let ghost start = old(out)@;
    let ps = paragraphs(c.t(body));
    let ghost pv = views(ps@);
    let n = ps.len();
    let mut i: usize = 0;
    while i < n
        invariant
            n == ps@.len(),
            pv == views(ps@),
            i <= n,
            out@ == start + about_html(pv.take(i as int)),
        decreases n - i,
    {
        let ghost before = out@;
        push_raw(out, "<p>");
        push_line_breaks(out, ps[i].as_str());
        push_raw(out, "</p>");
        proof {
            assert(pv.take(i + 1).drop_last() =~= pv.take(i as int));
            assert(out@ =~= before + "<p>"@ + line_breaks(pv[i as int]) + "</p>"@);
        }
        i = i + 1;
    }
    assert(pv.take(n as int) =~= pv);
}

pub fn push_section_body(c: &Ctx, out: &mut String, b: &SectionBody)
    ensures
        final(out)@ == old(out)@ + section_body_html(*c, *b),
{
    let ghost start = old(out)@;
    match b {
        SectionBody::About { body } => {
            push_raw(out, "<div class=\"pf-about\">");
            push_about(c, out, body);
            push_raw(out, "</div>");
        },
        SectionBody::Timeline { items } => {
            push_raw(out, "<ol class=\"pf-timeline\">");
            push_timeline(c, out, items);
            push_raw(out, "</ol>");
        },
        SectionBody::Checklist { items, show_progress } => {
            if *show_progress && items.len() > 0 {
                let done = count_done(items);
                proof {
                    lemma_done_count(items@);
                }
                push_progress(c, out, done, items.len() as u64);
            }
            push_raw(out, "<ul class=\"pf-checklist\">");
            push_checklist(c, out, items);
            push_raw(out, "</ul>");
        },
        SectionBody::Tags { items } => {
            push_raw(out, "<ul class=\"pf-tags\">");
            push_tags(c, out, items);
            push_raw(out, "</ul>");
        },
        SectionBody::Links { items } => {
            push_raw(out, "<ul class=\"pf-links\">");
            push_links(c, out, items);
            push_raw(out, "</ul>");
        },
        SectionBody::Contact { items } => {
            push_raw(out, "<ul class=\"pf-contact\">");
            push_contacts(c, out, items);
            push_raw(out, "</ul>");
        },
    }
    assert(out@ =~= start + section_body_html(*c, *b));
}

/// A section: its title (with a decorative icon) and its body.
pub open spec fn section_html(c: Ctx, s: Section) -> Seq<char> {
    "<section class=\"pf-section\">"@ + match s.title {
        Some(t) => "<h2 class=\"pf-section__title\">"@ + match s.icon {
            Some(i) => wrapped(
                "<span class=\"pf-section__icon\" aria-hidden=\"true\">"@,
                i@,
                "</span>"@,
            ),
            None => Seq::empty(),
        } + escaped(c.tr(t)) + "</h2>"@,
        None => Seq::empty(),
    } + section_body_html(c, s.body) + "</section>"@
}

pub fn push_section(c: &Ctx, out: &mut String, s: &Section)
    ensures
        final(out)@ == old(out)@ + section_html(*c, *s),
{
    let ghost start = old(out)@;
    push_raw(out, "<section class=\"pf-section\">");
    match &s.title {
        Some(t) => {
            push_raw(out, "<h2 class=\"pf-section__title\">");
            match &s.icon {
                Some(i) => push_wrapped(
                    out,
                    "<span class=\"pf-section__icon\" aria-hidden=\"true\">",
                    i.as_str(),
                    "</span>",
                ),
                None => {},
            }
            push_text(out, c.t(t));
            push_raw(out, "</h2>");
        },
        None => {},
    }
    push_section_body(c, out, &s.body);
    push_raw(out, "</section>");
    assert(out@ =~= start + section_html(*c, *s));
}


// ─────────────────────────────────────────────────────────────────────────────
// Hero
// ─────────────────────────────────────────────────────────────────────────────

/// The avatar: the photo, or with no photo the name's first character. The
/// placeholder is purely decorative and hidden from screen readers, so the
/// name isn't read out twice.
pub open spec fn avatar_html(c: Ctx) -> Seq<char> {
    match c.config.profile.avatar {
        Some(a) => "<img class=\"pf-avatar\""@ + attr("src"@, c.asset(a.0@))
            + " alt=\"\" width=\"96\" height=\"96\" decoding=\"async\">"@,
        None => wrapped(
            "<div class=\"pf-avatar pf-avatar--placeholder\" aria-hidden=\"true\">"@,
            first_char(c.tr(c.config.profile.name)),
            "</div>"@,
        ),
    }
}

pub open spec fn location_html(c: Ctx) -> Seq<char> {
    match c.config.profile.location {
        Some(l) => "<p class=\"pf-location\">"@ + icon_svg(
            "<svg viewBox=\"0 0 24 24\" aria-hidden=\"true\" focusable=\"false\">"@,
            icons::ICON_LOCATION@,
        ) + escaped(c.tr(l)) + "</p>"@,
        None => Seq::empty(),
    }
}

pub open spec fn bio_html(c: Ctx) -> Seq<char> {
    match c.config.profile.bio {
        Some(b) => "<p class=\"pf-bio\">"@ + line_breaks(c.tr(b)) + "</p>"@,
        None => Seq::empty(),
    }
}

pub open spec fn social_list_html(c: Ctx, items: Seq<Social>) -> Seq<char>
    decreases items.len(),
{
    if items.len() == 0 {
        Seq::empty()
    } else {
        social_list_html(c, items.drop_last()) + social_html(c, items.last())
    }
}

pub open spec fn socials_html(c: Ctx) -> Seq<char> {
    if c.config.socials@.len() > 0 {
        "<nav class=\"pf-socials\""@ + attr("aria-label"@, c.ui("aria.social_nav"@)) + ">"@
            + social_list_html(c, c.config.socials@) + "</nav>"@
    } else {
        Seq::empty()
    }
}

/// The contact-saving and sharing buttons, as the features turn them on.
pub open spec fn actions_html(c: Ctx) -> Seq<char> {
    let f = c.config.features;
    if f.vcard_download || f.share_menu {
        "<div class=\"pf-actions\">"@ + (if f.vcard_download {
            wrapped(
                "<button class=\"pf-action pf-action--primary\" type=\"button\" data-action=\"vcard\">"@,
                c.ui("action.save_contact"@),
                "</button>"@,
            )
        } else {
            Seq::empty()
        }) + (if f.share_menu {
            wrapped(
                "<button class=\"pf-action\" type=\"button\" data-action=\"share-page\">"@,
                c.ui("action.share"@),
                "</button>"@,
            )
        } else {
            Seq::empty()
        }) + "</div>"@
    } else {
        Seq::empty()
    }
}

/// The card's header: avatar, name, tagline, location, bio, socials and actions.
pub open spec fn hero_html(c: Ctx) -> Seq<char> {
    let p = c.config.profile;
    "<header class=\"pf-hero\">"@ + avatar_html(c) + wrapped(
        "<h1 class=\"pf-name\">"@,
        c.tr(p.name),
        "</h1>"@,
    ) + optional(c, "<p class=\"pf-tagline\">"@, p.tagline, "</p>"@) + location_html(c) + bio_html(
        c,
    ) + socials_html(c) + actions_html(c) + "</header>"@
}

fn push_avatar(c: &Ctx, out: &mut String)
    ensures
        final(out)@ == old(out)@ + avatar_html(*c),
{
    let ghost start = old(out)@;
    match &c.config.profile.avatar {
        Some(a) => {
            push_raw(out, "<img class=\"pf-avatar\"");
            let src = c.asset_path(a.0.as_str());
            push_attr(out, "src", src.as_str());
            push_raw(out, " alt=\"\" width=\"96\" height=\"96\" decoding=\"async\">");
        },
        None => {
            let first = first_grapheme(c.t(&c.config.profile.name));
            push_wrapped(
                out,
                "<div class=\"pf-avatar pf-avatar--placeholder\" aria-hidden=\"true\">",
                first.as_str(),
                "</div>",
            );
        },
    }
    assert(out@ =~= start + avatar_html(*c));
}

fn push_location(c: &Ctx, out: &mut String)
    ensures
        final(out)@ == old(out)@ + location_html(*c),
{
    let ghost start = old(out)@;
    match &c.config.profile.location {
        Some(l) => {
            push_raw(out, "<p class=\"pf-location\">");
            push_raw(out, "<svg viewBox=\"0 0 24 24\" aria-hidden=\"true\" focusable=\"false\">");
            push_raw(out, icons::location());
            push_raw(out, "</svg>");
            push_text(out, c.t(l));
            push_raw(out, "</p>");
        },
        None => {},
    }
    assert(out@ =~= start + location_html(*c));
}

fn push_bio(c: &Ctx, out: &mut String)
    ensures
        final(out)@ == old(out)@ + bio_html(*c),
{
    let ghost start = old(out)@;
    match &c.config.profile.bio {
        Some(b) => {
            push_raw(out, "<p class=\"pf-bio\">");
            push_line_breaks(out, c.t(b));
            push_raw(out, "</p>");
        },
        None => {},
    }
    assert(out@ =~= start + bio_html(*c));
}

fn push_socials(c: &Ctx, out: &mut String)
    ensures
        final(out)@ == old(out)@ + socials_html(*c),
{
    let ghost start = old(out)@;
    let items = &c.config.socials;
    if items.len() > 0 {
        push_raw(out, "<nav class=\"pf-socials\"");
        push_attr(out, "aria-label", c.strings.get("aria.social_nav"));
        push_raw(out, ">");
        let ghost mid = out@;
        let n = items.len();
        let mut i: usize = 0;
        while i < n
            invariant
                n == items@.len(),
                i <= n,
                out@ == mid + social_list_html(*c, items@.take(i as int)),
            decreases n - i,
        {
            push_social(c, out, &items[i]);
            proof {
                assert(items@.take(i + 1).drop_last() =~= items@.take(i as int));
            }
            i = i + 1;
        }
        assert(items@.take(n as int) =~= items@);
        push_raw(out, "</nav>");
    }
    assert(out@ =~= start + socials_html(*c));
}

fn push_actions(c: &Ctx, out: &mut String)
    ensures
        final(out)@ == old(out)@ + actions_html(*c),
{
    let ghost start = old(out)@;
    let f = &c.config.features;
    if f.vcard_download || f.share_menu {
        push_raw(out, "<div class=\"pf-actions\">");
        if f.vcard_download {
            push_wrapped(
                out,
                "<button class=\"pf-action pf-action--primary\" type=\"button\" data-action=\"vcard\">",
                c.strings.get("action.save_contact"),
                "</button>",
            );
        }
        if f.share_menu {
            push_wrapped(
                out,
                "<button class=\"pf-action\" type=\"button\" data-action=\"share-page\">",
                c.strings.get("action.share"),
                "</button>",
            );
        }
        push_raw(out, "</div>");
    }
    assert(out@ =~= start + actions_html(*c));
}

pub fn push_hero(c: &Ctx, out: &mut String)
    ensures
        final(out)@ == old(out)@ + hero_html(*c),
{
    let ghost start = old(out)@;
    let ghost mut acc = Seq::<char>::empty();
    proof {
        begin(start);
    }
    let p = &c.config.profile;
    push_raw(out, "<header class=\"pf-hero\">");
    proof {
        acc = grow(start, acc, "<header class=\"pf-hero\">"@);
    }
    push_avatar(c, out);
    proof {
        acc = grow(start, acc, avatar_html(*c));
    }
    push_wrapped(out, "<h1 class=\"pf-name\">", c.t(&p.name), "</h1>");
    proof {
        acc = grow(start, acc, wrapped("<h1 class=\"pf-name\">"@, c.tr(p.name), "</h1>"@));
    }
    push_optional(c, out, "<p class=\"pf-tagline\">", &p.tagline, "</p>");
    proof {
        acc = grow(start, acc, optional(*c, "<p class=\"pf-tagline\">"@, p.tagline, "</p>"@));
    }
    push_location(c, out);
    proof {
        acc = grow(start, acc, location_html(*c));
    }
    push_bio(c, out);
    proof {
        acc = grow(start, acc, bio_html(*c));
    }
    push_socials(c, out);
    proof {
        acc = grow(start, acc, socials_html(*c));
    }
    push_actions(c, out);
    proof {
        acc = grow(start, acc, actions_html(*c));
    }
    push_raw(out, "</header>");
    proof {
        acc = grow(start, acc, "</header>"@);
    }
    assert(acc == hero_html(*c));
}

// ─────────────────────────────────────────────────────────────────────────────
// Language switcher, footer, data blocks
// ─────────────────────────────────────────────────────────────────────────────

/// One entry of the language switcher: the current language as plain text,
/// the others as links.
pub open spec fn language_item_html(c: Ctx, e: (String, String, String)) -> Seq<char> {
    if e.0@ == c.lang@ {
        wrapped(
            "<span class=\"pf-language pf-language--current\" aria-current=\"true\">"@,
            e.1@,
            "</span>"@,
        )
    } else {
        "<a class=\"pf-language\""@ + attr("href"@, c.relative(e.2@)) + attr("hreflang"@, e.0@) + ">"@
            + escaped(e.1@) + "</a>"@
    }
}

pub open spec fn language_items_html(c: Ctx, es: Seq<(String, String, String)>) -> Seq<char>
    decreases es.len(),
{
    if es.len() == 0 {
        Seq::empty()
    } else {
        language_items_html(c, es.drop_last()) + language_item_html(c, es.last())
    }
}

/// The language switcher: a list of links rather than a `<select>`, since
/// each language is a separate static page — it works without JavaScript
/// and search engines can crawl it. Nothing when there's only one language.
pub open spec fn language_switcher_html(c: Ctx) -> Seq<char> {
    if c.languages@.len() < 2 {
        Seq::empty()
    } else {
        "<nav class=\"pf-languages\""@ + attr("aria-label"@, c.ui("aria.language_nav"@)) + ">"@
            + language_items_html(c, c.languages@) + "</nav>"@
    }
}

pub fn push_language_switcher(c: &Ctx, out: &mut String)
    ensures
        final(out)@ == old(out)@ + language_switcher_html(*c),
{
    let ghost start = old(out)@;
    let es = c.languages;
    if es.len() >= 2 {
        push_raw(out, "<nav class=\"pf-languages\"");
        push_attr(out, "aria-label", c.strings.get("aria.language_nav"));
        push_raw(out, ">");
        let ghost mid = out@;
        let n = es.len();
        let mut i: usize = 0;
        while i < n
            invariant
                n == es@.len(),
                i <= n,
                out@ == mid + language_items_html(*c, es@.take(i as int)),
            decreases n - i,
        {
            let e = &es[i];
            let ghost before = out@;
            if crate::text::str_eq(e.0.as_str(), c.lang) {
                push_wrapped(
                    out,
                    "<span class=\"pf-language pf-language--current\" aria-current=\"true\">",
                    e.1.as_str(),
                    "</span>",
                );
            } else {
                push_raw(out, "<a class=\"pf-language\"");
                let href = c.relative_path(e.2.as_str());
                push_attr(out, "href", href.as_str());
                push_attr(out, "hreflang", e.0.as_str());
                push_raw(out, ">");
                push_text(out, e.1.as_str());
                push_raw(out, "</a>");
            }
            proof {
                assert(out@ =~= before + language_item_html(*c, es@[i as int]));
                assert(es@.take(i + 1).drop_last() =~= es@.take(i as int));
            }
            i = i + 1;
        }
        assert(es@.take(n as int) =~= es@);
        push_raw(out, "</nav>");
    }
    assert(out@ =~= start + language_switcher_html(*c));
}

/// The footer: the owner's own line and the "powered by" credit, as
/// configured; nothing at all when both are off.
pub open spec fn footer_html(c: Ctx) -> Seq<char> {
    let f = c.config.footer;
    if f.text is None && !f.show_powered_by {
        Seq::empty()
    } else {
        "<footer class=\"pf-footer\">"@ + optional(c, "<p class=\"pf-footer__powered\">"@, f.text, "</p>"@)
            + (if f.show_powered_by {
            "<p class=\"pf-footer__powered\">"@ + escaped(c.ui("footer.powered_by"@))
                + " <a href=\"https://github.com/example/profileit\" rel=\"noopener\">ProfileIT</a></p>"@
        } else {
            Seq::empty()
        }) + "</footer>"@
    }
}

pub fn push_footer(c: &Ctx, out: &mut String)
    ensures
        final(out)@ == old(out)@ + footer_html(*c),
{
    let ghost start = old(out)@;
    let f = &c.config.footer;
    let has_text = match &f.text {
        Some(_) => true,
        None => false,
    };
    if has_text || f.show_powered_by {
        push_raw(out, "<footer class=\"pf-footer\">");
        push_optional(c, out, "<p class=\"pf-footer__powered\">", &f.text, "</p>");
        if f.show_powered_by {
            push_raw(out, "<p class=\"pf-footer__powered\">");
            push_text(out, c.strings.get("footer.powered_by"));
            push_raw(
                out,
                " <a href=\"https://github.com/example/profileit\" rel=\"noopener\">ProfileIT</a></p>",
            );
        }
        push_raw(out, "</footer>");
    }
    assert(out@ =~= start + footer_html(*c));
}


/// The browser's strings as a JSON object, keys in order. card.js reads this
/// block; hardcoding one language into the script would show its toasts in
/// that language on every version.
pub open spec fn client_json(c: Ctx) -> Seq<char> {
    "{"@ + json_string("toast.copied"@) + ":"@ + json_string(c.ui("toast.copied"@)) + ","@
        + json_string("toast.copy_failed"@) + ":"@ + json_string(c.ui("toast.copy_failed"@)) + ","@
        + json_string("toast.vcard_failed"@) + ":"@ + json_string(c.ui("toast.vcard_failed"@))
        + ","@ + json_string("toast.vcard_saved"@) + ":"@ + json_string(c.ui("toast.vcard_saved"@))
        + "}"@
}

pub open spec fn client_strings_html(c: Ctx) -> Seq<char> {
    "<script type=\"application/json\" id=\"pf-strings\">"@ + client_json(c) + "</script>"@
}

fn client_json_text(c: &Ctx) -> (r: String)
    ensures
        r@ == client_json(*c),
{
    let mut out = owned("{");
    let ghost mut acc = "{"@;
    push_json_string(&mut out, "toast.copied");
    proof {
        acc = acc + json_string("toast.copied"@);
    }
    push_raw(&mut out, ":");
    proof {
        acc = acc + ":"@;
    }
    push_json_string(&mut out, c.strings.get("toast.copied"));
    proof {
        acc = acc + json_string(c.ui("toast.copied"@));
    }
    push_raw(&mut out, ",");
    proof {
        acc = acc + ","@;
    }
    push_json_string(&mut out, "toast.copy_failed");
    proof {
        acc = acc + json_string("toast.copy_failed"@);
    }
    push_raw(&mut out, ":");
    proof {
        acc = acc + ":"@;
    }
    push_json_string(&mut out, c.strings.get("toast.copy_failed"));
    proof {
        acc = acc + json_string(c.ui("toast.copy_failed"@));
    }
    push_raw(&mut out, ",");
    proof {
        acc = acc + ","@;
    }
    push_json_string(&mut out, "toast.vcard_failed");
    proof {
        acc = acc + json_string("toast.vcard_failed"@);
    }
    push_raw(&mut out, ":");
    proof {
        acc = acc + ":"@;
    }
    push_json_string(&mut out, c.strings.get("toast.vcard_failed"));
    proof {
        acc = acc + json_string(c.ui("toast.vcard_failed"@));
    }
    push_raw(&mut out, ",");
    proof {
        acc = acc + ","@;
    }
    push_json_string(&mut out, "toast.vcard_saved");
    proof {
        acc = acc + json_string("toast.vcard_saved"@);
    }
    push_raw(&mut out, ":");
    proof {
        acc = acc + ":"@;
    }
    push_json_string(&mut out, c.strings.get("toast.vcard_saved"));
    proof {
        acc = acc + json_string(c.ui("toast.vcard_saved"@));
    }
    push_raw(&mut out, "}");
    proof {
        acc = acc + "}"@;
        assert(acc == client_json(*c));
    }
    out
}

pub fn push_client_strings(c: &Ctx, out: &mut String)
    ensures
        final(out)@ == old(out)@ + client_strings_html(*c),
{
    let ghost start = old(out)@;
    let json = client_json_text(c);
    push_raw(out, "<script type=\"application/json\" id=\"pf-strings\">");
    push_raw(out, json.as_str());
    push_raw(out, "</script>");
    assert(out@ =~= start + client_strings_html(*c));
}

/// The contact items of the visible sections, in order.
pub open spec fn visible_contacts(secs: Seq<Section>) -> Seq<ContactItem>
    decreases secs.len(),
{
    if secs.len() == 0 {
        Seq::empty()
    } else {
        visible_contacts(secs.drop_last()) + match secs.last().body {
            SectionBody::Contact { items } => if secs.last().enabled {
                items@
            } else {
                Seq::empty()
            },
            _ => Seq::empty(),
        }
    }
}

/// The first value of the given kind, in the current language.
pub open spec fn first_of_kind(c: Ctx, items: Seq<ContactItem>, kind: ContactKind) -> Option<
    Seq<char>,
>
    decreases items.len(),
{
    if items.len() == 0 {
        None
    } else {
        match first_of_kind(c, items.drop_last(), kind) {
            Some(v) => Some(v),
            None => if items.last().kind == kind {
                Some(c.tr(items.last().value))
            } else {
                None
            },
        }
    }
}

/// A JSON value: a string, or `null`.
pub open spec fn json_opt(v: Option<Seq<char>>) -> Seq<char> {
    match v {
        Some(s) => json_string(s),
        None => "null"@,
    }
}

pub open spec fn opt_tr(c: Ctx, t: Option<Text>) -> Option<Seq<char>> {
    match t {
        Some(x) => Some(c.tr(x)),
        None => None,
    }
}

/// The data a saved contact card (vCard) is made from: the name, tagline and
/// location, and the first email, phone and website among the visible
/// contact rows — the site's own address wins for the website. Reading this
/// block is safer than scraping the display markup: saving keeps working
/// when labels change or a section is hidden. Keys come in order.
pub open spec fn vcard_url(c: Ctx) -> Option<Seq<char>> {
    match c.config.site.base_url {
        Some(u) => Some(u@),
        None => first_of_kind(c, visible_contacts(c.config.sections@), ContactKind::Website),
    }
}

pub open spec fn vcard_json(c: Ctx) -> Seq<char> {
    let cfg = c.config;
    let contacts = visible_contacts(cfg.sections@);
    let url = vcard_url(c);
    "{\"email\":"@ + json_opt(first_of_kind(c, contacts, ContactKind::Email)) + ",\"location\":"@
        + json_opt(opt_tr(c, cfg.profile.location)) + ",\"name\":"@ + json_string(
        c.tr(cfg.profile.name),
    ) + ",\"phone\":"@ + json_opt(first_of_kind(c, contacts, ContactKind::Phone)) + ",\"tagline\":"@
        + json_opt(opt_tr(c, cfg.profile.tagline)) + ",\"url\":"@ + json_opt(url) + "}"@
}

pub open spec fn vcard_html(c: Ctx) -> Seq<char> {
    "<script type=\"application/json\" id=\"pf-vcard-data\">"@ + vcard_json(c) + "</script>"@
}

pub open spec fn opt_str(o: Option<String>) -> Option<Seq<char>> {
    match o {
        Some(s) => Some(s@),
        None => None,
    }
}

/// Finds the first contact value of each kind among the visible sections.
fn find_contacts(c: &Ctx) -> (r: (Option<String>, Option<String>, Option<String>))
    ensures
        opt_str(r.0) == first_of_kind(*c, visible_contacts(c.config.sections@), ContactKind::Email),
        opt_str(r.1) == first_of_kind(*c, visible_contacts(c.config.sections@), ContactKind::Phone),
        opt_str(r.2) == first_of_kind(
            *c,
            visible_contacts(c.config.sections@),
            ContactKind::Website,
        ),
{
    let secs = &c.config.sections;
    let n = secs.len();
    let mut email: Option<String> = None;
    let mut phone: Option<String> = None;
    let mut site: Option<String> = None;
    let mut i: usize = 0;
    while i < n
        invariant
            n == secs@.len(),
            i <= n,
            opt_str(email) == first_of_kind(*c, visible_contacts(secs@.take(i as int)), ContactKind::Email),
            opt_str(phone) == first_of_kind(*c, visible_contacts(secs@.take(i as int)), ContactKind::Phone),
            opt_str(site) == first_of_kind(*c, visible_contacts(secs@.take(i as int)), ContactKind::Website),
        decreases n - i,
    {
        let ghost seen = visible_contacts(secs@.take(i as int));
        proof {
            assert(secs@.take(i + 1).drop_last() =~= secs@.take(i as int));
        }
        let sec = &secs[i];
        if sec.enabled {
            match &sec.body {
                SectionBody::Contact { items } => {
                    let m = items.len();
                    let mut j: usize = 0;
                    assert(seen + items@.take(0) =~= seen);
                    while j < m
                        invariant
                            m == items@.len(),
                            j <= m,
                            opt_str(email) == first_of_kind(*c, seen + items@.take(j as int), ContactKind::Email),
                            opt_str(phone) == first_of_kind(*c, seen + items@.take(j as int), ContactKind::Phone),
                            opt_str(site) == first_of_kind(*c, seen + items@.take(j as int), ContactKind::Website),
                        decreases m - j,
                    {
                        let it = &items[j];
                        proof {
                            assert((seen + items@.take(j + 1)).drop_last() =~= seen + items@.take(j as int));
                            assert((seen + items@.take(j + 1)).last() == items@[j as int]);
                        }
                        let is_email = match email {
                            None => match it.kind {
                                ContactKind::Email => true,
                                _ => false,
                            },
                            Some(_) => false,
                        };
                        let is_phone = match phone {
                            None => match it.kind {
                                ContactKind::Phone => true,
                                _ => false,
                            },
                            Some(_) => false,
                        };
                        let is_site = match site {
                            None => match it.kind {
                                ContactKind::Website => true,
                                _ => false,
                            },
                            Some(_) => false,
                        };
                        if is_email {
                            email = Some(owned(c.t(&it.value)));
                        }
                        if is_phone {
                            phone = Some(owned(c.t(&it.value)));
                        }
                        if is_site {
                            site = Some(owned(c.t(&it.value)));
                        }
                        j = j + 1;
                    }
                    assert(items@.take(m as int) =~= items@);
                },
                _ => {
                    assert(seen + Seq::<ContactItem>::empty() =~= seen);
                },
            }
        } else {
            assert(seen + Seq::<ContactItem>::empty() =~= seen);
        }
        i = i + 1;
    }
    assert(secs@.take(n as int) =~= secs@);
    (email, phone, site)
}

fn push_json_opt(out: &mut String, v: &Option<String>)
    ensures
        final(out)@ == old(out)@ + json_opt(opt_str(*v)),
{
    match v {
        Some(s) => push_json_string(out, s.as_str()),
        None => push_raw(out, "null"),
    }
}

fn tr_opt(c: &Ctx, t: &Option<Text>) -> (r: Option<String>)
    ensures
        opt_str(r) == opt_tr(*c, *t),
{
    match t {
        Some(x) => Some(owned(c.t(x))),
        None => None,
    }
}

fn vcard_json_text(c: &Ctx) -> (r: String)
    ensures
        r@ == vcard_json(*c),
{
    let cfg = c.config;
    let (email, phone, found_site) = find_contacts(c);
    let url = match &cfg.site.base_url {
        Some(u) => Some(owned(u.as_str())),
        None => found_site,
    };
    let ghost contacts = visible_contacts(cfg.sections@);
    let ghost url_v = vcard_url(*c);
    assert(opt_str(url) == url_v);
    let mut out = owned("{\"email\":");
    let ghost mut acc = "{\"email\":"@;
    push_json_opt(&mut out, &email);
    proof {
        acc = acc + json_opt(first_of_kind(*c, contacts, ContactKind::Email));
    }
    push_raw(&mut out, ",\"location\":");
    proof {
        acc = acc + ",\"location\":"@;
    }
    let location = tr_opt(c, &cfg.profile.location);
    push_json_opt(&mut out, &location);
    proof {
        acc = acc + json_opt(opt_tr(*c, cfg.profile.location));
    }
    push_raw(&mut out, ",\"name\":");
    proof {
        acc = acc + ",\"name\":"@;
    }
    push_json_string(&mut out, c.t(&cfg.profile.name));
    proof {
        acc = acc + json_string(c.tr(cfg.profile.name));
    }
    push_raw(&mut out, ",\"phone\":");
    proof {
        acc = acc + ",\"phone\":"@;
    }
    push_json_opt(&mut out, &phone);
    proof {
        acc = acc + json_opt(first_of_kind(*c, contacts, ContactKind::Phone));
    }
    push_raw(&mut out, ",\"tagline\":");
    proof {
        acc = acc + ",\"tagline\":"@;
    }
    let tagline = tr_opt(c, &cfg.profile.tagline);
    push_json_opt(&mut out, &tagline);
    proof {
        acc = acc + json_opt(opt_tr(*c, cfg.profile.tagline));
    }
    push_raw(&mut out, ",\"url\":");
    proof {
        acc = acc + ",\"url\":"@;
    }
    push_json_opt(&mut out, &url);
    proof {
        acc = acc + json_opt(url_v);
    }
    push_raw(&mut out, "}");
    proof {
        acc = acc + "}"@;
        assert(acc == vcard_json(*c));
    }
    out
}

pub fn push_vcard(c: &Ctx, out: &mut String)
    ensures
        final(out)@ == old(out)@ + vcard_html(*c),
{
    let ghost start = old(out)@;
    let json = vcard_json_text(c);
    push_raw(out, "<script type=\"application/json\" id=\"pf-vcard-data\">");
    push_raw(out, json.as_str());
    push_raw(out, "</script>");
    assert(out@ =~= start + vcard_html(*c));
}

// ─────────────────────────────────────────────────────────────────────────────
// <head>
// ─────────────────────────────────────────────────────────────────────────────

/// The theme tokens. styles.css only consumes these values.
pub open spec fn theme_block(cfg: Config) -> Seq<char> {
    ":root {\n"@ + crate::theme::theme_css(cfg.theme) + "}\n"@
}

/// `<link rel="alternate">` for every language version, so search engines
/// know the other versions exist.
pub open spec fn alternates_html(canonical: Option<Seq<char>>, es: Seq<(String, String, String)>) -> Seq<char>
    decreases es.len(),
{
    if es.len() == 0 {
        Seq::empty()
    } else {
        alternates_html(canonical, es.drop_last()) + "<link rel=\"alternate\""@ + attr(
            "hreflang"@,
            es.last().0@,
        ) + attr("href"@, absolute(canonical, es.last().2@)) + ">"@
    }
}

pub open spec fn stylesheets_html(urls: Seq<Seq<char>>) -> Seq<char>
    decreases urls.len(),
{
    if urls.len() == 0 {
        Seq::empty()
    } else {
        stylesheets_html(urls.drop_last()) + "<link rel=\"stylesheet\""@ + attr("href"@, urls.last())
            + ">"@
    }
}

pub open spec fn description_html(c: Ctx, property: bool) -> Seq<char> {
    match c.config.site.description {
        Some(d) => (if property {
            "<meta property=\"og:description\""@
        } else {
            "<meta name=\"description\""@
        }) + attr("content"@, c.tr(d)) + ">"@,
        None => Seq::empty(),
    }
}

pub open spec fn canonical_html(c: Ctx) -> Seq<char> {
    match c.config.site.base_url {
        Some(u) => "<link rel=\"canonical\""@ + attr("href"@, u@) + ">"@ + "<meta property=\"og:url\""@
            + attr("content"@, u@) + ">"@,
        None => Seq::empty(),
    }
}

pub open spec fn favicon_html(c: Ctx) -> Seq<char> {
    match c.config.site.favicon {
        Some(f) => "<link rel=\"icon\""@ + attr("href"@, c.asset(f.0@)) + ">"@,
        None => Seq::empty(),
    }
}

/// The sharing image, made absolute — most platforms ignore a relative one —
/// and the matching Twitter card size.
pub open spec fn og_image_html(c: Ctx) -> Seq<char> {
    match c.config.site.og_image {
        Some(img) => "<meta property=\"og:image\""@ + attr(
            "content"@,
            absolute(opt_str(c.config.site.base_url), img.0@),
        ) + ">"@ + "<meta name=\"twitter:card\" content=\"summary_large_image\">"@,
        None => "<meta name=\"twitter:card\" content=\"summary\">"@,
    }
}

pub open spec fn head_html(c: Ctx) -> Seq<char> {
    let site = c.config.site;
    let title = c.tr(site.title);
    "<head>"@ + "<meta charset=\"utf-8\">"@
        + "<meta name=\"viewport\" content=\"width=device-width, initial-scale=1\">"@ + wrapped(
        "<title>"@,
        title,
        "</title>"@,
    ) + description_html(c, false) + canonical_html(c) + alternates_html(
        opt_str(site.base_url),
        c.languages@,
    ) + favicon_html(c) + "<meta property=\"og:type\" content=\"profile\">"@
        + "<meta property=\"og:title\""@ + attr("content"@, title) + ">"@ + description_html(c, true)
        + og_image_html(c) + stylesheets_html(
        crate::config::dedup(c.config.theme.font.stylesheet_candidates()),
    ) + "<link rel=\"stylesheet\""@ + attr("href"@, c.asset("styles.css"@)) + ">"@ + wrapped(
        "<style>"@,
        theme_block(*c.config),
        "</style>"@,
    ) + "</head>"@
}

fn push_description(c: &Ctx, out: &mut String, property: bool)
    ensures
        final(out)@ == old(out)@ + description_html(*c, property),
{
    let ghost start = old(out)@;
    match &c.config.site.description {
        Some(d) => {
            if property {
                push_raw(out, "<meta property=\"og:description\"");
            } else {
                push_raw(out, "<meta name=\"description\"");
            }
            push_attr(out, "content", c.t(d));
            push_raw(out, ">");
        },
        None => {},
    }
    assert(out@ =~= start + description_html(*c, property));
}

fn push_canonical(c: &Ctx, out: &mut String)
    ensures
        final(out)@ == old(out)@ + canonical_html(*c),
{
    let ghost start = old(out)@;
    match &c.config.site.base_url {
        Some(u) => {
            push_raw(out, "<link rel=\"canonical\"");
            push_attr(out, "href", u.as_str());
            push_raw(out, ">");
            push_raw(out, "<meta property=\"og:url\"");
            push_attr(out, "content", u.as_str());
            push_raw(out, ">");
        },
        None => {},
    }
    assert(out@ =~= start + canonical_html(*c));
}

fn as_opt_str(o: &Option<String>) -> (r: Option<&str>)
    ensures
        match r {
            Some(x) => opt_str(*o) == Some(x@),
            None => opt_str(*o) is None,
        },
{
    match o {
        Some(s) => Some(s.as_str()),
        None => None,
    }
}

fn push_alternates(c: &Ctx, out: &mut String)
    ensures
        final(out)@ == old(out)@ + alternates_html(opt_str(c.config.site.base_url), c.languages@),
{
    let ghost start = old(out)@;
    let base = as_opt_str(&c.config.site.base_url);
    let es = c.languages;
    let n = es.len();
    let mut i: usize = 0;
    while i < n
        invariant
            n == es@.len(),
            i <= n,
            base matches Some(x) ==> opt_str(c.config.site.base_url) == Some(x@),
            base is None ==> opt_str(c.config.site.base_url) is None,
            out@ == start + alternates_html(opt_str(c.config.site.base_url), es@.take(i as int)),
        decreases n - i,
    {
        let e = &es[i];
        let ghost before = out@;
        push_raw(out, "<link rel=\"alternate\"");
        push_attr(out, "hreflang", e.0.as_str());
        let href = absolute_url(base, e.2.as_str());
        push_attr(out, "href", href.as_str());
        push_raw(out, ">");
        proof {
            assert(es@.take(i + 1).drop_last() =~= es@.take(i as int));
            assert(href@ == absolute(opt_str(c.config.site.base_url), es@[i as int].2@));
        }
        i = i + 1;
    }
    assert(es@.take(n as int) =~= es@);
}

fn push_favicon(c: &Ctx, out: &mut String)
    ensures
        final(out)@ == old(out)@ + favicon_html(*c),
{
    let ghost start = old(out)@;
    match &c.config.site.favicon {
        Some(f) => {
            push_raw(out, "<link rel=\"icon\"");
            let href = c.asset_path(f.0.as_str());
            push_attr(out, "href", href.as_str());
            push_raw(out, ">");
        },
        None => {},
    }
    assert(out@ =~= start + favicon_html(*c));
}

fn push_og_image(c: &Ctx, out: &mut String)
    ensures
        final(out)@ == old(out)@ + og_image_html(*c),
{
    let ghost start = old(out)@;
    match &c.config.site.og_image {
        Some(img) => {
            push_raw(out, "<meta property=\"og:image\"");
            let url = absolute_url(as_opt_str(&c.config.site.base_url), img.0.as_str());
            push_attr(out, "content", url.as_str());
            push_raw(out, ">");
            push_raw(out, "<meta name=\"twitter:card\" content=\"summary_large_image\">");
        },
        None => push_raw(out, "<meta name=\"twitter:card\" content=\"summary\">"),
    }
    assert(out@ =~= start + og_image_html(*c));
}

fn push_stylesheets(out: &mut String, urls: &Vec<String>)
    ensures
        final(out)@ == old(out)@ + stylesheets_html(views(urls@)),
{
    let ghost start = old(out)@;
    let n = urls.len();
    let mut i: usize = 0;
    while i < n
        invariant
            n == urls@.len(),
            i <= n,
            out@ == start + stylesheets_html(views(urls@).take(i as int)),
        decreases n - i,
    {
        push_raw(out, "<link rel=\"stylesheet\"");
        push_attr(out, "href", urls[i].as_str());
        push_raw(out, ">");
        proof {
            assert(views(urls@).take(i + 1).drop_last() =~= views(urls@).take(i as int));
        }
        i = i + 1;
    }
    assert(views(urls@).take(n as int) =~= views(urls@));
}

pub fn theme_block_text(config: &Config) -> (r: String)
    ensures
        r@ == theme_block(*config),
{
    let vars = crate::theme::css_variables(&config.theme);
    crate::text::concat3(":root {\n", vars.as_str(), "}\n")
}

pub fn push_head(c: &Ctx, out: &mut String)
    ensures
        final(out)@ == old(out)@ + head_html(*c),
{
    let ghost start = old(out)@;
    let ghost mut acc = Seq::<char>::empty();
    proof {
        begin(start);
    }
    let site = &c.config.site;
    let title = c.t(&site.title);
    push_raw(out, "<head>");
    proof {
        acc = grow(start, acc, "<head>"@);
    }
    push_raw(out, "<meta charset=\"utf-8\">");
    proof {
        acc = grow(start, acc, "<meta charset=\"utf-8\">"@);
    }
    push_raw(out, "<meta name=\"viewport\" content=\"width=device-width, initial-scale=1\">");
    proof {
        acc = grow(
            start,
            acc,
            "<meta name=\"viewport\" content=\"width=device-width, initial-scale=1\">"@,
        );
    }
    push_wrapped(out, "<title>", title, "</title>");
    proof {
        acc = grow(start, acc, wrapped("<title>"@, title@, "</title>"@));
    }
    push_description(c, out, false);
    proof {
        acc = grow(start, acc, description_html(*c, false));
    }
    push_canonical(c, out);
    proof {
        acc = grow(start, acc, canonical_html(*c));
    }
    push_alternates(c, out);
    proof {
        acc = grow(start, acc, alternates_html(opt_str(site.base_url), c.languages@));
    }
    push_favicon(c, out);
    proof {
        acc = grow(start, acc, favicon_html(*c));
    }
    push_raw(out, "<meta property=\"og:type\" content=\"profile\">");
    proof {
        acc = grow(start, acc, "<meta property=\"og:type\" content=\"profile\">"@);
    }
    push_raw(out, "<meta property=\"og:title\"");
    proof {
        acc = grow(start, acc, "<meta property=\"og:title\""@);
    }
    push_attr(out, "content", title);
    proof {
        acc = grow(start, acc, attr("content"@, title@));
    }
    push_raw(out, ">");
    proof {
        acc = grow(start, acc, ">"@);
    }
    push_description(c, out, true);
    proof {
        acc = grow(start, acc, description_html(*c, true));
    }
    push_og_image(c, out);
    proof {
        acc = grow(start, acc, og_image_html(*c));
    }
    let urls = c.config.theme.font.stylesheet_urls();
    push_stylesheets(out, &urls);
    proof {
        acc = grow(
            start,
            acc,
            stylesheets_html(crate::config::dedup(c.config.theme.font.stylesheet_candidates())),
        );
    }
    push_raw(out, "<link rel=\"stylesheet\"");
    proof {
        acc = grow(start, acc, "<link rel=\"stylesheet\""@);
    }
    let css = c.asset_path("styles.css");
    push_attr(out, "href", css.as_str());
    proof {
        acc = grow(start, acc, attr("href"@, c.asset("styles.css"@)));
    }
    push_raw(out, ">");
    proof {
        acc = grow(start, acc, ">"@);
    }
    let block = theme_block_text(c.config);
    push_wrapped(out, "<style>", block.as_str(), "</style>");
    proof {
        acc = grow(start, acc, wrapped("<style>"@, theme_block(*c.config), "</style>"@));
    }
    push_raw(out, "</head>");
    proof {
        acc = grow(start, acc, "</head>"@);
    }
    assert(acc == head_html(*c));
}

// ─────────────────────────────────────────────────────────────────────────────
// <body> and the page
// ─────────────────────────────────────────────────────────────────────────────

pub open spec fn card_style_name(s: crate::config::CardStyle) -> Seq<char> {
    match s {
        crate::config::CardStyle::Fill => "fill"@,
        crate::config::CardStyle::Outline => "outline"@,
        crate::config::CardStyle::Glass => "glass"@,
    }
}

pub open spec fn sections_html(c: Ctx, secs: Seq<Section>) -> Seq<char>
    decreases secs.len(),
{
    if secs.len() == 0 {
        Seq::empty()
    } else {
        sections_html(c, secs.drop_last()) + section_html(c, secs.last())
    }
}

/// The script and what it reads, only when a button needs it.
pub open spec fn script_html(c: Ctx) -> Seq<char> {
    let f = c.config.features;
    if f.share_menu || f.vcard_download {
        "<div class=\"pf-toast\" role=\"status\" aria-live=\"polite\"></div>"@ + client_strings_html(c)
            + "<script"@ + attr("src"@, c.asset("card.js"@)) + " defer></script>"@
    } else {
        Seq::empty()
    }
}

pub open spec fn body_html(c: Ctx) -> Seq<char> {
    "<body"@ + attr("data-card-style"@, card_style_name(c.config.theme.card.style)) + ">"@
        + "<div class=\"pf-backdrop\" aria-hidden=\"true\"></div>"@ + decoration_html(c)
        + "<div class=\"pf-page\"><main class=\"pf-sheet\">"@ + hero_html(c) + sections_html(
        c,
        crate::config::visible(c.config.sections@),
    ) + "</main>"@ + language_switcher_html(c) + footer_html(c) + "</div>"@
        + (if c.config.features.vcard_download {
        vcard_html(c)
    } else {
        Seq::empty()
    }) + script_html(c) + "</body>"@
}

/// The finished HTML document.
pub open spec fn page_html(c: Ctx) -> Seq<char> {
    "<!DOCTYPE html>"@ + "<html"@ + attr("lang"@, c.lang@) + " class=\"no-js\">"@ + head_html(c)
        + body_html(c) + "</html>"@ + "\n"@
}

fn push_sections(c: &Ctx, out: &mut String)
    ensures
        final(out)@ == old(out)@ + sections_html(*c, crate::config::visible(c.config.sections@)),
{
    let ghost start = old(out)@;
    let secs = c.config.visible_sections();
    let ghost sv = secs@.map_values(|s: &Section| *s);
    let n = secs.len();
    let mut i: usize = 0;
    while i < n
        invariant
            n == secs@.len(),
            sv == secs@.map_values(|s: &Section| *s),
            sv == crate::config::visible(c.config.sections@),
            i <= n,
            out@ == start + sections_html(*c, sv.take(i as int)),
        decreases n - i,
    {
        push_section(c, out, secs[i]);
        proof {
            assert(sv.take(i + 1).drop_last() =~= sv.take(i as int));
            assert(sv[i as int] == *secs@[i as int]);
        }
        i = i + 1;
    }
    assert(sv.take(n as int) =~= sv);
}

#[verifier::spinoff_prover]
#[verifier::rlimit(30)]
fn push_script(c: &Ctx, out: &mut String)
    ensures
        final(out)@ == old(out)@ + script_html(*c),
{
    let ghost start = old(out)@;
    let f = &c.config.features;
    if f.share_menu || f.vcard_download {
        push_raw(out, "<div class=\"pf-toast\" role=\"status\" aria-live=\"polite\"></div>");
        push_client_strings(c, out);
        push_raw(out, "<script");
        let src = c.asset_path("card.js");
        push_attr(out, "src", src.as_str());
        push_raw(out, " defer></script>");
    }
    assert(out@ =~= start + script_html(*c));
}

pub fn push_body(c: &Ctx, out: &mut String)
    ensures
        final(out)@ == old(out)@ + body_html(*c),
{
    let ghost start = old(out)@;
    let ghost mut acc = Seq::<char>::empty();
    proof {
        begin(start);
    }
    let style = match c.config.theme.card.style {
        crate::config::CardStyle::Fill => "fill",
        crate::config::CardStyle::Outline => "outline",
        crate::config::CardStyle::Glass => "glass",
    };
    push_raw(out, "<body");
    proof {
        acc = grow(start, acc, "<body"@);
    }
    push_attr(out, "data-card-style", style);
    proof {
        acc = grow(start, acc, attr("data-card-style"@, card_style_name(c.config.theme.card.style)));
    }
    push_raw(out, ">");
    proof {
        acc = grow(start, acc, ">"@);
    }
    push_raw(out, "<div class=\"pf-backdrop\" aria-hidden=\"true\"></div>");
    proof {
        acc = grow(start, acc, "<div class=\"pf-backdrop\" aria-hidden=\"true\"></div>"@);
    }
    push_decoration(c, out);
    proof {
        acc = grow(start, acc, decoration_html(*c));
    }
    push_raw(out, "<div class=\"pf-page\"><main class=\"pf-sheet\">");
    proof {
        acc = grow(start, acc, "<div class=\"pf-page\"><main class=\"pf-sheet\">"@);
    }
    push_hero(c, out);
    proof {
        acc = grow(start, acc, hero_html(*c));
    }
    push_sections(c, out);
    proof {
        acc = grow(start, acc, sections_html(*c, crate::config::visible(c.config.sections@)));
    }
    push_raw(out, "</main>");
    proof {
        acc = grow(start, acc, "</main>"@);
    }
    push_language_switcher(c, out);
    proof {
        acc = grow(start, acc, language_switcher_html(*c));
    }
    push_footer(c, out);
    proof {
        acc = grow(start, acc, footer_html(*c));
    }
    push_raw(out, "</div>");
    proof {
        acc = grow(start, acc, "</div>"@);
    }
    let ghost before = out@;
    if c.config.features.vcard_download {
        push_vcard(c, out);
    } else {
        assert(out@ =~= before + Seq::<char>::empty());
    }
    proof {
        acc = grow(
            start,
            acc,
            if c.config.features.vcard_download {
                vcard_html(*c)
            } else {
                Seq::empty()
            },
        );
    }
    push_script(c, out);
    proof {
        acc = grow(start, acc, script_html(*c));
    }
    push_raw(out, "</body>");
    proof {
        acc = grow(start, acc, "</body>"@);
    }
    assert(acc == body_html(*c));
}

/// The finished HTML document for one language.
pub fn page(c: &Ctx) -> (r: String)
    ensures
        r@ == page_html(*c),
{
    let mut out = String::new();
    proof {
        reveal_strlit("");
    }
    let ghost start = out@;
    let ghost mut acc = Seq::<char>::empty();
    proof {
        begin(start);
    }
    push_raw(&mut out, "<!DOCTYPE html>");
    proof {
        acc = grow(start, acc, "<!DOCTYPE html>"@);
    }
    push_raw(&mut out, "<html");
    proof {
        acc = grow(start, acc, "<html"@);
    }
    push_attr(&mut out, "lang", c.lang);
    proof {
        acc = grow(start, acc, attr("lang"@, c.lang@));
    }
    push_raw(&mut out, " class=\"no-js\">");
    proof {
        acc = grow(start, acc, " class=\"no-js\">"@);
    }
    push_head(c, &mut out);
    proof {
        acc = grow(start, acc, head_html(*c));
    }
    push_body(c, &mut out);
    proof {
        acc = grow(start, acc, body_html(*c));
    }
    push_raw(&mut out, "</html>");
    proof {
        acc = grow(start, acc, "</html>"@);
    }
    push_raw(&mut out, "\n");
    proof {
        acc = grow(start, acc, "\n"@);
        assert(start =~= Seq::<char>::empty());
        assert(out@ =~= acc);
    }
    out
}

} // verus!
