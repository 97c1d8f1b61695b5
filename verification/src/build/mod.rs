//! What `dist/` holds.
//!
//! The output is just static files — one `index.html` per language,
//! `styles.css`, `card.js` when a button needs it, and the assets the config
//! references. No server needed; it can be dropped straight onto GitHub
//! Pages. Writing the files is the caller's part; this module decides what
//! they are.

use vstd::prelude::*;

use crate::config::{dedup, views, visible, Background, Config, Decoration, Section, SectionBody};
use crate::i18n::Strings;
use crate::render::{page, page_html, Ctx};
use crate::text::{concat, owned, str_eq};
use crate::validate::{opt_path, social_icons, thumbnails};

verus! {

/// The thumbnails of the enabled link cards of the given sections.
pub open spec fn shown_thumbnails(secs: Seq<Section>) -> Seq<Seq<char>>
    decreases secs.len(),
{
    if secs.len() == 0 {
        seq![]
    } else {
        shown_thumbnails(secs.drop_last()) + match secs.last().body {
            SectionBody::Links { items } => enabled_thumbnails(items@),
            _ => seq![],
        }
    }
}

pub open spec fn enabled_thumbnails(items: Seq<crate::config::LinkItem>) -> Seq<Seq<char>>
    decreases items.len(),
{
    if items.len() == 0 {
        seq![]
    } else {
        enabled_thumbnails(items.drop_last()) + if items.last().enabled {
            opt_path(items.last().thumbnail)
        } else {
            seq![]
        }
    }
}

/// Every file the rendered pages reference, in order: site images, the
/// avatar, social icons, thumbnails of the cards shown, the background image
/// and custom decorations. If you add an asset field to the schema, it
/// belongs here too — missed, it works locally but breaks wherever deployed.
pub open spec fn page_assets(c: Config) -> Seq<Seq<char>> {
    opt_path(c.site.og_image) + opt_path(c.site.favicon) + opt_path(c.profile.avatar)
        + social_icons(c.socials@) + shown_thumbnails(visible(c.sections@)) + (match c.theme.background {
        Background::Image { src, .. } => seq![src.0@],
        _ => seq![],
    }) + match c.theme.decoration {
        Some(Decoration::Custom { top, bottom }) => opt_path(top) + opt_path(bottom),
        _ => seq![],
    }
}

fn push_asset(out: &mut Vec<String>, a: &Option<crate::config::AssetPath>)
    ensures
        views(final(out)@) == views(old(out)@) + opt_path(*a),
{
    let ghost before = views(out@);
    if let Some(x) = a {
        out.push(owned(x.0.as_str()));
    }
    assert(views(out@) =~= before + opt_path(*a));
}

/// The files to copy next to the pages, each once even when used in two places.
pub fn collect_assets(config: &Config) -> (r: Vec<String>)
    ensures
        views(r@) == dedup(page_assets(*config)),
{
    let mut out: Vec<String> = Vec::new();
    assert(views(out@) =~= Seq::<Seq<char>>::empty());
    push_asset(&mut out, &config.site.og_image);
    push_asset(&mut out, &config.site.favicon);
    push_asset(&mut out, &config.profile.avatar);
    let ghost s1 = views(out@);
    let n = config.socials.len();
    let mut i: usize = 0;
    while i < n
        invariant
            n == config.socials@.len(),
            i <= n,
            views(out@) == s1 + social_icons(config.socials@.take(i as int)),
        decreases n - i,
    {
        push_asset(&mut out, &config.socials[i].icon);
        assert(config.socials@.take(i + 1).drop_last() =~= config.socials@.take(i as int));
        assert(views(out@) =~= s1 + social_icons(config.socials@.take(i + 1)));
        i = i + 1;
    }
    assert(config.socials@.take(n as int) =~= config.socials@);
    let ghost s2 = views(out@);
    let secs = config.visible_sections();
    let ghost sv = secs@.map_values(|s: &Section| *s);
    let m = secs.len();
    let mut k: usize = 0;
    while k < m
        invariant
            m == secs@.len(),
            sv == secs@.map_values(|s: &Section| *s),
            k <= m,
            views(out@) == s2 + shown_thumbnails(sv.take(k as int)),
        decreases m - k,
    {
        let ghost before = views(out@);
        match &secs[k].body {
            SectionBody::Links { items } => {
                let l = items.len();
                let mut j: usize = 0;
                while j < l
                    invariant
                        l == items@.len(),
                        j <= l,
                        views(out@) == before + enabled_thumbnails(items@.take(j as int)),
                    decreases l - j,
                {
                    let ghost b2 = views(out@);
                    if items[j].enabled {
                        push_asset(&mut out, &items[j].thumbnail);
                    }
                    assert(items@.take(j + 1).drop_last() =~= items@.take(j as int));
                    assert(views(out@) =~= before + enabled_thumbnails(items@.take(j + 1)));
                    j = j + 1;
                }
                assert(items@.take(l as int) =~= items@);
            },
            _ => {},
        }
        proof {
            assert(sv.take(k + 1).drop_last() =~= sv.take(k as int));
            assert(sv[k as int] == *secs@[k as int]);
            assert(views(out@) =~= s2 + shown_thumbnails(sv.take(k + 1)));
        }
        k = k + 1;
    }
    assert(sv.take(m as int) =~= sv);
    let ghost s3 = views(out@);
    match &config.theme.background {
        Background::Image { src, .. } => {
            out.push(owned(src.0.as_str()));
        },
        _ => {},
    }
    let ghost s4 = views(out@);
    match &config.theme.decoration {
        Some(Decoration::Custom { top, bottom }) => {
            push_asset(&mut out, top);
            push_asset(&mut out, bottom);
        },
        _ => {},
    }
    assert(views(out@) =~= page_assets(*config));
    crate::config::dedup_strings(&out)
}

/// Whether the pages need `card.js`: no point shipping the script when no
/// button uses it.
pub fn needs_script(config: &Config) -> (r: bool)
    ensures
        r == (config.features.share_menu || config.features.vcard_download),
{
    config.features.share_menu || config.features.vcard_download
}

/// Where a language's page goes, relative to the output root: the default
/// language at the root, the others in a folder named by their code.
pub open spec fn page_dir(lang: Seq<char>, default_lang: Seq<char>) -> Seq<char> {
    if lang == default_lang {
        Seq::empty()
    } else {
        lang + "/"@
    }
}

/// The language switcher's entries: (code, display name, path), the default
/// language at the root. `names` holds each language's display name.
pub fn language_entries(config: &Config, names: &Vec<String>) -> (r: Vec<(String, String, String)>)
    requires
        names@.len() == dedup(seq![config.site.lang@] + views(config.site.languages@)).len(),
    ensures
        r@.len() == names@.len(),
        forall|i: int|
            0 <= i < r@.len() ==> {
                let l = dedup(seq![config.site.lang@] + views(config.site.languages@))[i];
                &&& (#[trigger] r@[i]).0@ == l
                &&& r@[i].1@ == names@[i]@
                &&& r@[i].2@ == page_dir(l, config.site.lang@)
            },
{
    let langs = config.languages();
    let default_lang = config.default_language();
    let n = langs.len();
    let mut out: Vec<(String, String, String)> = Vec::new();
    let mut i: usize = 0;
    while i < n
        invariant
            n == langs@.len() == names@.len(),
            views(langs@) == dedup(seq![config.site.lang@] + views(config.site.languages@)),
            default_lang@ == config.site.lang@,
            i <= n,
            out@.len() == i,
            forall|k: int|
                0 <= k < i ==> {
                    let l = views(langs@)[k];
                    &&& (#[trigger] out@[k]).0@ == l
                    &&& out@[k].1@ == names@[k]@
                    &&& out@[k].2@ == page_dir(l, config.site.lang@)
                },
        decreases n - i,
    {
        let lang = &langs[i];
        let path = if str_eq(lang.as_str(), default_lang) {
            String::new()
        } else {
            concat(lang.as_str(), "/")
        };
        proof {
            reveal_strlit("");
            assert(views(langs@)[i as int] == lang@);
        }
        out.push((owned(lang.as_str()), owned(names[i].as_str()), path));
        i = i + 1;
    }
    out
}

/// One page of the site.
pub struct PageFile {
    /// The language it is in.
    pub lang: String,
    /// Its folder under the output root (empty for the default language).
    pub dir: String,
    pub html: String,
}

/// The page of language `l`: in its folder, rendered in `l` with the
/// default language's translations as fallback, the given UI strings and
/// language switcher entries, reaching the shared stylesheet, script and
/// assets at the output root through `../` when it sits in a folder.
pub open spec fn page_of(pf: PageFile, config: &Config, strings: Strings, entries: Seq<(String, String, String)>, l: Seq<char>) -> bool {
    &&& pf.lang@ == l
    &&& pf.dir@ == page_dir(l, config.site.lang@)
    &&& exists|c: Ctx|
        {
            &&& c.config == config
            &&& c.lang@ == l
            &&& c.fallback@ == config.site.lang@
            &&& *c.strings == strings
            &&& c.languages@ == entries
            &&& c.prefix@ == if l == config.site.lang@ {
                Seq::<char>::empty()
            } else {
                "../"@
            }
            &&& pf.html@ == page_html(c)
        }
}

/// Renders the page of every language. `strings[i]` are the UI strings of
/// the `i`-th language, `entries` the language switcher's.
pub fn render_pages(config: &Config, strings: &Vec<Strings>, entries: &Vec<(String, String, String)>) -> (r: Vec<PageFile>)
    requires
        strings@.len() == dedup(seq![config.site.lang@] + views(config.site.languages@)).len(),
    ensures
        r@.len() == strings@.len(),
        forall|i: int|
            0 <= i < r@.len() ==> #[trigger] page_of(
                r@[i],
                config,
                strings@[i],
                entries@,
                dedup(seq![config.site.lang@] + views(config.site.languages@))[i],
            ),
{
    let langs = config.languages();
    let default_lang = config.default_language();
    let n = langs.len();
    let mut out: Vec<PageFile> = Vec::new();
    let mut i: usize = 0;
    while i < n
        invariant
            n == langs@.len() == strings@.len(),
            views(langs@) == dedup(seq![config.site.lang@] + views(config.site.languages@)),
            default_lang@ == config.site.lang@,
            i <= n,
            out@.len() == i,
            forall|k: int|
                0 <= k < i ==> #[trigger] page_of(
                    out@[k],
                    config,
                    strings@[k],
                    entries@,
                    views(langs@)[k],
                ),
        decreases n - i,
    {
        let lang = &langs[i];
        let is_default = str_eq(lang.as_str(), default_lang);
        let ctx = Ctx {
            config,
            lang: lang.as_str(),
            fallback: default_lang,
            strings: &strings[i],
            languages: entries.as_slice(),
            prefix: if is_default {
                ""
            } else {
                "../"
            },
        };
        let html = page(&ctx);
        let dir = if is_default {
            String::new()
        } else {
            concat(lang.as_str(), "/")
        };
        proof {
            reveal_strlit("");
            assert(views(langs@)[i as int] == lang@);
        }
        let pf = PageFile { lang: owned(lang.as_str()), dir, html };
        proof {
            assert(pf.html@ == page_html(ctx));
            assert(ctx.config == config);
            assert(ctx.lang@ == lang@);
            assert(ctx.fallback@ == config.site.lang@);
            assert(*ctx.strings == strings@[i as int]);
            assert(ctx.languages@ == entries@);
            assert(ctx.prefix@ == if lang@ == config.site.lang@ {
                Seq::<char>::empty()
            } else {
                "../"@
            });
            assert(pf.lang@ == lang@);
            assert(pf.dir@ == page_dir(lang@, config.site.lang@));
            assert(page_of(pf, config, strings@[i as int], entries@, lang@));
        }
        let ghost prev = out@;
        out.push(pf);
        proof {
            assert forall|k: int| 0 <= k < i + 1 implies #[trigger] page_of(
                out@[k],
                config,
                strings@[k],
                entries@,
                views(langs@)[k],
            ) by {
                if k < i {
                    assert(out@[k] == prev[k]);
                }
            }
        }
        i = i + 1;
    }
    out
}

} // verus!
