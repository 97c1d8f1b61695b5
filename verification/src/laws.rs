//! Properties the library keeps across its functions, stated over the same
//! spec functions their contracts use, and proved.

use vstd::prelude::*;

use crate::build::page_assets;
use crate::config::{dedup, views, Config, Social};
use crate::deploy::{
    commit_args, join_words, redact, same_url_spec, scrubbed, step_spec, words, Action, Publish, Reply,
};
use crate::editor::{format_of, kind_chars, upload_kind_of};
use crate::i18n::{Strings, Text};
use crate::markup::{escape_char, escaped};
use crate::render::{dial_chars, nonempty_only, paragraphs_of};
use crate::save::{
    count_kept, entry_plan, find, has_key, inline_entry_plan, inline_plan, null_at, stale_inline_keys, stale_keys,
    table_plan, InlineEdit, JsonShape, TableEdit, TomlShape,
};
use crate::text::{
    contains, has_char, is_alnum, is_digit, is_ws, occurs_at, starts_with, strip_end, trim,
};
use crate::validate::{
    opt_path, social_icons,
    allowed_scheme, lang_path, languages_of, missing_diags, socials_diags, texts_of, Project, Severity, Texts,
};
use crate::{any_error, load_diagnostics};

verus! {

// ─────────────────────────────────────────────────────────────────────────────
// Escaping
// ─────────────────────────────────────────────────────────────────────────────

/// Escaped text holds no `<`, `>` or `"`: text from the config file can
/// never open or close a tag, or end an attribute value.
pub proof fn escaped_text_opens_no_tag(s: Seq<char>)
    ensures
        !has_char(escaped(s), '<'),
        !has_char(escaped(s), '>'),
        !has_char(escaped(s), '"'),
    decreases s.len(),
{
    if s.len() > 0 {
        escaped_text_opens_no_tag(s.drop_last());
        let a = escaped(s.drop_last());
        let b = escape_char(s.last());
        reveal_strlit("&amp;");
        reveal_strlit("&lt;");
        reveal_strlit("&gt;");
        reveal_strlit("&quot;");
        assert forall|i: int| 0 <= i < (a + b).len() implies (a + b)[i] != '<' && (a + b)[i] != '>'
            && (a + b)[i] != '"' by {
            if i < a.len() {
                assert((a + b)[i] == a[i]);
                assert(a[i] != '<' && a[i] != '>' && a[i] != '"') by {
                    if a[i] == '<' {
                        assert(has_char(a, '<'));
                    }
                    if a[i] == '>' {
                        assert(has_char(a, '>'));
                    }
                    if a[i] == '"' {
                        assert(has_char(a, '"'));
                    }
                }
            } else {
                assert((a + b)[i] == b[i - a.len()]);
            }
        }
    }
}

// ─────────────────────────────────────────────────────────────────────────────
// Keeping the token out of messages
// ─────────────────────────────────────────────────────────────────────────────

/// A word: non-empty, with no whitespace in it.
pub open spec fn is_word(w: Seq<char>) -> bool {
    w.len() > 0 && forall|i: int| 0 <= i < w.len() ==> !is_ws(#[trigger] w[i])
}

/// Every piece `words` yields is a word.
pub proof fn lemma_words_are_words(s: Seq<char>)
    ensures
        forall|i: int| 0 <= i < words(s).len() ==> is_word(#[trigger] words(s)[i]),
        s.len() > 0 && !is_ws(s.last()) ==> words(s).len() > 0,
    decreases s.len(),
{
    if s.len() > 0 {
        let t = s.drop_last();
        lemma_words_are_words(t);
        let w = words(t);
        if is_ws(s.last()) {
        } else if s.len() > 1 && !is_ws(s[s.len() - 2]) {
            assert(t.last() == s[s.len() - 2]);
            let nw = w.last().push(s.last());
            assert(is_word(w[w.len() - 1]));
            assert forall|i: int| 0 <= i < words(s).len() implies is_word(#[trigger] words(s)[i]) by {
                if i < w.len() - 1 {
                    assert(words(s)[i] == w[i]);
                } else {
                    assert(words(s)[i] == nw);
                    assert forall|k: int| 0 <= k < nw.len() implies !is_ws(#[trigger] nw[k]) by {
                        if k < w.last().len() {
                            assert(nw[k] == w.last()[k]);
                        }
                    }
                }
            }
        } else {
            assert forall|i: int| 0 <= i < words(s).len() implies is_word(#[trigger] words(s)[i]) by {
                if i < w.len() {
                    assert(words(s)[i] == w[i]);
                }
            }
        }
    }
}

/// A word after a whitespace (or at the very start) is its own last word.
pub proof fn lemma_words_append_word(a: Seq<char>, w: Seq<char>)
    requires
        a.len() == 0 || is_ws(a.last()),
        is_word(w),
    ensures
        words(a + w) == words(a).push(w),
    decreases w.len(),
{
    if w.len() == 1 {
        assert((a + w).drop_last() =~= a);
        assert((a + w).last() == w[0]);
        assert(seq![w[0]] =~= w);
        if a.len() > 0 {
            assert((a + w)[(a + w).len() - 2] == a.last());
        }
    } else {
        let v = w.drop_last();
        assert(is_word(v)) by {
            assert forall|i: int| 0 <= i < v.len() implies !is_ws(#[trigger] v[i]) by {
                assert(v[i] == w[i]);
            }
        }
        lemma_words_append_word(a, v);
        assert((a + w).drop_last() =~= a + v);
        assert((a + w).last() == w.last());
        assert((a + w)[(a + w).len() - 2] == v.last());
        assert(!is_ws(v.last()));
        assert(!is_ws(w.last()));
        assert(v.push(w.last()) =~= w);
        assert(words(a).push(v).update(words(a).len() as int, v.push(w.last())) =~= words(a).push(
            w,
        ));
    }
}

/// Joining words with single spaces and splitting again gives the words back.
pub proof fn lemma_split_join(ws: Seq<Seq<char>>)
    requires
        forall|i: int| 0 <= i < ws.len() ==> is_word(#[trigger] ws[i]),
    ensures
        words(join_words(ws)) == ws,
    decreases ws.len(),
{
    if ws.len() == 0 {
    } else if ws.len() == 1 {
        assert(is_word(ws[0]));
        lemma_words_append_word(Seq::empty(), ws[0]);
        assert(Seq::<char>::empty() + ws[0] =~= ws[0]);
        assert(seq![ws[0]] =~= ws);
    } else {
        let init = ws.drop_last();
        assert forall|i: int| 0 <= i < init.len() implies is_word(#[trigger] init[i]) by {
            assert(init[i] == ws[i]);
        }
        lemma_split_join(init);
        let j = join_words(init);
        reveal_strlit(" ");
        let js = j + " "@;
        assert(js.drop_last() =~= j);
        assert(js.last() == ' ');
        assert(is_ws(' '));
        assert(words(js) == words(j));
        assert(is_word(ws[ws.len() - 1]));
        lemma_words_append_word(js, ws.last());
        assert(words(j).push(ws.last()) =~= ws);
    }
}

/// Words none of which holds `p` joined by spaces don't hold `p` either,
/// when `p` has no space.
pub proof fn lemma_join_holds_no(ws: Seq<Seq<char>>, p: Seq<char>)
    requires
        p.len() > 0,
        forall|k: int| 0 <= k < p.len() ==> #[trigger] p[k] != ' ',
        forall|i: int| 0 <= i < ws.len() ==> !contains(#[trigger] ws[i], p),
    ensures
        !contains(join_words(ws), p),
    decreases ws.len(),
{
    if ws.len() == 1 {
        assert(join_words(ws) == ws[0]);
    } else if ws.len() > 1 {
        let init = ws.drop_last();
        assert forall|i: int| 0 <= i < init.len() implies !contains(#[trigger] init[i], p) by {
            assert(init[i] == ws[i]);
        }
        lemma_join_holds_no(init, p);
        let a = join_words(init);
        let last = ws.last();
        assert(!contains(last, p));
        let j = join_words(ws);
        assert(j == a + " "@ + last);
        reveal_strlit(" ");
        if contains(j, p) {
            let at = choose|at: int| occurs_at(j, p, at);
            let sub = j.subrange(at, at + p.len());
            if at + p.len() <= a.len() {
                assert(a.subrange(at, at + p.len()) =~= sub);
                assert(occurs_at(a, p, at));
            } else if at > a.len() {
                let at2 = at - a.len() - 1;
                assert(last.subrange(at2, at2 + p.len()) =~= sub);
                assert(occurs_at(last, p, at2));
            } else {
                let k = a.len() - at;
                assert(sub[k] == j[a.len() as int]);
                assert(j[a.len() as int] == ' ');
                assert(p[k] == ' ');
            }
        }
    }
}

/// A scrubbed message's words are the original's words with every word
/// that holds a token (`ghp_…`, `github_pat_…`, also glued to other text)
/// replaced by `***`, and the message holds no token prefix anywhere: a
/// token git echoes back never reaches the user.
pub proof fn scrubbed_message_holds_no_token(s: Seq<char>)
    ensures
        words(scrubbed(s)) == words(s).map_values(|w: Seq<char>| redact(w)),
        !contains(scrubbed(s), "ghp_"@),
        !contains(scrubbed(s), "github_pat_"@),
{
    lemma_words_are_words(s);
    let red = words(s).map_values(|w: Seq<char>| redact(w));
    reveal_strlit("***");
    reveal_strlit("ghp_");
    reveal_strlit("github_pat_");
    assert forall|i: int| 0 <= i < red.len() implies is_word(#[trigger] red[i]) by {
        assert(is_word(words(s)[i]));
        if red[i] == "***"@ {
            assert forall|k: int| 0 <= k < red[i].len() implies !is_ws(#[trigger] red[i][k]) by {
                assert(red[i][k] == '*');
            }
        }
    }
    lemma_split_join(red);
    assert forall|i: int| 0 <= i < red.len() implies !contains(#[trigger] red[i], "ghp_"@)
        && !contains(red[i], "github_pat_"@) by {
        let w = words(s)[i];
        if contains(w, "ghp_"@) || contains(w, "github_pat_"@) {
            assert(red[i] == "***"@);
            if contains(red[i], "ghp_"@) {
                let at = choose|at: int| occurs_at(red[i], "ghp_"@, at);
            }
            if contains(red[i], "github_pat_"@) {
                let at = choose|at: int| occurs_at(red[i], "github_pat_"@, at);
            }
        }
    }
    assert forall|k: int| 0 <= k < "ghp_"@.len() implies #[trigger] "ghp_"@[k] != ' ' by {}
    assert forall|k: int| 0 <= k < "github_pat_"@.len() implies #[trigger] "github_pat_"@[k] != ' ' by {}
    lemma_join_holds_no(red, "ghp_"@);
    lemma_join_holds_no(red, "github_pat_"@);
}

// ─────────────────────────────────────────────────────────────────────────────
// Comparing deploy addresses
// ─────────────────────────────────────────────────────────────────────────────

/// Whether two addresses are the same doesn't depend on their order, and
/// an address is the same as itself with a trailing slash: a trailing
/// slash is never reported as a mismatch.
pub proof fn trailing_slash_is_no_mismatch(a: Seq<char>, b: Seq<char>)
    ensures
        same_url_spec(a, a),
        same_url_spec(a, b) == same_url_spec(b, a),
        same_url_spec(a + "/"@, a),
{
    reveal_strlit("/");
    assert((a + "/"@).drop_last() =~= a);
    assert(strip_end(a + "/"@, '/') == strip_end(a, '/'));
}

// ─────────────────────────────────────────────────────────────────────────────
// Rendering helpers
// ─────────────────────────────────────────────────────────────────────────────

/// A `tel:` link holds only digits and `+`.
pub proof fn dial_string_holds_only_digits(s: Seq<char>)
    ensures
        forall|i: int|
            0 <= i < dial_chars(s).len() ==> is_digit(#[trigger] dial_chars(s)[i]) || dial_chars(
                s,
            )[i] == '+',
    decreases s.len(),
{
    if s.len() > 0 {
        dial_string_holds_only_digits(s.drop_last());
        let rest = dial_chars(s.drop_last());
        assert forall|i: int| 0 <= i < dial_chars(s).len() implies is_digit(
            #[trigger] dial_chars(s)[i],
        ) || dial_chars(s)[i] == '+' by {
            if i < rest.len() {
                assert(dial_chars(s)[i] == rest[i]);
            }
        }
    }
}

/// Paragraphs are never empty.
pub proof fn paragraphs_are_never_empty(text: Seq<char>)
    ensures
        forall|i: int| 0 <= i < paragraphs_of(text).len() ==> (#[trigger] paragraphs_of(text)[i]).len() > 0,
{
    lemma_nonempty_only(crate::text::split_str(text, "\n\n"@).map_values(|p: Seq<char>| crate::text::trim(p)));
}

proof fn lemma_nonempty_only(s: Seq<Seq<char>>)
    ensures
        forall|i: int| 0 <= i < nonempty_only(s).len() ==> (#[trigger] nonempty_only(s)[i]).len() > 0,
    decreases s.len(),
{
    if s.len() > 0 {
        lemma_nonempty_only(s.drop_last());
        let rest = nonempty_only(s.drop_last());
        assert forall|i: int| 0 <= i < nonempty_only(s).len() implies (
        #[trigger] nonempty_only(s)[i]).len() > 0 by {
            if i < rest.len() {
                assert(nonempty_only(s)[i] == rest[i]);
            }
        }
    }
}

// ─────────────────────────────────────────────────────────────────────────────
// Uploads
// ─────────────────────────────────────────────────────────────────────────────

/// An upload is only ever saved under one of five image extensions, and
/// its name prefix holds only ASCII letters, digits and `-` (at most 24, at
/// least one): no upload can climb out of `assets/` or plant a script.
pub proof fn uploads_stay_harmless(ext: Seq<char>, kind: Option<Seq<char>>)
    ensures
        format_of(ext) matches Some(f) ==> (f == "png"@ || f == "jpg"@ || f == "gif"@ || f
            == "webp"@ || f == "svg"@),
        0 < upload_kind_of(kind).len() <= 24,
        forall|i: int|
            0 <= i < upload_kind_of(kind).len() ==> is_alnum(#[trigger] upload_kind_of(kind)[i])
                || upload_kind_of(kind)[i] == '-',
{
    let raw = match kind {
        Some(k) => k,
        None => "image"@,
    };
    lemma_kind_chars(raw);
    reveal_strlit("image");
    let kept = kind_chars(raw);
    if kept.len() > 24 {
        assert forall|i: int| 0 <= i < 24 implies is_alnum(#[trigger] kept.take(24)[i]) || kept.take(
            24,
        )[i] == '-' by {
            assert(kept.take(24)[i] == kept[i]);
        }
    }
    if kept.len() == 0 {
        assert("image"@ =~= seq!['i', 'm', 'a', 'g', 'e']);
    }
}

proof fn lemma_kind_chars(s: Seq<char>)
    ensures
        forall|i: int|
            0 <= i < kind_chars(s).len() ==> is_alnum(#[trigger] kind_chars(s)[i]) || kind_chars(
                s,
            )[i] == '-',
    decreases s.len(),
{
    if s.len() > 0 {
        lemma_kind_chars(s.drop_last());
        let rest = kind_chars(s.drop_last());
        assert forall|i: int| 0 <= i < kind_chars(s).len() implies is_alnum(
            #[trigger] kind_chars(s)[i],
        ) || kind_chars(s)[i] == '-' by {
            if i < rest.len() {
                assert(kind_chars(s)[i] == rest[i]);
            }
        }
    }
}

// ─────────────────────────────────────────────────────────────────────────────
// Output
// ─────────────────────────────────────────────────────────────────────────────

/// Each referenced file is copied once, and every file the pages reference
/// is copied.
pub proof fn every_asset_copied_once(c: crate::config::Config)
    ensures
        dedup(page_assets(c)).no_duplicates(),
        forall|x: Seq<char>| #[trigger] dedup(page_assets(c)).contains(x) <==> page_assets(c).contains(x),
{
    crate::config::lemma_dedup(page_assets(c));
}

// ─────────────────────────────────────────────────────────────────────────────
// Translations
// ─────────────────────────────────────────────────────────────────────────────

/// A plain string is shared by every language.
pub proof fn plain_text_is_shared(v: String, lang: Seq<char>, fallback: Seq<char>)
    ensures
        Text::Plain(v).text_in(lang, fallback) == v@,
        crate::i18n::present(v@) ==> Text::Plain(v).has_lang(lang),
{
}

/// A text is empty exactly when no language has a written (non-blank)
/// string in it: `{ ko = "학력", en = "   " }` is not empty, since `ko` has one.
/// (A translation table keeps each language once, in order: its invariant.)
pub proof fn empty_text_has_no_language(t: Text)
    requires
        t matches Text::Translated(m) ==> crate::strmap::keys_sorted(m@),
    ensures
        t.blank() <==> !exists|lang: Seq<char>| #[trigger] t.has_lang(lang),
{
    match t {
        Text::Plain(v) => {
            if !t.blank() {
                assert(t.has_lang(Seq::empty()));
            }
        },
        Text::Translated(m) => {
            let s = m@;
            if t.blank() {
                assert forall|lang: Seq<char>| !#[trigger] t.has_lang(lang) by {
                    if t.has_lang(lang) {
                        let i = choose|i: int| 0 <= i < s.len() && #[trigger] s[i].0 == lang;
                        crate::strmap::lemma_map_of_index(s, i);
                        assert(!crate::i18n::present(s[i].1));
                    }
                }
            } else {
                let i = choose|i: int| 0 <= i < s.len() && crate::i18n::present(#[trigger] s[i].1);
                crate::strmap::lemma_map_of_index(s, i);
                assert(t.has_lang(s[i].0));
            }
        },
    }
}

/// An argument given with `Message::with_key` renders translated: its value
/// `@key` resolves to the phrase for `key` in whatever display language the
/// message is rendered in, never to the literal `@key`.
pub proof fn keyed_argument_renders_translated(m: crate::message::Message, name: Seq<char>, key: Seq<char>, strings: Strings)
    requires
        m@.args.contains_key(name),
        m@.args[name] == seq!['@'] + key,
    ensures
        crate::message::resolve(strings, m@.args[name]) == strings.ui(key),
{
    assert((seq!['@'] + key).skip(1) =~= key);
}

/// A key no table knows shows itself, so a missing phrase is visible as such.
pub proof fn unknown_key_shows_itself(s: Strings, key: Seq<char>)
    requires
        !s.entries_map().contains_key(key),
        !s.fallback_map().contains_key(key),
    ensures
        s.ui(key) == key,
{
}

// ─────────────────────────────────────────────────────────────────────────────
// Saving
// ─────────────────────────────────────────────────────────────────────────────

/// A key that nothing holds can't be found.
pub proof fn lemma_find_none<T>(entries: Seq<(String, T)>, key: Seq<char>)
    ensures
        find(entries, key) is None <==> !has_key(entries, key),
    decreases entries.len(),
{
    if entries.len() > 0 {
        lemma_find_none(entries.skip(1), key);
        if has_key(entries.skip(1), key) {
            let i = choose|i: int| 0 <= i < entries.skip(1).len() && (#[trigger] entries.skip(1)[i]).0@
                == key;
            assert(entries[i + 1] == entries.skip(1)[i]);
        }
        if has_key(entries, key) && entries[0].0@ != key {
            let i = choose|i: int| 0 <= i < entries.len() && (#[trigger] entries[i]).0@ == key;
            assert(entries.skip(1)[i - 1] == entries[i]);
        }
    }
}

/// The keys a table loses are all missing from the new value.
pub proof fn lemma_stale_keys_are_gone(existing: Seq<(String, TomlShape)>, new: Seq<(String, JsonShape)>)
    ensures
        forall|m: int|
            0 <= m < stale_keys(existing, new).len() ==> !has_key(new, #[trigger] stale_keys(existing, new)[m]),
    decreases existing.len(),
{
    if existing.len() > 0 {
        let rest = stale_keys(existing.drop_last(), new);
        lemma_stale_keys_are_gone(existing.drop_last(), new);
        assert forall|m: int| 0 <= m < stale_keys(existing, new).len() implies !has_key(
            new,
            #[trigger] stale_keys(existing, new)[m],
        ) by {
            if m < rest.len() {
                assert(stale_keys(existing, new)[m] == rest[m]);
            }
        }
    }
}

/// The keys an inline table loses are all missing, or `null`, in the new value.
pub proof fn lemma_stale_inline_keys_are_gone(existing: Seq<(String, TomlShape)>, new: Seq<(String, JsonShape)>)
    ensures
        forall|m: int|
            0 <= m < stale_inline_keys(existing, new).len() ==> {
                let k = #[trigger] stale_inline_keys(existing, new)[m];
                !has_key(new, k) || null_at(new, k)
            },
    decreases existing.len(),
{
    if existing.len() > 0 {
        let rest = stale_inline_keys(existing.drop_last(), new);
        lemma_stale_inline_keys_are_gone(existing.drop_last(), new);
        assert forall|m: int| 0 <= m < stale_inline_keys(existing, new).len() implies {
            let k = #[trigger] stale_inline_keys(existing, new)[m];
            !has_key(new, k) || null_at(new, k)
        } by {
            if m < rest.len() {
                assert(stale_inline_keys(existing, new)[m] == rest[m]);
            }
        }
    }
}

/// Saving removes only what is really gone: a key the merge removes from a
/// table is either missing from the new config or `null` there.
pub proof fn merge_removes_only_what_is_gone(edits: Seq<TableEdit>, existing: Seq<(String, TomlShape)>, entries: Vec<(String, JsonShape)>)
    requires
        table_plan(edits, existing, JsonShape::Object(entries)),
    ensures
        forall|i: int|
            0 <= i < edits.len() ==> (#[trigger] edits[i] matches TableEdit::Remove(k) ==> (!has_key(
                entries@,
                k@,
            ) || exists|j: int|
                0 <= j < entries@.len() && (#[trigger] entries@[j]).0@ == k@ && entries@[j].1 is Null)),
{
    let stale = stale_keys(existing, entries@);
    lemma_stale_keys_are_gone(existing, entries@);
    assert forall|i: int|
        0 <= i < edits.len() && (#[trigger] edits[i] matches TableEdit::Remove(k)) implies (match edits[i] {
        TableEdit::Remove(k) => !has_key(entries@, k@) || exists|j: int|
            0 <= j < entries@.len() && (#[trigger] entries@[j]).0@ == k@ && entries@[j].1 is Null,
        _ => true,
    }) by {
        if i >= stale.len() {
            let j = i - stale.len();
            assert(entry_plan(
                edits[stale.len() + j],
                find(existing, entries@[j].0@),
                entries@[j].0@,
                entries@[j].1,
            ));
            assert(edits[stale.len() + j] == edits[i]);
        }
    }
}

/// An inline table keeps its key order: the merge appends only keys the
/// table doesn't have yet, and removes only keys that are gone or `null`
/// in the new value; every other key is updated where it stands.
pub proof fn inline_merge_keeps_key_order(edits: Seq<InlineEdit>, existing: Seq<(String, TomlShape)>, entries: Vec<(String, JsonShape)>)
    requires
        inline_plan(edits, existing, JsonShape::Object(entries)),
    ensures
        forall|i: int|
            0 <= i < edits.len() ==> (#[trigger] edits[i] matches InlineEdit::Append(k) ==> !has_key(
                existing,
                k@,
            )),
        forall|i: int|
            0 <= i < edits.len() ==> (#[trigger] edits[i] matches InlineEdit::Remove(k) ==> (!has_key(
                entries@,
                k@,
            ) || null_at(entries@, k@))),
{
    let stale = stale_inline_keys(existing, entries@);
    lemma_stale_inline_keys_are_gone(existing, entries@);
    assert forall|i: int| 0 <= i < edits.len() && stale.len() <= i implies (match #[trigger] edits[i] {
        InlineEdit::Append(k) => !has_key(existing, k@),
        InlineEdit::Remove(_) => false,
        _ => true,
    }) by {
        lemma_kept_position(entries@, i - stale.len());
        let j = choose|j: int|
            0 <= j < entries@.len() && !(entries@[j].1 is Null) && count_kept(entries@.take(j)) == i
                - stale.len();
        assert(inline_entry_plan(
            edits[stale.len() + count_kept(entries@.take(j)) as int],
            find(existing, entries@[j].0@),
            entries@[j].0@,
            entries@[j].1,
        ));
        lemma_find_none(existing, entries@[j].0@);
    }
}

/// Each place among the kept entries belongs to one entry that isn't `null`.
pub proof fn lemma_kept_position(entries: Seq<(String, JsonShape)>, p: int)
    requires
        0 <= p < count_kept(entries),
    ensures
        exists|j: int|
            0 <= j < entries.len() && !(entries[j].1 is Null) && count_kept(entries.take(j)) == p,
    decreases entries.len(),
{
    let rest = entries.drop_last();
    if p < count_kept(rest) {
        lemma_kept_position(rest, p);
        let j = choose|j: int| 0 <= j < rest.len() && !(rest[j].1 is Null) && count_kept(rest.take(j)) == p;
        assert(rest.take(j) =~= entries.take(j));
    } else {
        assert(entries.take(entries.len() - 1) =~= rest);
    }
}

// ─────────────────────────────────────────────────────────────────────────────
// Validation stops the build
// ─────────────────────────────────────────────────────────────────────────────

/// A social link whose scheme isn't allowed gives an error among the socials' diagnostics.
pub proof fn lemma_bad_social_link_is_an_error(socials: Seq<Social>, p: Project, i: int)
    requires
        0 <= i < socials.len(),
        trim(socials[i].url@).len() > 0,
        !allowed_scheme(trim(socials[i].url@)),
    ensures
        exists|k: int|
            0 <= k < socials_diags(socials, p).len() && (#[trigger] socials_diags(socials, p)[k]).severity
                == Severity::Error,
    decreases socials.len(),
{
    let rest = socials.drop_last();
    let head = socials_diags(rest, p);
    if i == socials.len() - 1 {
        assert(socials_diags(socials, p)[head.len() as int].severity == Severity::Error);
    } else {
        assert(rest[i] == socials[i]);
        lemma_bad_social_link_is_an_error(rest, p, i);
        let k = choose|k: int| 0 <= k < head.len() && (#[trigger] head[k]).severity == Severity::Error;
        assert(socials_diags(socials, p)[k] == head[k]);
    }
}

/// A `javascript:` link, or any link whose scheme isn't `https:`, `http:`,
/// `mailto:` or `tel:`, can't reach a page: a social link with one makes
/// loading the config fail, so nothing gets built or deployed from it.
pub proof fn dangerous_social_link_stops_the_build(c: Config, source: Seq<char>, p: Project, i: int)
    requires
        0 <= i < c.socials@.len(),
        trim(c.socials@[i].url@).len() > 0,
        !allowed_scheme(trim(c.socials@[i].url@)),
    ensures
        any_error(load_diagnostics(c, source, p)),
{
    lemma_bad_social_link_is_an_error(c.socials@, p, i);
    let s = socials_diags(c.socials@, p);
    let k = choose|k: int| 0 <= k < s.len() && (#[trigger] s[k]).severity == Severity::Error;
    let before = crate::validate::schema_diags(c) + crate::validate::site_diags(c, p)
        + crate::validate::profile_diags(c, p);
    let all = load_diagnostics(c, source, p);
    assert(all[before.len() + k] == s[k]);
}

// ─────────────────────────────────────────────────────────────────────────────
// Deploying
// ─────────────────────────────────────────────────────────────────────────────

/// The git commands a deploy runs in the project itself: they read the
/// repository, fetch, forge a commit from a tree or push. None of them
/// writes the work tree or the real index.
pub open spec fn leaves_work_tree_alone(args: Seq<Seq<char>>) -> bool {
    args.len() > 0 && (args[0] == "rev-parse"@ || args[0] == "remote"@ || args[0] == "fetch"@
        || args[0] == "commit-tree"@ || args[0] == "push"@)
}

/// A deploy never touches the files being edited or what is staged: every
/// plain git command it runs is one of those above; `dist/` is staged only
/// through a temporary index of its own.
pub proof fn deploy_never_touches_the_work_tree(a: Publish, reply: Reply, b: Publish, act: Action)
    requires
        step_spec(a, reply, b, act),
    ensures
        act matches Action::Git { args } ==> leaves_work_tree_alone(views(args@)),
{
    if let Action::Git { args } = act {
        let plan = a.plan;
        let parent = if reply is Output {
            Some(crate::deploy::reply_text_of(reply))
        } else {
            None
        };
        let c = commit_args(a.tree@, plan.stamp as nat, parent);
        assert(c[0] == "commit-tree"@);
    }
}

// ─────────────────────────────────────────────────────────────────────────────
// Languages
// ─────────────────────────────────────────────────────────────────────────────

/// The languages a site is built in: the default language first (its page
/// sits at the site root), then the listed ones, each once, and no other.
pub proof fn default_language_comes_first_and_once(c: Config)
    ensures
        languages_of(c).len() > 0,
        languages_of(c)[0] == c.site.lang@,
        languages_of(c).no_duplicates(),
        forall|x: Seq<char>|
            #[trigger] languages_of(c).contains(x) <==> (x == c.site.lang@ || views(
                c.site.languages@,
            ).contains(x)),
{
    let s = seq![c.site.lang@] + views(c.site.languages@);
    crate::config::lemma_dedup(s);
    assert forall|x: Seq<char>| s.contains(x) <==> (x == c.site.lang@ || views(
        c.site.languages@,
    ).contains(x)) by {
        if s.contains(x) {
            let i = choose|i: int| 0 <= i < s.len() && s[i] == x;
            if i > 0 {
                assert(views(c.site.languages@)[i - 1] == x);
            }
        }
        if x == c.site.lang@ {
            assert(s[0] == x);
        }
        if views(c.site.languages@).contains(x) {
            let i = choose|i: int| 0 <= i < views(c.site.languages@).len() && views(c.site.languages@)[i] == x;
            assert(s[i + 1] == x);
        }
    }
}

/// Two languages with the same path are the same language.
pub proof fn lemma_lang_path_injective(a: Seq<char>, b: Seq<char>)
    requires
        lang_path(a) == lang_path(b),
    ensures
        a == b,
{
    reveal_strlit("site.languages (");
    reveal_strlit(")");
    let n: int = "site.languages ("@.len() as int;
    assert(")"@.len() == 1);
    assert(lang_path(a).len() == n + a.len() + 1);
    assert(lang_path(b).len() == n + b.len() + 1);
    assert(a.len() == b.len());
    assert(a =~= lang_path(a).subrange(n, n + a.len() as int));
    assert(b =~= lang_path(b).subrange(n, n + b.len() as int));
}

/// Missing translations come as at most one warning per language, never
/// for the default language, each at that language's path.
pub proof fn lemma_missing_roll_up(langs: Seq<Seq<char>>, texts: Texts, default_lang: Seq<char>)
    requires
        langs.no_duplicates(),
    ensures
        missing_diags(langs, texts, default_lang).len() <= langs.len(),
        forall|k: int|
            0 <= k < missing_diags(langs, texts, default_lang).len() ==> exists|i: int|
                0 <= i < langs.len() && langs[i] != default_lang && (#[trigger] missing_diags(
                    langs,
                    texts,
                    default_lang,
                )[k]).path == lang_path(#[trigger] langs[i]),
        forall|k1: int, k2: int|
            0 <= k1 < k2 < missing_diags(langs, texts, default_lang).len() ==> (#[trigger] missing_diags(
                langs,
                texts,
                default_lang,
            )[k1]).path != (#[trigger] missing_diags(langs, texts, default_lang)[k2]).path,
    decreases langs.len(),
{
    if langs.len() > 0 {
        let rest = langs.drop_last();
        let l = langs.last();
        assert(rest.no_duplicates()) by {
            assert forall|i: int, j: int| 0 <= i < j < rest.len() implies rest[i] != rest[j] by {
                assert(rest[i] == langs[i] && rest[j] == langs[j]);
            }
        }
        lemma_missing_roll_up(rest, texts, default_lang);
        let head = missing_diags(rest, texts, default_lang);
        let all = missing_diags(langs, texts, default_lang);
        assert forall|k: int| 0 <= k < head.len() implies all[k] == head[k] by {}
        assert forall|k: int| 0 <= k < all.len() implies exists|i: int|
            0 <= i < langs.len() && langs[i] != default_lang && (#[trigger] all[k]).path == lang_path(
                #[trigger] langs[i],
            ) by {
            if k < head.len() {
                let i = choose|i: int|
                    0 <= i < rest.len() && rest[i] != default_lang && head[k].path == lang_path(
                        rest[i],
                    );
                assert(langs[i] == rest[i]);
            } else {
                assert(all[k].path == lang_path(langs[langs.len() - 1]));
            }
        }
        assert forall|k1: int, k2: int| 0 <= k1 < k2 < all.len() implies (#[trigger] all[k1]).path
            != (#[trigger] all[k2]).path by {
            if k2 >= head.len() {
                let i = choose|i: int|
                    0 <= i < rest.len() && rest[i] != default_lang && head[k1].path == lang_path(
                        rest[i],
                    );
                assert(langs[i] == rest[i]);
                if all[k1].path == all[k2].path {
                    lemma_lang_path_injective(rest[i], l);
                    assert(langs[i] == langs[langs.len() - 1]);
                }
            } else {
                assert(all[k1] == head[k1] && all[k2] == head[k2]);
            }
        }
    }
}

/// Missing translations are rolled up into one line per language: at most
/// one warning for each language the site is built in, none for the default
/// language, each under that language's path.
pub proof fn missing_translations_roll_up_per_language(c: Config)
    ensures
        missing_diags(languages_of(c), texts_of(c), c.site.lang@).len() <= languages_of(c).len(),
        forall|k: int|
            0 <= k < missing_diags(languages_of(c), texts_of(c), c.site.lang@).len() ==> exists|i: int|
                0 <= i < languages_of(c).len() && languages_of(c)[i] != c.site.lang@ && (
                #[trigger] missing_diags(languages_of(c), texts_of(c), c.site.lang@)[k]).path
                    == lang_path(#[trigger] languages_of(c)[i]),
        forall|k1: int, k2: int|
            0 <= k1 < k2 < missing_diags(languages_of(c), texts_of(c), c.site.lang@).len() ==> (
            #[trigger] missing_diags(languages_of(c), texts_of(c), c.site.lang@)[k1]).path != (
            #[trigger] missing_diags(languages_of(c), texts_of(c), c.site.lang@)[k2]).path,
{
    crate::config::lemma_dedup(seq![c.site.lang@] + views(c.site.languages@));
    lemma_missing_roll_up(languages_of(c), texts_of(c), c.site.lang@);
}

// ─────────────────────────────────────────────────────────────────────────────
// What each operation is for
// ─────────────────────────────────────────────────────────────────────────────

pub proof fn lemma_seq_contains_left<T>(a: Seq<T>, b: Seq<T>, x: T)
    requires
        a.contains(x),
    ensures
        (a + b).contains(x),
{
    let i = choose|i: int| 0 <= i < a.len() && a[i] == x;
    assert((a + b)[i] == x);
}

pub proof fn lemma_seq_contains_right<T>(a: Seq<T>, b: Seq<T>, x: T)
    requires
        b.contains(x),
    ensures
        (a + b).contains(x),
{
    let i = choose|i: int| 0 <= i < b.len() && b[i] == x;
    assert((a + b)[a.len() + i] == x);
}

/// Saving removes every key the editor dropped from an inline table: an
/// existing key that the new object doesn't have at all, or whose value is
/// `null` there, gets a `Remove`, so a deleted translation never comes back.
pub proof fn inline_merge_removes_dropped_keys(edits: Seq<InlineEdit>, existing: Seq<(String, TomlShape)>, entries: Vec<(String, JsonShape)>, i: int)
    requires
        inline_plan(edits, existing, JsonShape::Object(entries)),
        0 <= i < existing.len(),
        (forall|j: int| 0 <= j < entries@.len() ==> (#[trigger] entries@[j]).0@ != existing[i].0@)
            || find(entries@, existing[i].0@) == Some(JsonShape::Null),
    ensures
        exists|m: int|
            0 <= m < edits.len() && (#[trigger] edits[m] matches InlineEdit::Remove(k) && k@
                == existing[i].0@),
{
    lemma_stale_inline_keys_hold(existing, entries@, i);
    let stale = stale_inline_keys(existing, entries@);
    let m = choose|m: int| 0 <= m < stale.len() && stale[m] == existing[i].0@;
    assert(edits[m] matches InlineEdit::Remove(k) && k@ == stale[m]);
}

/// Every existing key that is gone or `null` in the new object is among the stale keys.
pub proof fn lemma_stale_inline_keys_hold(existing: Seq<(String, TomlShape)>, new: Seq<(String, JsonShape)>, i: int)
    requires
        0 <= i < existing.len(),
        (forall|j: int| 0 <= j < new.len() ==> (#[trigger] new[j]).0@ != existing[i].0@) || find(
            new,
            existing[i].0@,
        ) == Some(JsonShape::Null),
    ensures
        stale_inline_keys(existing, new).contains(existing[i].0@),
    decreases existing.len(),
{
    let k = existing[i].0@;
    let rest = existing.drop_last();
    if i == existing.len() - 1 {
        if has_key(new, k) {
            let j = choose|j: int| 0 <= j < new.len() && (#[trigger] new[j]).0@ == k;
            assert(new[j].0@ == existing[i].0@);
        }
        assert(!has_key(new, k) || null_at(new, k));
        let s = stale_inline_keys(existing, new);
        assert(s[s.len() - 1] == k);
    } else {
        assert(rest[i] == existing[i]);
        lemma_stale_inline_keys_hold(rest, new, i);
        let last = existing.last().0@;
        if has_key(new, last) && !null_at(new, last) {
        } else {
            lemma_seq_contains_left(stale_inline_keys(rest, new), seq![last], k);
            assert(stale_inline_keys(rest, new).push(last) =~= stale_inline_keys(rest, new) + seq![last]);
        }
    }
}

/// A phone number's digits are counted, nothing else: the count is the
/// number of characters `0`–`9`.
pub proof fn digit_count_counts_digits(v: Seq<char>)
    ensures
        crate::validate::digit_count(v) == v.filter(|c: char| '0' <= c && c <= '9').len(),
    decreases v.len(),
{
    reveal(Seq::filter);
    if v.len() > 0 {
        digit_count_counts_digits(v.drop_last());
    }
}

/// A phone contact is refused exactly when its value (trimmed, in the
/// default language) is empty or holds fewer than seven digits `0`–`9`:
/// `010-1234-5678` passes.
pub proof fn phone_needs_seven_digits(base: Seq<char>, item: crate::config::ContactItem, lang: Seq<char>)
    requires
        item.kind == crate::config::ContactKind::Phone,
    ensures
        ({
            let v = trim(item.value.text_in(lang, lang));
            crate::validate::contact_diags(base, item, lang).len() == 0 <==> v.len() > 0 && v.filter(
                |c: char| '0' <= c && c <= '9',
            ).len() >= 7
        }),
{
    let v = trim(item.value.text_in(lang, lang));
    digit_count_counts_digits(v);
}

/// The items listed, one after another, each as its own entry.
pub open spec fn each_timeline_item(c: crate::render::Ctx, items: Seq<crate::config::TimelineItem>) -> Seq<char>
    decreases items.len(),
{
    if items.len() == 0 {
        Seq::empty()
    } else {
        each_timeline_item(c, items.drop_last()) + crate::render::timeline_item_html(c, items.last())
    }
}

/// A timeline lists exactly the entries that are enabled, in order; an
/// entry the user hid contributes nothing.
pub proof fn timeline_lists_enabled_items(c: crate::render::Ctx, items: Seq<crate::config::TimelineItem>)
    ensures
        crate::render::timeline_html(c, items) == each_timeline_item(
            c,
            items.filter(|it: crate::config::TimelineItem| it.enabled),
        ),
    decreases items.len(),
{
    reveal(Seq::filter);
    if items.len() > 0 {
        timeline_lists_enabled_items(c, items.drop_last());
        let f = items.drop_last().filter(|it: crate::config::TimelineItem| it.enabled);
        if items.last().enabled {
            assert(f.push(items.last()).drop_last() =~= f);
        }
    }
}

/// Text `b` inside `a + b + c`.
pub proof fn lemma_text_contains_middle(a: Seq<char>, b: Seq<char>, c: Seq<char>)
    ensures
        contains(a + b + c, b),
{
    assert((a + b + c).subrange(a.len() as int, (a.len() + b.len()) as int) =~= b);
    assert(occurs_at(a + b + c, b, a.len() as int));
}

/// An image background's fit reaches the stylesheet as its own CSS keyword:
/// `cover` fills and crops, `contain` shows the whole image without tiling,
/// `repeat` tiles it at its own size.
pub proof fn image_fit_reaches_the_css(t: crate::config::Theme)
    requires
        t.background is Image,
    ensures
        t.background->Image_fit == crate::config::ImageFit::Cover ==> contains(
            crate::theme::theme_css(t),
            "  --pf-background-fit: cover;\n"@,
        ) && contains(crate::theme::theme_css(t), "  --pf-background-repeat: no-repeat;\n"@),
        t.background->Image_fit == crate::config::ImageFit::Contain ==> contains(
            crate::theme::theme_css(t),
            "  --pf-background-fit: contain;\n"@,
        ) && contains(crate::theme::theme_css(t), "  --pf-background-repeat: no-repeat;\n"@),
        t.background->Image_fit == crate::config::ImageFit::Repeat ==> contains(
            crate::theme::theme_css(t),
            "  --pf-background-fit: auto;\n"@,
        ) && contains(crate::theme::theme_css(t), "  --pf-background-repeat: repeat;\n"@),
{
    use_image_fit_decls(t);
}

proof fn use_image_fit_decls(t: crate::config::Theme)
    requires
        t.background is Image,
    ensures
        contains(
            crate::theme::theme_css(t),
            crate::theme::decl("background-fit"@, crate::theme::fit_css(t.background->Image_fit).0),
        ),
        contains(
            crate::theme::theme_css(t),
            crate::theme::decl("background-repeat"@, crate::theme::fit_css(t.background->Image_fit).1),
        ),
        crate::theme::decl("background-fit"@, "cover"@) == "  --pf-background-fit: cover;\n"@,
        crate::theme::decl("background-fit"@, "contain"@) == "  --pf-background-fit: contain;\n"@,
        crate::theme::decl("background-fit"@, "auto"@) == "  --pf-background-fit: auto;\n"@,
        crate::theme::decl("background-repeat"@, "no-repeat"@)
            == "  --pf-background-repeat: no-repeat;\n"@,
        crate::theme::decl("background-repeat"@, "repeat"@) == "  --pf-background-repeat: repeat;\n"@,
{
    lemma_fit_literals();
    lemma_background_has_fit(t.background);
    lemma_theme_holds_background_text(
        t,
        crate::theme::decl("background-fit"@, crate::theme::fit_css(t.background->Image_fit).0),
    );
    lemma_theme_holds_background_text(
        t,
        crate::theme::decl("background-repeat"@, crate::theme::fit_css(t.background->Image_fit).1),
    );
}

proof fn lemma_fit_literals()
    ensures
        crate::theme::decl("background-fit"@, "cover"@) == "  --pf-background-fit: cover;\n"@,
        crate::theme::decl("background-fit"@, "contain"@) == "  --pf-background-fit: contain;\n"@,
        crate::theme::decl("background-fit"@, "auto"@) == "  --pf-background-fit: auto;\n"@,
        crate::theme::decl("background-repeat"@, "no-repeat"@)
            == "  --pf-background-repeat: no-repeat;\n"@,
        crate::theme::decl("background-repeat"@, "repeat"@) == "  --pf-background-repeat: repeat;\n"@,
{
    reveal_strlit("  --pf-");
    reveal_strlit(": ");
    reveal_strlit(";\n");
    reveal_strlit("background-fit");
    reveal_strlit("background-repeat");
    reveal_strlit("cover");
    reveal_strlit("contain");
    reveal_strlit("auto");
    reveal_strlit("no-repeat");
    reveal_strlit("repeat");
    reveal_strlit("  --pf-background-fit: cover;\n");
    reveal_strlit("  --pf-background-fit: contain;\n");
    reveal_strlit("  --pf-background-fit: auto;\n");
    reveal_strlit("  --pf-background-repeat: no-repeat;\n");
    reveal_strlit("  --pf-background-repeat: repeat;\n");
    assert(crate::theme::decl("background-fit"@, "cover"@) =~= "  --pf-background-fit: cover;\n"@);
    assert(crate::theme::decl("background-fit"@, "contain"@) =~= "  --pf-background-fit: contain;\n"@);
    assert(crate::theme::decl("background-fit"@, "auto"@) =~= "  --pf-background-fit: auto;\n"@);
    assert(crate::theme::decl("background-repeat"@, "no-repeat"@)
        =~= "  --pf-background-repeat: no-repeat;\n"@);
    assert(crate::theme::decl("background-repeat"@, "repeat"@)
        =~= "  --pf-background-repeat: repeat;\n"@);
}

/// Text held by a prefix is held by the whole.
pub proof fn lemma_text_contains_extend(a: Seq<char>, b: Seq<char>, p: Seq<char>)
    requires
        contains(a, p),
    ensures
        contains(a + b, p),
{
    let at = choose|at: int| occurs_at(a, p, at);
    assert((a + b).subrange(at, at + p.len()) =~= a.subrange(at, at + p.len()));
    assert(occurs_at(a + b, p, at));
}

proof fn lemma_background_has_fit(b: crate::config::Background)
    requires
        b is Image,
    ensures
        contains(crate::theme::background_css(b), crate::theme::decl("background-fit"@, crate::theme::fit_css(b->Image_fit).0)),
        contains(crate::theme::background_css(b), crate::theme::decl("background-repeat"@, crate::theme::fit_css(b->Image_fit).1)),
{
    if let crate::config::Background::Image { src, fit, position, blur, overlay } = b {
        let d01 = crate::theme::decl("background"@, "transparent"@) + crate::theme::decl(
            "background-image"@,
            "url(\""@ + src.0@ + "\")"@,
        );
        let fd = crate::theme::decl("background-fit"@, crate::theme::fit_css(fit).0);
        let rd = crate::theme::decl("background-repeat"@, crate::theme::fit_css(fit).1);
        let pd = crate::theme::decl("background-position"@, position@);
        let bd = crate::theme::decl("background-blur"@, blur@);
        let od = match overlay {
            Some(o) => crate::theme::decl("background-overlay"@, o@),
            None => seq![],
        };
        lemma_text_contains_middle(d01, fd, Seq::empty());
        assert(d01 + fd + Seq::<char>::empty() =~= d01 + fd);
        lemma_text_contains_extend(d01 + fd, rd, fd);
        lemma_text_contains_middle(d01 + fd, rd, Seq::empty());
        assert(d01 + fd + rd + Seq::<char>::empty() =~= d01 + fd + rd);
        let x = d01 + fd + rd;
        lemma_text_contains_extend(x, pd, fd);
        lemma_text_contains_extend(x, pd, rd);
        lemma_text_contains_extend(x + pd, bd, fd);
        lemma_text_contains_extend(x + pd, bd, rd);
        lemma_text_contains_extend(x + pd + bd, od, fd);
        lemma_text_contains_extend(x + pd + bd, od, rd);
        assert(crate::theme::background_css(b) == x + pd + bd + od);
    }
}

proof fn lemma_theme_holds_background_text(t: crate::config::Theme, p: Seq<char>)
    requires
        contains(crate::theme::background_css(t.background), p),
    ensures
        contains(crate::theme::theme_css(t), p),
{
    use_theme_parts(t, p);
}

proof fn use_theme_parts(t: crate::config::Theme, p: Seq<char>)
    requires
        contains(crate::theme::background_css(t.background), p),
    ensures
        contains(crate::theme::theme_css(t), p),
{
    let s0 = crate::theme::background_css(t.background);
    let s1 = s0 + crate::theme::sheet_css(t.sheet);
    let s2 = s1 + crate::theme::card_css(t.card);
    let s3 = s2 + crate::theme::decl("accent"@, t.accent@);
    let s4 = s3 + crate::theme::decl("text-heading"@, t.text.heading@);
    let s5 = s4 + crate::theme::decl("text-body"@, t.text.body@);
    let s6 = s5 + crate::theme::decl("text-card-title"@, t.text.card_title@);
    let s7 = s6 + crate::theme::decl("text-muted"@, t.text.muted@);
    let s8 = s7 + crate::theme::font_css(t.font);
    lemma_text_contains_extend(s0, crate::theme::sheet_css(t.sheet), p);
    lemma_text_contains_extend(s1, crate::theme::card_css(t.card), p);
    lemma_text_contains_extend(s2, crate::theme::decl("accent"@, t.accent@), p);
    lemma_text_contains_extend(s3, crate::theme::decl("text-heading"@, t.text.heading@), p);
    lemma_text_contains_extend(s4, crate::theme::decl("text-body"@, t.text.body@), p);
    lemma_text_contains_extend(s5, crate::theme::decl("text-card-title"@, t.text.card_title@), p);
    lemma_text_contains_extend(s6, crate::theme::decl("text-muted"@, t.text.muted@), p);
    lemma_text_contains_extend(s7, crate::theme::font_css(t.font), p);
    assert(crate::theme::theme_css(t) == s8);
}

/// The path an asset field holds (empty when unset).
pub open spec fn asset_text(a: Option<crate::config::AssetPath>) -> Seq<char> {
    match a {
        Some(p) => p.0@,
        None => Seq::empty(),
    }
}

/// Every file a page references is copied into the output: the share
/// image, the favicon, the avatar, each social icon, the background image
/// and custom decorations.
pub proof fn every_referenced_file_is_copied(c: Config)
    ensures
        c.site.og_image is Some ==> dedup(page_assets(c)).contains(asset_text(c.site.og_image)),
        c.site.favicon is Some ==> dedup(page_assets(c)).contains(asset_text(c.site.favicon)),
        c.profile.avatar is Some ==> dedup(page_assets(c)).contains(asset_text(c.profile.avatar)),
        forall|i: int|
            0 <= i < c.socials@.len() && (#[trigger] c.socials@[i]).icon is Some ==> dedup(
                page_assets(c),
            ).contains(asset_text(c.socials@[i].icon)),
        c.theme.background is Image ==> dedup(page_assets(c)).contains(
            c.theme.background->Image_src.0@,
        ),
        c.theme.decoration matches Some(crate::config::Decoration::Custom { top, bottom }) ==> (
        top is Some ==> dedup(page_assets(c)).contains(asset_text(top))) && (bottom is Some ==> dedup(
            page_assets(c),
        ).contains(asset_text(bottom))),
{
    crate::config::lemma_dedup(page_assets(c));
    let a = opt_path(c.site.og_image);
    let b = opt_path(c.site.favicon);
    let av = opt_path(c.profile.avatar);
    let si = social_icons(c.socials@);
    let th = crate::build::shown_thumbnails(crate::config::visible(c.sections@));
    let bgs = match c.theme.background {
        crate::config::Background::Image { src, .. } => seq![src.0@],
        _ => seq![],
    };
    let deco = match c.theme.decoration {
        Some(crate::config::Decoration::Custom { top, bottom }) => opt_path(top) + opt_path(bottom),
        _ => seq![],
    };
    let p5 = a + b + av + si + th;
    assert(page_assets(c) == p5 + bgs + deco);
    // Whatever is in the first five parts is in the whole.
    assert forall|x: Seq<char>| p5.contains(x) implies page_assets(c).contains(x) by {
        lemma_seq_contains_left(p5, bgs, x);
        lemma_seq_contains_left(p5 + bgs, deco, x);
    }
    if c.site.og_image is Some {
        assert(a[0] == asset_text(c.site.og_image));
        lemma_seq_contains_left(a, b, a[0]);
        lemma_seq_contains_left(a + b, av, a[0]);
        lemma_seq_contains_left(a + b + av, si, a[0]);
        lemma_seq_contains_left(a + b + av + si, th, a[0]);
    }
    if c.site.favicon is Some {
        assert(b[0] == asset_text(c.site.favicon));
        lemma_seq_contains_right(a, b, b[0]);
        lemma_seq_contains_left(a + b, av, b[0]);
        lemma_seq_contains_left(a + b + av, si, b[0]);
        lemma_seq_contains_left(a + b + av + si, th, b[0]);
    }
    if c.profile.avatar is Some {
        assert(av[0] == asset_text(c.profile.avatar));
        lemma_seq_contains_right(a + b, av, av[0]);
        lemma_seq_contains_left(a + b + av, si, av[0]);
        lemma_seq_contains_left(a + b + av + si, th, av[0]);
    }
    assert forall|i: int| 0 <= i < c.socials@.len() && (#[trigger] c.socials@[i]).icon is Some implies dedup(
        page_assets(c),
    ).contains(asset_text(c.socials@[i].icon)) by {
        lemma_social_icon_listed(c.socials@, i);
        let x = asset_text(c.socials@[i].icon);
        lemma_seq_contains_right(a + b + av, si, x);
        lemma_seq_contains_left(a + b + av + si, th, x);
    }
    if c.theme.background is Image {
        let x = c.theme.background->Image_src.0@;
        assert(bgs[0] == x);
        lemma_seq_contains_right(p5, bgs, x);
        lemma_seq_contains_left(p5 + bgs, deco, x);
    }
    if let Some(crate::config::Decoration::Custom { top, bottom }) = c.theme.decoration {
        if top is Some {
            let x = asset_text(top);
            assert(opt_path(top)[0] == x);
            lemma_seq_contains_left(opt_path(top), opt_path(bottom), x);
            lemma_seq_contains_right(p5 + bgs, deco, x);
        }
        if bottom is Some {
            let x = asset_text(bottom);
            assert(opt_path(bottom)[0] == x);
            lemma_seq_contains_right(opt_path(top), opt_path(bottom), x);
            lemma_seq_contains_right(p5 + bgs, deco, x);
        }
    }
}

/// Each social icon that is set is among the social icons.
pub proof fn lemma_social_icon_listed(socials: Seq<Social>, i: int)
    requires
        0 <= i < socials.len(),
        socials[i].icon is Some,
    ensures
        crate::validate::social_icons(socials).contains(asset_text(socials[i].icon)),
    decreases socials.len(),
{
    let rest = socials.drop_last();
    let x = asset_text(socials[i].icon);
    if i == socials.len() - 1 {
        assert(crate::validate::opt_path(socials.last().icon)[0] == x);
        lemma_seq_contains_right(
            crate::validate::social_icons(rest),
            crate::validate::opt_path(socials.last().icon),
            x,
        );
    } else {
        assert(rest[i] == socials[i]);
        lemma_social_icon_listed(rest, i);
        lemma_seq_contains_left(
            crate::validate::social_icons(rest),
            crate::validate::opt_path(socials.last().icon),
            x,
        );
    }
}

} // verus!
