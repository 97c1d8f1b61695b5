//! Multiple languages.
//!
//! Two things are kept apart:
//!
//! - **Content** — what the user wrote, per language, inside `profile.toml` ([`Text`]).
//! - **UI strings** — fixed phrases like "Save Contact", per language ([`Strings`]).

use vstd::prelude::*;

use crate::locales;
use crate::strmap::{pairs_map, Entries, StrMap, entries_view};
use crate::text::{concat, concat3, is_blank, owned, trim};

verus! {

/// A translatable string.
///
/// With a single language it is a plain string, shared by every language;
/// only the values that need translating become a per-language table.
pub enum Text {
    Plain(String),
    Translated(StrMap),
}

/// Whether no entry holds a written value.
pub open spec fn all_blank(s: Entries) -> bool {
    forall|i: int| 0 <= i < s.len() ==> !present(#[trigger] s[i].1)
}

/// Whether a value counts as written: not empty once trimmed.
pub open spec fn present(s: Seq<char>) -> bool {
    trim(s).len() > 0
}

impl Text {
    /// The string in `lang`; failing that the `fallback` language; failing
    /// that the first translation there is (in language-code order); and an
    /// empty string for an empty table.
    pub open spec fn text_in(self, lang: Seq<char>, fallback: Seq<char>) -> Seq<char> {
        match self {
            Text::Plain(value) => value@,
            Text::Translated(map) => if map.map().contains_key(lang) {
                map.map()[lang]
            } else if map.map().contains_key(fallback) {
                map.map()[fallback]
            } else if map@.len() > 0 {
                map@[0].1
            } else {
                Seq::empty()
            },
        }
    }

    /// Whether there is an actual (non-blank) string for `lang`. A plain
    /// string is shared by every language, so it counts for all of them.
    pub open spec fn has_lang(self, lang: Seq<char>) -> bool {
        match self {
            Text::Plain(value) => present(value@),
            Text::Translated(map) => map.map().contains_key(lang) && present(map.map()[lang]),
        }
    }

    /// Whether nothing at all is written.
    pub open spec fn blank(self) -> bool {
        match self {
            Text::Plain(value) => !present(value@),
            Text::Translated(map) => all_blank(map@),
        }
    }

    /// The string in `lang`, falling back as [`Text::text_in`] describes.
    ///
    /// Showing the original beats showing a blank screen because one
    /// translation is missing; validation reports the gap as a warning.
    pub fn get<'a>(&'a self, lang: &str, fallback: &str) -> (r: &'a str)
        ensures
            r@ == self.text_in(lang@, fallback@),
    {
        match self {
            Text::Plain(value) => value.as_str(),
            Text::Translated(map) => match map.get(lang) {
                Some(v) => v.as_str(),
                None => match map.get(fallback) {
                    Some(v) => v.as_str(),
                    None => match map.first() {
                        Some((_, v)) => v.as_str(),
                        None => {
                            proof {
                                reveal_strlit("");
                            }
                            ""
                        },
                    },
                },
            },
        }
    }

    /// Whether there is an actual translation in `lang`. Validation uses
    /// this to find missing translations.
    pub fn has(&self, lang: &str) -> (r: bool)
        ensures
            r == self.has_lang(lang@),
    {
        match self {
            Text::Plain(value) => !is_blank(value.as_str()),
            Text::Translated(map) => match map.get(lang) {
                Some(v) => !is_blank(v.as_str()),
                None => false,
            },
        }
    }

    pub fn is_empty(&self) -> (r: bool)
        ensures
            r == self.blank(),
    {
        match self {
            Text::Plain(value) => is_blank(value.as_str()),
            Text::Translated(map) => {
                let n = map.len();
                let mut i: usize = 0;
                while i < n
                    invariant
                        n == map@.len(),
                        i <= n,
                        self.blank() == all_blank(map@),
                        forall|j: int| 0 <= j < i ==> !present(#[trigger] map@[j].1),
                    decreases n - i,
                {
                    let (_, v) = map.entry(i);
                    if !is_blank(v.as_str()) {
                        assert(present(map@[i as int].1));
                        assert(!all_blank(map@));
                        return false;
                    }
                    i = i + 1;
                }
                true
            },
        }
    }

    /// A plain string shared by every language.
    pub fn plain(value: &str) -> (r: Text)
        ensures
            r matches Text::Plain(v) && v@ == value@,
    {
        Text::Plain(owned(value))
    }
}

// ─────────────────────────────────────────────────────────────────────────────
// UI strings
// ─────────────────────────────────────────────────────────────────────────────

/// The UI strings of one language.
pub struct Strings {
    entries: StrMap,
    fallback: StrMap,
}

impl Strings {
    /// The strings of the chosen language.
    pub closed spec fn entries_map(self) -> Map<Seq<char>, Seq<char>> {
        self.entries.map()
    }

    /// The safety net for keys the chosen language lacks.
    pub closed spec fn fallback_map(self) -> Map<Seq<char>, Seq<char>> {
        self.fallback.map()
    }

    /// The phrase shown for `key`: the chosen language's, else the safety
    /// net's, else the key itself — a key on screen shows what is missing.
    pub open spec fn ui(self, key: Seq<char>) -> Seq<char> {
        if self.entries_map().contains_key(key) {
            self.entries_map()[key]
        } else if self.fallback_map().contains_key(key) {
            self.fallback_map()[key]
        } else {
            key
        }
    }

    /// Strings from explicit tables.
    pub fn from_maps(entries: StrMap, fallback: StrMap) -> (r: Strings)
        ensures
            r.entries_map() == entries.map(),
            r.fallback_map() == fallback.map(),
    {
        Strings { entries, fallback }
    }

    /// Loads the strings of `lang`.
    ///
    /// The built-in strings of `lang` come first; a project's own
    /// `locales/<lang>.json` (its contents given as `override_source`, read
    /// from `override_path`) overrides them key by key, so changing one
    /// phrase doesn't mean writing out the whole file. English is the
    /// safety net for keys that have not been translated yet.
    pub fn load(lang: &str, override_path: &str, override_source: Option<&str>) -> (r: Result<
        Strings,
        String,
    >)
        ensures
            match load_table(lang@, opt_view(override_source)) {
                Err(detail) => r matches Err(m) && m@ == parse_failure(override_path@, detail),
                Ok(table) => if table == Map::<Seq<char>, Seq<char>>::empty() {
                    r matches Err(m) && m@ == not_found(lang@)
                } else {
                    r matches Ok(s) && s.entries_map() == table && s.fallback_map()
                        == builtin_or_empty("en"@)
                },
            },
    {
        let mut entries = match locales::builtin(lang) {
            Some(map) => map,
            None => StrMap::new(),
        };
        if let Some(source) = override_source {
            match parse_string_map(source) {
                Ok(pairs) => {
                    let over = StrMap::from_pairs(pairs);
                    entries.extend(&over);
                },
                Err(detail) => {
                    let msg = concat3(override_path, " 파싱 실패: ", detail.as_str());
                    return Err(msg);
                },
            }
        }
        if entries.len() == 0 {
            let codes = builtin_code_list();
            let mut msg = concat3("'", lang, "' 문구를 찾을 수 없습니다. 내장 언어(");
            msg.append(codes.as_str());
            msg.append(")가 아니면 locales/");
            msg.append(lang);
            msg.append(".json 을 만들어 주세요.");
            proof {
                assert(entries.map() =~= Map::<Seq<char>, Seq<char>>::empty()) by {
                    assert forall|k: Seq<char>| !entries.map().contains_key(k) by {
                        if entries.map().contains_key(k) {
                            let i = choose|i: int|
                                0 <= i < entries@.len() && #[trigger] entries@[i].0 == k;
                        }
                    }
                }
            }
            return Err(msg);
        }
        let fallback = match locales::builtin("en") {
            Some(map) => map,
            None => StrMap::new(),
        };
        proof {
            crate::strmap::lemma_map_of_index(entries@, 0);
            assert(!Map::<Seq<char>, Seq<char>>::empty().contains_key(entries@[0].0));
        }
        Ok(Strings { entries, fallback })
    }

    /// One phrase; see [`Strings::ui`].
    pub fn get<'a>(&'a self, key: &'a str) -> (r: &'a str)
        ensures
            r@ == self.ui(key@),
    {
        match self.entries.get(key) {
            Some(v) => v.as_str(),
            None => match self.fallback.get(key) {
                Some(v) => v.as_str(),
                None => key,
            },
        }
    }

    /// The phrase for `key` with each `{name}` placeholder filled in, in the
    /// order the arguments are given.
    pub fn format(&self, key: &str, args: &[(&str, &str)]) -> (r: String)
        ensures
            r@ == fill_in_order(self.ui(key@), args@),
    {
        let mut text = owned(self.get(key));
        let n = args.len();
        let mut i: usize = 0;
        while i < n
            invariant
                n == args@.len(),
                i <= n,
                text@ == fill_in_order(self.ui(key@), args@.take(i as int)),
            decreases n - i,
        {
            let (name, value) = args[i];
            let pattern = concat3("{", name, "}");
            proof {
                reveal_strlit("{");
                reveal_strlit("}");
                assert(pattern@ =~= crate::message::placeholder(name@));
                assert(args@.take(i + 1).drop_last() =~= args@.take(i as int));
            }
            text = crate::text::replace_all(text.as_str(), pattern.as_str(), value);
            i = i + 1;
        }
        assert(args@.take(n as int) =~= args@);
        text
    }

    /// Only the strings whose key starts with `prefix`. Editor UI strings
    /// (`editor.`) share one file with the card's strings; this picks out
    /// the ones a side needs.
    pub fn with_prefix(&self, prefix: &str) -> (r: StrMap)
        ensures
            r.map() == self.entries_map().restrict(
                Set::new(|k: Seq<char>| crate::text::starts_with(k, prefix@)),
            ),
    {
        self.entries.with_key_prefix(prefix)
    }

    /// The strings the browser uses; the renderer embeds them in the page.
    pub fn client_subset(&self) -> (r: StrMap)
        ensures
            r.map() == map![
                "toast.copied"@ => self.ui("toast.copied"@),
                "toast.copy_failed"@ => self.ui("toast.copy_failed"@),
                "toast.vcard_saved"@ => self.ui("toast.vcard_saved"@),
                "toast.vcard_failed"@ => self.ui("toast.vcard_failed"@),
            ],
    {
        let mut r = StrMap::new();
        r.insert(owned("toast.copied"), owned(self.get("toast.copied")));
        r.insert(owned("toast.copy_failed"), owned(self.get("toast.copy_failed")));
        r.insert(owned("toast.vcard_saved"), owned(self.get("toast.vcard_saved")));
        r.insert(owned("toast.vcard_failed"), owned(self.get("toast.vcard_failed")));
        r
    }
}

impl Default for Strings {
    fn default() -> (r: Strings)
        ensures
            r.entries_map() == Map::<Seq<char>, Seq<char>>::empty(),
            r.fallback_map() == Map::<Seq<char>, Seq<char>>::empty(),
    {
        Strings { entries: StrMap::new(), fallback: StrMap::new() }
    }
}

/// Fills `{name}` placeholders pair by pair, in the given order.
pub open spec fn fill_in_order(text: Seq<char>, args: Seq<(&str, &str)>) -> Seq<char>
    decreases args.len(),
{
    if args.len() == 0 {
        text
    } else {
        crate::text::replace(
            fill_in_order(text, args.drop_last()),
            crate::message::placeholder(args.last().0@),
            args.last().1@,
        )
    }
}

/// The built-in strings of `lang`, or none.
pub open spec fn builtin_or_empty(lang: Seq<char>) -> Map<Seq<char>, Seq<char>> {
    match locales::builtin_table(lang) {
        Some(m) => m,
        None => Map::empty(),
    }
}

pub open spec fn opt_view(s: Option<&str>) -> Option<Seq<char>> {
    match s {
        Some(v) => Some(v@),
        None => None,
    }
}

/// The table loading builds: the built-in strings of `lang` overridden by the
/// project's file, or the file's parse error.
pub open spec fn load_table(lang: Seq<char>, source: Option<Seq<char>>) -> Result<
    Map<Seq<char>, Seq<char>>,
    Seq<char>,
> {
    match source {
        None => Ok(builtin_or_empty(lang)),
        Some(src) => match json_string_map(src) {
            Err(detail) => Err(detail),
            Ok(pairs) => Ok(builtin_or_empty(lang).union_prefer_right(pairs_map(pairs))),
        },
    }
}

pub open spec fn parse_failure(path: Seq<char>, detail: Seq<char>) -> Seq<char> {
    path + " 파싱 실패: "@ + detail
}

pub open spec fn not_found(lang: Seq<char>) -> Seq<char> {
    "'"@ + lang + "' 문구를 찾을 수 없습니다. 내장 언어("@ + "ko, en, ja"@
        + ")가 아니면 locales/"@ + lang + ".json 을 만들어 주세요."@
}

/// What `serde_json::from_str` makes of a JSON object of strings
/// (a `BTreeMap<String, String>`): its entries in key order, or the error's text.
pub uninterp spec fn json_string_map(source: Seq<char>) -> Result<Entries, Seq<char>>;

/// Parses a JSON object whose values are all strings, with
/// `serde_json::from_str::<BTreeMap<String, String>>`. The contract only
/// ties the outcome to `json_string_map` of the source; what that is for a
/// given source is serde_json's grammar and is not written out here.
#[verifier::external_body]
fn parse_string_map(source: &str) -> (r: Result<Vec<(String, String)>, String>)
    ensures
        match (r, json_string_map(source@)) {
            (Ok(v), Ok(e)) => entries_view(v@) == e,
            (Err(d), Err(e)) => d@ == e,
            _ => false,
        },
{
    match serde_json::from_str::<std::collections::BTreeMap<String, String>>(source) {
        Ok(map) => Ok(map.into_iter().collect()),
        Err(err) => Err(err.to_string()),
    }
}

/// The built-in language codes, joined with `", "`.
pub fn builtin_code_list() -> (r: String)
    ensures
        r@ == "ko, en, ja"@,
{
    let codes = builtin_codes();
    let mut out = owned(codes[0]);
    out.append(", ");
    out.append(codes[1]);
    out.append(", ");
    out.append(codes[2]);
    proof {
        reveal_strlit("ko, en, ja");
        reveal_strlit("ko");
        reveal_strlit("en");
        reveal_strlit("ja");
        reveal_strlit(", ");
        assert(out@ =~= "ko, en, ja"@);
    }
    out
}

/// The languages that ship built in.
pub fn builtin_codes() -> (r: Vec<&'static str>)
    ensures
        r@.len() == 3,
        r@[0]@ == "ko"@,
        r@[1]@ == "en"@,
        r@[2]@ == "ja"@,
{
    vec!["ko", "en", "ja"]
}

/// The name shown in the language switcher: each language file writes its
/// own name (`language.name`), so "日本語" shows as itself everywhere.
/// A language without strings shows its code.
pub fn language_name(lang: &str, override_path: &str, override_source: Option<&str>) -> (r: String)
    ensures
        r@ == match load_table(lang@, opt_view(override_source)) {
            Ok(table) => if table == Map::<Seq<char>, Seq<char>>::empty() {
                lang@
            } else if table.contains_key("language.name"@) {
                table["language.name"@]
            } else if builtin_or_empty("en"@).contains_key("language.name"@) {
                builtin_or_empty("en"@)["language.name"@]
            } else {
                "language.name"@
            },
            Err(_) => lang@,
        },
{
    match Strings::load(lang, override_path, override_source) {
        Ok(s) => owned(s.get("language.name")),
        Err(_) => owned(lang),
    }
}

} // verus!
