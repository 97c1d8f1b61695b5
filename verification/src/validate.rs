//! Config validation.
//!
//! This lives apart from the renderer so that however many editing paths
//! there are, there is one set of validation rules. The CLI's `check`, the
//! editor's save button and anything added later reuse this same function.
//!
//! What the rules need to know about the project folder — which asset files
//! exist, which languages have UI strings — comes in as a [`Project`].

use vstd::prelude::*;

use crate::config::{
    body_keys_of, common_keys_of, dedup, str_views, views, AssetPath, Background, Config,
    ContactItem, ContactKind, Decoration, Font, FontPreset, Platform, Section, SectionBody,
    SCHEMA_VERSION,
};
use crate::i18n::Text;
use crate::message::{msg, Message, MessageView};
use crate::text::{
    chars_of, concat, concat3, dec, decimal, ends_with, has_char, is_ascii_digit,
    is_ascii_hexdigit, is_digit, is_hex, lower, owned, starts_with, str_eq, str_starts_with,
    substring, trim, trim_bounds, trimmed, vec_ends_with, vec_has_char, vec_starts_with,
};

verus! {

#[derive(Clone, Copy, Debug, PartialEq, Eq, Structural)]
pub enum Severity {
    /// Stops the build.
    Error,
    /// The build goes ahead, but this is probably not what was meant.
    Warning,
}

/// A single issue: a severity, a TOML-style location such as
/// `sections[2].items[0].url`, and a message key with arguments.
pub struct Diagnostic {
    pub severity: Severity,
    pub path: String,
    pub message: Message,
}

#[verifier::ext_equal]
pub struct DiagView {
    pub severity: Severity,
    pub path: Seq<char>,
    pub message: MessageView,
}

impl View for Diagnostic {
    type V = DiagView;

    open spec fn view(&self) -> DiagView {
        DiagView { severity: self.severity, path: self.path@, message: self.message@ }
    }
}

pub open spec fn err(path: Seq<char>, message: MessageView) -> DiagView {
    DiagView { severity: Severity::Error, path, message }
}

pub open spec fn warn(path: Seq<char>, message: MessageView) -> DiagView {
    DiagView { severity: Severity::Warning, path, message }
}

/// A message with one argument.
pub open spec fn msg1(key: Seq<char>, name: Seq<char>, value: Seq<char>) -> MessageView {
    MessageView { key, args: Map::empty().insert(name, value) }
}

pub open spec fn diags(v: Seq<Diagnostic>) -> Seq<DiagView> {
    v.map_values(|d: Diagnostic| d@)
}

impl Diagnostic {
    pub fn error(path: String, message: Message) -> (r: Diagnostic)
        ensures
            r@ == err(path@, message@),
    {
        Diagnostic { severity: Severity::Error, path, message }
    }

    pub fn warning(path: String, message: Message) -> (r: Diagnostic)
        ensures
            r@ == warn(path@, message@),
    {
        Diagnostic { severity: Severity::Warning, path, message }
    }
}

fn push(out: &mut Vec<Diagnostic>, d: Diagnostic)
    ensures
        diags(final(out)@) == diags(old(out)@).push(d@),
{
    let ghost before = out@;
    out.push(d);
    assert(diags(out@) =~= diags(before).push(d@));
}

fn push_error(out: &mut Vec<Diagnostic>, path: String, key: &'static str)
    ensures
        diags(final(out)@) == diags(old(out)@).push(err(path@, msg(key@))),
{
    push(out, Diagnostic::error(path, Message::new(key)));
}

fn push_warning(out: &mut Vec<Diagnostic>, path: String, key: &'static str)
    ensures
        diags(final(out)@) == diags(old(out)@).push(warn(path@, msg(key@))),
{
    push(out, Diagnostic::warning(path, Message::new(key)));
}

/// Whether any diagnostic is an error.
pub fn has_errors(diagnostics: &[Diagnostic]) -> (r: bool)
    ensures
        r == exists|i: int|
            0 <= i < diagnostics@.len() && #[trigger] diagnostics@[i].severity == Severity::Error,
{
    let n = diagnostics.len();
    let mut i: usize = 0;
    while i < n
        invariant
            n == diagnostics@.len(),
            i <= n,
            forall|j: int| 0 <= j < i ==> #[trigger] diagnostics@[j].severity != Severity::Error,
        decreases n - i,
    {
        if diagnostics[i].severity == Severity::Error {
            return true;
        }
        i = i + 1;
    }
    false
}

// ─────────────────────────────────────────────────────────────────────────────
// What the rules know of the project folder
// ─────────────────────────────────────────────────────────────────────────────

/// Facts about the project folder the rules depend on.
pub struct Project {
    /// Asset paths (as written in the config) whose file exists.
    pub existing_assets: Vec<String>,
    /// Languages whose UI strings load.
    pub loadable_languages: Vec<String>,
}

pub open spec fn asset_exists(p: Project, asset: Seq<char>) -> bool {
    views(p.existing_assets@).contains(asset)
}

pub open spec fn lang_loads(p: Project, lang: Seq<char>) -> bool {
    views(p.loadable_languages@).contains(lang)
}

// ─────────────────────────────────────────────────────────────────────────────
// Paths
// ─────────────────────────────────────────────────────────────────────────────

/// `base[i]`.
pub open spec fn at(base: Seq<char>, i: int) -> Seq<char> {
    base + "["@ + dec(i as nat) + "]"@
}

/// `base.name`.
pub open spec fn dot(base: Seq<char>, name: Seq<char>) -> Seq<char> {
    base + "."@ + name
}

fn at_path(base: &str, i: usize) -> (r: String)
    ensures
        r@ == at(base@, i as int),
{
    let n = decimal(i as u64);
    let mut r = concat3(base, "[", n.as_str());
    r.append("]");
    r
}

fn dot_path(base: &str, name: &str) -> (r: String)
    ensures
        r@ == dot(base@, name@),
{
    concat3(base, ".", name)
}

// ─────────────────────────────────────────────────────────────────────────────
// Shared checks
// ─────────────────────────────────────────────────────────────────────────────

/// The schemes a link may use.
pub open spec fn allowed_scheme(t: Seq<char>) -> bool {
    starts_with(t, "https://"@) || starts_with(t, "http://"@) || starts_with(t, "mailto:"@)
        || starts_with(t, "tel:"@)
}

/// Only allowed schemes pass: a `javascript:` link would put executable code
/// into the generated page. Plain `http://` passes with a warning.
pub open spec fn url_diags(path: Seq<char>, url: Seq<char>) -> Seq<DiagView> {
    let t = trim(url);
    if t.len() == 0 {
        seq![err(path, msg("msg.url.empty"@))]
    } else {
        (if !allowed_scheme(t) {
            seq![err(path, msg1("msg.url.notAllowed"@, "value"@, t))]
        } else {
            seq![]
        }) + (if starts_with(t, "http://"@) {
            seq![warn(path, msg("msg.url.insecure"@))]
        } else {
            seq![]
        })
    }
}

fn check_url(path: &str, url: &str, out: &mut Vec<Diagnostic>)
    ensures
        diags(final(out)@) == diags(old(out)@) + url_diags(path@, url@),
{
    let t = trimmed(url);
    let ghost before = diags(out@);
    if t.as_str().is_empty() {
        push_error(out, owned(path), "msg.url.empty");
        return;
    }
    let ok = str_starts_with(t.as_str(), "https://") || str_starts_with(t.as_str(), "http://")
        || str_starts_with(t.as_str(), "mailto:") || str_starts_with(t.as_str(), "tel:");
    if !ok {
        push(
            out,
            Diagnostic::error(owned(path), Message::new("msg.url.notAllowed").with("value", t.as_str())),
        );
    }
    if str_starts_with(t.as_str(), "http://") {
        push_warning(out, owned(path), "msg.url.insecure");
    }
    assert(diags(out@) =~= before + url_diags(path@, url@));
}

/// `#rgb`, `#rgba`, `#rrggbb` and `#rrggbbaa` are checked; anything not
/// starting with `#` is taken for a CSS function or keyword and passes.
pub open spec fn color_diags(path: Seq<char>, color: Seq<char>) -> Seq<DiagView> {
    let t = trim(color);
    if t.len() == 0 {
        seq![err(path, msg("msg.color.empty"@))]
    } else if t[0] != '#' {
        seq![]
    } else {
        let hex = t.skip(1);
        if (hex.len() == 3 || hex.len() == 4 || hex.len() == 6 || hex.len() == 8) && (forall|i: int|
            0 <= i < hex.len() ==> is_hex(#[trigger] hex[i])) {
            seq![]
        } else {
            seq![err(path, msg1("msg.color.invalid"@, "value"@, t))]
        }
    }
}

fn all_hex(v: &Vec<char>, from: usize) -> (r: bool)
    requires
        from <= v@.len(),
    ensures
        r == forall|i: int| 0 <= i < v@.skip(from as int).len() ==> is_hex(#[trigger] v@.skip(from as int)[i]),
{
    let n = v.len();
    let mut i: usize = from;
    while i < n
        invariant
            n == v@.len(),
            from <= i <= n,
            forall|k: int| from <= k < i ==> is_hex(#[trigger] v@[k]),
        decreases n - i,
    {
        if !is_ascii_hexdigit(v[i]) {
            assert(v@.skip(from as int)[i - from] == v@[i as int]);
            return false;
        }
        i = i + 1;
    }
    assert forall|k: int| 0 <= k < v@.skip(from as int).len() implies is_hex(#[trigger] v@.skip(from as int)[k]) by {
        assert(v@.skip(from as int)[k] == v@[k + from]);
    }
    true
}

fn check_color(path: &str, color: &str, out: &mut Vec<Diagnostic>)
    ensures
        diags(final(out)@) == diags(old(out)@) + color_diags(path@, color@),
{
    let ghost before = diags(out@);
    let v = chars_of(color);
    let (a, b) = trim_bounds(&v);
    let t = substring(&v, a, b);
    let tv = chars_of(t.as_str());
    if tv.len() == 0 {
        push_error(out, owned(path), "msg.color.empty");
        assert(diags(out@) =~= before + color_diags(path@, color@));
        return;
    }
    if tv[0] != '#' {
        assert(diags(out@) =~= before + color_diags(path@, color@));
        return;
    }
    let len = tv.len() - 1;
    let valid_len = len == 3 || len == 4 || len == 6 || len == 8;
    let valid_digits = all_hex(&tv, 1);
    if !valid_len || !valid_digits {
        push(
            out,
            Diagnostic::error(owned(path), Message::new("msg.color.invalid").with("value", t.as_str())),
        );
    }
    assert(diags(out@) =~= before + color_diags(path@, color@));
}

/// The number of leading ASCII digits.
pub open spec fn lead_digits(s: Seq<char>) -> nat
    decreases s.len(),
{
    if s.len() > 0 && is_digit(s[0]) {
        1 + lead_digits(s.skip(1))
    } else {
        0
    }
}

/// An exponent part `(e|E) [+-]? digit+`, or nothing.
pub open spec fn exp_ok(e: Seq<char>) -> bool {
    e.len() == 0 || ((e[0] == 'e' || e[0] == 'E') && {
        let r = e.skip(1);
        let r2 = if r.len() > 0 && (r[0] == '+' || r[0] == '-') {
            r.skip(1)
        } else {
            r
        };
        r2.len() > 0 && lead_digits(r2) == r2.len()
    })
}

/// `Digit+ | Digit+ '.' Digit* | Digit* '.' Digit+`, then an optional exponent.
pub open spec fn number_ok(s: Seq<char>) -> bool {
    let a = lead_digits(s);
    let rest = s.skip(a as int);
    if rest.len() > 0 && rest[0] == '.' {
        let frac = rest.skip(1);
        let b = lead_digits(frac);
        a + b > 0 && exp_ok(frac.skip(b as int))
    } else {
        a > 0 && exp_ok(rest)
    }
}

pub open spec fn lowered(s: Seq<char>) -> Seq<char> {
    s.map_values(|c: char| lower(c))
}

/// Whether `f32::from_str` accepts `s`: its documented grammar
/// `Sign? ('inf' | 'infinity' | 'nan' | Number)`, letters in any case.
pub open spec fn float_ok(s: Seq<char>) -> bool {
    let body = if s.len() > 0 && (s[0] == '+' || s[0] == '-') {
        s.skip(1)
    } else {
        s
    };
    let l = lowered(body);
    l == "inf"@ || l == "infinity"@ || l == "nan"@ || number_ok(body)
}

fn count_digits(v: &Vec<char>, from: usize) -> (r: usize)
    requires
        from <= v@.len(),
    ensures
        from + r <= v@.len(),
        r == lead_digits(v@.skip(from as int)),
{
    let n = v.len();
    let mut k: usize = from;
    assert(v@.skip(from as int) =~= v@.skip(from as int));
    while k < n && is_ascii_digit(v[k])
        invariant
            n == v@.len(),
            from <= k <= n,
            lead_digits(v@.skip(from as int)) == (k - from) + lead_digits(v@.skip(k as int)),
        decreases n - k,
    {
        assert(v@.skip(k as int).skip(1) =~= v@.skip(k + 1));
        k = k + 1;
    }
    k - from
}

fn exp_ok_at(v: &Vec<char>, from: usize) -> (r: bool)
    requires
        from <= v@.len(),
    ensures
        r == exp_ok(v@.skip(from as int)),
{
    let n = v.len();
    let ghost e = v@.skip(from as int);
    if from == n {
        return true;
    }
    if v[from] != 'e' && v[from] != 'E' {
        return false;
    }
    let mut k = from + 1;
    assert(e.skip(1) =~= v@.skip(k as int));
    if k < n && (v[k] == '+' || v[k] == '-') {
        assert(v@.skip(k as int).skip(1) =~= v@.skip(k + 1));
        k = k + 1;
    }
    let d = count_digits(v, k);
    k < n && d == n - k
}

fn float_syntax_ok(v: &Vec<char>) -> (r: bool)
    ensures
        r == float_ok(v@),
{
    let n = v.len();
    let mut start: usize = 0;
    if n > 0 && (v[0] == '+' || v[0] == '-') {
        start = 1;
    }
    let body = substring(v, start, n);
    let bv = chars_of(body.as_str());
    assert(bv@ =~= (if v@.len() > 0 && (v@[0] == '+' || v@[0] == '-') { v@.skip(1) } else { v@ }));
    let mut low: Vec<char> = Vec::new();
    let m = bv.len();
    let mut i: usize = 0;
    while i < m
        invariant
            m == bv@.len(),
            i <= m,
            low@ == lowered(bv@.take(i as int)),
        decreases m - i,
    {
        low.push(crate::text::ascii_lower(bv[i]));
        assert(lowered(bv@.take(i + 1)) =~= lowered(bv@.take(i as int)).push(lower(bv@[i as int])));
        i = i + 1;
    }
    assert(bv@.take(m as int) =~= bv@);
    let inf = chars_of("inf");
    let infinity = chars_of("infinity");
    let nan = chars_of("nan");
    if crate::text::seq_eq(&low, &inf) || crate::text::seq_eq(&low, &infinity) || crate::text::seq_eq(&low, &nan) {
        return true;
    }
    let a = count_digits(&bv, 0);
    assert(bv@.skip(0) =~= bv@);
    if a < m && bv[a] == '.' {
        let b = count_digits(&bv, a + 1);
        assert(bv@.skip(a as int).skip(1) =~= bv@.skip(a + 1));
        assert(bv@.skip(a + 1).skip(b as int) =~= bv@.skip(a + 1 + b));
        a + b > 0 && exp_ok_at(&bv, a + 1 + b)
    } else {
        a > 0 && exp_ok_at(&bv, a)
    }
}

/// Whether `t` ends with unit `u` and has something in front of it.
pub open spec fn unit_fits(t: Seq<char>, u: Seq<char>) -> bool {
    ends_with(t, u) && t.len() > u.len()
}

/// The first unit of `px rem em % vw vh pt ch` that `t` ends with.
pub open spec fn unit_of(t: Seq<char>) -> Option<Seq<char>> {
    if unit_fits(t, "px"@) {
        Some("px"@)
    } else if unit_fits(t, "rem"@) {
        Some("rem"@)
    } else if unit_fits(t, "em"@) {
        Some("em"@)
    } else if unit_fits(t, "%"@) {
        Some("%"@)
    } else if unit_fits(t, "vw"@) {
        Some("vw"@)
    } else if unit_fits(t, "vh"@) {
        Some("vh"@)
    } else if unit_fits(t, "pt"@) {
        Some("pt"@)
    } else if unit_fits(t, "ch"@) {
        Some("ch"@)
    } else {
        None
    }
}

/// A number with a unit; `0` needs none, and function notation such as
/// `calc()` passes. The point is catching unitless values like `"22"`,
/// which CSS silently ignores.
pub open spec fn length_diags(path: Seq<char>, value: Seq<char>) -> Seq<DiagView> {
    let t = trim(value);
    if t.len() == 0 {
        seq![err(path, msg("msg.length.empty"@))]
    } else if has_char(t, '(') || t == "0"@ {
        seq![]
    } else {
        match unit_of(t) {
            None => seq![err(path, msg1("msg.length.noUnit"@, "value"@, t))],
            Some(u) => if float_ok(trim(t.take(t.len() - u.len()))) {
                seq![]
            } else {
                seq![err(path, msg1("msg.length.notNumber"@, "value"@, t))]
            },
        }
    }
}

fn fits(t: &Vec<char>, u: &str) -> (r: bool)
    ensures
        r == unit_fits(t@, u@),
{
    let uv = chars_of(u);
    vec_ends_with(t, &uv) && t.len() > uv.len()
}

fn unit_len(t: &Vec<char>) -> (r: Option<usize>)
    ensures
        match unit_of(t@) {
            Some(u) => r == Some(u.len() as usize),
            None => r is None,
        },
{
    proof {
        reveal_strlit("px");
        reveal_strlit("rem");
        reveal_strlit("em");
        reveal_strlit("%");
        reveal_strlit("vw");
        reveal_strlit("vh");
        reveal_strlit("pt");
        reveal_strlit("ch");
    }
    if fits(t, "px") {
        Some(2)
    } else if fits(t, "rem") {
        Some(3)
    } else if fits(t, "em") {
        Some(2)
    } else if fits(t, "%") {
        Some(1)
    } else if fits(t, "vw") {
        Some(2)
    } else if fits(t, "vh") {
        Some(2)
    } else if fits(t, "pt") {
        Some(2)
    } else if fits(t, "ch") {
        Some(2)
    } else {
        None
    }
}

fn check_css_length(path: &str, value: &str, out: &mut Vec<Diagnostic>)
    ensures
        diags(final(out)@) == diags(old(out)@) + length_diags(path@, value@),
{
    let ghost before = diags(out@);
    let t = trimmed(value);
    let tv = chars_of(t.as_str());
    if tv.len() == 0 {
        push_error(out, owned(path), "msg.length.empty");
        assert(diags(out@) =~= before + length_diags(path@, value@));
        return;
    }
    if vec_has_char(&tv, '(') || str_eq(t.as_str(), "0") {
        assert(diags(out@) =~= before + length_diags(path@, value@));
        return;
    }
    match unit_len(&tv) {
        None => {
            push(
                out,
                Diagnostic::error(owned(path), Message::new("msg.length.noUnit").with("value", t.as_str())),
            );
        },
        Some(ulen) => {
            let number = substring(&tv, 0, tv.len() - ulen);
            assert(number@ =~= tv@.take(tv@.len() - ulen));
            let nv = chars_of(number.as_str());
            let (a, b) = trim_bounds(&nv);
            let core = substring(&nv, a, b);
            let cv = chars_of(core.as_str());
            if !float_syntax_ok(&cv) {
                push(
                    out,
                    Diagnostic::error(owned(path), Message::new("msg.length.notNumber").with("value", t.as_str())),
                );
            }
        },
    }
    assert(diags(out@) =~= before + length_diags(path@, value@));
}

/// A referenced file must exist; finding out from a 404 after the build is worse.
pub open spec fn asset_diags(path: Seq<char>, asset: AssetPath, p: Project) -> Seq<DiagView> {
    if asset_exists(p, asset.0@) {
        seq![]
    } else {
        seq![err(path, msg1("msg.asset.missing"@, "path"@, asset.0@))]
    }
}

pub open spec fn opt_asset_diags(path: Seq<char>, asset: Option<AssetPath>, p: Project) -> Seq<DiagView> {
    match asset {
        Some(a) => asset_diags(path, a, p),
        None => seq![],
    }
}

fn check_asset(path: &str, asset: &AssetPath, project: &Project, out: &mut Vec<Diagnostic>)
    ensures
        diags(final(out)@) == diags(old(out)@) + asset_diags(path@, *asset, *project),
{
    let ghost before = diags(out@);
    if !crate::config::contains_str(&project.existing_assets, asset.0.as_str()) {
        push(
            out,
            Diagnostic::error(owned(path), Message::new("msg.asset.missing").with("path", asset.0.as_str())),
        );
    }
    assert(diags(out@) =~= before + asset_diags(path@, *asset, *project));
}

fn check_optional_asset(path: &str, asset: &Option<AssetPath>, project: &Project, out: &mut Vec<Diagnostic>)
    ensures
        diags(final(out)@) == diags(old(out)@) + opt_asset_diags(path@, *asset, *project),
{
    let ghost before = diags(out@);
    if let Some(a) = asset {
        check_asset(path, a, project, out);
    }
    assert(diags(out@) =~= before + opt_asset_diags(path@, *asset, *project));
}

// ─────────────────────────────────────────────────────────────────────────────
// Fonts
// ─────────────────────────────────────────────────────────────────────────────

/// Numbers joined with `", "`.
pub open spec fn join_nums(ws: Seq<u16>) -> Seq<char>
    decreases ws.len(),
{
    if ws.len() == 0 {
        seq![]
    } else if ws.len() == 1 {
        dec(ws[0] as nat)
    } else {
        join_nums(ws.drop_last()) + ", "@ + dec(ws.last() as nat)
    }
}

fn join_weights(ws: &Vec<u16>) -> (r: String)
    ensures
        r@ == join_nums(ws@),
{
    let mut out = String::new();
    let n = ws.len();
    let mut i: usize = 0;
    proof {
        assert(ws@.take(0) =~= Seq::<u16>::empty());
    }
    while i < n
        invariant
            n == ws@.len(),
            i <= n,
            out@ == join_nums(ws@.take(i as int)),
        decreases n - i,
    {
        let d = decimal(ws[i] as u64);
        assert(ws@.take(i + 1).drop_last() =~= ws@.take(i as int));
        if i > 0 {
            out.append(", ");
        } else {
            assert(out@ =~= Seq::<char>::empty());
        }
        out.append(d.as_str());
        i = i + 1;
    }
    assert(ws@.take(n as int) =~= ws@);
    out
}

/// The value of a decimal digit string, capped at 3 (all the range check
/// needs to tell apart).
pub open spec fn capped_value(s: Seq<char>) -> nat
    decreases s.len(),
{
    if s.len() == 0 {
        0
    } else {
        let v = capped_value(s.drop_last()) * 10 + ((s.last() as u32) - ('0' as u32)) as nat;
        if v > 3 {
            3
        } else {
            v
        }
    }
}

pub open spec fn all_digits(s: Seq<char>) -> bool {
    forall|i: int| 0 <= i < s.len() ==> is_digit(#[trigger] s[i])
}

pub open spec fn all_zero(s: Seq<char>) -> bool {
    forall|i: int| 0 <= i < s.len() ==> #[trigger] s[i] == '0'
}

/// Whether the written line height (a number as `Display` writes it, such
/// as `"1.6"`) lies within `1.0 ..= 2.5`.
pub open spec fn line_height_ok(s: Seq<char>) -> bool {
    let i = lead_digits(s);
    let whole = s.take(i as int);
    let frac = if i < s.len() {
        s.skip(i as int + 1)
    } else {
        seq![]
    };
    let form = i > 0 && (i == s.len() || (s[i as int] == '.' && frac.len() > 0 && all_digits(frac)));
    form && (capped_value(whole) == 1 || (capped_value(whole) == 2 && (frac.len() == 0 || !('5' <= frac[0]) || (frac[0] == '5' && all_zero(frac.skip(1))))))
}

fn capped(v: &Vec<char>, to: usize) -> (r: u32)
    requires
        to <= v@.len(),
        all_digits(v@.take(to as int)),
    ensures
        r == capped_value(v@.take(to as int)),
{
    let mut acc: u32 = 0;
    let mut i: usize = 0;
    assert(v@.take(0) =~= Seq::<char>::empty());
    while i < to
        invariant
            to <= v@.len(),
            i <= to,
            all_digits(v@.take(to as int)),
            acc == capped_value(v@.take(i as int)),
            acc <= 3,
        decreases to - i,
    {
        assert(v@.take(i + 1).drop_last() =~= v@.take(i as int));
        assert(v@.take(to as int)[i as int] == v@[i as int]);
        let d = (v[i] as u32) - ('0' as u32);
        let next = acc * 10 + d;
        acc = if next > 3 {
            3
        } else {
            next
        };
        i = i + 1;
    }
    acc
}

fn line_height_in_range(s: &str) -> (r: bool)
    ensures
        r == line_height_ok(s@),
{
    let v = chars_of(s);
    let n = v.len();
    let i = count_digits(&v, 0);
    assert(v@.skip(0) =~= v@);
    proof {
        assert forall|k: int| 0 <= k < i implies is_digit(#[trigger] v@.take(i as int)[k]) by {
            lemma_lead_digits(v@, k);
        }
    }
    if i == 0 {
        return false;
    }
    let whole = capped(&v, i);
    let mut frac_start = n;
    if i < n {
        if v[i] != '.' {
            return false;
        }
        frac_start = i + 1;
        let digits = count_digits(&v, frac_start);
        if frac_start == n || digits != n - frac_start {
            proof {
                if frac_start < n {
                    lemma_not_all_digits(v@.skip(frac_start as int));
                }
            }
            return false;
        }
        proof {
            lemma_all_lead_digits(v@.skip(frac_start as int));
        }
    }
    assert(i == n ==> v@.skip(frac_start as int) =~= Seq::<char>::empty());
    if whole == 1 {
        return true;
    }
    if whole != 2 {
        return false;
    }
    if frac_start >= n {
        return true;
    }
    let first = v[frac_start];
    if !('5' <= first) {
        return true;
    }
    if first != '5' {
        return false;
    }
    assert(v@.skip(frac_start as int).skip(1) =~= v@.skip(frac_start + 1));
    zeros_from(&v, frac_start + 1)
}

fn zeros_from(v: &Vec<char>, from: usize) -> (r: bool)
    requires
        from <= v@.len(),
    ensures
        r == all_zero(v@.skip(from as int)),
{
    let n = v.len();
    let mut k = from;
    while k < n
        invariant
            from <= k <= n,
            n == v@.len(),
            forall|j: int| from <= j < k ==> v@[j] == '0',
        decreases n - k,
    {
        if v[k] != '0' {
            assert(v@.skip(from as int)[k - from] == v@[k as int]);
            return false;
        }
        k = k + 1;
    }
    assert forall|j: int| 0 <= j < v@.skip(from as int).len() implies #[trigger] v@.skip(from as int)[j] == '0' by {
        assert(v@.skip(from as int)[j] == v@[j + from]);
    }
    true
}

proof fn lemma_lead_digits(s: Seq<char>, k: int)
    requires
        0 <= k < lead_digits(s),
    ensures
        is_digit(s[k]),
        k < s.len(),
    decreases s.len(),
{
    if k > 0 {
        lemma_lead_digits(s.skip(1), k - 1);
    }
}

proof fn lemma_all_lead_digits(s: Seq<char>)
    requires
        lead_digits(s) == s.len(),
    ensures
        all_digits(s),
{
    assert forall|k: int| 0 <= k < s.len() implies is_digit(#[trigger] s[k]) by {
        lemma_lead_digits(s, k);
    }
}

proof fn lemma_not_all_digits(s: Seq<char>)
    requires
        lead_digits(s) != s.len(),
    ensures
        !all_digits(s),
    decreases s.len(),
{
    if s.len() > 0 && is_digit(s[0]) {
        lemma_not_all_digits(s.skip(1));
        if all_digits(s) {
            assert forall|k: int| 0 <= k < s.skip(1).len() implies is_digit(#[trigger] s.skip(1)[k]) by {
                assert(s.skip(1)[k] == s[k + 1]);
            }
        }
    }
}

/// The weight check's warning: a heading weight the font lacks gets
/// synthesised by the browser and comes out smeared.
pub open spec fn weight_diags(f: Font) -> Seq<DiagView> {
    let hf = match f.heading_preset {
        Some(h) => h,
        None => f.preset,
    };
    let ws = hf.weights_of();
    if ws.len() > 0 && !ws.contains(f.heading_weight) {
        seq![warn("theme.font.heading_weight"@, MessageView {
            key: "msg.font.weightUnavailable"@,
            args: Map::empty().insert("font"@, seq!['@'] + hf.label_key_of()).insert(
                "weight"@,
                dec(f.heading_weight as nat),
            ).insert("weights"@, join_nums(ws)),
        })]
    } else {
        seq![]
    }
}

pub open spec fn stylesheet_diags(urls: Seq<Seq<char>>) -> Seq<DiagView>
    decreases urls.len(),
{
    if urls.len() == 0 {
        seq![]
    } else {
        stylesheet_diags(urls.drop_last()) + url_diags(
            at("theme.font.stylesheets"@, urls.len() - 1),
            urls.last(),
        )
    }
}

pub open spec fn font_diags(f: Font) -> Seq<DiagView> {
    family_diags(f) + weight_diags(f) + size_diags(f) + stylesheet_diags(views(f.stylesheets@))
}

pub open spec fn family_diags(f: Font) -> Seq<DiagView> {
    (if f.preset == FontPreset::Custom && f.family is None {
        seq![err("theme.font.family"@, msg("msg.font.customNeedsFamily"@))]
    } else {
        seq![]
    }) + (if f.heading_preset == Some(FontPreset::Custom) && f.heading_family is None {
        seq![err("theme.font.heading_family"@, msg("msg.font.customNeedsHeadingFamily"@))]
    } else {
        seq![]
    }) + (if f.preset != FontPreset::Custom && f.family is Some {
        seq![warn("theme.font.family"@, msg("msg.font.familyIgnored"@))]
    } else {
        seq![]
    }) + (if f.heading_preset is Some && f.heading_preset != Some(FontPreset::Custom)
        && f.heading_family is Some {
        seq![warn("theme.font.heading_family"@, msg("msg.font.headingFamilyIgnored"@))]
    } else {
        seq![]
    }) + (match f.family {
        Some(fam) => if !crate::i18n::present(fam@) {
            seq![err("theme.font.family"@, msg("msg.font.familyEmpty"@))]
        } else {
            seq![]
        },
        None => seq![],
    })
}

pub open spec fn size_diags(f: Font) -> Seq<DiagView> {
    length_diags("theme.font.base_size"@, f.base_size@) + (if !line_height_ok(
        f.line_height@,
    ) {
        seq![err("theme.font.line_height"@, msg1("msg.font.lineHeightRange"@, "value"@, f.line_height@))]
    } else {
        seq![]
    }) + (if trim(f.letter_spacing@) != "normal"@ {
        length_diags("theme.font.letter_spacing"@, f.letter_spacing@)
    } else {
        seq![]
    })
}

fn check_weight(font: &Font, out: &mut Vec<Diagnostic>)
    ensures
        diags(final(out)@) == diags(old(out)@) + weight_diags(*font),
{
    let ghost before = diags(out@);
    let heading_font = match font.heading_preset {
        Some(h) => h,
        None => font.preset,
    };
    let weights = heading_font.available_weights();
    let n = weights.len();
    let mut found = false;
    let mut i: usize = 0;
    while i < n
        invariant
            n == weights@.len(),
            i <= n,
            found == exists|j: int| 0 <= j < i && weights@[j] == font.heading_weight,
        decreases n - i,
    {
        if weights[i] == font.heading_weight {
            found = true;
        }
        i = i + 1;
    }
    assert(found == weights@.contains(font.heading_weight));
    if n > 0 && !found {
        let w = decimal(font.heading_weight as u64);
        let joined = join_weights(&weights);
        let m = Message::new("msg.font.weightUnavailable").with_key("font", heading_font.label_key()).with(
            "weight",
            w.as_str(),
        ).with("weights", joined.as_str());
        push(out, Diagnostic::warning(owned("theme.font.heading_weight"), m));
    }
    assert(diags(out@) =~= before + weight_diags(*font));
}

fn check_family(font: &Font, out: &mut Vec<Diagnostic>)
    ensures
        diags(final(out)@) == diags(old(out)@) + family_diags(*font),
{
    let ghost before = diags(out@);
    // The custom preset needs an explicit stack; without one the device font
    // shows and changing the font looks like it did nothing.
    if font.preset == FontPreset::Custom && font.family.is_none() {
        push_error(out, owned("theme.font.family"), "msg.font.customNeedsFamily");
    }
    if font.heading_preset == Some(FontPreset::Custom) && font.heading_family.is_none() {
        push_error(out, owned("theme.font.heading_family"), "msg.font.customNeedsHeadingFamily");
    }
    let ghost s1 = diags(out@);
    // With both a preset and a family one of them is ignored.
    if font.preset != FontPreset::Custom && font.family.is_some() {
        push_warning(out, owned("theme.font.family"), "msg.font.familyIgnored");
    }
    if font.heading_preset.is_some() && font.heading_preset != Some(FontPreset::Custom)
        && font.heading_family.is_some() {
        push_warning(out, owned("theme.font.heading_family"), "msg.font.headingFamilyIgnored");
    }
    if let Some(family) = &font.family {
        if crate::text::is_blank(family.as_str()) {
            push_error(out, owned("theme.font.family"), "msg.font.familyEmpty");
        }
    }
    assert(diags(out@) =~= before + family_diags(*font));
}

fn check_sizes(font: &Font, out: &mut Vec<Diagnostic>)
    ensures
        diags(final(out)@) == diags(old(out)@) + size_diags(*font),
{
    let ghost before = diags(out@);
    check_css_length("theme.font.base_size", font.base_size.as_str(), out);
    if !line_height_in_range(font.line_height.as_str()) {
        push(
            out,
            Diagnostic::error(
                owned("theme.font.line_height"),
                Message::new("msg.font.lineHeightRange").with("value", font.line_height.as_str()),
            ),
        );
    }
    let ghost s3 = diags(out@);
    let spacing = trimmed(font.letter_spacing.as_str());
    if !str_eq(spacing.as_str(), "normal") {
        check_css_length("theme.font.letter_spacing", font.letter_spacing.as_str(), out);
    }
    assert(diags(out@) =~= before + size_diags(*font));
}

fn check_font(font: &Font, out: &mut Vec<Diagnostic>)
    ensures
        diags(final(out)@) == diags(old(out)@) + font_diags(*font),
{
    let ghost before = diags(out@);
    check_family(font, out);
    check_weight(font, out);
    check_sizes(font, out);
    let ghost s4 = diags(out@);
    let n = font.stylesheets.len();
    let mut i: usize = 0;
    while i < n
        invariant
            n == font.stylesheets@.len(),
            i <= n,
            diags(out@) == s4 + stylesheet_diags(views(font.stylesheets@).take(i as int)),
        decreases n - i,
    {
        let path = at_path("theme.font.stylesheets", i);
        check_url(path.as_str(), font.stylesheets[i].as_str(), out);
        assert(views(font.stylesheets@).take(i + 1).drop_last() =~= views(font.stylesheets@).take(i as int));
        assert(diags(out@) =~= s4 + stylesheet_diags(views(font.stylesheets@).take(i + 1)));
        i = i + 1;
    }
    assert(views(font.stylesheets@).take(n as int) =~= views(font.stylesheets@));
    assert(diags(out@) =~= before + font_diags(*font));
}

// ─────────────────────────────────────────────────────────────────────────────
// Theme
// ─────────────────────────────────────────────────────────────────────────────

pub open spec fn background_diags(b: Background, p: Project) -> Seq<DiagView> {
    match b {
        Background::Solid { color } => color_diags("theme.background.color"@, color@),
        Background::Gradient { from, to, angle } => color_diags("theme.background.from"@, from@)
            + color_diags("theme.background.to"@, to@) + (if angle > 360 {
            seq![err("theme.background.angle"@, msg("msg.background.angleRange"@))]
        } else {
            seq![]
        }),
        Background::Pattern { color, pattern_color, size, .. } => color_diags(
            "theme.background.color"@,
            color@,
        ) + color_diags("theme.background.pattern_color"@, pattern_color@) + length_diags(
            "theme.background.size"@,
            size@,
        ) + (if trim(color@) == trim(pattern_color@) {
            seq![warn("theme.background.pattern_color"@, msg("msg.background.patternSameColor"@))]
        } else {
            seq![]
        }),
        Background::Image { src, blur, overlay, .. } => asset_diags(
            "theme.background.src"@,
            src,
            p,
        ) + length_diags("theme.background.blur"@, blur@) + match overlay {
            Some(o) => color_diags("theme.background.overlay"@, o@),
            None => seq![],
        },
    }
}

pub open spec fn decoration_diags(d: Option<Decoration>, p: Project) -> Seq<DiagView> {
    match d {
        Some(Decoration::Custom { top, bottom }) => opt_asset_diags(
            "theme.decoration.top"@,
            top,
            p,
        ) + opt_asset_diags("theme.decoration.bottom"@, bottom, p) + (if top is None
            && bottom is None {
            seq![warn("theme.decoration"@, msg("msg.decoration.empty"@))]
        } else {
            seq![]
        }),
        _ => seq![],
    }
}

pub open spec fn theme_colors_diags(c: Config) -> Seq<DiagView> {
    color_diags("theme.sheet.background"@, c.theme.sheet.background@) + color_diags(
        "theme.card.background"@,
        c.theme.card.background@,
    ) + color_diags("theme.accent"@, c.theme.accent@) + color_diags(
        "theme.text.heading"@,
        c.theme.text.heading@,
    ) + color_diags("theme.text.body"@, c.theme.text.body@) + color_diags(
        "theme.text.card_title"@,
        c.theme.text.card_title@,
    ) + color_diags("theme.text.muted"@, c.theme.text.muted@)
}

pub open spec fn theme_diags(c: Config, p: Project) -> Seq<DiagView> {
    background_diags(c.theme.background, p) + decoration_diags(c.theme.decoration, p)
        + theme_colors_diags(c) + font_diags(c.theme.font)
}

fn check_background(b: &Background, project: &Project, out: &mut Vec<Diagnostic>)
    ensures
        diags(final(out)@) == diags(old(out)@) + background_diags(*b, *project),
{
    let ghost before = diags(out@);
    match b {
        Background::Solid { color } => check_color("theme.background.color", color.as_str(), out),
        Background::Gradient { from, to, angle } => {
            check_color("theme.background.from", from.as_str(), out);
            check_color("theme.background.to", to.as_str(), out);
            if *angle > 360 {
                push_error(out, owned("theme.background.angle"), "msg.background.angleRange");
            }
        },
        Background::Pattern { color, pattern_color, size, .. } => {
            check_color("theme.background.color", color.as_str(), out);
            check_color("theme.background.pattern_color", pattern_color.as_str(), out);
            check_css_length("theme.background.size", size.as_str(), out);
            let a = trimmed(color.as_str());
            let z = trimmed(pattern_color.as_str());
            if str_eq(a.as_str(), z.as_str()) {
                push_warning(
                    out,
                    owned("theme.background.pattern_color"),
                    "msg.background.patternSameColor",
                );
            }
        },
        Background::Image { src, blur, overlay, .. } => {
            check_asset("theme.background.src", src, project, out);
            check_css_length("theme.background.blur", blur.as_str(), out);
            if let Some(o) = overlay {
                check_color("theme.background.overlay", o.as_str(), out);
            }
        },
    }
    assert(diags(out@) =~= before + background_diags(*b, *project));
}

fn check_decoration(d: &Option<Decoration>, project: &Project, out: &mut Vec<Diagnostic>)
    ensures
        diags(final(out)@) == diags(old(out)@) + decoration_diags(*d, *project),
{
    let ghost before = diags(out@);
    if let Some(Decoration::Custom { top, bottom }) = d {
        check_optional_asset("theme.decoration.top", top, project, out);
        check_optional_asset("theme.decoration.bottom", bottom, project, out);
        if top.is_none() && bottom.is_none() {
            push_warning(out, owned("theme.decoration"), "msg.decoration.empty");
        }
    }
    assert(diags(out@) =~= before + decoration_diags(*d, *project));
}

fn check_theme(config: &Config, project: &Project, out: &mut Vec<Diagnostic>)
    ensures
        diags(final(out)@) == diags(old(out)@) + theme_diags(*config, *project),
{
    let ghost before = diags(out@);
    check_background(&config.theme.background, project, out);
    check_decoration(&config.theme.decoration, project, out);
    let ghost mid = diags(out@);
    check_color("theme.sheet.background", config.theme.sheet.background.as_str(), out);
    check_color("theme.card.background", config.theme.card.background.as_str(), out);
    check_color("theme.accent", config.theme.accent.as_str(), out);
    check_color("theme.text.heading", config.theme.text.heading.as_str(), out);
    check_color("theme.text.body", config.theme.text.body.as_str(), out);
    check_color("theme.text.card_title", config.theme.text.card_title.as_str(), out);
    check_color("theme.text.muted", config.theme.text.muted.as_str(), out);
    assert(diags(out@) =~= mid + theme_colors_diags(*config));
    check_font(&config.theme.font, out);
    assert(diags(out@) =~= before + theme_diags(*config, *project));
}

// ─────────────────────────────────────────────────────────────────────────────
// Contact items
// ─────────────────────────────────────────────────────────────────────────────

/// Text on both sides of a single `@`, and a dot after it. Not a full
/// check: the point is catching typos.
pub open spec fn email_shape(v: Seq<char>) -> bool {
    exists|i: int|
        0 < i < v.len() && #[trigger] v[i] == '@' && (forall|j: int|
            0 <= j < v.len() && j != i ==> v[j] != '@') && has_char(v.skip(i + 1), '.')
}

/// How many ASCII digits `v` holds.
pub open spec fn digit_count(v: Seq<char>) -> nat
    decreases v.len(),
{
    if v.len() == 0 {
        0
    } else {
        digit_count(v.drop_last()) + if is_digit(v.last()) {
            1nat
        } else {
            0nat
        }
    }
}

/// The value must suit its kind: the renderer wraps it in mailto:/tel:, and a
/// malformed value makes a link that does nothing.
pub open spec fn contact_diags(base: Seq<char>, item: ContactItem, lang: Seq<char>) -> Seq<DiagView> {
    let value = trim(item.value.text_in(lang, lang));
    let path = dot(base, "value"@);
    if value.len() == 0 {
        seq![err(path, msg("msg.contact.valueEmpty"@))]
    } else {
        match item.kind {
            ContactKind::Email => if !email_shape(value) {
                seq![err(path, msg1("msg.contact.badEmail"@, "value"@, value))]
            } else {
                seq![]
            },
            ContactKind::Phone => if digit_count(value) < 7 {
                seq![err(path, msg1("msg.contact.badPhone"@, "value"@, value))]
            } else {
                seq![]
            },
            ContactKind::Website => url_diags(path, value),
            _ => seq![],
        }
    }
}

fn looks_like_email(v: &Vec<char>) -> (r: bool)
    ensures
        r == email_shape(v@),
{
    let n = v.len();
    let mut i: usize = 0;
    while i < n && v[i] != '@'
        invariant
            n == v@.len(),
            i <= n,
            forall|j: int| 0 <= j < i ==> v@[j] != '@',
        decreases n - i,
    {
        i = i + 1;
    }
    if i == n {
        return false;
    }
    let mut k = i + 1;
    while k < n && v[k] != '@'
        invariant
            n == v@.len(),
            i < k <= n,
            forall|j: int| i < j < k ==> v@[j] != '@',
        decreases n - k,
    {
        k = k + 1;
    }
    if k < n {
        assert(v@[k as int] == '@' && v@[i as int] == '@');
        return false;
    }
    if i == 0 {
        return false;
    }
    let rest = substring(v, i + 1, n);
    let rv = chars_of(rest.as_str());
    assert(rv@ =~= v@.skip(i + 1));
    let dot_after = vec_has_char(&rv, '.');
    if dot_after {
        assert(v@[i as int] == '@');
    }
    dot_after
}

fn count_ascii_digits(v: &Vec<char>) -> (r: usize)
    ensures
        r == digit_count(v@),
{
    let n = v.len();
    let mut c: usize = 0;
    let mut i: usize = 0;
    assert(v@.take(0) =~= Seq::<char>::empty());
    while i < n
        invariant
            n == v@.len(),
            i <= n,
            c == digit_count(v@.take(i as int)),
            c <= i,
        decreases n - i,
    {
        assert(v@.take(i + 1).drop_last() =~= v@.take(i as int));
        if is_ascii_digit(v[i]) {
            c = c + 1;
        }
        i = i + 1;
    }
    assert(v@.take(n as int) =~= v@);
    c
}

fn check_contact_item(base: &str, item: &ContactItem, default_lang: &str, out: &mut Vec<Diagnostic>)
    ensures
        diags(final(out)@) == diags(old(out)@) + contact_diags(base@, *item, default_lang@),
{
    let ghost before = diags(out@);
    let value = trimmed(item.value.get(default_lang, default_lang));
    let path = dot_path(base, "value");
    if value.as_str().is_empty() {
        push_error(out, path, "msg.contact.valueEmpty");
        assert(diags(out@) =~= before + contact_diags(base@, *item, default_lang@));
        return;
    }
    let v = chars_of(value.as_str());
    match item.kind {
        ContactKind::Email => {
            if !looks_like_email(&v) {
                push(
                    out,
                    Diagnostic::error(path, Message::new("msg.contact.badEmail").with("value", value.as_str())),
                );
            }
        },
        ContactKind::Phone => {
            if count_ascii_digits(&v) < 7 {
                push(
                    out,
                    Diagnostic::error(path, Message::new("msg.contact.badPhone").with("value", value.as_str())),
                );
            }
        },
        ContactKind::Website => check_url(path.as_str(), value.as_str(), out),
        ContactKind::Address | ContactKind::Custom => {},
    }
    assert(diags(out@) =~= before + contact_diags(base@, *item, default_lang@));
}

// ─────────────────────────────────────────────────────────────────────────────
// Sections
// ─────────────────────────────────────────────────────────────────────────────

/// `base.items[j]`.
pub open spec fn item(base: Seq<char>, j: int) -> Seq<char> {
    at(dot(base, "items"@), j)
}

fn item_path(base: &str, j: usize) -> (r: String)
    ensures
        r@ == item(base@, j as int),
{
    let items = dot_path(base, "items");
    at_path(items.as_str(), j)
}

pub open spec fn timeline_item_diags(ib: Seq<char>, it: crate::config::TimelineItem) -> Seq<DiagView> {
    (if it.title.blank() {
        seq![err(dot(ib, "title"@), msg("msg.item.titleEmpty"@))]
    } else {
        seq![]
    }) + match it.url {
        Some(u) => url_diags(dot(ib, "url"@), u@),
        None => seq![],
    }
}

pub open spec fn timeline_diags(base: Seq<char>, items: Seq<crate::config::TimelineItem>) -> Seq<DiagView>
    decreases items.len(),
{
    if items.len() == 0 {
        seq![]
    } else {
        timeline_diags(base, items.drop_last()) + timeline_item_diags(
            item(base, items.len() - 1),
            items.last(),
        )
    }
}

pub open spec fn checklist_item_diags(ib: Seq<char>, it: crate::config::ChecklistItem) -> Seq<DiagView> {
    (if it.text.blank() {
        seq![err(dot(ib, "text"@), msg("msg.checklist.textEmpty"@))]
    } else {
        seq![]
    }) + (if !it.done && it.date is Some {
        seq![warn(dot(ib, "date"@), msg("msg.checklist.dateWithoutDone"@))]
    } else {
        seq![]
    })
}

pub open spec fn checklist_diags(base: Seq<char>, items: Seq<crate::config::ChecklistItem>) -> Seq<DiagView>
    decreases items.len(),
{
    if items.len() == 0 {
        seq![]
    } else {
        checklist_diags(base, items.drop_last()) + checklist_item_diags(
            item(base, items.len() - 1),
            items.last(),
        )
    }
}

pub open spec fn tag_diags(ib: Seq<char>, t: crate::config::Tag) -> Seq<DiagView> {
    (if t.text_of().blank() {
        seq![err(ib, msg("msg.tag.empty"@))]
    } else {
        seq![]
    }) + match t {
        crate::config::Tag::WithIcon { icon, .. } => if icon@.len() > 2 {
            seq![warn(dot(ib, "icon"@), msg("msg.tag.iconTooLong"@))]
        } else {
            seq![]
        },
        _ => seq![],
    }
}

pub open spec fn tags_diags(base: Seq<char>, items: Seq<crate::config::Tag>) -> Seq<DiagView>
    decreases items.len(),
{
    if items.len() == 0 {
        seq![]
    } else {
        tags_diags(base, items.drop_last()) + tag_diags(item(base, items.len() - 1), items.last())
    }
}

pub open spec fn link_diags(ib: Seq<char>, it: crate::config::LinkItem, p: Project, lang: Seq<char>) -> Seq<DiagView> {
    (if it.title.blank() {
        seq![err(dot(ib, "title"@), msg("msg.link.titleEmpty"@))]
    } else {
        seq![]
    }) + url_diags(dot(ib, "url"@), it.url@) + opt_asset_diags(dot(ib, "thumbnail"@), it.thumbnail, p)
        + match it.badge {
        Some(b) => if b.text_in(lang, lang).len() > 8 {
            seq![warn(dot(ib, "badge"@), msg("msg.link.badgeTooLong"@))]
        } else {
            seq![]
        },
        None => seq![],
    }
}

pub open spec fn links_diags(base: Seq<char>, items: Seq<crate::config::LinkItem>, p: Project, lang: Seq<char>) -> Seq<DiagView>
    decreases items.len(),
{
    if items.len() == 0 {
        seq![]
    } else {
        links_diags(base, items.drop_last(), p, lang) + link_diags(
            item(base, items.len() - 1),
            items.last(),
            p,
            lang,
        )
    }
}

pub open spec fn contacts_diags(base: Seq<char>, items: Seq<ContactItem>, lang: Seq<char>) -> Seq<DiagView>
    decreases items.len(),
{
    if items.len() == 0 {
        seq![]
    } else {
        contacts_diags(base, items.drop_last(), lang) + contact_diags(
            item(base, items.len() - 1),
            items.last(),
            lang,
        )
    }
}

/// A warning under `base.items` when a list is empty.
pub open spec fn empty_items(base: Seq<char>, empty: bool, key: Seq<char>) -> Seq<DiagView> {
    if empty {
        seq![warn(dot(base, "items"@), msg(key))]
    } else {
        seq![]
    }
}

pub open spec fn body_diags(base: Seq<char>, body: SectionBody, p: Project, lang: Seq<char>) -> Seq<DiagView> {
    match body {
        SectionBody::About { body } => if body.blank() {
            seq![err(dot(base, "body"@), msg("msg.about.bodyEmpty"@))]
        } else {
            seq![]
        },
        SectionBody::Timeline { items } => empty_items(base, items@.len() == 0, "msg.timeline.noItems"@)
            + timeline_diags(base, items@),
        SectionBody::Checklist { items, .. } => empty_items(
            base,
            items@.len() == 0,
            "msg.checklist.noItems"@,
        ) + checklist_diags(base, items@),
        SectionBody::Tags { items } => empty_items(base, items@.len() == 0, "msg.tags.noItems"@)
            + tags_diags(base, items@),
        SectionBody::Links { items } => empty_items(
            base,
            forall|j: int| 0 <= j < items@.len() ==> !(#[trigger] items@[j]).enabled,
            "msg.links.noVisible"@,
        ) + links_diags(base, items@, p, lang),
        SectionBody::Contact { items } => empty_items(base, items@.len() == 0, "msg.contact.noItems"@)
            + contacts_diags(base, items@, lang),
    }
}

/// The section's emoji is meant to be one glyph; longer pushes the layout out of shape.
pub open spec fn section_diags(base: Seq<char>, s: Section, p: Project, lang: Seq<char>) -> Seq<DiagView> {
    (match s.icon {
        Some(icon) => if icon@.len() > 2 {
            seq![warn(dot(base, "icon"@), msg("msg.section.iconTooLong"@))]
        } else {
            seq![]
        },
        None => seq![],
    }) + body_diags(base, s.body, p, lang)
}

fn check_timeline(base: &str, items: &Vec<crate::config::TimelineItem>, out: &mut Vec<Diagnostic>)
    ensures
        diags(final(out)@) == diags(old(out)@) + timeline_diags(base@, items@),
{
    let ghost before = diags(out@);
    let n = items.len();
    let mut j: usize = 0;
    while j < n
        invariant
            n == items@.len(),
            j <= n,
            diags(out@) == before + timeline_diags(base@, items@.take(j as int)),
        decreases n - j,
    {
        let ghost mid = diags(out@);
        let it = &items[j];
        let ib = item_path(base, j);
        if it.title.is_empty() {
            let p = dot_path(ib.as_str(), "title");
            push_error(out, p, "msg.item.titleEmpty");
        }
        if let Some(url) = &it.url {
            let p = dot_path(ib.as_str(), "url");
            check_url(p.as_str(), url.as_str(), out);
        }
        assert(items@.take(j + 1).drop_last() =~= items@.take(j as int));
        assert(diags(out@) =~= mid + timeline_item_diags(ib@, *it));
        assert(diags(out@) =~= before + timeline_diags(base@, items@.take(j + 1)));
        j = j + 1;
    }
    assert(items@.take(n as int) =~= items@);
}

fn check_checklist(base: &str, items: &Vec<crate::config::ChecklistItem>, out: &mut Vec<Diagnostic>)
    ensures
        diags(final(out)@) == diags(old(out)@) + checklist_diags(base@, items@),
{
    let ghost before = diags(out@);
    let n = items.len();
    let mut j: usize = 0;
    while j < n
        invariant
            n == items@.len(),
            j <= n,
            diags(out@) == before + checklist_diags(base@, items@.take(j as int)),
        decreases n - j,
    {
        let ghost mid = diags(out@);
        let it = &items[j];
        let ib = item_path(base, j);
        if it.text.is_empty() {
            push_error(out, dot_path(ib.as_str(), "text"), "msg.checklist.textEmpty");
        }
        // A date without the done mark suggests one of the two is a slip.
        if !it.done && it.date.is_some() {
            push_warning(out, dot_path(ib.as_str(), "date"), "msg.checklist.dateWithoutDone");
        }
        assert(items@.take(j + 1).drop_last() =~= items@.take(j as int));
        assert(diags(out@) =~= mid + checklist_item_diags(ib@, *it));
        assert(diags(out@) =~= before + checklist_diags(base@, items@.take(j + 1)));
        j = j + 1;
    }
    assert(items@.take(n as int) =~= items@);
}

fn check_tags(base: &str, items: &Vec<crate::config::Tag>, out: &mut Vec<Diagnostic>)
    ensures
        diags(final(out)@) == diags(old(out)@) + tags_diags(base@, items@),
{
    let ghost before = diags(out@);
    let n = items.len();
    let mut j: usize = 0;
    while j < n
        invariant
            n == items@.len(),
            j <= n,
            diags(out@) == before + tags_diags(base@, items@.take(j as int)),
        decreases n - j,
    {
        let ghost mid = diags(out@);
        let tag = &items[j];
        let ib = item_path(base, j);
        if tag.text().is_empty() {
            push_error(out, owned(ib.as_str()), "msg.tag.empty");
        }
        if let Some(icon) = tag.icon() {
            let iv = chars_of(icon);
            if iv.len() > 2 {
                push_warning(out, dot_path(ib.as_str(), "icon"), "msg.tag.iconTooLong");
            }
        }
        assert(items@.take(j + 1).drop_last() =~= items@.take(j as int));
        assert(diags(out@) =~= mid + tag_diags(ib@, *tag));
        assert(diags(out@) =~= before + tags_diags(base@, items@.take(j + 1)));
        j = j + 1;
    }
    assert(items@.take(n as int) =~= items@);
}

fn check_link(ib: &str, it: &crate::config::LinkItem, project: &Project, default_lang: &str, out: &mut Vec<Diagnostic>)
    ensures
        diags(final(out)@) == diags(old(out)@) + link_diags(ib@, *it, *project, default_lang@),
{
    let ghost before = diags(out@);
    if it.title.is_empty() {
        push_error(out, dot_path(ib, "title"), "msg.link.titleEmpty");
    }
    let up = dot_path(ib, "url");
    check_url(up.as_str(), it.url.as_str(), out);
    let tp = dot_path(ib, "thumbnail");
    check_optional_asset(tp.as_str(), &it.thumbnail, project, out);
    if let Some(badge) = &it.badge {
        let bv = chars_of(badge.get(default_lang, default_lang));
        if bv.len() > 8 {
            push_warning(out, dot_path(ib, "badge"), "msg.link.badgeTooLong");
        }
    }
    assert(diags(out@) =~= before + link_diags(ib@, *it, *project, default_lang@));
}

fn check_links(base: &str, items: &Vec<crate::config::LinkItem>, project: &Project, default_lang: &str, out: &mut Vec<Diagnostic>)
    ensures
        diags(final(out)@) == diags(old(out)@) + links_diags(base@, items@, *project, default_lang@),
{
    let ghost before = diags(out@);
    let n = items.len();
    let mut j: usize = 0;
    while j < n
        invariant
            n == items@.len(),
            j <= n,
            diags(out@) == before + links_diags(base@, items@.take(j as int), *project, default_lang@),
        decreases n - j,
    {
        let ib = item_path(base, j);
        check_link(ib.as_str(), &items[j], project, default_lang, out);
        assert(items@.take(j + 1).drop_last() =~= items@.take(j as int));
        assert(diags(out@) =~= before + links_diags(base@, items@.take(j + 1), *project, default_lang@));
        j = j + 1;
    }
    assert(items@.take(n as int) =~= items@);
}

fn check_contacts(base: &str, items: &Vec<ContactItem>, default_lang: &str, out: &mut Vec<Diagnostic>)
    ensures
        diags(final(out)@) == diags(old(out)@) + contacts_diags(base@, items@, default_lang@),
{
    let ghost before = diags(out@);
    let n = items.len();
    let mut j: usize = 0;
    while j < n
        invariant
            n == items@.len(),
            j <= n,
            diags(out@) == before + contacts_diags(base@, items@.take(j as int), default_lang@),
        decreases n - j,
    {
        let ib = item_path(base, j);
        check_contact_item(ib.as_str(), &items[j], default_lang, out);
        assert(items@.take(j + 1).drop_last() =~= items@.take(j as int));
        assert(diags(out@) =~= before + contacts_diags(base@, items@.take(j + 1), default_lang@));
        j = j + 1;
    }
    assert(items@.take(n as int) =~= items@);
}

fn no_link_enabled(items: &Vec<crate::config::LinkItem>) -> (r: bool)
    ensures
        r == forall|j: int| 0 <= j < items@.len() ==> !(#[trigger] items@[j]).enabled,
{
    let n = items.len();
    let mut j: usize = 0;
    while j < n
        invariant
            n == items@.len(),
            j <= n,
            forall|k: int| 0 <= k < j ==> !(#[trigger] items@[k]).enabled,
        decreases n - j,
    {
        if items[j].enabled {
            return false;
        }
        j = j + 1;
    }
    true
}

fn check_section(base: &str, section: &Section, project: &Project, default_lang: &str, out: &mut Vec<Diagnostic>)
    ensures
        diags(final(out)@) == diags(old(out)@) + section_diags(base@, *section, *project, default_lang@),
{
    let ghost before = diags(out@);
    if let Some(icon) = &section.icon {
        let iv = chars_of(icon.as_str());
        if iv.len() > 2 {
            push_warning(out, dot_path(base, "icon"), "msg.section.iconTooLong");
        }
    }
    let ghost mid = diags(out@);
    match &section.body {
        SectionBody::About { body } => {
            if body.is_empty() {
                push_error(out, dot_path(base, "body"), "msg.about.bodyEmpty");
            }
        },
        SectionBody::Timeline { items } => {
            if items.len() == 0 {
                push_warning(out, dot_path(base, "items"), "msg.timeline.noItems");
            }
            check_timeline(base, items, out);
        },
        SectionBody::Checklist { items, .. } => {
            if items.len() == 0 {
                push_warning(out, dot_path(base, "items"), "msg.checklist.noItems");
            }
            check_checklist(base, items, out);
        },
        SectionBody::Tags { items } => {
            if items.len() == 0 {
                push_warning(out, dot_path(base, "items"), "msg.tags.noItems");
            }
            check_tags(base, items, out);
        },
        SectionBody::Links { items } => {
            if no_link_enabled(items) {
                push_warning(out, dot_path(base, "items"), "msg.links.noVisible");
            }
            check_links(base, items, project, default_lang, out);
        },
        SectionBody::Contact { items } => {
            if items.len() == 0 {
                push_warning(out, dot_path(base, "items"), "msg.contact.noItems");
            }
            check_contacts(base, items, default_lang, out);
        },
    }
    assert(diags(out@) =~= mid + body_diags(base@, section.body, *project, default_lang@));
    assert(diags(out@) =~= before + section_diags(base@, *section, *project, default_lang@));
}

// ─────────────────────────────────────────────────────────────────────────────
// Schema version, site, profile, socials, section list
// ─────────────────────────────────────────────────────────────────────────────

pub open spec fn schema_diags(c: Config) -> Seq<DiagView> {
    if c.schema_version != SCHEMA_VERSION {
        seq![err("schema_version"@, MessageView {
            key: "msg.schemaVersion"@,
            args: Map::empty().insert("found"@, dec(c.schema_version as nat)).insert("supported"@, "1"@),
        })]
    } else {
        seq![]
    }
}

fn check_schema_version(config: &Config, out: &mut Vec<Diagnostic>)
    ensures
        diags(final(out)@) == diags(old(out)@) + schema_diags(*config),
{
    let ghost before = diags(out@);
    if config.schema_version != SCHEMA_VERSION {
        let found = decimal(config.schema_version as u64);
        let supported = decimal(SCHEMA_VERSION as u64);
        proof {
            reveal_strlit("1");
            assert(dec(1) =~= "1"@);
        }
        let m = Message::new("msg.schemaVersion").with("found", found.as_str()).with(
            "supported",
            supported.as_str(),
        );
        push(out, Diagnostic::error(owned("schema_version"), m));
    }
    assert(diags(out@) =~= before + schema_diags(*config));
}

pub open spec fn site_diags(c: Config, p: Project) -> Seq<DiagView> {
    (if c.site.title.blank() {
        seq![err("site.title"@, msg("msg.site.titleEmpty"@))]
    } else {
        seq![]
    }) + match c.site.base_url {
        None => seq![warn("site.base_url"@, msg("msg.site.noBaseUrl"@))],
        Some(url) => url_diags("site.base_url"@, url@),
    } + opt_asset_diags("site.og_image"@, c.site.og_image, p) + opt_asset_diags(
        "site.favicon"@,
        c.site.favicon,
        p,
    )
}

fn check_site(config: &Config, project: &Project, out: &mut Vec<Diagnostic>)
    ensures
        diags(final(out)@) == diags(old(out)@) + site_diags(*config, *project),
{
    let ghost before = diags(out@);
    if config.site.title.is_empty() {
        push_error(out, owned("site.title"), "msg.site.titleEmpty");
    }
    match &config.site.base_url {
        None => push_warning(out, owned("site.base_url"), "msg.site.noBaseUrl"),
        Some(url) => check_url("site.base_url", url.as_str(), out),
    }
    check_optional_asset("site.og_image", &config.site.og_image, project, out);
    check_optional_asset("site.favicon", &config.site.favicon, project, out);
    assert(diags(out@) =~= before + site_diags(*config, *project));
}

pub open spec fn profile_diags(c: Config, p: Project) -> Seq<DiagView> {
    (if c.profile.name.blank() {
        seq![err("profile.name"@, msg("msg.profile.nameEmpty"@))]
    } else {
        seq![]
    }) + opt_asset_diags("profile.avatar"@, c.profile.avatar, p)
}

fn check_profile(config: &Config, project: &Project, out: &mut Vec<Diagnostic>)
    ensures
        diags(final(out)@) == diags(old(out)@) + profile_diags(*config, *project),
{
    let ghost before = diags(out@);
    if config.profile.name.is_empty() {
        push_error(out, owned("profile.name"), "msg.profile.nameEmpty");
    }
    check_optional_asset("profile.avatar", &config.profile.avatar, project, out);
    assert(diags(out@) =~= before + profile_diags(*config, *project));
}

pub open spec fn social_diags(base: Seq<char>, s: crate::config::Social, p: Project) -> Seq<DiagView> {
    url_diags(dot(base, "url"@), s.url@) + (if s.platform == Platform::Custom && s.icon is None {
        seq![err(dot(base, "icon"@), msg("msg.social.customNeedsIcon"@))]
    } else {
        seq![]
    }) + opt_asset_diags(dot(base, "icon"@), s.icon, p)
}

pub open spec fn socials_diags(socials: Seq<crate::config::Social>, p: Project) -> Seq<DiagView>
    decreases socials.len(),
{
    if socials.len() == 0 {
        seq![]
    } else {
        socials_diags(socials.drop_last(), p) + social_diags(
            at("socials"@, socials.len() - 1),
            socials.last(),
            p,
        )
    }
}

fn check_socials(config: &Config, project: &Project, out: &mut Vec<Diagnostic>)
    ensures
        diags(final(out)@) == diags(old(out)@) + socials_diags(config.socials@, *project),
{
    let ghost before = diags(out@);
    let n = config.socials.len();
    let mut i: usize = 0;
    while i < n
        invariant
            n == config.socials@.len(),
            i <= n,
            diags(out@) == before + socials_diags(config.socials@.take(i as int), *project),
        decreases n - i,
    {
        let ghost mid = diags(out@);
        let social = &config.socials[i];
        let base = at_path("socials", i);
        let up = dot_path(base.as_str(), "url");
        check_url(up.as_str(), social.url.as_str(), out);
        let ip = dot_path(base.as_str(), "icon");
        if social.platform == Platform::Custom && social.icon.is_none() {
            push_error(out, owned(ip.as_str()), "msg.social.customNeedsIcon");
        }
        check_optional_asset(ip.as_str(), &social.icon, project, out);
        assert(config.socials@.take(i + 1).drop_last() =~= config.socials@.take(i as int));
        assert(diags(out@) =~= mid + social_diags(base@, *social, *project));
        assert(diags(out@) =~= before + socials_diags(config.socials@.take(i + 1), *project));
        i = i + 1;
    }
    assert(config.socials@.take(n as int) =~= config.socials@);
}

pub open spec fn sections_list_diags(sections: Seq<Section>, p: Project, lang: Seq<char>) -> Seq<DiagView>
    decreases sections.len(),
{
    if sections.len() == 0 {
        seq![]
    } else {
        sections_list_diags(sections.drop_last(), p, lang) + section_diags(
            at("sections"@, sections.len() - 1),
            sections.last(),
            p,
            lang,
        )
    }
}

pub open spec fn sections_diags(c: Config, p: Project) -> Seq<DiagView> {
    (if crate::config::visible(c.sections@).len() == 0 {
        seq![warn("sections"@, msg("msg.sections.none"@))]
    } else {
        seq![]
    }) + sections_list_diags(c.sections@, p, c.site.lang@)
}

fn check_sections(config: &Config, project: &Project, out: &mut Vec<Diagnostic>)
    ensures
        diags(final(out)@) == diags(old(out)@) + sections_diags(*config, *project),
{
    let ghost before = diags(out@);
    let default_lang = config.default_language();
    let visible = config.visible_sections();
    if visible.len() == 0 {
        assert(crate::config::visible(config.sections@).len() == 0);
        push_warning(out, owned("sections"), "msg.sections.none");
    } else {
        assert(visible@.map_values(|s: &Section| *s).len() > 0);
    }
    let ghost mid = diags(out@);
    let n = config.sections.len();
    let mut i: usize = 0;
    while i < n
        invariant
            n == config.sections@.len(),
            i <= n,
            default_lang@ == config.site.lang@,
            diags(out@) == mid + sections_list_diags(config.sections@.take(i as int), *project, config.site.lang@),
        decreases n - i,
    {
        let base = at_path("sections", i);
        check_section(base.as_str(), &config.sections[i], project, default_lang, out);
        assert(config.sections@.take(i + 1).drop_last() =~= config.sections@.take(i as int));
        assert(diags(out@) =~= mid + sections_list_diags(config.sections@.take(i + 1), *project, config.site.lang@));
        i = i + 1;
    }
    assert(config.sections@.take(n as int) =~= config.sections@);
    assert(diags(out@) =~= before + sections_diags(*config, *project));
}

// ─────────────────────────────────────────────────────────────────────────────
// Translatable values
// ─────────────────────────────────────────────────────────────────────────────

pub type Texts = Seq<(Seq<char>, Text)>;

pub open spec fn opt_text(path: Seq<char>, t: Option<Text>) -> Texts {
    match t {
        Some(x) => seq![(path, x)],
        None => seq![],
    }
}

pub open spec fn body_texts(base: Seq<char>, body: SectionBody) -> Texts {
    match body {
        SectionBody::About { body } => seq![(dot(base, "body"@), body)],
        SectionBody::Timeline { items } => timeline_texts(base, items@),
        SectionBody::Checklist { items, .. } => checklist_texts(base, items@),
        SectionBody::Tags { items } => tag_texts(base, items@),
        SectionBody::Links { items } => link_texts(base, items@),
        SectionBody::Contact { items } => contact_texts(base, items@),
    }
}

pub open spec fn timeline_texts(base: Seq<char>, items: Seq<crate::config::TimelineItem>) -> Texts
    decreases items.len(),
{
    if items.len() == 0 {
        seq![]
    } else {
        let p = item(base, items.len() - 1);
        let it = items.last();
        timeline_texts(base, items.drop_last()) + seq![(dot(p, "title"@), it.title)] + opt_text(
            dot(p, "period"@),
            it.period,
        ) + opt_text(dot(p, "subtitle"@), it.subtitle) + opt_text(
            dot(p, "description"@),
            it.description,
        )
    }
}

pub open spec fn checklist_texts(base: Seq<char>, items: Seq<crate::config::ChecklistItem>) -> Texts
    decreases items.len(),
{
    if items.len() == 0 {
        seq![]
    } else {
        let p = item(base, items.len() - 1);
        let it = items.last();
        checklist_texts(base, items.drop_last()) + seq![(dot(p, "text"@), it.text)] + opt_text(
            dot(p, "date"@),
            it.date,
        ) + opt_text(dot(p, "note"@), it.note)
    }
}

pub open spec fn tag_texts(base: Seq<char>, items: Seq<crate::config::Tag>) -> Texts
    decreases items.len(),
{
    if items.len() == 0 {
        seq![]
    } else {
        tag_texts(base, items.drop_last()) + seq![
            (item(base, items.len() - 1), items.last().text_of()),
        ]
    }
}

pub open spec fn link_texts(base: Seq<char>, items: Seq<crate::config::LinkItem>) -> Texts
    decreases items.len(),
{
    if items.len() == 0 {
        seq![]
    } else {
        let p = item(base, items.len() - 1);
        let it = items.last();
        link_texts(base, items.drop_last()) + seq![(dot(p, "title"@), it.title)] + opt_text(
            dot(p, "subtitle"@),
            it.subtitle,
        ) + opt_text(dot(p, "badge"@), it.badge)
    }
}

pub open spec fn contact_texts(base: Seq<char>, items: Seq<ContactItem>) -> Texts
    decreases items.len(),
{
    if items.len() == 0 {
        seq![]
    } else {
        let p = item(base, items.len() - 1);
        let it = items.last();
        contact_texts(base, items.drop_last()) + seq![(dot(p, "value"@), it.value)] + opt_text(
            dot(p, "label"@),
            it.label,
        )
    }
}

pub open spec fn social_texts(socials: Seq<crate::config::Social>) -> Texts
    decreases socials.len(),
{
    if socials.len() == 0 {
        seq![]
    } else {
        social_texts(socials.drop_last()) + opt_text(
            dot(at("socials"@, socials.len() - 1), "label"@),
            socials.last().label,
        )
    }
}

pub open spec fn section_texts(sections: Seq<Section>) -> Texts
    decreases sections.len(),
{
    if sections.len() == 0 {
        seq![]
    } else {
        let base = at("sections"@, sections.len() - 1);
        section_texts(sections.drop_last()) + opt_text(dot(base, "title"@), sections.last().title)
            + body_texts(base, sections.last().body)
    }
}

/// Every translatable value with its TOML path, in file order.
pub open spec fn texts_of(c: Config) -> Texts {
    seq![("site.title"@, c.site.title)] + opt_text("site.description"@, c.site.description) + seq![
        ("profile.name"@, c.profile.name),
    ] + opt_text("profile.tagline"@, c.profile.tagline) + opt_text("profile.bio"@, c.profile.bio)
        + opt_text("profile.location"@, c.profile.location) + social_texts(c.socials@)
        + section_texts(c.sections@) + opt_text("footer.text"@, c.footer.text)
}

pub open spec fn texts_view<'a>(v: Seq<(String, &'a Text)>) -> Texts {
    v.map_values(|e: (String, &'a Text)| (e.0@, *e.1))
}

fn push_text<'a>(out: &mut Vec<(String, &'a Text)>, path: String, t: &'a Text)
    ensures
        texts_view(final(out)@) == texts_view(old(out)@) + seq![(path@, *t)],
{
    let ghost before = out@;
    out.push((path, t));
    assert(texts_view(out@) =~= texts_view(before) + seq![(path@, *t)]);
}

fn push_opt_text<'a>(out: &mut Vec<(String, &'a Text)>, path: String, t: &'a Option<Text>)
    ensures
        texts_view(final(out)@) == texts_view(old(out)@) + opt_text(path@, *t),
{
    match t {
        Some(x) => push_text(out, path, x),
        None => {
            assert(texts_view(out@) =~= texts_view(out@) + opt_text(path@, *t));
        },
    }
}

fn collect_body_texts<'a>(base: &str, body: &'a SectionBody, out: &mut Vec<(String, &'a Text)>)
    ensures
        texts_view(final(out)@) == texts_view(old(out)@) + body_texts(base@, *body),
{
    let ghost before = texts_view(out@);
    match body {
        SectionBody::About { body } => push_text(out, dot_path(base, "body"), body),
        SectionBody::Timeline { items } => {
            let n = items.len();
            let mut j: usize = 0;
            while j < n
                invariant
                    n == items@.len(),
                    j <= n,
                    texts_view(out@) == before + timeline_texts(base@, items@.take(j as int)),
                decreases n - j,
            {
                let it = &items[j];
                let p = item_path(base, j);
                push_text(out, dot_path(p.as_str(), "title"), &it.title);
                push_opt_text(out, dot_path(p.as_str(), "period"), &it.period);
                push_opt_text(out, dot_path(p.as_str(), "subtitle"), &it.subtitle);
                push_opt_text(out, dot_path(p.as_str(), "description"), &it.description);
                assert(items@.take(j + 1).drop_last() =~= items@.take(j as int));
                assert(texts_view(out@) =~= before + timeline_texts(base@, items@.take(j + 1)));
                j = j + 1;
            }
            assert(items@.take(n as int) =~= items@);
        },
        SectionBody::Checklist { items, .. } => {
            let n = items.len();
            let mut j: usize = 0;
            while j < n
                invariant
                    n == items@.len(),
                    j <= n,
                    texts_view(out@) == before + checklist_texts(base@, items@.take(j as int)),
                decreases n - j,
            {
                let it = &items[j];
                let p = item_path(base, j);
                push_text(out, dot_path(p.as_str(), "text"), &it.text);
                push_opt_text(out, dot_path(p.as_str(), "date"), &it.date);
                push_opt_text(out, dot_path(p.as_str(), "note"), &it.note);
                assert(items@.take(j + 1).drop_last() =~= items@.take(j as int));
                assert(texts_view(out@) =~= before + checklist_texts(base@, items@.take(j + 1)));
                j = j + 1;
            }
            assert(items@.take(n as int) =~= items@);
        },
        SectionBody::Tags { items } => {
            let n = items.len();
            let mut j: usize = 0;
            while j < n
                invariant
                    n == items@.len(),
                    j <= n,
                    texts_view(out@) == before + tag_texts(base@, items@.take(j as int)),
                decreases n - j,
            {
                let p = item_path(base, j);
                push_text(out, p, items[j].text());
                assert(items@.take(j + 1).drop_last() =~= items@.take(j as int));
                assert(texts_view(out@) =~= before + tag_texts(base@, items@.take(j + 1)));
                j = j + 1;
            }
            assert(items@.take(n as int) =~= items@);
        },
        SectionBody::Links { items } => {
            let n = items.len();
            let mut j: usize = 0;
            while j < n
                invariant
                    n == items@.len(),
                    j <= n,
                    texts_view(out@) == before + link_texts(base@, items@.take(j as int)),
                decreases n - j,
            {
                let it = &items[j];
                let p = item_path(base, j);
                push_text(out, dot_path(p.as_str(), "title"), &it.title);
                push_opt_text(out, dot_path(p.as_str(), "subtitle"), &it.subtitle);
                push_opt_text(out, dot_path(p.as_str(), "badge"), &it.badge);
                assert(items@.take(j + 1).drop_last() =~= items@.take(j as int));
                assert(texts_view(out@) =~= before + link_texts(base@, items@.take(j + 1)));
                j = j + 1;
            }
            assert(items@.take(n as int) =~= items@);
        },
        SectionBody::Contact { items } => {
            let n = items.len();
            let mut j: usize = 0;
            while j < n
                invariant
                    n == items@.len(),
                    j <= n,
                    texts_view(out@) == before + contact_texts(base@, items@.take(j as int)),
                decreases n - j,
            {
                let it = &items[j];
                let p = item_path(base, j);
                push_text(out, dot_path(p.as_str(), "value"), &it.value);
                push_opt_text(out, dot_path(p.as_str(), "label"), &it.label);
                assert(items@.take(j + 1).drop_last() =~= items@.take(j as int));
                assert(texts_view(out@) =~= before + contact_texts(base@, items@.take(j + 1)));
                j = j + 1;
            }
            assert(items@.take(n as int) =~= items@);
        },
    }
}

/// Collects every translatable value along with its TOML path. A `Text`
/// field added to the schema must be added here too, or its missing
/// translations go unreported.
pub fn collect_texts<'a>(config: &'a Config) -> (r: Vec<(String, &'a Text)>)
    ensures
        texts_view(r@) == texts_of(*config),
{
    let mut out: Vec<(String, &'a Text)> = Vec::new();
    push_text(&mut out, owned("site.title"), &config.site.title);
    push_opt_text(&mut out, owned("site.description"), &config.site.description);
    push_text(&mut out, owned("profile.name"), &config.profile.name);
    push_opt_text(&mut out, owned("profile.tagline"), &config.profile.tagline);
    push_opt_text(&mut out, owned("profile.bio"), &config.profile.bio);
    push_opt_text(&mut out, owned("profile.location"), &config.profile.location);
    let ghost s1 = texts_view(out@);
    let n = config.socials.len();
    let mut i: usize = 0;
    while i < n
        invariant
            n == config.socials@.len(),
            i <= n,
            texts_view(out@) == s1 + social_texts(config.socials@.take(i as int)),
        decreases n - i,
    {
        let base = at_path("socials", i);
        push_opt_text(&mut out, dot_path(base.as_str(), "label"), &config.socials[i].label);
        assert(config.socials@.take(i + 1).drop_last() =~= config.socials@.take(i as int));
        assert(texts_view(out@) =~= s1 + social_texts(config.socials@.take(i + 1)));
        i = i + 1;
    }
    assert(config.socials@.take(n as int) =~= config.socials@);
    let ghost s2 = texts_view(out@);
    let m = config.sections.len();
    let mut k: usize = 0;
    while k < m
        invariant
            m == config.sections@.len(),
            k <= m,
            texts_view(out@) == s2 + section_texts(config.sections@.take(k as int)),
        decreases m - k,
    {
        let section = &config.sections[k];
        let base = at_path("sections", k);
        push_opt_text(&mut out, dot_path(base.as_str(), "title"), &section.title);
        collect_body_texts(base.as_str(), &section.body, &mut out);
        assert(config.sections@.take(k + 1).drop_last() =~= config.sections@.take(k as int));
        assert(texts_view(out@) =~= s2 + section_texts(config.sections@.take(k + 1)));
        k = k + 1;
    }
    assert(config.sections@.take(m as int) =~= config.sections@);
    push_opt_text(&mut out, owned("footer.text"), &config.footer.text);
    assert(texts_view(out@) =~= texts_of(*config));
    out
}

// ─────────────────────────────────────────────────────────────────────────────
// Languages
// ─────────────────────────────────────────────────────────────────────────────

/// `site.languages (<lang>)`.
pub open spec fn lang_path(lang: Seq<char>) -> Seq<char> {
    "site.languages ("@ + lang + ")"@
}

fn lang_path_of(lang: &str) -> (r: String)
    ensures
        r@ == lang_path(lang@),
{
    concat3("site.languages (", lang, ")")
}

pub open spec fn not_found_diags(langs: Seq<Seq<char>>, p: Project) -> Seq<DiagView>
    decreases langs.len(),
{
    if langs.len() == 0 {
        seq![]
    } else {
        not_found_diags(langs.drop_last(), p) + if !lang_loads(p, langs.last()) {
            seq![err(lang_path(langs.last()), MessageView {
                key: "msg.lang.notFound"@,
                args: Map::empty().insert("lang"@, langs.last()).insert("builtin"@, "ko, en, ja"@),
            })]
        } else {
            seq![]
        }
    }
}

/// The paths of the values that lack a translation in `lang`.
pub open spec fn missing_paths(texts: Texts, lang: Seq<char>) -> Seq<Seq<char>>
    decreases texts.len(),
{
    if texts.len() == 0 {
        seq![]
    } else {
        missing_paths(texts.drop_last(), lang) + if !texts.last().1.has_lang(lang) {
            seq![texts.last().0]
        } else {
            seq![]
        }
    }
}

/// Strings joined with `", "`.
pub open spec fn join_strs(ss: Seq<Seq<char>>) -> Seq<char>
    decreases ss.len(),
{
    if ss.len() == 0 {
        seq![]
    } else if ss.len() == 1 {
        ss[0]
    } else {
        join_strs(ss.drop_last()) + ", "@ + ss.last()
    }
}

/// The first four paths, joined with `", "`.
pub open spec fn sample(m: Seq<Seq<char>>) -> Seq<char> {
    if m.len() <= 4 {
        join_strs(m)
    } else {
        join_strs(m.take(4))
    }
}

/// The warning's message for the paths `m` missing a `lang` translation: the
/// count, the languages, the first four paths and — only when there are
/// more — how many more, under a key of its own. The sentence is the
/// reader's language's; the message carries arguments only.
pub open spec fn missing_message(m: Seq<Seq<char>>, lang: Seq<char>, default_lang: Seq<char>) -> MessageView {
    let args = Map::empty().insert("count"@, dec(m.len())).insert("lang"@, lang).insert(
        "default"@,
        default_lang,
    ).insert("sample"@, sample(m));
    if m.len() <= 4 {
        MessageView { key: "msg.lang.missingTranslations"@, args }
    } else {
        MessageView {
            key: "msg.lang.missingTranslationsMore"@,
            args: args.insert("more"@, dec((m.len() - 4) as nat)),
        }
    }
}

/// Missing translations are rolled up into **one warning per language**:
/// one line per missing string would bury the errors that matter.
pub open spec fn missing_diags(langs: Seq<Seq<char>>, texts: Texts, default_lang: Seq<char>) -> Seq<DiagView>
    decreases langs.len(),
{
    if langs.len() == 0 {
        seq![]
    } else {
        let l = langs.last();
        let m = missing_paths(texts, l);
        missing_diags(langs.drop_last(), texts, default_lang) + if l == default_lang || m.len() == 0 {
            seq![]
        } else {
            seq![warn(lang_path(l), missing_message(m, l, default_lang))]
        }
    }
}

pub open spec fn languages_of(c: Config) -> Seq<Seq<char>> {
    dedup(seq![c.site.lang@] + views(c.site.languages@))
}

pub open spec fn languages_diags(c: Config, p: Project) -> Seq<DiagView> {
    not_found_diags(languages_of(c), p) + missing_diags(languages_of(c), texts_of(c), c.site.lang@)
}

fn missing_in<'a>(texts: &Vec<(String, &'a Text)>, lang: &str) -> (r: Vec<String>)
    ensures
        views(r@) == missing_paths(texts_view(texts@), lang@),
{
    let mut out: Vec<String> = Vec::new();
    let n = texts.len();
    let mut i: usize = 0;
    while i < n
        invariant
            n == texts@.len(),
            i <= n,
            views(out@) == missing_paths(texts_view(texts@).take(i as int), lang@),
        decreases n - i,
    {
        let ghost before = views(out@);
        assert(texts_view(texts@).take(i + 1).drop_last() =~= texts_view(texts@).take(i as int));
        assert(texts_view(texts@)[i as int] == (texts@[i as int].0@, *texts@[i as int].1));
        if !texts[i].1.has(lang) {
            out.push(texts[i].0.clone());
            assert(views(out@) =~= before.push(texts@[i as int].0@));
        }
        i = i + 1;
    }
    assert(texts_view(texts@).take(n as int) =~= texts_view(texts@));
    out
}

fn sample_of(m: &Vec<String>) -> (r: String)
    ensures
        r@ == sample(views(m@)),
{
    let n = m.len();
    let shown = if n < 4 {
        n
    } else {
        4
    };
    let mut out = String::new();
    let mut i: usize = 0;
    assert(views(m@).take(0) =~= Seq::<Seq<char>>::empty());
    while i < shown
        invariant
            n == m@.len(),
            shown <= n,
            shown <= 4,
            i <= shown,
            out@ == join_strs(views(m@).take(i as int)),
        decreases shown - i,
    {
        assert(views(m@).take(i + 1).drop_last() =~= views(m@).take(i as int));
        if i > 0 {
            out.append(", ");
        } else {
            assert(out@ =~= Seq::<char>::empty());
        }
        out.append(m[i].as_str());
        i = i + 1;
    }
    if n <= 4 {
        assert(views(m@).take(n as int) =~= views(m@));
    }
    out
}

fn check_languages(config: &Config, project: &Project, out: &mut Vec<Diagnostic>)
    ensures
        diags(final(out)@) == diags(old(out)@) + languages_diags(*config, *project),
{
    let ghost before = diags(out@);
    let languages = config.languages();
    let default_lang = config.default_language();
    let n = languages.len();
    let mut i: usize = 0;
    while i < n
        invariant
            n == languages@.len(),
            i <= n,
            views(languages@) == languages_of(*config),
            diags(out@) == before + not_found_diags(views(languages@).take(i as int), *project),
        decreases n - i,
    {
        let lang = &languages[i];
        let ghost mid = diags(out@);
        assert(views(languages@).take(i + 1).drop_last() =~= views(languages@).take(i as int));
        // The exact cause (no file, or a broken one) matters less than what
        // to do about it: create that language's strings file.
        if !crate::config::contains_str(&project.loadable_languages, lang.as_str()) {
            let codes = crate::i18n::builtin_code_list();
            let m = Message::new("msg.lang.notFound").with("lang", lang.as_str()).with(
                "builtin",
                codes.as_str(),
            );
            push(out, Diagnostic::error(lang_path_of(lang.as_str()), m));
        }
        assert(diags(out@) =~= before + not_found_diags(views(languages@).take(i + 1), *project));
        i = i + 1;
    }
    assert(views(languages@).take(n as int) =~= views(languages@));
    let ghost mid = diags(out@);
    let texts = collect_texts(config);
    let mut k: usize = 0;
    while k < n
        invariant
            n == languages@.len(),
            k <= n,
            views(languages@) == languages_of(*config),
            texts_view(texts@) == texts_of(*config),
            default_lang@ == config.site.lang@,
            diags(out@) == mid + missing_diags(views(languages@).take(k as int), texts_of(*config), config.site.lang@),
        decreases n - k,
    {
        let lang = &languages[k];
        assert(views(languages@).take(k + 1).drop_last() =~= views(languages@).take(k as int));
        if !str_eq(lang.as_str(), default_lang) {
            let missing = missing_in(&texts, lang.as_str());
            if missing.len() > 0 {
                let count = decimal(missing.len() as u64);
                let smp = sample_of(&missing);
                let m = if missing.len() <= 4 {
                    Message::new("msg.lang.missingTranslations")
                } else {
                    Message::new("msg.lang.missingTranslationsMore")
                }.with("count", count.as_str()).with("lang", lang.as_str()).with(
                    "default",
                    default_lang,
                ).with("sample", smp.as_str());
                let m = if missing.len() <= 4 {
                    m
                } else {
                    let more = decimal((missing.len() - 4) as u64);
                    m.with("more", more.as_str())
                };
                push(out, Diagnostic::warning(lang_path_of(lang.as_str()), m));
            }
        }
        assert(diags(out@) =~= mid + missing_diags(views(languages@).take(k + 1), texts_of(*config), config.site.lang@));
        k = k + 1;
    }
    assert(views(languages@).take(n as int) =~= views(languages@));
    assert(diags(out@) =~= before + languages_diags(*config, *project));
}

// ─────────────────────────────────────────────────────────────────────────────
// All rules
// ─────────────────────────────────────────────────────────────────────────────

/// Every diagnostic for a config, in report order.
pub open spec fn validation(c: Config, p: Project) -> Seq<DiagView> {
    schema_diags(c) + site_diags(c, p) + profile_diags(c, p) + socials_diags(c.socials@, p)
        + sections_diags(c, p) + theme_diags(c, p) + languages_diags(c, p)
}

/// Runs every rule over the config.
pub fn validate(config: &Config, project: &Project) -> (r: Vec<Diagnostic>)
    ensures
        diags(r@) == validation(*config, *project),
{
    let mut out: Vec<Diagnostic> = Vec::new();
    assert(diags(out@) =~= Seq::<DiagView>::empty());
    check_schema_version(config, &mut out);
    check_site(config, project, &mut out);
    check_profile(config, project, &mut out);
    check_socials(config, project, &mut out);
    check_sections(config, project, &mut out);
    check_theme(config, project, &mut out);
    check_languages(config, project, &mut out);
    assert(diags(out@) =~= validation(*config, *project));
    out
}

// ─────────────────────────────────────────────────────────────────────────────
// Referenced assets
// ─────────────────────────────────────────────────────────────────────────────

pub open spec fn opt_path(a: Option<AssetPath>) -> Seq<Seq<char>> {
    match a {
        Some(x) => seq![x.0@],
        None => seq![],
    }
}

pub open spec fn social_icons(socials: Seq<crate::config::Social>) -> Seq<Seq<char>>
    decreases socials.len(),
{
    if socials.len() == 0 {
        seq![]
    } else {
        social_icons(socials.drop_last()) + opt_path(socials.last().icon)
    }
}

pub open spec fn thumbnails(items: Seq<crate::config::LinkItem>) -> Seq<Seq<char>>
    decreases items.len(),
{
    if items.len() == 0 {
        seq![]
    } else {
        thumbnails(items.drop_last()) + opt_path(items.last().thumbnail)
    }
}

pub open spec fn section_thumbnails(sections: Seq<Section>) -> Seq<Seq<char>>
    decreases sections.len(),
{
    if sections.len() == 0 {
        seq![]
    } else {
        section_thumbnails(sections.drop_last()) + match sections.last().body {
            SectionBody::Links { items } => thumbnails(items@),
            _ => seq![],
        }
    }
}

pub open spec fn theme_assets(c: Config) -> Seq<Seq<char>> {
    (match c.theme.background {
        Background::Image { src, .. } => seq![src.0@],
        _ => seq![],
    }) + match c.theme.decoration {
        Some(Decoration::Custom { top, bottom }) => opt_path(top) + opt_path(bottom),
        _ => seq![],
    }
}

/// Every asset path the rules look for, in the order they look.
pub open spec fn referenced_assets(c: Config) -> Seq<Seq<char>> {
    opt_path(c.site.og_image) + opt_path(c.site.favicon) + opt_path(c.profile.avatar)
        + social_icons(c.socials@) + section_thumbnails(c.sections@) + theme_assets(c)
}

fn push_path(out: &mut Vec<String>, a: &Option<AssetPath>)
    ensures
        views(final(out)@) == views(old(out)@) + opt_path(*a),
{
    let ghost before = views(out@);
    if let Some(x) = a {
        out.push(x.0.clone());
    }
    assert(views(out@) =~= before + opt_path(*a));
}

/// The asset paths validation checks, so the caller can find out which exist.
pub fn asset_paths(config: &Config) -> (r: Vec<String>)
    ensures
        views(r@) == referenced_assets(*config),
{
    let mut out: Vec<String> = Vec::new();
    assert(views(out@) =~= Seq::<Seq<char>>::empty());
    push_path(&mut out, &config.site.og_image);
    push_path(&mut out, &config.site.favicon);
    push_path(&mut out, &config.profile.avatar);
    let ghost s1 = views(out@);
    let n = config.socials.len();
    let mut i: usize = 0;
    while i < n
        invariant
            n == config.socials@.len(),
            i <= n,
            views(out@) == s1 + social_icons(config.socials@.take(i as int)),
        decreases n - i,
    {
        push_path(&mut out, &config.socials[i].icon);
        assert(config.socials@.take(i + 1).drop_last() =~= config.socials@.take(i as int));
        assert(views(out@) =~= s1 + social_icons(config.socials@.take(i + 1)));
        i = i + 1;
    }
    assert(config.socials@.take(n as int) =~= config.socials@);
    let ghost s2 = views(out@);
    let m = config.sections.len();
    let mut k: usize = 0;
    while k < m
        invariant
            m == config.sections@.len(),
            k <= m,
            views(out@) == s2 + section_thumbnails(config.sections@.take(k as int)),
        decreases m - k,
    {
        let ghost s3 = views(out@);
        if let SectionBody::Links { items } = &config.sections[k].body {
            let c = items.len();
            let mut j: usize = 0;
            while j < c
                invariant
                    c == items@.len(),
                    j <= c,
                    views(out@) == s3 + thumbnails(items@.take(j as int)),
                decreases c - j,
            {
                push_path(&mut out, &items[j].thumbnail);
                assert(items@.take(j + 1).drop_last() =~= items@.take(j as int));
                assert(views(out@) =~= s3 + thumbnails(items@.take(j + 1)));
                j = j + 1;
            }
            assert(items@.take(c as int) =~= items@);
        }
        assert(config.sections@.take(k + 1).drop_last() =~= config.sections@.take(k as int));
        assert(views(out@) =~= s2 + section_thumbnails(config.sections@.take(k + 1)));
        k = k + 1;
    }
    assert(config.sections@.take(m as int) =~= config.sections@);
    let ghost s4 = views(out@);
    if let Background::Image { src, .. } = &config.theme.background {
        out.push(src.0.clone());
    }
    if let Some(Decoration::Custom { top, bottom }) = &config.theme.decoration {
        push_path(&mut out, top);
        push_path(&mut out, bottom);
    }
    assert(views(out@) =~= s4 + theme_assets(*config));
    assert(views(out@) =~= referenced_assets(*config));
    out
}

// ─────────────────────────────────────────────────────────────────────────────
// Section key lint
//
// A section merges its common fields with a per-type body, and the parser
// cannot reject unknown keys there, so typos in section keys would be
// silently ignored. This re-scans the raw TOML and warns about them.
// ─────────────────────────────────────────────────────────────────────────────

/// One `[[sections]]` entry as the lint sees it: its `type` and all its keys
/// (in the table's key order), or nothing for an entry that is not a table
/// with a string `type`.
pub type Shape = Option<(Seq<char>, Seq<Seq<char>>)>;

/// A top-level value of a TOML document, read two levels deep: an array
/// gives, for each element that is a table, that table's keys in order with
/// the string each holds (when it holds a string); anything else is `Other`.
pub enum TomlTop {
    Array(Vec<Option<Vec<(String, Option<String>)>>>),
    Other,
}

/// What a [`TomlTop`] holds, as plain values.
pub enum TopView {
    Array(Seq<Option<Seq<(Seq<char>, Option<Seq<char>>)>>>),
    Other,
}

pub open spec fn cell_view(e: (String, Option<String>)) -> (Seq<char>, Option<Seq<char>>) {
    (e.0@, crate::config::opt_str(e.1))
}

pub open spec fn row_view(t: Option<Vec<(String, Option<String>)>>) -> Option<Seq<(Seq<char>, Option<Seq<char>>)>> {
    match t {
        Some(v) => Some(v@.map_values(|e: (String, Option<String>)| cell_view(e))),
        None => None,
    }
}

pub open spec fn top_view(t: TomlTop) -> TopView {
    match t {
        TomlTop::Array(items) => TopView::Array(
            items@.map_values(|t: Option<Vec<(String, Option<String>)>>| row_view(t)),
        ),
        TomlTop::Other => TopView::Other,
    }
}

pub open spec fn document_view(d: Option<Vec<(String, TomlTop)>>) -> Option<Seq<(Seq<char>, TopView)>> {
    match d {
        Some(v) => Some(v@.map_values(|e: (String, TomlTop)| (e.0@, top_view(e.1)))),
        None => None,
    }
}

/// What parsing the source with `toml::Table`'s `FromStr` gives, read as
/// [`TomlTop`]s in the table's key order; `None` when it does not parse.
pub uninterp spec fn toml_top_level(source: Seq<char>) -> Option<Seq<(Seq<char>, TopView)>>;

/// Parses the source with `toml::Table`'s `FromStr` and converts the table
/// to plain values, two levels deep (see [`TomlTop`]). The contract ties the
/// outcome to `toml_top_level` of the source; TOML's grammar is not written
/// out here.
#[verifier::external_body]
fn parse_top_level(source: &str) -> (r: Option<Vec<(String, TomlTop)>>)
    ensures
        document_view(r) == toml_top_level(source@),
{
    let table = source.parse::<toml::Table>().ok()?;
    Some(table.iter().map(|(k, v)| (k.clone(), match v.as_array() {
        Some(items) => TomlTop::Array(items.iter().map(|item| item.as_table().map(|t| {
            t.iter().map(|(k, v)| (k.clone(), v.as_str().map(str::to_string))).collect()
        })).collect()),
        None => TomlTop::Other,
    })).collect())
}

/// The value under the first entry with `key`.
pub open spec fn first_under<V>(s: Seq<(Seq<char>, V)>, key: Seq<char>) -> Option<V>
    decreases s.len(),
{
    if s.len() == 0 {
        None
    } else if s[0].0 == key {
        Some(s[0].1)
    } else {
        first_under(s.skip(1), key)
    }
}

/// A `[[sections]]` element as the lint sees it.
pub open spec fn shape_of_row(row: Option<Seq<(Seq<char>, Option<Seq<char>>)>>) -> Shape {
    match row {
        Some(cells) => match first_under(cells, "type"@) {
            Some(Some(t)) => Some((t, cells.map_values(|c: (Seq<char>, Option<Seq<char>>)| c.0))),
            _ => None,
        },
        None => None,
    }
}

/// The `[[sections]]` entries of a parsed document: `None` when it did not
/// parse or has no `sections` array.
pub open spec fn section_shapes_of(doc: Option<Seq<(Seq<char>, TopView)>>) -> Option<Seq<Shape>> {
    match doc {
        Some(d) => match first_under(d, "sections"@) {
            Some(TopView::Array(rows)) => Some(
                rows.map_values(|r: Option<Seq<(Seq<char>, Option<Seq<char>>)>>| shape_of_row(r)),
            ),
            _ => None,
        },
        None => None,
    }
}

pub open spec fn shape_view(s: Option<(String, Vec<String>)>) -> Shape {
    match s {
        Some((t, keys)) => Some((t@, views(keys@))),
        None => None,
    }
}

pub open spec fn shapes_view(v: Option<Vec<Option<(String, Vec<String>)>>>) -> Option<Seq<Shape>> {
    match v {
        Some(list) => Some(list@.map_values(|s: Option<(String, Vec<String>)>| shape_view(s))),
        None => None,
    }
}

/// The string under the first cell named `type`, if it is one.
fn type_of_row(cells: &Vec<(String, Option<String>)>) -> (r: Option<String>)
    ensures
        crate::config::opt_str(r) == match first_under(
            cells@.map_values(|e: (String, Option<String>)| cell_view(e)),
            "type"@,
        ) {
            Some(Some(t)) => Some(t),
            _ => None,
        },
{
    let ghost cv = cells@.map_values(|e: (String, Option<String>)| cell_view(e));
    let mut i: usize = 0;
    assert(cv.skip(0) =~= cv);
    while i < cells.len()
        invariant
            i <= cells.len(),
            cv == cells@.map_values(|e: (String, Option<String>)| cell_view(e)),
            first_under(cv, "type"@) == first_under(cv.skip(i as int), "type"@),
        decreases cells.len() - i,
    {
        assert(cv.skip(i as int)[0] == cell_view(cells@[i as int]));
        if str_eq(cells[i].0.as_str(), "type") {
            return match &cells[i].1 {
                Some(t) => Some(owned(t.as_str())),
                None => None,
            };
        }
        assert(cv.skip(i as int).skip(1) =~= cv.skip(i + 1));
        i = i + 1;
    }
    None
}

fn shape_of(row: &Option<Vec<(String, Option<String>)>>) -> (r: Option<(String, Vec<String>)>)
    ensures
        shape_view(r) == shape_of_row(row_view(*row)),
{
    match row {
        None => None,
        Some(cells) => match type_of_row(cells) {
            None => None,
            Some(t) => {
                let mut keys: Vec<String> = Vec::new();
                let mut i: usize = 0;
                while i < cells.len()
                    invariant
                        i <= cells.len(),
                        keys@.len() == i,
                        forall|j: int| 0 <= j < i ==> (#[trigger] keys@[j])@ == cells@[j].0@,
                    decreases cells.len() - i,
                {
                    keys.push(owned(cells[i].0.as_str()));
                    i = i + 1;
                }
                assert(views(keys@) =~= cells@.map_values(
                    |e: (String, Option<String>)| cell_view(e),
                ).map_values(|c: (Seq<char>, Option<Seq<char>>)| c.0));
                Some((t, keys))
            },
        },
    }
}

/// The `[[sections]]` entries of the source, as the lint sees them.
fn section_shapes(document: &Option<Vec<(String, TomlTop)>>) -> (r: Option<Vec<Option<(String, Vec<String>)>>>)
    ensures
        shapes_view(r) == section_shapes_of(document_view(*document)),
{
    let doc = match document {
        Some(d) => d,
        None => return None,
    };
    let ghost dv = doc@.map_values(|e: (String, TomlTop)| (e.0@, top_view(e.1)));
    assert(document_view(*document) == Some(dv)) by {
        assert(document_view(*document)->Some_0 =~= dv);
    }
    let mut i: usize = 0;
    assert(dv.skip(0) =~= dv);
    while i < doc.len()
        invariant
            i <= doc.len(),
            dv == doc@.map_values(|e: (String, TomlTop)| (e.0@, top_view(e.1))),
            document_view(*document) == Some(dv),
            first_under(dv, "sections"@) == first_under(dv.skip(i as int), "sections"@),
        decreases doc.len() - i,
    {
        assert(dv.skip(i as int)[0] == (doc@[i as int].0@, top_view(doc@[i as int].1)));
        if str_eq(doc[i].0.as_str(), "sections") {
            assert(first_under(dv, "sections"@) == Some(top_view(doc@[i as int].1)));
            return match &doc[i].1 {
                TomlTop::Other => None,
                TomlTop::Array(rows) => {
                    let ghost rv = rows@.map_values(
                        |t: Option<Vec<(String, Option<String>)>>| row_view(t),
                    );
                    assert(top_view(doc@[i as int].1) == TopView::Array(rv)) by {
                        assert(top_view(doc@[i as int].1)->Array_0 =~= rv);
                    }
                    assert(first_under(dv, "sections"@) == Some(TopView::Array(rv)));
                    let mut out: Vec<Option<(String, Vec<String>)>> = Vec::new();
                    let mut k: usize = 0;
                    while k < rows.len()
                        invariant
                            k <= rows.len(),
                            rv == rows@.map_values(
                                |t: Option<Vec<(String, Option<String>)>>| row_view(t),
                            ),
                            out@.len() == k,
                            forall|j: int|
                                0 <= j < k ==> shape_view(#[trigger] out@[j]) == shape_of_row(rv[j]),
                        decreases rows.len() - k,
                    {
                        let sh = shape_of(&rows[k]);
                        out.push(sh);
                        k = k + 1;
                    }
                    assert(out@.map_values(|s: Option<(String, Vec<String>)>| shape_view(s)) =~= rv.map_values(
                        |r: Option<Seq<(Seq<char>, Option<Seq<char>>)>>| shape_of_row(r),
                    ));
                    Some(out)
                },
            };
        }
        assert(dv.skip(i as int).skip(1) =~= dv.skip(i + 1));
        i = i + 1;
    }
    None
}

pub open spec fn key_diags(i: int, kind: Seq<char>, keys: Seq<Seq<char>>) -> Seq<DiagView>
    decreases keys.len(),
{
    if keys.len() == 0 {
        seq![]
    } else {
        let k = keys.last();
        key_diags(i, kind, keys.drop_last()) + if common_keys_of().contains(k) || body_keys_of(
            kind,
        ).contains(k) {
            seq![]
        } else {
            seq![warn(dot(at("sections"@, i), k), msg1("msg.section.unknownKey"@, "type"@, kind))]
        }
    }
}

pub open spec fn lint_shapes(shapes: Seq<Shape>) -> Seq<DiagView>
    decreases shapes.len(),
{
    if shapes.len() == 0 {
        seq![]
    } else {
        lint_shapes(shapes.drop_last()) + match shapes.last() {
            Some((kind, keys)) => key_diags(shapes.len() - 1, kind, keys),
            None => seq![],
        }
    }
}

/// The lint's warnings for a source.
pub open spec fn lint(source: Seq<char>) -> Seq<DiagView> {
    lint_of(toml_top_level(source))
}

/// The lint's warnings for a parsed document (nothing when it didn't parse).
pub open spec fn lint_of(doc: Option<Seq<(Seq<char>, TopView)>>) -> Seq<DiagView> {
    match section_shapes_of(doc) {
        Some(shapes) => lint_shapes(shapes),
        None => seq![],
    }
}

fn contains_static(v: &Vec<&'static str>, s: &str) -> (r: bool)
    ensures
        r == str_views(v@).contains(s@),
{
    let n = v.len();
    let mut i: usize = 0;
    while i < n
        invariant
            n == v@.len(),
            i <= n,
            forall|j: int| 0 <= j < i ==> v@[j]@ != s@,
        decreases n - i,
    {
        if str_eq(v[i], s) {
            assert(str_views(v@)[i as int] == s@);
            return true;
        }
        i = i + 1;
    }
    proof {
        if str_views(v@).contains(s@) {
            let j = choose|j: int| 0 <= j < str_views(v@).len() && str_views(v@)[j] == s@;
            assert(v@[j]@ == s@);
        }
    }
    false
}

/// Unknown keys in `[[sections]]` entries, as warnings. A source that does
/// not parse gives none: its parse error is reported elsewhere.
pub fn lint_section_keys(source: &str) -> (r: Vec<Diagnostic>)
    ensures
        diags(r@) == lint(source@),
{
    let document = parse_top_level(source);
    lint_document(&document)
}

/// Unknown keys in the `[[sections]]` entries of a parsed document (see
/// [`TomlTop`]), as warnings; a document that didn't parse (`None`) gives none.
pub fn lint_document(document: &Option<Vec<(String, TomlTop)>>) -> (r: Vec<Diagnostic>)
    ensures
        diags(r@) == lint_of(document_view(*document)),
{
    let mut out: Vec<Diagnostic> = Vec::new();
    assert(diags(out@) =~= Seq::<DiagView>::empty());
    let shapes = match section_shapes(document) {
        Some(s) => s,
        None => return out,
    };
    let ghost sv = shapes@.map_values(|s: Option<(String, Vec<String>)>| shape_view(s));
    let common = SectionBody::common_keys();
    let n = shapes.len();
    let mut i: usize = 0;
    while i < n
        invariant
            n == shapes@.len(),
            i <= n,
            sv == shapes@.map_values(|s: Option<(String, Vec<String>)>| shape_view(s)),
            str_views(common@) == common_keys_of(),
            diags(out@) == lint_shapes(sv.take(i as int)),
        decreases n - i,
    {
        let ghost before = diags(out@);
        assert(sv.take(i + 1).drop_last() =~= sv.take(i as int));
        assert(sv[i as int] == shape_view(shapes@[i as int]));
        if let Some((kind, keys)) = &shapes[i] {
            let body = SectionBody::body_keys(kind.as_str());
            let base = at_path("sections", i);
            let m = keys.len();
            let mut k: usize = 0;
            while k < m
                invariant
                    m == keys@.len(),
                    k <= m,
                    str_views(common@) == common_keys_of(),
                    str_views(body@) == body_keys_of(kind@),
                    base@ == at("sections"@, i as int),
                    diags(out@) == before + key_diags(i as int, kind@, views(keys@).take(k as int)),
                decreases m - k,
            {
                let key = keys[k].as_str();
                assert(views(keys@).take(k + 1).drop_last() =~= views(keys@).take(k as int));
                if !contains_static(&common, key) && !contains_static(&body, key) {
                    let m2 = Message::new("msg.section.unknownKey").with("type", kind.as_str());
                    push(&mut out, Diagnostic::warning(dot_path(base.as_str(), key), m2));
                }
                assert(diags(out@) =~= before + key_diags(i as int, kind@, views(keys@).take(k + 1)));
                k = k + 1;
            }
            assert(views(keys@).take(m as int) =~= views(keys@));
        }
        assert(diags(out@) =~= lint_shapes(sv.take(i + 1)));
        i = i + 1;
    }
    assert(sv.take(n as int) =~= sv);
    out
}

} // verus!
