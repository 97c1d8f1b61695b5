//! The local editor's decisions.
//!
//! The editor is a small web server bound to `127.0.0.1` whose page edits the
//! config; its preview is the actual renderer's output, so it can never drift
//! from the real result. Serving requests, reading and writing files is the
//! caller's part. This module decides: which addresses may be handed to a
//! browser, what an upload is accepted as, what the preview serves, what the
//! editor's dropdowns list, and which card is open.

use vstd::prelude::*;

use crate::config::{views, FontPreset};
use crate::i18n::Strings;
use crate::message::{msg, msg_args, Message, MessageView};
use crate::paths::{
    extension_of, file_name_of, lemma_parent_is_plain, lemma_rooted_parent_is_rooted, last_index_of,
    parent_of, path_extension, path_file_name, path_parent, plain_path, rooted_parent, rooted_path,
};
use crate::strmap::StrMap;
use crate::text::{
    ascii_lower, chars_of, has_char, concat, concat3, contains, dec, decimal, is_alnum, is_ascii_alphanumeric,
    is_control, is_ctrl, is_whitespace, is_ws, lower, owned, starts_with, str_contains, str_eq,
    str_starts_with, string_from,
};
use crate::validate::{Diagnostic, Severity};

verus! {

// ─────────────────────────────────────────────────────────────────────────────
// Opening addresses
// ─────────────────────────────────────────────────────────────────────────────

/// Whether an address is safe to hand to the browser: a plain web address
/// with no whitespace or control characters. The browser is never reached
/// through a shell, so `&` or `%` are harmless and legitimate in a query
/// string — but a real URL never holds whitespace or control characters;
/// if one does, the value was tampered with somewhere.
pub open spec fn openable(url: Seq<char>) -> bool {
    &&& (starts_with(url, "http://"@) || starts_with(url, "https://"@))
    &&& forall|i: int| 0 <= i < url.len() ==> !is_ctrl(#[trigger] url[i]) && !is_ws(url[i])
}

pub fn is_openable(url: &str) -> (r: bool)
    ensures
        r == openable(url@),
{
    let http = str_starts_with(url, "http://") || str_starts_with(url, "https://");
    let v = chars_of(url);
    let n = v.len();
    let mut i: usize = 0;
    while i < n
        invariant
            n == v@.len(),
            v@ == url@,
            i <= n,
            forall|k: int| 0 <= k < i ==> !is_ctrl(#[trigger] v@[k]) && !is_ws(v@[k]),
        decreases n - i,
    {
        if is_control(v[i]) || is_whitespace(v[i]) {
            return false;
        }
        i = i + 1;
    }
    http
}

// ─────────────────────────────────────────────────────────────────────────────
// Uploads
// ─────────────────────────────────────────────────────────────────────────────

/// The largest image accepted: 8 MiB.
pub const MAX_UPLOAD: u64 = 8388608;

/// Why an upload was refused.
pub enum UploadRefusal {
    Empty,
    TooBig { bytes: u64 },
    /// The extension isn't an image format accepted (`"?"` without one).
    BadFormat(String),
    /// The content doesn't match the claimed format.
    NotAnImage(&'static str),
}

impl UploadRefusal {
    /// The message to show; `size` is the upload's size as displayed (in
    /// MiB, one decimal), used only for a file that is too big.
    pub fn message(&self, size: &str) -> (r: Message)
        ensures
            r@ == match self {
                UploadRefusal::Empty => msg("msg.upload.empty"@),
                UploadRefusal::TooBig { .. } => msg_args(
                    "msg.upload.tooBig"@,
                    Map::empty().insert("size"@, size@),
                ),
                UploadRefusal::BadFormat(f) => msg_args(
                    "msg.upload.badFormat"@,
                    Map::empty().insert("format"@, f@),
                ),
                UploadRefusal::NotAnImage(f) => msg_args(
                    "msg.upload.notAnImage"@,
                    Map::empty().insert("format"@, f@),
                ),
            },
    {
        match self {
            UploadRefusal::Empty => Message::new("msg.upload.empty"),
            UploadRefusal::TooBig { .. } => Message::new("msg.upload.tooBig").with("size", size),
            UploadRefusal::BadFormat(f) => Message::new("msg.upload.badFormat").with(
                "format",
                f.as_str(),
            ),
            UploadRefusal::NotAnImage(f) => Message::new("msg.upload.notAnImage").with("format", f),
        }
    }
}

pub open spec fn ascii_lowercase(s: Seq<char>) -> Seq<char> {
    s.map_values(|c: char| lower(c))
}

pub fn to_ascii_lowercase(s: &str) -> (r: String)
    ensures
        r@ == ascii_lowercase(s@),
{
    let v = chars_of(s);
    let n = v.len();
    let mut out: Vec<char> = Vec::new();
    let mut i: usize = 0;
    while i < n
        invariant
            n == v@.len(),
            i <= n,
            out@ == ascii_lowercase(v@.take(i as int)),
        decreases n - i,
    {
        out.push(ascii_lower(v[i]));
        assert(ascii_lowercase(v@.take(i + 1)) =~= ascii_lowercase(v@.take(i as int)).push(
            lower(v@[i as int]),
        ));
        i = i + 1;
    }
    assert(v@.take(n as int) =~= v@);
    string_from(out.as_slice())
}

/// The format an extension (already lowercased) stands for. Only an
/// allowlist is accepted: using the original name as-is would open the door
/// to path traversal or planting an executable file.
pub open spec fn format_of(ext: Seq<char>) -> Option<Seq<char>> {
    if ext == "png"@ {
        Some("png"@)
    } else if ext == "jpg"@ || ext == "jpeg"@ {
        Some("jpg"@)
    } else if ext == "gif"@ {
        Some("gif"@)
    } else if ext == "webp"@ {
        Some("webp"@)
    } else if ext == "svg"@ {
        Some("svg"@)
    } else {
        None
    }
}

pub fn image_format(ext: &str) -> (r: Option<&'static str>)
    ensures
        match r {
            Some(f) => format_of(ext@) == Some(f@),
            None => format_of(ext@) is None,
        },
{
    if str_eq(ext, "png") {
        Some("png")
    } else if str_eq(ext, "jpg") || str_eq(ext, "jpeg") {
        Some("jpg")
    } else if str_eq(ext, "gif") {
        Some("gif")
    } else if str_eq(ext, "webp") {
        Some("webp")
    } else if str_eq(ext, "svg") {
        Some("svg")
    } else {
        None
    }
}

/// Bytes `b` start with `p`.
pub open spec fn bytes_start(b: Seq<u8>, p: Seq<u8>) -> bool {
    p.len() <= b.len() && b.take(p.len() as int) == p
}

pub open spec fn lower_byte(b: u8) -> u8 {
    if 65 <= b <= 90 {
        (b + 32) as u8
    } else {
        b
    }
}

/// `p` (lowercase) occurs in `b` at `i`, ignoring ASCII case.
pub open spec fn matches_ci_at(b: Seq<u8>, p: Seq<u8>, i: int) -> bool {
    0 <= i && i + p.len() <= b.len() && forall|k: int|
        0 <= k < p.len() ==> lower_byte(#[trigger] b[i + k]) == p[k]
}

/// `p` (lowercase) occurs in `b`, ignoring ASCII case.
pub open spec fn contains_ci(b: Seq<u8>, p: Seq<u8>) -> bool {
    exists|i: int| #[trigger] matches_ci_at(b, p, i)
}

pub open spec fn svg_tag() -> Seq<u8> {
    seq![60u8, 115u8, 118u8, 103u8]
}

pub open spec fn xml_tag() -> Seq<u8> {
    seq![60u8, 63u8, 120u8, 109u8, 108u8]
}

/// Whether the content matches the format, by its magic number. SVG is
/// text and has none: a `<svg` or `<?xml` (in any case) within the first
/// 512 bytes will do. (Lowercasing the text first, as a string, gives the
/// same answer: the only characters outside ASCII that lowercase into ASCII
/// become `i` or `k`, which neither tag holds.)
pub open spec fn looks_like(b: Seq<u8>, format: Seq<char>) -> bool {
    if format == "png"@ {
        bytes_start(b, seq![0x89u8, 80u8, 78u8, 71u8])
    } else if format == "jpg"@ {
        bytes_start(b, seq![0xFFu8, 0xD8u8, 0xFFu8])
    } else if format == "gif"@ {
        bytes_start(b, seq![71u8, 73u8, 70u8, 56u8])
    } else if format == "webp"@ {
        b.len() > 12 && bytes_start(b, seq![82u8, 73u8, 70u8, 70u8]) && b.subrange(8, 12) == seq![
            87u8,
            69u8,
            66u8,
            80u8,
        ]
    } else if format == "svg"@ {
        let head = if b.len() <= 512 {
            b
        } else {
            b.take(512)
        };
        contains_ci(head, svg_tag()) || contains_ci(head, xml_tag())
    } else {
        false
    }
}

fn starts_bytes(b: &[u8], p: &[u8]) -> (r: bool)
    ensures
        r == bytes_start(b@, p@),
{
    if p.len() > b.len() {
        return false;
    }
    let n = p.len();
    let mut i: usize = 0;
    while i < n
        invariant
            n == p@.len(),
            n <= b@.len(),
            i <= n,
            forall|k: int| 0 <= k < i ==> b@[k] == p@[k],
        decreases n - i,
    {
        if b[i] != p[i] {
            assert(b@.take(n as int)[i as int] != p@[i as int]);
            return false;
        }
        i = i + 1;
    }
    assert(b@.take(n as int) =~= p@);
    true
}

fn lower_u8(b: u8) -> (r: u8)
    ensures
        r == lower_byte(b),
{
    if 65 <= b && b <= 90 {
        b + 32
    } else {
        b
    }
}

/// Whether `p` occurs in `b[..end]`, ignoring ASCII case.
fn find_ci(b: &[u8], end: usize, p: &[u8]) -> (r: bool)
    requires
        end <= b@.len(),
        p@.len() > 0,
    ensures
        r == contains_ci(b@.take(end as int), p@),
{
    let ghost h = b@.take(end as int);
    let m = p.len();
    if m > end {
        proof {
            assert forall|i: int| !#[trigger] matches_ci_at(h, p@, i) by {}
        }
        return false;
    }
    let mut i: usize = 0;
    while m <= end - i
        invariant
            m == p@.len(),
            m > 0,
            m <= end <= b@.len(),
            h == b@.take(end as int),
            i <= end,
            forall|j: int| 0 <= j < i ==> !#[trigger] matches_ci_at(h, p@, j),
        decreases end - i,
    {
        let mut k: usize = 0;
        let mut ok = true;
        while k < m
            invariant
                m == p@.len(),
                i + m <= end <= b@.len(),
                h == b@.take(end as int),
                k <= m,
                ok == forall|t: int| 0 <= t < k ==> lower_byte(#[trigger] h[i + t]) == p@[t],
            decreases m - k,
        {
            assert(h[i + k] == b@[i + k]);
            if lower_u8(b[i + k]) != p[k] {
                ok = false;
            }
            k = k + 1;
        }
        if ok {
            assert(matches_ci_at(h, p@, i as int));
            return true;
        }
        i = i + 1;
    }
    proof {
        assert forall|j: int| !#[trigger] matches_ci_at(h, p@, j) by {
            if 0 <= j && j + m <= h.len() {
                assert(j < i);
            }
        }
    }
    false
}

/// Checks the magic number at the start of the file.
pub fn looks_like_image(bytes: &[u8], extension: &str) -> (r: bool)
    ensures
        r == looks_like(bytes@, extension@),
{
    if str_eq(extension, "png") {
        starts_bytes(bytes, &[0x89u8, 80u8, 78u8, 71u8])
    } else if str_eq(extension, "jpg") {
        starts_bytes(bytes, &[0xFFu8, 0xD8u8, 0xFFu8])
    } else if str_eq(extension, "gif") {
        starts_bytes(bytes, &[71u8, 73u8, 70u8, 56u8])
    } else if str_eq(extension, "webp") {
        if bytes.len() > 12 && starts_bytes(bytes, &[82u8, 73u8, 70u8, 70u8]) {
            let same = bytes[8] == 87u8 && bytes[9] == 69u8 && bytes[10] == 66u8 && bytes[11]
                == 80u8;
            proof {
                let w = bytes@.subrange(8, 12);
                if same {
                    assert(w =~= seq![87u8, 69u8, 66u8, 80u8]);
                } else {
                    assert(w[0] != 87u8 || w[1] != 69u8 || w[2] != 66u8 || w[3] != 80u8);
                }
            }
            same
        } else {
            false
        }
    } else if str_eq(extension, "svg") {
        let end = if bytes.len() <= 512 {
            bytes.len()
        } else {
            512
        };
        assert(bytes@.take(bytes@.len() as int) =~= bytes@);
        let svg: [u8; 4] = [60u8, 115u8, 118u8, 103u8];
        let xml: [u8; 5] = [60u8, 63u8, 120u8, 109u8, 108u8];
        assert(svg@ =~= svg_tag());
        assert(xml@ =~= xml_tag());
        find_ci(bytes, end, &svg) || find_ci(bytes, end, &xml)
    } else {
        false
    }
}

/// What an accepted upload is saved as.
pub struct UploadPlan {
    /// The extension to save with (`jpeg` becomes `jpg`).
    pub extension: &'static str,
    /// The file name's prefix, naming its purpose — `avatar`, `thumb`, ….
    pub kind: String,
}

/// The purpose prefix: only ASCII letters, digits and `-`, at most 24 of
/// them; `image` when nothing is left.
pub open spec fn kind_chars(s: Seq<char>) -> Seq<char>
    decreases s.len(),
{
    if s.len() == 0 {
        Seq::empty()
    } else {
        let rest = kind_chars(s.drop_last());
        if is_alnum(s.last()) || s.last() == '-' {
            rest.push(s.last())
        } else {
            rest
        }
    }
}

pub open spec fn upload_kind_of(kind: Option<Seq<char>>) -> Seq<char> {
    let raw = match kind {
        Some(k) => k,
        None => "image"@,
    };
    let kept = kind_chars(raw);
    let cut = if kept.len() <= 24 {
        kept
    } else {
        kept.take(24)
    };
    if cut.len() == 0 {
        "image"@
    } else {
        cut
    }
}

pub fn upload_kind(kind: Option<&str>) -> (r: String)
    ensures
        r@ == upload_kind_of(
            match kind {
                Some(k) => Some(k@),
                None => None,
            },
        ),
{
    let raw = match kind {
        Some(k) => k,
        None => "image",
    };
    let v = chars_of(raw);
    let n = v.len();
    let mut out: Vec<char> = Vec::new();
    let mut i: usize = 0;
    while i < n
        invariant
            n == v@.len(),
            i <= n,
            out@ == kind_chars(v@.take(i as int)),
        decreases n - i,
    {
        assert(v@.take(i + 1).drop_last() =~= v@.take(i as int));
        if is_ascii_alphanumeric(v[i]) || v[i] == '-' {
            out.push(v[i]);
        }
        i = i + 1;
    }
    assert(v@.take(n as int) =~= v@);
    let cut = if out.len() <= 24 {
        string_from(out.as_slice())
    } else {
        let part = vstd::slice::slice_subrange(out.as_slice(), 0, 24);
        assert(part@ =~= out@.take(24));
        string_from(part)
    };
    if cut.as_str().is_empty() {
        owned("image")
    } else {
        cut
    }
}

/// How an upload of `len` bytes named `name` (extension as the platform's
/// path rules find it, `ext`) with the given content is judged: empty, too
/// big, not an allowed format, content not matching the format, or accepted.
pub open spec fn upload_verdict(len: nat, ext: Option<Seq<char>>, bytes: Seq<u8>) -> Result<
    Seq<char>,
    (Seq<char>, Seq<char>),
> {
    if len == 0 {
        Err(("empty"@, Seq::empty()))
    } else if len > MAX_UPLOAD {
        Err(("tooBig"@, Seq::empty()))
    } else {
        match ext {
            None => Err(("badFormat"@, "?"@)),
            Some(e) => match format_of(ascii_lowercase(e)) {
                None => Err(("badFormat"@, ascii_lowercase(e))),
                Some(f) => if looks_like(bytes, f) {
                    Ok(f)
                } else {
                    Err(("notAnImage"@, f))
                },
            },
        }
    }
}

pub open spec fn refusal_view(r: UploadRefusal) -> (Seq<char>, Seq<char>) {
    match r {
        UploadRefusal::Empty => ("empty"@, Seq::empty()),
        UploadRefusal::TooBig { .. } => ("tooBig"@, Seq::empty()),
        UploadRefusal::BadFormat(f) => ("badFormat"@, f@),
        UploadRefusal::NotAnImage(f) => ("notAnImage"@, f@),
    }
}

/// Judges an upload whose extension is already known.
pub fn judge_upload(bytes: &[u8], ext: Option<&str>, kind: Option<&str>) -> (r: Result<
    UploadPlan,
    UploadRefusal,
>)
    ensures
        match (
            r,
            upload_verdict(
                bytes@.len(),
                match ext {
                    Some(e) => Some(e@),
                    None => None,
                },
                bytes@,
            ),
        ) {
            (Ok(plan), Ok(f)) => plan.extension@ == f && plan.kind@ == upload_kind_of(
                match kind {
                    Some(k) => Some(k@),
                    None => None,
                },
            ),
            (Err(refusal), Err(v)) => refusal_view(refusal) == v,
            _ => false,
        },
        r matches Err(UploadRefusal::TooBig { bytes: b }) ==> b == bytes@.len(),
        bytes@.len() == 0 ==> r matches Err(UploadRefusal::Empty),
        bytes@.len() > MAX_UPLOAD ==> (r matches Err(UploadRefusal::TooBig { bytes: b }) && b
            == bytes@.len()),
        r matches Ok(plan) ==> looks_like(bytes@, plan.extension@),
{
    proof {
        reveal_strlit("?");
    }
    let len = bytes.len();
    if len == 0 {
        return Err(UploadRefusal::Empty);
    }
    if len as u64 > MAX_UPLOAD {
        return Err(UploadRefusal::TooBig { bytes: len as u64 });
    }
    let e = match ext {
        None => {
            return Err(UploadRefusal::BadFormat(owned("?")));
        },
        Some(e) => to_ascii_lowercase(e),
    };
    let format = match image_format(e.as_str()) {
        None => {
            return Err(UploadRefusal::BadFormat(e));
        },
        Some(f) => f,
    };
    if !looks_like_image(bytes, format) {
        return Err(UploadRefusal::NotAnImage(format));
    }
    Ok(UploadPlan { extension: format, kind: upload_kind(kind) })
}

/// `r` is the judgement of an upload of `bytes` with extension `ext` for the purpose `kind`.
pub open spec fn judged(r: Result<UploadPlan, UploadRefusal>, bytes: Seq<u8>, ext: Option<Seq<char>>, kind: Option<Seq<char>>) -> bool {
    match (r, upload_verdict(bytes.len(), ext, bytes)) {
        (Ok(plan), Ok(f)) => plan.extension@ == f && plan.kind@ == upload_kind_of(kind),
        (Err(refusal), Err(v)) => refusal_view(refusal) == v,
        _ => false,
    }
}

/// Judges an upload named `name`: its extension is what the platform's path
/// rules find in the name. Whatever they find, the result is the judgement
/// for that extension; a name without one is refused as `"?"`.
pub fn check_upload(bytes: &[u8], name: &str, kind: Option<&str>) -> (r: Result<
    UploadPlan,
    UploadRefusal,
>)
    ensures
        exists|ext: Option<Seq<char>>|
            #[trigger] judged(r, bytes@, ext, crate::i18n::opt_view(kind)),
        !has_char(name@, '.') ==> judged(r, bytes@, None, crate::i18n::opt_view(kind)),
        plain_path(name@) ==> judged(r, bytes@, extension_of(name@), crate::i18n::opt_view(kind)),
        bytes@.len() == 0 ==> r matches Err(UploadRefusal::Empty),
        bytes@.len() > MAX_UPLOAD ==> (r matches Err(UploadRefusal::TooBig { bytes: b }) && b
            == bytes@.len()),
        r matches Ok(plan) ==> (plan.kind@ == upload_kind_of(
            match kind {
                Some(k) => Some(k@),
                None => None,
            },
        ) && looks_like(bytes@, plan.extension@)),
{
    let ext = path_extension(name);
    let ghost k = crate::i18n::opt_view(kind);
    match ext {
        Some(e) => {
            let r = judge_upload(bytes, Some(e.as_str()), kind);
            assert(judged(r, bytes@, Some(e@), k));
            r
        },
        None => {
            let r = judge_upload(bytes, None, kind);
            assert(judged(r, bytes@, None, k));
            r
        },
    }
}

/// The saved file's name: the purpose, a timestamp (overwriting one name
/// would keep showing the old photo through the browser cache) and the
/// extension.
pub fn upload_file_name(kind: &str, stamp: u64, extension: &str) -> (r: String)
    ensures
        r@ == kind@ + "-"@ + dec(stamp as nat) + "."@ + extension@,
{
    let n = decimal(stamp);
    let mut out = concat3(kind, "-", n.as_str());
    out.append(".");
    out.append(extension);
    out
}

/// The path to put in the config: relative to the project folder.
pub fn upload_config_path(file_name: &str) -> (r: String)
    ensures
        r@ == "assets/"@ + file_name@,
{
    concat("assets/", file_name)
}

// ─────────────────────────────────────────────────────────────────────────────
// Preview
// ─────────────────────────────────────────────────────────────────────────────

/// Whether a project file may be served to the preview: anything that could
/// climb out of the project is refused.
pub fn preview_allowed(path: &str) -> (r: bool)
    ensures
        r == !contains(path@, ".."@),
{
    !str_contains(path, "..")
}

/// The content type for an extension; unknown ones are served as bytes.
pub open spec fn mime_of(ext: Option<Seq<char>>) -> Seq<char> {
    match ext {
        Some(e) => if e == "png"@ {
            "image/png"@
        } else if e == "jpg"@ || e == "jpeg"@ {
            "image/jpeg"@
        } else if e == "gif"@ {
            "image/gif"@
        } else if e == "webp"@ {
            "image/webp"@
        } else if e == "svg"@ {
            "image/svg+xml"@
        } else if e == "ico"@ {
            "image/x-icon"@
        } else {
            "application/octet-stream"@
        },
        None => "application/octet-stream"@,
    }
}

pub fn mime_for(ext: Option<&str>) -> (r: &'static str)
    ensures
        r@ == mime_of(
            match ext {
                Some(e) => Some(e@),
                None => None,
            },
        ),
{
    match ext {
        Some(e) => if str_eq(e, "png") {
            "image/png"
        } else if str_eq(e, "jpg") || str_eq(e, "jpeg") {
            "image/jpeg"
        } else if str_eq(e, "gif") {
            "image/gif"
        } else if str_eq(e, "webp") {
            "image/webp"
        } else if str_eq(e, "svg") {
            "image/svg+xml"
        } else if str_eq(e, "ico") {
            "image/x-icon"
        } else {
            "application/octet-stream"
        },
        None => "application/octet-stream",
    }
}

/// The content type of a project file, by the extension the platform's
/// path rules find in its path.
pub fn preview_mime(path: &str) -> (r: &'static str)
    ensures
        exists|ext: Option<Seq<char>>| r@ == #[trigger] mime_of(ext),
        plain_path(path@) ==> r@ == mime_of(extension_of(path@)),
        path@.len() == 0 ==> r@ == "application/octet-stream"@,
{
    proof {
        reveal_strlit("application/octet-stream");
    }
    match path_extension(path) {
        Some(e) => {
            let r = mime_for(Some(e.as_str()));
            assert(r@ == mime_of(Some(e@)));
            r
        },
        None => {
            let r = mime_for(None);
            assert(r@ == mime_of(None));
            r
        },
    }
}

/// The language a preview shows: the one asked for when the card has it,
/// else the default language.
pub fn preview_language(requested: Option<&str>, languages: &Vec<String>, default_lang: &str) -> (r: String)
    ensures
        r@ == match requested {
            Some(l) => if views(languages@).contains(l@) {
                l@
            } else {
                default_lang@
            },
            None => default_lang@,
        },
{
    match requested {
        Some(l) => if crate::config::contains_str(languages, l) {
            owned(l)
        } else {
            owned(default_lang)
        },
        None => owned(default_lang),
    }
}

/// The preview's language switcher entries: every language shares the one
/// preview address, told apart by a query string.
pub fn preview_entries(languages: &Vec<String>, names: &Vec<String>) -> (r: Vec<(String, String, String)>)
    requires
        names@.len() == languages@.len(),
    ensures
        r@.len() == languages@.len(),
        forall|i: int|
            0 <= i < r@.len() ==> (#[trigger] r@[i]).0@ == languages@[i]@ && r@[i].1@
                == names@[i]@ && r@[i].2@ == "?lang="@ + languages@[i]@,
{
    let n = languages.len();
    let mut out: Vec<(String, String, String)> = Vec::new();
    let mut i: usize = 0;
    while i < n
        invariant
            n == languages@.len() == names@.len(),
            i <= n,
            out@.len() == i,
            forall|k: int|
                0 <= k < i ==> (#[trigger] out@[k]).0@ == languages@[k]@ && out@[k].1@
                    == names@[k]@ && out@[k].2@ == "?lang="@ + languages@[k]@,
        decreases n - i,
    {
        let l = &languages[i];
        out.push((owned(l.as_str()), owned(names[i].as_str()), concat("?lang=", l.as_str())));
        i = i + 1;
    }
    out
}

// ─────────────────────────────────────────────────────────────────────────────
// Diagnostics for the editor
// ─────────────────────────────────────────────────────────────────────────────

/// A diagnostic as the editor receives it: a key and arguments rather than
/// a finished sentence, so the editor words it in its own UI language.
pub struct JsonDiagnostic {
    pub severity: &'static str,
    pub path: String,
    pub key: &'static str,
    pub args: StrMap,
}

pub open spec fn severity_name(s: Severity) -> Seq<char> {
    match s {
        Severity::Error => "error"@,
        Severity::Warning => "warning"@,
    }
}

pub fn to_json_diagnostics(diagnostics: &[Diagnostic]) -> (r: Vec<JsonDiagnostic>)
    ensures
        r@.len() == diagnostics@.len(),
        forall|i: int|
            0 <= i < r@.len() ==> {
                let d = diagnostics@[i];
                &&& (#[trigger] r@[i]).severity@ == severity_name(d.severity)
                &&& r@[i].path@ == d.path@
                &&& r@[i].key == d.message.key
                &&& r@[i].args@ == d.message.args@
            },
{
    let n = diagnostics.len();
    let mut out: Vec<JsonDiagnostic> = Vec::new();
    let mut i: usize = 0;
    while i < n
        invariant
            n == diagnostics@.len(),
            i <= n,
            out@.len() == i,
            forall|k: int|
                0 <= k < i ==> {
                    let d = diagnostics@[k];
                    &&& (#[trigger] out@[k]).severity@ == severity_name(d.severity)
                    &&& out@[k].path@ == d.path@
                    &&& out@[k].key == d.message.key
                    &&& out@[k].args@ == d.message.args@
                },
        decreases n - i,
    {
        let d = &diagnostics[i];
        let severity = match d.severity {
            Severity::Error => "error",
            Severity::Warning => "warning",
        };
        out.push(
            JsonDiagnostic {
                severity,
                path: owned(d.path.as_str()),
                key: d.message.key,
                args: d.message.args.copy(),
            },
        );
        i = i + 1;
    }
    out
}

// ─────────────────────────────────────────────────────────────────────────────
// The open card
// ─────────────────────────────────────────────────────────────────────────────

/// A running editor: its address and the card it edits. The server can
/// switch to another card folder without restarting — a desktop window keeps
/// pointing at the same address.
pub struct Editor {
    url: String,
    config_path: String,
    root: String,
}

impl Editor {
    pub closed spec fn url_view(&self) -> Seq<char> {
        self.url@
    }

    pub closed spec fn config_path_view(&self) -> Seq<char> {
        self.config_path@
    }

    /// The project folder of the open card; never empty.
    pub closed spec fn root_view(&self) -> Seq<char> {
        self.root@
    }

    pub fn new(url: &str, config_path: &str) -> (r: Editor)
        ensures
            r.url_view() == url@,
            r.config_path_view() == config_path@,
            r.root_view().len() > 0,
            exists|parent: Option<Seq<char>>| r.root_view() == #[trigger] crate::root_for(parent),
            plain_path(config_path@) ==> r.root_view() == crate::root_for(
                Some(parent_of(config_path@)),
            ),
            rooted_path(config_path@) ==> r.root_view() == rooted_parent(config_path@),
    {
        Editor {
            url: owned(url),
            config_path: owned(config_path),
            root: crate::project_root(config_path),
        }
    }

    pub fn url(&self) -> (r: &str)
        ensures
            r@ == self.url_view(),
    {
        self.url.as_str()
    }

    /// The config file currently open.
    pub fn config_path(&self) -> (r: String)
        ensures
            r@ == self.config_path_view(),
    {
        owned(self.config_path.as_str())
    }

    /// The open card's project folder.
    pub fn root(&self) -> (r: String)
        ensures
            r@ == self.root_view(),
    {
        owned(self.root.as_str())
    }

    /// Switches to a different card. The caller refreshes the window.
    pub fn open(&mut self, config_path: &str)
        ensures
            final(self).url_view() == old(self).url_view(),
            final(self).config_path_view() == config_path@,
            final(self).root_view().len() > 0,
            exists|parent: Option<Seq<char>>| final(self).root_view() == #[trigger] crate::root_for(
                parent,
            ),
            plain_path(config_path@) ==> final(self).root_view() == crate::root_for(
                Some(parent_of(config_path@)),
            ),
            rooted_path(config_path@) ==> final(self).root_view() == rooted_parent(config_path@),
    {
        self.config_path = owned(config_path);
        self.root = crate::project_root(config_path);
    }
}

// ─────────────────────────────────────────────────────────────────────────────
// Picking a repository
// ─────────────────────────────────────────────────────────────────────────────

/// What the editor asked for when connecting a repository.
pub enum RepoChoice {
    /// An existing repository, by its clone URL.
    Existing(String),
    /// A new repository to create, by its (trimmed) name.
    Create(String),
}

/// An existing repository wins over creating one; asking for neither is an error.
pub fn choose_repo(clone_url: Option<&str>, create: Option<&str>) -> (r: Result<RepoChoice, Message>)
    ensures
        match (clone_url, create) {
            (Some(u), _) => r matches Ok(RepoChoice::Existing(x)) && x@ == u@,
            (None, Some(n)) => r matches Ok(RepoChoice::Create(x)) && x@ == crate::text::trim(n@),
            (None, None) => r matches Err(m) && m@ == msg("msg.api.pickRepo"@),
        },
{
    match (clone_url, create) {
        (Some(u), _) => Ok(RepoChoice::Existing(owned(u))),
        (None, Some(n)) => Ok(RepoChoice::Create(crate::text::trimmed(n))),
        (None, None) => Err(Message::new("msg.api.pickRepo")),
    }
}

// ─────────────────────────────────────────────────────────────────────────────
// Window title and display language
// ─────────────────────────────────────────────────────────────────────────────

/// The window title for a card folder's name.
pub open spec fn title_of(folder: Option<Seq<char>>) -> Seq<char> {
    match folder {
        Some(name) => "ProfileIT — "@ + name,
        None => "ProfileIT"@,
    }
}

pub fn title_with(folder: Option<&str>) -> (r: String)
    ensures
        r@ == title_of(
            match folder {
                Some(f) => Some(f@),
                None => None,
            },
        ),
{
    match folder {
        Some(name) => concat("ProfileIT — ", name),
        None => owned("ProfileIT"),
    }
}

/// The window title: the name of the folder holding the config.
pub fn title_for(config_path: &str) -> (r: String)
    ensures
        exists|folder: Option<Seq<char>>| r@ == #[trigger] title_of(folder),
        plain_path(config_path@) ==> r@ == title_of(
            if parent_of(config_path@).len() > 0 {
                Some(file_name_of(parent_of(config_path@)))
            } else {
                None
            },
        ),
        rooted_path(config_path@) ==> r@ == title_of(
            if last_index_of(config_path@, '/') > 0 {
                Some(file_name_of(rooted_parent(config_path@)))
            } else {
                None
            },
        ),
        config_path@.len() == 0 ==> r@ == "ProfileIT"@,
{
    proof {
        reveal_strlit("/");
        if plain_path(config_path@) && parent_of(config_path@).len() > 0 {
            lemma_parent_is_plain(config_path@);
        }
        if rooted_path(config_path@) && last_index_of(config_path@, '/') > 0 {
            lemma_rooted_parent_is_rooted(config_path@);
        }
    }
    match path_parent(config_path) {
        Some(parent) => match path_file_name(parent.as_str()) {
            Some(name) => {
                let r = title_with(Some(name.as_str()));
                assert(r@ == title_of(Some(name@)));
                r
            },
            None => {
                let r = title_with(None);
                assert(r@ == title_of(None));
                r
            },
        },
        None => {
            let r = title_with(None);
            assert(r@ == title_of(None));
            r
        },
    }
}

/// The language for terminal output and the app's menus: the
/// `PROFILEIT_LANG` setting if there is one, else the card's default
/// language, else Korean. Better than English errors for someone working on
/// a Korean card.
pub fn display_language(setting: Option<&str>, card_default: Option<&str>) -> (r: String)
    ensures
        r@ == match (setting, card_default) {
            (Some(s), _) => s@,
            (None, Some(d)) => d@,
            (None, None) => "ko"@,
        },
{
    match (setting, card_default) {
        (Some(s), _) => owned(s),
        (None, Some(d)) => owned(d),
        (None, None) => owned("ko"),
    }
}


// ─────────────────────────────────────────────────────────────────────────────
// What the editor's dropdowns list
// ─────────────────────────────────────────────────────────────────────────────

/// How a font preset is written in the config.
pub open spec fn font_code(p: FontPreset) -> Seq<char> {
    match p {
        FontPreset::System => "system"@,
        FontPreset::Pretendard => "pretendard"@,
        FontPreset::NotoSansKr => "noto_sans_kr"@,
        FontPreset::NanumGothic => "nanum_gothic"@,
        FontPreset::NanumMyeongjo => "nanum_myeongjo"@,
        FontPreset::Gaegu => "gaegu"@,
        FontPreset::Jua => "jua"@,
        FontPreset::IbmPlexSansKr => "ibm_plex_sans_kr"@,
        FontPreset::GowunDodum => "gowun_dodum"@,
        FontPreset::Custom => "custom"@,
    }
}

pub fn font_code_of(p: FontPreset) -> (r: &'static str)
    ensures
        r@ == font_code(p),
{
    match p {
        FontPreset::System => "system",
        FontPreset::Pretendard => "pretendard",
        FontPreset::NotoSansKr => "noto_sans_kr",
        FontPreset::NanumGothic => "nanum_gothic",
        FontPreset::NanumMyeongjo => "nanum_myeongjo",
        FontPreset::Gaegu => "gaegu",
        FontPreset::Jua => "jua",
        FontPreset::IbmPlexSansKr => "ibm_plex_sans_kr",
        FontPreset::GowunDodum => "gowun_dodum",
        FontPreset::Custom => "custom",
    }
}

/// Every font preset, in the dropdown's order.
pub open spec fn all_fonts() -> Seq<FontPreset> {
    seq![
        FontPreset::System,
        FontPreset::Pretendard,
        FontPreset::NotoSansKr,
        FontPreset::NanumGothic,
        FontPreset::NanumMyeongjo,
        FontPreset::Gaegu,
        FontPreset::Jua,
        FontPreset::IbmPlexSansKr,
        FontPreset::GowunDodum,
        FontPreset::Custom,
    ]
}

/// A font preset as the editor lists it.
pub struct FontChoice {
    pub value: &'static str,
    pub label_key: &'static str,
    pub weights: Vec<u16>,
}

/// The project's own locale file of a built-in language: where it would be,
/// and its contents when it exists.
pub struct LocaleFile {
    pub path: String,
    pub source: Option<String>,
}

pub open spec fn locale_source(f: LocaleFile) -> Option<Seq<char>> {
    match f.source {
        Some(s) => Some(s@),
        None => None,
    }
}

/// The UI strings the editor needs from a language: its own (`editor.`),
/// the messages (errors and warnings arrive as keys) and the font names.
pub open spec fn editor_keys() -> Set<Seq<char>> {
    Set::new(
        |k: Seq<char>|
            starts_with(k, "editor."@) || starts_with(k, "msg."@) || starts_with(k, "font."@),
    )
}

/// The editor's table for a language, if its strings load.
pub open spec fn editor_table(lang: Seq<char>, f: LocaleFile) -> Option<Map<Seq<char>, Seq<char>>> {
    match crate::i18n::load_table(lang, locale_source(f)) {
        Ok(t) => if t == Map::<Seq<char>, Seq<char>>::empty() {
            None
        } else {
            Some(t.restrict(editor_keys()))
        },
        Err(_) => None,
    }
}

/// The `i`-th built-in language code.
pub open spec fn code_at(i: int) -> Seq<char> {
    seq!["ko"@, "en"@, "ja"@][i]
}

/// A language's name as `language_name` gives it.
pub open spec fn display_name(code: Seq<char>, f: LocaleFile) -> Seq<char> {
    match crate::i18n::load_table(code, locale_source(f)) {
        Ok(table) => if table == Map::<Seq<char>, Seq<char>>::empty() {
            code
        } else if table.contains_key("language.name"@) {
            table["language.name"@]
        } else if crate::i18n::builtin_or_empty("en"@).contains_key("language.name"@) {
            crate::i18n::builtin_or_empty("en"@)["language.name"@]
        } else {
            "language.name"@
        },
        Err(_) => code,
    }
}

/// The lists the editor fills its dropdowns from. The server sends them so
/// that adding a font preset or a language doesn't also mean remembering to
/// update the editor's script.
pub struct EditorMeta {
    pub fonts: Vec<FontChoice>,
    /// (code, name) of each built-in language.
    pub languages: Vec<(String, String)>,
    /// The editor's table of each built-in language, when its strings load —
    /// sent up front so switching the display language is instant.
    pub ui_strings: Vec<Option<StrMap>>,
    pub platforms: Vec<&'static str>,
    pub section_types: Vec<&'static str>,
    pub contact_kinds: Vec<&'static str>,
    pub background_types: Vec<&'static str>,
    pub pattern_names: Vec<&'static str>,
    pub decoration_presets: Vec<&'static str>,
    pub card_styles: Vec<&'static str>,
    pub image_fits: Vec<&'static str>,
}

pub open spec fn statics(v: Seq<&'static str>) -> Seq<Seq<char>> {
    v.map_values(|s: &'static str| s@)
}

fn font_choices() -> (r: Vec<FontChoice>)
    ensures
        r@.len() == all_fonts().len(),
        forall|i: int|
            0 <= i < r@.len() ==> {
                let p = #[trigger] all_fonts()[i];
                &&& r@[i].value@ == font_code(p)
                &&& r@[i].label_key@ == p.label_key_of()
                &&& r@[i].weights@ == p.weights_of()
            },
{
    let presets: [FontPreset; 10] = [
        FontPreset::System,
        FontPreset::Pretendard,
        FontPreset::NotoSansKr,
        FontPreset::NanumGothic,
        FontPreset::NanumMyeongjo,
        FontPreset::Gaegu,
        FontPreset::Jua,
        FontPreset::IbmPlexSansKr,
        FontPreset::GowunDodum,
        FontPreset::Custom,
    ];
    assert(presets@ =~= all_fonts());
    let mut out: Vec<FontChoice> = Vec::new();
    let mut i: usize = 0;
    while i < 10
        invariant
            presets@ == all_fonts(),
            i <= 10,
            out@.len() == i,
            forall|k: int|
                0 <= k < i ==> {
                    let p = #[trigger] all_fonts()[k];
                    &&& out@[k].value@ == font_code(p)
                    &&& out@[k].label_key@ == p.label_key_of()
                    &&& out@[k].weights@ == p.weights_of()
                },
        decreases 10 - i,
    {
        let p = presets[i];
        out.push(
            FontChoice {
                value: font_code_of(p),
                label_key: p.label_key(),
                weights: p.available_weights(),
            },
        );
        i = i + 1;
    }
    out
}

fn editor_strings(s: &Strings) -> (r: StrMap)
    ensures
        r.map() == s.entries_map().restrict(editor_keys()),
{
    let mut t = s.with_prefix("editor.");
    let m = s.with_prefix("msg.");
    let f = s.with_prefix("font.");
    t.extend(&m);
    t.extend(&f);
    assert(t.map() =~= s.entries_map().restrict(editor_keys()));
    t
}

/// One built-in language's name and editor table.
fn language_meta(code: &str, f: &LocaleFile) -> (r: (String, Option<StrMap>))
    ensures
        r.0@ == display_name(code@, *f),
        match (r.1, editor_table(code@, *f)) {
            (Some(t), Some(m)) => t.map() == m,
            (None, None) => true,
            _ => false,
        },
{
    let source = match &f.source {
        Some(s) => Some(s.as_str()),
        None => None,
    };
    assert(crate::i18n::opt_view(source) == locale_source(*f));
    let name = crate::i18n::language_name(code, f.path.as_str(), source);
    let table = match Strings::load(code, f.path.as_str(), source) {
        Ok(s) => Some(editor_strings(&s)),
        Err(_) => None,
    };
    (name, table)
}

/// The editor's lists. `locales` holds the project's locale file of each
/// built-in language, in the order of `builtin_codes`.
pub fn editor_meta(locales: &Vec<LocaleFile>) -> (r: EditorMeta)
    requires
        locales@.len() == 3,
    ensures
        r.fonts@.len() == all_fonts().len(),
        forall|i: int|
            0 <= i < r.fonts@.len() ==> {
                let p = #[trigger] all_fonts()[i];
                &&& r.fonts@[i].value@ == font_code(p)
                &&& r.fonts@[i].label_key@ == p.label_key_of()
                &&& r.fonts@[i].weights@ == p.weights_of()
            },
        r.languages@.len() == 3,
        r.ui_strings@.len() == 3,
        forall|i: int|
            0 <= i < 3 ==> {
                &&& (#[trigger] r.languages@[i]).0@ == code_at(i)
                &&& r.languages@[i].1@ == display_name(code_at(i), locales@[i])
                &&& match (r.ui_strings@[i], editor_table(code_at(i), locales@[i])) {
                    (Some(t), Some(m)) => t.map() == m,
                    (None, None) => true,
                    _ => false,
                }
            },
        statics(r.platforms@) == seq![
            "instagram"@,
            "youtube"@,
            "threads"@,
            "tiktok"@,
            "x"@,
            "facebook"@,
            "naver"@,
            "naver_blog"@,
            "kakao_talk"@,
            "github"@,
            "linkedin"@,
            "email"@,
            "rss"@,
            "custom"@,
        ],
        statics(r.section_types@) == seq![
            "about"@,
            "timeline"@,
            "checklist"@,
            "tags"@,
            "links"@,
            "contact"@,
        ],
        statics(r.contact_kinds@) == seq!["email"@, "phone"@, "address"@, "website"@, "custom"@],
        statics(r.background_types@) == seq!["solid"@, "gradient"@, "pattern"@, "image"@],
        statics(r.pattern_names@) == seq!["dots"@, "grid"@, "stripes"@, "checks"@],
        statics(r.decoration_presets@) == seq!["confetti"@, "sparkle"@, "bubble"@],
        statics(r.card_styles@) == seq!["fill"@, "outline"@, "glass"@],
        statics(r.image_fits@) == seq!["cover"@, "contain"@, "repeat"@],
{
    let codes = crate::i18n::builtin_codes();
    let mut languages: Vec<(String, String)> = Vec::new();
    let mut ui_strings: Vec<Option<StrMap>> = Vec::new();
    let mut i: usize = 0;
    while i < 3
        invariant
            codes@.len() == 3,
            codes@[0]@ == "ko"@,
            codes@[1]@ == "en"@,
            codes@[2]@ == "ja"@,
            locales@.len() == 3,
            i <= 3,
            languages@.len() == i,
            ui_strings@.len() == i,
            forall|k: int|
                0 <= k < i ==> {
                    &&& (#[trigger] languages@[k]).0@ == code_at(k)
                    &&& languages@[k].1@ == display_name(code_at(k), locales@[k])
                    &&& match (ui_strings@[k], editor_table(code_at(k), locales@[k])) {
                        (Some(t), Some(m)) => t.map() == m,
                        (None, None) => true,
                        _ => false,
                    }
                },
        decreases 3 - i,
    {
        let code = codes[i];
        assert(code@ == code_at(i as int));
        let (name, table) = language_meta(code, &locales[i]);
        languages.push((owned(code), name));
        ui_strings.push(table);
        i = i + 1;
    }
    EditorMeta {
        fonts: font_choices(),
        languages,
        ui_strings,
        platforms: static_list(
            &[
                "instagram",
                "youtube",
                "threads",
                "tiktok",
                "x",
                "facebook",
                "naver",
                "naver_blog",
                "kakao_talk",
                "github",
                "linkedin",
                "email",
                "rss",
                "custom",
            ],
        ),
        section_types: static_list(&["about", "timeline", "checklist", "tags", "links", "contact"]),
        contact_kinds: static_list(&["email", "phone", "address", "website", "custom"]),
        background_types: static_list(&["solid", "gradient", "pattern", "image"]),
        pattern_names: static_list(&["dots", "grid", "stripes", "checks"]),
        decoration_presets: static_list(&["confetti", "sparkle", "bubble"]),
        card_styles: static_list(&["fill", "outline", "glass"]),
        image_fits: static_list(&["cover", "contain", "repeat"]),
    }
}

fn static_list(items: &[&'static str]) -> (r: Vec<&'static str>)
    ensures
        r@ == items@,
{
    let mut out: Vec<&'static str> = Vec::new();
    let n = items.len();
    let mut i: usize = 0;
    while i < n
        invariant
            n == items@.len(),
            i <= n,
            out@ == items@.take(i as int),
        decreases n - i,
    {
        out.push(items[i]);
        assert(items@.take(i + 1) =~= items@.take(i as int).push(items@[i as int]));
        i = i + 1;
    }
    assert(items@.take(n as int) =~= items@);
    out
}

} // verus!
