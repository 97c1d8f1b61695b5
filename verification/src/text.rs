//! Character-level text helpers shared by the validator, renderer and deployer.
//!
//! Every helper works on the `char` sequence of a string (its view) and states
//! its result as a spec function over `Seq<char>`.

use vstd::prelude::*;
use vstd::slice::slice_subrange;

verus! {

// ─────────────────────────────────────────────────────────────────────────────
// Character classes
// ─────────────────────────────────────────────────────────────────────────────

/// Unicode `White_Space`, the property `char::is_whitespace` and `str::trim` use.
pub open spec fn is_ws(c: char) -> bool {
    let u = c as u32;
    ||| 9 <= u <= 13
    ||| u == 32
    ||| u == 0x85
    ||| u == 0xA0
    ||| u == 0x1680
    ||| 0x2000 <= u <= 0x200A
    ||| u == 0x2028
    ||| u == 0x2029
    ||| u == 0x202F
    ||| u == 0x205F
    ||| u == 0x3000
}

pub fn is_whitespace(c: char) -> (r: bool)
    ensures
        r == is_ws(c),
{
    let u = c as u32;
    (9 <= u && u <= 13) || u == 32 || u == 0x85 || u == 0xA0 || u == 0x1680 || (0x2000 <= u && u
        <= 0x200A) || u == 0x2028 || u == 0x2029 || u == 0x202F || u == 0x205F || u == 0x3000
}

pub open spec fn is_digit(c: char) -> bool {
    '0' <= c <= '9'
}

pub fn is_ascii_digit(c: char) -> (r: bool)
    ensures
        r == is_digit(c),
{
    '0' <= c && c <= '9'
}

pub open spec fn is_hex(c: char) -> bool {
    is_digit(c) || ('a' <= c <= 'f') || ('A' <= c <= 'F')
}

pub fn is_ascii_hexdigit(c: char) -> (r: bool)
    ensures
        r == is_hex(c),
{
    ('0' <= c && c <= '9') || ('a' <= c && c <= 'f') || ('A' <= c && c <= 'F')
}

pub open spec fn is_alnum(c: char) -> bool {
    is_digit(c) || ('a' <= c <= 'z') || ('A' <= c <= 'Z')
}

pub fn is_ascii_alphanumeric(c: char) -> (r: bool)
    ensures
        r == is_alnum(c),
{
    ('0' <= c && c <= '9') || ('a' <= c && c <= 'z') || ('A' <= c && c <= 'Z')
}

/// Unicode general category `Cc`, the property `char::is_control` tests.
pub open spec fn is_ctrl(c: char) -> bool {
    let u = c as u32;
    u <= 0x1F || (0x7F <= u <= 0x9F)
}

pub fn is_control(c: char) -> (r: bool)
    ensures
        r == is_ctrl(c),
{
    let u = c as u32;
    u <= 0x1F || (0x7F <= u && u <= 0x9F)
}

/// ASCII lowercase of one character; every other character is left alone.
pub open spec fn lower(c: char) -> char {
    if 'A' <= c <= 'Z' {
        ((c as u32) + 32) as char
    } else {
        c
    }
}

pub fn ascii_lower(c: char) -> (r: char)
    ensures
        r == lower(c),
{
    if 'A' <= c && c <= 'Z' {
        let u = (c as u32) + 32;
        proof {
            assert(0x61 <= u <= 0x7A);
        }
        let r = char_from_ascii(u);
        r
    } else {
        c
    }
}

/// `char::from_u32` for a value known to be ASCII.
#[verifier::external_body]
fn char_from_ascii(u: u32) -> (r: char)
    requires
        u < 128,
    ensures
        r == u as char,
        r as u32 == u,
{
    char::from_u32(u).unwrap_or('\0')
}

// ─────────────────────────────────────────────────────────────────────────────
// Building strings
// ─────────────────────────────────────────────────────────────────────────────

/// Collects characters into a `String` with `String::from_iter`; the result
/// holds exactly those characters, in order.
#[verifier::external_body]
pub(crate) fn string_from(chars: &[char]) -> (r: String)
    ensures
        r@ == chars@,
{
    chars.iter().collect()
}

/// The characters of a string slice, in order.
pub fn chars_of(s: &str) -> (r: Vec<char>)
    ensures
        r@ == s@,
{
    let mut out: Vec<char> = Vec::new();
    for c in it: s.chars()
        invariant
            out@ == it.seq().take(it.index() as int),
            it.seq() == s@,
    {
        out.push(c);
    }
    out
}

/// An owned copy of a string slice.
pub fn owned(s: &str) -> (r: String)
    ensures
        r@ == s@,
{
    String::from_str(s)
}

/// `a` followed by `b`.
pub fn concat(a: &str, b: &str) -> (r: String)
    ensures
        r@ == a@ + b@,
{
    let mut out = String::from_str(a);
    out.append(b);
    out
}

/// `a`, `b` and `c` in a row.
pub fn concat3(a: &str, b: &str, c: &str) -> (r: String)
    ensures
        r@ == a@ + b@ + c@,
{
    let mut out = String::from_str(a);
    out.append(b);
    out.append(c);
    out
}

/// The characters `v[from..to]` as a `String`.
pub fn substring(v: &Vec<char>, from: usize, to: usize) -> (r: String)
    requires
        from <= to <= v@.len(),
    ensures
        r@ == v@.subrange(from as int, to as int),
{
    let part = slice_subrange(v.as_slice(), from, to);
    string_from(part)
}

// ─────────────────────────────────────────────────────────────────────────────
// Decimal numbers
// ─────────────────────────────────────────────────────────────────────────────

pub open spec fn digit_char(d: nat) -> char {
    if d == 0 {
        '0'
    } else if d == 1 {
        '1'
    } else if d == 2 {
        '2'
    } else if d == 3 {
        '3'
    } else if d == 4 {
        '4'
    } else if d == 5 {
        '5'
    } else if d == 6 {
        '6'
    } else if d == 7 {
        '7'
    } else if d == 8 {
        '8'
    } else {
        '9'
    }
}

/// The decimal notation of `n`, as `Display` writes an unsigned integer.
pub open spec fn dec(n: nat) -> Seq<char>
    decreases n,
{
    if n < 10 {
        seq![digit_char(n)]
    } else {
        dec(n / 10).push(digit_char(n % 10))
    }
}

fn digit(d: u64) -> (r: char)
    requires
        d < 10,
    ensures
        r == digit_char(d as nat),
{
    if d == 0 {
        '0'
    } else if d == 1 {
        '1'
    } else if d == 2 {
        '2'
    } else if d == 3 {
        '3'
    } else if d == 4 {
        '4'
    } else if d == 5 {
        '5'
    } else if d == 6 {
        '6'
    } else if d == 7 {
        '7'
    } else if d == 8 {
        '8'
    } else {
        '9'
    }
}

fn push_decimal(n: u64, out: &mut Vec<char>)
    ensures
        final(out)@ == old(out)@ + dec(n as nat),
    decreases n,
{
    if n < 10 {
        out.push(digit(n));
        assert(dec(n as nat) == seq![digit_char(n as nat)]);
    } else {
        push_decimal(n / 10, out);
        out.push(digit(n % 10));
        assert(old(out)@ + dec(n as nat) =~= old(out)@ + dec((n / 10) as nat) + seq![
            digit_char((n % 10) as nat),
        ]);
    }
}

/// `n.to_string()` for an unsigned integer.
pub fn decimal(n: u64) -> (r: String)
    ensures
        r@ == dec(n as nat),
{
    let mut out: Vec<char> = Vec::new();
    push_decimal(n, &mut out);
    assert(out@ == dec(n as nat));
    string_from(out.as_slice())
}

// ─────────────────────────────────────────────────────────────────────────────
// Trimming
// ─────────────────────────────────────────────────────────────────────────────

pub open spec fn trim_start(s: Seq<char>) -> Seq<char>
    decreases s.len(),
{
    if s.len() > 0 && is_ws(s[0]) {
        trim_start(s.skip(1))
    } else {
        s
    }
}

pub open spec fn trim_end(s: Seq<char>) -> Seq<char>
    decreases s.len(),
{
    if s.len() > 0 && is_ws(s.last()) {
        trim_end(s.drop_last())
    } else {
        s
    }
}

/// `str::trim`: leading and trailing whitespace removed.
pub open spec fn trim(s: Seq<char>) -> Seq<char> {
    trim_end(trim_start(s))
}

/// Bounds `[from, to)` of the trimmed part of `v`.
pub fn trim_bounds(v: &Vec<char>) -> (r: (usize, usize))
    ensures
        r.0 <= r.1 <= v@.len(),
        v@.subrange(r.0 as int, r.1 as int) == trim(v@),
{
    let n = v.len();
    let mut i: usize = 0;
    assert(v@.skip(0) =~= v@);
    while i < n && is_whitespace(v[i])
        invariant
            i <= n == v@.len(),
            trim_start(v@.skip(i as int)) == trim_start(v@),
        decreases n - i,
    {
        assert(v@.skip(i as int).skip(1) =~= v@.skip(i + 1));
        i = i + 1;
    }
    assert(trim_start(v@) == v@.skip(i as int));
    let mut j: usize = n;
    while j > i && is_whitespace(v[j - 1])
        invariant
            i <= j <= n == v@.len(),
            trim_start(v@) == v@.skip(i as int),
            trim_end(v@.subrange(i as int, j as int)) == trim(v@),
        decreases j,
    {
        assert(v@.subrange(i as int, j as int).drop_last() =~= v@.subrange(i as int, j - 1));
        j = j - 1;
    }
    assert(v@.skip(i as int) =~= v@.subrange(i as int, n as int));
    (i, j)
}

/// `s.trim()` as an owned string.
pub fn trimmed(s: &str) -> (r: String)
    ensures
        r@ == trim(s@),
{
    let v = chars_of(s);
    let (a, b) = trim_bounds(&v);
    substring(&v, a, b)
}

/// Whether `s.trim()` is empty.
pub fn is_blank(s: &str) -> (r: bool)
    ensures
        r == (trim(s@).len() == 0),
{
    let v = chars_of(s);
    let (a, b) = trim_bounds(&v);
    a == b
}

// ─────────────────────────────────────────────────────────────────────────────
// Comparison and searching
// ─────────────────────────────────────────────────────────────────────────────

pub fn seq_eq(a: &Vec<char>, b: &Vec<char>) -> (r: bool)
    ensures
        r == (a@ == b@),
{
    if a.len() != b.len() {
        return false;
    }
    let n = a.len();
    let mut i: usize = 0;
    while i < n
        invariant
            n == a@.len() == b@.len(),
            i <= n,
            a@.take(i as int) == b@.take(i as int),
        decreases n - i,
    {
        if a[i] != b[i] {
            return false;
        }
        assert(a@.take(i + 1) =~= a@.take(i as int).push(a@[i as int]));
        assert(b@.take(i + 1) =~= b@.take(i as int).push(b@[i as int]));
        i = i + 1;
    }
    assert(a@ =~= a@.take(n as int));
    assert(b@ =~= b@.take(n as int));
    true
}

/// `a == b` for string slices.
pub fn str_eq(a: &str, b: &str) -> (r: bool)
    ensures
        r == (a@ == b@),
{
    let x = chars_of(a);
    let y = chars_of(b);
    seq_eq(&x, &y)
}

pub open spec fn starts_with(s: Seq<char>, p: Seq<char>) -> bool {
    p.len() <= s.len() && s.take(p.len() as int) == p
}

pub open spec fn ends_with(s: Seq<char>, p: Seq<char>) -> bool {
    p.len() <= s.len() && s.skip(s.len() - p.len()) == p
}

/// Whether `p` occurs in `s` at position `at`.
pub open spec fn occurs_at(s: Seq<char>, p: Seq<char>, at: int) -> bool {
    0 <= at && at + p.len() <= s.len() && s.subrange(at, at + p.len()) == p
}

pub open spec fn contains(s: Seq<char>, p: Seq<char>) -> bool {
    exists|at: int| occurs_at(s, p, at)
}

/// Whether `p` occurs in `v` at position `at`.
pub fn matches_at(v: &Vec<char>, p: &Vec<char>, at: usize) -> (r: bool)
    ensures
        r == occurs_at(v@, p@, at as int),
{
    if at > v.len() || p.len() > v.len() - at {
        return false;
    }
    let n = p.len();
    let mut i: usize = 0;
    while i < n
        invariant
            n == p@.len(),
            at + n <= v.len(),
            i <= n,
            v@.subrange(at as int, at + i) == p@.take(i as int),
        decreases n - i,
    {
        if v[at + i] != p[i] {
            assert(v@.subrange(at as int, at + n)[i as int] != p@[i as int]);
            return false;
        }
        assert(v@.subrange(at as int, at + i + 1) =~= v@.subrange(at as int, at + i).push(
            v@[at + i],
        ));
        assert(p@.take(i + 1) =~= p@.take(i as int).push(p@[i as int]));
        i = i + 1;
    }
    assert(p@ =~= p@.take(n as int));
    true
}

pub fn vec_starts_with(v: &Vec<char>, p: &Vec<char>) -> (r: bool)
    ensures
        r == starts_with(v@, p@),
{
    let r = matches_at(v, p, 0);
    proof {
        if p@.len() <= v@.len() {
            assert(v@.subrange(0, p@.len() as int) =~= v@.take(p@.len() as int));
        }
    }
    r
}

pub fn vec_ends_with(v: &Vec<char>, p: &Vec<char>) -> (r: bool)
    ensures
        r == ends_with(v@, p@),
{
    if p.len() > v.len() {
        return false;
    }
    let at = v.len() - p.len();
    let r = matches_at(v, p, at);
    assert(v@.subrange(at as int, v@.len() as int) =~= v@.skip(at as int));
    r
}

/// `s.starts_with(p)`.
pub fn str_starts_with(s: &str, p: &str) -> (r: bool)
    ensures
        r == starts_with(s@, p@),
{
    let v = chars_of(s);
    let q = chars_of(p);
    vec_starts_with(&v, &q)
}

/// Searches `v` for `p` from position `from` on.
pub fn find_from(v: &Vec<char>, p: &Vec<char>, from: usize) -> (r: Option<usize>)
    ensures
        match r {
            Some(at) => from <= at && occurs_at(v@, p@, at as int) && forall|k: int|
                from <= k < at ==> !occurs_at(v@, p@, k),
            None => forall|k: int| from <= k ==> !occurs_at(v@, p@, k),
        },
{
    let n = v.len();
    if from > n {
        return None;
    }
    let mut k: usize = from;
    while k < n
        invariant
            n == v@.len(),
            from <= k <= n,
            forall|j: int| from <= j < k ==> !occurs_at(v@, p@, j),
        decreases n - k,
    {
        if matches_at(v, p, k) {
            return Some(k);
        }
        k = k + 1;
    }
    if matches_at(v, p, n) {
        return Some(n);
    }
    proof {
        assert forall|j: int| from <= j implies !occurs_at(v@, p@, j) by {
            if j > n {
                assert(!occurs_at(v@, p@, j));
            }
        }
    }
    None
}

/// `s.contains(p)`.
pub fn str_contains(s: &str, p: &str) -> (r: bool)
    ensures
        r == contains(s@, p@),
{
    let v = chars_of(s);
    let q = chars_of(p);
    let found = find_from(&v, &q, 0);
    match found {
        Some(at) => true,
        None => {
            assert forall|at: int| !occurs_at(s@, p@, at) by {
                if at >= 0 {
                    assert(!occurs_at(v@, q@, at));
                }
            }
            false
        },
    }
}

pub open spec fn has_char(s: Seq<char>, c: char) -> bool {
    exists|i: int| 0 <= i < s.len() && s[i] == c
}

pub fn vec_has_char(v: &Vec<char>, c: char) -> (r: bool)
    ensures
        r == has_char(v@, c),
{
    let n = v.len();
    let mut i: usize = 0;
    while i < n
        invariant
            n == v@.len(),
            i <= n,
            forall|k: int| 0 <= k < i ==> v@[k] != c,
        decreases n - i,
    {
        if v[i] == c {
            return true;
        }
        i = i + 1;
    }
    false
}

// ─────────────────────────────────────────────────────────────────────────────
// Replacing
// ─────────────────────────────────────────────────────────────────────────────

/// Appends every character of `src` to `out`.
pub fn push_all(out: &mut Vec<char>, src: &Vec<char>)
    ensures
        final(out)@ == old(out)@ + src@,
{
    let n = src.len();
    let mut i: usize = 0;
    while i < n
        invariant
            n == src@.len(),
            i <= n,
            out@ == old(out)@ + src@.take(i as int),
        decreases n - i,
    {
        out.push(src[i]);
        assert(src@.take(i + 1) =~= src@.take(i as int).push(src@[i as int]));
        i = i + 1;
    }
    assert(src@.take(n as int) =~= src@);
}

/// `str::replace`: every non-overlapping occurrence of `p`, scanning left to
/// right, replaced by `r`. (Only meaningful for a non-empty `p`.)
pub open spec fn replace(s: Seq<char>, p: Seq<char>, r: Seq<char>) -> Seq<char>
    decreases s.len(),
{
    if p.len() == 0 || s.len() < p.len() {
        s
    } else if s.take(p.len() as int) == p {
        r + replace(s.skip(p.len() as int), p, r)
    } else {
        seq![s[0]] + replace(s.skip(1), p, r)
    }
}

/// `s.replace(p, r)` for a non-empty pattern.
pub fn replace_all(s: &str, p: &str, r: &str) -> (out: String)
    requires
        p@.len() > 0,
    ensures
        out@ == replace(s@, p@, r@),
{
    let v = chars_of(s);
    let q = chars_of(p);
    let w = chars_of(r);
    let n = v.len();
    let mut acc: Vec<char> = Vec::new();
    let mut i: usize = 0;
    assert(v@.skip(0) =~= v@);
    while i < n
        invariant
            n == v@.len(),
            i <= n,
            q@.len() > 0,
            q@ == p@,
            w@ == r@,
            v@ == s@,
            acc@ + replace(v@.skip(i as int), q@, w@) == replace(v@, q@, w@),
        decreases n - i,
    {
        let ghost rest = v@.skip(i as int);
        let ghost before = acc@;
        if matches_at(&v, &q, i) {
            assert(rest.take(q@.len() as int) =~= v@.subrange(i as int, i + q@.len()));
            assert(rest.skip(q@.len() as int) =~= v@.skip(i + q@.len()));
            push_all(&mut acc, &w);
            let ghost tail = replace(v@.skip(i + q@.len()), q@, w@);
            assert(acc@ + tail =~= before + (w@ + tail));
            i = i + q.len();
        } else {
            proof {
                if rest.len() >= q@.len() {
                    assert(rest.take(q@.len() as int) =~= v@.subrange(i as int, i + q@.len()));
                }
            }
            assert(rest.skip(1) =~= v@.skip(i + 1));
            acc.push(v[i]);
            let ghost tail = replace(v@.skip(i + 1), q@, w@);
            assert(acc@ + tail =~= before + (seq![v@[i as int]] + tail));
            i = i + 1;
        }
    }
    assert(v@.skip(n as int) =~= Seq::<char>::empty());
    assert(acc@ + Seq::<char>::empty() =~= acc@);
    string_from(acc.as_slice())
}


// ─────────────────────────────────────────────────────────────────────────────
// Stripping repeated affixes
// ─────────────────────────────────────────────────────────────────────────────

/// `str::trim_end_matches(c)`: every trailing `c` removed.
pub open spec fn strip_end(s: Seq<char>, c: char) -> Seq<char>
    decreases s.len(),
{
    if s.len() > 0 && s.last() == c {
        strip_end(s.drop_last(), c)
    } else {
        s
    }
}

/// `str::trim_start_matches(c)`: every leading `c` removed.
pub open spec fn strip_start(s: Seq<char>, c: char) -> Seq<char>
    decreases s.len(),
{
    if s.len() > 0 && s[0] == c {
        strip_start(s.skip(1), c)
    } else {
        s
    }
}

/// `str::trim_start_matches(p)` for a non-empty pattern: `p` removed from the
/// front as many times as it repeats there.
pub open spec fn strip_prefix_all(s: Seq<char>, p: Seq<char>) -> Seq<char>
    decreases s.len(),
{
    if p.len() > 0 && starts_with(s, p) {
        strip_prefix_all(s.skip(p.len() as int), p)
    } else {
        s
    }
}

/// Bound of `strip_end(v[..to], c)`.
pub fn strip_end_bound(v: &Vec<char>, to: usize, c: char) -> (r: usize)
    requires
        to <= v@.len(),
    ensures
        r <= to,
        v@.take(r as int) == strip_end(v@.take(to as int), c),
{
    let mut j = to;
    while j > 0 && v[j - 1] == c
        invariant
            j <= to <= v@.len(),
            strip_end(v@.take(j as int), c) == strip_end(v@.take(to as int), c),
        decreases j,
    {
        assert(v@.take(j as int).drop_last() =~= v@.take(j - 1));
        j = j - 1;
    }
    j
}

/// Bound of `strip_start(v[from..], c)`.
pub fn strip_start_bound(v: &Vec<char>, from: usize, c: char) -> (r: usize)
    requires
        from <= v@.len(),
    ensures
        from <= r <= v@.len(),
        v@.skip(r as int) == strip_start(v@.skip(from as int), c),
{
    let n = v.len();
    let mut i = from;
    while i < n && v[i] == c
        invariant
            from <= i <= n == v@.len(),
            strip_start(v@.skip(i as int), c) == strip_start(v@.skip(from as int), c),
        decreases n - i,
    {
        assert(v@.skip(i as int).skip(1) =~= v@.skip(i + 1));
        i = i + 1;
    }
    i
}

/// `s.trim_end_matches(c)` as an owned string.
pub fn trim_end_char(s: &str, c: char) -> (r: String)
    ensures
        r@ == strip_end(s@, c),
{
    let v = chars_of(s);
    let j = strip_end_bound(&v, v.len(), c);
    assert(v@.take(v@.len() as int) =~= v@);
    substring(&v, 0, j)
}

/// `s.trim_start_matches(c)` as an owned string.
pub fn trim_start_char(s: &str, c: char) -> (r: String)
    ensures
        r@ == strip_start(s@, c),
{
    let v = chars_of(s);
    let i = strip_start_bound(&v, 0, c);
    assert(v@.skip(0) =~= v@);
    assert(v@.skip(i as int) =~= v@.subrange(i as int, v@.len() as int));
    substring(&v, i, v.len())
}

/// Bound of `strip_prefix_all(v[from..], p)`.
pub fn strip_prefix_all_bound(v: &Vec<char>, from: usize, p: &Vec<char>) -> (r: usize)
    requires
        from <= v@.len(),
        p@.len() > 0,
    ensures
        from <= r <= v@.len(),
        v@.skip(r as int) == strip_prefix_all(v@.skip(from as int), p@),
{
    let n = v.len();
    let mut i = from;
    while p.len() <= n - i && matches_at(v, p, i)
        invariant
            from <= i <= n == v@.len(),
            p@.len() > 0,
            strip_prefix_all(v@.skip(i as int), p@) == strip_prefix_all(
                v@.skip(from as int),
                p@,
            ),
        decreases n - i,
    {
        assert(v@.skip(i as int).take(p@.len() as int) =~= v@.subrange(i as int, i + p@.len()));
        assert(v@.skip(i as int).skip(p@.len() as int) =~= v@.skip(i + p@.len()));
        i = i + p.len();
    }
    proof {
        let rest = v@.skip(i as int);
        if starts_with(rest, p@) {
            assert(rest.take(p@.len() as int) =~= v@.subrange(i as int, i + p@.len()));
        }
    }
    i
}

// ─────────────────────────────────────────────────────────────────────────────
// Case-insensitive comparison, character search
// ─────────────────────────────────────────────────────────────────────────────

/// `str::eq_ignore_ascii_case`: equal once ASCII letters are lowercased.
/// (Byte-wise on UTF-8 this is the same as character-wise, since lowercasing
/// only touches ASCII bytes and those never occur inside a multi-byte character.)
pub open spec fn eq_ascii_ci(a: Seq<char>, b: Seq<char>) -> bool {
    a.len() == b.len() && forall|i: int| 0 <= i < a.len() ==> lower(#[trigger] a[i]) == lower(b[i])
}

pub fn vec_eq_ascii_ci(a: &Vec<char>, b: &Vec<char>) -> (r: bool)
    ensures
        r == eq_ascii_ci(a@, b@),
{
    if a.len() != b.len() {
        return false;
    }
    let n = a.len();
    let mut i: usize = 0;
    while i < n
        invariant
            n == a@.len() == b@.len(),
            i <= n,
            forall|k: int| 0 <= k < i ==> lower(#[trigger] a@[k]) == lower(b@[k]),
        decreases n - i,
    {
        if ascii_lower(a[i]) != ascii_lower(b[i]) {
            return false;
        }
        i = i + 1;
    }
    true
}

pub fn str_eq_ascii_ci(a: &str, b: &str) -> (r: bool)
    ensures
        r == eq_ascii_ci(a@, b@),
{
    let x = chars_of(a);
    let y = chars_of(b);
    vec_eq_ascii_ci(&x, &y)
}

/// Index of the first `c` in `s`, or `-1`.
pub open spec fn index_of(s: Seq<char>, c: char) -> int
    decreases s.len(),
{
    if s.len() == 0 {
        -1
    } else if s[0] == c {
        0
    } else {
        let r = index_of(s.skip(1), c);
        if r < 0 {
            -1
        } else {
            r + 1
        }
    }
}

pub proof fn lemma_index_of(s: Seq<char>, c: char)
    ensures
        -1 <= index_of(s, c) < s.len(),
        index_of(s, c) >= 0 ==> s[index_of(s, c)] == c,
        forall|k: int| 0 <= k < s.len() && (index_of(s, c) < 0 || k < index_of(s, c)) ==> s[k] != c,
    decreases s.len(),
{
    if s.len() > 0 && s[0] != c {
        lemma_index_of(s.skip(1), c);
        assert forall|k: int|
            0 <= k < s.len() && (index_of(s, c) < 0 || k < index_of(s, c)) implies s[k] != c by {
            if k > 0 {
                assert(s[k] == s.skip(1)[k - 1]);
            }
        }
    }
}

/// The first position of `c` in `v`.
pub fn vec_index_of(v: &Vec<char>, c: char) -> (r: Option<usize>)
    ensures
        match r {
            Some(i) => i == index_of(v@, c),
            None => index_of(v@, c) < 0,
        },
{
    let n = v.len();
    let mut i: usize = 0;
    while i < n
        invariant
            n == v@.len(),
            i <= n,
            forall|k: int| 0 <= k < i ==> v@[k] != c,
        decreases n - i,
    {
        if v[i] == c {
            proof {
                lemma_index_of(v@, c);
                let x = index_of(v@, c);
                assert(x >= 0 && x <= i) by {
                    if x < 0 || x > i {
                        assert(v@[i as int] != c);
                    }
                }
                if x < i {
                    assert(v@[x] != c);
                }
            }
            return Some(i);
        }
        i = i + 1;
    }
    proof {
        lemma_index_of(v@, c);
        let x = index_of(v@, c);
        if x >= 0 {
            assert(v@[x] != c);
        }
    }
    None
}


// ─────────────────────────────────────────────────────────────────────────────
// Splitting
// ─────────────────────────────────────────────────────────────────────────────

/// Position of the first occurrence of a non-empty `p` in `s`, or `-1`.
pub open spec fn find_first(s: Seq<char>, p: Seq<char>) -> int
    decreases s.len(),
{
    if p.len() == 0 || s.len() < p.len() {
        -1
    } else if s.take(p.len() as int) == p {
        0
    } else {
        let r = find_first(s.skip(1), p);
        if r < 0 {
            -1
        } else {
            r + 1
        }
    }
}

pub proof fn lemma_occurs_shift(s: Seq<char>, p: Seq<char>, d: int, j: int)
    requires
        0 <= d <= s.len(),
        0 <= j,
    ensures
        occurs_at(s, p, d + j) == occurs_at(s.skip(d), p, j),
{
    if 0 <= j && d + j + p.len() <= s.len() {
        assert(s.subrange(d + j, d + j + p.len()) =~= s.skip(d).subrange(j, j + p.len()));
    }
}

/// `find_first` is the first occurrence.
pub proof fn lemma_find_first(s: Seq<char>, p: Seq<char>)
    requires
        p.len() > 0,
    ensures
        find_first(s, p) >= 0 ==> occurs_at(s, p, find_first(s, p)),
        forall|j: int|
            0 <= j && (find_first(s, p) < 0 || j < find_first(s, p)) ==> !#[trigger] occurs_at(
                s,
                p,
                j,
            ),
    decreases s.len(),
{
    if s.len() < p.len() {
    } else if s.take(p.len() as int) == p {
        assert(s.subrange(0, p.len() as int) =~= s.take(p.len() as int));
    } else {
        lemma_find_first(s.skip(1), p);
        let r = find_first(s.skip(1), p);
        if r >= 0 {
            lemma_occurs_shift(s, p, 1, r);
        }
        assert forall|j: int|
            0 <= j && (find_first(s, p) < 0 || j < find_first(s, p)) implies !#[trigger] occurs_at(
            s,
            p,
            j,
        ) by {
            if j == 0 {
                assert(s.subrange(0, p.len() as int) =~= s.take(p.len() as int));
            } else {
                lemma_occurs_shift(s, p, 1, j - 1);
            }
        }
    }
}

/// `str::split` on a non-empty pattern: the pieces between occurrences,
/// scanning left to right.
pub open spec fn split_str(s: Seq<char>, p: Seq<char>) -> Seq<Seq<char>>
    decreases s.len(),
{
    let k = find_first(s, p);
    if p.len() == 0 || k < 0 {
        seq![s]
    } else {
        if k + p.len() <= s.len() {
            seq![s.take(k)] + split_str(s.skip(k + p.len()), p)
        } else {
            seq![s]
        }
    }
}

/// The position `find_first` gives for the rest of `v` from `start`.
proof fn lemma_find_from_start(v: Seq<char>, p: Seq<char>, start: int, at: Option<int>)
    requires
        p.len() > 0,
        0 <= start <= v.len(),
        match at {
            Some(a) => start <= a && occurs_at(v, p, a) && forall|k: int|
                start <= k < a ==> !occurs_at(v, p, k),
            None => forall|k: int| start <= k ==> !occurs_at(v, p, k),
        },
    ensures
        match at {
            Some(a) => find_first(v.skip(start), p) == a - start,
            None => find_first(v.skip(start), p) < 0,
        },
{
    let s = v.skip(start);
    lemma_find_first(s, p);
    let f = find_first(s, p);
    match at {
        Some(a) => {
            lemma_occurs_shift(v, p, start, a - start);
            if f >= 0 {
                lemma_occurs_shift(v, p, start, f);
            }
        },
        None => {
            if f >= 0 {
                lemma_occurs_shift(v, p, start, f);
            }
        },
    }
}

/// The pieces of `v` between the occurrences of a non-empty `p`.
pub fn split_on(v: &Vec<char>, p: &Vec<char>) -> (r: Vec<String>)
    requires
        p@.len() > 0,
    ensures
        crate::config::views(r@) == split_str(v@, p@),
        r@.len() >= 1,
{
    let n = v.len();
    let mut out: Vec<String> = Vec::new();
    let mut start: usize = 0;
    assert(v@.skip(0) =~= v@);
    loop
        invariant
            n == v@.len(),
            p@.len() > 0,
            start <= n,
            crate::config::views(out@) + split_str(v@.skip(start as int), p@) == split_str(
                v@,
                p@,
            ),
        decreases n - start,
    {
        let found = find_from(v, p, start);
        let ghost rest = v@.skip(start as int);
        match found {
            Some(at) => {
                proof {
                    lemma_find_from_start(v@, p@, start as int, Some(at as int));
                    assert(rest.take(at - start) =~= v@.subrange(start as int, at as int));
                    assert(rest.skip(at - start + p@.len()) =~= v@.skip(at + p@.len()));
                }
                let piece = substring(v, start, at);
                let ghost before = out@;
                out.push(piece);
                assert(crate::config::views(out@) =~= crate::config::views(before).push(
                    rest.take(at - start),
                ));
                start = at + p.len();
            },
            None => {
                proof {
                    lemma_find_from_start(v@, p@, start as int, None);
                    assert(rest =~= v@.subrange(start as int, n as int));
                }
                let piece = substring(v, start, n);
                let ghost before = out@;
                out.push(piece);
                assert(crate::config::views(out@) =~= crate::config::views(before).push(rest));
                assert(crate::config::views(out@) =~= crate::config::views(before) + seq![rest]);
                return out;
            },
        }
    }
}

} // verus!
