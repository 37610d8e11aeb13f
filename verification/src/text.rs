//! Text and path operations the library relies on: verified helpers that
//! search, trim, split and read text, and the standard library's string and
//! path calls behind trusted wrappers.
use vstd::prelude::*;

verus! {

/// The lowercase mapping of a string, as `str::to_lowercase` computes it
/// (full Unicode case mapping, which may change the length).
pub uninterp spec fn lowercase(s: Seq<char>) -> Seq<char>;

/// Whether a path starts with a base path, comparing whole components, as
/// `Path::starts_with` decides it.
pub uninterp spec fn path_has_prefix(path: Seq<char>, base: Seq<char>) -> bool;

/// Whether two paths are equal component by component, as `==` on `Path`
/// decides it.
pub uninterp spec fn same_path(a: Seq<char>, b: Seq<char>) -> bool;

/// What remains of a path once a base prefix is removed, rendered as text,
/// as `Path::strip_prefix` followed by `to_string_lossy` gives it.
pub uninterp spec fn stripped_path(path: Seq<char>, base: Seq<char>) -> Seq<char>;

/// A path with a relative part appended, rendered as text, as
/// `Path::join` followed by `to_string_lossy` gives it.
pub uninterp spec fn joined_path(base: Seq<char>, rel: Seq<char>) -> Seq<char>;

/// The parent of a path, rendered as text, as `Path::parent` followed by
/// `to_string_lossy` gives it (`None` for a root or an empty path).
pub uninterp spec fn parent_of(path: Seq<char>) -> Option<Seq<char>>;

/// A path with its extension replaced (or added), rendered as text, as
/// `Path::with_extension` followed by `to_string_lossy` gives it.
pub uninterp spec fn with_extension_of(path: Seq<char>, ext: Seq<char>) -> Seq<char>;

/// A path with its file name replaced, rendered as text, as
/// `Path::with_file_name` followed by `to_string_lossy` gives it.
pub uninterp spec fn with_file_name_of(path: Seq<char>, name: Seq<char>) -> Seq<char>;

/// The stem of a path's file name, as `Path::file_stem` gives it (`None`
/// when the path has no file name).
pub uninterp spec fn file_stem_of(path: Seq<char>) -> Option<Seq<char>>;

/// The fields of a text separated by `:`, in order, as `str::split(':')`
/// yields them: a text with `n` separators has `n + 1` fields (an empty
/// text gives one empty field).
pub open spec fn colon_fields(s: Seq<char>) -> Seq<Seq<char>>
    decreases s.len(),
{
    if s.len() == 0 {
        seq![Seq::<char>::empty()]
    } else {
        let rest = colon_fields(s.drop_last());
        if s.last() == ':' {
            rest.push(Seq::<char>::empty())
        } else {
            rest.update(rest.len() - 1, rest.last().push(s.last()))
        }
    }
}

/// Whether a character is whitespace as `char::is_whitespace` decides it:
/// it has the Unicode `White_Space` property.
pub open spec fn is_white_space(c: char) -> bool {
    ('\u{9}' <= c && c <= '\u{d}') || c == ' ' || c == '\u{85}' || c == '\u{a0}' || c
        == '\u{1680}' || ('\u{2000}' <= c && c <= '\u{200a}') || c == '\u{2028}' || c
        == '\u{2029}' || c == '\u{202f}' || c == '\u{205f}' || c == '\u{3000}'
}

/// Whether a character is whitespace, as `char::is_whitespace` decides it.
fn is_whitespace_char(c: char) -> (b: bool)
    ensures
        b == is_white_space(c),
{
    ('\u{9}' <= c && c <= '\u{d}') || c == ' ' || c == '\u{85}' || c == '\u{a0}' || c
        == '\u{1680}' || ('\u{2000}' <= c && c <= '\u{200a}') || c == '\u{2028}' || c
        == '\u{2029}' || c == '\u{202f}' || c == '\u{205f}' || c == '\u{3000}'
}

/// A text with leading and trailing whitespace removed, as `str::trim`
/// gives it.
pub open spec fn trimmed(s: Seq<char>) -> Seq<char>
    decreases s.len(),
{
    if s.len() > 0 && is_white_space(s[0]) {
        trimmed(s.drop_first())
    } else if s.len() > 0 && is_white_space(s.last()) {
        trimmed(s.drop_last())
    } else {
        s
    }
}

/// A text with trailing whitespace removed, as `str::trim_end` gives it.
pub open spec fn trimmed_end(s: Seq<char>) -> Seq<char>
    decreases s.len(),
{
    if s.len() > 0 && is_white_space(s.last()) {
        trimmed_end(s.drop_last())
    } else {
        s
    }
}

/// Whether every character of a text is an ASCII decimal digit.
pub open spec fn all_decimal_digits(d: Seq<char>) -> bool {
    forall|i: int| 0 <= i < d.len() ==> '0' <= #[trigger] d[i] && d[i] <= '9'
}

/// The number that a run of decimal digits denotes.
pub open spec fn decimal_value(d: Seq<char>) -> int
    decreases d.len(),
{
    if d.len() == 0 {
        0
    } else {
        decimal_value(d.drop_last()) * 10 + (d.last() as int - '0' as int)
    }
}

/// The integer a text denotes, as `str::parse::<i64>` reads it: an optional
/// `+` or `-`, then one or more decimal digits, the value in range of
/// `i64`; `None` for any other text (empty, a sign alone, a character that
/// is not a digit, or a value out of range).
pub open spec fn parsed_i64(s: Seq<char>) -> Option<i64> {
    let signed = s.len() > 0 && (s[0] == '-' || s[0] == '+');
    let digits = if signed {
        s.skip(1)
    } else {
        s
    };
    let magnitude = decimal_value(digits);
    let v = if signed && s[0] == '-' {
        -magnitude
    } else {
        magnitude
    };
    if digits.len() == 0 || !all_decimal_digits(digits) || v < i64::MIN || v > i64::MAX {
        None
    } else {
        Some(v as i64)
    }
}

/// Whether `needle` occurs as a contiguous part of `hay`.
pub open spec fn occurs_in(hay: Seq<char>, needle: Seq<char>) -> bool {
    exists|i: int|
        0 <= i && i + needle.len() <= hay.len() && #[trigger] hay.subrange(i, i + needle.len())
            == needle
}

/// The characters of a text, in order.
pub(crate) fn chars_of(s: &str) -> (v: Vec<char>)
    ensures
        v@ == s@,
{
    broadcast use vstd::string::group_string_axioms;
    let mut v: Vec<char> = Vec::new();
    for c in it: s.chars()
        invariant
            v@.len() == it.index(),
            forall|i: int| 0 <= i < v@.len() ==> v@[i] == it.seq()[i],
    {
        v.push(c);
    }
    assert(v@ =~= s@);
    v
}

/// `str::to_lowercase`: the result is the lowercase mapping of the argument.
#[verifier::external_body]
pub(crate) fn to_lowercase(s: &str) -> (r: String)
    ensures
        r@ == lowercase(s@),
{
    s.to_lowercase()
}

/// Whether `n` occurs in `h` at position `i`.
fn matches_at(h: &Vec<char>, n: &Vec<char>, i: usize) -> (b: bool)
    requires
        i + n@.len() <= h@.len(),
        h@.len() <= usize::MAX,
    ensures
        b == (h@.subrange(i as int, i + n@.len()) == n@),
{
    let mut j: usize = 0;
    while j < n.len()
        invariant
            i + n@.len() <= h@.len(),
            h@.len() <= usize::MAX,
            j <= n@.len(),
            forall|m: int| 0 <= m < j ==> h@[i + m] == n@[m],
        decreases n@.len() - j,
    {
        if h[i + j] != n[j] {
            assert(h@.subrange(i as int, i + n@.len())[j as int] != n@[j as int]);
            return false;
        }
        j = j + 1;
    }
    assert(h@.subrange(i as int, i + n@.len()) =~= n@);
    true
}

/// Whether a text contains another as a contiguous part, as
/// `str::contains` with a string pattern decides it.
pub(crate) fn str_contains(hay: &str, needle: &str) -> (b: bool)
    ensures
        b == occurs_in(hay@, needle@),
{
    let h = chars_of(hay);
    let n = chars_of(needle);
    if n.len() > h.len() {
        return false;
    }
    let last = h.len() - n.len();
    let mut i: usize = 0;
    loop
        invariant
            h@ == hay@,
            n@ == needle@,
            h@.len() <= usize::MAX,
            last == h@.len() - n@.len(),
            i <= last,
            forall|k: int| 0 <= k < i ==> #[trigger] h@.subrange(k, k + n@.len()) != n@,
        decreases last - i,
    {
        if matches_at(&h, &n, i) {
            return true;
        }
        if i == last {
            return false;
        }
        i = i + 1;
    }
}

/// `Path::starts_with`: the result is named by `path_has_prefix`; a path
/// always starts with itself.
#[verifier::external_body]
pub(crate) fn path_starts_with(path: &str, base: &str) -> (b: bool)
    ensures
        b == path_has_prefix(path@, base@),
        path@ == base@ ==> b,
{
    std::path::Path::new(path).starts_with(base)
}

/// `==` on `Path`: the result is named by `same_path`; equal text is the
/// same path.
#[verifier::external_body]
pub(crate) fn paths_equal(a: &str, b: &str) -> (r: bool)
    ensures
        r == same_path(a@, b@),
        a@ == b@ ==> r,
{
    std::path::Path::new(a) == std::path::Path::new(b)
}

/// `Path::strip_prefix`, rendered with `to_string_lossy`: it succeeds
/// exactly when the path starts with the base, and then gives the text named
/// by `stripped_path`; stripping a path from itself leaves the empty path.
#[verifier::external_body]
pub(crate) fn strip_path_prefix(path: &str, base: &str) -> (r: Option<String>)
    ensures
        r is Some <==> path_has_prefix(path@, base@),
        r matches Some(t) ==> t@ == stripped_path(path@, base@),
        r matches Some(t) ==> (path@ == base@ ==> t@ == Seq::<char>::empty()),
        r is None ==> path@ != base@,
{
    match std::path::Path::new(path).strip_prefix(base) {
        Ok(p) => Some(p.to_string_lossy().to_string()),
        Err(_) => None,
    }
}

/// `Path::join`, rendered with `to_string_lossy`: the result is named by
/// `joined_path`.
#[verifier::external_body]
pub(crate) fn join_path(base: &str, rel: &str) -> (r: String)
    ensures
        r@ == joined_path(base@, rel@),
{
    std::path::Path::new(base).join(rel).to_string_lossy().to_string()
}

/// The fields of a text separated by `:`, in order, as `str::split(':')`
/// yields them.
pub(crate) fn split_colon(s: &str) -> (r: Vec<String>)
    ensures
        r@.map_values(|f: String| f@) == colon_fields(s@),
{
    let cs = chars_of(s);
    let mut fields: Vec<String> = Vec::new();
    let mut cur = String::new();
    let mut i: usize = 0;
    proof {
        assert(s@.take(0) =~= Seq::<char>::empty());
        assert(fields@.map_values(|f: String| f@).push(cur@) =~= colon_fields(s@.take(0)));
    }
    while i < cs.len()
        invariant
            cs@ == s@,
            i <= cs@.len(),
            fields@.map_values(|f: String| f@).push(cur@) == colon_fields(s@.take(i as int)),
        decreases cs@.len() - i,
    {
        let c = cs[i];
        let ghost before = fields@.map_values(|f: String| f@).push(cur@);
        proof {
            assert(s@.take(i + 1).drop_last() =~= s@.take(i as int));
            assert(s@.take(i + 1).last() == c);
        }
        if c == ':' {
            let done = cur;
            fields.push(done);
            cur = String::new();
            proof {
                assert(fields@.map_values(|f: String| f@).push(cur@) =~= before.push(
                    Seq::<char>::empty(),
                ));
            }
        } else {
            push_char(&mut cur, c);
            proof {
                assert(fields@.map_values(|f: String| f@).push(cur@) =~= before.update(
                    before.len() - 1,
                    before.last().push(c),
                ));
            }
        }
        i = i + 1;
    }
    fields.push(cur);
    proof {
        assert(s@.take(cs@.len() as int) =~= s@);
    }
    fields
}

/// `String::push`: the character is appended.
#[verifier::external_body]
pub(crate) fn push_char(s: &mut String, c: char)
    ensures
        final(s)@ == old(s)@.push(c),
{
    s.push(c)
}

/// `String::pop`: the last character is removed and returned; an empty
/// string gives `None` and stays empty.
#[verifier::external_body]
pub(crate) fn pop_char(s: &mut String) -> (r: Option<char>)
    ensures
        old(s)@.len() == 0 ==> r is None && final(s)@ == old(s)@,
        old(s)@.len() > 0 ==> r == Some(old(s)@.last()) && final(s)@ == old(s)@.drop_last(),
{
    s.pop()
}


/// `Path::parent`, rendered with `to_string_lossy`: the result is named by
/// `parent_of`.
#[verifier::external_body]
pub(crate) fn parent_dir(path: &str) -> (r: Option<String>)
    ensures
        match r {
            Some(p) => parent_of(path@) == Some(p@),
            None => parent_of(path@) is None,
        },
{
    std::path::Path::new(path).parent().map(|p| p.to_string_lossy().to_string())
}


/// Whether a text begins with another, as `str::starts_with` with a string
/// pattern decides it.
pub(crate) fn str_starts_with(s: &str, prefix: &str) -> (b: bool)
    ensures
        b == (prefix@.len() <= s@.len() && s@.take(prefix@.len() as int) == prefix@),
{
    let h = chars_of(s);
    let p = chars_of(prefix);
    if p.len() > h.len() {
        return false;
    }
    proof {
        assert(h@.subrange(0, p@.len() as int) =~= h@.take(p@.len() as int));
    }
    matches_at(&h, &p, 0)
}

/// Whether a text ends with another, as `str::ends_with` with a string
/// pattern decides it.
pub(crate) fn str_ends_with(s: &str, suffix: &str) -> (b: bool)
    ensures
        b == (suffix@.len() <= s@.len() && s@.skip(s@.len() - suffix@.len()) == suffix@),
{
    let h = chars_of(s);
    let p = chars_of(suffix);
    if p.len() > h.len() {
        return false;
    }
    let at = h.len() - p.len();
    proof {
        assert(h@.subrange(at as int, at + p@.len()) =~= h@.skip(h@.len() - p@.len()));
    }
    matches_at(&h, &p, at)
}

/// `String::push_str`: the text is appended.
#[verifier::external_body]
pub(crate) fn push_str(s: &mut String, t: &str)
    ensures
        final(s)@ == old(s)@ + t@,
{
    s.push_str(t)
}

/// `Path::with_extension`, rendered with `to_string_lossy`: the result is
/// named by `with_extension_of`. `PathBuf::set_extension` panics on an
/// extension holding a path separator, so such extensions (and NUL bytes)
/// are kept out.
#[verifier::external_body]
pub(crate) fn path_with_extension(path: &str, ext: &str) -> (r: String)
    requires
        forall|i: int| 0 <= i < ext@.len() ==> ext@[i] != '/' && ext@[i] != '\0',
    ensures
        r@ == with_extension_of(path@, ext@),
{
    std::path::Path::new(path).with_extension(ext).to_string_lossy().to_string()
}

/// `Path::with_file_name`, rendered with `to_string_lossy`: the result is
/// named by `with_file_name_of`.
#[verifier::external_body]
pub(crate) fn path_with_file_name(path: &str, name: &str) -> (r: String)
    ensures
        r@ == with_file_name_of(path@, name@),
{
    std::path::Path::new(path).with_file_name(name).to_string_lossy().to_string()
}

/// `Path::file_stem` of a path given as text (so the stem is text too):
/// the result is named by `file_stem_of`.
#[verifier::external_body]
pub(crate) fn path_file_stem(path: &str) -> (r: Option<String>)
    ensures
        match r {
            Some(t) => file_stem_of(path@) == Some(t@),
            None => file_stem_of(path@) is None,
        },
{
    std::path::Path::new(path).file_stem().map(|s| s.to_string_lossy().to_string())
}

/// A text of whitespace alone trims to nothing.
proof fn lemma_trim_blank(s: Seq<char>)
    requires
        forall|i: int| 0 <= i < s.len() ==> is_white_space(#[trigger] s[i]),
    ensures
        trimmed(s) == Seq::<char>::empty(),
    decreases s.len(),
{
    if s.len() > 0 {
        lemma_trim_blank(s.drop_first());
    }
}

/// Trimming `s[lo..hi]` keeps `s[a..b]` when whitespace alone lies outside
/// it and it starts and ends with other characters.
proof fn lemma_trim_span(s: Seq<char>, lo: int, a: int, b: int, hi: int)
    requires
        0 <= lo <= a < b <= hi <= s.len(),
        forall|i: int| lo <= i < a ==> is_white_space(#[trigger] s[i]),
        forall|i: int| b <= i < hi ==> is_white_space(#[trigger] s[i]),
        !is_white_space(s[a]),
        !is_white_space(s[b - 1]),
    ensures
        trimmed(s.subrange(lo, hi)) == s.subrange(a, b),
    decreases hi - lo,
{
    let t = s.subrange(lo, hi);
    if lo < a {
        assert(t[0] == s[lo]);
        assert(t.drop_first() =~= s.subrange(lo + 1, hi));
        lemma_trim_span(s, lo + 1, a, b, hi);
    } else if b < hi {
        assert(t[0] == s[a]);
        assert(t.last() == s[hi - 1]);
        assert(t.drop_last() =~= s.subrange(lo, hi - 1));
        lemma_trim_span(s, lo, a, b, hi - 1);
    } else {
        assert(t[0] == s[a]);
        assert(t.last() == s[b - 1]);
    }
}

/// A text with leading and trailing whitespace removed, as `str::trim`
/// gives it.
pub(crate) fn trim_text(s: &str) -> (r: String)
    ensures
        r@ == trimmed(s@),
{
    let cs = chars_of(s);
    let n = cs.len();
    let mut a: usize = 0;
    while a < n && is_whitespace_char(cs[a])
        invariant
            cs@ == s@,
            n == s@.len(),
            a <= n,
            forall|i: int| 0 <= i < a ==> is_white_space(#[trigger] s@[i]),
        decreases n - a,
    {
        a = a + 1;
    }
    if a == n {
        proof {
            assert(s@.subrange(0, n as int) =~= s@);
            lemma_trim_blank(s@);
        }
        return String::new();
    }
    let mut b: usize = n;
    while b > a + 1 && is_whitespace_char(cs[b - 1])
        invariant
            cs@ == s@,
            n == s@.len(),
            a < b <= n,
            !is_white_space(s@[a as int]),
            forall|i: int| b <= i < n ==> is_white_space(#[trigger] s@[i]),
        decreases b,
    {
        b = b - 1;
    }
    let mut r = String::new();
    let mut i: usize = a;
    while i < b
        invariant
            cs@ == s@,
            a <= i <= b <= n,
            n == s@.len(),
            r@ == s@.subrange(a as int, i as int),
        decreases b - i,
    {
        push_char(&mut r, cs[i]);
        proof {
            assert(s@.subrange(a as int, i + 1) =~= s@.subrange(a as int, i as int).push(s@[i as int]));
        }
        i = i + 1;
    }
    proof {
        assert(s@.subrange(0, n as int) =~= s@);
        lemma_trim_span(s@, 0, a as int, b as int, n as int);
    }
    r
}

/// Trimming the end of `s[..hi]` keeps `s[..b]` when whitespace alone
/// follows it and it is empty or ends with another character.
proof fn lemma_trim_end_span(s: Seq<char>, b: int, hi: int)
    requires
        0 <= b <= hi <= s.len(),
        forall|i: int| b <= i < hi ==> is_white_space(#[trigger] s[i]),
        b > 0 ==> !is_white_space(s[b - 1]),
    ensures
        trimmed_end(s.subrange(0, hi)) == s.subrange(0, b),
    decreases hi,
{
    let t = s.subrange(0, hi);
    if b < hi {
        assert(t.last() == s[hi - 1]);
        assert(t.drop_last() =~= s.subrange(0, hi - 1));
        lemma_trim_end_span(s, b, hi - 1);
    } else if b > 0 {
        assert(t.last() == s[b - 1]);
    }
}

/// A text with trailing whitespace removed, as `str::trim_end` gives it.
pub(crate) fn trim_end_text(s: &str) -> (r: String)
    ensures
        r@ == trimmed_end(s@),
{
    let cs = chars_of(s);
    let n = cs.len();
    let mut b: usize = n;
    while b > 0 && is_whitespace_char(cs[b - 1])
        invariant
            cs@ == s@,
            n == s@.len(),
            b <= n,
            forall|i: int| b <= i < n ==> is_white_space(#[trigger] s@[i]),
        decreases b,
    {
        b = b - 1;
    }
    let mut r = String::new();
    let mut i: usize = 0;
    while i < b
        invariant
            cs@ == s@,
            i <= b <= n,
            n == s@.len(),
            r@ == s@.subrange(0, i as int),
        decreases b - i,
    {
        push_char(&mut r, cs[i]);
        proof {
            assert(s@.subrange(0, i + 1) =~= s@.subrange(0, i as int).push(s@[i as int]));
        }
        i = i + 1;
    }
    proof {
        assert(s@.subrange(0, n as int) =~= s@);
        lemma_trim_end_span(s@, b as int, n as int);
    }
    r
}

/// Digits are worth at least as much as any run of their first digits.
proof fn lemma_decimal_prefix(d: Seq<char>, k: int)
    requires
        all_decimal_digits(d),
        0 <= k <= d.len(),
    ensures
        0 <= decimal_value(d.take(k)) <= decimal_value(d),
    decreases d.len(),
{
    if d.len() > 0 {
        assert(all_decimal_digits(d.drop_last()));
        if k < d.len() {
            assert(d.drop_last().take(k) =~= d.take(k));
            lemma_decimal_prefix(d.drop_last(), k);
        } else {
            assert(d.take(k) =~= d);
            lemma_decimal_prefix(d.drop_last(), 0);
            lemma_decimal_prefix(d.drop_last(), d.len() - 1);
            assert(d.drop_last().take(d.len() - 1) =~= d.drop_last());
        }
    } else {
        assert(d.take(k) =~= d);
    }
}

/// The integer a text denotes, read as `str::parse::<i64>` reads it (the
/// error dropped).
pub(crate) fn parse_i64(s: &str) -> (r: Option<i64>)
    ensures
        r == parsed_i64(s@),
{
    let cs = chars_of(s);
    let n = cs.len();
    if n == 0 {
        return None;
    }
    let neg = cs[0] == '-';
    let start: usize = if cs[0] == '-' || cs[0] == '+' {
        1
    } else {
        0
    };
    if start == n {
        return None;
    }
    let ghost digits = s@.skip(start as int);
    proof {
        if start == 0 {
            assert(digits =~= s@);
        }
    }
    // The magnitude read so far; past 2^63 no sign brings it in range.
    let mut acc: i128 = 0;
    let mut i: usize = start;
    while i < n
        invariant
            cs@ == s@,
            n == s@.len(),
            start <= i <= n,
            start < n,
            start <= 1,
            start == 1 <==> (s@[0] == '-' || s@[0] == '+'),
            neg == (s@[0] == '-'),
            digits == s@.skip(start as int),
            start == 0 ==> digits == s@,
            all_decimal_digits(digits.take(i - start)),
            acc == decimal_value(digits.take(i - start)),
            0 <= acc <= 0x8000_0000_0000_0000,
        decreases n - i,
    {
        let c = cs[i];
        proof {
            assert(digits[i - start] == c);
        }
        if !('0' <= c && c <= '9') {
            proof {
                assert(!all_decimal_digits(digits));
            }
            return None;
        }
        let d = (c as u32) - ('0' as u32);
        let next: i128 = acc * 10 + (d as i128);
        proof {
            let k = i - start;
            assert(digits.take(k + 1).drop_last() =~= digits.take(k));
            assert(digits.take(k + 1).last() == c);
            assert(all_decimal_digits(digits.take(k + 1)));
            assert(decimal_value(digits.take(k + 1)) == next);
        }
        if next > 0x8000_0000_0000_0000 {
            proof {
                if all_decimal_digits(digits) {
                    lemma_decimal_prefix(digits, i - start + 1);
                }
            }
            return None;
        }
        acc = next;
        i = i + 1;
    }
    proof {
        assert(digits.take(n - start) =~= digits);
    }
    if neg {
        Some((0 - acc) as i64)
    } else if acc > 0x7fff_ffff_ffff_ffff {
        None
    } else {
        Some(acc as i64)
    }
}

} // verus!
