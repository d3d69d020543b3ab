//! Character-level text helpers: whitespace, right trimming and
//! placeholder substitution, each proved against a spec function.

use vstd::prelude::*;

verus! {

/// The characters that carry the Unicode `White_Space` property.
pub open spec fn is_ws(c: char) -> bool {
    c == '\t' || c == '\n' || c == '\u{0B}' || c == '\u{0C}' || c == '\r' || c == ' '
        || c == '\u{85}' || c == '\u{A0}' || c == '\u{1680}'
        || ('\u{2000}' <= c && c <= '\u{200A}') || c == '\u{2028}' || c == '\u{2029}'
        || c == '\u{202F}' || c == '\u{205F}' || c == '\u{3000}'
}

/// `s` without its trailing whitespace.
pub open spec fn trim_end(s: Seq<char>) -> Seq<char>
    decreases s.len(),
{
    if s.len() > 0 && is_ws(s.last()) {
        trim_end(s.drop_last())
    } else {
        s
    }
}

/// The token that stands for the version in URL and file name templates.
pub open spec fn placeholder() -> Seq<char> {
    seq!['{', 'v', 'e', 'r', 's', 'i', 'o', 'n', '}']
}

/// `s` with every occurrence of `pat`, scanned left to right without
/// overlap, replaced by `rep`.
pub open spec fn replace_all(s: Seq<char>, pat: Seq<char>, rep: Seq<char>) -> Seq<char>
    decreases s.len(),
{
    if s.len() == 0 {
        s
    } else if pat.len() > 0 && pat.len() <= s.len() && s.subrange(0, pat.len() as int) == pat {
        rep + replace_all(s.subrange(pat.len() as int, s.len() as int), pat, rep)
    } else {
        seq![s[0]] + replace_all(s.subrange(1, s.len() as int), pat, rep)
    }
}

/// `template` with the version placeholder replaced by `version`.
pub open spec fn substitute(template: Seq<char>, version: Seq<char>) -> Seq<char> {
    replace_all(template, placeholder(), version)
}

/// Whether `c` is whitespace in the Unicode sense.
pub fn is_whitespace(c: char) -> (r: bool)
    ensures
        r == is_ws(c),
{
    c == '\t' || c == '\n' || c == '\u{0B}' || c == '\u{0C}' || c == '\r' || c == ' '
        || c == '\u{85}' || c == '\u{A0}' || c == '\u{1680}'
        || ('\u{2000}' <= c && c <= '\u{200A}') || c == '\u{2028}' || c == '\u{2029}'
        || c == '\u{202F}' || c == '\u{205F}' || c == '\u{3000}'
}

/// The end of `s[from..to]` once its trailing whitespace is dropped.
pub fn trimmed_end(s: &str, from: usize, to: usize) -> (r: usize)
    requires
        from <= to <= s@.len(),
    ensures
        from <= r <= to,
        s@.subrange(from as int, r as int) == trim_end(s@.subrange(from as int, to as int)),
{
    let mut j: usize = to;
    while j > from && is_whitespace(s.get_char(j - 1))
        invariant
            from <= j <= to <= s@.len(),
            trim_end(s@.subrange(from as int, j as int)) == trim_end(
                s@.subrange(from as int, to as int),
            ),
        decreases j,
    {
        assert(s@.subrange(from as int, j as int).drop_last() =~= s@.subrange(
            from as int,
            j - 1,
        ));
        j = j - 1;
    }
    j
}

/// `s` without its trailing whitespace.
pub fn trim_end_str(s: &str) -> (r: String)
    ensures
        r@ == trim_end(s@),
{
    let n = s.unicode_len();
    let e = trimmed_end(s, 0, n);
    assert(s@.subrange(0, n as int) =~= s@);
    String::from_str(s.substring_char(0, e))
}

/// Whether the placeholder stands in `s` at character `i`.
fn placeholder_at(s: &str, n: usize, i: usize) -> (r: bool)
    requires
        n == s@.len(),
        i <= n,
    ensures
        r == (i + placeholder().len() <= n && s@.subrange(i as int, i + placeholder().len())
            == placeholder()),
{
    let p = "{version}";
    proof {
        reveal_strlit("{version}");
    }
    assert(p@ =~= placeholder());
    let m = p.unicode_len();
    if n - i < m {
        return false;
    }
    let mut k: usize = 0;
    while k < m
        invariant
            m == placeholder().len(),
            p@ == placeholder(),
            i + m <= n == s@.len(),
            k <= m,
            forall|t: int| 0 <= t < k ==> s@[i + t] == placeholder()[t],
        decreases m - k,
    {
        if s.get_char(i + k) != p.get_char(k) {
            assert(s@.subrange(i as int, i + m)[k as int] != placeholder()[k as int]);
            return false;
        }
        k = k + 1;
    }
    assert(s@.subrange(i as int, i + m) =~= placeholder());
    true
}

/// `template` with every version placeholder replaced by `version`.
pub fn substitute_version(template: &str, version: &str) -> (r: String)
    ensures
        r@ == substitute(template@, version@),
{
    let n = template.unicode_len();
    let mut out = String::new();
    let mut i: usize = 0;
    assert(template@.subrange(0, n as int) =~= template@);
    assert(out@ + substitute(template@, version@) =~= substitute(template@, version@));
    while i < n
        invariant
            n == template@.len(),
            i <= n,
            out@ + substitute(template@.subrange(i as int, n as int), version@) == substitute(
                template@,
                version@,
            ),
        decreases n - i,
    {
        let rest = Ghost(template@.subrange(i as int, n as int));
        if placeholder_at(template, n, i) {
            assert(rest@.subrange(0, 9) =~= template@.subrange(i as int, i + 9));
            assert(rest@.subrange(9, rest@.len() as int) =~= template@.subrange(i + 9, n as int));
            out.append(version);
            assert(out@ + substitute(template@.subrange(i + 9, n as int), version@) =~= (
            out@.subrange(0, out@.len() - version@.len())) + substitute(rest@, version@));
            i = i + 9;
        } else {
            assert(rest@.subrange(1, rest@.len() as int) =~= template@.subrange(i + 1, n as int));
            let piece = template.substring_char(i, i + 1);
            proof {
                if 9 <= rest@.len() {
                    assert(rest@.subrange(0, 9) =~= template@.subrange(i as int, i + 9));
                }
            }
            assert(piece@ =~= seq![rest@[0]]);
            let ghost before = out@;
            out.append(piece);
            assert(out@ + substitute(template@.subrange(i + 1, n as int), version@) =~= before
                + substitute(rest@, version@));
            i = i + 1;
        }
    }
    assert(template@.subrange(n as int, n as int) =~= Seq::<char>::empty());
    assert(out@ + Seq::<char>::empty() =~= out@);
    out
}

} // verus!
