//! Character-level helpers on strings: the searches and rewrites that the
//! rest of the library performs, each proved against a short specification
//! over `Seq<char>`.
use vstd::prelude::*;

verus! {

/// `needle` occurs in `hay` starting at position `i`.
pub open spec fn occurs_at(hay: Seq<char>, needle: Seq<char>, i: int) -> bool {
    0 <= i && i + needle.len() <= hay.len() && hay.subrange(i, i + needle.len()) == needle
}

/// `needle` occurs somewhere in `hay`.
pub open spec fn has_substring(hay: Seq<char>, needle: Seq<char>) -> bool {
    exists|i: int| occurs_at(hay, needle, i)
}

/// `hay` begins with `prefix`.
pub open spec fn has_prefix(hay: Seq<char>, prefix: Seq<char>) -> bool {
    occurs_at(hay, prefix, 0)
}

/// `c` occurs in `s`.
pub open spec fn has_char(s: Seq<char>, c: char) -> bool {
    exists|i: int| 0 <= i < s.len() && s[i] == c
}

/// An optional string, by its characters.
pub open spec fn opt_view(o: Option<String>) -> Option<Seq<char>> {
    match o {
        Some(s) => Some(s@),
        None => None,
    }
}

/// A list of strings, by their characters.
pub open spec fn strings_view(v: Seq<String>) -> Seq<Seq<char>> {
    v.map_values(|s: String| s@)
}

/// `rep` put before every character of `s` and at its end: what
/// `str::replace` gives for an empty pattern.
pub open spec fn insert_everywhere(s: Seq<char>, rep: Seq<char>) -> Seq<char>
    decreases s.len(),
{
    if s.len() == 0 {
        rep
    } else {
        rep + seq![s[0]] + insert_everywhere(s.drop_first(), rep)
    }
}

/// Every occurrence of `pat` in `s`, from left to right and without
/// overlap, replaced by `rep` (as `str::replace`).
pub open spec fn replace_all(s: Seq<char>, pat: Seq<char>, rep: Seq<char>) -> Seq<char>
    decreases s.len(),
{
    if pat.len() == 0 {
        insert_everywhere(s, rep)
    } else if s.len() < pat.len() {
        s
    } else if s.take(pat.len() as int) == pat {
        rep + replace_all(s.skip(pat.len() as int), pat, rep)
    } else {
        seq![s[0]] + replace_all(s.drop_first(), pat, rep)
    }
}

/// The characters of a string, in a vector.
pub fn chars_of(s: &str) -> (v: Vec<char>)
    ensures
        v@ == s@,
{
    broadcast use vstd::string::group_string_axioms;

    let mut v: Vec<char> = Vec::new();
    for c in it: s.chars()
        invariant
            it.seq() == s@,
            v@ == it.seq().take(it.index() as int),
    {
        v.push(c);
    }
    v
}

/// Whether `needle` occurs in `hay` at position `i` (vector form).
fn occurs_at_vec(hay: &Vec<char>, needle: &Vec<char>, i: usize) -> (r: bool)
    ensures
        r == occurs_at(hay@, needle@, i as int),
{
    if i > hay.len() || needle.len() > hay.len() - i {
        return false;
    }
    let mut j: usize = 0;
    while j < needle.len()
        invariant
            i + needle.len() <= hay.len(),
            j <= needle.len(),
            forall|k: int| 0 <= k < j ==> hay@[i + k] == needle@[k],
        decreases needle.len() - j,
    {
        if hay[i + j] != needle[j] {
            assert(hay@.subrange(i as int, i + needle.len())[j as int] != needle@[j as int]);
            return false;
        }
        j = j + 1;
    }
    assert(hay@.subrange(i as int, i + needle@.len()) =~= needle@);
    true
}

/// The first position at or after `from` where `needle` occurs in `hay`, if any.
fn find_from_vec(hay: &Vec<char>, needle: &Vec<char>, from: usize) -> (r: Option<usize>)
    ensures
        match r {
            Some(i) => from <= i && occurs_at(hay@, needle@, i as int) && forall|k: int|
                from <= k < i ==> !occurs_at(hay@, needle@, k),
            None => forall|k: int| from <= k ==> !occurs_at(hay@, needle@, k),
        },
{
    if from > hay.len() || needle.len() > hay.len() - from {
        return None;
    }
    let last = hay.len() - needle.len();
    let mut i: usize = from;
    while i <= last
        invariant
            needle.len() <= hay.len(),
            last == hay.len() - needle.len(),
            from <= i,
            forall|k: int| from <= k < i ==> !occurs_at(hay@, needle@, k),
        decreases last + 1 - i,
    {
        if occurs_at_vec(hay, needle, i) {
            return Some(i);
        }
        if i == last {
            assert forall|k: int| from <= k implies !occurs_at(hay@, needle@, k) by {
                if k > last as int {
                }
            }
            return None;
        }
        i = i + 1;
    }
    None
}

/// Whether `needle` occurs in `hay` (the substring search of `str::contains`).
pub fn contains_str(hay: &str, needle: &str) -> (r: bool)
    ensures
        r == has_substring(hay@, needle@),
{
    let h = chars_of(hay);
    let n = chars_of(needle);
    match find_from_vec(&h, &n, 0) {
        Some(i) => true,
        None => {
            assert forall|k: int| !occurs_at(hay@, needle@, k) by {
                if k < 0 {
                }
            }
            false
        },
    }
}

/// Whether `hay` begins with `prefix` (as `str::starts_with`).
pub fn starts_with_str(hay: &str, prefix: &str) -> (r: bool)
    ensures
        r == has_prefix(hay@, prefix@),
{
    let h = chars_of(hay);
    let p = chars_of(prefix);
    occurs_at_vec(&h, &p, 0)
}

/// Whether `c` occurs in `s` (as `str::contains` with a `char` pattern).
pub fn contains_char(s: &str, c: char) -> (r: bool)
    ensures
        r == has_char(s@, c),
{
    let v = chars_of(s);
    let mut i: usize = 0;
    while i < v.len()
        invariant
            v@ == s@,
            i <= v.len(),
            forall|k: int| 0 <= k < i ==> v@[k] != c,
        decreases v.len() - i,
    {
        if v[i] == c {
            return true;
        }
        i = i + 1;
    }
    false
}

/// Whether the first character of `s` is `c` (as `str::starts_with` with a `char`).
pub fn starts_with_char(s: &str, c: char) -> (r: bool)
    ensures
        r == (s@.len() > 0 && s@[0] == c),
{
    if s.unicode_len() == 0 {
        false
    } else {
        s.get_char(0) == c
    }
}

/// Whether two strings hold the same characters.
pub fn str_eq(a: &str, b: &str) -> (r: bool)
    ensures
        r == (a@ == b@),
{
    let x = chars_of(a);
    let y = chars_of(b);
    if x.len() != y.len() {
        return false;
    }
    let mut i: usize = 0;
    while i < x.len()
        invariant
            x@ == a@,
            y@ == b@,
            x.len() == y.len(),
            i <= x.len(),
            forall|k: int| 0 <= k < i ==> x@[k] == y@[k],
        decreases x.len() - i,
    {
        if x[i] != y[i] {
            return false;
        }
        i = i + 1;
    }
    assert(a@ =~= b@);
    true
}

/// `s` with every occurrence of `pat` replaced by `rep`, by the rule of
/// `replace_all`.
pub fn replace_str(s: &str, pat: &str, rep: &str) -> (r: String)
    ensures
        r@ == replace_all(s@, pat@, rep@),
{
    let v = chars_of(s);
    let p = chars_of(pat);
    let n = v.len();
    if p.len() == 0 {
        let mut out = String::new();
        let mut i: usize = 0;
        proof {
            assert(s@.skip(0) =~= s@);
            assert(out@ + insert_everywhere(s@.skip(0), rep@) =~= insert_everywhere(s@, rep@));
        }
        while i < n
            invariant
                v@ == s@,
                n == v.len(),
                i <= n,
                p@.len() == 0,
                out@ + insert_everywhere(s@.skip(i as int), rep@) == insert_everywhere(
                    s@,
                    rep@,
                ),
            decreases n - i,
        {
            proof {
                assert(s@.skip(i as int).drop_first() =~= s@.skip(i + 1));
            }
            out.append(rep);
            let one = slice_string(s, i, i + 1);
            out.append(one.as_str());
            proof {
                assert(one@ =~= seq![s@.skip(i as int)[0]]);
                assert(out@ + insert_everywhere(s@.skip(i + 1), rep@) =~= insert_everywhere(
                    s@,
                    rep@,
                ));
            }
            i = i + 1;
        }
        proof {
            assert(s@.skip(n as int).len() == 0);
        }
        out.append(rep);
        return out;
    }
    let mut out = String::new();
    let mut last: usize = 0;
    let mut i: usize = 0;
    proof {
        assert(s@.skip(0) =~= s@);
        assert(out@ + s@.subrange(0, 0) + replace_all(s@.skip(0), pat@, rep@) =~= replace_all(
            s@,
            pat@,
            rep@,
        ));
    }
    while i < n && p.len() <= n - i
        invariant
            v@ == s@,
            p@ == pat@,
            n == v.len(),
            p.len() > 0,
            last <= i <= n,
            out@ + s@.subrange(last as int, i as int) + replace_all(
                s@.skip(i as int),
                pat@,
                rep@,
            ) == replace_all(s@, pat@, rep@),
        decreases n - i,
    {
        let hit = occurs_at_vec(&v, &p, i);
        let ghost rest = s@.skip(i as int);
        proof {
            assert(rest.take(pat@.len() as int) =~= s@.subrange(i as int, i + pat@.len()));
        }
        if hit {
            let gap = slice_string(s, last, i);
            out.append(gap.as_str());
            out.append(rep);
            proof {
                assert(rest.skip(pat@.len() as int) =~= s@.skip(i + p.len()));
                assert(s@.subrange((i + p.len()) as int, (i + p.len()) as int) =~= Seq::<
                    char,
                >::empty());
            }
            i = i + p.len();
            last = i;
            proof {
                assert(out@ + s@.subrange(last as int, i as int) =~= out@);
            }
        } else {
            proof {
                assert(rest.drop_first() =~= s@.skip(i + 1));
                assert(s@.subrange(last as int, i + 1) =~= s@.subrange(last as int, i as int)
                    + seq![rest[0]]);
            }
            i = i + 1;
        }
    }
    proof {
        let rest = s@.skip(i as int);
        assert(rest.len() < pat@.len());
        assert(s@.subrange(last as int, i as int) + rest =~= s@.subrange(last as int, n as int));
    }
    let tail = slice_string(s, last, n);
    out.append(tail.as_str());
    out
}

/// A string holding `s@.subrange(from, to)`.
pub fn slice_string(s: &str, from: usize, to: usize) -> (r: String)
    requires
        from <= to <= s@.len(),
    ensures
        r@ == s@.subrange(from as int, to as int),
{
    let piece = s.substring_char(from, to);
    piece.to_owned()
}

/// The concatenation of two strings.
pub fn concat_str(a: &str, b: &str) -> (r: String)
    ensures
        r@ == a@ + b@,
{
    let mut r = a.to_owned();
    r.append(b);
    r
}

/// Whether a character has the Unicode `White_Space` property, as
/// `char::is_whitespace` documents it: the controls U+0009 to U+000D,
/// space, U+0085, no-break space, U+1680, U+2000 to U+200A, the line and
/// paragraph separators U+2028 and U+2029, U+202F, U+205F and U+3000.
pub open spec fn unicode_whitespace(c: char) -> bool {
    let n = c as u32;
    (0x9 <= n <= 0xd) || n == 0x20 || n == 0x85 || n == 0xa0 || n == 0x1680 || (0x2000 <= n
        <= 0x200a) || n == 0x2028 || n == 0x2029 || n == 0x202f || n == 0x205f || n == 0x3000
}

/// Whether `c` is whitespace, by the rule of `unicode_whitespace`.
pub(crate) fn is_whitespace(c: char) -> (r: bool)
    ensures
        r == unicode_whitespace(c),
{
    let n = c as u32;
    (0x9 <= n && n <= 0xd) || n == 0x20 || n == 0x85 || n == 0xa0 || n == 0x1680 || (0x2000 <= n
        && n <= 0x200a) || n == 0x2028 || n == 0x2029 || n == 0x202f || n == 0x205f || n == 0x3000
}

/// Whether a character beyond ASCII is in one of Unicode's number
/// categories (Nd, Nl, No), as `char::is_numeric` decides it. A function of
/// the character alone.
pub uninterp spec fn non_ascii_numeric(c: char) -> bool;

/// Whether a character is in one of Unicode's number categories, as
/// `char::is_numeric` decides it: among ASCII characters exactly the digits
/// `0` to `9`; beyond ASCII, as named by `non_ascii_numeric`.
pub open spec fn unicode_numeric(c: char) -> bool {
    if (c as u32) < 128 {
        '0' <= c && c <= '9'
    } else {
        non_ascii_numeric(c)
    }
}

/// Calls `char::is_numeric`. Among ASCII characters the number categories
/// hold exactly the digits; beyond ASCII the result is named
/// `non_ascii_numeric`.
#[verifier::external_body]
pub(crate) fn is_numeric(c: char) -> (r: bool)
    ensures
        (c as u32) < 128 ==> (r <==> ('0' <= c && c <= '9')),
        (c as u32) >= 128 ==> r == non_ascii_numeric(c),
{
    c.is_numeric()
}

/// The lowercase form of a string, as `str::to_lowercase` computes it. A
/// function of the string alone.
pub uninterp spec fn unicode_lowercase(s: Seq<char>) -> Seq<char>;

/// Calls `str::to_lowercase`; its result is named `unicode_lowercase`.
#[verifier::external_body]
pub(crate) fn to_lowercase(s: &str) -> (r: String)
    ensures
        r@ == unicode_lowercase(s@),
{
    s.to_lowercase()
}

/// The number of leading whitespace characters of `s`.
pub open spec fn leading_ws(s: Seq<char>) -> int
    decreases s.len(),
{
    if s.len() > 0 && unicode_whitespace(s[0]) {
        1 + leading_ws(s.drop_first())
    } else {
        0
    }
}

/// The number of trailing whitespace characters of `s`.
pub open spec fn trailing_ws(s: Seq<char>) -> int
    decreases s.len(),
{
    if s.len() > 0 && unicode_whitespace(s.last()) {
        1 + trailing_ws(s.drop_last())
    } else {
        0
    }
}

/// `s` without leading and trailing whitespace (as `str::trim`).
pub open spec fn trim_spec(s: Seq<char>) -> Seq<char> {
    let a = leading_ws(s);
    if a == s.len() {
        Seq::<char>::empty()
    } else {
        s.subrange(a, s.len() - trailing_ws(s))
    }
}

proof fn lemma_leading_ws_bound(s: Seq<char>)
    ensures
        0 <= leading_ws(s) <= s.len(),
    decreases s.len(),
{
    if s.len() > 0 && unicode_whitespace(s[0]) {
        lemma_leading_ws_bound(s.drop_first());
    }
}

proof fn lemma_trailing_ws_bound(s: Seq<char>)
    ensures
        0 <= trailing_ws(s) <= s.len(),
    decreases s.len(),
{
    if s.len() > 0 && unicode_whitespace(s.last()) {
        lemma_trailing_ws_bound(s.drop_last());
    }
}

/// `s` without its leading and trailing whitespace.
pub fn trim_str(s: &str) -> (r: String)
    ensures
        r@ == trim_spec(s@),
{
    let v = chars_of(s);
    let n = v.len();
    let mut a: usize = 0;
    proof {
        assert(s@.skip(0) =~= s@);
    }
    while a < n && is_whitespace(v[a])
        invariant
            v@ == s@,
            n == v.len(),
            a <= n,
            leading_ws(s@) == a + leading_ws(s@.skip(a as int)),
        decreases n - a,
    {
        proof {
            assert(s@.skip(a as int).drop_first() =~= s@.skip(a + 1));
        }
        a = a + 1;
    }
    proof {
        if a < n {
            assert(s@.skip(a as int)[0] == s@[a as int]);
        }
        assert(leading_ws(s@.skip(a as int)) == 0);
    }
    if a == n {
        return String::new();
    }
    let mut b: usize = n;
    proof {
        assert(s@.subrange(0, n as int) =~= s@);
    }
    while b > a && is_whitespace(v[b - 1])
        invariant
            v@ == s@,
            n == v.len(),
            a < n,
            a < b <= n,
            leading_ws(s@) == a,
            trailing_ws(s@) == (n - b) + trailing_ws(s@.subrange(0, b as int)),
            !unicode_whitespace(s@[a as int]),
        decreases b,
    {
        proof {
            assert(s@.subrange(0, b as int).drop_last() =~= s@.subrange(0, b - 1));
        }
        b = b - 1;
    }
    proof {
        assert(b > a);
        assert(s@.subrange(0, b as int).last() == s@[b - 1]);
        assert(trailing_ws(s@.subrange(0, b as int)) == 0);
    }
    slice_string(s, a, b)
}

/// `a` comes no later than `b` in the order of their characters' code
/// points, position by position (the order of their UTF-8 bytes, which is
/// how names of files compare).
pub open spec fn lex_le(a: Seq<char>, b: Seq<char>) -> bool
    decreases a.len(),
{
    if a.len() == 0 {
        true
    } else if b.len() == 0 {
        false
    } else if a[0] != b[0] {
        a[0] < b[0]
    } else {
        lex_le(a.drop_first(), b.drop_first())
    }
}

pub proof fn lemma_lex_total(a: Seq<char>, b: Seq<char>)
    ensures
        lex_le(a, b) || lex_le(b, a),
    decreases a.len(),
{
    if a.len() > 0 && b.len() > 0 && a[0] == b[0] {
        lemma_lex_total(a.drop_first(), b.drop_first());
    }
}

pub proof fn lemma_lex_trans(a: Seq<char>, b: Seq<char>, c: Seq<char>)
    requires
        lex_le(a, b),
        lex_le(b, c),
    ensures
        lex_le(a, c),
    decreases a.len(),
{
    if a.len() > 0 && b.len() > 0 && c.len() > 0 && a[0] == b[0] && b[0] == c[0] {
        lemma_lex_trans(a.drop_first(), b.drop_first(), c.drop_first());
    }
}

/// Whether `a` comes no later than `b`, by the rule of `lex_le`.
pub fn lex_le_str(a: &str, b: &str) -> (r: bool)
    ensures
        r == lex_le(a@, b@),
{
    let x = chars_of(a);
    let y = chars_of(b);
    let mut i: usize = 0;
    proof {
        assert(a@.skip(0) =~= a@);
        assert(b@.skip(0) =~= b@);
    }
    while i < x.len() && i < y.len() && x[i] == y[i]
        invariant
            x@ == a@,
            y@ == b@,
            i <= x.len(),
            i <= y.len(),
            lex_le(a@, b@) == lex_le(a@.skip(i as int), b@.skip(i as int)),
        decreases x.len() - i,
    {
        proof {
            assert(a@.skip(i as int).drop_first() =~= a@.skip(i + 1));
            assert(b@.skip(i as int).drop_first() =~= b@.skip(i + 1));
        }
        i = i + 1;
    }
    if i == x.len() {
        true
    } else if i == y.len() {
        false
    } else {
        x[i] < y[i]
    }
}

} // verus!
