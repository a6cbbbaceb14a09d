use vstd::prelude::*;

verus! {

/// The Unicode `White_Space` property of a character.
pub uninterp spec fn is_space(c: char) -> bool;

/// The lower-case form of a text.
pub uninterp spec fn lower_of(s: Seq<char>) -> Seq<char>;

/// The text `s` with its leading and trailing white space removed.
pub uninterp spec fn trimmed(s: Seq<char>) -> Seq<char>;

/// The ASCII upper-case form of a character.
pub uninterp spec fn ascii_upper(c: char) -> char;

/// The lines of a text, without their line endings.
pub uninterp spec fn line_split(s: Seq<char>) -> Seq<Seq<char>>;

/// `r` is `s` without its leading and trailing white space.
pub open spec fn is_trim_of(s: Seq<char>, r: Seq<char>) -> bool {
    exists|i: int, j: int|
        {
            &&& 0 <= i <= j <= s.len()
            &&& r == s.subrange(i, j)
            &&& forall|k: int| 0 <= k < i ==> is_space(#[trigger] s[k])
            &&& forall|k: int| j <= k < s.len() ==> is_space(#[trigger] s[k])
            &&& i < j ==> !is_space(s[i]) && !is_space(s[j - 1])
        }
}

/// No character of `t` is white space.
pub open spec fn no_space(t: Seq<char>) -> bool {
    forall|k: int| 0 <= k < t.len() ==> !is_space(#[trigger] t[k])
}

/// `n` occurs in `h` as a run of consecutive characters.
pub open spec fn occurs(n: Seq<char>, h: Seq<char>) -> bool {
    exists|i: int| 0 <= i && i + n.len() <= h.len() && #[trigger] h.subrange(i, i + n.len()) == n
}

/// The position of the first `c` in `s`, or the length of `s` where there
/// is none.
pub open spec fn first_at(s: Seq<char>, c: char) -> int {
    if s.contains(c) {
        choose|k: int| 0 <= k < s.len() && s[k] == c && forall|j: int| 0 <= j < k ==> s[j] != c
    } else {
        s.len() as int
    }
}

/// The position of the last `c` in `s`, or -1 where there is none.
pub open spec fn last_at(s: Seq<char>, c: char) -> int {
    if s.contains(c) {
        choose|k: int| 0 <= k < s.len() && s[k] == c && forall|j: int| k < j < s.len() ==> s[j] != c
    } else {
        -1
    }
}

/// `s` ends with `e`.
pub open spec fn ends_with(s: Seq<char>, e: Seq<char>) -> bool {
    e.len() <= s.len() && s.subrange(s.len() - e.len(), s.len() as int) == e
}

/// The pieces of a text split at every `sep`.
pub uninterp spec fn split_pieces(s: Seq<char>, sep: char) -> Seq<Seq<char>>;

/// The unsigned number that a text spells in decimal, where it spells one
/// that fits.
pub uninterp spec fn parsed_count(s: Seq<char>) -> Option<usize>;

/// `s` starts with `p`.
pub open spec fn starts_with(s: Seq<char>, p: Seq<char>) -> bool {
    p.len() <= s.len() && s.subrange(0, p.len() as int) == p
}

/// Three dots stand in `s` from position `k`.
pub open spec fn dots_at(s: Seq<char>, k: int) -> bool {
    0 <= k && k + 3 <= s.len() && s[k] == '.' && s[k + 1] == '.' && s[k + 2] == '.'
}

/// The position of the first three dots in `s`, or -1 where there are none.
pub open spec fn first_dots(s: Seq<char>) -> int {
    if exists|k: int| dots_at(s, k) {
        choose|k: int| dots_at(s, k) && forall|j: int| 0 <= j < k ==> !dots_at(s, j)
    } else {
        -1
    }
}

/// Relies on `str::split` with a `char` pattern: the pieces between the
/// separators, in order.
#[verifier::external_body]
pub(crate) fn split_at_char(s: &str, sep: char) -> (r: Vec<String>)
    ensures
        r@.len() == split_pieces(s@, sep).len(),
        forall|i: int| 0 <= i < r@.len() ==> (#[trigger] r@[i])@ == split_pieces(s@, sep)[i],
{
    s.split(sep).map(|p| p.to_string()).collect()
}

/// Relies on `usize`'s `FromStr`: the decimal number that `s` spells.
#[verifier::external_body]
pub(crate) fn parse_count(s: &str) -> (r: Option<usize>)
    ensures
        r == parsed_count(s@),
{
    s.parse().ok()
}

/// The position of the first three dots in `v`, where there are some.
pub fn find_dots(v: &Vec<char>) -> (k: Option<usize>)
    ensures
        first_dots(v@) == -1 <==> k is None,
        k matches Some(j) ==> j == first_dots(v@) && j + 3 <= v@.len(),
{
    let n = v.len();
    let mut i: usize = 0;
    while i < n && n - i >= 3
        invariant
            n == v@.len(),
            i <= n,
            forall|j: int| 0 <= j < i ==> !dots_at(v@, j),
        decreases n - i,
    {
        if v[i] == '.' && v[i + 1] == '.' && v[i + 2] == '.' {
            assert(dots_at(v@, i as int));
            let ghost k = first_dots(v@);
            assert(k == i) by {
                if k < i {
                    assert(!dots_at(v@, k));
                }
                if k > i {
                    assert(!dots_at(v@, i as int));
                }
            }
            return Some(i);
        }
        i = i + 1;
    }
    assert forall|j: int| !dots_at(v@, j) by {
        if 0 <= j < i {
        }
    }
    None
}

/// Whether `v` starts with `p`.
pub fn starts_with_text(v: &Vec<char>, p: &str) -> (r: bool)
    ensures
        r == starts_with(v@, p@),
{
    let w = chars_of(p);
    if w.len() > v.len() {
        return false;
    }
    let mut i: usize = 0;
    while i < w.len()
        invariant
            w@ == p@,
            w@.len() <= v@.len(),
            i <= w@.len(),
            forall|j: int| 0 <= j < i ==> v@[j] == w@[j],
        decreases w@.len() - i,
    {
        if v[i] != w[i] {
            assert(v@.subrange(0, w@.len() as int)[i as int] != p@[i as int]);
            return false;
        }
        i = i + 1;
    }
    assert(v@.subrange(0, w@.len() as int) =~= p@);
    true
}

/// The position of the first `c` in `v`, or its length.
pub fn first_index(v: &Vec<char>, c: char) -> (k: usize)
    ensures
        k == first_at(v@, c),
        k <= v@.len(),
{
    let mut i: usize = 0;
    while i < v.len() && v[i] != c
        invariant
            i <= v@.len(),
            forall|j: int| 0 <= j < i ==> v@[j] != c,
        decreases v@.len() - i,
    {
        i = i + 1;
    }
    if i < v.len() {
        assert(v@[i as int] == c);
        assert(v@.contains(c));
        let ghost k = first_at(v@, c);
        assert(k == i) by {
            if k < i {
                assert(v@[k] != c);
            }
            if k > i {
                assert(v@[i as int] != c);
            }
        }
    } else {
        assert(!v@.contains(c));
    }
    i
}

/// The position of the last `c` in `v`, where there is one.
pub fn last_index(v: &Vec<char>, c: char) -> (k: Option<usize>)
    ensures
        v@.contains(c) ==> k == Some(last_at(v@, c) as usize),
        !v@.contains(c) ==> k is None,
        v@.contains(c) ==> 0 <= last_at(v@, c) < v@.len(),
        v@.contains(c) ==> v@[last_at(v@, c)] == c,
        k matches Some(j) ==> j < v@.len(),
{
    let mut i: usize = v.len();
    while i > 0 && v[i - 1] != c
        invariant
            i <= v@.len(),
            forall|j: int| i <= j < v@.len() ==> v@[j] != c,
        decreases i,
    {
        i = i - 1;
    }
    if i > 0 {
        assert(v@[i - 1] == c);
        assert(v@.contains(c));
        let ghost k = last_at(v@, c);
        assert(k == i - 1) by {
            if k > i - 1 {
                assert(v@[k] != c);
            }
            if k < i - 1 {
                assert(v@[i - 1] != c);
            }
        }
        Some(i - 1)
    } else {
        assert(!v@.contains(c));
        None
    }
}

/// The characters of `v` from `lo` up to `hi`.
pub fn slice(v: &Vec<char>, lo: usize, hi: usize) -> (r: Vec<char>)
    requires
        lo <= hi <= v@.len(),
    ensures
        r@ == v@.subrange(lo as int, hi as int),
{
    let mut r: Vec<char> = Vec::new();
    let mut i: usize = lo;
    while i < hi
        invariant
            lo <= i <= hi <= v@.len(),
            r@ == v@.subrange(lo as int, i as int),
        decreases hi - i,
    {
        r.push(v[i]);
        assert(r@ =~= v@.subrange(lo as int, i + 1));
        i = i + 1;
    }
    r
}

/// Whether `v` ends with `e`.
pub fn ends_with_text(v: &Vec<char>, e: &str) -> (r: bool)
    ensures
        r == ends_with(v@, e@),
{
    let w = chars_of(e);
    if w.len() > v.len() {
        return false;
    }
    let n = v.len();
    let off = n - w.len();
    let mut i: usize = 0;
    while i < w.len()
        invariant
            w@ == e@,
            n == v@.len(),
            off <= v@.len(),
            off + w@.len() == v@.len(),
            i <= w@.len(),
            forall|j: int| 0 <= j < i ==> v@[off + j] == w@[j],
        decreases w@.len() - i,
    {
        assert(off + i < n);
        if v[off + i] != w[i] {
            assert(v@.subrange(off as int, v@.len() as int)[i as int] != e@[i as int]);
            return false;
        }
        i = i + 1;
    }
    assert(v@.subrange(off as int, v@.len() as int) =~= e@);
    true
}

/// Relies on `char::is_whitespace`: the Unicode `White_Space` property.
#[verifier::external_body]
pub(crate) fn is_whitespace(c: char) -> (r: bool)
    ensures
        r == is_space(c),
{
    c.is_whitespace()
}

/// Relies on `str::trim`: removes leading and trailing white space, as
/// `char::is_whitespace` defines it.
#[verifier::external_body]
pub(crate) fn trim(s: &str) -> (r: String)
    ensures
        r@ == trimmed(s@),
        is_trim_of(s@, r@),
{
    s.trim().to_string()
}

/// Relies on `str::to_lowercase`: the result depends on the text alone.
#[verifier::external_body]
pub(crate) fn to_lowercase(s: &str) -> (r: String)
    ensures
        r@ == lower_of(s@),
{
    s.to_lowercase()
}

/// Relies on `str::contains` with a `&str` pattern: whether `n` occurs in
/// `h`.
#[verifier::external_body]
pub(crate) fn contains_text(h: &str, n: &str) -> (r: bool)
    ensures
        r == occurs(n@, h@),
{
    h.contains(n)
}

/// Relies on `char::to_ascii_uppercase`: maps `a`..`z` to `A`..`Z` and
/// keeps every other character.
#[verifier::external_body]
pub(crate) fn to_ascii_uppercase(c: char) -> (r: char)
    ensures
        r == ascii_upper(c),
        !('a' <= c && c <= 'z') ==> r == c,
{
    c.to_ascii_uppercase()
}

/// Relies on `str::lines`: the lines of `s`, each without its `\n` or
/// `\r\n` ending.
#[verifier::external_body]
pub(crate) fn lines_of(s: &str) -> (r: Vec<String>)
    ensures
        r@.len() == line_split(s@).len(),
        forall|i: int| 0 <= i < r@.len() ==> (#[trigger] r@[i])@ == line_split(s@)[i],
{
    s.lines().map(|l| l.to_string()).collect()
}

/// Relies on `String`'s `FromIterator<char>`: the text of the characters
/// `v`, in order.
#[verifier::external_body]
pub(crate) fn string_of(v: &Vec<char>) -> (r: String)
    ensures
        r@ == v@,
{
    v.iter().collect()
}

/// Relies on `str::chars`, collected: the characters of `s` in order.
#[verifier::external_body]
pub(crate) fn chars_of(s: &str) -> (r: Vec<char>)
    ensures
        r@ == s@,
{
    s.chars().collect()
}

/// Whether `c` occurs in `t`.
pub fn has_char(t: &str, c: char) -> (r: bool)
    ensures
        r == t@.contains(c),
{
    let v = chars_of(t);
    let mut i: usize = 0;
    while i < v.len()
        invariant
            v@ == t@,
            i <= v@.len(),
            forall|k: int| 0 <= k < i ==> v@[k] != c,
        decreases v@.len() - i,
    {
        if v[i] == c {
            return true;
        }
        i = i + 1;
    }
    false
}

/// Whether some character of `t` is white space.
pub fn has_space(t: &str) -> (r: bool)
    ensures
        r == !no_space(t@),
{
    let v = chars_of(t);
    let mut i: usize = 0;
    while i < v.len()
        invariant
            v@ == t@,
            i <= v@.len(),
            forall|k: int| 0 <= k < i ==> !is_space(#[trigger] v@[k]),
        decreases v@.len() - i,
    {
        if is_whitespace(v[i]) {
            return true;
        }
        i = i + 1;
    }
    false
}

} // verus!
