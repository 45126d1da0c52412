//! Character-level text operations shared by the parsers and formatters of
//! this crate, each stated over `Seq<char>`.

use vstd::prelude::*;

verus! {

broadcast use vstd::string::group_string_axioms;

// ---------------------------------------------------------------------------
// Conversions between strings and character vectors
// ---------------------------------------------------------------------------

/// The characters of `s`, in order.
pub fn chars_of(s: &str) -> (v: Vec<char>)
    ensures
        v@ == s@,
{
    let mut v: Vec<char> = Vec::new();
    for c in it: s.chars()
        invariant
            it.seq() == s@,
            v@ == it.seq().take(it.index() as int),
    {
        v.push(c);
    }
    v
}

/// `String::push`: appends one character to the string.
#[verifier::external_body]
fn push_char(s: &mut String, c: char)
    ensures
        final(s)@ == old(s)@.push(c),
{
    s.push(c);
}

/// A `String` holding exactly the characters of `v`.
pub fn string_of(v: &Vec<char>) -> (s: String)
    ensures
        s@ == v@,
{
    let mut s = String::new();
    let mut i: usize = 0;
    while i < v.len()
        invariant
            i <= v.len(),
            s@ == v@.take(i as int),
        decreases v.len() - i,
    {
        push_char(&mut s, v[i]);
        i += 1;
        assert(s@ =~= v@.take(i as int));
    }
    assert(v@.take(v.len() as int) =~= v@);
    s
}

/// The characters `v[lo..hi]`.
pub fn slice_chars(v: &Vec<char>, lo: usize, hi: usize) -> (r: Vec<char>)
    requires
        lo <= hi <= v.len(),
    ensures
        r@ == v@.subrange(lo as int, hi as int),
{
    let mut r: Vec<char> = Vec::new();
    let mut i: usize = lo;
    while i < hi
        invariant
            lo <= i <= hi <= v.len(),
            r@ == v@.subrange(lo as int, i as int),
        decreases hi - i,
    {
        r.push(v[i]);
        i += 1;
        assert(r@ =~= v@.subrange(lo as int, i as int));
    }
    r
}

/// Appends all of `w` to `v`.
pub fn extend(v: &mut Vec<char>, w: &Vec<char>)
    ensures
        final(v)@ == old(v)@ + w@,
{
    let mut i: usize = 0;
    while i < w.len()
        invariant
            i <= w.len(),
            v@ == old(v)@ + w@.take(i as int),
        decreases w.len() - i,
    {
        v.push(w[i]);
        i += 1;
        assert(v@ =~= old(v)@ + w@.take(i as int));
    }
    assert(w@.take(w.len() as int) =~= w@);
}

// ---------------------------------------------------------------------------
// Prefixes and occurrences
// ---------------------------------------------------------------------------

/// `p` occurs in `s` starting at index `i`.
pub open spec fn occurs_at(s: Seq<char>, p: Seq<char>, i: int) -> bool {
    0 <= i && i + p.len() <= s.len() && s.subrange(i, i + p.len()) == p
}

/// The index of the leftmost occurrence of `p` in `s` (`str::find`).
pub open spec fn first_occurrence(s: Seq<char>, p: Seq<char>) -> Option<int>
    decreases s.len(),
{
    if p.is_prefix_of(s) {
        Some(0)
    } else if s.len() == 0 {
        None
    } else {
        match first_occurrence(s.drop_first(), p) {
            Some(k) => Some(k + 1),
            None => None,
        }
    }
}

/// `first_occurrence` is the least index at which `p` occurs.
pub proof fn lemma_first_occurrence(s: Seq<char>, p: Seq<char>)
    ensures
        first_occurrence(s, p) matches Some(k) ==> occurs_at(s, p, k) && forall|j: int|
            0 <= j < k ==> !occurs_at(s, p, j),
        first_occurrence(s, p) is None ==> forall|j: int| !occurs_at(s, p, j),
    decreases s.len(),
{
    if p.is_prefix_of(s) {
        assert(s.subrange(0, p.len() as int) =~= p);
    } else if s.len() == 0 {
        assert forall|j: int| !occurs_at(s, p, j) by {
            if occurs_at(s, p, j) {
                assert(p.len() == 0);
                assert(p =~= s.subrange(0, 0));
            }
        }
    } else {
        lemma_first_occurrence(s.drop_first(), p);
        assert forall|j: int| 0 <= j && #[trigger] occurs_at(s, p, j + 1) implies occurs_at(
            s.drop_first(),
            p,
            j,
        ) by {
            assert(s.drop_first().subrange(j, j + p.len()) =~= s.subrange(j + 1, j + 1 + p.len()));
        }
        assert forall|j: int| 0 <= j && #[trigger] occurs_at(s.drop_first(), p, j) implies occurs_at(
            s,
            p,
            j + 1,
        ) by {
            assert(s.drop_first().subrange(j, j + p.len()) =~= s.subrange(j + 1, j + 1 + p.len()));
        }
        assert(!occurs_at(s, p, 0)) by {
            if occurs_at(s, p, 0) {
                assert(s.subrange(0, p.len() as int) == p);
            }
        }
        assert forall|j: int| 0 < j && #[trigger] occurs_at(s, p, j) implies occurs_at(
            s.drop_first(),
            p,
            j - 1,
        ) by {
            assert(occurs_at(s, p, (j - 1) + 1));
        }
    }
}

/// `p` is a prefix of `s`.
pub fn starts_with(s: &Vec<char>, p: &Vec<char>) -> (r: bool)
    ensures
        r == p@.is_prefix_of(s@),
{
    starts_with_at(s, p, 0)
}

/// `p` occurs in `s` at index `i`.
pub fn starts_with_at(s: &Vec<char>, p: &Vec<char>, i: usize) -> (r: bool)
    ensures
        r == occurs_at(s@, p@, i as int),
        i == 0 ==> r == p@.is_prefix_of(s@),
{
    if i > s.len() || p.len() > s.len() - i {
        proof {
            if i == 0 {
                assert(!p@.is_prefix_of(s@));
            }
        }
        return false;
    }
    let mut j: usize = 0;
    while j < p.len()
        invariant
            i + p.len() <= s.len(),
            j <= p.len(),
            forall|k: int| 0 <= k < j ==> s@[i + k] == p@[k],
        decreases p.len() - j,
    {
        if s[i + j] != p[j] {
            proof {
                assert(s@.subrange(i as int, i + p.len())[j as int] != p@[j as int]);
                if i == 0 {
                    assert(s@.subrange(0, p.len() as int)[j as int] != p@[j as int]);
                }
            }
            return false;
        }
        j += 1;
    }
    assert(s@.subrange(i as int, i + p.len()) =~= p@);
    true
}

/// The leftmost occurrence of `p` in `s` (`str::find`).
pub fn find(s: &Vec<char>, p: &Vec<char>) -> (r: Option<usize>)
    ensures
        r matches Some(k) ==> first_occurrence(s@, p@) == Some(k as int),
        r is None ==> first_occurrence(s@, p@) is None,
{
    proof {
        lemma_first_occurrence(s@, p@);
    }
    if p.len() > s.len() {
        proof {
            assert forall|j: int| !occurs_at(s@, p@, j) by {}
            if let Some(k) = first_occurrence(s@, p@) {
                assert(occurs_at(s@, p@, k));
            }
        }
        return None;
    }
    let last = s.len() - p.len();
    let mut i: usize = 0;
    loop
        invariant
            last == s.len() - p.len(),
            p.len() <= s.len(),
            i <= last,
            forall|j: int| 0 <= j < i ==> !occurs_at(s@, p@, j),
        ensures
            forall|j: int| 0 <= j <= last ==> !occurs_at(s@, p@, j),
        decreases last - i,
    {
        if starts_with_at(s, p, i) {
            proof {
                lemma_first_occurrence(s@, p@);
                if let Some(k) = first_occurrence(s@, p@) {
                    if k < i {
                        assert(!occurs_at(s@, p@, k));
                    }
                    if i < k {
                        assert(!occurs_at(s@, p@, i as int));
                    }
                }
            }
            return Some(i);
        }
        if i == last {
            break ;
        }
        i += 1;
    }
    proof {
        lemma_first_occurrence(s@, p@);
        assert forall|j: int| !occurs_at(s@, p@, j) by {
            if j > last {
            }
        }
        if let Some(k) = first_occurrence(s@, p@) {
            assert(occurs_at(s@, p@, k));
        }
    }
    None
}

/// No `a` in `x` is directly followed by `b`.
pub open spec fn no_pair(x: Seq<char>, a: char, b: char) -> bool {
    forall|i: int| 0 <= i < x.len() - 1 ==> !(#[trigger] x[i] == a && x[i + 1] == b)
}

/// A prefix that can start no occurrence of `p` shifts the first occurrence
/// of `p` by its own length.
pub proof fn lemma_first_occurrence_after(x: Seq<char>, y: Seq<char>, p: Seq<char>)
    requires
        p.len() >= 2,
        no_pair(x, p[0], p[1]),
        x.len() == 0 || x.last() != p[0],
    ensures
        first_occurrence(x + y, p) == (match first_occurrence(y, p) {
            Some(k) => Some(k + x.len()),
            None => None,
        }),
    decreases x.len(),
{
    if x.len() == 0 {
        assert(x + y =~= y);
    } else {
        let xy = x + y;
        assert(xy[0] == x[0]);
        assert(!p.is_prefix_of(xy)) by {
            if p.is_prefix_of(xy) {
                assert(xy.subrange(0, p.len() as int)[0] == p[0]);
                assert(xy.subrange(0, p.len() as int)[1] == p[1]);
                if x.len() == 1 {
                    assert(x.last() == x[0]);
                } else {
                    assert(xy[1] == x[1]);
                    assert(!(x[0] == p[0] && x[1] == p[1]));
                }
            }
        }
        assert(xy.drop_first() =~= x.drop_first() + y);
        let t = x.drop_first();
        assert forall|i: int| 0 <= i < t.len() - 1 implies !(#[trigger] t[i] == p[0] && t[i + 1]
            == p[1]) by {
            assert(t[i] == x[i + 1] && t[i + 1] == x[i + 2]);
        }
        if t.len() > 0 {
            assert(t.last() == x.last());
        }
        lemma_first_occurrence_after(t, y, p);
    }
}

/// No `a` in `x` is directly followed by `b` and then `c`.
pub open spec fn no_triple(x: Seq<char>, a: char, b: char, c: char) -> bool {
    forall|i: int| 0 <= i < x.len() - 2 ==> !(#[trigger] x[i] == a && x[i + 1] == b && x[i + 2] == c)
}

/// A prefix that can start no occurrence of `p`, judged by its first three
/// characters, shifts the first occurrence of `p` by its own length.
pub proof fn lemma_first_occurrence_after3(x: Seq<char>, y: Seq<char>, p: Seq<char>)
    requires
        p.len() >= 3,
        no_triple(x, p[0], p[1], p[2]),
        x.len() == 0 || x.last() != p[0],
        x.len() < 2 || !(x[x.len() - 2] == p[0] && x.last() == p[1]),
    ensures
        first_occurrence(x + y, p) == (match first_occurrence(y, p) {
            Some(k) => Some(k + x.len()),
            None => None,
        }),
    decreases x.len(),
{
    if x.len() == 0 {
        assert(x + y =~= y);
    } else {
        let xy = x + y;
        assert(xy[0] == x[0]);
        assert(!p.is_prefix_of(xy)) by {
            if p.is_prefix_of(xy) {
                let q = xy.subrange(0, p.len() as int);
                assert(q[0] == p[0] && q[1] == p[1] && q[2] == p[2]);
                if x.len() == 1 {
                    assert(x.last() == x[0]);
                } else if x.len() == 2 {
                    assert(xy[1] == x[1]);
                    assert(x.last() == x[1]);
                    assert(x[x.len() - 2] == x[0]);
                } else {
                    assert(xy[1] == x[1] && xy[2] == x[2]);
                    assert(!(x[0] == p[0] && x[1] == p[1] && x[2] == p[2]));
                }
            }
        }
        assert(xy.drop_first() =~= x.drop_first() + y);
        let t = x.drop_first();
        assert forall|i: int| 0 <= i < t.len() - 2 implies !(#[trigger] t[i] == p[0] && t[i + 1]
            == p[1] && t[i + 2] == p[2]) by {
            assert(t[i] == x[i + 1] && t[i + 1] == x[i + 2] && t[i + 2] == x[i + 3]);
        }
        if t.len() > 0 {
            assert(t.last() == x.last());
        }
        if t.len() >= 2 {
            assert(t[t.len() - 2] == x[x.len() - 2]);
        }
        lemma_first_occurrence_after3(t, y, p);
    }
}

// ---------------------------------------------------------------------------
// Replacement
// ---------------------------------------------------------------------------

/// `s` with every non-overlapping occurrence of `p`, scanned from the left,
/// replaced by `r` (`str::replace`, for a non-empty pattern).
pub open spec fn replaced(s: Seq<char>, p: Seq<char>, r: Seq<char>) -> Seq<char>
    decreases s.len(),
{
    if s.len() == 0 {
        s
    } else if p.len() > 0 && p.is_prefix_of(s) {
        r + replaced(s.skip(p.len() as int), p, r)
    } else {
        seq![s[0]] + replaced(s.drop_first(), p, r)
    }
}

/// `s` with every occurrence of `p` replaced by `r`.
pub fn replace_all(s: &Vec<char>, p: &Vec<char>, r: &Vec<char>) -> (out: Vec<char>)
    requires
        p.len() > 0,
    ensures
        out@ == replaced(s@, p@, r@),
{
    let mut out: Vec<char> = Vec::new();
    let mut i: usize = 0;
    assert(s@.skip(0) =~= s@);
    assert(out@ + replaced(s@, p@, r@) =~= replaced(s@, p@, r@));
    while i < s.len()
        invariant
            p.len() > 0,
            i <= s.len(),
            replaced(s@, p@, r@) == out@ + replaced(s@.skip(i as int), p@, r@),
        decreases s.len() - i,
    {
        let ghost rest = s@.skip(i as int);
        if starts_with_at(s, p, i) {
            proof {
                assert(s@.subrange(i as int, i + p.len()) =~= rest.subrange(0, p.len() as int));
                assert(p@.is_prefix_of(rest));
                assert(rest.skip(p.len() as int) =~= s@.skip(i + p.len()));
            }
            extend(&mut out, r);
            i += p.len();
        } else {
            proof {
                if p@.is_prefix_of(rest) {
                    assert(s@.subrange(i as int, i + p.len()) =~= rest.subrange(0, p.len() as int));
                }
                assert(rest.drop_first() =~= s@.skip(i + 1));
                assert(rest[0] == s@[i as int]);
            }
            out.push(s[i]);
            i += 1;
        }
        assert(replaced(s@, p@, r@) =~= out@ + replaced(s@.skip(i as int), p@, r@));
    }
    assert(s@.skip(i as int) =~= Seq::<char>::empty());
    assert(out@ + Seq::<char>::empty() =~= out@);
    out
}

// ---------------------------------------------------------------------------
// Whitespace
// ---------------------------------------------------------------------------

/// A character with the Unicode `White_Space` property (`char::is_whitespace`).
pub open spec fn is_white_space(c: char) -> bool {
    let u = c as u32;
    (9 <= u <= 13) || u == 0x20 || u == 0x85 || u == 0xA0 || u == 0x1680 || (0x2000 <= u
        <= 0x200A) || u == 0x2028 || u == 0x2029 || u == 0x202F || u == 0x205F || u == 0x3000
}

/// `char::is_whitespace`.
pub fn is_white_space_char(c: char) -> (r: bool)
    ensures
        r == is_white_space(c),
{
    let u = c as u32;
    (9 <= u && u <= 13) || u == 0x20 || u == 0x85 || u == 0xA0 || u == 0x1680 || (0x2000 <= u
        && u <= 0x200A) || u == 0x2028 || u == 0x2029 || u == 0x202F || u == 0x205F || u
        == 0x3000
}

/// `s` without its leading whitespace.
pub open spec fn trim_start(s: Seq<char>) -> Seq<char>
    decreases s.len(),
{
    if s.len() > 0 && is_white_space(s[0]) {
        trim_start(s.drop_first())
    } else {
        s
    }
}

/// `s` without its trailing whitespace.
pub open spec fn trim_end(s: Seq<char>) -> Seq<char>
    decreases s.len(),
{
    if s.len() > 0 && is_white_space(s.last()) {
        trim_end(s.drop_last())
    } else {
        s
    }
}

/// `s` without leading and trailing whitespace (`str::trim`).
pub open spec fn trim(s: Seq<char>) -> Seq<char> {
    trim_end(trim_start(s))
}

/// Appending a whitespace character leaves the start-trimmed text empty,
/// or extends it by that character.
pub proof fn lemma_trim_start_push_white_space(x: Seq<char>, c: char)
    requires
        is_white_space(c),
    ensures
        trim_start(x.push(c)) == (if trim_start(x).len() == 0 {
            Seq::<char>::empty()
        } else {
            trim_start(x).push(c)
        }),
    decreases x.len(),
{
    if x.len() == 0 {
        assert(x.push(c).drop_first() =~= Seq::<char>::empty());
        assert(x.push(c)[0] == c);
        assert(trim_start(Seq::<char>::empty()) == Seq::<char>::empty());
        assert(trim_start(x) == x);
    } else {
        assert(x.push(c)[0] == x[0]);
        if is_white_space(x[0]) {
            assert(x.push(c).drop_first() =~= x.drop_first().push(c));
            lemma_trim_start_push_white_space(x.drop_first(), c);
        }
    }
}

/// Trimming ignores whitespace appended at the end: `str::trim` of `x`
/// followed by a space, tab, carriage return or any other whitespace
/// character is the trim of `x`.
pub proof fn lemma_trim_push_white_space(x: Seq<char>, c: char)
    requires
        is_white_space(c),
    ensures
        trim(x.push(c)) == trim(x),
{
    lemma_trim_start_push_white_space(x, c);
    let t = trim_start(x);
    if t.len() > 0 {
        assert(t.push(c).drop_last() =~= t);
        assert(t.push(c).last() == c);
    }
}

/// The whitespace `str::trim` removes includes the ASCII controls tab, line
/// feed, vertical tab, form feed and carriage return, and the space.
pub proof fn lemma_ascii_white_space()
    ensures
        is_white_space('\t'),
        is_white_space('\n'),
        is_white_space('\u{0B}'),
        is_white_space('\u{0C}'),
        is_white_space('\r'),
        is_white_space(' '),
        !is_white_space('a'),
{
}

/// `str::trim` over characters.
pub fn trimmed(s: &Vec<char>) -> (r: Vec<char>)
    ensures
        r@ == trim(s@),
{
    let mut lo: usize = 0;
    assert(s@.skip(0) =~= s@);
    while lo < s.len() && is_white_space_char(s[lo])
        invariant
            lo <= s.len(),
            trim_start(s@) == trim_start(s@.skip(lo as int)),
        decreases s.len() - lo,
    {
        assert(s@.skip(lo as int).drop_first() =~= s@.skip(lo + 1));
        lo += 1;
    }
    let ghost t = s@.skip(lo as int);
    assert(trim_start(s@) == t);
    let mut hi: usize = s.len();
    while hi > lo && is_white_space_char(s[hi - 1])
        invariant
            lo <= hi <= s.len(),
            t == s@.skip(lo as int),
            trim_end(t) == trim_end(s@.subrange(lo as int, hi as int)),
        decreases hi,
    {
        assert(s@.subrange(lo as int, hi as int).drop_last() =~= s@.subrange(
            lo as int,
            hi - 1,
        ));
        hi -= 1;
    }
    assert(t =~= s@.subrange(lo as int, s.len() as int));
    slice_chars(s, lo, hi)
}

// ---------------------------------------------------------------------------
// ASCII case
// ---------------------------------------------------------------------------

/// `char::to_ascii_lowercase`.
pub open spec fn ascii_lower(c: char) -> char {
    if 'A' <= c <= 'Z' {
        ((c as u32) + 32) as char
    } else {
        c
    }
}

/// `str::eq_ignore_ascii_case`.
pub open spec fn eq_ignore_ascii_case(a: Seq<char>, b: Seq<char>) -> bool {
    a.len() == b.len() && forall|i: int| 0 <= i < a.len() ==> ascii_lower(a[i]) == ascii_lower(b[i])
}

/// `char::to_ascii_lowercase`.
pub fn ascii_lower_char(c: char) -> (r: char)
    ensures
        r == ascii_lower(c),
{
    if 'A' <= c && c <= 'Z' {
        let u = (c as u32) + 32;
        assert(0x61 <= u <= 0x7A);
        // an ASCII lower-case letter
        let r = char_from_ascii(u);
        r
    } else {
        c
    }
}

/// The character with ASCII code `u`.
pub fn char_from_ascii(u: u32) -> (c: char)
    requires
        u < 128,
    ensures
        c as u32 == u,
{
    let b = u as u8;
    b as char
}

/// `str::eq_ignore_ascii_case` over characters.
pub fn equal_ignoring_ascii_case(a: &Vec<char>, b: &Vec<char>) -> (r: bool)
    ensures
        r == eq_ignore_ascii_case(a@, b@),
{
    if a.len() != b.len() {
        return false;
    }
    let mut i: usize = 0;
    while i < a.len()
        invariant
            a.len() == b.len(),
            i <= a.len(),
            forall|k: int| 0 <= k < i ==> ascii_lower(a@[k]) == ascii_lower(b@[k]),
        decreases a.len() - i,
    {
        if ascii_lower_char(a[i]) != ascii_lower_char(b[i]) {
            return false;
        }
        i += 1;
    }
    true
}

/// Whether `a` and `b` hold the same characters.
pub fn same_chars(a: &Vec<char>, b: &Vec<char>) -> (r: bool)
    ensures
        r == (a@ == b@),
{
    if a.len() != b.len() {
        return false;
    }
    let r = starts_with(a, b);
    proof {
        if r {
            assert(a@ =~= b@);
        }
    }
    r
}

/// Whether two strings hold the same characters.
pub fn same_text(a: &str, b: &str) -> (r: bool)
    ensures
        r == (a@ == b@),
{
    let x = chars_of(a);
    let y = chars_of(b);
    same_chars(&x, &y)
}

/// Appends the characters of `s` to `v`.
pub fn extend_str(v: &mut Vec<char>, s: &str)
    ensures
        final(v)@ == old(v)@ + s@,
{
    let w = chars_of(s);
    extend(v, &w);
}

/// `items` joined by `sep` (`[T]::join`).
pub open spec fn joined(items: Seq<Seq<char>>, sep: Seq<char>) -> Seq<char>
    decreases items.len(),
{
    if items.len() == 0 {
        Seq::empty()
    } else if items.len() == 1 {
        items[0]
    } else {
        joined(items.drop_last(), sep) + sep + items.last()
    }
}

/// The strings of `items` joined by `sep`, as characters.
pub fn join_strings(items: &Vec<String>, sep: &str) -> (r: Vec<char>)
    ensures
        r@ == joined(items.deep_view(), sep@),
{
    let mut r: Vec<char> = Vec::new();
    let mut i: usize = 0;
    while i < items.len()
        invariant
            i <= items.len(),
            r@ == joined(items.deep_view().take(i as int), sep@),
        decreases items.len() - i,
    {
        let ghost before = items.deep_view().take(i as int);
        if i > 0 {
            extend_str(&mut r, sep);
        }
        extend_str(&mut r, items[i].as_str());
        i += 1;
        proof {
            let now = items.deep_view().take(i as int);
            assert(now.drop_last() =~= before);
            assert(now.last() == items[i - 1]@);
            if i == 1 {
                assert(r@ =~= now[0]);
            }
        }
    }
    assert(items.deep_view().take(items.len() as int) =~= items.deep_view());
    r
}

// ---------------------------------------------------------------------------
// Hexadecimal
// ---------------------------------------------------------------------------

/// The hexadecimal digit for `d` (`0 <= d < 16`).
pub open spec fn hex_digit(d: int, upper: bool) -> char {
    if d < 10 {
        (48 + d) as char
    } else if upper {
        (55 + d) as char
    } else {
        (87 + d) as char
    }
}

/// The last `width` hexadecimal digits of `x`, most significant first
/// (`{:0width$X}` for a value of at most `width` digits).
pub open spec fn hex_fixed(x: nat, width: nat, upper: bool) -> Seq<char>
    decreases width,
{
    if width == 0 {
        Seq::empty()
    } else {
        hex_fixed(x / 16, (width - 1) as nat, upper).push(hex_digit((x % 16) as int, upper))
    }
}

/// The hexadecimal digits of `x` without leading zeros (`{:x}`).
pub open spec fn hex_min(x: nat, upper: bool) -> Seq<char>
    decreases x,
{
    if x < 16 {
        seq![hex_digit(x as int, upper)]
    } else {
        hex_min(x / 16, upper).push(hex_digit((x % 16) as int, upper))
    }
}

/// The hexadecimal digit for `d`.
pub fn hex_digit_char(d: u32, upper: bool) -> (c: char)
    requires
        d < 16,
    ensures
        c == hex_digit(d as int, upper),
{
    if d < 10 {
        char_from_ascii(48 + d)
    } else if upper {
        char_from_ascii(55 + d)
    } else {
        char_from_ascii(87 + d)
    }
}

/// The last `width` hexadecimal digits of `x`.
pub fn hex_fixed_chars(x: u32, width: u32, upper: bool) -> (v: Vec<char>)
    ensures
        v@ == hex_fixed(x as nat, width as nat, upper),
    decreases width,
{
    if width == 0 {
        Vec::new()
    } else {
        let mut v = hex_fixed_chars(x / 16, width - 1, upper);
        v.push(hex_digit_char(x % 16, upper));
        v
    }
}

/// The hexadecimal digits of `x` without leading zeros.
pub fn hex_min_chars(x: u32, upper: bool) -> (v: Vec<char>)
    ensures
        v@ == hex_min(x as nat, upper),
    decreases x,
{
    if x < 16 {
        let mut v = Vec::new();
        v.push(hex_digit_char(x, upper));
        v
    } else {
        let mut v = hex_min_chars(x / 16, upper);
        v.push(hex_digit_char(x % 16, upper));
        v
    }
}

// ---------------------------------------------------------------------------
// Decimal
// ---------------------------------------------------------------------------

/// The decimal digits of `x` without leading zeros (`{}`).
pub open spec fn decimal(x: nat) -> Seq<char>
    decreases x,
{
    if x < 10 {
        seq![(48 + x) as char]
    } else {
        decimal(x / 10).push((48 + x % 10) as char)
    }
}

/// The decimal digits of `x`.
pub fn decimal_chars(x: u64) -> (v: Vec<char>)
    ensures
        v@ == decimal(x as nat),
    decreases x,
{
    if x < 10 {
        let mut v = Vec::new();
        v.push(char_from_ascii((48 + x) as u32));
        v
    } else {
        let mut v = decimal_chars(x / 10);
        v.push(char_from_ascii((48 + x % 10) as u32));
        v
    }
}

} // verus!
