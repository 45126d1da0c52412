//! Task Scheduler XML: escaping the values written into a task definition,
//! and reading the `<Command>` back out of a registered task's XML.

use vstd::prelude::*;
use crate::text::{
    chars_of, find, first_occurrence, lemma_first_occurrence, lemma_first_occurrence_after,
    lemma_first_occurrence_after3, no_pair, no_triple, occurs_at, replace_all, replaced, slice_chars, starts_with, string_of,
};

verus! {

broadcast use vstd::string::group_string_axioms;

/// Opening tag of the action's executable path.
pub const COMMAND_OPEN: &'static str = "<Command>";

/// Closing tag of the action's executable path.
pub const COMMAND_CLOSE: &'static str = "</Command>";

/// XML declaration and task header, up to the description's text.
pub const TASK_XML_HEAD: &'static str = r#"<?xml version="1.0" encoding="UTF-16"?>
<Task version="1.2" xmlns="http://schemas.microsoft.com/windows/2004/02/mit/task">
  <RegistrationInfo>
    <Description>"#;

pub open spec fn amp_entity() -> Seq<char> {
    seq!['&', 'a', 'm', 'p', ';']
}

pub open spec fn lt_entity() -> Seq<char> {
    seq!['&', 'l', 't', ';']
}

pub open spec fn gt_entity() -> Seq<char> {
    seq!['&', 'g', 't', ';']
}

pub open spec fn quot_entity() -> Seq<char> {
    seq!['&', 'q', 'u', 'o', 't', ';']
}

/// How one character is written into XML text.
pub open spec fn escape_char(c: char) -> Seq<char> {
    if c == '&' {
        amp_entity()
    } else if c == '<' {
        lt_entity()
    } else if c == '>' {
        gt_entity()
    } else if c == '"' {
        quot_entity()
    } else {
        seq![c]
    }
}

/// `s` with `&`, `<`, `>` and `"` written as entities.
pub open spec fn xml_escaped(s: Seq<char>) -> Seq<char>
    decreases s.len(),
{
    if s.len() == 0 {
        Seq::empty()
    } else {
        escape_char(s[0]) + xml_escaped(s.drop_first())
    }
}

/// The entities `&quot;`, `&gt;`, `&lt;` and `&amp;` replaced, in that order,
/// by the characters they stand for.
pub open spec fn xml_unescaped(s: Seq<char>) -> Seq<char> {
    replaced(
        replaced(
            replaced(replaced(s, quot_entity(), seq!['"']), gt_entity(), seq!['>']),
            lt_entity(),
            seq!['<'],
        ),
        amp_entity(),
        seq!['&'],
    )
}

/// The `\\?\` prefix of a verbatim Windows path.
pub open spec fn verbatim_prefix() -> Seq<char> {
    seq!['\\', '\\', '?', '\\']
}

/// `s` without a leading `\\?\`.
pub open spec fn without_verbatim(s: Seq<char>) -> Seq<char> {
    if verbatim_prefix().is_prefix_of(s) {
        s.skip(4)
    } else {
        s
    }
}

/// The unescaped text between the first `<Command>` of `xml` and the first
/// `</Command>` after it; `None` when either tag is missing.
pub open spec fn command_of(xml: Seq<char>) -> Option<Seq<char>> {
    match first_occurrence(xml, COMMAND_OPEN@) {
        None => None,
        Some(i) => {
            let rest = xml.skip(i + COMMAND_OPEN@.len());
            match first_occurrence(rest, COMMAND_CLOSE@) {
                None => None,
                Some(j) => Some(xml_unescaped(rest.take(j))),
            }
        },
    }
}

/// Escape the XML special characters of `s`.
pub fn xml_escape(s: &str) -> (r: String)
    ensures
        r@ == xml_escaped(s@),
{
    let v = chars_of(s);
    let mut out: Vec<char> = Vec::new();
    let mut i: usize = 0;
    assert(v@.skip(0) =~= v@);
    assert(out@ + xml_escaped(v@) =~= xml_escaped(v@));
    while i < v.len()
        invariant
            i <= v.len(),
            xml_escaped(v@) == out@ + xml_escaped(v@.skip(i as int)),
        decreases v.len() - i,
    {
        let c = v[i];
        let ghost before = out@;
        if c == '&' {
            out.push('&');
            out.push('a');
            out.push('m');
            out.push('p');
            out.push(';');
        } else if c == '<' {
            out.push('&');
            out.push('l');
            out.push('t');
            out.push(';');
        } else if c == '>' {
            out.push('&');
            out.push('g');
            out.push('t');
            out.push(';');
        } else if c == '"' {
            out.push('&');
            out.push('q');
            out.push('u');
            out.push('o');
            out.push('t');
            out.push(';');
        } else {
            out.push(c);
        }
        assert(out@ =~= before + escape_char(c));
        assert(v@.skip(i as int).drop_first() =~= v@.skip(i + 1));
        i += 1;
        assert(xml_escaped(v@) =~= out@ + xml_escaped(v@.skip(i as int)));
    }
    assert(v@.skip(i as int) =~= Seq::<char>::empty());
    assert(out@ + Seq::<char>::empty() =~= out@);
    string_of(&out)
}

/// Replace the four XML entities by their characters, `&amp;` last.
pub fn xml_unescape_chars(raw: &Vec<char>) -> (r: Vec<char>)
    ensures
        r@ == xml_unescaped(raw@),
{
    let quot = vec!['&', 'q', 'u', 'o', 't', ';'];
    let gt = vec!['&', 'g', 't', ';'];
    let lt = vec!['&', 'l', 't', ';'];
    let amp = vec!['&', 'a', 'm', 'p', ';'];
    let quot_char = vec!['"'];
    let gt_char = vec!['>'];
    let lt_char = vec!['<'];
    let amp_char = vec!['&'];
    assert(quot@ == quot_entity() && gt@ == gt_entity() && lt@ == lt_entity() && amp@
        == amp_entity());
    assert(quot_char@ == seq!['"'] && gt_char@ == seq!['>'] && lt_char@ == seq!['<']
        && amp_char@ == seq!['&']);
    let a = replace_all(raw, &quot, &quot_char);
    let b = replace_all(&a, &gt, &gt_char);
    let c = replace_all(&b, &lt, &lt_char);
    replace_all(&c, &amp, &amp_char)
}

/// Remove a leading `\\?\` (verbatim path prefix) from `s`.
pub fn strip_verbatim(s: &str) -> (r: String)
    ensures
        r@ == without_verbatim(s@),
{
    let v = chars_of(s);
    let prefix = vec!['\\', '\\', '?', '\\'];
    if starts_with(&v, &prefix) {
        let rest = slice_chars(&v, 4, v.len());
        assert(rest@ =~= v@.skip(4));
        string_of(&rest)
    } else {
        string_of(&v)
    }
}

/// Extract the `<Command>...</Command>` text from a task XML document.
/// Returns the unescaped command string, or `None` if not found.
pub fn extract_command(xml: &str) -> (r: Option<String>)
    ensures
        r matches Some(c) ==> command_of(xml@) == Some(c@),
        r is None <==> command_of(xml@) is None,
{
    let x = chars_of(xml);
    let open = chars_of(COMMAND_OPEN);
    let close = chars_of(COMMAND_CLOSE);
    match find(&x, &open) {
        None => None,
        Some(i) => {
            proof {
                lemma_first_occurrence(x@, open@);
            }
            let start = i + open.len();
            let rest = slice_chars(&x, start, x.len());
            assert(rest@ =~= x@.skip(start as int));
            match find(&rest, &close) {
                None => None,
                Some(j) => {
                    proof {
                        lemma_first_occurrence(rest@, close@);
                    }
                    let raw = slice_chars(&rest, 0, j);
                    assert(raw@ =~= rest@.take(j as int));
                    let text = xml_unescape_chars(&raw);
                    Some(string_of(&text))
                },
            }
        },
    }
}

// ---------------------------------------------------------------------------
// Laws of escaping
// ---------------------------------------------------------------------------

/// Escaped text holds no `<`, `>` or `"`.
pub proof fn lemma_escaped_has_no_markup(s: Seq<char>)
    ensures
        forall|i: int|
            0 <= i < xml_escaped(s).len() ==> {
                let c = #[trigger] xml_escaped(s)[i];
                c != '<' && c != '>' && c != '"'
            },
    decreases s.len(),
{
    if s.len() > 0 {
        lemma_escaped_has_no_markup(s.drop_first());
        let e = escape_char(s[0]);
        let t = xml_escaped(s.drop_first());
        assert forall|i: int| 0 <= i < xml_escaped(s).len() implies {
            let c = #[trigger] xml_escaped(s)[i];
            c != '<' && c != '>' && c != '"'
        } by {
            if i < e.len() {
                assert(xml_escaped(s)[i] == e[i]);
            } else {
                assert(xml_escaped(s)[i] == t[i - e.len()]);
            }
        }
    }
}

/// Every `&` in escaped text begins one of the four entities.
pub proof fn lemma_escaped_ampersands_are_entities(s: Seq<char>)
    ensures
        forall|i: int|
            0 <= i < xml_escaped(s).len() && #[trigger] xml_escaped(s)[i] == '&' ==> {
                ||| occurs_at(xml_escaped(s), amp_entity(), i)
                ||| occurs_at(xml_escaped(s), lt_entity(), i)
                ||| occurs_at(xml_escaped(s), gt_entity(), i)
                ||| occurs_at(xml_escaped(s), quot_entity(), i)
            },
    decreases s.len(),
{
    if s.len() > 0 {
        lemma_escaped_ampersands_are_entities(s.drop_first());
        let e = escape_char(s[0]);
        let t = xml_escaped(s.drop_first());
        let x = xml_escaped(s);
        assert(x == e + t);
        assert forall|i: int| 0 <= i < x.len() && #[trigger] x[i] == '&' implies {
            ||| occurs_at(x, amp_entity(), i)
            ||| occurs_at(x, lt_entity(), i)
            ||| occurs_at(x, gt_entity(), i)
            ||| occurs_at(x, quot_entity(), i)
        } by {
            if i < e.len() {
                assert(x[i] == e[i]);
                assert(i == 0);
                assert(x.subrange(0, e.len() as int) =~= e);
            } else {
                let j = i - e.len();
                assert(x[i] == t[j]);
                assert(t[j] == '&');
                let ents = seq![amp_entity(), lt_entity(), gt_entity(), quot_entity()];
                assert forall|k: int| 0 <= k < 4 && #[trigger] occurs_at(t, ents[k], j) implies occurs_at(
                    x,
                    ents[k],
                    i,
                ) by {
                    assert(x.subrange(i, i + ents[k].len()) =~= t.subrange(j, j + ents[k].len()));
                }
                assert(occurs_at(t, ents[0], j) || occurs_at(t, ents[1], j) || occurs_at(
                    t,
                    ents[2],
                    j,
                ) || occurs_at(t, ents[3], j));
            }
        }
    }
}

/// Characters already turned back into themselves after `k` unescaping passes.
pub open spec fn decoded_by_stage(c: char, k: int) -> bool {
    (k >= 1 && c == '"') || (k >= 2 && c == '>') || (k >= 3 && c == '<') || (k >= 4 && c == '&')
}

/// Escaped text after `k` of the four unescaping passes.
pub open spec fn escaped_at_stage(s: Seq<char>, k: int) -> Seq<char>
    decreases s.len(),
{
    if s.len() == 0 {
        Seq::empty()
    } else {
        (if decoded_by_stage(s[0], k) {
            seq![s[0]]
        } else {
            escape_char(s[0])
        }) + escaped_at_stage(s.drop_first(), k)
    }
}

/// The entity removed by unescaping pass `k`.
pub open spec fn stage_entity(k: int) -> Seq<char> {
    if k == 0 {
        quot_entity()
    } else if k == 1 {
        gt_entity()
    } else if k == 2 {
        lt_entity()
    } else {
        amp_entity()
    }
}

/// The character restored by unescaping pass `k`.
pub open spec fn stage_char(k: int) -> char {
    if k == 0 {
        '"'
    } else if k == 1 {
        '>'
    } else if k == 2 {
        '<'
    } else {
        '&'
    }
}

/// Replacing leaves alone a prefix that holds no first character of the pattern.
pub proof fn lemma_replaced_passthrough(u: Seq<char>, x: Seq<char>, p: Seq<char>, r: Seq<char>)
    requires
        p.len() > 0,
        forall|i: int| 0 <= i < u.len() ==> u[i] != p[0],
    ensures
        replaced(u + x, p, r) == u + replaced(x, p, r),
    decreases u.len(),
{
    if u.len() == 0 {
        assert(u + x =~= x);
        assert(u + replaced(x, p, r) =~= replaced(x, p, r));
    } else {
        let ux = u + x;
        assert(ux[0] == u[0]);
        assert(!p.is_prefix_of(ux)) by {
            if p.is_prefix_of(ux) {
                assert(ux.subrange(0, p.len() as int)[0] == p[0]);
            }
        }
        assert(ux.drop_first() =~= u.drop_first() + x);
        lemma_replaced_passthrough(u.drop_first(), x, p, r);
        assert(seq![u[0]] + (u.drop_first() + replaced(x, p, r)) =~= u + replaced(x, p, r));
    }
}

/// One unescaping pass turns stage `k` into stage `k + 1`.
pub proof fn lemma_unescape_stage(s: Seq<char>, k: int)
    requires
        0 <= k < 4,
    ensures
        replaced(escaped_at_stage(s, k), stage_entity(k), seq![stage_char(k)]) == escaped_at_stage(
            s,
            k + 1,
        ),
    decreases s.len(),
{
    let p = stage_entity(k);
    let r = seq![stage_char(k)];
    if s.len() == 0 {
    } else {
        let c = s[0];
        let rest = s.drop_first();
        let e = if decoded_by_stage(c, k) {
            seq![c]
        } else {
            escape_char(c)
        };
        let x = escaped_at_stage(rest, k);
        assert(escaped_at_stage(s, k) == e + x);
        lemma_unescape_stage(rest, k);
        let ex = e + x;
        if c == stage_char(k) {
            assert(!decoded_by_stage(c, k));
            assert(e =~= p);
            assert(ex.subrange(0, p.len() as int) =~= p);
            assert(p.is_prefix_of(ex));
            assert(ex.skip(p.len() as int) =~= x);
            assert(decoded_by_stage(c, k + 1));
            assert(escaped_at_stage(s, k + 1) == seq![c] + escaped_at_stage(rest, k + 1));
        } else {
            assert(decoded_by_stage(c, k + 1) == decoded_by_stage(c, k));
            assert(escaped_at_stage(s, k + 1) == e + escaped_at_stage(rest, k + 1));
            assert(e.len() >= 1);
            assert(ex[0] == e[0]);
            if e.len() == 1 {
                assert(e[0] == c);
                assert(c != '&');
                assert(!p.is_prefix_of(ex)) by {
                    if p.is_prefix_of(ex) {
                        assert(ex.subrange(0, p.len() as int)[0] == p[0]);
                    }
                }
                assert(ex.drop_first() =~= x);
                assert(seq![ex[0]] =~= e);
            } else {
                assert(e[0] == '&');
                assert(e[1] != p[1]);
                assert(ex[1] == e[1]);
                assert(!p.is_prefix_of(ex)) by {
                    if p.is_prefix_of(ex) {
                        assert(ex.subrange(0, p.len() as int)[1] == p[1]);
                    }
                }
                let tail = e.drop_first();
                assert(forall|i: int| 0 <= i < tail.len() ==> tail[i] != '&');
                assert(ex.drop_first() =~= tail + x);
                lemma_replaced_passthrough(tail, x, p, r);
                assert(seq![ex[0]] + (tail + replaced(x, p, r)) =~= e + replaced(x, p, r));
            }
        }
    }
}

/// Stage zero is plain escaping.
pub proof fn lemma_stage_zero(s: Seq<char>)
    ensures
        escaped_at_stage(s, 0) == xml_escaped(s),
    decreases s.len(),
{
    if s.len() > 0 {
        lemma_stage_zero(s.drop_first());
    }
}

/// After all four passes every character stands for itself.
pub proof fn lemma_stage_four(s: Seq<char>)
    ensures
        escaped_at_stage(s, 4) == s,
    decreases s.len(),
{
    if s.len() > 0 {
        lemma_stage_four(s.drop_first());
        assert(seq![s[0]] + s.drop_first() =~= s);
    }
}

/// Unescaping undoes escaping.
pub proof fn lemma_unescape_escape(s: Seq<char>)
    ensures
        xml_unescaped(xml_escaped(s)) == s,
{
    lemma_stage_zero(s);
    lemma_unescape_stage(s, 0);
    lemma_unescape_stage(s, 1);
    lemma_unescape_stage(s, 2);
    lemma_unescape_stage(s, 3);
    lemma_stage_four(s);
}

// ---------------------------------------------------------------------------
// Reading back what a task definition wrote
// ---------------------------------------------------------------------------

/// `x` opens no tag whose name starts with `C`, not even one completed by
/// text that follows it.
pub open spec fn opens_no_c_tag(x: Seq<char>) -> bool {
    no_pair(x, '<', 'C') && (x.len() == 0 || x.last() != '<')
}

/// The task header opens no `C` tag.
pub proof fn lemma_task_xml_head()
    ensures
        opens_no_c_tag(TASK_XML_HEAD@),
{
    reveal_strlit(r#"<?xml version="1.0" encoding="UTF-16"?>
<Task version="1.2" xmlns="http://schemas.microsoft.com/windows/2004/02/mit/task">
  <RegistrationInfo>
    <Description>"#);
}

/// Text that opens no `C` tag stays so when joined.
pub proof fn lemma_opens_no_c_tag_concat(x: Seq<char>, y: Seq<char>)
    requires
        opens_no_c_tag(x),
        opens_no_c_tag(y),
    ensures
        opens_no_c_tag(x + y),
{
    let xy = x + y;
    assert forall|i: int| 0 <= i < xy.len() - 1 implies !(#[trigger] xy[i] == '<' && xy[i + 1]
        == 'C') by {
        if i < x.len() - 1 {
            assert(xy[i] == x[i] && xy[i + 1] == x[i + 1]);
        } else if i == x.len() - 1 {
            assert(xy[i] == x.last());
        } else {
            assert(xy[i] == y[i - x.len()] && xy[i + 1] == y[i + 1 - x.len()]);
        }
    }
    if y.len() > 0 {
        assert(xy.last() == y.last());
    } else {
        assert(xy =~= x);
    }
}

/// Escaped text opens no tag at all.
pub proof fn lemma_escaped_opens_no_c_tag(s: Seq<char>)
    ensures
        opens_no_c_tag(xml_escaped(s)),
        no_pair(xml_escaped(s), '<', '/'),
{
    lemma_escaped_has_no_markup(s);
    let e = xml_escaped(s);
    if e.len() > 0 {
        assert(e.last() == e[e.len() - 1]);
    }
}

/// A document laid out as `prefix <Command>escaped(path)</Command> suffix`,
/// where `prefix` opens no `C` tag, yields `path` as its command.
pub proof fn lemma_command_of_layout(prefix: Seq<char>, path: Seq<char>, suffix: Seq<char>)
    requires
        opens_no_c_tag(prefix),
    ensures
        command_of(prefix + COMMAND_OPEN@ + xml_escaped(path) + COMMAND_CLOSE@ + suffix) == Some(
            path,
        ),
{
    reveal_strlit("<Command>");
    reveal_strlit("</Command>");
    let open = COMMAND_OPEN@;
    let close = COMMAND_CLOSE@;
    let e = xml_escaped(path);
    let xml = prefix + open + e + close + suffix;
    let r = open + e + close + suffix;
    assert(xml =~= prefix + r);
    assert(r.subrange(0, open.len() as int) =~= open);
    assert(open.is_prefix_of(r));
    assert(first_occurrence(r, open) == Some(0int));
    lemma_first_occurrence_after(prefix, r, open);
    assert(first_occurrence(xml, open) == Some(prefix.len() as int));
    let rest = xml.skip((prefix.len() + open.len()) as int);
    let t = close + suffix;
    assert(rest =~= e + t);
    lemma_escaped_opens_no_c_tag(path);
    assert(t.subrange(0, close.len() as int) =~= close);
    assert(close.is_prefix_of(t));
    assert(first_occurrence(t, close) == Some(0int));
    lemma_first_occurrence_after(e, t, close);
    assert(first_occurrence(rest, close) == Some(e.len() as int));
    assert(rest.take(e.len() as int) =~= e);
    lemma_unescape_escape(path);
}

// ---------------------------------------------------------------------------
// Elements in general
// ---------------------------------------------------------------------------

/// The raw text of the first element opened by `open`: from the first
/// `open` to the next `close`.
pub open spec fn element_raw(xml: Seq<char>, open: Seq<char>, close: Seq<char>) -> Option<Seq<char>> {
    match first_occurrence(xml, open) {
        None => None,
        Some(i) => {
            let rest = xml.skip(i + open.len());
            match first_occurrence(rest, close) {
                None => None,
                Some(j) => Some(rest.take(j)),
            }
        },
    }
}

/// The text of that element, unescaped.
pub open spec fn element_text(xml: Seq<char>, open: Seq<char>, close: Seq<char>) -> Option<Seq<char>> {
    match element_raw(xml, open, close) {
        Some(t) => Some(xml_unescaped(t)),
        None => None,
    }
}

/// `x` opens no tag whose name starts with `c`.
pub open spec fn opens_no_tag(x: Seq<char>, c: char) -> bool {
    no_pair(x, '<', c) && (x.len() == 0 || x.last() != '<')
}

/// `x` closes no tag whose name starts with `c`.
pub open spec fn closes_no_tag(x: Seq<char>, c: char) -> bool {
    &&& no_triple(x, '<', '/', c)
    &&& x.len() == 0 || x.last() != '<'
    &&& x.len() < 2 || !(x[x.len() - 2] == '<' && x.last() == '/')
}

/// Text that opens no tag starting with `c` stays so when joined.
pub proof fn lemma_opens_no_tag_concat(x: Seq<char>, y: Seq<char>, c: char)
    requires
        opens_no_tag(x, c),
        opens_no_tag(y, c),
    ensures
        opens_no_tag(x + y, c),
{
    let xy = x + y;
    assert forall|i: int| 0 <= i < xy.len() - 1 implies !(#[trigger] xy[i] == '<' && xy[i + 1]
        == c) by {
        if i < x.len() - 1 {
            assert(xy[i] == x[i] && xy[i + 1] == x[i + 1]);
        } else if i == x.len() - 1 {
            assert(xy[i] == x.last());
        } else {
            assert(xy[i] == y[i - x.len()] && xy[i + 1] == y[i + 1 - x.len()]);
        }
    }
    if y.len() > 0 {
        assert(xy.last() == y.last());
    } else {
        assert(xy =~= x);
    }
}

/// Text that closes no tag starting with `c` stays so when joined.
pub proof fn lemma_closes_no_tag_concat(x: Seq<char>, y: Seq<char>, c: char)
    requires
        closes_no_tag(x, c),
        closes_no_tag(y, c),
    ensures
        closes_no_tag(x + y, c),
{
    let xy = x + y;
    let n = x.len();
    assert forall|i: int| 0 <= i < xy.len() - 2 implies !(#[trigger] xy[i] == '<' && xy[i + 1]
        == '/' && xy[i + 2] == c) by {
        if i + 2 < n {
            assert(xy[i] == x[i] && xy[i + 1] == x[i + 1] && xy[i + 2] == x[i + 2]);
        } else if i == n - 2 {
            assert(xy[i] == x[n - 2] && xy[i + 1] == x.last());
        } else if i == n - 1 {
            assert(xy[i] == x.last());
        } else {
            assert(xy[i] == y[i - n] && xy[i + 1] == y[i + 1 - n] && xy[i + 2] == y[i + 2 - n]);
        }
    }
    if y.len() >= 2 {
        assert(xy.last() == y.last());
        assert(xy[xy.len() - 2] == y[y.len() - 2]);
    } else if y.len() == 1 {
        assert(xy.last() == y.last());
        if n > 0 {
            assert(xy[xy.len() - 2] == x.last());
        }
    } else {
        assert(xy =~= x);
    }
}

/// Escaped text opens and closes no tag at all.
pub proof fn lemma_escaped_has_no_tag(s: Seq<char>, c: char)
    ensures
        opens_no_tag(xml_escaped(s), c),
        closes_no_tag(xml_escaped(s), c),
        no_pair(xml_escaped(s), '<', '/'),
{
    lemma_escaped_has_no_markup(s);
    let e = xml_escaped(s);
    if e.len() > 0 {
        assert(e.last() == e[e.len() - 1]);
    }
    if e.len() >= 2 {
        assert(e[e.len() - 2] != '<');
    }
}

/// A document laid out as `prefix open body close suffix`, where `prefix`
/// opens no element like `open` and `close` first follows `body` right
/// after it, has `body` as the raw text of its first `open` element.
pub proof fn lemma_element_layout(
    prefix: Seq<char>,
    open: Seq<char>,
    body: Seq<char>,
    close: Seq<char>,
    suffix: Seq<char>,
)
    requires
        open.len() >= 2,
        no_pair(prefix, open[0], open[1]),
        prefix.len() == 0 || prefix.last() != open[0],
        first_occurrence(body + close + suffix, close) == Some(body.len() as int),
    ensures
        element_raw(prefix + open + body + close + suffix, open, close) == Some(body),
{
    let xml = prefix + open + body + close + suffix;
    let r = open + (body + close + suffix);
    assert(xml =~= prefix + r);
    assert(r.subrange(0, open.len() as int) =~= open);
    assert(open.is_prefix_of(r));
    assert(first_occurrence(r, open) == Some(0int));
    lemma_first_occurrence_after(prefix, r, open);
    assert(first_occurrence(xml, open) == Some(prefix.len() as int));
    let rest = xml.skip((prefix.len() + open.len()) as int);
    assert(rest =~= body + close + suffix);
    assert(rest.take(body.len() as int) =~= body);
}

/// `close` first follows escaped text right after it.
pub proof fn lemma_close_after_escaped(s: Seq<char>, close: Seq<char>, suffix: Seq<char>)
    requires
        close.len() >= 2,
        close[0] == '<',
        close[1] == '/',
    ensures
        first_occurrence(xml_escaped(s) + close + suffix, close) == Some(
            xml_escaped(s).len() as int,
        ),
{
    let e = xml_escaped(s);
    lemma_escaped_has_no_tag(s, 'x');
    let t = close + suffix;
    assert(e + close + suffix =~= e + t);
    assert(t.subrange(0, close.len() as int) =~= close);
    assert(close.is_prefix_of(t));
    assert(first_occurrence(t, close) == Some(0int));
    lemma_first_occurrence_after(e, t, close);
}

} // verus!
