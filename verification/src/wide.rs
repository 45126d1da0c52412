//! UTF-16 ("wide") strings as Windows hands them out: NUL-terminated
//! buffers, lists of strings, and raw little-endian property bytes.

use vstd::prelude::*;
use crate::text::string_of;

verus! {

/// A leading (high) surrogate code unit.
pub open spec fn is_high_surrogate(u: u16) -> bool {
    0xD800 <= u < 0xDC00
}

/// A trailing (low) surrogate code unit.
pub open spec fn is_low_surrogate(u: u16) -> bool {
    0xDC00 <= u < 0xE000
}

/// The scalar value encoded by a surrogate pair.
pub open spec fn surrogate_pair_value(hi: u16, lo: u16) -> int {
    0x10000 + (hi - 0xD800) * 0x400 + (lo - 0xDC00)
}

/// `a` in front of the decoded text, if there is one.
pub open spec fn prepend(a: Seq<char>, rest: Option<Seq<char>>) -> Option<Seq<char>> {
    match rest {
        Some(r) => Some(a + r),
        None => None,
    }
}

/// Strict UTF-16 decoding (`String::from_utf16`): `None` on an unpaired surrogate.
pub open spec fn utf16_decoded(units: Seq<u16>) -> Option<Seq<char>>
    decreases units.len(),
{
    if units.len() == 0 {
        Some(Seq::empty())
    } else if !is_high_surrogate(units[0]) && !is_low_surrogate(units[0]) {
        prepend(seq![units[0] as char], utf16_decoded(units.drop_first()))
    } else if is_high_surrogate(units[0]) && units.len() >= 2 && is_low_surrogate(units[1]) {
        prepend(
            seq![surrogate_pair_value(units[0], units[1]) as char],
            utf16_decoded(units.skip(2)),
        )
    } else {
        None
    }
}

/// A Unicode scalar value (`char::from_u32` accepts it).
pub open spec fn is_scalar_value(u: u32) -> bool {
    u < 0xD800 || (0xE000 <= u && u <= 0x10FFFF)
}

/// `char::from_u32`: the character with scalar value `u`, if `u` is one.
#[verifier::external_body]
fn char_from_u32(u: u32) -> (c: Option<char>)
    ensures
        c == (if is_scalar_value(u) {
            Some(u as char)
        } else {
            None
        }),
{
    char::from_u32(u)
}

/// Strict UTF-16 decoding of `units`.
pub fn decode_utf16(units: &[u16]) -> (r: Option<String>)
    ensures
        r matches Some(s) ==> utf16_decoded(units@) == Some(s@),
        r is None <==> utf16_decoded(units@) is None,
{
    let mut out: Vec<char> = Vec::new();
    let mut i: usize = 0;
    assert(units@.skip(0) =~= units@);
    assert(Seq::<char>::empty() + Seq::<char>::empty() =~= Seq::<char>::empty());
    assert(prepend(out@, utf16_decoded(units@)) =~= utf16_decoded(units@)) by {
        if let Some(t) = utf16_decoded(units@) {
            assert(out@ + t =~= t);
        }
    }
    while i < units.len()
        invariant
            i <= units.len(),
            utf16_decoded(units@) == prepend(out@, utf16_decoded(units@.skip(i as int))),
        decreases units.len() - i,
    {
        let rest = Ghost(units@.skip(i as int));
        let u = units[i];
        assert(rest@[0] == u);
        if u < 0xD800 || u >= 0xE000 {
            let c = char_from_u32(u as u32);
            assert(is_scalar_value(u as u32));
            let c = c.unwrap();
            assert(rest@.drop_first() =~= units@.skip(i + 1));
            let ghost before = out@;
            out.push(c);
            proof {
                if let Some(t) = utf16_decoded(units@.skip(i + 1)) {
                    assert(before + (seq![c] + t) =~= out@ + t);
                }
            }
            i += 1;
        } else if u < 0xDC00 && i + 1 < units.len() && units[i + 1] >= 0xDC00 && units[i + 1]
            < 0xE000 {
            let lo = units[i + 1];
            assert(rest@[1] == lo);
            let v: u32 = 0x10000 + ((u as u32) - 0xD800) * 0x400 + ((lo as u32) - 0xDC00);
            assert(v == surrogate_pair_value(u, lo));
            assert(is_scalar_value(v));
            let c = char_from_u32(v).unwrap();
            assert(rest@.skip(2) =~= units@.skip(i + 2));
            let ghost before = out@;
            out.push(c);
            proof {
                if let Some(t) = utf16_decoded(units@.skip(i + 2)) {
                    assert(before + (seq![c] + t) =~= out@ + t);
                }
            }
            i += 2;
        } else {
            return None;
        }
    }
    assert(units@.skip(i as int) =~= Seq::<u16>::empty());
    assert(out@ + Seq::<char>::empty() =~= out@);
    Some(string_of(&out))
}

/// The index of the first NUL in `units`, or its length if it holds none.
pub open spec fn nul_position(units: Seq<u16>) -> int
    decreases units.len(),
{
    if units.len() == 0 {
        0
    } else if units[0] == 0 {
        0
    } else {
        1 + nul_position(units.drop_first())
    }
}

/// Where the first NUL of `units` stands (its length when there is none).
pub fn find_nul(units: &[u16]) -> (k: usize)
    ensures
        k as int == nul_position(units@),
        k <= units.len(),
        forall|j: int| 0 <= j < k ==> units@[j] != 0,
        k < units.len() ==> units@[k as int] == 0,
{
    let mut k: usize = 0;
    assert(units@.skip(0) =~= units@);
    while k < units.len() && units[k] != 0
        invariant
            k <= units.len(),
            nul_position(units@) == k + nul_position(units@.skip(k as int)),
            forall|j: int| 0 <= j < k ==> units@[j] != 0,
        decreases units.len() - k,
    {
        assert(units@.skip(k as int).drop_first() =~= units@.skip(k + 1));
        k += 1;
    }
    k
}

/// The text of a NUL-terminated wide string (strictly decoded), read up to
/// its first NUL or to the end of the buffer.
pub fn decode_until_nul(units: &[u16]) -> (r: Option<String>)
    ensures
        r matches Some(s) ==> utf16_decoded(units@.take(nul_position(units@))) == Some(s@),
        r is None <==> utf16_decoded(units@.take(nul_position(units@))) is None,
{
    let k = find_nul(units);
    let head = copy_units(units, 0, k);
    assert(head@ =~= units@.take(k as int));
    decode_utf16(head.as_slice())
}

/// The code units `units[lo..hi]`.
pub fn copy_units(units: &[u16], lo: usize, hi: usize) -> (r: Vec<u16>)
    requires
        lo <= hi <= units.len(),
    ensures
        r@ == units@.subrange(lo as int, hi as int),
{
    let mut r: Vec<u16> = Vec::new();
    let mut i = lo;
    while i < hi
        invariant
            lo <= i <= hi <= units.len(),
            r@ == units@.subrange(lo as int, i as int),
        decreases hi - i,
    {
        r.push(units[i]);
        i += 1;
        assert(r@ =~= units@.subrange(lo as int, i as int));
    }
    r
}

/// The strings of a double-NUL-terminated list (`REG_MULTI_SZ`): each
/// NUL-terminated entry in order, stopping at an empty entry or at the end of
/// the buffer; entries that are not valid UTF-16 are left out, and units after
/// the last NUL are ignored.
pub open spec fn multi_sz_strings(units: Seq<u16>) -> Seq<Seq<char>>
    decreases units.len(),
{
    let k = nul_position(units);
    if k >= units.len() || k == 0 {
        Seq::empty()
    } else {
        proof {
            lemma_nul_position_bound(units);
        }
        let entry = match utf16_decoded(units.take(k)) {
            Some(s) => seq![s],
            None => Seq::empty(),
        };
        entry + multi_sz_strings(units.skip(k + 1))
    }
}

/// `nul_position` is at most the length.
pub proof fn lemma_nul_position_bound(units: Seq<u16>)
    ensures
        0 <= nul_position(units) <= units.len(),
        nul_position(units) < units.len() ==> units[nul_position(units)] == 0,
        forall|j: int| 0 <= j < nul_position(units) ==> units[j] != 0,
    decreases units.len(),
{
    if units.len() > 0 && units[0] != 0 {
        lemma_nul_position_bound(units.drop_first());
        assert forall|j: int| 0 <= j < nul_position(units) implies units[j] != 0 by {
            if j > 0 {
                assert(units[j] == units.drop_first()[j - 1]);
            }
        }
    }
}

/// The entries of a `REG_MULTI_SZ` buffer.
pub fn parse_multi_sz(units: &[u16]) -> (ids: Vec<String>)
    ensures
        ids.deep_view() == multi_sz_strings(units@),
{
    let mut ids: Vec<String> = Vec::new();
    let mut start: usize = 0;
    assert(units@.skip(0) =~= units@);
    assert(ids.deep_view() + multi_sz_strings(units@) =~= multi_sz_strings(units@));
    loop
        invariant
            start <= units.len(),
            multi_sz_strings(units@) == ids.deep_view() + multi_sz_strings(units@.skip(start as int)),
        decreases units.len() - start,
    {
        let rest = copy_units(units, start, units.len());
        assert(rest@ =~= units@.skip(start as int));
        let k = find_nul(rest.as_slice());
        proof {
            lemma_nul_position_bound(rest@);
        }
        if k >= rest.len() || k == 0 {
            assert(multi_sz_strings(rest@) =~= Seq::<Seq<char>>::empty());
            assert(ids.deep_view() + Seq::<Seq<char>>::empty() =~= ids.deep_view());
            return ids;
        }
        let entry = copy_units(rest.as_slice(), 0, k);
        assert(entry@ =~= rest@.take(k as int));
        let ghost before = ids.deep_view();
        match decode_utf16(entry.as_slice()) {
            Some(s) => {
                ids.push(s);
                proof {
                    assert(ids.deep_view() =~= before.push(s@));
                }
            },
            None => {},
        }
        assert(rest@.skip(k + 1) =~= units@.skip(start + k + 1));
        start = start + k + 1;
        proof {
            let e = match utf16_decoded(rest@.take(k as int)) {
                Some(t) => seq![t],
                None => Seq::<Seq<char>>::empty(),
            };
            assert(ids.deep_view() =~= before + e);
            assert(multi_sz_strings(rest@) == e + multi_sz_strings(units@.skip(start as int)));
            assert(before + (e + multi_sz_strings(units@.skip(start as int))) =~= ids.deep_view()
                + multi_sz_strings(units@.skip(start as int)));
        }
    }
}

/// The code units of a little-endian byte buffer (a trailing odd byte is
/// ignored).
pub open spec fn le_units(bytes: Seq<u8>) -> Seq<u16> {
    Seq::new((bytes.len() / 2) as nat, |i: int| (bytes[2 * i] + 256 * bytes[2 * i + 1]) as u16)
}

/// Reinterpret a little-endian byte buffer as UTF-16 code units.
pub fn units_from_le_bytes(bytes: &[u8]) -> (units: Vec<u16>)
    ensures
        units@ == le_units(bytes@),
{
    let n = bytes.len() / 2;
    let mut units: Vec<u16> = Vec::new();
    let mut i: usize = 0;
    while i < n
        invariant
            n == bytes.len() / 2,
            i <= n,
            units@ == le_units(bytes@).take(i as int),
        decreases n - i,
    {
        let lo = bytes[2 * i] as u16;
        let hi = bytes[2 * i + 1] as u16;
        let u: u16 = lo + 256 * hi;
        units.push(u);
        i += 1;
        assert(units@ =~= le_units(bytes@).take(i as int));
    }
    assert(le_units(bytes@).take(n as int) =~= le_units(bytes@));
    units
}

// ---------------------------------------------------------------------------
// Encoding
// ---------------------------------------------------------------------------

/// The UTF-16 code units of one character: itself below `0x10000`, else a
/// surrogate pair.
pub open spec fn char_units(c: char) -> Seq<u16> {
    let v = c as u32;
    if v < 0x10000 {
        seq![v as u16]
    } else {
        seq![(0xD800 + (v - 0x10000) / 0x400) as u16, (0xDC00 + (v - 0x10000) % 0x400) as u16]
    }
}

/// The UTF-16 encoding of `s` (`str::encode_utf16`).
pub open spec fn utf16_encoded(s: Seq<char>) -> Seq<u16>
    decreases s.len(),
{
    if s.len() == 0 {
        Seq::empty()
    } else {
        char_units(s[0]) + utf16_encoded(s.drop_first())
    }
}

/// Decoding an encoding gives the text back.
pub proof fn lemma_decode_encode(s: Seq<char>)
    ensures
        utf16_decoded(utf16_encoded(s)) == Some(s),
    decreases s.len(),
{
    if s.len() > 0 {
        let c = s[0];
        let v = c as u32;
        let rest = s.drop_first();
        let e = utf16_encoded(s);
        lemma_decode_encode(rest);
        vstd::utf8::char_is_scalar(c);
        vstd::utf8::char_u32_cast(c, v);
        assert(v <= 0x10FFFF && !(0xD800 <= v <= 0xDFFF));
        if v < 0x10000 {
            assert(e =~= seq![v as u16] + utf16_encoded(rest));
            assert(e[0] == v as u16);
            assert(e.drop_first() =~= utf16_encoded(rest));
            assert((v as u16) as char == c);
            assert(seq![c] + rest =~= s);
        } else {
            let hi = (0xD800 + (v - 0x10000) / 0x400) as u16;
            let lo = (0xDC00 + (v - 0x10000) % 0x400) as u16;
            assert(e =~= seq![hi, lo] + utf16_encoded(rest));
            assert(e[0] == hi && e[1] == lo);
            assert(is_high_surrogate(hi) && is_low_surrogate(lo));
            assert(surrogate_pair_value(hi, lo) == v);
            assert(e.skip(2) =~= utf16_encoded(rest));
            assert(seq![c] + rest =~= s);
        }
    }
}

/// The UTF-16 encoding of `s`, followed by a NUL (a `PCWSTR` buffer).
pub fn wide_nul(s: &str) -> (w: Vec<u16>)
    ensures
        w@ == utf16_encoded(s@).push(0),
{
    let mut w: Vec<u16> = Vec::new();
    for c in it: s.chars()
        invariant
            it.seq() == s@,
            w@ == utf16_encoded(it.seq().take(it.index() as int)),
    {
        let ghost k = it.index();
        assert(it.seq()[k as int] == c);
        proof {
            lemma_encoded_push(s@.take(k as int), c);
            assert(s@.take(k + 1) =~= s@.take(k as int).push(c));
        }
        let v = c as u32;
        proof {
            vstd::utf8::char_is_scalar(c);
        }
        if v < 0x10000 {
            w.push(v as u16);
        } else {
            let x = v - 0x10000;
            w.push((0xD800 + x / 0x400) as u16);
            w.push((0xDC00 + x % 0x400) as u16);
        }
        assert(w@ =~= utf16_encoded(s@.take(k as int)) + char_units(c));
    }
    assert(s@.take(s@.len() as int) =~= s@);
    w.push(0);
    w
}

/// Encoding one more character appends its units.
pub proof fn lemma_encoded_push(s: Seq<char>, c: char)
    ensures
        utf16_encoded(s.push(c)) == utf16_encoded(s) + char_units(c),
    decreases s.len(),
{
    if s.len() == 0 {
        assert(s.push(c).drop_first() =~= Seq::<char>::empty());
        assert(s.push(c)[0] == c);
        assert(utf16_encoded(Seq::<char>::empty()) =~= Seq::<u16>::empty());
        assert(char_units(c) + Seq::<u16>::empty() =~= char_units(c));
        assert(utf16_encoded(s.push(c)) =~= char_units(c));
        assert(utf16_encoded(s) =~= Seq::<u16>::empty());
        assert(Seq::<u16>::empty() + char_units(c) =~= char_units(c));
    } else {
        assert(s.push(c).drop_first() =~= s.drop_first().push(c));
        lemma_encoded_push(s.drop_first(), c);
        assert(utf16_encoded(s.push(c)) =~= char_units(s[0]) + (utf16_encoded(s.drop_first())
            + char_units(c)));
    }
}

// ---------------------------------------------------------------------------
// Lossy decoding
// ---------------------------------------------------------------------------

/// Lenient UTF-16 decoding (`String::from_utf16_lossy`): each unpaired
/// surrogate becomes U+FFFD.
pub open spec fn utf16_decoded_lossy(units: Seq<u16>) -> Seq<char>
    decreases units.len(),
{
    if units.len() == 0 {
        Seq::empty()
    } else if !is_high_surrogate(units[0]) && !is_low_surrogate(units[0]) {
        seq![units[0] as char] + utf16_decoded_lossy(units.drop_first())
    } else if is_high_surrogate(units[0]) && units.len() >= 2 && is_low_surrogate(units[1]) {
        seq![surrogate_pair_value(units[0], units[1]) as char] + utf16_decoded_lossy(
            units.skip(2),
        )
    } else {
        seq!['\u{FFFD}'] + utf16_decoded_lossy(units.drop_first())
    }
}

/// Lenient UTF-16 decoding of `units`.
pub fn decode_utf16_lossy(units: &[u16]) -> (s: String)
    ensures
        s@ == utf16_decoded_lossy(units@),
{
    let mut out: Vec<char> = Vec::new();
    let mut i: usize = 0;
    assert(units@.skip(0) =~= units@);
    assert(out@ + utf16_decoded_lossy(units@) =~= utf16_decoded_lossy(units@));
    while i < units.len()
        invariant
            i <= units.len(),
            utf16_decoded_lossy(units@) == out@ + utf16_decoded_lossy(units@.skip(i as int)),
        decreases units.len() - i,
    {
        let ghost rest = units@.skip(i as int);
        let u = units[i];
        assert(rest[0] == u);
        let ghost before = out@;
        if u < 0xD800 || u >= 0xE000 {
            let c = char_from_u32(u as u32);
            assert(is_scalar_value(u as u32));
            out.push(c.unwrap());
            assert(rest.drop_first() =~= units@.skip(i + 1));
            i += 1;
        } else if u < 0xDC00 && i + 1 < units.len() && units[i + 1] >= 0xDC00 && units[i + 1]
            < 0xE000 {
            let lo = units[i + 1];
            assert(rest[1] == lo);
            let v: u32 = 0x10000 + ((u as u32) - 0xD800) * 0x400 + ((lo as u32) - 0xDC00);
            assert(v == surrogate_pair_value(u, lo));
            assert(is_scalar_value(v));
            out.push(char_from_u32(v).unwrap());
            assert(rest.skip(2) =~= units@.skip(i + 2));
            i += 2;
        } else {
            out.push('\u{FFFD}');
            assert(rest.drop_first() =~= units@.skip(i + 1));
            i += 1;
        }
        assert(before + (seq![out@.last()] + utf16_decoded_lossy(units@.skip(i as int))) =~= out@
            + utf16_decoded_lossy(units@.skip(i as int)));
    }
    assert(units@.skip(i as int) =~= Seq::<u16>::empty());
    assert(out@ + Seq::<char>::empty() =~= out@);
    string_of(&out)
}

/// The text of a NUL-terminated wide buffer, decoded leniently, up to its
/// first NUL (or the whole buffer without one).
pub fn lossy_until_nul(units: &[u16]) -> (s: String)
    ensures
        s@ == utf16_decoded_lossy(units@.take(nul_position(units@))),
{
    let k = find_nul(units);
    let head = copy_units(units, 0, k);
    assert(head@ =~= units@.take(k as int));
    decode_utf16_lossy(head.as_slice())
}

} // verus!
