//! The Nuphy keyboard's Bluetooth address and connection state.
//!
//! The address is owner-specific, so it is supplied at run time: from the
//! `SWITCHBOARD_NUPHY_BD_ADDR` environment variable, or from a `.env` file
//! next to the executable or in the working directory.

use vstd::prelude::*;
use vstd::string::StringExecFns;
use crate::text::{
    chars_of, extend, extend_str, find, first_occurrence, hex_digit, hex_fixed, hex_min,
    hex_min_chars, is_white_space, lemma_first_occurrence, same_chars, slice_chars, starts_with,
    string_of, trim, trim_start, trimmed,
};

verus! {

broadcast use vstd::string::group_string_axioms;

/// Environment variable (and `.env` key) carrying the keyboard's Bluetooth
/// address. Accepted forms, in any case: `0xAABBCCDDEEFF`, `AABBCCDDEEFF`,
/// `AA:BB:CC:DD:EE:FF`, `AA-BB-CC-DD-EE-FF`.
pub const BD_ADDR_ENV: &'static str = "SWITCHBOARD_NUPHY_BD_ADDR";

/// Window message posted on every connection change (`WM_APP + 1`).
pub const WM_BLE_CONNECTION_CHANGED: u32 = 0x8001;

/// Errors of the BLE monitor.
#[derive(Debug)]
pub enum BleError {
    /// No parseable address was configured; the keyboard then counts as
    /// disconnected for the whole session.
    NotConfigured,
    /// The keyboard was never paired on this machine.
    NotPaired,
    /// A WinRT call failed.
    WinRTFailure { api: &'static str, hr: i32 },
}

/// The text `BleError` displays as.
pub open spec fn ble_error_text(e: BleError) -> Seq<char> {
    match e {
        BleError::NotConfigured => "Nuphy BD_ADDR not configured (set "@ + BD_ADDR_ENV@
            + " env var or add it to .env)"@,
        BleError::NotPaired => "Nuphy not paired on this machine"@,
        BleError::WinRTFailure { api, hr } => api@ + " failed (HRESULT 0x"@ + hex_min(
            hr as u32 as nat,
            false,
        ) + ")"@,
    }
}

impl BleError {
    /// The human-readable text of the error.
    pub fn message(&self) -> (s: String)
        ensures
            s@ == ble_error_text(*self),
    {
        match self {
            BleError::NotConfigured => {
                let mut s = String::from_str("Nuphy BD_ADDR not configured (set ");
                s.append(BD_ADDR_ENV);
                s.append(" env var or add it to .env)");
                s
            },
            BleError::NotPaired => String::from_str("Nuphy not paired on this machine"),
            BleError::WinRTFailure { api, hr } => {
                let mut v = chars_of(api);
                extend_str(&mut v, " failed (HRESULT 0x");
                let digits = hex_min_chars(*hr as u32, false);
                extend(&mut v, &digits);
                extend_str(&mut v, ")");
                string_of(&v)
            },
        }
    }

    /// The error for a failed WinRT call with this HRESULT.
    pub fn from_hresult(hr: i32) -> (e: BleError)
        ensures
            e matches BleError::WinRTFailure { api, hr: h } && api@ == "WinRT call"@ && h == hr,
    {
        BleError::WinRTFailure { api: "WinRT call", hr }
    }

    /// The error for a failed COM initialisation, if `hr` is a failure code.
    pub fn from_co_initialize(hr: i32) -> (e: Option<BleError>)
        ensures
            hr >= 0 ==> e is None,
            hr < 0 ==> (e matches Some(BleError::WinRTFailure { api, hr: h }) && api@
                == "CoInitializeEx"@ && h == hr),
    {
        if hr < 0 {
            Some(BleError::WinRTFailure { api: "CoInitializeEx", hr })
        } else {
            None
        }
    }

    /// The device resolved for the address is paired only if it reports a
    /// non-zero address (an unreadable address counts as zero).
    pub fn check_paired(address: Option<u64>) -> (r: Result<(), BleError>)
        ensures
            r is Ok <==> (address matches Some(a) && a != 0),
            r matches Err(e) ==> e == BleError::NotPaired,
    {
        match address {
            Some(a) => {
                if a != 0 {
                    Ok(())
                } else {
                    Err(BleError::NotPaired)
                }
            },
            None => Err(BleError::NotPaired),
        }
    }
}

/// What the user is told when the monitor could not start: the keyboard
/// then stays enabled for the session.
pub open spec fn start_notice_text(e: BleError) -> Seq<char> {
    match e {
        BleError::NotConfigured => "Nuphy BD_ADDR not configured — internal keyboard will stay enabled. See README."@,
        BleError::NotPaired => "Nuphy not paired — internal keyboard will stay enabled this session."@,
        BleError::WinRTFailure { .. } => "BLE initialization failed — see log."@,
    }
}

/// The notice for a monitor that failed to start with `e`.
pub fn start_notice(e: &BleError) -> (s: &'static str)
    ensures
        s@ == start_notice_text(*e),
{
    match e {
        BleError::NotConfigured => "Nuphy BD_ADDR not configured — internal keyboard will stay enabled. See README.",
        BleError::NotPaired => "Nuphy not paired — internal keyboard will stay enabled this session.",
        BleError::WinRTFailure { .. } => "BLE initialization failed — see log.",
    }
}

// ---------------------------------------------------------------------------
// Connection state
// ---------------------------------------------------------------------------

/// `BluetoothConnectionStatus` as the monitor distinguishes it.
#[derive(Debug, Clone, Copy, PartialEq, Eq, Structural)]
pub enum LinkStatus {
    Connected,
    Disconnected,
    Other,
}

/// The status as logged.
pub fn status_str(s: LinkStatus) -> (r: &'static str)
    ensures
        r@ == (match s {
            LinkStatus::Connected => "Connected"@,
            LinkStatus::Disconnected => "Disconnected"@,
            LinkStatus::Other => "Unknown"@,
        }),
{
    match s {
        LinkStatus::Connected => "Connected",
        LinkStatus::Disconnected => "Disconnected",
        LinkStatus::Other => "Unknown",
    }
}

/// A fresh status read counts as connected only when it succeeded and said
/// `Connected`; a failed read (its HRESULT) counts as disconnected.
pub fn is_connected_status(status: Result<LinkStatus, i32>) -> (r: bool)
    ensures
        r == (status == Ok::<LinkStatus, i32>(LinkStatus::Connected)),
{
    match status {
        Ok(LinkStatus::Connected) => true,
        _ => false,
    }
}

// ---------------------------------------------------------------------------
// Parsing the address
// ---------------------------------------------------------------------------

/// `char::is_ascii_hexdigit`.
pub open spec fn is_hex_digit(c: char) -> bool {
    ('0' <= c <= '9') || ('a' <= c <= 'f') || ('A' <= c <= 'F')
}

/// The value of a hexadecimal digit.
pub open spec fn hex_digit_value(c: char) -> int {
    if '0' <= c <= '9' {
        c as int - '0' as int
    } else if 'a' <= c <= 'f' {
        c as int - 'a' as int + 10
    } else {
        c as int - 'A' as int + 10
    }
}

/// The value of a string of hexadecimal digits.
pub open spec fn hex_value(s: Seq<char>) -> int
    decreases s.len(),
{
    if s.len() == 0 {
        0
    } else {
        hex_value(s.drop_last()) * 16 + hex_digit_value(s.last())
    }
}

/// `16^n`.
pub open spec fn pow16(n: nat) -> int
    decreases n,
{
    if n == 0 {
        1
    } else {
        16 * pow16((n - 1) as nat)
    }
}

/// `s` without a leading `0x` or `0X`.
pub open spec fn without_hex_prefix(s: Seq<char>) -> Seq<char> {
    if seq!['0', 'x'].is_prefix_of(s) || seq!['0', 'X'].is_prefix_of(s) {
        s.skip(2)
    } else {
        s
    }
}

/// `t` is twelve hexadecimal digits (`AABBCCDDEEFF`).
pub open spec fn plain_form(t: Seq<char>) -> bool {
    t.len() == 12 && forall|i: int| 0 <= i < 12 ==> is_hex_digit(#[trigger] t[i])
}

/// `t` is six pairs of hexadecimal digits joined by `sep`
/// (`AA:BB:CC:DD:EE:FF` for `:`).
pub open spec fn separated_form(t: Seq<char>, sep: char) -> bool {
    t.len() == 17 && forall|i: int|
        0 <= i < 17 ==> if i % 3 == 2 {
            #[trigger] t[i] == sep
        } else {
            is_hex_digit(t[i])
        }
}

/// The twelve digits of a separated form: the two of each pair, in order.
pub open spec fn pair_digits(t: Seq<char>) -> Seq<char> {
    Seq::new(12, |j: int| t[j + j / 2])
}

/// The digits of an address written in one of the accepted forms: twelve
/// hexadecimal digits, or six pairs joined all by `:` or all by `-`.
pub open spec fn address_digits(t: Seq<char>) -> Option<Seq<char>> {
    if plain_form(t) {
        Some(t)
    } else if separated_form(t, ':') || separated_form(t, '-') {
        Some(pair_digits(t))
    } else {
        None
    }
}

/// The Bluetooth address `s` spells: after trimming and one optional
/// `0x`/`0X` prefix, twelve hexadecimal digits or six pairs joined all by
/// `:` or all by `-`, not all zero (the all-zero address is the wildcard).
/// Anything else is malformed.
pub open spec fn bd_addr_of(s: Seq<char>) -> Option<u64> {
    match address_digits(without_hex_prefix(trim(s))) {
        Some(d) => if hex_value(d) != 0 {
            Some(hex_value(d) as u64)
        } else {
            None
        },
        None => None,
    }
}

/// Where the `j`-th digit of a separated form stands: never on a separator.
pub proof fn lemma_pair_position(j: int)
    requires
        0 <= j < 12,
    ensures
        0 <= j + j / 2 < 17,
        (j + j / 2) % 3 != 2,
{
    assert(j == 0 || j == 1 || j == 2 || j == 3 || j == 4 || j == 5 || j == 6 || j == 7 || j
        == 8 || j == 9 || j == 10 || j == 11);
}

/// A value of `n` hexadecimal digits is below `16^n`.
pub proof fn lemma_hex_value_bound(s: Seq<char>)
    requires
        forall|i: int| 0 <= i < s.len() ==> is_hex_digit(#[trigger] s[i]),
    ensures
        0 <= hex_value(s) < pow16(s.len()),
    decreases s.len(),
{
    if s.len() > 0 {
        assert forall|i: int| 0 <= i < s.drop_last().len() implies is_hex_digit(
            #[trigger] s.drop_last()[i],
        ) by {
            assert(s.drop_last()[i] == s[i]);
        }
        lemma_hex_value_bound(s.drop_last());
        assert(is_hex_digit(s[s.len() - 1]));
    }
}

/// `16^n` grows with `n`.
pub proof fn lemma_pow16_monotonic(i: nat, j: nat)
    requires
        i <= j,
    ensures
        1 <= pow16(i) <= pow16(j),
    decreases j,
{
    if i < j {
        lemma_pow16_monotonic(i, (j - 1) as nat);
    } else if j > 0 {
        lemma_pow16_monotonic(0, (j - 1) as nat);
    }
}

/// Whether `c` is an ASCII hexadecimal digit.
pub fn is_hex_digit_char(c: char) -> (r: bool)
    ensures
        r == is_hex_digit(c),
{
    ('0' <= c && c <= '9') || ('a' <= c && c <= 'f') || ('A' <= c && c <= 'F')
}

/// The value of a hexadecimal digit.
fn hex_digit_char_value(c: char) -> (v: u64)
    requires
        is_hex_digit(c),
    ensures
        v == hex_digit_value(c),
        v < 16,
{
    let u = c as u32;
    if '0' <= c && c <= '9' {
        (u - 48) as u64
    } else if 'a' <= c && c <= 'f' {
        (u - 87) as u64
    } else {
        (u - 55) as u64
    }
}

/// The digits of `t` if it is written in an accepted form.
fn address_digits_of(t: &Vec<char>) -> (r: Option<Vec<char>>)
    ensures
        match r {
            Some(d) => address_digits(t@) == Some(d@) && d.len() == 12,
            None => address_digits(t@) is None,
        },
{
    if t.len() == 12 {
        let mut k: usize = 0;
        while k < 12
            invariant
                t.len() == 12,
                k <= 12,
                forall|j: int| 0 <= j < k ==> is_hex_digit(#[trigger] t@[j]),
            decreases 12 - k,
        {
            if !is_hex_digit_char(t[k]) {
                assert(!is_hex_digit(t@[k as int]));
                return None;
            }
            k += 1;
        }
        return Some(slice_chars(t, 0, 12));
    }
    if t.len() != 17 {
        return None;
    }
    let sep = t[2];
    if sep != ':' && sep != '-' {
        assert(!separated_form(t@, ':') && !separated_form(t@, '-')) by {
            assert(2int % 3 == 2);
        }
        return None;
    }
    let mut i: usize = 0;
    while i < 17
        invariant
            t.len() == 17,
            i <= 17,
            sep == t@[2],
            sep == ':' || sep == '-',
            forall|j: int|
                0 <= j < i ==> if j % 3 == 2 {
                    #[trigger] t@[j] == sep
                } else {
                    is_hex_digit(t@[j])
                },
        decreases 17 - i,
    {
        if i % 3 == 2 {
            if t[i] != sep {
                assert(!separated_form(t@, ':') && !separated_form(t@, '-')) by {
                    assert(2int % 3 == 2);
                }
                return None;
            }
        } else if !is_hex_digit_char(t[i]) {
            assert(!separated_form(t@, ':') && !separated_form(t@, '-')) by {
                assert(!is_hex_digit(t@[i as int]));
            }
            return None;
        }
        i += 1;
    }
    assert(separated_form(t@, sep));
    let mut d: Vec<char> = Vec::new();
    let mut j: usize = 0;
    while j < 12
        invariant
            t.len() == 17,
            j <= 12,
            d.len() == j,
            forall|m: int| 0 <= m < j ==> #[trigger] d@[m] == t@[m + m / 2],
        decreases 12 - j,
    {
        proof {
            lemma_pair_position(j as int);
        }
        d.push(t[j + j / 2]);
        j += 1;
    }
    assert(d@ =~= pair_digits(t@));
    Some(d)
}

/// Parse a Bluetooth MAC into its 48-bit value. Accepts `0xAABBCCDDEEFF`,
/// `AABBCCDDEEFF`, `AA:BB:CC:DD:EE:FF` and `AA-BB-CC-DD-EE-FF`, in any case,
/// with surrounding whitespace; returns `None` for anything else and for the
/// all-zero address.
pub fn parse_bd_addr(s: &str) -> (r: Option<u64>)
    ensures
        r == bd_addr_of(s@),
{
    let all = chars_of(s);
    bd_addr_from_chars(&all)
}

/// `parse_bd_addr` over characters.
fn bd_addr_from_chars(all: &Vec<char>) -> (r: Option<u64>)
    ensures
        r == bd_addr_of(all@),
{
    let t = trimmed(all);
    let lower = vec!['0', 'x'];
    let upper = vec!['0', 'X'];
    let stripped = if starts_with(&t, &lower) || starts_with(&t, &upper) {
        slice_chars(&t, 2, t.len())
    } else {
        slice_chars(&t, 0, t.len())
    };
    assert(stripped@ =~= without_hex_prefix(trim(all@)));
    let digits = match address_digits_of(&stripped) {
        Some(d) => d,
        None => {
            return None;
        },
    };
    assert(forall|j: int| 0 <= j < 12 ==> is_hex_digit(#[trigger] digits@[j])) by {
        if plain_form(stripped@) {
        } else {
            assert forall|j: int| 0 <= j < 12 implies is_hex_digit(#[trigger] digits@[j]) by {
                lemma_pair_position(j);
                if separated_form(stripped@, ':') {
                    assert(stripped@[j + j / 2] == digits@[j]);
                } else {
                    assert(stripped@[j + j / 2] == digits@[j]);
                }
            }
        }
    }
    let mut v: u64 = 0;
    let mut n: usize = 0;
    proof {
        lemma_pow16_monotonic(0, 12);
        reveal_with_fuel(pow16, 13);
    }
    while n < 12
        invariant
            digits.len() == 12,
            n <= 12,
            forall|j: int| 0 <= j < 12 ==> is_hex_digit(#[trigger] digits@[j]),
            v == hex_value(digits@.take(n as int)),
            pow16(12) == 0x1_0000_0000_0000,
        decreases 12 - n,
    {
        proof {
            let pre = digits@.take(n as int);
            assert forall|j: int| 0 <= j < pre.len() implies is_hex_digit(#[trigger] pre[j]) by {
                assert(pre[j] == digits@[j]);
            }
            lemma_hex_value_bound(pre);
            lemma_pow16_monotonic(n as nat, 12);
            assert(digits@.take(n + 1).drop_last() =~= pre);
        }
        let d = hex_digit_char_value(digits[n]);
        v = v * 16 + d;
        n += 1;
    }
    assert(digits@.take(12) =~= digits@);
    assert(address_digits(without_hex_prefix(trim(all@))) == Some(digits@));
    if v == 0 {
        None
    } else {
        Some(v)
    }
}

// ---------------------------------------------------------------------------
// `.env` files
// ---------------------------------------------------------------------------

/// The lines of `s`: the pieces between its `\n` characters, the last one
/// included even when empty.
pub open spec fn lines_of(s: Seq<char>) -> Seq<Seq<char>>
    decreases s.len(),
{
    if s.len() == 0 {
        seq![Seq::<char>::empty()]
    } else {
        let init = lines_of(s.drop_last());
        if s.last() == '\n' {
            init.push(Seq::<char>::empty())
        } else {
            init.update(init.len() - 1, init.last().push(s.last()))
        }
    }
}

/// What one line of a `.env` file says of the address.
#[derive(Debug, Clone, Copy, PartialEq, Eq, Structural)]
pub enum EnvLine {
    /// Blank, a comment, another key, or a value that is no address.
    Skip,
    /// A line without `=`: the file is not read further.
    Malformed,
    /// The address key with a parseable address.
    Address(u64),
}

/// `v` without one pair of matching surrounding quotes (`"` or `'`).
pub open spec fn unquoted(v: Seq<char>) -> Seq<char> {
    if v.len() >= 2 && ((v[0] == '"' && v.last() == '"') || (v[0] == '\'' && v.last() == '\'')) {
        v.subrange(1, v.len() - 1)
    } else {
        v
    }
}

/// The `export ` prefix a `.env` line may carry.
pub open spec fn export_prefix() -> Seq<char> {
    seq!['e', 'x', 'p', 'o', 'r', 't', ' ']
}

/// What the line `raw` says: after trimming, blank lines and `#` comments
/// are skipped; an `export ` prefix is dropped; the key is what stands
/// before the first `=` and the value what follows it, each trimmed; the
/// value, without surrounding quotes, is parsed when the key is
/// `BD_ADDR_ENV`.
pub open spec fn env_line_of(raw: Seq<char>) -> EnvLine {
    let line = trim(raw);
    if line.len() == 0 || line[0] == '#' {
        EnvLine::Skip
    } else {
        let l = if export_prefix().is_prefix_of(line) {
            line.skip(7)
        } else {
            line
        };
        match first_occurrence(l, seq!['=']) {
            None => EnvLine::Malformed,
            Some(k) => if trim(l.take(k)) != BD_ADDR_ENV@ {
                EnvLine::Skip
            } else {
                match bd_addr_of(unquoted(trim(l.skip(k + 1)))) {
                    Some(a) => EnvLine::Address(a),
                    None => EnvLine::Skip,
                }
            },
        }
    }
}

/// The address that the lines give: that of the first line with one,
/// unless a line without `=` comes before it.
pub open spec fn env_addr_in_lines(lines: Seq<Seq<char>>) -> Option<u64>
    decreases lines.len(),
{
    if lines.len() == 0 {
        None
    } else {
        match env_line_of(lines[0]) {
            EnvLine::Address(a) => Some(a),
            EnvLine::Malformed => None,
            EnvLine::Skip => env_addr_in_lines(lines.drop_first()),
        }
    }
}

/// The address that the text of a `.env` file gives.
pub open spec fn env_file_addr_of(contents: Seq<char>) -> Option<u64> {
    env_addr_in_lines(lines_of(contents))
}

/// Lines that are all skipped change nothing in front of others.
pub proof fn lemma_skipped_lines(done: Seq<Seq<char>>, rest: Seq<Seq<char>>)
    requires
        forall|j: int| 0 <= j < done.len() ==> env_line_of(#[trigger] done[j]) == EnvLine::Skip,
    ensures
        env_addr_in_lines(done + rest) == env_addr_in_lines(rest),
    decreases done.len(),
{
    if done.len() > 0 {
        assert((done + rest)[0] == done[0]);
        assert((done + rest).drop_first() =~= done.drop_first() + rest);
        assert forall|j: int| 0 <= j < done.drop_first().len() implies env_line_of(
            #[trigger] done.drop_first()[j],
        ) == EnvLine::Skip by {
            assert(done.drop_first()[j] == done[j + 1]);
        }
        lemma_skipped_lines(done.drop_first(), rest);
    } else {
        assert(done + rest =~= rest);
    }
}

/// A text has at least one line.
pub proof fn lemma_lines_nonempty(s: Seq<char>)
    ensures
        lines_of(s).len() >= 1,
    decreases s.len(),
{
    if s.len() > 0 {
        lemma_lines_nonempty(s.drop_last());
    }
}

/// The complete lines of a prefix stay lines of every longer prefix.
pub proof fn lemma_lines_prefix(s: Seq<char>, i: int, j: int)
    requires
        0 <= i <= j <= s.len(),
    ensures
        lines_of(s.take(i)).len() <= lines_of(s.take(j)).len(),
        lines_of(s.take(j)).take(lines_of(s.take(i)).len() - 1) == lines_of(s.take(i)).drop_last(),
    decreases j - i,
{
    lemma_lines_nonempty(s.take(i));
    if i < j {
        lemma_lines_prefix(s, i, j - 1);
        lemma_lines_nonempty(s.take(j - 1));
        assert(s.take(j).drop_last() =~= s.take(j - 1));
        let a = lines_of(s.take(i));
        let b = lines_of(s.take(j - 1));
        let c = lines_of(s.take(j));
        assert(c.take(a.len() - 1) =~= b.take(a.len() - 1));
    } else {
        assert(lines_of(s.take(j)).take(lines_of(s.take(i)).len() - 1) =~= lines_of(
            s.take(i),
        ).drop_last());
    }
}

/// What one line of a `.env` file says of the address.
fn env_line(raw: &Vec<char>) -> (r: EnvLine)
    ensures
        r == env_line_of(raw@),
{
    let line = trimmed(raw);
    if line.len() == 0 || line[0] == '#' {
        return EnvLine::Skip;
    }
    let export = vec!['e', 'x', 'p', 'o', 'r', 't', ' '];
    assert(export@ =~= export_prefix());
    let l = if starts_with(&line, &export) {
        slice_chars(&line, 7, line.len())
    } else {
        line
    };
    assert(l@ =~= (if export_prefix().is_prefix_of(trim(raw@)) {
        trim(raw@).skip(7)
    } else {
        trim(raw@)
    }));
    let eq = vec!['='];
    assert(eq@ =~= seq!['=']);
    proof {
        lemma_first_occurrence(l@, eq@);
    }
    match find(&l, &eq) {
        None => EnvLine::Malformed,
        Some(k) => {
            let key = trimmed(&slice_chars(&l, 0, k));
            let value = trimmed(&slice_chars(&l, k + 1, l.len()));
            assert(l@.subrange(0, k as int) =~= l@.take(k as int));
            assert(l@.subrange(k + 1, l.len() as int) =~= l@.skip(k + 1));
            let name = chars_of(BD_ADDR_ENV);
            if !same_chars(&key, &name) {
                return EnvLine::Skip;
            }
            let n = value.len();
            let v = if n >= 2 && ((value[0] == '"' && value[n - 1] == '"') || (value[0] == '\''
                && value[n - 1] == '\'')) {
                slice_chars(&value, 1, n - 1)
            } else {
                value
            };
            assert(v@ =~= unquoted(trim(l@.skip(k + 1))));
            match bd_addr_from_chars(&v) {
                Some(a) => EnvLine::Address(a),
                None => EnvLine::Skip,
            }
        },
    }
}

/// The keyboard's address as the text of a `.env` file gives it: the line
/// `SWITCHBOARD_NUPHY_BD_ADDR=<address>` (optionally after `export `, the
/// value optionally quoted), comments and other keys skipped. Reading stops
/// with `None` at the first non-comment line without `=`.
pub fn env_file_addr(contents: &str) -> (r: Option<u64>)
    ensures
        r == env_file_addr_of(contents@),
{
    let all = chars_of(contents);
    let mut cur: Vec<char> = Vec::new();
    let ghost mut done: Seq<Seq<char>> = Seq::empty();
    let mut i: usize = 0;
    assert(all@.take(0) =~= Seq::<char>::empty());
    while i < all.len()
        invariant
            i <= all.len(),
            all@ == contents@,
            lines_of(all@.take(i as int)) == done.push(cur@),
            forall|j: int| 0 <= j < done.len() ==> env_line_of(#[trigger] done[j]) == EnvLine::Skip,
        decreases all.len() - i,
    {
        let c = all[i];
        assert(all@.take(i + 1).drop_last() =~= all@.take(i as int));
        if c == '\n' {
            let o = env_line(&cur);
            proof {
                lemma_lines_prefix(all@, i + 1, all.len() as int);
                assert(all@.take(all.len() as int) =~= all@);
                let whole = lines_of(all@);
                let p = done.push(cur@);
                assert(all@.take(i + 1).last() == c);
                assert(lines_of(all@.take(i + 1)) == p.push(Seq::<char>::empty()));
                assert(p.push(Seq::<char>::empty()).drop_last() =~= p);
                assert(lines_of(all@.take(all.len() as int)) == whole);
                assert(whole.len() >= p.len() + 1);
                assert(whole.take(p.len() as int) == p);
                let rest = whole.skip(p.len() as int);
                assert(whole =~= whole.take(p.len() as int) + rest);
                assert(p =~= done + seq![cur@]);
                assert(whole =~= done + (seq![cur@] + rest));
                lemma_skipped_lines(done, seq![cur@] + whole.skip(p.len() as int));
                assert((seq![cur@] + whole.skip(p.len() as int))[0] == cur@);
            }
            match o {
                EnvLine::Address(a) => {
                    return Some(a);
                },
                EnvLine::Malformed => {
                    return None;
                },
                EnvLine::Skip => {},
            }
            proof {
                done = done.push(cur@);
            }
            cur = Vec::new();
            assert(lines_of(all@.take(i + 1)) =~= done.push(cur@));
        } else {
            cur.push(c);
            assert(lines_of(all@.take(i + 1)) =~= done.push(cur@));
        }
        i += 1;
    }
    assert(all@.take(all.len() as int) =~= all@);
    proof {
        lemma_skipped_lines(done, seq![cur@]);
        assert(done + seq![cur@] =~= done.push(cur@));
        assert(lines_of(contents@) == done + seq![cur@]);
        assert(seq![cur@][0] == cur@);
        assert(seq![cur@].drop_first() =~= Seq::<Seq<char>>::empty());
        assert(env_addr_in_lines(Seq::<Seq<char>>::empty()) is None);
    }
    match env_line(&cur) {
        EnvLine::Address(a) => Some(a),
        _ => None,
    }
}

/// The address a source gives, if it is there and gives one.
pub open spec fn addr_from(source: Option<Seq<char>>, parse: spec_fn(Seq<char>) -> Option<u64>) -> Option<u64> {
    match source {
        Some(t) => parse(t),
        None => None,
    }
}

/// The configured address: the environment variable's value when it parses,
/// else the `.env` file next to the executable, else the `.env` file in the
/// working directory. Each source is `None` when it is absent or could not
/// be read.
pub open spec fn configured_addr(
    env_value: Option<Seq<char>>,
    exe_env_file: Option<Seq<char>>,
    cwd_env_file: Option<Seq<char>>,
) -> Option<u64> {
    let from_env = addr_from(env_value, |t: Seq<char>| bd_addr_of(t));
    let from_exe = addr_from(exe_env_file, |t: Seq<char>| env_file_addr_of(t));
    if from_env is Some {
        from_env
    } else if from_exe is Some {
        from_exe
    } else {
        addr_from(cwd_env_file, |t: Seq<char>| env_file_addr_of(t))
    }
}

/// The view of an optional text.
pub open spec fn text_of(s: Option<&str>) -> Option<Seq<char>> {
    match s {
        Some(t) => Some(t@),
        None => None,
    }
}

/// The keyboard's configured address, from the environment variable and the
/// two `.env` files in order of precedence; `None` means not configured.
pub fn configured_bd_addr(
    env_value: Option<&str>,
    exe_env_file: Option<&str>,
    cwd_env_file: Option<&str>,
) -> (r: Option<u64>)
    ensures
        r == configured_addr(text_of(env_value), text_of(exe_env_file), text_of(cwd_env_file)),
{
    if let Some(v) = env_value {
        if let Some(a) = parse_bd_addr(v) {
            return Some(a);
        }
    }
    if let Some(f) = exe_env_file {
        if let Some(a) = env_file_addr(f) {
            return Some(a);
        }
    }
    match cwd_env_file {
        Some(f) => env_file_addr(f),
        None => None,
    }
}

// ---------------------------------------------------------------------------
// Writing an address back
// ---------------------------------------------------------------------------

/// A hexadecimal digit as `hex_digit` writes it is one `is_hex_digit`
/// accepts, and has its value.
pub proof fn lemma_hex_digit_value(d: int, upper: bool)
    requires
        0 <= d < 16,
    ensures
        is_hex_digit(hex_digit(d, upper)),
        hex_digit_value(hex_digit(d, upper)) == d,
        hex_digit(d, upper) != ':' && hex_digit(d, upper) != '-' && hex_digit(d, upper) != 'x'
            && hex_digit(d, upper) != 'X',
        !is_white_space(hex_digit(d, upper)),
{
}

/// The digits `hex_fixed` writes are hexadecimal digits, and they read back
/// as the value modulo `16^width`.
pub proof fn lemma_hex_fixed_value(x: nat, width: nat, upper: bool)
    ensures
        hex_fixed(x, width, upper).len() == width,
        forall|i: int|
            0 <= i < width ==> is_hex_digit(#[trigger] hex_fixed(x, width, upper)[i])
                && hex_fixed(x, width, upper)[i] != ':' && hex_fixed(x, width, upper)[i] != '-'
                && hex_fixed(x, width, upper)[i] != 'x' && hex_fixed(x, width, upper)[i] != 'X'
                && !is_white_space(hex_fixed(x, width, upper)[i]),
        hex_value(hex_fixed(x, width, upper)) == (x as int) % pow16(width),
    decreases width,
{
    if width > 0 {
        let w = (width - 1) as nat;
        let init = hex_fixed(x / 16, w, upper);
        let s = hex_fixed(x, width, upper);
        lemma_hex_fixed_value(x / 16, w, upper);
        lemma_hex_digit_value((x % 16) as int, upper);
        assert(s == init.push(hex_digit((x % 16) as int, upper)));
        assert(s.drop_last() =~= init);
        assert forall|i: int| 0 <= i < width implies is_hex_digit(#[trigger] s[i]) && s[i] != ':'
            && s[i] != '-' && s[i] != 'x' && s[i] != 'X' && !is_white_space(s[i]) by {
            if i < w {
                assert(s[i] == init[i]);
            }
        }
        lemma_pow16_monotonic(0, w);
        vstd::arithmetic::div_mod::lemma_breakdown(x as int, 16, pow16(w));
        assert(pow16(width) == 16 * pow16(w));
    } else {
        assert(x % 1 == 0);
    }
}

/// Every non-zero 48-bit address, written as twelve hexadecimal digits in
/// either case, parses back to itself.
pub proof fn lemma_bd_addr_roundtrip(a: u64, upper: bool)
    requires
        0 < a < 0x1_0000_0000_0000,
    ensures
        bd_addr_of(hex_fixed(a as nat, 12, upper)) == Some(a),
{
    let d = hex_fixed(a as nat, 12, upper);
    lemma_hex_fixed_value(a as nat, 12, upper);
    reveal_with_fuel(pow16, 13);
    assert(pow16(12) == 0x1_0000_0000_0000);
    assert(d[0] == d[0]);
    assert(d.last() == d[11]);
    assert(trim_start(d) == d);
    assert(trim(d) == d);
    assert(d[1] != 'x' && d[1] != 'X');
    assert(!seq!['0', 'x'].is_prefix_of(d)) by {
        if seq!['0', 'x'].is_prefix_of(d) {
            assert(d.subrange(0, 2)[1] == d[1]);
        }
    }
    assert(!seq!['0', 'X'].is_prefix_of(d)) by {
        if seq!['0', 'X'].is_prefix_of(d) {
            assert(d.subrange(0, 2)[1] == d[1]);
        }
    }
    assert(without_hex_prefix(d) == d);
    assert(plain_form(d));
    assert(hex_value(d) == a);
}

// ---------------------------------------------------------------------------
// Line endings
// ---------------------------------------------------------------------------

/// Lines the `.env` reading cannot tell apart give the same address.
pub proof fn lemma_env_lines_alike(a: Seq<Seq<char>>, b: Seq<Seq<char>>)
    requires
        a.len() == b.len(),
        forall|i: int| 0 <= i < a.len() ==> env_line_of(#[trigger] a[i]) == env_line_of(b[i]),
    ensures
        env_addr_in_lines(a) == env_addr_in_lines(b),
    decreases a.len(),
{
    if a.len() > 0 {
        assert(env_line_of(a[0]) == env_line_of(b[0]));
        assert forall|i: int| 0 <= i < a.drop_first().len() implies env_line_of(
            #[trigger] a.drop_first()[i],
        ) == env_line_of(b.drop_first()[i]) by {
            assert(a.drop_first()[i] == a[i + 1]);
            assert(b.drop_first()[i] == b[i + 1]);
        }
        lemma_env_lines_alike(a.drop_first(), b.drop_first());
    }
}

/// A `.env` file saved with Windows line endings gives the same address as
/// with Unix ones: ending any text with `\r\n` instead of `\n` changes
/// nothing (the carriage return is trimmed away with the line).
pub proof fn lemma_crlf_same_as_lf(s: Seq<char>)
    ensures
        env_file_addr_of(s.push('\r').push('\n')) == env_file_addr_of(s.push('\n')),
{
    lemma_lines_nonempty(s);
    let l = lines_of(s);
    let n = l.len() - 1;
    let cr = s.push('\r');
    assert(cr.drop_last() =~= s);
    assert(cr.last() == '\r');
    assert(lines_of(cr) == l.update(n, l.last().push('\r')));
    assert(s.push('\r').push('\n').drop_last() =~= cr);
    assert(s.push('\n').drop_last() =~= s);
    let a = l.update(n, l.last().push('\r')).push(Seq::<char>::empty());
    let b = l.push(Seq::<char>::empty());
    assert(lines_of(s.push('\r').push('\n')) == a);
    assert(lines_of(s.push('\n')) == b);
    assert forall|i: int| 0 <= i < a.len() implies env_line_of(#[trigger] a[i]) == env_line_of(
        b[i],
    ) by {
        if i == n {
            crate::text::lemma_ascii_white_space();
            crate::text::lemma_trim_push_white_space(l.last(), '\r');
            assert(a[i] == l.last().push('\r'));
            assert(b[i] == l.last());
        }
    }
    lemma_env_lines_alike(a, b);
}

} // verus!
