//! Voice gateway payloads, and the framing of their JSON text.
//!
//! A payload travels as `{"op":<opcode>,"d":<data>}`. Its opcode is read by a
//! textual scan, before the data is parsed with the schema of that opcode;
//! the data's JSON text itself is made and read by the caller.

use vstd::prelude::*;
use crate::voice::crypto;
use vstd::utf8::encode_utf8;
use vstd::string::StringSliceAdditionalSpecFns;

verus! {

/// Voice gateway opcodes.
#[derive(Clone, Copy, Debug, PartialEq, Eq, Structural)]
pub enum OpCode {
    Identify,
    SelectProtocol,
    Ready,
    Heartbeat,
    SessionDescription,
    Speaking,
    HeartbeatAck,
    Resume,
    Hello,
    Resumed,
    ClientConnect,
    ClientDisconnect,
}

/// The number that stands for an opcode on the wire.
pub open spec fn opcode_value(op: OpCode) -> u8 {
    match op {
        OpCode::Identify => 0,
        OpCode::SelectProtocol => 1,
        OpCode::Ready => 2,
        OpCode::Heartbeat => 3,
        OpCode::SessionDescription => 4,
        OpCode::Speaking => 5,
        OpCode::HeartbeatAck => 6,
        OpCode::Resume => 7,
        OpCode::Hello => 8,
        OpCode::Resumed => 9,
        OpCode::ClientConnect => 12,
        OpCode::ClientDisconnect => 13,
    }
}

impl OpCode {
    /// The number that stands for the opcode on the wire.
    pub fn code(&self) -> (r: u8)
        ensures
            r == opcode_value(*self),
    {
        match self {
            OpCode::Identify => 0,
            OpCode::SelectProtocol => 1,
            OpCode::Ready => 2,
            OpCode::Heartbeat => 3,
            OpCode::SessionDescription => 4,
            OpCode::Speaking => 5,
            OpCode::HeartbeatAck => 6,
            OpCode::Resume => 7,
            OpCode::Hello => 8,
            OpCode::Resumed => 9,
            OpCode::ClientConnect => 12,
            OpCode::ClientDisconnect => 13,
        }
    }

    /// The opcode a number stands for, if any.
    pub fn from_code(code: u8) -> (r: Option<OpCode>)
        ensures
            r matches Some(op) ==> opcode_value(op) == code,
            r is None ==> forall|op: OpCode| opcode_value(op) != code,
    {
        match code {
            0 => Some(OpCode::Identify),
            1 => Some(OpCode::SelectProtocol),
            2 => Some(OpCode::Ready),
            3 => Some(OpCode::Heartbeat),
            4 => Some(OpCode::SessionDescription),
            5 => Some(OpCode::Speaking),
            6 => Some(OpCode::HeartbeatAck),
            7 => Some(OpCode::Resume),
            8 => Some(OpCode::Hello),
            9 => Some(OpCode::Resumed),
            12 => Some(OpCode::ClientConnect),
            13 => Some(OpCode::ClientDisconnect),
            _ => {
                assert forall|op: OpCode| opcode_value(op) != code by {
                    match op {
                        OpCode::Identify => {},
                        OpCode::SelectProtocol => {},
                        OpCode::Ready => {},
                        OpCode::Heartbeat => {},
                        OpCode::SessionDescription => {},
                        OpCode::Speaking => {},
                        OpCode::HeartbeatAck => {},
                        OpCode::Resume => {},
                        OpCode::Hello => {},
                        OpCode::Resumed => {},
                        OpCode::ClientConnect => {},
                        OpCode::ClientDisconnect => {},
                    }
                }
                None
            },
        }
    }
}

/// Each opcode's number reads back as that opcode, and no two opcodes share
/// a number.
pub proof fn lemma_opcode_value_injective(a: OpCode, b: OpCode)
    ensures
        opcode_value(a) == opcode_value(b) ==> a == b,
{
}

/// Voice encryption scheme, as named on the wire.
#[derive(Clone, Debug)]
pub enum EncryptionMode {
    /// The nonce is the RTP header.
    Normal,
    /// The nonce is 24 random bytes appended to the payload.
    Suffix,
    /// The nonce is a 4-byte counter appended to the payload.
    Lite,
    /// A mode the server offers that this library does not support.
    Other(String),
}

/// The wire name of a mode.
pub open spec fn mode_name(m: EncryptionMode) -> Seq<char> {
    match m {
        EncryptionMode::Normal => "xsalsa20_poly1305"@,
        EncryptionMode::Suffix => "xsalsa20_poly1305_suffix"@,
        EncryptionMode::Lite => "xsalsa20_poly1305_lite"@,
        EncryptionMode::Other(s) => s@,
    }
}

/// The name is one of the supported modes' names.
pub open spec fn is_supported_name(name: Seq<char>) -> bool {
    ||| name == "xsalsa20_poly1305"@
    ||| name == "xsalsa20_poly1305_suffix"@
    ||| name == "xsalsa20_poly1305_lite"@
}

/// The encryptor's mode for a supported wire mode.
pub open spec fn supported_mode(m: EncryptionMode) -> Option<crypto::EncryptionMode> {
    match m {
        EncryptionMode::Normal => Some(crypto::EncryptionMode::Normal),
        EncryptionMode::Suffix => Some(crypto::EncryptionMode::Suffix),
        EncryptionMode::Lite => Some(crypto::EncryptionMode::Lite),
        EncryptionMode::Other(_) => None,
    }
}

/// Two strings are equal exactly when their UTF-8 bytes are.
proof fn lemma_bytes_eq_chars_eq(a: Seq<char>, b: Seq<char>)
    ensures
        (encode_utf8(a) == encode_utf8(b)) == (a == b),
{
    vstd::utf8::encode_utf8_decode_utf8(a);
    vstd::utf8::encode_utf8_decode_utf8(b);
}

/// Compares two byte slices.
pub fn bytes_eq(a: &[u8], b: &[u8]) -> (r: bool)
    ensures
        r == (a@ == b@),
{
    if a.len() != b.len() {
        return false;
    }
    let mut i: usize = 0;
    while i < a.len()
        invariant
            a@.len() == b@.len(),
            i <= a@.len(),
            forall|k: int| 0 <= k < i ==> a@[k] == b@[k],
        decreases a@.len() - i,
    {
        if a[i] != b[i] {
            return false;
        }
        i += 1;
    }
    assert(a@ =~= b@);
    true
}

/// `s` holds the same text as `lit`.
fn str_eq(s: &str, lit: &str) -> (r: bool)
    ensures
        r == (s@ == lit@),
{
    proof {
        lemma_bytes_eq_chars_eq(s@, lit@);
    }
    bytes_eq(s.as_bytes(), lit.as_bytes())
}

impl EncryptionMode {
    /// Returns the wire name of the mode.
    pub fn as_str(&self) -> (r: &str)
        ensures
            r@ == mode_name(*self),
    {
        match self {
            EncryptionMode::Normal => "xsalsa20_poly1305",
            EncryptionMode::Suffix => "xsalsa20_poly1305_suffix",
            EncryptionMode::Lite => "xsalsa20_poly1305_lite",
            EncryptionMode::Other(s) => s.as_str(),
        }
    }

    /// The mode a wire name stands for.
    pub fn from_name(name: &str) -> (r: EncryptionMode)
        ensures
            mode_name(r) == name@,
            r is Other <==> !is_supported_name(name@),
    {
        if str_eq(name, "xsalsa20_poly1305") {
            EncryptionMode::Normal
        } else if str_eq(name, "xsalsa20_poly1305_suffix") {
            EncryptionMode::Suffix
        } else if str_eq(name, "xsalsa20_poly1305_lite") {
            EncryptionMode::Lite
        } else {
            let s = name.to_string();
            EncryptionMode::Other(s)
        }
    }

    /// A copy of the mode.
    pub fn duplicate(&self) -> (r: EncryptionMode)
        ensures
            r == *self,
    {
        match self {
            EncryptionMode::Normal => EncryptionMode::Normal,
            EncryptionMode::Suffix => EncryptionMode::Suffix,
            EncryptionMode::Lite => EncryptionMode::Lite,
            EncryptionMode::Other(s) => EncryptionMode::Other(s.clone()),
        }
    }

    /// The encryptor's mode, for a mode this library supports.
    pub fn supported(&self) -> (r: Option<crypto::EncryptionMode>)
        ensures
            r == supported_mode(*self),
    {
        match self {
            EncryptionMode::Normal => Some(crypto::EncryptionMode::Normal),
            EncryptionMode::Suffix => Some(crypto::EncryptionMode::Suffix),
            EncryptionMode::Lite => Some(crypto::EncryptionMode::Lite),
            EncryptionMode::Other(_) => None,
        }
    }
}

/// The key the opcode scan looks for: `"op":`.
pub open spec fn op_key() -> Seq<u8> {
    seq![0x22u8, 0x6Fu8, 0x70u8, 0x22u8, 0x3Au8]
}

/// The first position at or after `from` where `"op":` starts.
pub open spec fn find_op_key(s: Seq<u8>, from: int) -> Option<int>
    decreases s.len() - from,
{
    if from < 0 || from + 5 > s.len() {
        None
    } else if s.subrange(from, from + 5) == op_key() {
        Some(from)
    } else {
        find_op_key(s, from + 1)
    }
}

/// A byte that ends a JSON value inside an object: `,` or `}`.
pub open spec fn is_delimiter(b: u8) -> bool {
    b == 0x2Cu8 || b == 0x7Du8
}

/// The first position at or after `from` that holds a delimiter.
pub open spec fn find_delimiter(s: Seq<u8>, from: int) -> Option<int>
    decreases s.len() - from,
{
    if from < 0 || from >= s.len() {
        None
    } else if is_delimiter(s[from]) {
        Some(from)
    } else {
        find_delimiter(s, from + 1)
    }
}

/// An ASCII byte with the White_Space property: tab, line feed, vertical
/// tab, form feed, carriage return and space.
pub open spec fn is_ascii_space(b: u8) -> bool {
    (0x09u8 <= b && b <= 0x0Du8) || b == 0x20u8
}

/// The second byte of a two-byte White_Space character, after `C2`:
/// U+0085 and U+00A0.
pub open spec fn is_space2(b: u8) -> bool {
    b == 0x85u8 || b == 0xA0u8
}

/// Three bytes that encode a White_Space character: U+1680, U+2000 to
/// U+200A, U+2028, U+2029, U+202F, U+205F and U+3000.
pub open spec fn is_space3(a: u8, b: u8, c: u8) -> bool {
    ||| (a == 0xE1u8 && b == 0x9Au8 && c == 0x80u8)
    ||| (a == 0xE2u8 && b == 0x80u8 && ((0x80u8 <= c && c <= 0x8Au8) || c == 0xA8u8 || c
        == 0xA9u8 || c == 0xAFu8))
    ||| (a == 0xE2u8 && b == 0x81u8 && c == 0x9Fu8)
    ||| (a == 0xE3u8 && b == 0x80u8 && c == 0x80u8)
}

/// The length of the White_Space character that `s` starts with, or 0.
pub open spec fn space_prefix_len(s: Seq<u8>) -> nat {
    if s.len() >= 1 && is_ascii_space(s[0]) {
        1
    } else if s.len() >= 2 && s[0] == 0xC2u8 && is_space2(s[1]) {
        2
    } else if s.len() >= 3 && is_space3(s[0], s[1], s[2]) {
        3
    } else {
        0
    }
}

/// The length of the White_Space character that `s` ends with, or 0.
pub open spec fn space_suffix_len(s: Seq<u8>) -> nat {
    let n = s.len() as int;
    if n >= 1 && is_ascii_space(s[n - 1]) {
        1
    } else if n >= 2 && s[n - 2] == 0xC2u8 && is_space2(s[n - 1]) {
        2
    } else if n >= 3 && is_space3(s[n - 3], s[n - 2], s[n - 1]) {
        3
    } else {
        0
    }
}

/// `s` without its leading White_Space characters, as `str::trim_start`
/// leaves UTF-8 text.
pub open spec fn trim_start(s: Seq<u8>) -> Seq<u8>
    decreases s.len(),
{
    let k = space_prefix_len(s);
    if k > 0 {
        trim_start(s.subrange(k as int, s.len() as int))
    } else {
        s
    }
}

/// `s` without its trailing White_Space characters, as `str::trim_end`
/// leaves UTF-8 text.
pub open spec fn trim_end(s: Seq<u8>) -> Seq<u8>
    decreases s.len(),
{
    let k = space_suffix_len(s);
    if k > 0 {
        trim_end(s.subrange(0, s.len() - k))
    } else {
        s
    }
}

/// An ASCII decimal digit.
pub open spec fn is_digit(b: u8) -> bool {
    0x30u8 <= b && b <= 0x39u8
}

/// The number that a string of decimal digits writes.
pub open spec fn digits_value(d: Seq<u8>) -> int
    decreases d.len(),
{
    if d.len() == 0 {
        0
    } else {
        digits_value(d.drop_last()) * 10 + (d.last() - 0x30u8)
    }
}

/// `t` without a leading `+`.
pub open spec fn sign_stripped(t: Seq<u8>) -> Seq<u8> {
    if t.len() > 0 && t[0] == 0x2Bu8 {
        t.subrange(1, t.len() as int)
    } else {
        t
    }
}

/// Every byte of `d` is a decimal digit.
pub open spec fn all_digits(d: Seq<u8>) -> bool {
    forall|i: int| 0 <= i < d.len() ==> is_digit(#[trigger] d[i])
}

/// A `u8` written in decimal, with an optional `+` sign, as Rust's integer
/// parsing reads it.
pub open spec fn parse_u8(t: Seq<u8>) -> Option<u8> {
    let d = sign_stripped(t);
    if d.len() > 0 && all_digits(d) && digits_value(d) <= 255 {
        Some(digits_value(d) as u8)
    } else {
        None
    }
}

/// The opcode a textual scan finds in a payload: the number between the
/// first `"op":` and the next `,` or `}`, whitespace trimmed.
pub open spec fn opcode_of(s: Seq<u8>) -> Option<u8> {
    match find_op_key(s, 0) {
        None => None,
        Some(i) => match find_delimiter(s, i + 5) {
            None => None,
            Some(j) => parse_u8(trim_end(trim_start(s.subrange(i + 5, j)))),
        },
    }
}

/// Finds the first `"op":` at or after `from`.
fn scan_op_key(s: &[u8], from: usize) -> (r: Option<usize>)
    requires
        from <= s@.len(),
    ensures
        r matches Some(i) ==> find_op_key(s@, from as int) == Some(i as int) && i + 5 <= s@.len(),
        r is None ==> find_op_key(s@, from as int) is None,
{
    let n = s.len();
    let mut i = from;
    while n >= 5 && i <= n - 5
        invariant
            n == s@.len(),
            from <= i <= s@.len(),
            find_op_key(s@, from as int) == find_op_key(s@, i as int),
        decreases s@.len() - i,
    {
        if s[i] == 0x22u8 && s[i + 1] == 0x6Fu8 && s[i + 2] == 0x70u8 && s[i + 3] == 0x22u8 && s[i
            + 4] == 0x3Au8 {
            assert(s@.subrange(i as int, i + 5) =~= op_key());
            return Some(i);
        }
        assert(s@.subrange(i as int, i + 5)[0] == s@[i as int]);
        assert(s@.subrange(i as int, i + 5)[1] == s@[i + 1]);
        assert(s@.subrange(i as int, i + 5)[2] == s@[i + 2]);
        assert(s@.subrange(i as int, i + 5)[3] == s@[i + 3]);
        assert(s@.subrange(i as int, i + 5)[4] == s@[i + 4]);
        i += 1;
    }
    None
}

/// Finds the first `,` or `}` at or after `from`.
pub fn scan_delimiter(s: &[u8], from: usize) -> (r: Option<usize>)
    requires
        from <= s@.len(),
    ensures
        r matches Some(j) ==> find_delimiter(s@, from as int) == Some(j as int) && from <= j
            < s@.len(),
        r is None ==> find_delimiter(s@, from as int) is None,
{
    let mut j = from;
    while j < s.len()
        invariant
            from <= j <= s@.len(),
            find_delimiter(s@, from as int) == find_delimiter(s@, j as int),
        decreases s@.len() - j,
    {
        if s[j] == 0x2Cu8 || s[j] == 0x7Du8 {
            return Some(j);
        }
        j += 1;
    }
    None
}

/// Every prefix of a string of digits writes a number no larger than the
/// whole.
proof fn lemma_digits_value_monotone(d: Seq<u8>, k: int)
    requires
        0 <= k <= d.len(),
        all_digits(d),
    ensures
        digits_value(d.subrange(0, k)) <= digits_value(d),
        0 <= digits_value(d.subrange(0, k)),
    decreases d.len(),
{
    if d.len() > 0 {
        if k == d.len() {
            assert(d.subrange(0, k) =~= d);
            lemma_digits_value_monotone(d.drop_last(), k - 1);
            assert(d.drop_last().subrange(0, k - 1) =~= d.drop_last());
        } else {
            lemma_digits_value_monotone(d.drop_last(), k);
            assert(d.drop_last().subrange(0, k) =~= d.subrange(0, k));
            lemma_digits_value_monotone(d.drop_last(), d.len() - 1);
            assert(d.drop_last().subrange(0, d.len() - 1) =~= d.drop_last());
        }
    }
}

/// Reads a `u8` written in decimal, with an optional `+` sign.
pub fn parse_u8_bytes(s: &[u8], from: usize, to: usize) -> (r: Option<u8>)
    requires
        from <= to <= s@.len(),
    ensures
        r == parse_u8(s@.subrange(from as int, to as int)),
{
    let ghost t = s@.subrange(from as int, to as int);
    let mut start = from;
    if from < to && s[from] == 0x2Bu8 {
        start = from + 1;
    }
    let ghost d = s@.subrange(start as int, to as int);
    assert(d =~= sign_stripped(t));
    if start == to {
        return None;
    }
    let mut v: u32 = 0;
    let mut i = start;
    while i < to
        invariant
            from <= start <= i <= to <= s@.len(),
            t == s@.subrange(from as int, to as int),
            d == sign_stripped(t),
            d == s@.subrange(start as int, to as int),
            v <= 255,
            v == digits_value(s@.subrange(start as int, i as int)),
            forall|k: int| start <= k < i ==> is_digit(#[trigger] s@[k]),
        decreases to - i,
    {
        let b = s[i];
        if !(0x30u8 <= b && b <= 0x39u8) {
            proof {
                assert(d[i - start] == s@[i as int]);
                assert(!all_digits(d));
            }
            return None;
        }
        assert(s@.subrange(start as int, i + 1).drop_last() =~= s@.subrange(start as int, i as int));
        let nv = v * 10 + (b - 0x30u8) as u32;
        if nv > 255 {
            proof {
                let p = s@.subrange(start as int, i + 1);
                assert(digits_value(p) == digits_value(p.drop_last()) * 10 + (p.last() - 0x30u8));
                assert(digits_value(p) > 255);
                if all_digits(d) {
                    lemma_digits_value_monotone(d, i + 1 - start);
                    assert(d.subrange(0, i + 1 - start) =~= p);
                }
            }
            return None;
        }
        v = nv;
        i += 1;
    }
    assert(s@.subrange(start as int, to as int) =~= d);
    Some(v as u8)
}

/// Whitespace trimmed from both ends of `s[from..to]`: the bounds of what
/// is left.
pub fn trim_bounds(s: &[u8], from: usize, to: usize) -> (r: (usize, usize))
    requires
        from <= to <= s@.len(),
    ensures
        r.0 <= r.1 <= s@.len(),
        s@.subrange(r.0 as int, r.1 as int) == trim_end(trim_start(s@.subrange(from as int, to as int))),
{
    let mut a = from;
    loop
        invariant
            from <= a <= to <= s@.len(),
            trim_start(s@.subrange(from as int, to as int)) == trim_start(s@.subrange(a as int, to as int)),
        ensures
            from <= a <= to <= s@.len(),
            trim_start(s@.subrange(from as int, to as int)) == trim_start(s@.subrange(a as int, to as int)),
            space_prefix_len(s@.subrange(a as int, to as int)) == 0,
        decreases to - a,
    {
        let k = space_at_start(s, a, to);
        if k == 0 {
            break;
        }
        assert(s@.subrange(a as int, to as int).subrange(k as int, (to - a) as int) =~= s@.subrange(a + k, to as int));
        a = a + k;
    }
    assert(trim_start(s@.subrange(a as int, to as int)) == s@.subrange(a as int, to as int));
    let mut b = to;
    loop
        invariant
            a <= b <= to <= s@.len(),
            trim_end(s@.subrange(a as int, to as int)) == trim_end(s@.subrange(a as int, b as int)),
        ensures
            a <= b <= to <= s@.len(),
            trim_end(s@.subrange(a as int, to as int)) == trim_end(s@.subrange(a as int, b as int)),
            space_suffix_len(s@.subrange(a as int, b as int)) == 0,
        decreases b - a,
    {
        let k = space_at_end(s, a, b);
        if k == 0 {
            break;
        }
        assert(s@.subrange(a as int, b as int).subrange(0, (b - a - k) as int) =~= s@.subrange(a as int, b - k));
        b = b - k;
    }
    assert(trim_end(s@.subrange(a as int, b as int)) == s@.subrange(a as int, b as int));
    (a, b)
}

/// The length of the White_Space character at `s[a..to]`'s start, or 0.
fn space_at_start(s: &[u8], a: usize, to: usize) -> (r: usize)
    requires
        a <= to <= s@.len(),
    ensures
        r == space_prefix_len(s@.subrange(a as int, to as int)),
        r <= to - a,
{
    let n = to - a;
    if n >= 1 && ((0x09u8 <= s[a] && s[a] <= 0x0Du8) || s[a] == 0x20u8) {
        1
    } else if n >= 2 && s[a] == 0xC2u8 && (s[a + 1] == 0x85u8 || s[a + 1] == 0xA0u8) {
        2
    } else if n >= 3 && space3(s[a], s[a + 1], s[a + 2]) {
        3
    } else {
        0
    }
}

/// The length of the White_Space character at `s[a..b]`'s end, or 0.
fn space_at_end(s: &[u8], a: usize, b: usize) -> (r: usize)
    requires
        a <= b <= s@.len(),
    ensures
        r == space_suffix_len(s@.subrange(a as int, b as int)),
        r <= b - a,
{
    let n = b - a;
    if n >= 1 && ((0x09u8 <= s[b - 1] && s[b - 1] <= 0x0Du8) || s[b - 1] == 0x20u8) {
        1
    } else if n >= 2 && s[b - 2] == 0xC2u8 && (s[b - 1] == 0x85u8 || s[b - 1] == 0xA0u8) {
        2
    } else if n >= 3 && space3(s[b - 3], s[b - 2], s[b - 1]) {
        3
    } else {
        0
    }
}

/// Three bytes encode a White_Space character.
fn space3(a: u8, b: u8, c: u8) -> (r: bool)
    ensures
        r == is_space3(a, b, c),
{
    (a == 0xE1u8 && b == 0x9Au8 && c == 0x80u8) || (a == 0xE2u8 && b == 0x80u8 && ((0x80u8 <= c
        && c <= 0x8Au8) || c == 0xA8u8 || c == 0xA9u8 || c == 0xAFu8)) || (a == 0xE2u8 && b
        == 0x81u8 && c == 0x9Fu8) || (a == 0xE3u8 && b == 0x80u8 && c == 0x80u8)
}

/// Scans a payload's bytes for its opcode.
pub fn find_opcode(s: &[u8]) -> (r: Option<u8>)
    ensures
        r == opcode_of(s@),
{
    let n = s.len();
    match scan_op_key(s, 0) {
        None => None,
        Some(i) => match scan_delimiter(s, i + 5) {
            None => None,
            Some(j) => {
                let (a, b) = trim_bounds(s, i + 5, j);
                parse_u8_bytes(s, a, b)
            },
        },
    }
}

/// The decimal digits of `n`, without leading zeros.
pub open spec fn decimal(n: u8) -> Seq<u8> {
    if n < 10 {
        seq![(0x30 + n) as u8]
    } else if n < 100 {
        seq![(0x30 + n / 10) as u8, (0x30 + n % 10) as u8]
    } else {
        seq![(0x30 + n / 100) as u8, (0x30 + (n / 10) % 10) as u8, (0x30 + n % 10) as u8]
    }
}

/// The payload text `{"op":<op>,"d":<d>}`, as bytes.
pub open spec fn framed(op: u8, d: Seq<u8>) -> Seq<u8> {
    seq![0x7Bu8] + op_key() + decimal(op) + seq![0x2Cu8, 0x22u8, 0x64u8, 0x22u8, 0x3Au8] + d + seq![
        0x7Du8,
    ]
}

/// Writes `n` in decimal.
fn push_decimal(out: &mut Vec<u8>, n: u8)
    ensures
        final(out)@ == old(out)@ + decimal(n),
{
    if n >= 100 {
        out.push(0x30u8 + n / 100);
    }
    if n >= 10 {
        out.push(0x30u8 + (n / 10) % 10);
    }
    out.push(0x30u8 + n % 10);
    assert(out@ =~= old(out)@ + decimal(n));
}

/// Frames a payload's data, given as JSON text, with its opcode.
pub fn frame(op: OpCode, d: &[u8]) -> (r: Vec<u8>)
    ensures
        r@ == framed(opcode_value(op), d@),
{
    let mut out: Vec<u8> = Vec::new();
    out.push(0x7Bu8);
    out.push(0x22u8);
    out.push(0x6Fu8);
    out.push(0x70u8);
    out.push(0x22u8);
    out.push(0x3Au8);
    push_decimal(&mut out, op.code());
    out.push(0x2Cu8);
    out.push(0x22u8);
    out.push(0x64u8);
    out.push(0x22u8);
    out.push(0x3Au8);
    out.extend_from_slice(d);
    out.push(0x7Du8);
    assert(out@ =~= framed(opcode_value(op), d@));
    out
}

/// The delimiter search skips a run of non-delimiters up to the delimiter
/// that ends it.
proof fn lemma_find_delimiter_after(s: Seq<u8>, from: int, k: int)
    requires
        0 <= from,
        0 <= k,
        from + k < s.len(),
        forall|i: int| from <= i < from + k ==> !is_delimiter(#[trigger] s[i]),
        is_delimiter(s[from + k]),
    ensures
        find_delimiter(s, from) == Some(from + k),
    decreases k,
{
    if k > 0 {
        lemma_find_delimiter_after(s, from + 1, k - 1);
    }
}

/// The digits of a number hold no whitespace at either end and read back as
/// the number.
proof fn lemma_decimal_parses(n: u8)
    ensures
        trim_end(trim_start(decimal(n))) == decimal(n),
        parse_u8(decimal(n)) == Some(n),
        1 <= decimal(n).len() <= 3,
        forall|i: int| 0 <= i < decimal(n).len() ==> is_digit(#[trigger] decimal(n)[i]),
{
    let d = decimal(n);
    let d1 = d.drop_last();
    let d2 = d1.drop_last();
    if n < 10 {
        assert(d1 =~= Seq::<u8>::empty());
        assert(digits_value(d) == digits_value(d1) * 10 + (d.last() - 0x30u8));
    } else if n < 100 {
        assert(d2 =~= Seq::<u8>::empty());
        assert(digits_value(d1) == digits_value(d2) * 10 + (d1.last() - 0x30u8));
        assert(digits_value(d) == digits_value(d1) * 10 + (d.last() - 0x30u8));
    } else {
        assert(d2.drop_last() =~= Seq::<u8>::empty());
        assert(digits_value(d2) == digits_value(d2.drop_last()) * 10 + (d2.last() - 0x30u8));
        assert(digits_value(d1) == digits_value(d2) * 10 + (d1.last() - 0x30u8));
        assert(digits_value(d) == digits_value(d1) * 10 + (d.last() - 0x30u8));
    }
    assert(sign_stripped(d) == d);
    assert(digits_value(d) == n);
}

/// The textual opcode scan reads back the opcode a payload was framed with,
/// whatever its data.
pub proof fn lemma_scan_reads_framed_opcode(op: u8, d: Seq<u8>)
    ensures
        opcode_of(framed(op, d)) == Some(op),
{
    let s = framed(op, d);
    lemma_decimal_parses(op);
    let k = decimal(op).len() as int;
    assert(s.subrange(0, 5)[0] == 0x7Bu8);
    assert(s.subrange(0, 5) != op_key());
    assert(s.subrange(1, 6) =~= op_key());
    assert(find_op_key(s, 1) == Some(1int));
    assert(find_op_key(s, 0) == Some(1int));
    assert forall|i: int| 6 <= i < 6 + k implies !is_delimiter(#[trigger] s[i]) by {
        assert(s[i] == decimal(op)[i - 6]);
    }
    lemma_find_delimiter_after(s, 6, k);
    assert(s.subrange(6, 6 + k) =~= decimal(op));
}

/// The textual scan of a payload's bytes, as a first pass before the
/// payload is parsed with the schema of its opcode.
pub struct GatewayEventDeserializer {
    op: u8,
}

impl View for GatewayEventDeserializer {
    type V = u8;

    closed spec fn view(&self) -> u8 {
        self.op
    }
}

impl GatewayEventDeserializer {
    /// Creates a new `GatewayEventDeserializer`.
    pub fn new(op: u8) -> (r: GatewayEventDeserializer)
        ensures
            r@ == op,
    {
        GatewayEventDeserializer { op }
    }

    /// Scans the JSON payload for its opcode.
    pub fn from_json(input: &str) -> (r: Option<GatewayEventDeserializer>)
        ensures
            r is None <==> opcode_of(input.spec_bytes()) is None,
            r matches Some(d) ==> opcode_of(input.spec_bytes()) == Some(d@),
    {
        match find_opcode(input.as_bytes()) {
            Some(op) => Some(GatewayEventDeserializer { op }),
            None => None,
        }
    }

    /// The opcode number found.
    pub fn op(&self) -> (r: u8)
        ensures
            r == self@,
    {
        self.op
    }

    /// The opcode found, if the number stands for one.
    pub fn opcode(&self) -> (r: Option<OpCode>)
        ensures
            r matches Some(op) ==> opcode_value(op) == self@,
            r is None ==> forall|op: OpCode| opcode_value(op) != self@,
    {
        OpCode::from_code(self.op)
    }

    /// The event, for the one opcode whose payload carries no data.
    pub fn event_without_data(&self) -> (r: Option<GatewayEvent>)
        ensures
            r is Some <==> self@ == opcode_value(OpCode::Resumed),
            r matches Some(e) ==> e is Resumed,
    {
        if self.op == 9 {
            Some(GatewayEvent::Resumed)
        } else {
            None
        }
    }
}

/// The `IDENTIFY` payload.
pub struct Identify {
    pub guild_id: u64,
    pub user_id: u64,
    pub session_id: String,
    pub token: String,
}

/// The `SELECT_PROTOCOL` payload.
pub struct SelectProtocol {
    pub protocol: String,
    pub data: SelectProtocolData,
}

/// Data of [`SelectProtocol`].
pub struct SelectProtocolData {
    pub address: String,
    pub port: u16,
    pub mode: EncryptionMode,
}

/// The `READY` payload.
pub struct Ready {
    pub ssrc: u32,
    pub ip: String,
    pub port: u16,
    pub modes: Vec<EncryptionMode>,
}

/// The `SESSION_DESCRIPTION` payload.
pub struct SessionDescription {
    pub mode: EncryptionMode,
    pub secret_key: [u8; 32],
}

/// The `SPEAKING` payload.
#[derive(Clone, Copy, Debug, PartialEq, Eq, Structural)]
pub struct Speaking {
    pub speaking: u8,
    pub delay: Option<u32>,
    pub ssrc: u32,
}

/// The `HEARTBEAT` payload.
#[derive(Clone, Copy, Debug, PartialEq, Eq, Structural)]
pub struct Heartbeat(pub u64);

/// The `HEARTBEAT_ACK` payload.
#[derive(Clone, Copy, Debug, PartialEq, Eq, Structural)]
pub struct HeartbeatAck(pub u64);

/// The `RESUME` payload.
pub struct Resume {
    pub guild_id: u64,
    pub session_id: String,
    pub token: String,
}

/// The `HELLO` payload, with the heartbeat interval in whole milliseconds.
#[derive(Clone, Copy, Debug, PartialEq, Eq, Structural)]
pub struct Hello {
    pub heartbeat_interval: u64,
}

/// The `CLIENT_CONNECT` payload.
#[derive(Clone, Copy, Debug, PartialEq, Eq, Structural)]
pub struct ClientConnect {
    pub audio_ssrc: u32,
    pub user_id: u64,
    pub video_ssrc: u32,
}

/// The `CLIENT_DISCONNECT` payload.
#[derive(Clone, Copy, Debug, PartialEq, Eq, Structural)]
pub struct ClientDisconnect {
    pub user_id: u64,
}

/// A voice gateway event, one variant per opcode.
pub enum GatewayEvent {
    Identify(Identify),
    SelectProtocol(SelectProtocol),
    Ready(Ready),
    Heartbeat(Heartbeat),
    SessionDescription(SessionDescription),
    Speaking(Speaking),
    HeartbeatAck(HeartbeatAck),
    Resume(Resume),
    Hello(Hello),
    Resumed,
    ClientConnect(ClientConnect),
    ClientDisconnect(ClientDisconnect),
}

/// The opcode of an event.
pub open spec fn event_op(e: &GatewayEvent) -> OpCode {
    match e {
        GatewayEvent::Identify(_) => OpCode::Identify,
        GatewayEvent::SelectProtocol(_) => OpCode::SelectProtocol,
        GatewayEvent::Ready(_) => OpCode::Ready,
        GatewayEvent::Heartbeat(_) => OpCode::Heartbeat,
        GatewayEvent::SessionDescription(_) => OpCode::SessionDescription,
        GatewayEvent::Speaking(_) => OpCode::Speaking,
        GatewayEvent::HeartbeatAck(_) => OpCode::HeartbeatAck,
        GatewayEvent::Resume(_) => OpCode::Resume,
        GatewayEvent::Hello(_) => OpCode::Hello,
        GatewayEvent::Resumed => OpCode::Resumed,
        GatewayEvent::ClientConnect(_) => OpCode::ClientConnect,
        GatewayEvent::ClientDisconnect(_) => OpCode::ClientDisconnect,
    }
}

impl GatewayEvent {
    /// Gets the opcode of the event.
    pub fn op(&self) -> (r: OpCode)
        ensures
            r == event_op(self),
    {
        match self {
            GatewayEvent::Identify(_) => OpCode::Identify,
            GatewayEvent::SelectProtocol(_) => OpCode::SelectProtocol,
            GatewayEvent::Ready(_) => OpCode::Ready,
            GatewayEvent::Heartbeat(_) => OpCode::Heartbeat,
            GatewayEvent::SessionDescription(_) => OpCode::SessionDescription,
            GatewayEvent::Speaking(_) => OpCode::Speaking,
            GatewayEvent::HeartbeatAck(_) => OpCode::HeartbeatAck,
            GatewayEvent::Resume(_) => OpCode::Resume,
            GatewayEvent::Hello(_) => OpCode::Hello,
            GatewayEvent::Resumed => OpCode::Resumed,
            GatewayEvent::ClientConnect(_) => OpCode::ClientConnect,
            GatewayEvent::ClientDisconnect(_) => OpCode::ClientDisconnect,
        }
    }
}

} // verus!
