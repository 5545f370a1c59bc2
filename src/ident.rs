//! Text forms of the 128-bit identifiers (UUIDs) that name sessions, users
//! and uploaded objects.

use vstd::prelude::*;

verus! {

/// Whether `c` is an ASCII hexadecimal digit, in either case.
pub open spec fn is_hex_char(c: char) -> bool {
    ('0' <= c && c <= '9') || ('a' <= c && c <= 'f') || ('A' <= c && c <= 'F')
}

/// The value of a hexadecimal digit.
pub open spec fn hex_char_value(c: char) -> nat {
    if '0' <= c && c <= '9' {
        (c as u32 - '0' as u32) as nat
    } else if 'a' <= c && c <= 'f' {
        (c as u32 - 'a' as u32 + 10) as nat
    } else {
        (c as u32 - 'A' as u32 + 10) as nat
    }
}

pub open spec fn all_hex(s: Seq<char>) -> bool {
    forall|i: int| 0 <= i < s.len() ==> is_hex_char(#[trigger] s[i])
}

/// The number that a string of hexadecimal digits spells, most significant first.
pub open spec fn hex_number(s: Seq<char>) -> nat
    decreases s.len(),
{
    if s.len() == 0 {
        0
    } else {
        hex_number(s.drop_last()) * 16 + hex_char_value(s.last())
    }
}

/// The 36-character form `8-4-4-4-12`: hyphens at 8, 13, 18 and 23, hex digits elsewhere.
pub open spec fn is_hyphenated(s: Seq<char>) -> bool {
    &&& s.len() == 36
    &&& s[8] == '-' && s[13] == '-' && s[18] == '-' && s[23] == '-'
    &&& all_hex(hyphenated_digits(s))
}

/// The 32 digits of a hyphenated form, hyphens left out.
pub open spec fn hyphenated_digits(s: Seq<char>) -> Seq<char> {
    s.subrange(0, 8) + s.subrange(9, 13) + s.subrange(14, 18) + s.subrange(19, 23) + s.subrange(
        24,
        36,
    )
}

/// `a` equals the lower-case pattern character `p`, up to ASCII case.
pub open spec fn eq_ignoring_ascii_case(a: char, p: char) -> bool {
    a == p || ('a' <= p && p <= 'z' && a as u32 + 32 == p as u32)
}

/// The prefix `urn:uuid:`, in any ASCII case.
pub open spec fn is_urn_prefix(s: Seq<char>) -> bool {
    let p = seq!['u', 'r', 'n', ':', 'u', 'u', 'i', 'd', ':'];
    &&& s.len() == 9
    &&& forall|i: int| 0 <= i < 9 ==> eq_ignoring_ascii_case(#[trigger] s[i], p[i])
}

/// The identifier that a text names, if it is one of the four accepted forms:
/// 32 hex digits; the hyphenated form; the hyphenated form in braces; the
/// hyphenated form after `urn:uuid:`. Digits are read most significant first.
pub open spec fn uuid_from_text(s: Seq<char>) -> Option<u128> {
    if s.len() == 32 {
        if all_hex(s) {
            Some(hex_number(s) as u128)
        } else {
            None
        }
    } else if s.len() == 36 {
        if is_hyphenated(s) {
            Some(hex_number(hyphenated_digits(s)) as u128)
        } else {
            None
        }
    } else if s.len() == 38 {
        let inner = s.subrange(1, 37);
        if s[0] == '{' && s[37] == '}' && is_hyphenated(inner) {
            Some(hex_number(hyphenated_digits(inner)) as u128)
        } else {
            None
        }
    } else if s.len() == 45 {
        let inner = s.subrange(9, 45);
        if is_urn_prefix(s.subrange(0, 9)) && is_hyphenated(inner) {
            Some(hex_number(hyphenated_digits(inner)) as u128)
        } else {
            None
        }
    } else {
        None
    }
}

/// The lower-case digit for a value below 16.
pub open spec fn lower_hex_char(d: nat) -> char {
    seq!['0', '1', '2', '3', '4', '5', '6', '7', '8', '9', 'a', 'b', 'c', 'd', 'e', 'f'][d as int]
}

/// The last `n` hexadecimal digits of `v`, lower case, most significant first.
pub open spec fn lower_hex_digits(v: nat, n: nat) -> Seq<char>
    decreases n,
{
    if n == 0 {
        Seq::empty()
    } else {
        lower_hex_digits(v / 16, (n - 1) as nat).push(lower_hex_char(v % 16))
    }
}

/// The canonical text of an identifier: 32 lower-case digits grouped `8-4-4-4-12`.
pub open spec fn uuid_text_of(v: u128) -> Seq<char> {
    let d = lower_hex_digits(v as nat, 32);
    d.subrange(0, 8) + seq!['-'] + d.subrange(8, 12) + seq!['-'] + d.subrange(12, 16) + seq!['-']
        + d.subrange(16, 20) + seq!['-'] + d.subrange(20, 32)
}

/// Sixteen to the power `n`.
pub open spec fn pow16(n: nat) -> nat
    decreases n,
{
    if n == 0 {
        1
    } else {
        16 * pow16((n - 1) as nat)
    }
}

proof fn lemma_lower_hex_char(d: nat)
    requires
        d < 16,
    ensures
        is_hex_char(lower_hex_char(d)),
        hex_char_value(lower_hex_char(d)) == d,
{
    let t = seq!['0', '1', '2', '3', '4', '5', '6', '7', '8', '9', 'a', 'b', 'c', 'd', 'e', 'f'];
    assert(lower_hex_char(d) == t[d as int]);
    if d < 8 {
        if d < 4 {
            if d == 0 {} else if d == 1 {} else if d == 2 {} else {}
        } else {
            if d == 4 {} else if d == 5 {} else if d == 6 {} else {}
        }
    } else {
        if d < 12 {
            if d == 8 {} else if d == 9 {} else if d == 10 {} else {}
        } else {
            if d == 12 {} else if d == 13 {} else if d == 14 {} else {}
        }
    }
}

proof fn lemma_lower_hex_digits(v: nat, n: nat)
    ensures
        lower_hex_digits(v, n).len() == n,
        all_hex(lower_hex_digits(v, n)),
        pow16(n) > 0,
        hex_number(lower_hex_digits(v, n)) == v % pow16(n),
    decreases n,
{
    if n > 0 {
        let m = (n - 1) as nat;
        lemma_lower_hex_digits(v / 16, m);
        lemma_lower_hex_char(v % 16);
        let prev = lower_hex_digits(v / 16, m);
        let s = lower_hex_digits(v, n);
        assert(s == prev.push(lower_hex_char(v % 16)));
        assert(s.drop_last() =~= prev);
        assert forall|i: int| 0 <= i < s.len() implies is_hex_char(#[trigger] s[i]) by {
            if i < prev.len() {
                assert(s[i] == prev[i]);
            }
        }
        vstd::arithmetic::div_mod::lemma_mod_breakdown(v as int, 16, pow16(m) as int);
        assert(hex_number(s) == hex_number(prev) * 16 + v % 16);
        assert(hex_number(s) == v % pow16(n)) by (nonlinear_arith)
            requires
                hex_number(s) == hex_number(prev) * 16 + v % 16,
                hex_number(prev) == (v / 16) % pow16(m),
                pow16(n) == 16 * pow16(m),
                v % (16 * pow16(m)) == 16 * ((v / 16) % pow16(m)) + v % 16,
        ;
    }
}

/// The canonical text of an identifier reads back as the same identifier:
/// a cookie written for a session names that session.
pub proof fn lemma_uuid_text_round_trip(v: u128)
    ensures
        uuid_from_text(uuid_text_of(v)) == Some(v),
{
    let d = lower_hex_digits(v as nat, 32);
    lemma_lower_hex_digits(v as nat, 32);
    let t = uuid_text_of(v);
    assert(t.len() == 36);
    assert(hyphenated_digits(t) =~= d);
    reveal_with_fuel(pow16, 33);
    assert(pow16(32) == 0x1_0000_0000_0000_0000_0000_0000_0000_0000);
    vstd::arithmetic::div_mod::lemma_small_mod(v as nat, pow16(32));
    assert(t[8] == '-' && t[13] == '-' && t[18] == '-' && t[23] == '-');
}

/// Relies on `uuid::Uuid::parse_str`, read back with `Uuid::as_u128`: it
/// accepts exactly the four forms of `uuid_from_text` (hex digits in either
/// case, the `urn:uuid:` prefix in any case) and reads the digits big-endian.
#[verifier::external_body]
pub(crate) fn parse_uuid(s: &str) -> (r: Option<u128>)
    ensures
        r == uuid_from_text(s@),
{
    uuid::Uuid::parse_str(s).ok().map(|u| u.as_u128())
}

/// Relies on `uuid::Uuid::from_u128` and the `Display` impl of `Uuid`, which
/// writes the lower-case hyphenated form.
#[verifier::external_body]
pub(crate) fn uuid_text(v: u128) -> (r: String)
    ensures
        r@ == uuid_text_of(v),
{
    uuid::Uuid::from_u128(v).to_string()
}

/// Relies on `uuid::Uuid::new_v4`, read back with `Uuid::as_u128`: a random
/// identifier whose version field is 4 and whose variant bits are `10`.
/// It panics only where the operating system offers no random bytes.
#[verifier::external_body]
pub(crate) fn new_uuid() -> (r: u128)
    ensures
        (r >> 76u128) & 0xfu128 == 4,
        (r >> 62u128) & 0x3u128 == 2,
{
    uuid::Uuid::new_v4().as_u128()
}

/// The canonical text of an identifier, as it is written into cookies,
/// object keys and pages.
pub fn id_text(v: u128) -> (r: String)
    ensures
        r@ == uuid_text_of(v),
{
    uuid_text(v)
}

/// Reads an identifier from text; `None` where the text is in none of the
/// accepted forms.
pub fn parse_id(s: &str) -> (r: Option<u128>)
    ensures
        r == uuid_from_text(s@),
{
    parse_uuid(s)
}

} // verus!
