//! Identifiers of raw items: a 128-bit UUID written as `ri_` followed by the
//! UUID's hyphenated hexadecimal form.

use vstd::prelude::*;
use vstd::arithmetic::div_mod::{lemma_div_denominator, lemma_mod_breakdown, lemma_small_mod};

use crate::error::IntakeError;
use crate::text::str_eq;
use crate::time::{self, Timestamp};

verus! {

/// 16 to the power `n`.
pub open spec fn pow16(n: nat) -> nat
    decreases n,
{
    if n == 0 {
        1
    } else {
        16 * pow16((n - 1) as nat)
    }
}

/// The sixteen lowercase hexadecimal digits, in order.
pub open spec fn hex_alphabet() -> Seq<char> {
    "0123456789abcdef"@
}

/// The lowercase hexadecimal digit of `d` (`d < 16`).
pub open spec fn hex_char(d: nat) -> char {
    hex_alphabet()[d as int]
}

/// Whether `c` is a hexadecimal digit of either case.
pub open spec fn is_hex_char(c: char) -> bool {
    ('0' <= c && c <= '9') || ('a' <= c && c <= 'f') || ('A' <= c && c <= 'F')
}

/// The value of a hexadecimal digit.
pub open spec fn hex_value(c: char) -> nat {
    if '0' <= c && c <= '9' {
        (c as int - '0' as int) as nat
    } else if 'a' <= c && c <= 'f' {
        (c as int - 'a' as int + 10) as nat
    } else {
        (c as int - 'A' as int + 10) as nat
    }
}

/// The `n` lowest hexadecimal digits of `x`, most significant first.
pub open spec fn hex_text(x: nat, n: nat) -> Seq<char>
    decreases n,
{
    if n == 0 {
        Seq::empty()
    } else {
        hex_text(x / 16, (n - 1) as nat).push(hex_char(x % 16))
    }
}

/// The number written by a sequence of hexadecimal digits.
pub open spec fn hex_number(s: Seq<char>) -> nat
    decreases s.len(),
{
    if s.len() == 0 {
        0
    } else {
        hex_number(s.drop_last()) * 16 + hex_value(s.last())
    }
}

/// The canonical hyphenated form of a UUID value: 8-4-4-4-12 lowercase
/// hexadecimal digits.
pub open spec fn uuid_text(v: nat) -> Seq<char> {
    hex_text(v / pow16(24), 8) + seq!['-'] + hex_text(v / pow16(20), 4) + seq!['-'] + hex_text(
        v / pow16(16),
        4,
    ) + seq!['-'] + hex_text(v / pow16(12), 4) + seq!['-'] + hex_text(v, 12)
}

/// Whether position `i` of the hyphenated form holds a hyphen.
pub open spec fn is_dash_position(i: int) -> bool {
    i == 8 || i == 13 || i == 18 || i == 23
}

/// Whether `s` has the hyphenated layout: 36 characters, hyphens at
/// positions 8, 13, 18 and 23, hexadecimal digits (of either case) elsewhere.
pub open spec fn uuid_layout(s: Seq<char>) -> bool {
    &&& s.len() == 36
    &&& forall|i: int|
        0 <= i < 36 ==> if is_dash_position(i) {
            s[i] == '-'
        } else {
            is_hex_char(#[trigger] s[i])
        }
}

/// The characters of `s` that are not hyphens.
pub open spec fn digits_of(s: Seq<char>) -> Seq<char>
    decreases s.len(),
{
    if s.len() == 0 {
        Seq::empty()
    } else if s.last() == '-' {
        digits_of(s.drop_last())
    } else {
        digits_of(s.drop_last()).push(s.last())
    }
}

/// `c` with an ASCII capital letter made small.
pub open spec fn ascii_lower(c: char) -> char {
    if 'A' <= c && c <= 'Z' {
        ((c as int) + 32) as char
    } else {
        c
    }
}

/// Whether `s` is 32 hexadecimal digits (of either case).
pub open spec fn uuid_simple(s: Seq<char>) -> bool {
    &&& s.len() == 32
    &&& forall|i: int| 0 <= i < 32 ==> is_hex_char(#[trigger] s[i])
}

/// Whether `s` is a hyphenated UUID in braces.
pub open spec fn uuid_braced(s: Seq<char>) -> bool {
    &&& s.len() == 38
    &&& s[0] == '{'
    &&& s[37] == '}'
    &&& uuid_layout(s.subrange(1, 37))
}

/// Whether `s` is `urn:uuid:` (letters of either case) and a hyphenated UUID.
pub open spec fn uuid_urn(s: Seq<char>) -> bool {
    &&& s.len() == 45
    &&& forall|i: int| 0 <= i < 9 ==> ascii_lower(#[trigger] s[i]) == "urn:uuid:"@[i]
    &&& uuid_layout(s.skip(9))
}

/// The UUID value that a text names, in the forms that `uuid::Uuid::parse_str`
/// reads: hyphenated, 32 plain digits, hyphenated in braces, or hyphenated
/// after `urn:uuid:`; hexadecimal digits of either case, most significant
/// first. Any other text names none.
pub open spec fn spec_parse_uuid(s: Seq<char>) -> Option<nat> {
    if uuid_layout(s) {
        Some(hex_number(digits_of(s)))
    } else if uuid_simple(s) {
        Some(hex_number(s))
    } else if uuid_braced(s) {
        Some(hex_number(digits_of(s.subrange(1, 37))))
    } else if uuid_urn(s) {
        Some(hex_number(digits_of(s.skip(9))))
    } else {
        None
    }
}

/// The version field of a UUID value (its thirteenth hexadecimal digit).
pub open spec fn uuid_version(v: nat) -> nat {
    (v / pow16(19)) % 16
}

/// The variant digit of a UUID value (its seventeenth hexadecimal digit);
/// 8 to 11 is the RFC 9562 variant.
pub open spec fn uuid_variant_digit(v: nat) -> nat {
    (v / pow16(15)) % 16
}

/// Strongly typed identifier of a raw item.
#[derive(Clone, Copy, Debug, PartialEq, Eq, Structural)]
pub struct RawItemId {
    pub uuid: u128,
}

/// The text of an identifier.
pub open spec fn id_text(id: RawItemId) -> Seq<char> {
    "ri_"@ + uuid_text(id.uuid as nat)
}

/// The identifier that a text names, if any.
pub open spec fn spec_parse_id(s: Seq<char>) -> Option<RawItemId> {
    if s.len() >= 3 && s.take(3) == "ri_"@ {
        match spec_parse_uuid(s.skip(3)) {
            Some(v) => if v <= u128::MAX {
                Some(RawItemId { uuid: v as u128 })
            } else {
                None
            },
            None => None,
        }
    } else {
        None
    }
}

/// The Unix milliseconds that `uuid::Uuid::new_v7` takes from a time given
/// as seconds and nanoseconds (saturating, as its source computes them).
pub open spec fn v7_millis(seconds: u64, subsec_nanos: u32) -> nat {
    let m: int = if seconds * 1000 > u64::MAX {
        u64::MAX as int
    } else {
        seconds * 1000
    };
    let t: int = m + subsec_nanos / 1_000_000;
    if t > u64::MAX {
        u64::MAX as nat
    } else {
        t as nat
    }
}

/// The timestamp field of a version 7 UUID value: its 48 most significant
/// bits (Unix milliseconds modulo 2^48).
pub open spec fn uuid_unix_millis(v: nat) -> nat {
    v / pow16(20)
}

/// Creates a version 7 UUID for the given time with
/// `uuid::Uuid::new_v7(uuid::Timestamp::from_unix(uuid::NoContext, ..))`
/// and hands out its 128-bit value (`Uuid::as_u128`). Claimed, as the
/// crate's source sets them: the version digit is 7, the variant digit is
/// one of 8 to 11, and the 48-bit timestamp field holds the time's Unix
/// milliseconds modulo 2^48. The remaining bits are random and are not
/// stated. The clock is not read here.
#[verifier::external_body]
fn v7_uuid_at(seconds: u64, subsec_nanos: u32) -> (r: u128)
    ensures
        uuid_version(r as nat) == 7,
        8 <= uuid_variant_digit(r as nat) <= 11,
        uuid_unix_millis(r as nat) == v7_millis(seconds, subsec_nanos) % pow16(12),
{
    uuid::Uuid::new_v7(uuid::Timestamp::from_unix(uuid::NoContext, seconds, subsec_nanos)).as_u128()
}

/// Reads a UUID with `uuid::Uuid::parse_str` and hands out its 128-bit
/// value (`Uuid::as_u128`), or `None` where the parser fails. Claimed, as
/// its source shows (`parser.rs`: a text of 32, 36, 38 or 45 bytes in the
/// simple, hyphenated, braced or URN form, hex digits of either case
/// decoded most significant first, anything else refused): the outcome is
/// `spec_parse_uuid` of the text.
#[verifier::external_body]
fn parse_uuid_text(s: &str) -> (r: Option<u128>)
    ensures
        match spec_parse_uuid(s@) {
            Some(n) => r is Some && r.unwrap() as nat == n,
            None => r is None,
        },
{
    match uuid::Uuid::parse_str(s) {
        Ok(u) => Some(u.as_u128()),
        Err(_) => None,
    }
}

proof fn lemma_pow16_pos(n: nat)
    ensures
        pow16(n) > 0,
    decreases n,
{
    if n > 0 {
        lemma_pow16_pos((n - 1) as nat);
    }
}

proof fn lemma_pow16_values()
    ensures
        pow16(12) == 0x1000000000000,
        pow16(15) == 0x1000000000000000,
        pow16(16) == 0x10000000000000000,
        pow16(19) == 0x10000000000000000000,
        pow16(20) == 0x100000000000000000000,
        pow16(24) == 0x1000000000000000000000000,
        pow16(32) == 0x100000000000000000000000000000000,
{
    reveal_with_fuel(pow16, 33);
}

/// Each digit is written by one character that reads back as that digit.
proof fn lemma_hex_char(d: nat)
    requires
        d < 16,
    ensures
        is_hex_char(hex_char(d)),
        hex_value(hex_char(d)) == d,
        hex_char(d) != '-',
{
    reveal_strlit("0123456789abcdef");
    assert(hex_alphabet() =~= seq![
        '0', '1', '2', '3', '4', '5', '6', '7', '8', '9', 'a', 'b', 'c', 'd', 'e', 'f',
    ]);
}

proof fn lemma_hex_text_shape(x: nat, n: nat)
    ensures
        hex_text(x, n).len() == n,
        forall|i: int|
            0 <= i < n ==> is_hex_char(#[trigger] hex_text(x, n)[i]) && hex_text(x, n)[i] != '-',
    decreases n,
{
    if n > 0 {
        lemma_hex_text_shape(x / 16, (n - 1) as nat);
        lemma_hex_char(x % 16);
    }
}

/// The digits of `x` read back as `x` modulo `16^n`.
proof fn lemma_hex_text_value(x: nat, n: nat)
    ensures
        hex_number(hex_text(x, n)) == x % pow16(n),
    decreases n,
{
    if n == 0 {
        assert(x % 1 == 0) by (nonlinear_arith);
    } else {
        let t = hex_text(x / 16, (n - 1) as nat);
        lemma_hex_text_value(x / 16, (n - 1) as nat);
        lemma_hex_char(x % 16);
        assert(t.push(hex_char(x % 16)).drop_last() =~= t);
        lemma_pow16_pos((n - 1) as nat);
        lemma_mod_breakdown(x as int, 16, pow16((n - 1) as nat) as int);
    }
}

/// The `m + n` lowest digits are the `m` digits above the `n` lowest, then
/// the `n` lowest.
proof fn lemma_hex_text_split(x: nat, m: nat, n: nat)
    ensures
        hex_text(x, m + n) == hex_text(x / pow16(n), m) + hex_text(x, n),
    decreases n,
{
    if n == 0 {
        assert(pow16(0) == 1);
        assert(x / 1 == x);
        assert(hex_text(x, m) + hex_text(x, 0) =~= hex_text(x, m));
    } else {
        let k = (n - 1) as nat;
        lemma_hex_text_split(x / 16, m, k);
        lemma_pow16_pos(k);
        lemma_div_denominator(x as int, 16, pow16(k) as int);
        assert(pow16(n) == 16 * pow16(k));
        assert((x / 16) / pow16(k) == x / pow16(n));
        assert((m + k) as nat == (m + n - 1) as nat);
        let c = hex_char(x % 16);
        assert(hex_text(x, m + n) == hex_text(x / 16, m + k).push(c));
        assert(hex_text(x, n) == hex_text(x / 16, k).push(c));
        assert((hex_text(x / pow16(n), m) + hex_text(x / 16, k)).push(c) =~= hex_text(
            x / pow16(n),
            m,
        ) + hex_text(x / 16, k).push(c));
    }
}

proof fn lemma_digits_of_plain(s: Seq<char>)
    requires
        forall|i: int| 0 <= i < s.len() ==> s[i] != '-',
    ensures
        digits_of(s) == s,
    decreases s.len(),
{
    if s.len() > 0 {
        lemma_digits_of_plain(s.drop_last());
        assert(s.drop_last().push(s.last()) =~= s);
    }
}

proof fn lemma_digits_of_concat(a: Seq<char>, b: Seq<char>)
    ensures
        digits_of(a + b) == digits_of(a) + digits_of(b),
    decreases b.len(),
{
    if b.len() == 0 {
        assert(a + b =~= a);
        assert(digits_of(a) + digits_of(b) =~= digits_of(a));
    } else {
        lemma_digits_of_concat(a, b.drop_last());
        assert((a + b).drop_last() =~= a + b.drop_last());
        assert((a + b).last() == b.last());
        if b.last() == '-' {
        } else {
            assert(digits_of(a) + digits_of(b.drop_last()).push(b.last()) =~= (digits_of(a)
                + digits_of(b.drop_last())).push(b.last()));
        }
    }
}

/// The hyphenated form of a 128-bit value has the layout, and reads back as
/// that value.
pub proof fn lemma_uuid_text_roundtrip(v: u128)
    ensures
        uuid_layout(uuid_text(v as nat)),
        spec_parse_uuid(uuid_text(v as nat)) == Some(v as nat),
{
    let x = v as nat;
    let g1 = hex_text(x / pow16(24), 8);
    let g2 = hex_text(x / pow16(20), 4);
    let g3 = hex_text(x / pow16(16), 4);
    let g4 = hex_text(x / pow16(12), 4);
    let g5 = hex_text(x, 12);
    let d = seq!['-'];
    lemma_hex_text_shape(x / pow16(24), 8);
    lemma_hex_text_shape(x / pow16(20), 4);
    lemma_hex_text_shape(x / pow16(16), 4);
    lemma_hex_text_shape(x / pow16(12), 4);
    lemma_hex_text_shape(x, 12);
    let t = uuid_text(x);
    assert(t == g1 + d + g2 + d + g3 + d + g4 + d + g5);
    assert(t.len() == 36);
    assert forall|i: int| 0 <= i < 36 implies if is_dash_position(i) {
        t[i] == '-'
    } else {
        is_hex_char(#[trigger] t[i])
    } by {
        if i < 8 {
            assert(t[i] == g1[i]);
        } else if i == 8 {
        } else if i < 13 {
            assert(t[i] == g2[i - 9]);
        } else if i == 13 {
        } else if i < 18 {
            assert(t[i] == g3[i - 14]);
        } else if i == 18 {
        } else if i < 23 {
            assert(t[i] == g4[i - 19]);
        } else if i == 23 {
        } else {
            assert(t[i] == g5[i - 24]);
        }
    }
    // The digits, without the hyphens.
    lemma_digits_of_plain(g1);
    lemma_digits_of_plain(g2);
    lemma_digits_of_plain(g3);
    lemma_digits_of_plain(g4);
    lemma_digits_of_plain(g5);
    assert(digits_of(d) =~= Seq::<char>::empty()) by {
        assert(d.len() == 1);
        assert(d.last() == '-');
        assert(d.drop_last() =~= Seq::<char>::empty());
        assert(digits_of(Seq::<char>::empty()) =~= Seq::<char>::empty());
    }
    lemma_digits_of_concat(g1, d);
    lemma_digits_of_concat(g1 + d, g2);
    lemma_digits_of_concat(g1 + d + g2, d);
    lemma_digits_of_concat(g1 + d + g2 + d, g3);
    lemma_digits_of_concat(g1 + d + g2 + d + g3, d);
    lemma_digits_of_concat(g1 + d + g2 + d + g3 + d, g4);
    lemma_digits_of_concat(g1 + d + g2 + d + g3 + d + g4, d);
    lemma_digits_of_concat(g1 + d + g2 + d + g3 + d + g4 + d, g5);
    assert(digits_of(t) =~= g1 + g2 + g3 + g4 + g5);
    // The groups are the 32 digits of the value.
    lemma_hex_text_split(x, 4, 12);
    lemma_hex_text_split(x, 4, 16);
    lemma_hex_text_split(x, 4, 20);
    lemma_hex_text_split(x, 8, 24);
    assert(g1 + g2 + g3 + g4 + g5 =~= hex_text(x, 32));
    lemma_hex_text_value(x, 32);
    lemma_pow16_values();
    lemma_small_mod(x, pow16(32));
}

/// Every identifier's text reads back as that identifier.
pub proof fn lemma_id_text_roundtrip(id: RawItemId)
    ensures
        spec_parse_id(id_text(id)) == Some(id),
{
    let s = id_text(id);
    lemma_uuid_text_roundtrip(id.uuid);
    reveal_strlit("ri_");
    assert(s.take(3) =~= "ri_"@);
    assert(s.skip(3) =~= uuid_text(id.uuid as nat));
}


/// The digit character of `d`, as a one-character string.
fn hex_digit_str(d: usize) -> (r: &'static str)
    requires
        d < 16,
    ensures
        r@ == seq![hex_char(d as nat)],
{
    proof {
        reveal_strlit("0123456789abcdef");
    }
    let r = "0123456789abcdef".substring_char(d, d + 1);
    assert(r@ =~= seq![hex_char(d as nat)]);
    r
}

/// Appends the `n` lowest hexadecimal digits of `x`.
fn push_hex(out: &mut String, x: u128, n: usize)
    ensures
        final(out)@ == old(out)@ + hex_text(x as nat, n as nat),
    decreases n,
{
    if n > 0 {
        push_hex(out, x / 16, n - 1);
        let d = (x % 16) as usize;
        out.append(hex_digit_str(d));
        assert(final(out)@ =~= old(out)@ + hex_text(x as nat, n as nat));
    }
}

impl RawItemId {
    /// A fresh identifier for the time `now`: a version 7 UUID whose
    /// timestamp field is `now`, the rest random.
    pub fn new_at(now: Timestamp) -> (r: RawItemId)
        ensures
            uuid_version(r.uuid as nat) == 7,
            8 <= uuid_variant_digit(r.uuid as nat) <= 11,
            uuid_unix_millis(r.uuid as nat) == (now.unix_millis as nat) % pow16(12),
    {
        let ms = now.unix_millis;
        let seconds = ms / 1000;
        let nanos = ((ms % 1000) * 1_000_000) as u32;
        assert(v7_millis(seconds, nanos) == ms);
        RawItemId { uuid: v7_uuid_at(seconds, nanos) }
    }

    /// A fresh identifier: a version 7 UUID for the current time.
    pub fn new() -> (r: RawItemId)
        ensures
            uuid_version(r.uuid as nat) == 7,
            8 <= uuid_variant_digit(r.uuid as nat) <= 11,
    {
        RawItemId::new_at(time::now())
    }

    /// The text of the identifier: `ri_` and the hyphenated UUID.
    pub fn to_string(&self) -> (r: String)
        ensures
            r@ == id_text(*self),
    {
        let v = self.uuid;
        proof {
            lemma_pow16_values();
            reveal_strlit("-");
        }
        let mut s = "ri_".to_owned();
        push_hex(&mut s, v / 0x1000000000000000000000000, 8);
        s.append("-");
        push_hex(&mut s, v / 0x100000000000000000000, 4);
        s.append("-");
        push_hex(&mut s, v / 0x10000000000000000, 4);
        s.append("-");
        push_hex(&mut s, v / 0x1000000000000, 4);
        s.append("-");
        push_hex(&mut s, v, 12);
        assert(s@ =~= id_text(*self));
        s
    }

    /// The identifier written by `s`, if `s` is `ri_` followed by a UUID in
    /// the hyphenated layout.
    pub fn parse(s: &str) -> (r: Option<RawItemId>)
        ensures
            r == spec_parse_id(s@),
    {
        let n = s.unicode_len();
        if n < 3 {
            return None;
        }
        let head = s.substring_char(0, 3);
        if !str_eq(head, "ri_") {
            assert(s@.take(3) =~= head@);
            return None;
        }
        let rest = s.substring_char(3, n);
        assert(s@.take(3) =~= head@);
        assert(s@.skip(3) =~= rest@);
        match parse_uuid_text(rest) {
            Some(v) => Some(RawItemId { uuid: v }),
            None => None,
        }
    }
}

impl Default for RawItemId {
    fn default() -> (r: Self)
        ensures
            uuid_version(r.uuid as nat) == 7,
            8 <= uuid_variant_digit(r.uuid as nat) <= 11,
    {
        RawItemId::new()
    }
}

impl std::str::FromStr for RawItemId {
    type Err = IntakeError;

    fn from_str(s: &str) -> (r: Result<RawItemId, IntakeError>)
        ensures
            match spec_parse_id(s@) {
                Some(id) => r == Ok::<RawItemId, IntakeError>(id),
                None => r matches Err(e) && (e matches IntakeError::Validation(m) && m@
                    == "invalid raw item id"@),
            },
    {
        match RawItemId::parse(s) {
            Some(id) => Ok(id),
            None => Err(IntakeError::validation("invalid raw item id")),
        }
    }
}

} // verus!
