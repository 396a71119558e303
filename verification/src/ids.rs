//! Opaque 128-bit identifiers and their canonical text form.
//!
//! Every entity (user, poll, suggestion) is identified by an opaque 128-bit
//! value. In URLs an identifier travels as 32 hexadecimal digits grouped
//! 8-4-4-4-12 by hyphens; parsing accepts either letter case, printing emits
//! lower case. `lemma_id_text_round_trip` proves that printing then parsing
//! returns the original identifier.

use vstd::prelude::*;

verus! {

/// Positions of the four hyphens in the 36-character text form.
pub open spec fn id_hyphen_pos(i: int) -> bool {
    i == 8 || i == 13 || i == 18 || i == 23
}

/// A hexadecimal digit, either case.
pub open spec fn is_hex_digit(c: char) -> bool {
    ('0' <= c && c <= '9') || ('a' <= c && c <= 'f') || ('A' <= c && c <= 'F')
}

/// Numeric value of a hexadecimal digit.
pub open spec fn hex_digit_value(c: char) -> int {
    if '0' <= c && c <= '9' {
        c as int - '0' as int
    } else if 'a' <= c && c <= 'f' {
        c as int - 'a' as int + 10
    } else {
        c as int - 'A' as int + 10
    }
}

/// The lower-case hexadecimal digit for a value in `0..16`.
pub open spec fn hex_digit_char(v: int) -> char {
    if v == 0 { '0' }
    else if v == 1 { '1' }
    else if v == 2 { '2' }
    else if v == 3 { '3' }
    else if v == 4 { '4' }
    else if v == 5 { '5' }
    else if v == 6 { '6' }
    else if v == 7 { '7' }
    else if v == 8 { '8' }
    else if v == 9 { '9' }
    else if v == 10 { 'a' }
    else if v == 11 { 'b' }
    else if v == 12 { 'c' }
    else if v == 13 { 'd' }
    else if v == 14 { 'e' }
    else { 'f' }
}

/// `true` exactly for the well-formed text forms: 36 characters, hyphens at
/// the four group boundaries, hexadecimal digits everywhere else.
pub open spec fn is_canonical_id_text(s: Seq<char>) -> bool {
    s.len() == 36 && forall|i: int|
        0 <= i < 36 ==> (if id_hyphen_pos(i) {
            (#[trigger] s[i]) == '-'
        } else {
            is_hex_digit(s[i])
        })
}

/// The 32 hexadecimal digits of a well-formed text form, hyphens removed.
pub open spec fn id_hex_part(s: Seq<char>) -> Seq<char> {
    s.subrange(0, 8) + s.subrange(9, 13) + s.subrange(14, 18) + s.subrange(19, 23) + s.subrange(
        24,
        36,
    )
}

/// Value of a big-endian sequence of hexadecimal digits.
pub open spec fn hex_value(s: Seq<char>) -> int
    decreases s.len(),
{
    if s.len() == 0 {
        0
    } else {
        16 * hex_value(s.drop_last()) + hex_digit_value(s.last())
    }
}

/// `16^n`.
pub open spec fn pow16(n: nat) -> int
    decreases n,
{
    if n == 0 {
        1
    } else {
        16 * pow16((n - 1) as nat)
    }
}

/// The identifier denoted by a text form, or `None` when the text is not
/// well-formed.
pub open spec fn parse_id(s: Seq<char>) -> Option<u128> {
    if is_canonical_id_text(s) {
        Some(hex_value(id_hex_part(s)) as u128)
    } else {
        None
    }
}

/// The `n` low-order hexadecimal digits of `v`, big-endian, lower case.
pub open spec fn hex_text(v: int, n: nat) -> Seq<char>
    decreases n,
{
    if n == 0 {
        Seq::empty()
    } else {
        hex_text(v / 16, (n - 1) as nat).push(hex_digit_char(v % 16))
    }
}

/// Canonical text form of an identifier: its 32 lower-case hexadecimal
/// digits, grouped 8-4-4-4-12 by hyphens.
pub open spec fn id_text(id: u128) -> Seq<char> {
    let h = hex_text(id as int, 32);
    h.subrange(0, 8) + seq!['-'] + h.subrange(8, 12) + seq!['-'] + h.subrange(12, 16) + seq!['-']
        + h.subrange(16, 20) + seq!['-'] + h.subrange(20, 32)
}

proof fn lemma_pow16_positive(n: nat)
    ensures
        pow16(n) >= 1,
    decreases n,
{
    if n > 0 {
        lemma_pow16_positive((n - 1) as nat);
    }
}

proof fn lemma_pow16_32_is_u128_bound()
    ensures
        pow16(32) == 0x1_0000_0000_0000_0000_0000_0000_0000_0000,
{
    reveal_with_fuel(pow16, 33);
}

/// A sequence of hexadecimal digits denotes a value in `0..16^len`.
proof fn lemma_hex_value_bound(s: Seq<char>)
    requires
        forall|i: int| 0 <= i < s.len() ==> is_hex_digit(#[trigger] s[i]),
    ensures
        0 <= hex_value(s) < pow16(s.len()),
    decreases s.len(),
{
    if s.len() > 0 {
        lemma_hex_value_bound(s.drop_last());
    }
}

/// `hex_text` produces hexadecimal digits and is inverted by `hex_value`.
proof fn lemma_hex_text_props(v: int, n: nat)
    requires
        0 <= v < pow16(n),
    ensures
        hex_text(v, n).len() == n,
        forall|i: int| 0 <= i < n ==> is_hex_digit(#[trigger] hex_text(v, n)[i]),
        hex_value(hex_text(v, n)) == v,
    decreases n,
{
    if n > 0 {
        lemma_pow16_positive((n - 1) as nat);
        lemma_hex_text_props(v / 16, (n - 1) as nat);
        let s = hex_text(v, n);
        assert(s.drop_last() =~= hex_text(v / 16, (n - 1) as nat));
    }
}

/// Printing an identifier yields a well-formed text form whose digits are
/// exactly `hex_text(id, 32)`.
proof fn lemma_id_text_canonical(id: u128)
    ensures
        is_canonical_id_text(id_text(id)),
        id_hex_part(id_text(id)) =~= hex_text(id as int, 32),
        hex_text(id as int, 32).len() == 32,
{
    lemma_pow16_32_is_u128_bound();
    lemma_hex_text_props(id as int, 32);
    let h = hex_text(id as int, 32);
    let s = id_text(id);
    assert forall|i: int| 0 <= i < 36 implies (if id_hyphen_pos(i) {
        (#[trigger] s[i]) == '-'
    } else {
        is_hex_digit(s[i])
    }) by {
        if !id_hyphen_pos(i) {
            if i < 8 {
                assert(s[i] == h[i]);
            } else if i < 13 {
                assert(s[i] == h[i - 1]);
            } else if i < 18 {
                assert(s[i] == h[i - 2]);
            } else if i < 23 {
                assert(s[i] == h[i - 3]);
            } else {
                assert(s[i] == h[i - 4]);
            }
        }
    }
}

/// Round trip: parsing the canonical text of an identifier returns exactly
/// that identifier. Together with the contracts of `format_id` and
/// `parse_id_str`, every address the service hands out resolves back to the
/// poll it was minted for.
pub proof fn lemma_id_text_round_trip(id: u128)
    ensures
        id_text(id).len() == 36,
        parse_id(id_text(id)) == Some(id),
{
    lemma_id_text_canonical(id);
    lemma_pow16_32_is_u128_bound();
    lemma_hex_text_props(id as int, 32);
}

/// The one-character string for a hexadecimal digit value.
pub(crate) fn hex_digit_str(d: u8) -> (r: &'static str)
    requires
        d < 16,
    ensures
        r@ =~= seq![hex_digit_char(d as int)],
{
    proof {
        reveal_strlit("0");
        reveal_strlit("1");
        reveal_strlit("2");
        reveal_strlit("3");
        reveal_strlit("4");
        reveal_strlit("5");
        reveal_strlit("6");
        reveal_strlit("7");
        reveal_strlit("8");
        reveal_strlit("9");
        reveal_strlit("a");
        reveal_strlit("b");
        reveal_strlit("c");
        reveal_strlit("d");
        reveal_strlit("e");
        reveal_strlit("f");
    }
    match d {
        0 => "0",
        1 => "1",
        2 => "2",
        3 => "3",
        4 => "4",
        5 => "5",
        6 => "6",
        7 => "7",
        8 => "8",
        9 => "9",
        10 => "a",
        11 => "b",
        12 => "c",
        13 => "d",
        14 => "e",
        _ => "f",
    }
}

/// The `n` low-order hexadecimal digits of `v`, big-endian.
fn hex_digits(v: u128, n: usize) -> (r: String)
    requires
        n <= 32,
    ensures
        r@ == hex_text(v as int, n as nat),
    decreases n,
{
    if n == 0 {
        String::new()
    } else {
        let mut s = hex_digits(v / 16, n - 1);
        s.append(hex_digit_str((v % 16) as u8));
        proof {
            assert(s@ =~= hex_text(v as int, n as nat));
        }
        s
    }
}

/// Canonical text form of an identifier, as used in `/poll/{id}` addresses.
pub fn format_id(id: u128) -> (r: String)
    ensures
        r@ == id_text(id),
{
    let h = hex_digits(id, 32);
    proof {
        lemma_pow16_32_is_u128_bound();
        lemma_hex_text_props(id as int, 32);
        assert forall|i: int| 0 <= i < h@.len() implies '\0' <= #[trigger] h@[i] <= '\u{7f}' by {
            assert(is_hex_digit(h@[i]));
        }
        reveal_strlit("-");
    }
    let hs = h.as_str();
    let mut out = String::new();
    out.append(hs.substring_ascii(0, 8));
    out.append("-");
    out.append(hs.substring_ascii(8, 12));
    out.append("-");
    out.append(hs.substring_ascii(12, 16));
    out.append("-");
    out.append(hs.substring_ascii(16, 20));
    out.append("-");
    out.append(hs.substring_ascii(20, 32));
    proof {
        assert(out@ =~= id_text(id));
    }
    out
}

/// Hexadecimal digits of `s` strictly before position `i`, for a text that
/// follows the canonical grouping up to `i`.
pub open spec fn id_hex_upto(s: Seq<char>, i: int) -> Seq<char> {
    if i <= 8 {
        s.subrange(0, i)
    } else if i <= 13 {
        s.subrange(0, 8) + s.subrange(9, i)
    } else if i <= 18 {
        s.subrange(0, 8) + s.subrange(9, 13) + s.subrange(14, i)
    } else if i <= 23 {
        s.subrange(0, 8) + s.subrange(9, 13) + s.subrange(14, 18) + s.subrange(19, i)
    } else {
        s.subrange(0, 8) + s.subrange(9, 13) + s.subrange(14, 18) + s.subrange(19, 23)
            + s.subrange(24, i)
    }
}

/// Parse the canonical text form; `None` exactly on ill-formed text.
pub fn parse_id_str(s: &str) -> (r: Option<u128>)
    ensures
        r == parse_id(s@),
{
    let n = s.unicode_len();
    if n != 36 {
        return None;
    }
    let mut acc: u128 = 0;
    let mut i: usize = 0;
    while i < 36
        invariant
            s@.len() == 36,
            0 <= i <= 36,
            forall|j: int|
                0 <= j < i ==> (if id_hyphen_pos(j) {
                    (#[trigger] s@[j]) == '-'
                } else {
                    is_hex_digit(s@[j])
                }),
            forall|k: int|
                0 <= k < id_hex_upto(s@, i as int).len() ==> is_hex_digit(
                    #[trigger] id_hex_upto(s@, i as int)[k],
                ),
            id_hex_upto(s@, i as int).len() <= i,
            acc as int == hex_value(id_hex_upto(s@, i as int)),
        decreases 36 - i,
    {
        let c = s.get_char(i);
        let u = c as u32;
        if i == 8 || i == 13 || i == 18 || i == 23 {
            if u != 45 {
                proof {
                    assert(c != '-');
                }
                return None;
            }
            proof {
                assert(id_hex_upto(s@, i + 1 as int) =~= id_hex_upto(s@, i as int));
            }
        } else {
            let d: u32 = if 48 <= u && u <= 57 {
                u - 48
            } else if 97 <= u && u <= 102 {
                u - 87
            } else if 65 <= u && u <= 70 {
                u - 55
            } else {
                proof {
                    assert(!is_hex_digit(c));
                }
                return None;
            };
            proof {
                assert(is_hex_digit(c));
                assert(d as int == hex_digit_value(c));
                let digits = id_hex_upto(s@, i as int);
                lemma_hex_value_bound(digits);
                lemma_pow16_monotonic(digits.len(), 31);
                assert((acc as int) < pow16(31));
                lemma_pow16_32_is_u128_bound();
                assert(16 * (acc as int) + (d as int) < pow16(32));
                assert(id_hex_upto(s@, i + 1 as int) =~= digits.push(s@[i as int]));
                assert(digits.push(s@[i as int]).drop_last() =~= digits);
                assert(hex_value(digits.push(s@[i as int])) == 16 * hex_value(digits)
                    + hex_digit_value(s@[i as int]));
            }
            acc = acc * 16 + d as u128;
        }
        i = i + 1;
    }
    proof {
        assert(is_canonical_id_text(s@));
        assert(id_hex_upto(s@, 36) =~= id_hex_part(s@));
        lemma_hex_value_bound(id_hex_part(s@));
    }
    Some(acc)
}

/// Relies on `uuid::Uuid::new_v4`, which draws a version-4 UUID from the
/// operating system's entropy, and `Uuid::as_u128`, which returns its value
/// as one big-endian 128-bit integer. The result depends on chance, so
/// nothing is promised of it: every caller is verified for every value.
#[verifier::external_body]
pub(crate) fn generate_id() -> u128 {
    uuid::Uuid::new_v4().as_u128()
}

proof fn lemma_pow16_monotonic(m: nat, n: nat)
    requires
        m <= n,
    ensures
        pow16(m) <= pow16(n),
    decreases n,
{
    if m < n {
        lemma_pow16_positive(m);
        lemma_pow16_monotonic(m, (n - 1) as nat);
    }
}

} // verus!
