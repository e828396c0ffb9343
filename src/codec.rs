//! Decoding of EUI-48 hardware addresses written as `hh:hh:hh:hh:hh:hh`,
//! where each separator may independently be `:` or `-`.
use vstd::prelude::*;

verus! {

/// Length of a textual address: twelve hex digits and five separators.
pub const TOKEN_LEN: usize = 17;

/// Number of bytes in a hardware address.
pub const ADDR_LEN: usize = 6;

/// `c` is an ASCII hex digit, in either case: `0`-`9` (0x30-0x39),
/// `A`-`F` (0x41-0x46) or `a`-`f` (0x61-0x66).
pub open spec fn is_hex_digit(c: u8) -> bool {
    (0x30 <= c && c <= 0x39) || (0x41 <= c && c <= 0x46) || (0x61 <= c && c <= 0x66)
}

/// The value of a hex digit.
pub open spec fn hex_value(c: u8) -> int {
    if 0x30 <= c && c <= 0x39 {
        c - 0x30
    } else if 0x41 <= c && c <= 0x46 {
        c - 0x41 + 10
    } else {
        c - 0x61 + 10
    }
}

/// `c` separates two groups of digits: `:` (0x3a) or `-` (0x2d).
pub open spec fn is_separator(c: u8) -> bool {
    c == 0x3a || c == 0x2d
}

/// `s` is a well-formed address token: 17 bytes, a pair of hex digits at
/// each offset `3 * i`, and a separator after each of the first five pairs.
pub open spec fn is_eui48_token(s: Seq<u8>) -> bool {
    &&& s.len() == TOKEN_LEN
    &&& forall|i: int| 0 <= i < 6 ==> #[trigger] is_hex_digit(s[3 * i]) && is_hex_digit(s[3 * i + 1])
    &&& forall|i: int| 0 <= i < 5 ==> #[trigger] is_separator(s[3 * i + 2])
}

/// The byte that the digit pair of group `i` of `s` stands for.
pub open spec fn group_value(s: Seq<u8>, i: int) -> u8 {
    (hex_value(s[3 * i]) * 16 + hex_value(s[3 * i + 1])) as u8
}

/// The six bytes that a well-formed token `s` stands for.
pub open spec fn eui48_value(s: Seq<u8>) -> Seq<u8> {
    Seq::new(6, |i: int| group_value(s, i))
}

/// The token that writes the twelve hex digits `digits` in pairs, with
/// `seps[i]` between pair `i` and pair `i + 1`.
pub open spec fn join_groups(digits: Seq<u8>, seps: Seq<u8>) -> Seq<u8> {
    Seq::new(17, |k: int| if k % 3 == 2 { seps[k / 3] } else { digits[2 * (k / 3) + k % 3] })
}

/// Every token written as six pairs of hex digits in either case, with
/// `:` or `-` chosen freely at each of the five gaps, is well-formed and
/// stands for the bytes `16 * high + low` of its pairs.
pub proof fn lemma_joined_groups_decode(digits: Seq<u8>, seps: Seq<u8>)
    requires
        digits.len() == 12,
        seps.len() == 5,
        forall|j: int| 0 <= j < 12 ==> #[trigger] is_hex_digit(digits[j]),
        forall|j: int| 0 <= j < 5 ==> #[trigger] is_separator(seps[j]),
    ensures
        is_eui48_token(join_groups(digits, seps)),
        eui48_value(join_groups(digits, seps)) == Seq::new(
            6,
            |i: int| (hex_value(digits[2 * i]) * 16 + hex_value(digits[2 * i + 1])) as u8,
        ),
{
    let t = join_groups(digits, seps);
    assert forall|i: int| 0 <= i < 6 implies #[trigger] t[3 * i] == digits[2 * i] && t[3 * i + 1]
        == digits[2 * i + 1] && (i < 5 ==> t[3 * i + 2] == seps[i]) by {
        assert((3 * i) % 3 == 0 && (3 * i) / 3 == i) by (nonlinear_arith);
        assert((3 * i + 1) % 3 == 1 && (3 * i + 1) / 3 == i) by (nonlinear_arith);
        assert((3 * i + 2) % 3 == 2 && (3 * i + 2) / 3 == i) by (nonlinear_arith);
    }
    assert forall|i: int| 0 <= i < 6 implies #[trigger] is_hex_digit(t[3 * i]) && is_hex_digit(
        t[3 * i + 1],
    ) by {
        assert(t[3 * i] == digits[2 * i]);
        assert(is_hex_digit(digits[2 * i + 1]));
    }
    assert forall|i: int| 0 <= i < 5 implies #[trigger] is_separator(t[3 * i + 2]) by {
        assert(t[3 * i] == digits[2 * i]);
    }
    assert(eui48_value(t) =~= Seq::new(
        6,
        |i: int| (hex_value(digits[2 * i]) * 16 + hex_value(digits[2 * i + 1])) as u8,
    )) by {
        assert forall|i: int| 0 <= i < 6 implies #[trigger] group_value(t, i) == (hex_value(
            digits[2 * i],
        ) * 16 + hex_value(digits[2 * i + 1])) as u8 by {
            assert(t[3 * i] == digits[2 * i]);
        }
    }
}

/// A token is rejected when its length is not 17, when a digit position
/// holds no hex digit, or when a gap holds neither `:` nor `-`.
pub proof fn lemma_malformed_tokens_rejected(s: Seq<u8>)
    ensures
        s.len() != 17 ==> !is_eui48_token(s),
        forall|i: int|
            0 <= i < 6 && 3 * i + 1 < s.len() && !(#[trigger] is_hex_digit(s[3 * i]) && is_hex_digit(
                s[3 * i + 1],
            )) ==> !is_eui48_token(s),
        forall|i: int|
            0 <= i < 5 && 3 * i + 2 < s.len() && !#[trigger] is_separator(s[3 * i + 2])
                ==> !is_eui48_token(s),
{
}

/// The value of one hex digit, or `None` when `c` is no hex digit.
fn hex_digit(c: u8) -> (r: Option<u8>)
    ensures
        r is Some <==> is_hex_digit(c),
        r matches Some(v) ==> v as int == hex_value(c) && v < 16,
{
    if 0x30 <= c && c <= 0x39 {
        Some(c - 0x30)
    } else if 0x41 <= c && c <= 0x46 {
        Some(c - 0x41 + 10)
    } else if 0x61 <= c && c <= 0x66 {
        Some(c - 0x61 + 10)
    } else {
        None
    }
}

/// Decodes a hardware address token. Succeeds exactly on well-formed
/// tokens, and then yields the six bytes that the digit pairs stand for.
pub fn eui48(s: &[u8]) -> (r: Option<[u8; 6]>)
    ensures
        r is Some <==> is_eui48_token(s@),
        r matches Some(m) ==> m@ == eui48_value(s@),
{
    if s.len() != TOKEN_LEN {
        return None;
    }
    let mut mac: [u8; 6] = [0u8; 6];
    let mut i: usize = 0;
    while i < ADDR_LEN
        invariant
            s@.len() == TOKEN_LEN,
            0 <= i <= 6,
            mac@.len() == 6,
            forall|j: int| 0 <= j < i ==> #[trigger] is_hex_digit(s@[3 * j]) && is_hex_digit(s@[3 * j + 1]),
            forall|j: int| 0 <= j < i && j < 5 ==> #[trigger] is_separator(s@[3 * j + 2]),
            forall|j: int| 0 <= j < i ==> #[trigger] mac@[j] == group_value(s@, j),
        decreases 6 - i,
    {
        let hi = hex_digit(s[3 * i]);
        let lo = hex_digit(s[3 * i + 1]);
        if i < 5 && !(s[3 * i + 2] == 0x3a || s[3 * i + 2] == 0x2d) {
            assert(!is_separator(s@[3 * (i as int) + 2]));
            return None;
        }
        match (hi, lo) {
            (Some(a), Some(b)) => {
                mac[i] = a * 16 + b;
            },
            _ => {
                assert(!(is_hex_digit(s@[3 * (i as int)]) && is_hex_digit(s@[3 * (i as int) + 1])));
                return None;
            },
        }
        i = i + 1;
    }
    assert(mac@ =~= eui48_value(s@));
    Some(mac)
}

} // verus!
