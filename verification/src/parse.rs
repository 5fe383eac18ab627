//! Verified text helpers: string comparison, hex color specs and
//! string-encoded shortcut key codes.
//!
//! Attribute values arrive as text.  A malformed value is never an
//! error: the attribute is simply not applied, so each parser here
//! returns an `Option` and its contract states exactly which inputs
//! succeed.

use vstd::prelude::*;
use vstd::string::StringSliceAdditionalSpecFns;
use vstd::utf8::encode_utf8;

verus! {

/// Equality of two string slices, decided on their UTF-8 bytes.
pub fn str_eq(a: &str, b: &str) -> (r: bool)
    ensures
        r == (a@ == b@),
{
    let ab: &[u8] = a.as_bytes();
    let bb: &[u8] = b.as_bytes();
    if ab.len() != bb.len() {
        proof {
            if a@ == b@ {
                assert(ab@ == bb@);
            }
        }
        return false;
    }
    let n: usize = ab.len();
    let mut i: usize = 0;
    while i < n
        invariant
            i <= n,
            n == ab@.len(),
            n == bb@.len(),
            ab@ == a.spec_bytes(),
            bb@ == b.spec_bytes(),
            forall|j: int| 0 <= j < i ==> ab@[j] == bb@[j],
        decreases n - i,
    {
        if ab[i] != bb[i] {
            proof {
                if a@ == b@ {
                    assert(ab@ == bb@);
                }
            }
            return false;
        }
        i = i + 1;
    }
    proof {
        assert(ab@ =~= bb@);
        vstd::utf8::encode_utf8_decode_utf8(a@);
        vstd::utf8::encode_utf8_decode_utf8(b@);
    }
    true
}

/// ASCII code of `#`, the first byte of a color spec.
pub const HASH_BYTE: u8 = 35;

/// True for the ASCII code of a hexadecimal digit.
pub open spec fn is_hex_digit(b: u8) -> bool {
    (48 <= b <= 57) || (65 <= b <= 70) || (97 <= b <= 102)
}

/// Numeric value of a hexadecimal digit byte.
pub open spec fn hex_val(b: u8) -> int {
    if 48 <= b <= 57 {
        b - 48
    } else if 65 <= b <= 70 {
        b - 55
    } else {
        b - 87
    }
}

/// A well-formed color spec: `#` followed by at least six hexadecimal
/// digits; anything past the sixth digit is ignored.
pub open spec fn color_bytes_ok(s: Seq<u8>) -> bool {
    s.len() >= 7 && s[0] == HASH_BYTE && (forall|i: int| 1 <= i < 7 ==> is_hex_digit(#[trigger] s[i]))
}

/// The 24-bit `0xRRGGBB` value of a well-formed color spec.
pub open spec fn color_value(s: Seq<u8>) -> int {
    hex_val(s[1]) * 0x100000 + hex_val(s[2]) * 0x10000 + hex_val(s[3]) * 0x1000 + hex_val(s[4])
        * 0x100 + hex_val(s[5]) * 0x10 + hex_val(s[6])
}

/// What a color field means: the parsed 24-bit value of a well-formed
/// spec, nothing for a malformed one.
pub open spec fn color_of(s: Seq<char>) -> Option<u32> {
    let b = encode_utf8(s);
    if color_bytes_ok(b) {
        Some(color_value(b) as u32)
    } else {
        None
    }
}

/// Value of one hexadecimal digit byte, or nothing.
fn hex_digit(b: u8) -> (r: Option<u8>)
    ensures
        r is Some <==> is_hex_digit(b),
        r is Some ==> r->0 == hex_val(b) && r->0 < 16,
{
    if 48 <= b && b <= 57 {
        Some(b - 48)
    } else if 65 <= b && b <= 70 {
        Some(b - 55)
    } else if 97 <= b && b <= 102 {
        Some(b - 87)
    } else {
        None
    }
}

/// Parses a hex color spec such as `#20a0f0` into its 24-bit value.
pub fn parse_color(s: &str) -> (r: Option<u32>)
    ensures
        r == color_of(s@),
        r is Some ==> r->0 < 0x1000000,
{
    let b: &[u8] = s.as_bytes();
    if b.len() < 7 {
        return None;
    }
    if b[0] != HASH_BYTE {
        return None;
    }
    let d1 = hex_digit(b[1]);
    let d2 = hex_digit(b[2]);
    let d3 = hex_digit(b[3]);
    let d4 = hex_digit(b[4]);
    let d5 = hex_digit(b[5]);
    let d6 = hex_digit(b[6]);
    match (d1, d2, d3, d4, d5, d6) {
        (Some(v1), Some(v2), Some(v3), Some(v4), Some(v5), Some(v6)) => {
            let v: u32 = (v1 as u32) * 0x100000 + (v2 as u32) * 0x10000 + (v3 as u32) * 0x1000 + (
            v4 as u32) * 0x100 + (v5 as u32) * 0x10 + (v6 as u32);
            Some(v)
        },
        _ => None,
    }
}

/// ASCII code of `+`.
pub const PLUS_BYTE: u8 = 43;

/// ASCII code of `-`.
pub const MINUS_BYTE: u8 = 45;

/// ASCII code of `0`.
pub const ZERO_BYTE: u8 = 48;

/// True for the ASCII code of a decimal digit.
pub open spec fn is_digit(b: u8) -> bool {
    48 <= b <= 57
}

/// Value of a string of decimal digit bytes, most significant first.
pub open spec fn digits_value(s: Seq<u8>) -> int
    decreases s.len(),
{
    if s.len() == 0 {
        0
    } else {
        digits_value(s.drop_last()) * 10 + (s.last() - 48)
    }
}

/// The digit part of a signed decimal literal: everything after an
/// optional leading sign.
pub open spec fn int_digits(s: Seq<u8>) -> Seq<u8> {
    if s.len() > 0 && (s[0] == PLUS_BYTE || s[0] == MINUS_BYTE) {
        s.drop_first()
    } else {
        s
    }
}

/// A well-formed signed decimal literal: an optional sign followed by
/// at least one decimal digit and nothing else.
pub open spec fn int_text_ok(s: Seq<u8>) -> bool {
    let d = int_digits(s);
    d.len() > 0 && (forall|i: int| 0 <= i < d.len() ==> is_digit(#[trigger] d[i]))
}

/// The signed value of a well-formed decimal literal.
pub open spec fn int_text_value(s: Seq<u8>) -> int {
    if s.len() > 0 && s[0] == MINUS_BYTE {
        -digits_value(int_digits(s))
    } else {
        digits_value(int_digits(s))
    }
}

/// What a shortcut field means: the key code of a string that is a
/// decimal literal within the signed 32-bit range, nothing otherwise.
pub open spec fn shortcut_of(s: Seq<char>) -> Option<i32> {
    let b = encode_utf8(s);
    if int_text_ok(b) && -0x8000_0000 <= int_text_value(b) <= 0x7fff_ffff {
        Some(int_text_value(b) as i32)
    } else {
        None
    }
}

/// Ten to the given power.
pub open spec fn pow10(n: nat) -> int
    decreases n,
{
    if n == 0 {
        1
    } else {
        10 * pow10((n - 1) as nat)
    }
}

/// A digit string's value stays below ten to its length.
proof fn lemma_digits_value_upper(s: Seq<u8>)
    requires
        forall|i: int| 0 <= i < s.len() ==> is_digit(#[trigger] s[i]),
    ensures
        0 <= digits_value(s) < pow10(s.len()),
    decreases s.len(),
{
    if s.len() > 0 {
        assert(is_digit(s[s.len() - 1]));
        assert forall|i: int| 0 <= i < s.drop_last().len() implies is_digit(
            #[trigger] s.drop_last()[i],
        ) by {
            assert(s.drop_last()[i] == s[i]);
        }
        lemma_digits_value_upper(s.drop_last());
    }
}

/// A digit string that starts with a nonzero digit is at least ten to
/// one less than its length.
proof fn lemma_digits_value_lower(s: Seq<u8>)
    requires
        s.len() > 0,
        forall|i: int| 0 <= i < s.len() ==> is_digit(#[trigger] s[i]),
        s[0] != ZERO_BYTE,
    ensures
        digits_value(s) >= pow10((s.len() - 1) as nat),
    decreases s.len(),
{
    if s.len() == 1 {
        assert(is_digit(s[0]));
        assert(digits_value(s) == s[0] - 48) by {
            reveal_with_fuel(digits_value, 2);
        }
    } else {
        assert(is_digit(s[s.len() - 1]));
        assert forall|i: int| 0 <= i < s.drop_last().len() implies is_digit(
            #[trigger] s.drop_last()[i],
        ) by {
            assert(s.drop_last()[i] == s[i]);
        }
        assert(s.drop_last()[0] == s[0]);
        lemma_digits_value_lower(s.drop_last());
        assert(digits_value(s.drop_last()) >= pow10((s.len() - 2) as nat));
        assert(s.last() == s[s.len() - 1]);
        assert(digits_value(s) == digits_value(s.drop_last()) * 10 + (s.last() - 48));
        assert(pow10((s.len() - 1) as nat) == 10 * pow10((s.len() - 2) as nat));
    }
}

/// Leading zeros do not change a digit string's value.
proof fn lemma_leading_zeros(zeros: Seq<u8>, rest: Seq<u8>)
    requires
        forall|i: int| 0 <= i < zeros.len() ==> #[trigger] zeros[i] == ZERO_BYTE,
    ensures
        digits_value(zeros + rest) == digits_value(rest),
    decreases rest.len(),
{
    if rest.len() == 0 {
        assert(zeros + rest =~= zeros);
        lemma_all_zeros(zeros);
    } else {
        assert((zeros + rest).drop_last() =~= zeros + rest.drop_last());
        assert((zeros + rest).last() == rest.last());
        lemma_leading_zeros(zeros, rest.drop_last());
    }
}

/// A string of zero digits has value zero.
proof fn lemma_all_zeros(zeros: Seq<u8>)
    requires
        forall|i: int| 0 <= i < zeros.len() ==> #[trigger] zeros[i] == ZERO_BYTE,
    ensures
        digits_value(zeros) == 0,
    decreases zeros.len(),
{
    if zeros.len() > 0 {
        lemma_all_zeros(zeros.drop_last());
    }
}

/// Parses a string-encoded shortcut key code: an optional sign and
/// decimal digits, accepted exactly when the value fits a signed
/// 32-bit integer.
#[verifier::loop_isolation(false)]
pub fn parse_shortcut(s: &str) -> (r: Option<i32>)
    ensures
        r == shortcut_of(s@),
{
    let b: &[u8] = s.as_bytes();
    let n: usize = b.len();
    let ghost whole: Seq<u8> = b@;
    let mut start: usize = 0;
    let mut neg: bool = false;
    if n > 0 && (b[0] == PLUS_BYTE || b[0] == MINUS_BYTE) {
        neg = b[0] == MINUS_BYTE;
        start = 1;
    }
    proof {
        assert(int_digits(whole) =~= whole.subrange(start as int, n as int));
    }
    if start >= n {
        // No digits at all.
        return None;
    }
    let ghost digits: Seq<u8> = whole.subrange(start as int, n as int);
    // Skip leading zeros so that the number of remaining digits bounds
    // the magnitude.
    let mut i: usize = start;
    while i < n && b[i] == ZERO_BYTE
        invariant
            start <= i <= n,
            n == whole.len(),
            b@ == whole,
            forall|j: int| start <= j < i ==> whole[j] == ZERO_BYTE,
        decreases n - i,
    {
        i = i + 1;
    }
    let ghost sig: Seq<u8> = whole.subrange(i as int, n as int);
    proof {
        assert(digits =~= whole.subrange(start as int, i as int) + sig);
    }
    // Every remaining byte must be a digit, else the literal is
    // malformed.
    let mut j: usize = i;
    while j < n
        invariant
            i <= j <= n,
            n == whole.len(),
            b@ == whole,
            forall|k: int| i <= k < j ==> is_digit(#[trigger] whole[k]),
        decreases n - j,
    {
        if b[j] < ZERO_BYTE || b[j] > 57 {
            proof {
                assert(!is_digit(whole[j as int]));
                assert(!int_text_ok(whole)) by {
                    if int_text_ok(whole) {
                        assert(digits[j - start] == whole[j as int]);
                        assert(is_digit(digits[j - start]));
                    }
                }
            }
            return None;
        }
        j = j + 1;
    }
    proof {
        assert(forall|k: int| 0 <= k < sig.len() ==> is_digit(#[trigger] sig[k]));
        assert(forall|k: int|
            0 <= k < digits.len() ==> is_digit(#[trigger] digits[k])) by {
            assert(forall|k: int| 0 <= k < i - start ==> #[trigger] digits[k] == ZERO_BYTE);
        }
        assert(int_text_ok(whole));
        lemma_leading_zeros(whole.subrange(start as int, i as int), sig);
        assert(digits_value(digits) == digits_value(sig));
    }
    if n - i > 10 {
        // At least eleven significant digits: the magnitude exceeds
        // the 32-bit range no matter what they are.
        proof {
            assert(sig[0] != ZERO_BYTE);
            lemma_digits_value_lower(sig);
            assert(pow10((sig.len() - 1) as nat) >= pow10(10)) by {
                lemma_pow10_mono(10, (sig.len() - 1) as nat);
            }
            assert(pow10(10) == 10_000_000_000) by {
                reveal_with_fuel(pow10, 11);
            }
        }
        return None;
    }
    let mut acc: u64 = 0;
    let mut p: usize = i;
    while p < n
        invariant
            i <= p <= n,
            n == whole.len(),
            b@ == whole,
            n - i <= 10,
            forall|k: int| i <= k < n ==> is_digit(#[trigger] whole[k]),
            acc == digits_value(whole.subrange(i as int, p as int)),
            acc < 10_000_000_000,
        decreases n - p,
    {
        let ghost pre: Seq<u8> = whole.subrange(i as int, p as int);
        proof {
            assert(forall|k: int| 0 <= k < pre.len() ==> is_digit(#[trigger] pre[k]));
            lemma_digits_value_upper(pre);
            assert(pow10(pre.len()) <= pow10(9)) by {
                lemma_pow10_mono(pre.len(), 9);
            }
            assert(pow10(9) == 1_000_000_000) by {
                reveal_with_fuel(pow10, 10);
            }
        }
        let d: u8 = b[p] - ZERO_BYTE;
        acc = acc * 10 + (d as u64);
        p = p + 1;
        proof {
            assert(whole.subrange(i as int, p as int).drop_last() =~= pre);
        }
    }
    proof {
        assert(whole.subrange(i as int, n as int) =~= sig);
        assert(acc == digits_value(digits));
    }
    if neg {
        if acc <= 0x8000_0000 {
            let v: i64 = -(acc as i64);
            Some(v as i32)
        } else {
            None
        }
    } else {
        if acc <= 0x7fff_ffff {
            Some(acc as i32)
        } else {
            None
        }
    }
}

/// Ten to any power is positive.
proof fn lemma_pow10_pos(a: nat)
    ensures
        pow10(a) >= 1,
    decreases a,
{
    if a > 0 {
        lemma_pow10_pos((a - 1) as nat);
    }
}

/// Ten to a larger power is at least ten to a smaller one.
proof fn lemma_pow10_mono(a: nat, c: nat)
    requires
        a <= c,
    ensures
        pow10(a) <= pow10(c),
    decreases c,
{
    lemma_pow10_pos(a);
    if a < c {
        lemma_pow10_mono(a, (c - 1) as nat);
        lemma_pow10_pos((c - 1) as nat);
    }
}

} // verus!
