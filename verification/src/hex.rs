//! Colours as hexadecimal text: the digits, how a colour is written, and how
//! a written colour is read back.

use crate::text::{ascii_lower, same_ignoring_case};
use vstd::prelude::*;

verus! {

/// The largest colour: 24 bits of red, green and blue.
pub const RGB_MAX: u32 = 0xFF_FFFF;

/// The value of a hexadecimal digit, in either case.
pub open spec fn digit_value(c: char) -> Option<nat> {
    if '0' <= c && c <= '9' {
        Some((c as nat - '0' as nat) as nat)
    } else if 'a' <= c && c <= 'f' {
        Some((c as nat - 'a' as nat + 10) as nat)
    } else if 'A' <= c && c <= 'F' {
        Some((c as nat - 'A' as nat + 10) as nat)
    } else {
        None
    }
}

/// The digit that stands for `d`, a lower-case letter from ten on, or an
/// upper-case one where `upper` is set.
pub open spec fn digit_char(d: nat, upper: bool) -> char {
    if d < 10 {
        (d + '0' as nat) as char
    } else if upper {
        (d - 10 + 'A' as nat) as char
    } else {
        (d - 10 + 'a' as nat) as char
    }
}

/// Whether `c` is a digit that `digit_char` writes in the given case.
pub open spec fn is_digit_of_case(c: char, upper: bool) -> bool {
    ('0' <= c && c <= '9') || (if upper {
        'A' <= c && c <= 'F'
    } else {
        'a' <= c && c <= 'f'
    })
}

/// The number that a run of hexadecimal digits stands for, most significant
/// digit first. An empty run, or one with any other character in it, stands
/// for nothing.
pub open spec fn hex_value(s: Seq<char>) -> Option<nat>
    decreases s.len(),
{
    if s.len() == 0 {
        None
    } else if s.len() == 1 {
        digit_value(s[0])
    } else {
        match (hex_value(s.drop_last()), digit_value(s.last())) {
            (Some(high), Some(low)) => Some(16 * high + low),
            _ => None,
        }
    }
}

/// `n` in hexadecimal, padded with zeros on the left to `width` digits and
/// longer where `n` needs more.
pub open spec fn hex_digits(n: nat, width: nat, upper: bool) -> Seq<char>
    decreases n, width,
{
    if n < 16 && width <= 1 {
        seq![digit_char(n, upper)]
    } else {
        hex_digits(n / 16, less_one(width), upper).push(digit_char(n % 16, upper))
    }
}

/// One less than `width`, and zero where `width` is zero.
pub open spec fn less_one(width: nat) -> nat {
    if width == 0 {
        0
    } else {
        (width - 1) as nat
    }
}

/// A colour as `#RRGGBB`, in upper case.
pub open spec fn hash_repr(color: u32) -> Seq<char> {
    seq!['#'] + hex_digits(color as nat, 6, true)
}

/// The colour that a run of hexadecimal digits names, where it fits in 24 bits.
pub open spec fn rgb_of_hex(s: Seq<char>) -> Option<u32> {
    match hex_value(s) {
        Some(v) => if v <= RGB_MAX {
            Some(v as u32)
        } else {
            None
        },
        None => None,
    }
}

/// The colour that `#` and six hexadecimal digits name.
pub open spec fn rgb_of_hash(s: Seq<char>) -> Option<u32> {
    if s.len() == 7 && s[0] == '#' {
        rgb_of_hex(s.skip(1))
    } else {
        None
    }
}

/// A written digit reads back as its value.
pub proof fn lemma_digit_round_trip(d: nat, upper: bool)
    requires
        d < 16,
    ensures
        digit_value(digit_char(d, upper)) == Some(d),
        is_digit_of_case(digit_char(d, upper), upper),
{
}

/// The case of a letter does not change the digit it stands for.
pub proof fn lemma_digit_ignores_case(c: char, d: char)
    requires
        ascii_lower(c) == ascii_lower(d),
    ensures
        digit_value(c) == digit_value(d),
{
}

/// Reading hexadecimal digits does not depend on the case of the letters.
pub proof fn lemma_hex_value_ignores_case(a: Seq<char>, b: Seq<char>)
    requires
        same_ignoring_case(a, b),
    ensures
        hex_value(a) == hex_value(b),
        rgb_of_hex(a) == rgb_of_hex(b),
    decreases a.len(),
{
    if a.len() == 0 {
    } else if a.len() == 1 {
        lemma_digit_ignores_case(a[0], b[0]);
    } else {
        lemma_digit_ignores_case(a.last(), b.last());
        lemma_hex_value_ignores_case(a.drop_last(), b.drop_last());
    }
}

/// A colour after `#` reads the same in either case.
pub proof fn lemma_rgb_of_hash_ignores_case(a: Seq<char>, b: Seq<char>)
    requires
        same_ignoring_case(a, b),
    ensures
        rgb_of_hash(a) == rgb_of_hash(b),
{
    if a.len() == 7 {
        assert(ascii_lower(a[0]) == ascii_lower(b[0]));
        assert(same_ignoring_case(a.skip(1), b.skip(1))) by {
            assert forall|i: int| 0 <= i < a.skip(1).len() implies ascii_lower(
                #[trigger] a.skip(1)[i],
            ) == ascii_lower(#[trigger] b.skip(1)[i]) by {
                assert(a.skip(1)[i] == a[i + 1]);
                assert(b.skip(1)[i] == b[i + 1]);
            }
        }
        lemma_hex_value_ignores_case(a.skip(1), b.skip(1));
    }
}

/// 16 to the power `k`.
pub open spec fn pow16(k: nat) -> nat
    decreases k,
{
    if k == 0 {
        1
    } else {
        16 * pow16((k - 1) as nat)
    }
}

/// What `hex_digits` writes: digits of the chosen case only, at least
/// `width` of them and exactly `width` where `n` fits, which read back as `n`.
pub proof fn lemma_hex_digits(n: nat, width: nat, upper: bool)
    ensures
        hex_digits(n, width, upper).len() >= width,
        hex_digits(n, width, upper).len() >= 1,
        width >= 1 && n < pow16(width) ==> hex_digits(n, width, upper).len() == width,
        forall|i: int|
            0 <= i < hex_digits(n, width, upper).len() ==> is_digit_of_case(
                #[trigger] hex_digits(n, width, upper)[i],
                upper,
            ),
        hex_value(hex_digits(n, width, upper)) == Some(n),
    decreases n, width,
{
    let out = hex_digits(n, width, upper);
    if n < 16 && width <= 1 {
        lemma_digit_round_trip(n, upper);
    } else {
        let rest = hex_digits(n / 16, less_one(width), upper);
        lemma_hex_digits(n / 16, less_one(width), upper);
        lemma_digit_round_trip(n % 16, upper);
        assert(out == rest.push(digit_char(n % 16, upper)));
        assert(out.drop_last() =~= rest);
        assert(out.last() == digit_char(n % 16, upper));
        assert(n == 16 * (n / 16) + n % 16);
        if width >= 1 && n < pow16(width) {
            if width == 1 {
                assert(pow16(1) == 16 * pow16(0));
            } else {
                assert(pow16(width) == 16 * pow16((width - 1) as nat));
                assert(n / 16 < pow16((width - 1) as nat));
            }
        }
    }
}

/// A colour of 24 bits is written as `#` and exactly six upper-case digits,
/// and reads back as itself.
pub proof fn lemma_hash_repr(color: u32)
    requires
        color <= RGB_MAX,
    ensures
        hash_repr(color).len() == 7,
        hash_repr(color)[0] == '#',
        forall|i: int| 1 <= i < 7 ==> is_digit_of_case(#[trigger] hash_repr(color)[i], true),
        rgb_of_hash(hash_repr(color)) == Some(color),
{
    lemma_hex_digits(color as nat, 6, true);
    lemma_pow16_6();
    let digits = hex_digits(color as nat, 6, true);
    assert(hash_repr(color).skip(1) =~= digits);
    assert forall|i: int| 1 <= i < 7 implies is_digit_of_case(
        #[trigger] hash_repr(color)[i],
        true,
    ) by {
        assert(hash_repr(color)[i] == digits[i - 1]);
    }
}

/// A colour of 24 bits is written as exactly six lower-case digits, and
/// reads back as itself.
pub proof fn lemma_lower_repr(color: u32)
    requires
        color <= RGB_MAX,
    ensures
        hex_digits(color as nat, 6, false).len() == 6,
        forall|i: int|
            0 <= i < 6 ==> is_digit_of_case(
                #[trigger] hex_digits(color as nat, 6, false)[i],
                false,
            ),
        rgb_of_hex(hex_digits(color as nat, 6, false)) == Some(color),
{
    lemma_hex_digits(color as nat, 6, false);
    lemma_pow16_6();
}

proof fn lemma_pow16_6()
    ensures
        pow16(6) == 0x100_0000,
{
    reveal_with_fuel(pow16, 7);
}

/// Appending digits multiplies what was read so far: a run that reads as a
/// number keeps reading as a number for every shorter run at its start, and
/// no shorter run reads as more.
pub proof fn lemma_hex_value_prefix(s: Seq<char>, k: int)
    requires
        1 <= k <= s.len(),
        hex_value(s) is Some,
    ensures
        hex_value(s.take(k)) is Some,
        hex_value(s.take(k))->0 <= hex_value(s)->0,
    decreases s.len(),
{
    if k == s.len() {
        assert(s.take(k) =~= s);
    } else {
        assert(s.len() >= 2);
        lemma_hex_value_prefix(s.drop_last(), k);
        assert(s.drop_last().take(k) =~= s.take(k));
    }
}

/// Reads one hexadecimal digit.
pub fn digit_of(c: char) -> (r: Option<u32>)
    ensures
        r is Some <==> digit_value(c) is Some,
        r matches Some(d) ==> digit_value(c) == Some(d as nat) && d < 16,
{
    if '0' <= c && c <= '9' {
        Some(c as u32 - '0' as u32)
    } else if 'a' <= c && c <= 'f' {
        Some(c as u32 - 'a' as u32 + 10)
    } else if 'A' <= c && c <= 'F' {
        Some(c as u32 - 'A' as u32 + 10)
    } else {
        None
    }
}

/// Writes one hexadecimal digit.
pub fn char_of_digit(d: u8, upper: bool) -> (c: char)
    requires
        d < 16,
    ensures
        c == digit_char(d as nat, upper),
{
    if d < 10 {
        ('0' as u8 + d) as char
    } else if upper {
        ('A' as u8 + (d - 10)) as char
    } else {
        ('a' as u8 + (d - 10)) as char
    }
}

/// Appends `n` in hexadecimal to `out`, with at least `width` digits.
pub fn push_hex(out: &mut String, n: u32, width: u32, upper: bool)
    ensures
        final(out)@ == old(out)@ + hex_digits(n as nat, width as nat, upper),
    decreases n, width,
{
    if n < 16 && width <= 1 {
        out.push(char_of_digit(n as u8, upper));
        assert(out@ =~= old(out)@ + hex_digits(n as nat, width as nat, upper));
    } else {
        let rest: u32 = if width == 0 {
            0
        } else {
            width - 1
        };
        push_hex(out, n / 16, rest, upper);
        out.push(char_of_digit((n % 16) as u8, upper));
        proof {
            let high = hex_digits((n / 16) as nat, rest as nat, upper);
            let low = digit_char((n % 16) as nat, upper);
            assert(hex_digits(n as nat, width as nat, upper) == high.push(low));
            assert(out@ =~= old(out)@ + high.push(low));
        }
    }
}

/// A colour as `#RRGGBB`, in upper case and padded with zeros.
pub fn to_hex_repr(color: u32) -> (r: String)
    ensures
        r@ == hash_repr(color),
{
    let mut out = String::new();
    out.push('#');
    push_hex(&mut out, color, 6, true);
    assert(out@ =~= hash_repr(color));
    out
}

/// A colour as six hexadecimal digits, in lower case and padded with zeros.
pub fn to_lower_hex(color: u32) -> (r: String)
    ensures
        r@ == hex_digits(color as nat, 6, false),
{
    let mut out = String::new();
    push_hex(&mut out, color, 6, false);
    assert(out@ =~= hex_digits(color as nat, 6, false));
    out
}

/// Reads a colour written as hexadecimal digits of either case. Any number
/// of digits is read; what they name has to fit in 24 bits.
pub fn parse_hex(s: &str) -> (r: Option<u32>)
    ensures
        r == rgb_of_hex(s@),
{
    let mut acc: u32 = 0;
    for c in it: s.chars()
        invariant
            it.seq() == s@,
            acc <= RGB_MAX,
            it.index() == 0 ==> acc == 0,
            it.index() > 0 ==> hex_value(s@.take(it.index() as int)) == Some(acc as nat),
    {
        let ghost k = it.index() as int;
        proof {
            assert(s@.take(k + 1).drop_last() =~= s@.take(k));
            assert(s@.take(k + 1).last() == c);
            if hex_value(s@) is Some {
                lemma_hex_value_prefix(s@, k + 1);
            }
        }
        match digit_of(c) {
            None => {
                return None;
            },
            Some(d) => {
                let next: u32 = acc * 16 + d;
                assert(hex_value(s@.take(k + 1)) == Some(next as nat));
                if next > RGB_MAX {
                    return None;
                }
                acc = next;
            },
        }
    }
    proof {
        assert(s@.take(s@.len() as int) =~= s@);
    }
    if s.unicode_len() == 0 {
        None
    } else {
        Some(acc)
    }
}

/// Reads a colour written as `#` and six hexadecimal digits of either case.
pub fn parse_hash(s: &str) -> (r: Option<u32>)
    ensures
        r == rgb_of_hash(s@),
{
    if s.unicode_len() != 7 {
        return None;
    }
    if s.get_char(0) != '#' {
        return None;
    }
    let digits = s.substring_char(1, 7);
    assert(digits@ =~= s@.skip(1));
    parse_hex(digits)
}

} // verus!
