//! Colours written as hexadecimal text (`RRGGBBAA`).

use vstd::prelude::*;

verus! {

/// The value of a hexadecimal digit, if `c` is one (either case).
pub open spec fn hex_digit(c: char) -> Option<nat> {
    if '0' <= c && c <= '9' {
        Some((c as nat - '0' as nat) as nat)
    } else if 'a' <= c && c <= 'f' {
        Some((c as nat - 'a' as nat + 10) as nat)
    } else if 'A' <= c && c <= 'F' {
        Some((c as nat - 'A' as nat + 10) as nat)
    } else {
        None
    }
}

/// Whether every character of `s` is a hexadecimal digit.
pub open spec fn all_hex(s: Seq<char>) -> bool {
    forall|i: int| 0 <= i < s.len() ==> (#[trigger] hex_digit(s[i])) is Some
}

/// The number that the hexadecimal digits `s` write, most significant first.
pub open spec fn hex_number(s: Seq<char>) -> nat
    decreases s.len(),
{
    if s.len() == 0 {
        0
    } else {
        hex_number(s.drop_last()) * 16 + hex_digit(s.last()).unwrap_or(0)
    }
}

/// The digits of a colour text: what follows an optional leading `+`.
pub open spec fn colour_digits(s: Seq<char>) -> Seq<char> {
    if s.len() > 0 && s[0] == '+' {
        s.subrange(1, s.len() as int)
    } else {
        s
    }
}

/// The colour that `s` writes: one or more hexadecimal digits, after an
/// optional `+`, whose value fits in 32 bits.
pub open spec fn colour_value(s: Seq<char>) -> Option<u32> {
    let d = colour_digits(s);
    if d.len() > 0 && all_hex(d) && hex_number(d) <= u32::MAX {
        Some(hex_number(d) as u32)
    } else {
        None
    }
}

/// A longer run of digits never writes a smaller number.
proof fn lemma_hex_number_grows(s: Seq<char>, j: int)
    requires
        0 <= j <= s.len(),
    ensures
        hex_number(s.subrange(0, j)) <= hex_number(s),
    decreases s.len() - j,
{
    if j < s.len() {
        let t = s.subrange(0, j + 1);
        assert(t.drop_last() =~= s.subrange(0, j));
        lemma_hex_number_grows(s, j + 1);
        assert(s.subrange(0, s.len() as int) =~= s);
    } else {
        assert(s.subrange(0, j) =~= s);
    }
}

fn hex_digit_exec(c: char) -> (r: Option<u32>)
    ensures
        r matches Some(v) ==> hex_digit(c) == Some(v as nat) && v < 16,
        r is None ==> hex_digit(c) is None,
{
    if '0' <= c && c <= '9' {
        Some((c as u32) - ('0' as u32))
    } else if 'a' <= c && c <= 'f' {
        Some((c as u32) - ('a' as u32) + 10)
    } else if 'A' <= c && c <= 'F' {
        Some((c as u32) - ('A' as u32) + 10)
    } else {
        None
    }
}

/// Reads a colour written as hexadecimal text.
pub fn parse_colour(s: &str) -> (r: Option<u32>)
    ensures
        r == colour_value(s@),
{
    let len = s.unicode_len();
    let mut i: usize = 0;
    if len > 0 && s.get_char(0) == '+' {
        i = 1;
    }
    let start = i;
    let ghost d = colour_digits(s@);
    assert(d =~= s@.subrange(start as int, len as int));
    if start == len {
        return None;
    }
    let mut value: u64 = 0;
    while i < len
        invariant
            start <= i <= len,
            len == s@.len(),
            d == s@.subrange(start as int, len as int),
            d == colour_digits(s@),
            value <= u32::MAX,
            value == hex_number(d.subrange(0, i - start)),
            all_hex(d.subrange(0, i - start)),
        decreases len - i,
    {
        let c = s.get_char(i);
        match hex_digit_exec(c) {
            None => {
                assert(hex_digit(d[i - start]) is None);
                assert(!all_hex(d));
                return None;
            },
            Some(v) => {
                let ghost k = i - start;
                let next = value * 16 + v as u64;
                assert(d.subrange(0, k + 1).drop_last() =~= d.subrange(0, k));
                assert(next == hex_number(d.subrange(0, k + 1)));
                if next > u32::MAX as u64 {
                    proof {
                        lemma_hex_number_grows(d, k + 1);
                    }
                    assert(hex_number(d) > u32::MAX);
                    return None;
                }
                value = next;
                i = i + 1;
                assert(all_hex(d.subrange(0, i - start))) by {
                    assert forall|j: int| 0 <= j < i - start implies
                        #[trigger] hex_digit(d.subrange(0, i - start)[j]) is Some by {
                        if j < k {
                            assert(d.subrange(0, k)[j] == d.subrange(0, i - start)[j]);
                        }
                    }
                }
            },
        }
    }
    assert(d.subrange(0, len - start) =~= d);
    Some(value as u32)
}

/// The red, green and blue components of an `RRGGBBAA` colour.
pub open spec fn rgb_of(colour: u32) -> (u8, u8, u8) {
    (
        (colour as nat / 0x1000000) as u8,
        (colour as nat / 0x10000 % 0x100) as u8,
        (colour as nat / 0x100 % 0x100) as u8,
    )
}

/// The red, green and blue components of an `RRGGBBAA` colour.
pub fn rgb(colour: u32) -> (r: (u8, u8, u8))
    ensures
        r == rgb_of(colour),
{
    ((colour / 0x1000000) as u8, (colour / 0x10000 % 0x100) as u8, (colour / 0x100 % 0x100) as u8)
}

} // verus!
