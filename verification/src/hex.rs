//! Hexadecimal text of bytes.
use vstd::prelude::*;

use crate::text::char_list;

verus! {

broadcast use vstd::seq_lib::group_seq_properties;

/// The lower-case digit of a value under 16.
pub open spec fn hex_char(v: int) -> char {
    if v < 10 {
        ('0' as int + v) as char
    } else {
        ('a' as int + (v - 10)) as char
    }
}

/// Whether a character is a hexadecimal digit of either case.
pub open spec fn is_hex_digit(c: char) -> bool {
    '0' <= c <= '9' || 'a' <= c <= 'f' || 'A' <= c <= 'F'
}

/// The value of a hexadecimal digit.
pub open spec fn hex_value(c: char) -> int {
    if '0' <= c <= '9' {
        c as int - '0' as int
    } else if 'a' <= c <= 'f' {
        c as int - 'a' as int + 10
    } else {
        c as int - 'A' as int + 10
    }
}

/// The text of bytes: two lower-case digits for each.
pub open spec fn hex_of(bytes: Seq<u8>) -> Seq<char> {
    Seq::new(
        2 * bytes.len(),
        |i: int|
            if i % 2 == 0 {
                hex_char(bytes[i / 2] as int / 16)
            } else {
                hex_char(bytes[i / 2] as int % 16)
            },
    )
}

/// Whether a text stands for whole bytes.
pub open spec fn is_hex_text(s: Seq<char>) -> bool {
    s.len() % 2 == 0 && forall|i: int| 0 <= i < s.len() ==> is_hex_digit(#[trigger] s[i])
}

/// The bytes that a text stands for.
pub open spec fn unhexed(s: Seq<char>) -> Seq<u8> {
    Seq::new(
        s.len() / 2,
        |i: int| (hex_value(s[2 * i]) * 16 + hex_value(s[2 * i + 1])) as u8,
    )
}

fn hex_digit(v: u8) -> (r: char)
    requires
        v < 16,
    ensures
        r == hex_char(v as int),
{
    match v {
        0 => '0',
        1 => '1',
        2 => '2',
        3 => '3',
        4 => '4',
        5 => '5',
        6 => '6',
        7 => '7',
        8 => '8',
        9 => '9',
        10 => 'a',
        11 => 'b',
        12 => 'c',
        13 => 'd',
        14 => 'e',
        _ => 'f',
    }
}

/// The value of a character, where it is a hexadecimal digit.
pub fn digit_value(c: char) -> (r: Option<u8>)
    ensures
        match r {
            Some(v) => is_hex_digit(c) && v == hex_value(c) && v < 16,
            None => !is_hex_digit(c),
        },
{
    if '0' <= c && c <= '9' {
        Some((c as u32 - '0' as u32) as u8)
    } else if 'a' <= c && c <= 'f' {
        Some((c as u32 - 'a' as u32 + 10) as u8)
    } else if 'A' <= c && c <= 'F' {
        Some((c as u32 - 'A' as u32 + 10) as u8)
    } else {
        None
    }
}

/// The text of bytes: two lower-case digits for each.
pub fn hex_text(bytes: &[u8]) -> (r: String)
    ensures
        r@ == hex_of(bytes@),
{
    let mut text = String::new();
    let mut i: usize = 0;
    while i < bytes.len()
        invariant
            i <= bytes@.len(),
            text@ =~= hex_of(bytes@.take(i as int)),
        decreases bytes@.len() - i,
    {
        let ghost head = bytes@.take(i as int);
        let ghost next = bytes@.take(i + 1);
        let b = bytes[i];
        text.push(hex_digit(b / 16));
        text.push(hex_digit(b % 16));
        assert(next =~= head.push(b));
        assert(hex_of(next) =~= hex_of(head).push(hex_char(b as int / 16)).push(
            hex_char(b as int % 16),
        ));
        i += 1;
    }
    assert(bytes@.take(i as int) =~= bytes@);
    text
}

/// The bytes that a text stands for, where it stands for whole bytes.
pub fn unhex(s: &str) -> (r: Option<Vec<u8>>)
    ensures
        match r {
            Some(bytes) => is_hex_text(s@) && bytes@ == unhexed(s@),
            None => !is_hex_text(s@),
        },
{
    let chars = char_list(s);
    let n: usize = chars.len();
    if n % 2 != 0 {
        return None;
    }
    let mut bytes: Vec<u8> = Vec::new();
    let mut i: usize = 0;
    while i < n
        invariant
            chars@ == s@,
            n == s@.len(),
            n % 2 == 0,
            i % 2 == 0,
            i <= n,
            bytes@.len() == i / 2,
            forall|k: int| 0 <= k < i ==> is_hex_digit(#[trigger] s@[k]),
            forall|k: int| 0 <= k < i / 2 ==> #[trigger] bytes@[k] == unhexed(s@)[k],
        decreases n - i,
    {
        let high = digit_value(chars[i]);
        let low = digit_value(chars[i + 1]);
        match (high, low) {
            (Some(high), Some(low)) => {
                bytes.push(high * 16 + low);
                assert(unhexed(s@)[i as int / 2] == high * 16 + low) by {
                    assert(2 * (i as int / 2) == i);
                }
            },
            (None, _) => {
                assert(!is_hex_digit(s@[i as int]));
                return None;
            },
            (_, None) => {
                assert(!is_hex_digit(s@[i + 1]));
                return None;
            },
        }
        i += 2;
    }
    assert(bytes@ =~= unhexed(s@));
    Some(bytes)
}

/// The text of bytes stands for those bytes.
pub proof fn hex_round_trips(bytes: Seq<u8>)
    ensures
        is_hex_text(hex_of(bytes)),
        unhexed(hex_of(bytes)) == bytes,
{
    let s = hex_of(bytes);
    assert forall|i: int| 0 <= i < s.len() implies is_hex_digit(#[trigger] s[i]) by {
        hex_char_is_a_digit(bytes[i / 2] as int / 16);
        hex_char_is_a_digit(bytes[i / 2] as int % 16);
    }
    assert forall|i: int| 0 <= i < bytes.len() implies #[trigger] unhexed(s)[i] == bytes[i] by {
        let b = bytes[i];
        hex_char_is_a_digit(b as int / 16);
        hex_char_is_a_digit(b as int % 16);
        assert((2 * i) / 2 == i && (2 * i) % 2 == 0);
        assert((2 * i + 1) / 2 == i && (2 * i + 1) % 2 == 1);
        assert(s[2 * i] == hex_char(b as int / 16));
        assert(s[2 * i + 1] == hex_char(b as int % 16));
    }
    assert(unhexed(s) =~= bytes);
}

proof fn hex_char_is_a_digit(v: int)
    requires
        0 <= v < 16,
    ensures
        is_hex_digit(hex_char(v)),
        hex_value(hex_char(v)) == v,
{
}

/// Bytes are written with two lower-case digits each, and different bytes
/// differently.
pub proof fn hex_texts_are_lower_case(bytes: Seq<u8>, other: Seq<u8>)
    ensures
        hex_of(bytes).len() == 2 * bytes.len(),
        forall|i: int|
            0 <= i < hex_of(bytes).len() ==> '0' <= #[trigger] hex_of(bytes)[i] <= '9' || 'a'
                <= hex_of(bytes)[i] <= 'f',
        hex_of(bytes) == hex_of(other) ==> bytes == other,
{
    hex_round_trips(bytes);
    hex_round_trips(other);
    assert forall|i: int| 0 <= i < hex_of(bytes).len() implies '0' <= #[trigger] hex_of(bytes)[i]
        <= '9' || 'a' <= hex_of(bytes)[i] <= 'f' by {
        hex_char_is_a_digit(bytes[i / 2] as int / 16);
        hex_char_is_a_digit(bytes[i / 2] as int % 16);
    }
}

/// A digit stands for its value, in either case, and the first of two counts
/// sixteen times.
pub proof fn hex_digits_stand_for_their_value(c: char, s: Seq<char>, i: int)
    requires
        is_hex_text(s),
        0 <= i < s.len() / 2,
    ensures
        '0' <= c <= '9' ==> hex_value(c) == c as int - '0' as int,
        'a' <= c <= 'f' ==> hex_value(c) == c as int - 'a' as int + 10,
        'A' <= c <= 'F' ==> hex_value(c) == c as int - 'A' as int + 10,
        unhexed(s).len() == s.len() / 2,
        unhexed(s)[i] as int == hex_value(s[2 * i]) * 16 + hex_value(s[2 * i + 1]),
{
    assert(is_hex_digit(s[2 * i]));
    assert(is_hex_digit(s[2 * i + 1]));
}

} // verus!
