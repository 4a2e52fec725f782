//! Hexadecimal encoding and decoding of byte buffers.
//!
//! Keys, nonces and ciphertexts cross a text boundary as hexadecimal
//! strings; this module states exactly which strings are accepted and
//! which bytes they denote.

use vstd::prelude::*;

verus! {

/// Why a string failed to parse as hexadecimal.
#[derive(Clone, Copy, Debug, PartialEq, Eq, Structural)]
pub enum FromHexError {
    /// A character outside `0-9`, `a-f`, `A-F`, with the position it stands at.
    InvalidHexCharacter { c: char, index: usize },
    /// Hexadecimal digits come in pairs; the string held an odd number.
    OddLength,
}

/// Whether `c` is a hexadecimal digit, in either case.
pub open spec fn is_hex_digit(c: char) -> bool {
    (48 <= c as u32 && c as u32 <= 57)  // '0' ..= '9'
    || (97 <= c as u32 && c as u32 <= 102)  // 'a' ..= 'f'
    || (65 <= c as u32 && c as u32 <= 70)  // 'A' ..= 'F'
}

/// The numeric value of the hexadecimal digit `c`.
pub open spec fn hex_digit_value(c: char) -> u8
    recommends
        is_hex_digit(c),
{
    if 48 <= c as u32 && c as u32 <= 57 {
        (c as u32 - 48) as u8
    } else if 97 <= c as u32 && c as u32 <= 102 {
        (c as u32 - 87) as u8
    } else if 65 <= c as u32 && c as u32 <= 70 {
        (c as u32 - 55) as u8
    } else {
        0
    }
}

/// The lowercase hexadecimal digit for a value below sixteen.
pub open spec fn hex_char_of(v: u8) -> char
    recommends
        v < 16,
{
    if v == 0 {
        '0'
    } else if v == 1 {
        '1'
    } else if v == 2 {
        '2'
    } else if v == 3 {
        '3'
    } else if v == 4 {
        '4'
    } else if v == 5 {
        '5'
    } else if v == 6 {
        '6'
    } else if v == 7 {
        '7'
    } else if v == 8 {
        '8'
    } else if v == 9 {
        '9'
    } else if v == 10 {
        'a'
    } else if v == 11 {
        'b'
    } else if v == 12 {
        'c'
    } else if v == 13 {
        'd'
    } else if v == 14 {
        'e'
    } else {
        'f'
    }
}

/// The hexadecimal encoding of a byte sequence: two lowercase digits per
/// byte, high nibble first.
pub open spec fn hex_of(bytes: Seq<u8>) -> Seq<char> {
    Seq::new(
        bytes.len() * 2,
        |i: int|
            if i % 2 == 0 {
                hex_char_of((bytes[i / 2] / 16) as u8)
            } else {
                hex_char_of((bytes[i / 2] % 16) as u8)
            },
    )
}

/// The bytes denoted by a sequence of hexadecimal digits, two digits per byte.
pub open spec fn bytes_of_hex(s: Seq<char>) -> Seq<u8>
    recommends
        is_hex_seq(s),
{
    Seq::new(
        s.len() / 2,
        |i: int| (16 * hex_digit_value(s[2 * i]) + hex_digit_value(s[2 * i + 1])) as u8,
    )
}

/// Whether `s` is a well-formed hexadecimal string: an even number of
/// characters, all of them hexadecimal digits.
pub open spec fn is_hex_seq(s: Seq<char>) -> bool {
    s.len() % 2 == 0 && (forall|i: int| 0 <= i < s.len() ==> is_hex_digit(#[trigger] s[i]))
}

/// One lowercase hexadecimal digit as a string slice.
fn hex_digit_str(v: u8) -> (r: &'static str)
    requires
        v < 16,
    ensures
        r@.len() == 1,
        r@[0] == hex_char_of(v),
{
    proof {
        reveal_strlit("0");
        reveal_strlit("1");
        reveal_strlit("2");
        reveal_strlit("3");
        reveal_strlit("4");
        reveal_strlit("5");
        reveal_strlit("6");
        reveal_strlit("7");
        reveal_strlit("8");
        reveal_strlit("9");
        reveal_strlit("a");
        reveal_strlit("b");
        reveal_strlit("c");
        reveal_strlit("d");
        reveal_strlit("e");
        reveal_strlit("f");
    }
    if v == 0 {
        "0"
    } else if v == 1 {
        "1"
    } else if v == 2 {
        "2"
    } else if v == 3 {
        "3"
    } else if v == 4 {
        "4"
    } else if v == 5 {
        "5"
    } else if v == 6 {
        "6"
    } else if v == 7 {
        "7"
    } else if v == 8 {
        "8"
    } else if v == 9 {
        "9"
    } else if v == 10 {
        "a"
    } else if v == 11 {
        "b"
    } else if v == 12 {
        "c"
    } else if v == 13 {
        "d"
    } else if v == 14 {
        "e"
    } else {
        "f"
    }
}

/// Encodes a byte slice as a lowercase hexadecimal string.
pub fn to_hex(bytes: &[u8]) -> (r: String)
    ensures
        r@ == hex_of(bytes@),
{
    let mut out = String::new();
    let mut i: usize = 0;
    while i < bytes.len()
        invariant
            i <= bytes@.len(),
            out@ == hex_of(bytes@.subrange(0, i as int)),
        decreases bytes@.len() - i,
    {
        let b = bytes[i];
        assert(b / 16 < 16 && b % 16 < 16) by (nonlinear_arith)
            requires
                b < 256,
        ;
        out.append(hex_digit_str(b / 16));
        out.append(hex_digit_str(b % 16));
        i = i + 1;
        proof {
            assert(out@ =~= hex_of(bytes@.subrange(0, i as int)));
        }
    }
    proof {
        assert(bytes@.subrange(0, bytes@.len() as int) =~= bytes@);
    }
    out
}

/// The numeric value of `c` when it is a hexadecimal digit.
fn hex_digit_of_char(c: char) -> (r: Option<u8>)
    ensures
        r is Some <==> is_hex_digit(c),
        r is Some ==> r->0 == hex_digit_value(c) && r->0 < 16,
{
    let u = c as u32;
    if 48 <= u && u <= 57 {
        Some((u - 48) as u8)
    } else if 97 <= u && u <= 102 {
        Some((u - 87) as u8)
    } else if 65 <= u && u <= 70 {
        Some((u - 55) as u8)
    } else {
        None
    }
}

/// Decodes a hexadecimal string into bytes. Digits of either case are
/// accepted; the string must hold an even number of digits and nothing
/// else. On failure the error names the first offending character, or
/// reports the odd length.
pub fn from_hex(s: &str) -> (r: Result<Vec<u8>, FromHexError>)
    ensures
        match r {
            Ok(v) => is_hex_seq(s@) && v@ == bytes_of_hex(s@),
            Err(e) => match e {
                FromHexError::OddLength => s@.len() % 2 == 1,
                FromHexError::InvalidHexCharacter { c, index } => s@.len() % 2 == 0
                    && index < s@.len() && s@[index as int] == c && !is_hex_digit(c) && (forall|
                    j: int,
                |
                    0 <= j < index ==> is_hex_digit(#[trigger] s@[j])),
            },
        },
{
    let n = s.unicode_len();
    if n % 2 != 0 {
        return Err(FromHexError::OddLength);
    }
    let mut out: Vec<u8> = Vec::new();
    let mut i: usize = 0;
    while i < n
        invariant
            n == s@.len(),
            n % 2 == 0,
            i % 2 == 0,
            i <= n,
            forall|j: int| 0 <= j < i ==> is_hex_digit(#[trigger] s@[j]),
            out@ == bytes_of_hex(s@.subrange(0, i as int)),
        decreases n - i,
    {
        let c_hi = s.get_char(i);
        let hi = match hex_digit_of_char(c_hi) {
            Some(v) => v,
            None => {
                return Err(FromHexError::InvalidHexCharacter { c: c_hi, index: i });
            },
        };
        let c_lo = s.get_char(i + 1);
        let lo = match hex_digit_of_char(c_lo) {
            Some(v) => v,
            None => {
                return Err(FromHexError::InvalidHexCharacter { c: c_lo, index: i + 1 });
            },
        };
        out.push(16 * hi + lo);
        i = i + 2;
        proof {
            assert(out@ =~= bytes_of_hex(s@.subrange(0, i as int)));
        }
    }
    proof {
        assert(s@.subrange(0, s@.len() as int) =~= s@);
    }
    Ok(out)
}

/// Digit-level inverse: decoding the digit printed for `v` gives back `v`.
proof fn lemma_hex_digit_round(v: u8)
    requires
        v < 16,
    ensures
        is_hex_digit(hex_char_of(v)),
        hex_digit_value(hex_char_of(v)) == v,
{
}

/// Law: hexadecimal encoding loses nothing. The encoding of any byte
/// sequence is a well-formed hexadecimal string of twice the length, and
/// decoding it yields the original bytes.
pub proof fn lemma_hex_round_trip(bytes: Seq<u8>)
    ensures
        hex_of(bytes).len() == 2 * bytes.len(),
        is_hex_seq(hex_of(bytes)),
        bytes_of_hex(hex_of(bytes)) == bytes,
{
    assert forall|i: int| 0 <= i < hex_of(bytes).len() implies is_hex_digit(
        #[trigger] hex_of(bytes)[i],
    ) by {
        let b = bytes[i / 2];
        assert(b / 16 < 16 && b % 16 < 16) by (nonlinear_arith)
            requires
                b < 256,
        ;
        lemma_hex_digit_round((b / 16) as u8);
        lemma_hex_digit_round((b % 16) as u8);
    }
    assert forall|i: int| 0 <= i < bytes.len() implies bytes_of_hex(hex_of(bytes))[i] == bytes[i] by {
        let b = bytes[i];
        assert(b / 16 < 16 && b % 16 < 16) by (nonlinear_arith)
            requires
                b < 256,
        ;
        lemma_hex_digit_round((b / 16) as u8);
        lemma_hex_digit_round((b % 16) as u8);
        assert(16 * (b as int / 16) + b as int % 16 == b as int) by (nonlinear_arith);
    }
    assert(bytes_of_hex(hex_of(bytes)) =~= bytes);
}

} // verus!
