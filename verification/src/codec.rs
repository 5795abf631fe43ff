//! The fixed base-32 textual encoding of a 64-bit identifier.
//!
//! A `u64` is rendered as exactly 13 characters over the Crockford base-32
//! alphabet (digits and upper-case consonant-friendly letters, skipping
//! `I`, `L`, `O` and `U`).  Decoding is case-insensitive and additionally
//! accepts `o` as `0` and `i`/`l` as `1`; it rejects any other character,
//! any length other than 13, and any string whose leading character would
//! carry the value past 64 bits.

use vstd::prelude::*;

verus! {

/// The canonical (upper-case) character for a base-32 digit value.
pub open spec fn digit_char(d: u64) -> char {
    if d == 0 {
        '0'
    } else if d == 1 {
        '1'
    } else if d == 2 {
        '2'
    } else if d == 3 {
        '3'
    } else if d == 4 {
        '4'
    } else if d == 5 {
        '5'
    } else if d == 6 {
        '6'
    } else if d == 7 {
        '7'
    } else if d == 8 {
        '8'
    } else if d == 9 {
        '9'
    } else if d == 10 {
        'A'
    } else if d == 11 {
        'B'
    } else if d == 12 {
        'C'
    } else if d == 13 {
        'D'
    } else if d == 14 {
        'E'
    } else if d == 15 {
        'F'
    } else if d == 16 {
        'G'
    } else if d == 17 {
        'H'
    } else if d == 18 {
        'J'
    } else if d == 19 {
        'K'
    } else if d == 20 {
        'M'
    } else if d == 21 {
        'N'
    } else if d == 22 {
        'P'
    } else if d == 23 {
        'Q'
    } else if d == 24 {
        'R'
    } else if d == 25 {
        'S'
    } else if d == 26 {
        'T'
    } else if d == 27 {
        'V'
    } else if d == 28 {
        'W'
    } else if d == 29 {
        'X'
    } else if d == 30 {
        'Y'
    } else {
        'Z'
    }
}

/// The digit value a character decodes to, or `None` when the character is
/// outside the accepted alphabet.
pub open spec fn spec_char_value(c: char) -> Option<u64> {
    if c == '0' || c == 'o' || c == 'O' {
        Some(0u64)
    } else if c == '1' || c == 'i' || c == 'I' || c == 'l' || c == 'L' {
        Some(1u64)
    } else if c == '2' {
        Some(2u64)
    } else if c == '3' {
        Some(3u64)
    } else if c == '4' {
        Some(4u64)
    } else if c == '5' {
        Some(5u64)
    } else if c == '6' {
        Some(6u64)
    } else if c == '7' {
        Some(7u64)
    } else if c == '8' {
        Some(8u64)
    } else if c == '9' {
        Some(9u64)
    } else if c == 'a' || c == 'A' {
        Some(10u64)
    } else if c == 'b' || c == 'B' {
        Some(11u64)
    } else if c == 'c' || c == 'C' {
        Some(12u64)
    } else if c == 'd' || c == 'D' {
        Some(13u64)
    } else if c == 'e' || c == 'E' {
        Some(14u64)
    } else if c == 'f' || c == 'F' {
        Some(15u64)
    } else if c == 'g' || c == 'G' {
        Some(16u64)
    } else if c == 'h' || c == 'H' {
        Some(17u64)
    } else if c == 'j' || c == 'J' {
        Some(18u64)
    } else if c == 'k' || c == 'K' {
        Some(19u64)
    } else if c == 'm' || c == 'M' {
        Some(20u64)
    } else if c == 'n' || c == 'N' {
        Some(21u64)
    } else if c == 'p' || c == 'P' {
        Some(22u64)
    } else if c == 'q' || c == 'Q' {
        Some(23u64)
    } else if c == 'r' || c == 'R' {
        Some(24u64)
    } else if c == 's' || c == 'S' {
        Some(25u64)
    } else if c == 't' || c == 'T' {
        Some(26u64)
    } else if c == 'v' || c == 'V' {
        Some(27u64)
    } else if c == 'w' || c == 'W' {
        Some(28u64)
    } else if c == 'x' || c == 'X' {
        Some(29u64)
    } else if c == 'y' || c == 'Y' {
        Some(30u64)
    } else if c == 'z' || c == 'Z' {
        Some(31u64)
    } else {
        None
    }
}

/// Whether a character belongs to the accepted decoding alphabet.
pub open spec fn valid_char(c: char) -> bool {
    spec_char_value(c) is Some
}

/// The digit value of an accepted character.
pub open spec fn char_val(c: char) -> u64 {
    spec_char_value(c).unwrap()
}

/// The canonical rendering decodes back to the digit it came from.
pub proof fn lemma_digit_char_value(d: u64)
    requires
        d < 32,
    ensures
        spec_char_value(digit_char(d)) == Some(d),
{
}

/// The digit value a character decodes to, or `None` when it is outside the
/// accepted alphabet.
pub fn char_value(c: char) -> (r: Option<u64>)
    ensures
        r == spec_char_value(c),
{
    if c == '0' || c == 'o' || c == 'O' {
        Some(0u64)
    } else if c == '1' || c == 'i' || c == 'I' || c == 'l' || c == 'L' {
        Some(1u64)
    } else if c == '2' {
        Some(2u64)
    } else if c == '3' {
        Some(3u64)
    } else if c == '4' {
        Some(4u64)
    } else if c == '5' {
        Some(5u64)
    } else if c == '6' {
        Some(6u64)
    } else if c == '7' {
        Some(7u64)
    } else if c == '8' {
        Some(8u64)
    } else if c == '9' {
        Some(9u64)
    } else if c == 'a' || c == 'A' {
        Some(10u64)
    } else if c == 'b' || c == 'B' {
        Some(11u64)
    } else if c == 'c' || c == 'C' {
        Some(12u64)
    } else if c == 'd' || c == 'D' {
        Some(13u64)
    } else if c == 'e' || c == 'E' {
        Some(14u64)
    } else if c == 'f' || c == 'F' {
        Some(15u64)
    } else if c == 'g' || c == 'G' {
        Some(16u64)
    } else if c == 'h' || c == 'H' {
        Some(17u64)
    } else if c == 'j' || c == 'J' {
        Some(18u64)
    } else if c == 'k' || c == 'K' {
        Some(19u64)
    } else if c == 'm' || c == 'M' {
        Some(20u64)
    } else if c == 'n' || c == 'N' {
        Some(21u64)
    } else if c == 'p' || c == 'P' {
        Some(22u64)
    } else if c == 'q' || c == 'Q' {
        Some(23u64)
    } else if c == 'r' || c == 'R' {
        Some(24u64)
    } else if c == 's' || c == 'S' {
        Some(25u64)
    } else if c == 't' || c == 'T' {
        Some(26u64)
    } else if c == 'v' || c == 'V' {
        Some(27u64)
    } else if c == 'w' || c == 'W' {
        Some(28u64)
    } else if c == 'x' || c == 'X' {
        Some(29u64)
    } else if c == 'y' || c == 'Y' {
        Some(30u64)
    } else if c == 'z' || c == 'Z' {
        Some(31u64)
    } else {
        None
    }
}

/// The canonical 13-character rendering of a value: five bits per character,
/// most significant first, with the leading character carrying only the top
/// four bits.
pub open spec fn canonical_chars(n: u64) -> Seq<char> {
    seq![
        digit_char((n >> 60u64) & 31),
        digit_char((n >> 55u64) & 31),
        digit_char((n >> 50u64) & 31),
        digit_char((n >> 45u64) & 31),
        digit_char((n >> 40u64) & 31),
        digit_char((n >> 35u64) & 31),
        digit_char((n >> 30u64) & 31),
        digit_char((n >> 25u64) & 31),
        digit_char((n >> 20u64) & 31),
        digit_char((n >> 15u64) & 31),
        digit_char((n >> 10u64) & 31),
        digit_char((n >> 5u64) & 31),
        digit_char(n & 31),
    ]
}

/// What a string of characters decodes to: `None` unless it has exactly 13
/// characters, every character is in the alphabet, and the leading character
/// stays within the four bits a `u64` has left for it.
pub open spec fn spec_decode(s: Seq<char>) -> Option<u64> {
    if s.len() == 13 && (forall|i: int| 0 <= i < 13 ==> valid_char(#[trigger] s[i])) && char_val(
        s[0],
    ) < 16 {
        Some(
            (char_val(s[0]) << 60u64) | (char_val(s[1]) << 55u64) | (char_val(s[2]) << 50u64) | (
            char_val(s[3]) << 45u64) | (char_val(s[4]) << 40u64) | (char_val(s[5]) << 35u64) | (
            char_val(s[6]) << 30u64) | (char_val(s[7]) << 25u64) | (char_val(s[8]) << 20u64) | (
            char_val(s[9]) << 15u64) | (char_val(s[10]) << 10u64) | (char_val(s[11]) << 5u64)
                | char_val(s[12]),
        )
    } else {
        None
    }
}

proof fn lemma_low_five_bits_bound()
    by (bit_vector)
    ensures
        forall|x: u64| #[trigger] (x & 31) < 32,
{
}

/// The single-character string for a base-32 digit value.
fn digit_str(d: u64) -> (r: &'static str)
    requires
        d < 32,
    ensures
        r@ == seq![digit_char(d)],
{
    if d == 0 {
        proof {
            reveal_strlit("0");
            assert("0"@ =~= seq![digit_char(d)]);
        }
        "0"
    } else if d == 1 {
        proof {
            reveal_strlit("1");
            assert("1"@ =~= seq![digit_char(d)]);
        }
        "1"
    } else if d == 2 {
        proof {
            reveal_strlit("2");
            assert("2"@ =~= seq![digit_char(d)]);
        }
        "2"
    } else if d == 3 {
        proof {
            reveal_strlit("3");
            assert("3"@ =~= seq![digit_char(d)]);
        }
        "3"
    } else if d == 4 {
        proof {
            reveal_strlit("4");
            assert("4"@ =~= seq![digit_char(d)]);
        }
        "4"
    } else if d == 5 {
        proof {
            reveal_strlit("5");
            assert("5"@ =~= seq![digit_char(d)]);
        }
        "5"
    } else if d == 6 {
        proof {
            reveal_strlit("6");
            assert("6"@ =~= seq![digit_char(d)]);
        }
        "6"
    } else if d == 7 {
        proof {
            reveal_strlit("7");
            assert("7"@ =~= seq![digit_char(d)]);
        }
        "7"
    } else if d == 8 {
        proof {
            reveal_strlit("8");
            assert("8"@ =~= seq![digit_char(d)]);
        }
        "8"
    } else if d == 9 {
        proof {
            reveal_strlit("9");
            assert("9"@ =~= seq![digit_char(d)]);
        }
        "9"
    } else if d == 10 {
        proof {
            reveal_strlit("A");
            assert("A"@ =~= seq![digit_char(d)]);
        }
        "A"
    } else if d == 11 {
        proof {
            reveal_strlit("B");
            assert("B"@ =~= seq![digit_char(d)]);
        }
        "B"
    } else if d == 12 {
        proof {
            reveal_strlit("C");
            assert("C"@ =~= seq![digit_char(d)]);
        }
        "C"
    } else if d == 13 {
        proof {
            reveal_strlit("D");
            assert("D"@ =~= seq![digit_char(d)]);
        }
        "D"
    } else if d == 14 {
        proof {
            reveal_strlit("E");
            assert("E"@ =~= seq![digit_char(d)]);
        }
        "E"
    } else if d == 15 {
        proof {
            reveal_strlit("F");
            assert("F"@ =~= seq![digit_char(d)]);
        }
        "F"
    } else if d == 16 {
        proof {
            reveal_strlit("G");
            assert("G"@ =~= seq![digit_char(d)]);
        }
        "G"
    } else if d == 17 {
        proof {
            reveal_strlit("H");
            assert("H"@ =~= seq![digit_char(d)]);
        }
        "H"
    } else if d == 18 {
        proof {
            reveal_strlit("J");
            assert("J"@ =~= seq![digit_char(d)]);
        }
        "J"
    } else if d == 19 {
        proof {
            reveal_strlit("K");
            assert("K"@ =~= seq![digit_char(d)]);
        }
        "K"
    } else if d == 20 {
        proof {
            reveal_strlit("M");
            assert("M"@ =~= seq![digit_char(d)]);
        }
        "M"
    } else if d == 21 {
        proof {
            reveal_strlit("N");
            assert("N"@ =~= seq![digit_char(d)]);
        }
        "N"
    } else if d == 22 {
        proof {
            reveal_strlit("P");
            assert("P"@ =~= seq![digit_char(d)]);
        }
        "P"
    } else if d == 23 {
        proof {
            reveal_strlit("Q");
            assert("Q"@ =~= seq![digit_char(d)]);
        }
        "Q"
    } else if d == 24 {
        proof {
            reveal_strlit("R");
            assert("R"@ =~= seq![digit_char(d)]);
        }
        "R"
    } else if d == 25 {
        proof {
            reveal_strlit("S");
            assert("S"@ =~= seq![digit_char(d)]);
        }
        "S"
    } else if d == 26 {
        proof {
            reveal_strlit("T");
            assert("T"@ =~= seq![digit_char(d)]);
        }
        "T"
    } else if d == 27 {
        proof {
            reveal_strlit("V");
            assert("V"@ =~= seq![digit_char(d)]);
        }
        "V"
    } else if d == 28 {
        proof {
            reveal_strlit("W");
            assert("W"@ =~= seq![digit_char(d)]);
        }
        "W"
    } else if d == 29 {
        proof {
            reveal_strlit("X");
            assert("X"@ =~= seq![digit_char(d)]);
        }
        "X"
    } else if d == 30 {
        proof {
            reveal_strlit("Y");
            assert("Y"@ =~= seq![digit_char(d)]);
        }
        "Y"
    } else {
        proof {
            reveal_strlit("Z");
            assert("Z"@ =~= seq![digit_char(d)]);
        }
        "Z"
    }
}

/// Render a value as its canonical 13-character base-32 string.
pub fn encode_tsid(n: u64) -> (r: String)
    ensures
        r@ == canonical_chars(n),
{
    proof {
        lemma_low_five_bits_bound();
    }
    let mut s = String::new();
    s.append(digit_str((n >> 60u64) & 31));
    s.append(digit_str((n >> 55u64) & 31));
    s.append(digit_str((n >> 50u64) & 31));
    s.append(digit_str((n >> 45u64) & 31));
    s.append(digit_str((n >> 40u64) & 31));
    s.append(digit_str((n >> 35u64) & 31));
    s.append(digit_str((n >> 30u64) & 31));
    s.append(digit_str((n >> 25u64) & 31));
    s.append(digit_str((n >> 20u64) & 31));
    s.append(digit_str((n >> 15u64) & 31));
    s.append(digit_str((n >> 10u64) & 31));
    s.append(digit_str((n >> 5u64) & 31));
    s.append(digit_str(n & 31));
    proof {
        assert(s@ =~= canonical_chars(n));
    }
    s
}

/// Decode a 13-character base-32 string into the value it denotes.
pub fn decode_tsid(s: &str) -> (r: Option<u64>)
    ensures
        r == spec_decode(s@),
{
    let len = s.unicode_len();
    if len != 13 {
        return None;
    }
    let mut vals: Vec<u64> = Vec::new();
    let mut i: usize = 0;
    while i < 13
        invariant
            s@.len() == 13,
            i <= 13,
            vals@.len() == i as int,
            forall|j: int| 0 <= j < i ==> valid_char(#[trigger] s@[j]) && char_val(s@[j]) == vals@[j],
        decreases 13 - i,
    {
        let c = s.get_char(i);
        match char_value(c) {
            Some(v) => {
                vals.push(v);
            },
            None => {
                proof {
                    assert(!valid_char(s@[i as int]));
                }
                return None;
            },
        }
        i += 1;
    }
    let v0 = vals[0];
    if v0 >= 16 {
        return None;
    }
    let r = (v0 << 60u64) | (vals[1] << 55u64) | (vals[2] << 50u64) | (vals[3] << 45u64) | (vals[4]
        << 40u64) | (vals[5] << 35u64) | (vals[6] << 30u64) | (vals[7] << 25u64) | (vals[8]
        << 20u64) | (vals[9] << 15u64) | (vals[10] << 10u64) | (vals[11] << 5u64) | vals[12];
    Some(r)
}

/// The canonical rendering of any value decodes back to exactly that value.
pub proof fn lemma_decode_canonical(n: u64)
    ensures
        spec_decode(canonical_chars(n)) == Some(n),
{
    lemma_low_five_bits_bound();
    let s = canonical_chars(n);
    assert(s.len() == 13);
    lemma_digit_char_value((n >> 60u64) & 31);
    lemma_digit_char_value((n >> 55u64) & 31);
    lemma_digit_char_value((n >> 50u64) & 31);
    lemma_digit_char_value((n >> 45u64) & 31);
    lemma_digit_char_value((n >> 40u64) & 31);
    lemma_digit_char_value((n >> 35u64) & 31);
    lemma_digit_char_value((n >> 30u64) & 31);
    lemma_digit_char_value((n >> 25u64) & 31);
    lemma_digit_char_value((n >> 20u64) & 31);
    lemma_digit_char_value((n >> 15u64) & 31);
    lemma_digit_char_value((n >> 10u64) & 31);
    lemma_digit_char_value((n >> 5u64) & 31);
    lemma_digit_char_value(n & 31);
    assert forall|i: int| 0 <= i < 13 implies valid_char(#[trigger] s[i]) by {
        if i == 0 {
        } else if i == 1 {
        } else if i == 2 {
        } else if i == 3 {
        } else if i == 4 {
        } else if i == 5 {
        } else if i == 6 {
        } else if i == 7 {
        } else if i == 8 {
        } else if i == 9 {
        } else if i == 10 {
        } else if i == 11 {
        } else {
        }
    }
    assert((n >> 60u64) & 31 < 16) by (bit_vector);
    assert((((n >> 60u64) & 31) << 60u64) | (((n >> 55u64) & 31) << 55u64) | (((n >> 50u64) & 31)
        << 50u64) | (((n >> 45u64) & 31) << 45u64) | (((n >> 40u64) & 31) << 40u64) | (((n
        >> 35u64) & 31) << 35u64) | (((n >> 30u64) & 31) << 30u64) | (((n >> 25u64) & 31) << 25u64)
        | (((n >> 20u64) & 31) << 20u64) | (((n >> 15u64) & 31) << 15u64) | (((n >> 10u64) & 31)
        << 10u64) | (((n >> 5u64) & 31) << 5u64) | (n & 31) == n) by (bit_vector);
}

/// Law: the canonical rendering is injective: distinct values render to
/// distinct strings, so each value has exactly one canonical form.
pub proof fn lemma_canonical_injective(a: u64, b: u64)
    ensures
        canonical_chars(a) == canonical_chars(b) ==> a == b,
{
    lemma_decode_canonical(a);
    lemma_decode_canonical(b);
}

} // verus!
