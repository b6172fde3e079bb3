//! Rendering of selectors.
//!
//! A selector is an opaque four-byte value addressing a constructor or
//! message.  For display and serialization it renders as a four-element
//! array of two-digit uppercase hexadecimal byte strings, each byte
//! individually quoted, the whole array as one string.

use vstd::prelude::*;

verus! {

/// The uppercase hexadecimal digit for `n`.
pub open spec fn hex_digit(n: int) -> char {
    seq!['0', '1', '2', '3', '4', '5', '6', '7', '8', '9', 'A', 'B', 'C', 'D', 'E', 'F'][n]
}

/// The rendering of one byte: `"0x` then two uppercase hexadecimal
/// digits, then a closing quote.
pub open spec fn byte_hex(b: u8) -> Seq<char> {
    seq!['"', '0', 'x', hex_digit(b as int / 16), hex_digit(b as int % 16), '"']
}

/// The rendering of a four-byte selector.
pub open spec fn selector_hex(s: Seq<u8>) -> Seq<char> {
    seq!['['] + byte_hex(s[0]) + seq![','] + byte_hex(s[1]) + seq![','] + byte_hex(s[2]) + seq![
        ','
    ] + byte_hex(s[3]) + seq![']']
}

/// The one-character string for the hexadecimal digit `n`.
fn hex_digit_str(n: u8) -> (r: &'static str)
    requires
        n < 16,
    ensures
        r@.len() == 1,
        r@[0] == hex_digit(n as int),
{
    match n {
        0 => {
            proof {
                reveal_strlit("0");
            }
            "0"
        },
        1 => {
            proof {
                reveal_strlit("1");
            }
            "1"
        },
        2 => {
            proof {
                reveal_strlit("2");
            }
            "2"
        },
        3 => {
            proof {
                reveal_strlit("3");
            }
            "3"
        },
        4 => {
            proof {
                reveal_strlit("4");
            }
            "4"
        },
        5 => {
            proof {
                reveal_strlit("5");
            }
            "5"
        },
        6 => {
            proof {
                reveal_strlit("6");
            }
            "6"
        },
        7 => {
            proof {
                reveal_strlit("7");
            }
            "7"
        },
        8 => {
            proof {
                reveal_strlit("8");
            }
            "8"
        },
        9 => {
            proof {
                reveal_strlit("9");
            }
            "9"
        },
        10 => {
            proof {
                reveal_strlit("A");
            }
            "A"
        },
        11 => {
            proof {
                reveal_strlit("B");
            }
            "B"
        },
        12 => {
            proof {
                reveal_strlit("C");
            }
            "C"
        },
        13 => {
            proof {
                reveal_strlit("D");
            }
            "D"
        },
        14 => {
            proof {
                reveal_strlit("E");
            }
            "E"
        },
        _ => {
            proof {
                reveal_strlit("F");
            }
            "F"
        },
    }
}

/// Renders one byte as a quoted `0x`-prefixed uppercase hexadecimal
/// pair.
fn byte_to_hex(b: u8) -> (r: String)
    ensures
        r@ == byte_hex(b),
{
    proof {
        reveal_strlit("\"0x");
        reveal_strlit("\"");
    }
    let mut s = String::from_str("\"0x");
    s.append(hex_digit_str(b / 16));
    s.append(hex_digit_str(b % 16));
    s.append("\"");
    proof {
        assert(s@ =~= byte_hex(b));
    }
    s
}

/// Renders the four selector bytes exactly as serialization emits
/// them: `["0xHH","0xHH","0xHH","0xHH"]` with uppercase, zero-padded
/// digits.
pub fn serialize_selector(s: &[u8; 4]) -> (r: String)
    ensures
        r@ == selector_hex(s@),
{
    proof {
        reveal_strlit("[");
        reveal_strlit(",");
        reveal_strlit("]");
    }
    let mut out = String::from_str("[");
    let b0 = byte_to_hex(s[0]);
    out.append(b0.as_str());
    out.append(",");
    let b1 = byte_to_hex(s[1]);
    out.append(b1.as_str());
    out.append(",");
    let b2 = byte_to_hex(s[2]);
    out.append(b2.as_str());
    out.append(",");
    let b3 = byte_to_hex(s[3]);
    out.append(b3.as_str());
    out.append("]");
    proof {
        assert(out@ =~= selector_hex(s@));
    }
    out
}

} // verus!
