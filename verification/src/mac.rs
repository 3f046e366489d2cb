//! Parsing of hardware addresses written as text.
//!
//! A hardware address is accepted in colon- or hyphen-separated
//! hexadecimal octet notation, such as `00:11:22:33:44:55`, with one
//! separator used consistently. Anything else, in particular an address
//! with fewer or more than 6 octets, is rejected here, before any packet
//! is built.

use vstd::prelude::*;

verus! {

/// Whether `b` is the ASCII code of a hexadecimal digit.
pub open spec fn is_hex_digit(b: u8) -> bool {
    (48 <= b && b <= 57) || (97 <= b && b <= 102) || (65 <= b && b <= 70)
}

/// The value of the hexadecimal digit with ASCII code `b`.
pub open spec fn hex_digit_value(b: u8) -> u8
    recommends
        is_hex_digit(b),
{
    if 48 <= b && b <= 57 {
        (b - 48) as u8
    } else if 97 <= b && b <= 102 {
        (b - 87) as u8
    } else {
        (b - 55) as u8
    }
}

/// Whether `b` is the ASCII code of an accepted octet separator: a colon
/// or a hyphen.
pub open spec fn is_separator(b: u8) -> bool {
    b == 58 || b == 45
}

/// Whether the bytes `s` spell a hardware address: six two-digit
/// hexadecimal octets, joined by one consistent separator, a colon or a
/// hyphen, and nothing else. The separators stand at the positions whose
/// remainder modulo 3 is 2; every other position holds a digit.
pub open spec fn valid_mac_text(s: Seq<u8>) -> bool {
    &&& s.len() == 17
    &&& is_separator(s[2])
    &&& (forall|i: int| 0 <= i < 17 && i % 3 == 2 ==> #[trigger] s[i] == s[2])
    &&& (forall|i: int| 0 <= i < 17 && i % 3 != 2 ==> is_hex_digit(#[trigger] s[i]))
}

/// The six octets spelled by a valid hardware address text.
pub open spec fn mac_octets(s: Seq<u8>) -> Seq<u8> {
    Seq::new(6, |k: int| (hex_digit_value(s[3 * k]) * 16 + hex_digit_value(s[3 * k + 1])) as u8)
}

/// The value of one hexadecimal digit, or `None` where `b` is no digit.
fn hex_value(b: u8) -> (r: Option<u8>)
    ensures
        r is Some <==> is_hex_digit(b),
        r is Some ==> r->0 == hex_digit_value(b),
{
    if 48 <= b && b <= 57 {
        Some(b - 48)
    } else if 97 <= b && b <= 102 {
        Some(b - 87)
    } else if 65 <= b && b <= 70 {
        Some(b - 55)
    } else {
        None
    }
}

/// The value of the octet spelled by the two hexadecimal digits `hi` and
/// `lo`, or `None` where either is no digit.
fn parse_octet(hi: u8, lo: u8) -> (r: Option<u8>)
    ensures
        r is Some <==> (is_hex_digit(hi) && is_hex_digit(lo)),
        r is Some ==> r->0 == (hex_digit_value(hi) * 16 + hex_digit_value(lo)) as u8,
{
    let h = match hex_value(hi) {
        Some(v) => v,
        None => {
            return None;
        },
    };
    let l = match hex_value(lo) {
        Some(v) => v,
        None => {
            return None;
        },
    };
    Some(h * 16 + l)
}

/// Parse a hardware address from bytes of text, in colon- or
/// hyphen-separated hexadecimal octet notation. Exactly six octets are
/// accepted: anything shorter, longer or malformed yields `None`.
pub fn parse_mac(s: &[u8]) -> (r: Option<[u8; 6]>)
    ensures
        r is Some <==> valid_mac_text(s@),
        r is Some ==> r->0@ == mac_octets(s@),
{
    if s.len() != 17 {
        assert(!valid_mac_text(s@));
        return None;
    }
    let sep = s[2];
    if !(sep == 58 || sep == 45) {
        assert(!valid_mac_text(s@));
        return None;
    }
    if s[5] != sep || s[8] != sep || s[11] != sep || s[14] != sep {
        proof {
            if valid_mac_text(s@) {
                assert(s@[5] == s@[2]);
                assert(s@[8] == s@[2]);
                assert(s@[11] == s@[2]);
                assert(s@[14] == s@[2]);
            }
        }
        return None;
    }
    let o0 = match parse_octet(s[0], s[1]) {
        Some(v) => v,
        None => {
            proof {
                if valid_mac_text(s@) {
                    assert(is_hex_digit(s@[0]));
                    assert(is_hex_digit(s@[1]));
                }
            }
            return None;
        },
    };
    let o1 = match parse_octet(s[3], s[4]) {
        Some(v) => v,
        None => {
            proof {
                if valid_mac_text(s@) {
                    assert(is_hex_digit(s@[3]));
                    assert(is_hex_digit(s@[4]));
                }
            }
            return None;
        },
    };
    let o2 = match parse_octet(s[6], s[7]) {
        Some(v) => v,
        None => {
            proof {
                if valid_mac_text(s@) {
                    assert(is_hex_digit(s@[6]));
                    assert(is_hex_digit(s@[7]));
                }
            }
            return None;
        },
    };
    let o3 = match parse_octet(s[9], s[10]) {
        Some(v) => v,
        None => {
            proof {
                if valid_mac_text(s@) {
                    assert(is_hex_digit(s@[9]));
                    assert(is_hex_digit(s@[10]));
                }
            }
            return None;
        },
    };
    let o4 = match parse_octet(s[12], s[13]) {
        Some(v) => v,
        None => {
            proof {
                if valid_mac_text(s@) {
                    assert(is_hex_digit(s@[12]));
                    assert(is_hex_digit(s@[13]));
                }
            }
            return None;
        },
    };
    let o5 = match parse_octet(s[15], s[16]) {
        Some(v) => v,
        None => {
            proof {
                if valid_mac_text(s@) {
                    assert(is_hex_digit(s@[15]));
                    assert(is_hex_digit(s@[16]));
                }
            }
            return None;
        },
    };
    let octets = [o0, o1, o2, o3, o4, o5];
    proof {
        assert forall|i: int| 0 <= i < 17 && i % 3 == 2 implies #[trigger] s@[i] == s@[2] by {
            assert(i == 2 || i == 5 || i == 8 || i == 11 || i == 14);
        }
        assert forall|i: int| 0 <= i < 17 && i % 3 != 2 implies is_hex_digit(#[trigger] s@[i]) by {
            assert(i == 0 || i == 1 || i == 3 || i == 4 || i == 6 || i == 7 || i == 9 || i == 10
                || i == 12 || i == 13 || i == 15 || i == 16);
        }
        assert(valid_mac_text(s@));
        assert(octets@ =~= mac_octets(s@));
    }
    Some(octets)
}

} // verus!
