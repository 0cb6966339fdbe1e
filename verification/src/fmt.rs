//! Rendering of numbers as text, the building blocks of every trace line.

use vstd::prelude::*;
use vstd::string::StringExecFns;

verus! {

/// The decimal digits of `n`, most significant first.
pub open spec fn dec_seq(n: nat) -> Seq<char>
    decreases n,
{
    if n < 10 {
        seq![digit_char(n)]
    } else {
        dec_seq(n / 10) + seq![digit_char(n % 10)]
    }
}

/// The character for a single decimal digit.
pub open spec fn digit_char(d: nat) -> char {
    if d == 0 {
        '0'
    } else if d == 1 {
        '1'
    } else if d == 2 {
        '2'
    } else if d == 3 {
        '3'
    } else if d == 4 {
        '4'
    } else if d == 5 {
        '5'
    } else if d == 6 {
        '6'
    } else if d == 7 {
        '7'
    } else if d == 8 {
        '8'
    } else {
        '9'
    }
}

fn digit_str(d: u64) -> (s: &'static str)
    requires
        d < 10,
    ensures
        s@ == seq![digit_char(d as nat)],
{
    proof {
        reveal_strlit("0");
        reveal_strlit("1");
        reveal_strlit("2");
        reveal_strlit("3");
        reveal_strlit("4");
        reveal_strlit("5");
        reveal_strlit("6");
        reveal_strlit("7");
        reveal_strlit("8");
        reveal_strlit("9");
    }
    let s: &'static str = if d == 0 {
        "0"
    } else if d == 1 {
        "1"
    } else if d == 2 {
        "2"
    } else if d == 3 {
        "3"
    } else if d == 4 {
        "4"
    } else if d == 5 {
        "5"
    } else if d == 6 {
        "6"
    } else if d == 7 {
        "7"
    } else if d == 8 {
        "8"
    } else {
        "9"
    };
    proof {
        assert(s@ =~= seq![digit_char(d as nat)]);
    }
    s
}

/// `n` in decimal, most significant digit first, no leading zeros.
pub fn dec_u64(n: u64) -> (s: String)
    ensures
        s@ == dec_seq(n as nat),
    decreases n,
{
    if n < 10 {
        String::from_str(digit_str(n))
    } else {
        proof {
            assert(n / 10 < n) by (nonlinear_arith)
                requires
                    n >= 10,
            ;
        }
        let mut s = dec_u64(n / 10);
        s.append(digit_str(n % 10));
        s
    }
}

/// `i` in decimal with a leading minus sign when negative.
pub open spec fn int_seq(i: int) -> Seq<char> {
    if i < 0 {
        seq!['-'] + dec_seq((-i) as nat)
    } else {
        dec_seq(i as nat)
    }
}

/// `i` in decimal, negative values rendered with a minus sign.
pub fn dec_i64(i: i64) -> (s: String)
    ensures
        s@ == int_seq(i as int),
{
    if i >= 0 {
        dec_u64(i as u64)
    } else {
        proof {
            reveal_strlit("-");
        }
        let mag: i128 = -(i as i128);
        let mut s = String::from_str("-");
        s.append(dec_u64(mag as u64).as_str());
        s
    }
}

/// The character for a single hexadecimal digit.
pub open spec fn hex_char(d: nat) -> char {
    if d < 10 {
        digit_char(d)
    } else if d == 10 {
        'a'
    } else if d == 11 {
        'b'
    } else if d == 12 {
        'c'
    } else if d == 13 {
        'd'
    } else if d == 14 {
        'e'
    } else {
        'f'
    }
}

/// The hexadecimal digits of `n`, most significant first.
pub open spec fn hex_seq(n: nat) -> Seq<char>
    decreases n,
{
    if n < 16 {
        seq![hex_char(n)]
    } else {
        hex_seq(n / 16) + seq![hex_char(n % 16)]
    }
}

fn hex_digit_str(d: u64) -> (s: &'static str)
    requires
        d < 16,
    ensures
        s@ == seq![hex_char(d as nat)],
{
    if d < 10 {
        digit_str(d)
    } else {
        proof {
            reveal_strlit("a");
            reveal_strlit("b");
            reveal_strlit("c");
            reveal_strlit("d");
            reveal_strlit("e");
            reveal_strlit("f");
        }
        let s: &'static str = if d == 10 {
            "a"
        } else if d == 11 {
            "b"
        } else if d == 12 {
            "c"
        } else if d == 13 {
            "d"
        } else if d == 14 {
            "e"
        } else {
            "f"
        };
        proof {
            assert(s@ =~= seq![hex_char(d as nat)]);
        }
        s
    }
}

/// `n` in hexadecimal, most significant digit first, no leading zeros.
pub fn hex_u64(n: u64) -> (s: String)
    ensures
        s@ == hex_seq(n as nat),
    decreases n,
{
    if n < 16 {
        String::from_str(hex_digit_str(n))
    } else {
        proof {
            assert(n / 16 < n) by (nonlinear_arith)
                requires
                    n >= 16,
            ;
        }
        let mut s = hex_u64(n / 16);
        s.append(hex_digit_str(n % 16));
        s
    }
}

/// One byte as exactly two hexadecimal digits.
pub open spec fn hex2_seq(b: u8) -> Seq<char> {
    seq![hex_char((b / 16) as nat), hex_char((b % 16) as nat)]
}

/// Renders `b` as exactly two hexadecimal digits.
pub fn hex2_u8(b: u8) -> (s: String)
    ensures
        s@ == hex2_seq(b),
{
    let mut s = String::from_str(hex_digit_str((b / 16) as u64));
    s.append(hex_digit_str((b % 16) as u64));
    s
}

/// A byte reinterpreted as the character with the same code.
pub open spec fn byte_char(b: u8) -> char {
    b as char
}

/// A byte sequence reinterpreted character by character.
pub open spec fn chars_of(s: Seq<u8>) -> Seq<char> {
    Seq::new(s.len(), |i: int| byte_char(s[i]))
}

/// A byte made safe for display: printable ASCII is kept, everything
/// else becomes a dot.
pub open spec fn sanitize_byte(b: u8) -> u8 {
    if 32 <= b < 127 {
        b
    } else {
        46u8
    }
}

/// A byte sequence made safe for display, byte by byte.
pub open spec fn sanitize_seq(s: Seq<u8>) -> Seq<u8> {
    Seq::new(s.len(), |i: int| sanitize_byte(s[i]))
}

/// Relies on core::str::from_utf8: a buffer of ASCII bytes is valid UTF-8
/// and decodes to the characters with the same codes.
#[verifier::external_body]
fn ascii_to_string(v: &Vec<u8>) -> (s: String)
    requires
        forall|i: int| 0 <= i < v@.len() ==> v@[i] < 128,
    ensures
        s@ == chars_of(v@),
{
    match core::str::from_utf8(v.as_slice()) {
        Ok(s) => s.to_owned(),
        Err(_) => String::new(),
    }
}

/// Renders raw bytes as text for display: printable ASCII is kept, every
/// other byte shows as a dot.
pub fn display_bytes(v: &Vec<u8>) -> (s: String)
    ensures
        s@ == chars_of(sanitize_seq(v@)),
{
    let mut clean: Vec<u8> = Vec::new();
    let mut i: usize = 0;
    while i < v.len()
        invariant
            i <= v@.len(),
            clean@ =~= sanitize_seq(v@).take(i as int),
        decreases v@.len() - i,
    {
        let b = v[i];
        if 32 <= b && b < 127 {
            clean.push(b);
        } else {
            clean.push(46);
        }
        i += 1;
    }
    proof {
        assert(clean@ =~= sanitize_seq(v@));
        assert(forall|j: int| 0 <= j < clean@.len() ==> clean@[j] < 128);
    }
    ascii_to_string(&clean)
}

} // verus!

