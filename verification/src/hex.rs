//! Lowercase hexadecimal encoding and decoding of byte strings, and the
//! small fixed-width formatters the display helpers build on.
use vstd::prelude::*;

verus! {

/// The error returned when a string holds a character pair that does not
/// parse as a hexadecimal byte.
#[derive(Clone, Copy, PartialEq, Eq, Structural, Debug)]
pub struct HexParseError;

/// The lowercase hexadecimal digit of a value below 16.
pub open spec fn spec_hex_digit(n: u8) -> char
    recommends
        n < 16,
{
    if n == 0 {
        '0'
    } else if n == 1 {
        '1'
    } else if n == 2 {
        '2'
    } else if n == 3 {
        '3'
    } else if n == 4 {
        '4'
    } else if n == 5 {
        '5'
    } else if n == 6 {
        '6'
    } else if n == 7 {
        '7'
    } else if n == 8 {
        '8'
    } else if n == 9 {
        '9'
    } else if n == 10 {
        'a'
    } else if n == 11 {
        'b'
    } else if n == 12 {
        'c'
    } else if n == 13 {
        'd'
    } else if n == 14 {
        'e'
    } else {
        'f'
    }
}

/// Two lowercase hexadecimal digits of a byte.
pub open spec fn spec_hex2(b: u8) -> Seq<char> {
    seq![spec_hex_digit(b / 16), spec_hex_digit(b % 16)]
}

/// Four lowercase hexadecimal digits of a 16-bit value.
pub open spec fn spec_hex4(n: u16) -> Seq<char> {
    spec_hex2((n / 256) as u8) + spec_hex2((n % 256) as u8)
}

/// The hexadecimal encoding of a byte string: two digits for each byte,
/// in order.
pub open spec fn spec_encode_hex(bs: Seq<u8>) -> Seq<char>
    decreases bs.len(),
{
    if bs.len() == 0 {
        Seq::empty()
    } else {
        spec_encode_hex(bs.drop_last()) + spec_hex2(bs.last())
    }
}

/// Whether a character is a hexadecimal digit, in either case.
pub open spec fn spec_is_hex_char(c: char) -> bool {
    (48 <= c as u32 && c as u32 <= 57) || (97 <= c as u32 && c as u32 <= 102) || (65 <= c as u32
        && c as u32 <= 70)
}

/// The value of a hexadecimal digit character.
pub open spec fn spec_hex_char_val(c: char) -> u8
    recommends
        spec_is_hex_char(c),
{
    if 97 <= c as u32 && c as u32 <= 102 {
        (c as u32 - 87) as u8
    } else if 65 <= c as u32 && c as u32 <= 70 {
        (c as u32 - 55) as u8
    } else {
        ((c as u32 - 48) as u32 % 256) as u8
    }
}

/// Whether two characters parse as one hexadecimal byte: either two
/// digits, or a leading plus sign before a single digit, as the standard
/// integer parser accepts.
pub open spec fn spec_hex_pair_ok(c1: char, c2: char) -> bool {
    (spec_is_hex_char(c1) && spec_is_hex_char(c2)) || (c1 == '+' && spec_is_hex_char(c2))
}

/// The byte value of a two-character hexadecimal pair.
pub open spec fn spec_hex_pair_val(c1: char, c2: char) -> u8
    recommends
        spec_hex_pair_ok(c1, c2),
{
    if c1 == '+' {
        spec_hex_char_val(c2)
    } else {
        (spec_hex_char_val(c1) * 16 + spec_hex_char_val(c2)) as u8
    }
}

/// Whether every two-character pair of the string parses as a
/// hexadecimal byte.
pub open spec fn spec_decode_ok(sq: Seq<char>) -> bool {
    forall|j: int|
        0 <= j < sq.len() / 2 ==> #[trigger] spec_hex_pair_ok(sq[2 * j], sq[2 * j + 1])
}

/// A one-character string holding the lowercase hexadecimal digit of a
/// value below 16.
pub fn hex_digit_str(n: u8) -> (r: &'static str)
    requires
        n < 16,
    ensures
        r@ == seq![spec_hex_digit(n)],
{
    if n == 0 {
        proof {
            reveal_strlit("0");
            assert("0"@ =~= seq!['0']);
        }
        "0"
    } else if n == 1 {
        proof {
            reveal_strlit("1");
            assert("1"@ =~= seq!['1']);
        }
        "1"
    } else if n == 2 {
        proof {
            reveal_strlit("2");
            assert("2"@ =~= seq!['2']);
        }
        "2"
    } else if n == 3 {
        proof {
            reveal_strlit("3");
            assert("3"@ =~= seq!['3']);
        }
        "3"
    } else if n == 4 {
        proof {
            reveal_strlit("4");
            assert("4"@ =~= seq!['4']);
        }
        "4"
    } else if n == 5 {
        proof {
            reveal_strlit("5");
            assert("5"@ =~= seq!['5']);
        }
        "5"
    } else if n == 6 {
        proof {
            reveal_strlit("6");
            assert("6"@ =~= seq!['6']);
        }
        "6"
    } else if n == 7 {
        proof {
            reveal_strlit("7");
            assert("7"@ =~= seq!['7']);
        }
        "7"
    } else if n == 8 {
        proof {
            reveal_strlit("8");
            assert("8"@ =~= seq!['8']);
        }
        "8"
    } else if n == 9 {
        proof {
            reveal_strlit("9");
            assert("9"@ =~= seq!['9']);
        }
        "9"
    } else if n == 10 {
        proof {
            reveal_strlit("a");
            assert("a"@ =~= seq!['a']);
        }
        "a"
    } else if n == 11 {
        proof {
            reveal_strlit("b");
            assert("b"@ =~= seq!['b']);
        }
        "b"
    } else if n == 12 {
        proof {
            reveal_strlit("c");
            assert("c"@ =~= seq!['c']);
        }
        "c"
    } else if n == 13 {
        proof {
            reveal_strlit("d");
            assert("d"@ =~= seq!['d']);
        }
        "d"
    } else if n == 14 {
        proof {
            reveal_strlit("e");
            assert("e"@ =~= seq!['e']);
        }
        "e"
    } else {
        proof {
            reveal_strlit("f");
            assert("f"@ =~= seq!['f']);
        }
        "f"
    }
}

/// Appends the two hexadecimal digits of a byte to a string.
pub fn push_hex2(s: &mut String, b: u8)
    ensures
        final(s)@ == old(s)@ + spec_hex2(b),
{
    s.append(hex_digit_str(b / 16));
    s.append(hex_digit_str(b % 16));
    proof {
        assert(final(s)@ =~= old(s)@ + spec_hex2(b));
    }
}

/// Appends the four hexadecimal digits of a 16-bit value to a string.
pub fn push_hex4(s: &mut String, n: u16)
    ensures
        final(s)@ == old(s)@ + spec_hex4(n),
{
    push_hex2(s, (n / 256) as u8);
    push_hex2(s, (n % 256) as u8);
    proof {
        assert(final(s)@ =~= old(s)@ + spec_hex4(n));
    }
}

/// Encodes a byte string as lowercase hexadecimal, two digits per byte.
pub fn encode_hex(bytes: &[u8]) -> (r: String)
    ensures
        r@ == spec_encode_hex(bytes@),
{
    let mut s = String::new();
    let mut i: usize = 0;
    while i < bytes.len()
        invariant
            i <= bytes@.len(),
            s@ == spec_encode_hex(bytes@.take(i as int)),
        decreases bytes@.len() - i,
    {
        let b = bytes[i];
        push_hex2(&mut s, b);
        proof {
            assert(bytes@.take(i + 1 as int).drop_last() =~= bytes@.take(i as int));
            assert(bytes@.take(i + 1 as int).last() == bytes@[i as int]);
        }
        i = i + 1;
    }
    proof {
        assert(bytes@.take(bytes@.len() as int) =~= bytes@);
    }
    s
}

/// Decodes a string of hexadecimal digit pairs into the bytes they
/// denote. Returns an error exactly when some pair is not hexadecimal.
/// The string must be ASCII and of even length; the parse walks it two
/// characters at a time.
pub fn decode_hex(s: &str) -> (r: Result<Vec<u8>, HexParseError>)
    requires
        s@.len() % 2 == 0,
        vstd::string::is_ascii(s),
    ensures
        r is Ok <==> spec_decode_ok(s@),
        (r matches Ok(v) ==> v@.len() == s@.len() / 2 && forall|j: int|
            0 <= j < v@.len() ==> v@[j] == spec_hex_pair_val(s@[2 * j], s@[2 * j + 1])),
{
    let n = s.unicode_len();
    let mut out: Vec<u8> = Vec::new();
    let mut i: usize = 0;
    while i < n
        invariant
            s@.len() % 2 == 0,
            n == s@.len(),
            i % 2 == 0,
            i <= n,
            out@.len() == i / 2,
            forall|j: int|
                0 <= j < i / 2 ==> #[trigger] spec_hex_pair_ok(s@[2 * j], s@[2 * j + 1]),
            forall|j: int|
                0 <= j < i / 2 ==> out@[j] == spec_hex_pair_val(s@[2 * j], s@[2 * j + 1]),
        decreases n - i,
    {
        let c1 = s.get_char(i);
        let c2 = s.get_char(i + 1);
        let u1 = c1 as u32;
        let u2 = c2 as u32;
        let ok1 = (48 <= u1 && u1 <= 57) || (97 <= u1 && u1 <= 102) || (65 <= u1 && u1 <= 70);
        let ok2 = (48 <= u2 && u2 <= 57) || (97 <= u2 && u2 <= 102) || (65 <= u2 && u2 <= 70);
        if ok2 && (ok1 || u1 == 43) {
            let v2 = hex_char_val(c2);
            if ok1 {
                let v1 = hex_char_val(c1);
                out.push(v1 * 16 + v2);
            } else {
                out.push(v2);
            }
        } else {
            proof {
                let j0 = i as int / 2;
                assert(2 * j0 == i);
                assert(!spec_hex_pair_ok(s@[2 * j0], s@[2 * j0 + 1]));
                assert(j0 < s@.len() / 2);
            }
            return Err(HexParseError);
        }
        i = i + 2;
    }
    Ok(out)
}

/// The value of one hexadecimal digit character.
fn hex_char_val(c: char) -> (r: u8)
    requires
        spec_is_hex_char(c),
    ensures
        r == spec_hex_char_val(c),
        r < 16,
{
    let u = c as u32;
    if 97 <= u && u <= 102 {
        (u - 87) as u8
    } else if 65 <= u && u <= 70 {
        (u - 55) as u8
    } else {
        (u - 48) as u8
    }
}

/// Formats a value as lowercase hexadecimal: with `d == 2`, at least two
/// digits; with `d == 4`, exactly four; any other width falls through
/// both cases and yields the empty string.
pub fn to_hex(number: u16, d: u16) -> (r: String)
    ensures
        d == 2 ==> r@ == spec_hex_min2(number),
        d == 4 ==> r@ == spec_hex4(number),
        d != 2 && d != 4 ==> r@ == Seq::<char>::empty(),
{
    let mut s = String::new();
    if d == 2 {
        if number < 0x100 {
            push_hex2(&mut s, number as u8);
        } else if number < 0x1000 {
            s.append(hex_digit_str((number / 256) as u8));
            push_hex2(&mut s, (number % 256) as u8);
            proof {
                assert(s@ =~= spec_hex_min2(number));
            }
        } else {
            push_hex4(&mut s, number);
        }
    }
    if d == 4 {
        push_hex4(&mut s, number);
    }
    s
}

/// The hexadecimal digits of a 16-bit value, at least two of them:
/// minimum-width-two formatting for the display helpers.
pub open spec fn spec_hex_min2(n: u16) -> Seq<char> {
    if n < 0x100 {
        spec_hex2(n as u8)
    } else if n < 0x1000 {
        seq![spec_hex_digit((n / 256) as u8)] + spec_hex2((n % 256) as u8)
    } else {
        spec_hex4(n)
    }
}

} // verus!
