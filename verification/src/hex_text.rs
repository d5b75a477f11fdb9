//! Bytes as hexadecimal text.

use vstd::prelude::*;
use vstd::string::*;
use vstd::utf8::*;

verus! {

/// The lower-case hexadecimal digit of `n`.
pub open spec fn nibble_char(n: int) -> char {
    if n < 10 {
        (n + 48) as char
    } else {
        (n + 87) as char
    }
}

/// Two lower-case digits for each byte, the high one first.
pub open spec fn hex_chars(bytes: Seq<u8>) -> Seq<char> {
    Seq::new(
        2 * bytes.len(),
        |i: int|
            if i % 2 == 0 {
                nibble_char((bytes[i / 2] / 16) as int)
            } else {
                nibble_char((bytes[i / 2] % 16) as int)
            },
    )
}

fn nibble(n: u8) -> (c: char)
    requires
        n < 16,
    ensures
        c == nibble_char(n as int),
{
    if n < 10 {
        (n + 48) as char
    } else {
        (n + 87) as char
    }
}

/// The lower-case hexadecimal form of `bytes`.
pub fn hex_encode(bytes: &[u8]) -> (s: String)
    ensures
        s@ == hex_chars(bytes@),
{
    let mut s: String = String::new();
    let mut i: usize = 0;
    while i < bytes.len()
        invariant
            i <= bytes.len(),
            s@ == hex_chars(bytes@.take(i as int)),
        decreases bytes.len() - i,
    {
        let b: u8 = bytes[i];
        s.push(nibble(b / 16));
        s.push(nibble(b % 16));
        i += 1;
        proof {
            let done = hex_chars(bytes@.take(i as int));
            assert(s@.len() == done.len());
            assert forall|k: int| 0 <= k < done.len() implies s@[k] == done[k] by {
                if k < 2 * (i - 1) {
                    assert(bytes@.take(i as int)[k / 2] == bytes@.take(i - 1)[k / 2]);
                } else {
                    assert(k / 2 == i - 1);
                    assert(bytes@.take(i as int)[i - 1] == b);
                }
            }
            assert(s@ =~= done);
        }
    }
    assert(bytes@.take(i as int) =~= bytes@);
    s
}

/// The value of a hexadecimal digit, of either case.
pub open spec fn nibble_value(b: u8) -> Option<int> {
    if 48 <= b <= 57 {
        Some(b - 48)
    } else if 97 <= b <= 102 {
        Some(b - 87)
    } else if 65 <= b <= 70 {
        Some(b - 55)
    } else {
        None
    }
}

/// What two hexadecimal digits stand for, the high one first.
pub open spec fn pair_value(a: u8, b: u8) -> Option<int> {
    match (nibble_value(a), nibble_value(b)) {
        (Some(hi), Some(lo)) => Some(16 * hi + lo),
        _ => None,
    }
}

/// The value of a hexadecimal digit, of either case.
pub fn digit_value(b: u8) -> (v: Option<u8>)
    ensures
        match nibble_value(b) {
            Some(n) => v is Some && v->0 == n && n < 16,
            None => v is None,
        },
{
    if 48 <= b && b <= 57 {
        Some(b - 48)
    } else if 97 <= b && b <= 102 {
        Some(b - 87)
    } else if 65 <= b && b <= 70 {
        Some(b - 55)
    } else {
        None
    }
}

/// Reads one byte from its two digits.
pub fn byte_from_pair(a: u8, b: u8) -> (v: Option<u8>)
    ensures
        match pair_value(a, b) {
            Some(n) => v is Some && v->0 == n,
            None => v is None,
        },
{
    match (digit_value(a), digit_value(b)) {
        (Some(hi), Some(lo)) => Some(16 * hi + lo),
        _ => None,
    }
}

/// Whether `s` is made of `n` pairs of hexadecimal digits.
pub open spec fn is_hex_of(s: Seq<u8>, n: int) -> bool {
    s.len() == 2 * n && forall|i: int| 0 <= i < n ==> #[trigger] pair_value(s[2 * i], s[2 * i + 1])
        is Some
}

/// The bytes that the pairs of `s` stand for.
pub open spec fn hex_bytes(s: Seq<u8>, n: nat) -> Seq<u8> {
    Seq::new(n, |i: int| pair_value(s[2 * i], s[2 * i + 1])->0 as u8)
}

// ---- bytes as numbers -----------------------------------------------------------------

/// What two characters stand for as a number: two digits, or one digit behind a plus
/// sign.
pub open spec fn pair_number(a: u8, b: u8) -> Option<int> {
    if a == 43 {
        nibble_value(b)
    } else {
        pair_value(a, b)
    }
}

/// Reads one byte from a number of two characters.
pub fn byte_from_number(a: u8, b: u8) -> (v: Option<u8>)
    ensures
        match pair_number(a, b) {
            Some(n) => v is Some && v->0 == n,
            None => v is None,
        },
{
    if a == 43 {
        digit_value(b)
    } else {
        byte_from_pair(a, b)
    }
}

/// Whether `s` is made of `n` numbers of two characters.
pub open spec fn is_numbers_of(s: Seq<u8>, n: int) -> bool {
    s.len() == 2 * n && forall|i: int|
        0 <= i < n ==> #[trigger] pair_number(s[2 * i], s[2 * i + 1]) is Some
}

/// The bytes that the numbers in `s` stand for.
pub open spec fn number_bytes(s: Seq<u8>, n: nat) -> Seq<u8> {
    Seq::new(n, |i: int| pair_number(s[2 * i], s[2 * i + 1])->0 as u8)
}

/// Reads thirty-two bytes from sixty-four characters, each byte as a number of its
/// own: a plus sign may stand in place of its first digit.
pub fn hex_decode_32(s: &str) -> (r: Option<[u8; 32]>)
    ensures
        r is Some <==> is_numbers_of(s.spec_bytes(), 32),
        r is Some ==> r->0@ == number_bytes(s.spec_bytes(), 32),
{
    let raw = s.as_bytes();
    if raw.len() != 64 {
        return None;
    }
    let mut out: [u8; 32] = [0u8; 32];
    let mut i: usize = 0;
    while i < 32
        invariant
            i <= 32,
            raw@ == s.spec_bytes(),
            raw@.len() == 64,
            forall|k: int|
                0 <= k < i ==> #[trigger] pair_number(raw@[2 * k], raw@[2 * k + 1]) is Some,
            forall|k: int| 0 <= k < i ==> #[trigger] out@[k] == number_bytes(raw@, 32)[k],
        decreases 32 - i,
    {
        match byte_from_number(raw[2 * i], raw[2 * i + 1]) {
            Some(b) => {
                out[i] = b;
            },
            None => {
                assert(pair_number(raw@[2 * i as int], raw@[2 * i as int + 1]) is None);
                return None;
            },
        }
        i += 1;
    }
    assert(out@ =~= number_bytes(raw@, 32));
    Some(out)
}

/// The digits of the hexadecimal form of some bytes are those of the bytes.
pub proof fn hex_digits_read_back(bytes: Seq<u8>, i: int)
    requires
        0 <= i < bytes.len(),
    ensures
        encode_utf8(hex_chars(bytes)).len() == 2 * bytes.len(),
        nibble_value(encode_utf8(hex_chars(bytes))[2 * i]) == Some((bytes[i] / 16) as int),
        nibble_value(encode_utf8(hex_chars(bytes))[2 * i + 1]) == Some((bytes[i] % 16) as int),
{
    let chars = hex_chars(bytes);
    assert forall|i: int| 0 <= i < chars.len() implies '\0' <= #[trigger] chars[i] <= '\u{7f}' by {
        assert(bytes[i / 2] / 16 < 16);
    }
    is_ascii_chars_encode_utf8(chars);
    let s = encode_utf8(chars);
    assert(2 * i / 2 == i && (2 * i + 1) / 2 == i);
    assert(s[2 * i] == chars[2 * i] as u8);
    assert(s[2 * i + 1] == chars[2 * i + 1] as u8);
    nibble_reads_back((bytes[i] / 16) as int);
    nibble_reads_back((bytes[i] % 16) as int);
}

/// Decoding the hexadecimal form of some bytes gives those bytes back.
pub proof fn hex_round_trip(bytes: Seq<u8>)
    ensures
        is_hex_of(encode_utf8(hex_chars(bytes)), bytes.len() as int),
        hex_bytes(encode_utf8(hex_chars(bytes)), bytes.len()) == bytes,
        is_numbers_of(encode_utf8(hex_chars(bytes)), bytes.len() as int),
        number_bytes(encode_utf8(hex_chars(bytes)), bytes.len()) == bytes,
{
    let s = encode_utf8(hex_chars(bytes));
    if bytes.len() == 0 {
        assert(hex_chars(bytes) =~= Seq::<char>::empty());
    } else {
        hex_digits_read_back(bytes, 0);
    }
    assert forall|i: int| 0 <= i < bytes.len() implies #[trigger] pair_value(s[2 * i], s[2 * i + 1])
        == Some(bytes[i] as int) by {
        hex_digits_read_back(bytes, i);
    }
    assert forall|i: int| 0 <= i < bytes.len() implies #[trigger] pair_number(
        s[2 * i],
        s[2 * i + 1],
    ) == Some(bytes[i] as int) by {
        hex_digits_read_back(bytes, i);
    }
    assert(hex_bytes(s, bytes.len()) =~= bytes);
    assert(number_bytes(s, bytes.len()) =~= bytes);
}

proof fn nibble_reads_back(n: int)
    requires
        0 <= n < 16,
    ensures
        nibble_value(nibble_char(n) as u8) == Some(n),
{
}

/// A byte is written as the digits of its sixteens and of its ones, in this order, with
/// small letters. In reading, capital letters mean the same, and no other character
/// means anything.
pub proof fn hex_digits_mean_sixteens_and_ones(bytes: Seq<u8>, i: int, b: u8)
    requires
        0 <= i < bytes.len(),
    ensures
        hex_chars(bytes).len() == 2 * bytes.len(),
        bytes[i] < 160 ==> hex_chars(bytes)[2 * i] as int == '0' as int + bytes[i] / 16,
        bytes[i] >= 160 ==> hex_chars(bytes)[2 * i] as int == 'a' as int + bytes[i] / 16 - 10,
        bytes[i] % 16 < 10 ==> hex_chars(bytes)[2 * i + 1] as int == '0' as int + bytes[i] % 16,
        bytes[i] % 16 >= 10 ==> hex_chars(bytes)[2 * i + 1] as int == 'a' as int + bytes[i] % 16
            - 10,
        0x30 <= b <= 0x39 ==> nibble_value(b) == Some(b - 0x30),
        0x61 <= b <= 0x66 ==> nibble_value(b) == Some(b - 0x61 + 10),
        0x41 <= b <= 0x46 ==> nibble_value(b) == Some(b - 0x41 + 10),
        nibble_value(b) is Some ==> 0x30 <= b <= 0x39 || 0x61 <= b <= 0x66 || 0x41 <= b <= 0x46,
{
}

/// A pair of digits means sixteen times the first and the second.
pub proof fn pairs_mean_sixteens_and_ones(a: u8, b: u8)
    ensures
        pair_value(a, b) is Some <==> nibble_value(a) is Some && nibble_value(b) is Some,
        pair_value(a, b) matches Some(n) ==> n == 16 * nibble_value(a)->0 + nibble_value(b)->0 && 0
            <= n < 256,
{
}

/// A key that was written out is read back.
pub proof fn written_keys_are_read(
    bytes: &[u8],
    s: String,
    text: &str,
    r: Option<[u8; 32]>,
)
    requires
        call_ensures(hex_encode, (bytes,), s),
        bytes@.len() == 32,
        text@ == s@,
        call_ensures(hex_decode_32, (text,), r),
    ensures
        r matches Some(k) && k@ == bytes@,
{
    hex_round_trip(bytes@);
}

} // verus!
