//! Lowercase hex: what `const_hex` produces and accepts, stated over
//! sequences, with the calls into `const_hex` behind trusted wrappers.

use vstd::prelude::*;

verus! {

/// `const_hex::FromHexError`, carried through as an opaque value.
#[verifier::external_type_specification]
#[verifier::external_body]
pub struct ExFromHexError(const_hex::FromHexError);

/// The lowercase hex digit for `n < 16`.
pub open spec fn lower_hex_digit(n: int) -> char {
    seq!['0', '1', '2', '3', '4', '5', '6', '7', '8', '9', 'a', 'b', 'c', 'd', 'e', 'f'][n]
}

/// Lowercase hex encoding: two digits per byte, high nibble first.
pub open spec fn hex_lower(bytes: Seq<u8>) -> Seq<char> {
    Seq::new(
        2 * bytes.len(),
        |i: int|
            if i % 2 == 0 {
                lower_hex_digit((bytes[i / 2] / 16) as int)
            } else {
                lower_hex_digit((bytes[i / 2] % 16) as int)
            },
    )
}

/// `c` is one of `0-9a-f`.
pub open spec fn is_lower_hex_char(c: char) -> bool {
    ('0' <= c <= '9') || ('a' <= c <= 'f')
}

/// Every character of `s` is one of `0-9a-f`.
pub open spec fn all_lower_hex(s: Seq<char>) -> bool {
    forall|i: int| 0 <= i < s.len() ==> is_lower_hex_char(#[trigger] s[i])
}

/// The value of a lowercase hex digit.
pub open spec fn lower_hex_value(c: char) -> int {
    if c <= '9' {
        c as int - '0' as int
    } else {
        c as int - 'a' as int + 10
    }
}

/// Decoding of a string of lowercase hex digits of even length.
pub open spec fn hex_decode_lower(s: Seq<char>) -> Seq<u8> {
    Seq::new(
        s.len() / 2,
        |i: int| (lower_hex_value(s[2 * i]) * 16 + lower_hex_value(s[2 * i + 1])) as u8,
    )
}

/// `b` is an ASCII hex digit of either case.
pub open spec fn is_hex_byte(b: u8) -> bool {
    (48 <= b <= 57) || (97 <= b <= 102) || (65 <= b <= 70)
}

/// The value of an ASCII hex digit of either case.
pub open spec fn hex_byte_value(b: u8) -> int {
    if b <= 57 {
        b - 48
    } else if b <= 70 {
        b - 65 + 10
    } else {
        b - 97 + 10
    }
}

/// `input` without a leading `0x` or `0X`.
pub open spec fn strip_0x(input: Seq<u8>) -> Seq<u8> {
    if input.len() >= 2 && input[0] == 48 && (input[1] == 120 || input[1] == 88) {
        input.subrange(2, input.len() as int)
    } else {
        input
    }
}

/// What `const_hex::decode_to_array::<_, 32>` returns for `input`: the
/// length must be even, the digits (after an optional `0x`) must be exactly
/// 64 hex digits of either case.
pub open spec fn decode_hex_32(input: Seq<u8>) -> Option<Seq<u8>> {
    let digits = strip_0x(input);
    if input.len() % 2 != 0 || digits.len() != 64 || !(forall|i: int|
        0 <= i < digits.len() ==> is_hex_byte(#[trigger] digits[i])) {
        None
    } else {
        Some(
            Seq::new(
                32,
                |i: int|
                    (hex_byte_value(digits[2 * i]) * 16 + hex_byte_value(digits[2 * i + 1])) as u8,
            ),
        )
    }
}

/// Encodes `data` as lowercase hex.
///
/// Trusted: calls `const_hex::encode`, which per its documentation writes
/// each byte as two lowercase hex digits, high nibble first.
#[verifier::external_body]
pub(crate) fn encode(data: &[u8]) -> (s: String)
    ensures
        s@ == hex_lower(data@),
{
    const_hex::encode(data)
}

/// Decodes 64 hex digits (either case, optional `0x`) into 32 bytes.
///
/// Trusted: calls `const_hex::decode_to_array`, whose source checks for an
/// even length, strips a `0x`/`0X` prefix, requires exactly twice the
/// output length in digits, and accepts digits of either case. Which
/// `FromHexError` variant comes back is left unsaid.
#[verifier::external_body]
pub(crate) fn decode_to_array_32(input: &[u8]) -> (r: Result<[u8; 32], const_hex::FromHexError>)
    ensures
        r is Ok <==> decode_hex_32(input@) is Some,
        r matches Ok(a) ==> decode_hex_32(input@) == Some(a@),
{
    const_hex::decode_to_array(input)
}

/// Whether every character of `s` is a lowercase hex digit.
pub fn is_lower_hex(s: &[char]) -> (b: bool)
    ensures
        b == all_lower_hex(s@),
{
    let mut i: usize = 0;
    while i < s.len()
        invariant
            i <= s.len(),
            forall|j: int| 0 <= j < i ==> is_lower_hex_char(#[trigger] s@[j]),
        decreases s.len() - i,
    {
        let c = s[i];
        if !(('0' <= c && c <= '9') || ('a' <= c && c <= 'f')) {
            return false;
        }
        i = i + 1;
    }
    true
}

/// Lowercase hex digits are ASCII, so their UTF-8 bytes are the characters.
pub proof fn lemma_lower_hex_utf8(s: Seq<char>)
    requires
        all_lower_hex(s),
    ensures
        vstd::utf8::encode_utf8(s) == Seq::new(s.len(), |i: int| s[i] as u8),
{
    assert forall|i: int| 0 <= i < s.len() implies '\0' <= #[trigger] s[i] <= '\u{7f}' by {
        assert(is_lower_hex_char(s[i]));
    }
    vstd::utf8::is_ascii_chars_encode_utf8(s);
    assert(vstd::utf8::encode_utf8(s) =~= Seq::new(s.len(), |i: int| s[i] as u8));
}

/// Hex encoding yields lowercase hex digits, two per byte.
pub proof fn lemma_hex_lower_is_lower_hex(bytes: Seq<u8>)
    ensures
        all_lower_hex(hex_lower(bytes)),
        hex_lower(bytes).len() == 2 * bytes.len(),
{
    assert forall|i: int| 0 <= i < hex_lower(bytes).len() implies is_lower_hex_char(
        #[trigger] hex_lower(bytes)[i],
    ) by {
        let b = bytes[i / 2];
        let n = if i % 2 == 0 {
            b / 16
        } else {
            b % 16
        };
        assert(0 <= n < 16);
    }
}

/// Decoding lowercase hex gives back the encoded bytes.
pub proof fn lemma_hex_round_trip(bytes: Seq<u8>)
    ensures
        hex_decode_lower(hex_lower(bytes)) == bytes,
{
    let h = hex_lower(bytes);
    assert forall|i: int| 0 <= i < bytes.len() implies #[trigger] hex_decode_lower(h)[i]
        == bytes[i] by {
        let b = bytes[i];
        assert((2 * i) / 2 == i);
        assert((2 * i + 1) / 2 == i);
        assert((2 * i) % 2 == 0);
        assert((2 * i + 1) % 2 == 1);
        assert(lower_hex_value(h[2 * i]) == b / 16);
        assert(lower_hex_value(h[2 * i + 1]) == b % 16);
    }
    assert(hex_decode_lower(h) =~= bytes);
}

/// On lowercase hex of length 64, `const_hex` decodes as `hex_decode_lower`.
pub proof fn lemma_decode_hex_32_lower(s: Seq<char>)
    requires
        s.len() == 64,
        all_lower_hex(s),
    ensures
        decode_hex_32(Seq::new(64, |i: int| s[i] as u8)) == Some(hex_decode_lower(s)),
{
    let bytes = Seq::new(64, |i: int| s[i] as u8);
    assert(strip_0x(bytes) == bytes) by {
        if bytes.len() >= 2 && bytes[0] == 48 {
            assert(is_lower_hex_char(s[1]));
        }
    }
    assert forall|i: int| 0 <= i < bytes.len() implies is_hex_byte(#[trigger] bytes[i]) by {
        assert(is_lower_hex_char(s[i]));
    }
    let d = decode_hex_32(bytes)->0;
    assert forall|i: int| 0 <= i < 32 implies d[i] == #[trigger] hex_decode_lower(s)[i] by {
        assert(is_lower_hex_char(s[2 * i]));
        assert(is_lower_hex_char(s[2 * i + 1]));
        assert(hex_byte_value(bytes[2 * i]) == lower_hex_value(s[2 * i]));
        assert(hex_byte_value(bytes[2 * i + 1]) == lower_hex_value(s[2 * i + 1]));
    }
    assert(d =~= hex_decode_lower(s));
}

/// A lowercase hex digit is the digit of its own value.
proof fn lemma_lower_hex_digit_of_value(c: char)
    requires
        is_lower_hex_char(c),
    ensures
        0 <= lower_hex_value(c) < 16,
        lower_hex_digit(lower_hex_value(c)) == c,
{
    let v = lower_hex_value(c);
    if c <= '9' {
        assert(0 <= v < 10);
    } else {
        assert(10 <= v < 16);
    }
    let digits = seq!['0', '1', '2', '3', '4', '5', '6', '7', '8', '9', 'a', 'b', 'c', 'd', 'e', 'f'];
    assert(digits[v] == c) by {
        assert(forall|k: int| 0 <= k < 10 ==> digits[k] as u32 == '0' as u32 + k);
        assert(forall|k: int| 10 <= k < 16 ==> digits[k] as u32 == 'a' as u32 + (k - 10));
    }
}

/// Encoding what lowercase hex of even length decodes to gives the text
/// back.
pub proof fn lemma_hex_decode_round_trip(s: Seq<char>)
    requires
        all_lower_hex(s),
        s.len() % 2 == 0,
    ensures
        hex_lower(hex_decode_lower(s)) == s,
{
    let d = hex_decode_lower(s);
    let h = hex_lower(d);
    assert forall|i: int| 0 <= i < s.len() implies #[trigger] h[i] == s[i] by {
        let k = i / 2;
        assert(0 <= k < d.len());
        let hi = lower_hex_value(s[2 * k]);
        let lo = lower_hex_value(s[2 * k + 1]);
        lemma_lower_hex_digit_of_value(s[2 * k]);
        lemma_lower_hex_digit_of_value(s[2 * k + 1]);
        assert(d[k] == (hi * 16 + lo) as u8);
        assert(0 <= hi * 16 + lo < 256);
        assert(d[k] / 16 == hi && d[k] % 16 == lo) by (nonlinear_arith)
            requires
                d[k] == hi * 16 + lo,
                0 <= hi < 16,
                0 <= lo < 16,
        ;
        if i % 2 == 0 {
            assert(i == 2 * k);
        } else {
            assert(i == 2 * k + 1);
        }
    }
    assert(h =~= s);
}

} // verus!
