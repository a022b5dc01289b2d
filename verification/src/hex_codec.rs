use vstd::prelude::*;

verus! {

/// Why a byte string is not a hexadecimal encoding.
#[derive(Clone, Copy, Debug, PartialEq, Eq, Structural)]
pub enum HexError {
    /// A byte that is no hexadecimal digit, with its position.
    InvalidHexCharacter { c: char, index: usize },
    /// The number of digits is odd.
    OddLength,
    /// The decoded length does not fit a fixed-size target.
    InvalidStringLength,
}

/// Value of one ASCII hexadecimal digit (`0-9`, `a-f`, `A-F`).
pub open spec fn hex_digit_value(b: u8) -> Option<u8> {
    if 48 <= b <= 57 {
        Some((b - 48) as u8)
    } else if 65 <= b <= 70 {
        Some((b - 55) as u8)
    } else if 97 <= b <= 102 {
        Some((b - 87) as u8)
    } else {
        None
    }
}

pub open spec fn is_hex_digit(b: u8) -> bool {
    hex_digit_value(b) is Some
}

/// Position of the first byte at or after `from` that is no hexadecimal
/// digit, or the length of `s` when there is none.
pub open spec fn first_non_hex_digit(s: Seq<u8>, from: int) -> int
    decreases s.len() - from,
{
    if from >= s.len() {
        s.len() as int
    } else if !is_hex_digit(s[from]) {
        from
    } else {
        first_non_hex_digit(s, from + 1)
    }
}

/// The bytes that the digit pairs of `s` encode, high nibble first.
pub open spec fn hex_pairs(s: Seq<u8>) -> Seq<u8> {
    Seq::new(
        (s.len() / 2) as nat,
        |k: int|
            (hex_digit_value(s[2 * k]).unwrap() * 16 + hex_digit_value(s[2 * k + 1]).unwrap()) as u8,
    )
}

/// Decoding of a hexadecimal text: an odd length is refused first, then the
/// first byte that is no digit; otherwise each pair of digits gives a byte.
pub open spec fn hex_decoding(s: Seq<u8>) -> Result<Seq<u8>, HexError> {
    if s.len() % 2 != 0 {
        Err(HexError::OddLength)
    } else if first_non_hex_digit(s, 0) < s.len() {
        let i = first_non_hex_digit(s, 0);
        Err(HexError::InvalidHexCharacter { c: s[i] as char, index: i as usize })
    } else {
        Ok(hex_pairs(s))
    }
}

/// Calls `hex::decode`. Its contract claims what the crate's source shows:
/// an odd number of bytes gives `OddLength`; otherwise the first byte that
/// is no digit (upper and lower case both accepted) gives
/// `InvalidHexCharacter` with that byte as a char and its position; otherwise
/// every pair of digits becomes one byte, the first digit as high nibble.
#[verifier::external_body]
pub(crate) fn hex_decode(data: &[u8]) -> (r: Result<Vec<u8>, HexError>)
    ensures
        match r {
            Ok(bytes) => hex_decoding(data@) == Ok::<Seq<u8>, HexError>(bytes@),
            Err(e) => hex_decoding(data@) == Err::<Seq<u8>, HexError>(e),
        },
{
    match hex::decode(data) {
        Ok(bytes) => Ok(bytes),
        Err(hex::FromHexError::InvalidHexCharacter { c, index }) => Err(
            HexError::InvalidHexCharacter { c, index },
        ),
        Err(hex::FromHexError::OddLength) => Err(HexError::OddLength),
        Err(hex::FromHexError::InvalidStringLength) => Err(HexError::InvalidStringLength),
    }
}


/// The lower-case hexadecimal digit for `d < 16`.
pub open spec fn hex_digit_char(d: int) -> u8 {
    if d < 10 {
        (48 + d) as u8
    } else {
        (87 + d) as u8
    }
}

/// The lower-case hexadecimal text of `bytes`, high nibble first.
pub open spec fn hex_encoding(bytes: Seq<u8>) -> Seq<u8> {
    Seq::new(
        2 * bytes.len(),
        |j: int|
            if j % 2 == 0 {
                hex_digit_char(bytes[j / 2] as int / 16)
            } else {
                hex_digit_char(bytes[j / 2] as int % 16)
            },
    )
}

proof fn lemma_no_bad_digit_from(s: Seq<u8>, from: int)
    requires
        0 <= from <= s.len(),
        forall|j: int| 0 <= j < s.len() ==> is_hex_digit(#[trigger] s[j]),
    ensures
        first_non_hex_digit(s, from) == s.len(),
    decreases s.len() - from,
{
    if from < s.len() {
        lemma_no_bad_digit_from(s, from + 1);
    }
}

/// Decoding gives back the bytes whose hexadecimal text it reads.
pub proof fn lemma_decoding_inverts_encoding(bytes: Seq<u8>)
    ensures
        hex_decoding(hex_encoding(bytes)) == Ok::<Seq<u8>, HexError>(bytes),
{
    let s = hex_encoding(bytes);
    assert forall|j: int| 0 <= j < s.len() implies is_hex_digit(#[trigger] s[j]) by {
        let b = bytes[j / 2] as int;
        assert(0 <= b / 16 < 16 && 0 <= b % 16 < 16);
    }
    lemma_no_bad_digit_from(s, 0);
    assert forall|k: int| 0 <= k < bytes.len() implies #[trigger] hex_pairs(s)[k] == bytes[k] by {
        assert((2 * k) % 2 == 0 && (2 * k) / 2 == k);
        assert((2 * k + 1) % 2 == 1 && (2 * k + 1) / 2 == k);
        let b = bytes[k] as int;
        assert(hex_digit_value(hex_digit_char(b / 16)) == Some((b / 16) as u8));
        assert(hex_digit_value(hex_digit_char(b % 16)) == Some((b % 16) as u8));
        assert((b / 16) * 16 + b % 16 == b);
    }
    assert(hex_pairs(s) =~= bytes);
}

} // verus!
