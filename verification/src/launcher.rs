//! Bytecode as a player hands it in: one line of hexadecimal digits.
use vstd::prelude::*;

verus! {

/// Why a line is no bytecode.
#[derive(Clone, Copy, Debug, PartialEq, Eq)]
pub enum BytecodeError {
    /// The byte `c` at `index` is no hexadecimal digit.
    InvalidHexCharacter { c: char, index: usize },
    /// The number of digits is odd.
    OddLength,
    /// The digits do not fill a container of fixed size.
    InvalidStringLength,
}

/// The value of the hexadecimal digit `digit`, upper or lower case.
pub open spec fn hex_digit(digit: u8) -> Option<u8> {
    if 0x30 <= digit <= 0x39 {
        Some((digit - 0x30) as u8)
    } else if 0x61 <= digit <= 0x66 {
        Some((digit - 0x61 + 10) as u8)
    } else if 0x41 <= digit <= 0x46 {
        Some((digit - 0x41 + 10) as u8)
    } else {
        None
    }
}

/// Whether `index` is the first place in `digits` that holds no hexadecimal
/// digit.
pub open spec fn first_bad_digit(digits: Seq<u8>, index: int) -> bool {
    &&& 0 <= index < digits.len()
    &&& hex_digit(digits[index]) is None
    &&& forall|i: int| 0 <= i < index ==> (#[trigger] hex_digit(digits[i])) is Some
}

/// Whether `decoded` is what `digits` stand for: an odd number of digits is
/// refused; else the first byte that is no digit is refused, with its place;
/// else each pair of digits gives one byte, the first digit its high half.
pub open spec fn hex_decoding(digits: Seq<u8>, decoded: Result<Seq<u8>, BytecodeError>) -> bool {
    if digits.len() % 2 != 0 {
        decoded == Err::<Seq<u8>, BytecodeError>(BytecodeError::OddLength)
    } else {
        match decoded {
            Ok(bytes) => {
                &&& bytes.len() * 2 == digits.len()
                &&& forall|i: int|
                    0 <= i < bytes.len() ==> {
                        &&& hex_digit(digits[2 * i]) is Some
                        &&& hex_digit(digits[2 * i + 1]) is Some
                        &&& #[trigger] bytes[i] == hex_digit(digits[2 * i])->0 * 16 + hex_digit(
                            digits[2 * i + 1],
                        )->0
                    }
            },
            Err(BytecodeError::InvalidHexCharacter { c, index }) => {
                &&& first_bad_digit(digits, index as int)
                &&& c == digits[index as int] as char
            },
            Err(_) => false,
        }
    }
}

/// The view of a decoded line.
pub open spec fn decoded_view(decoded: Result<Vec<u8>, BytecodeError>) -> Result<
    Seq<u8>,
    BytecodeError,
> {
    match decoded {
        Ok(bytes) => Ok(bytes@),
        Err(error) => Err(error),
    }
}

/// Whether `c` is white space as `char::is_whitespace` has it: a character
/// with the Unicode property White_Space.
pub uninterp spec fn unicode_white_space(c: char) -> bool;

/// Whether `trimmed` is `line` without the white space at its end.
pub open spec fn trimmed_end(line: Seq<char>, trimmed: Seq<char>) -> bool {
    &&& trimmed.len() <= line.len()
    &&& trimmed == line.subrange(0, trimmed.len() as int)
    &&& trimmed.len() > 0 ==> !unicode_white_space(trimmed.last())
    &&& forall|i: int| trimmed.len() <= i < line.len() ==> unicode_white_space(#[trigger] line[i])
}

/// `str::trim_end`: the line without the white space at its end, white space
/// being what `char::is_whitespace` accepts. What is returned is the start of
/// the line, ends in no white space, and leaves out only white space.
#[verifier::external_body]
fn trim_line_end(line: &str) -> (trimmed: &str)
    ensures
        trimmed@.len() <= line@.len(),
        trimmed@ == line@.subrange(0, trimmed@.len() as int),
        trimmed@.len() > 0 ==> !unicode_white_space(trimmed@.last()),
        forall|i: int| trimmed@.len() <= i < line@.len() ==> unicode_white_space(#[trigger] line@[i]),
{
    line.trim_end()
}

/// `hex::decode`: an odd number of bytes gives `OddLength`; else the bytes
/// are taken in pairs from the front, and the first byte that is none of
/// `0`-`9`, `a`-`f`, `A`-`F` gives `InvalidHexCharacter` with that byte as a
/// character and its index; else each pair gives the byte whose high half is
/// the first digit's value and whose low half is the second's.
#[verifier::external_body]
fn hex_decode(digits: &[u8]) -> (decoded: Result<Vec<u8>, BytecodeError>)
    ensures
        hex_decoding(digits@, decoded_view(decoded)),
{
    match hex::decode(digits) {
        Ok(bytes) => Ok(bytes),
        Err(hex::FromHexError::InvalidHexCharacter { c, index }) => Err(
            BytecodeError::InvalidHexCharacter { c, index },
        ),
        Err(hex::FromHexError::OddLength) => Err(BytecodeError::OddLength),
        Err(hex::FromHexError::InvalidStringLength) => Err(BytecodeError::InvalidStringLength),
    }
}

/// Decodes hexadecimal digits to the bytes they stand for.
pub fn decode_hex(digits: &[u8]) -> (decoded: Result<Vec<u8>, BytecodeError>)
    ensures
        hex_decoding(digits@, decoded_view(decoded)),
{
    hex_decode(digits)
}

/// Decodes a line of bytecode: the white space at its end is dropped and
/// the rest is read as hexadecimal digits.
pub fn decode_bytecode_line(line: &str) -> (decoded: Result<Vec<u8>, BytecodeError>)
    ensures
        exists|trimmed: Seq<char>|
            {
                &&& trimmed_end(line@, trimmed)
                &&& #[trigger] hex_decoding(
                    vstd::utf8::encode_utf8(trimmed),
                    decoded_view(decoded),
                )
            },
{
    let trimmed = trim_line_end(line);
    let decoded = decode_hex(trimmed.as_bytes());
    assert(trimmed_end(line@, trimmed@));
    assert(hex_decoding(vstd::utf8::encode_utf8(trimmed@), decoded_view(decoded)));
    decoded
}

} // verus!
