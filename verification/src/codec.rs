//! Byte encodings: big-endian operands of the instruction stream and
//! little-endian values in machine memory.
use vstd::prelude::*;

verus! {

/// The 16-bit number whose big-endian encoding stands at `at` in `bytes`.
pub open spec fn be_u16(bytes: Seq<u8>, at: int) -> u16 {
    (bytes[at] as int * 0x100 + bytes[at + 1] as int) as u16
}

/// The 64-bit number whose big-endian encoding stands at `at` in `bytes`.
pub open spec fn be_u64(bytes: Seq<u8>, at: int) -> u64 {
    (bytes[at] as int * 0x100_0000_0000_0000 + bytes[at + 1] as int * 0x1_0000_0000_0000
        + bytes[at + 2] as int * 0x100_0000_0000 + bytes[at + 3] as int * 0x1_0000_0000
        + bytes[at + 4] as int * 0x100_0000 + bytes[at + 5] as int * 0x1_0000 + bytes[at
        + 6] as int * 0x100 + bytes[at + 7] as int) as u64
}

/// 256 to the power `k`, for the eight byte positions of a 64-bit value.
pub open spec fn byte_weight(k: int) -> int {
    if k == 0 {
        1
    } else if k == 1 {
        0x100
    } else if k == 2 {
        0x1_0000
    } else if k == 3 {
        0x100_0000
    } else if k == 4 {
        0x1_0000_0000
    } else if k == 5 {
        0x100_0000_0000
    } else if k == 6 {
        0x1_0000_0000_0000
    } else if k == 7 {
        0x100_0000_0000_0000
    } else {
        0x1_0000_0000_0000_0000
    }
}

/// Byte `k` of `value`, byte 0 being the least significant.
pub open spec fn le_byte(value: u64, k: int) -> u8 {
    ((value as int / byte_weight(k)) % 0x100) as u8
}

/// The first `width` bytes of the little-endian encoding of `value`: the
/// encoding of `value` truncated to `width` bytes.
pub open spec fn le_bytes(value: u64, width: int) -> Seq<u8> {
    Seq::new(width as nat, |k: int| le_byte(value, k))
}

/// The 64-bit number whose little-endian encoding stands at `at` in `bytes`.
pub open spec fn le_u64(bytes: Seq<u8>, at: int) -> u64 {
    (bytes[at] as int + bytes[at + 1] as int * 0x100 + bytes[at + 2] as int * 0x1_0000 + bytes[at
        + 3] as int * 0x100_0000 + bytes[at + 4] as int * 0x1_0000_0000 + bytes[at + 5] as int
        * 0x100_0000_0000 + bytes[at + 6] as int * 0x1_0000_0000_0000 + bytes[at + 7] as int
        * 0x100_0000_0000_0000) as u64
}

/// `memory` with `data` written over it from index `at` on.
pub open spec fn splice(memory: Seq<u8>, at: int, data: Seq<u8>) -> Seq<u8> {
    Seq::new(
        memory.len(),
        |i: int|
            if at <= i < at + data.len() {
                data[i - at]
            } else {
                memory[i]
            },
    )
}

/// Reads the big-endian 16-bit operand at `at`.
pub fn read_be_u16(bytes: &[u8], at: usize) -> (value: u16)
    requires
        at + 2 <= bytes@.len(),
    ensures
        value == be_u16(bytes@, at as int),
{
    let length: usize = bytes.len();
    assert(at + 2 <= length);
    let high: u16 = bytes[at] as u16;
    let low: u16 = bytes[at + 1] as u16;
    high * 0x100 + low
}

/// Reads the big-endian 64-bit operand at `at`.
pub fn read_be_u64(bytes: &[u8], at: usize) -> (value: u64)
    requires
        at + 8 <= bytes@.len(),
    ensures
        value == be_u64(bytes@, at as int),
{
    let length: usize = bytes.len();
    assert(at + 8 <= length);
    let b0: u64 = bytes[at] as u64;
    let b1: u64 = bytes[at + 1] as u64;
    let b2: u64 = bytes[at + 2] as u64;
    let b3: u64 = bytes[at + 3] as u64;
    let b4: u64 = bytes[at + 4] as u64;
    let b5: u64 = bytes[at + 5] as u64;
    let b6: u64 = bytes[at + 6] as u64;
    let b7: u64 = bytes[at + 7] as u64;
    b0 * 0x100_0000_0000_0000 + b1 * 0x1_0000_0000_0000 + b2 * 0x100_0000_0000 + b3
        * 0x1_0000_0000 + b4 * 0x100_0000 + b5 * 0x1_0000 + b6 * 0x100 + b7
}

/// Encodes the low `width` bytes of `value`, least significant first.
pub fn to_le_bytes(value: u64, width: usize) -> (bytes: Vec<u8>)
    requires
        width <= 8,
    ensures
        bytes@ == le_bytes(value, width as int),
{
    let mut bytes: Vec<u8> = Vec::new();
    let mut rest: u64 = value;
    let mut k: usize = 0;
    while k < width
        invariant
            k <= width <= 8,
            k < 8 ==> rest as int == value as int / byte_weight(k as int),
            bytes@ == le_bytes(value, k as int),
        decreases width - k,
    {
        bytes.push((rest % 0x100) as u8);
        proof {
            lemma_next_byte(value, k as int);
        }
        rest = rest / 0x100;
        k += 1;
    }
    bytes
}

/// Dividing once more by 256 moves on to the next byte position.
pub proof fn lemma_next_byte(value: u64, k: int)
    requires
        0 <= k < 8,
    ensures
        (value as int / byte_weight(k)) / 0x100 == value as int / byte_weight(k + 1),
{
    if k == 0 {
    } else if k == 1 {
        assert((value / 0x100) / 0x100 == value / 0x1_0000) by (bit_vector);
    } else if k == 2 {
        assert((value / 0x1_0000) / 0x100 == value / 0x100_0000) by (bit_vector);
    } else if k == 3 {
        assert((value / 0x100_0000) / 0x100 == value / 0x1_0000_0000) by (bit_vector);
    } else if k == 4 {
        assert((value / 0x1_0000_0000) / 0x100 == value / 0x100_0000_0000) by (bit_vector);
    } else if k == 5 {
        assert((value / 0x100_0000_0000) / 0x100 == value / 0x1_0000_0000_0000) by (bit_vector);
    } else if k == 6 {
        assert((value / 0x1_0000_0000_0000) / 0x100 == value / 0x100_0000_0000_0000)
            by (bit_vector);
    } else {
        assert((value / 0x100_0000_0000_0000) / 0x100 == 0) by (bit_vector);
    }
}

/// Reads the little-endian 64-bit value at `at`.
pub fn read_le_u64(bytes: &[u8], at: usize) -> (value: u64)
    requires
        at + 8 <= bytes@.len(),
    ensures
        value == le_u64(bytes@, at as int),
{
    let length: usize = bytes.len();
    assert(at + 8 <= length);
    let b0: u64 = bytes[at] as u64;
    let b1: u64 = bytes[at + 1] as u64;
    let b2: u64 = bytes[at + 2] as u64;
    let b3: u64 = bytes[at + 3] as u64;
    let b4: u64 = bytes[at + 4] as u64;
    let b5: u64 = bytes[at + 5] as u64;
    let b6: u64 = bytes[at + 6] as u64;
    let b7: u64 = bytes[at + 7] as u64;
    b0 + b1 * 0x100 + b2 * 0x1_0000 + b3 * 0x100_0000 + b4 * 0x1_0000_0000 + b5 * 0x100_0000_0000
        + b6 * 0x1_0000_0000_0000 + b7 * 0x100_0000_0000_0000
}

/// The low `width` bytes of a value, weighted by their positions, add up to
/// the value modulo 256 to the power `width`.
pub proof fn lemma_le_bytes_sum(value: u64, width: int)
    requires
        width == 1 || width == 2 || width == 4 || width == 8,
    ensures
        width == 1 ==> le_byte(value, 0) as int == value as int % 0x100,
        width == 2 ==> le_byte(value, 0) as int + le_byte(value, 1) as int * 0x100 == value as int
            % 0x1_0000,
        width == 4 ==> le_byte(value, 0) as int + le_byte(value, 1) as int * 0x100 + le_byte(
            value,
            2,
        ) as int * 0x1_0000 + le_byte(value, 3) as int * 0x100_0000 == value as int
            % 0x1_0000_0000,
        width == 8 ==> le_byte(value, 0) as int + le_byte(value, 1) as int * 0x100 + le_byte(
            value,
            2,
        ) as int * 0x1_0000 + le_byte(value, 3) as int * 0x100_0000 + le_byte(value, 4) as int
            * 0x1_0000_0000 + le_byte(value, 5) as int * 0x100_0000_0000 + le_byte(value, 6) as int
            * 0x1_0000_0000_0000 + le_byte(value, 7) as int * 0x100_0000_0000_0000
            == value as int,
{
    if width == 2 {
        assert((value % 0x100) + ((value / 0x100) % 0x100) * 0x100 == value % 0x1_0000)
            by (bit_vector);
    } else if width == 4 {
        assert((value % 0x100) + ((value / 0x100) % 0x100) * 0x100 + ((value / 0x1_0000) % 0x100)
            * 0x1_0000 + ((value / 0x100_0000) % 0x100) * 0x100_0000 == value % 0x1_0000_0000)
            by (bit_vector);
    } else if width == 8 {
        assert((value % 0x100) + ((value / 0x100) % 0x100) * 0x100 + ((value / 0x1_0000) % 0x100)
            * 0x1_0000 + ((value / 0x100_0000) % 0x100) * 0x100_0000 + ((value / 0x1_0000_0000)
            % 0x100) * 0x1_0000_0000 + ((value / 0x100_0000_0000) % 0x100) * 0x100_0000_0000 + ((
        value / 0x1_0000_0000_0000) % 0x100) * 0x1_0000_0000_0000 + ((value
            / 0x100_0000_0000_0000) % 0x100) * 0x100_0000_0000_0000 == value) by (bit_vector);
    }
}

/// A value that is stored in `width` bytes at `at` and loaded back as eight
/// bytes from `at` agrees with the value in its low `width` bytes: the load
/// gives the value truncated to `width` bytes, beside what the bytes above
/// them held.
pub proof fn lemma_le_round_trip(memory: Seq<u8>, at: int, value: u64, width: int)
    requires
        width == 1 || width == 2 || width == 4 || width == 8,
        0 <= at,
        at + 8 <= memory.len(),
    ensures
        le_u64(splice(memory, at, le_bytes(value, width)), at) as int % byte_weight(width)
            == value as int % byte_weight(width),
        width == 8 ==> le_u64(splice(memory, at, le_bytes(value, width)), at) == value,
{
    let stored = splice(memory, at, le_bytes(value, width));
    lemma_le_bytes_sum(value, width);
    assert forall|k: int| 0 <= k < width implies stored[at + k] == le_byte(value, k) by {
        assert(le_bytes(value, width)[k] == le_byte(value, k));
    }
    let b0 = stored[at] as int;
    let b1 = stored[at + 1] as int;
    let b2 = stored[at + 2] as int;
    let b3 = stored[at + 3] as int;
    let b4 = stored[at + 4] as int;
    let b5 = stored[at + 5] as int;
    let b6 = stored[at + 6] as int;
    let b7 = stored[at + 7] as int;
    let total = b0 + b1 * 0x100 + b2 * 0x1_0000 + b3 * 0x100_0000 + b4 * 0x1_0000_0000 + b5
        * 0x100_0000_0000 + b6 * 0x1_0000_0000_0000 + b7 * 0x100_0000_0000_0000;
    assert(le_u64(stored, at) as int == total);
    if width == 1 {
        let high = b1 + b2 * 0x100 + b3 * 0x1_0000 + b4 * 0x100_0000 + b5 * 0x1_0000_0000 + b6
            * 0x100_0000_0000 + b7 * 0x1_0000_0000_0000;
        assert(total == b0 + 0x100 * high);
        assert(total % 0x100 == b0);
    } else if width == 2 {
        let low = b0 + b1 * 0x100;
        let high = b2 + b3 * 0x100 + b4 * 0x1_0000 + b5 * 0x100_0000 + b6 * 0x1_0000_0000 + b7
            * 0x100_0000_0000;
        assert(total == low + 0x1_0000 * high);
        assert(total % 0x1_0000 == low);
    } else if width == 4 {
        let low = b0 + b1 * 0x100 + b2 * 0x1_0000 + b3 * 0x100_0000;
        let high = b4 + b5 * 0x100 + b6 * 0x1_0000 + b7 * 0x100_0000;
        assert(total == low + 0x1_0000_0000 * high);
        assert(total % 0x1_0000_0000 == low);
    } else {
        assert(total == value as int);
    }
}

} // verus!
