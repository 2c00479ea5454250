//! Little-endian integers in byte buffers.
use vstd::prelude::*;

verus! {

/// The four bytes of `x`, least significant first.
#[verifier::opaque]
pub open spec fn spec_u32_to_le_bytes(x: u32) -> Seq<u8> {
    seq![
        (x % 0x100) as u8,
        ((x / 0x100) % 0x100) as u8,
        ((x / 0x1_0000) % 0x100) as u8,
        ((x / 0x100_0000) % 0x100) as u8,
    ]
}

/// The number whose four bytes, least significant first, start `s`.
#[verifier::opaque]
pub open spec fn spec_u32_from_le_bytes(s: Seq<u8>) -> u32
    recommends
        s.len() >= 4,
{
    (s[0] + s[1] * 0x100 + s[2] * 0x1_0000 + s[3] * 0x100_0000) as u32
}

/// The eight bytes of `x`, least significant first.
#[verifier::opaque]
pub open spec fn spec_u64_to_le_bytes(x: u64) -> Seq<u8> {
    seq![
        (x % 0x100) as u8,
        ((x / 0x100) % 0x100) as u8,
        ((x / 0x1_0000) % 0x100) as u8,
        ((x / 0x100_0000) % 0x100) as u8,
        ((x / 0x1_0000_0000) % 0x100) as u8,
        ((x / 0x100_0000_0000) % 0x100) as u8,
        ((x / 0x1_0000_0000_0000) % 0x100) as u8,
        ((x / 0x100_0000_0000_0000) % 0x100) as u8,
    ]
}

/// The number whose eight bytes, least significant first, start `s`.
#[verifier::opaque]
pub open spec fn spec_u64_from_le_bytes(s: Seq<u8>) -> u64
    recommends
        s.len() >= 8,
{
    (s[0] + s[1] * 0x100 + s[2] * 0x1_0000 + s[3] * 0x100_0000 + s[4] * 0x1_0000_0000 + s[5]
        * 0x100_0000_0000 + s[6] * 0x1_0000_0000_0000 + s[7] * 0x100_0000_0000_0000) as u64
}

/// A number is read back from its four bytes.
pub proof fn lemma_u32_to_le_bytes(x: u32)
    ensures
        spec_u32_to_le_bytes(x).len() == 4,
        spec_u32_from_le_bytes(spec_u32_to_le_bytes(x)) == x,
{
    reveal(spec_u32_to_le_bytes);
    reveal(spec_u32_from_le_bytes);
    lemma_u32_split(x);
}

/// A number is read back from its eight bytes.
pub proof fn lemma_u64_to_le_bytes(x: u64)
    ensures
        spec_u64_to_le_bytes(x).len() == 8,
        spec_u64_from_le_bytes(spec_u64_to_le_bytes(x)) == x,
{
    reveal(spec_u64_to_le_bytes);
    reveal(spec_u64_from_le_bytes);
    lemma_u64_split(x);
}

/// Eight bytes are the bytes of the number they encode.
pub proof fn lemma_u64_from_le_bytes(s: Seq<u8>)
    requires
        s.len() == 8,
    ensures
        spec_u64_to_le_bytes(spec_u64_from_le_bytes(s)) == s,
{
    reveal(spec_u64_to_le_bytes);
    reveal(spec_u64_from_le_bytes);
    lemma_u64_join(s[0], s[1], s[2], s[3], s[4], s[5], s[6], s[7]);
}

proof fn lemma_u32_split(x: u32)
    by (bit_vector)
    ensures
        (x % 0x100) + ((x / 0x100) % 0x100) * 0x100 + ((x / 0x1_0000) % 0x100) * 0x1_0000 + ((x
            / 0x100_0000) % 0x100) * 0x100_0000 == x,
{
}

proof fn lemma_u64_split(x: u64)
    by (bit_vector)
    ensures
        (x % 0x100) + ((x / 0x100) % 0x100) * 0x100 + ((x / 0x1_0000) % 0x100) * 0x1_0000 + ((x
            / 0x100_0000) % 0x100) * 0x100_0000 + ((x / 0x1_0000_0000) % 0x100) * 0x1_0000_0000
            + ((x / 0x100_0000_0000) % 0x100) * 0x100_0000_0000 + ((x / 0x1_0000_0000_0000)
            % 0x100) * 0x1_0000_0000_0000 + ((x / 0x100_0000_0000_0000) % 0x100)
            * 0x100_0000_0000_0000 == x,
{
}

proof fn lemma_u64_join(b0: u8, b1: u8, b2: u8, b3: u8, b4: u8, b5: u8, b6: u8, b7: u8)
    by (bit_vector)
    ensures
        ({
            let x = b0 + b1 * 0x100 + b2 * 0x1_0000 + b3 * 0x100_0000 + b4 * 0x1_0000_0000 + b5
                * 0x100_0000_0000 + b6 * 0x1_0000_0000_0000 + b7 * 0x100_0000_0000_0000;
            &&& x <= 0xffff_ffff_ffff_ffff
            &&& x % 0x100 == b0
            &&& (x / 0x100) % 0x100 == b1
            &&& (x / 0x1_0000) % 0x100 == b2
            &&& (x / 0x100_0000) % 0x100 == b3
            &&& (x / 0x1_0000_0000) % 0x100 == b4
            &&& (x / 0x100_0000_0000) % 0x100 == b5
            &&& (x / 0x1_0000_0000_0000) % 0x100 == b6
            &&& (x / 0x100_0000_0000_0000) % 0x100 == b7
        }),
{
}

/// Reads the `u32` stored in the four bytes of `data` that start at `at`.
pub fn u32_from_le_bytes_at(data: &[u8], at: usize) -> (x: u32)
    requires
        at + 4 <= data@.len(),
    ensures
        x == spec_u32_from_le_bytes(data@.subrange(at as int, at + 4)),
{
    proof {
        reveal(spec_u32_from_le_bytes);
    }
    // The buffer's length bounds the indices below.
    let len = data.len();
    assert(at + 4 <= len);
    let x = data[at] as u32 + data[at + 1] as u32 * 0x100 + data[at + 2] as u32 * 0x1_0000
        + data[at + 3] as u32 * 0x100_0000;
    x
}

/// Reads the `u64` stored in the eight bytes of `data` that start at
/// `at`.
pub fn u64_from_le_bytes_at(data: &[u8], at: usize) -> (x: u64)
    requires
        at + 8 <= data@.len(),
    ensures
        x == spec_u64_from_le_bytes(data@.subrange(at as int, at + 8)),
{
    proof {
        reveal(spec_u64_from_le_bytes);
    }
    // The buffer's length bounds the indices below.
    let len = data.len();
    assert(at + 8 <= len);
    let x = data[at] as u64 + data[at + 1] as u64 * 0x100 + data[at + 2] as u64 * 0x1_0000
        + data[at + 3] as u64 * 0x100_0000 + data[at + 4] as u64 * 0x1_0000_0000 + data[at
        + 5] as u64 * 0x100_0000_0000 + data[at + 6] as u64 * 0x1_0000_0000_0000 + data[at
        + 7] as u64 * 0x100_0000_0000_0000;
    x
}

/// The four bytes of `x`, least significant first.
pub fn u32_to_le_bytes(x: u32) -> (bytes: Vec<u8>)
    ensures
        bytes@ == spec_u32_to_le_bytes(x),
        bytes@.len() == 4,
{
    let mut bytes: Vec<u8> = Vec::new();
    bytes.push((x % 0x100) as u8);
    bytes.push(((x / 0x100) % 0x100) as u8);
    bytes.push(((x / 0x1_0000) % 0x100) as u8);
    bytes.push(((x / 0x100_0000) % 0x100) as u8);
    proof {
        reveal(spec_u32_to_le_bytes);
    }
    bytes
}

/// The eight bytes of `x`, least significant first.
pub fn u64_to_le_bytes(x: u64) -> (bytes: Vec<u8>)
    ensures
        bytes@ == spec_u64_to_le_bytes(x),
        bytes@.len() == 8,
{
    let mut bytes: Vec<u8> = Vec::new();
    bytes.push((x % 0x100) as u8);
    bytes.push(((x / 0x100) % 0x100) as u8);
    bytes.push(((x / 0x1_0000) % 0x100) as u8);
    bytes.push(((x / 0x100_0000) % 0x100) as u8);
    bytes.push(((x / 0x1_0000_0000) % 0x100) as u8);
    bytes.push(((x / 0x100_0000_0000) % 0x100) as u8);
    bytes.push(((x / 0x1_0000_0000_0000) % 0x100) as u8);
    bytes.push(((x / 0x100_0000_0000_0000) % 0x100) as u8);
    proof {
        reveal(spec_u64_to_le_bytes);
    }
    bytes
}

} // verus!
