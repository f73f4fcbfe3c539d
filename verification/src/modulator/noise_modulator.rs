use vstd::prelude::*;

verus! {

/// The noise flavours of the noise modulator.
#[derive(Clone, Copy, Debug, PartialEq, Eq, Structural)]
pub enum NoiseType {
    Perlin,
    White,
    Brown,
    Chaos,
}

impl NoiseType {
    /// The label of the noise in the user interface.
    pub fn as_str(&self) -> (s: &'static str)
        ensures
            s@ == (match self {
                NoiseType::Perlin => "Perlin"@,
                NoiseType::White => "White"@,
                NoiseType::Brown => "Brown"@,
                NoiseType::Chaos => "Chaos"@,
            }),
    {
        match self {
            NoiseType::Perlin => "Perlin",
            NoiseType::White => "White",
            NoiseType::Brown => "Brown",
            NoiseType::Chaos => "Chaos",
        }
    }
}

impl Default for NoiseType {
    fn default() -> (n: Self)
        ensures
            n == NoiseType::Perlin,
    {
        NoiseType::Perlin
    }
}

/// The 16 bits the noise lattice hash keeps for lattice point `i`: `i`
/// multiplied by 0x27D4EB2D, xor-folded with itself shifted right by 17,
/// multiplied by 0x9E3779B1, xor-folded with itself shifted right by 15
/// (multiplications wrapping, shifts arithmetic), and masked to its low
/// 16 bits.
pub open spec fn lattice_bits(i: i64) -> i64 {
    let x1 = i.wrapping_mul(0x27D4EB2Di64);
    let x2 = x1 ^ (x1 >> 17u64);
    let x3 = x2.wrapping_mul(0x9E3779B1i64);
    let x4 = x3 ^ (x3 >> 15u64);
    x4 & 0xFFFFi64
}

/// The hash bits of lattice point `i`, which the noise maps linearly
/// onto `-1..1` (the value divided by 32768, minus one). Stable across
/// platforms and runs.
pub fn lattice_hash_bits(i: i64) -> (h: u16)
    ensures
        h as i64 == lattice_bits(i),
{
    let mut x = i.wrapping_mul(0x27D4EB2D);
    x ^= x >> 17u64;
    x = x.wrapping_mul(0x9E3779B1);
    x ^= x >> 15u64;
    let masked = x & 0xFFFF;
    assert(0 <= x & 0xFFFFi64 <= 0xFFFF) by (bit_vector);
    masked as u16
}

} // verus!
