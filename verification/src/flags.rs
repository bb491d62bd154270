//! The memory pool's flag word: a fixed-width, 32-bit, bit-packed record of
//! named access and placement bits, consumed directly by foreign calls.
//! The packing is layout-significant — each field sits at a fixed bit — so
//! both directions are verified against one spec, bit by bit.

use vstd::prelude::*;

verus! {

/// The named subfields of the pool flag word, unpacked.  Bit positions run
/// in declaration order from bit 0.
#[derive(Debug, Clone, Copy, PartialEq, Eq, Structural)]
pub struct MemoryPoolFlags {
    pub cpu_no_access: bool,
    pub cpu_uncached: bool,
    pub cpu_cached: bool,
    pub gpu_no_access: bool,
    pub gpu_uncached: bool,
    pub gpu_cached: bool,
    pub shader_code: bool,
    pub is_compressible: bool,
    pub is_physical: bool,
    pub is_virtual: bool,
}

/// A flag bit as its packed value: `1` for set, `0` for clear.
pub open spec fn flag_bit(b: bool) -> u32 {
    if b {
        1u32
    } else {
        0u32
    }
}

impl MemoryPoolFlags {
    /// The packed 32-bit value, bit `k` carrying the `k`-th declared field.
    /// The remaining 22 bits are zero.
    pub open spec fn spec_bits(self) -> u32 {
        flag_bit(self.cpu_no_access) | (flag_bit(self.cpu_uncached) << 1u32)
            | (flag_bit(self.cpu_cached) << 2u32) | (flag_bit(self.gpu_no_access) << 3u32)
            | (flag_bit(self.gpu_uncached) << 4u32) | (flag_bit(self.gpu_cached) << 5u32)
            | (flag_bit(self.shader_code) << 6u32) | (flag_bit(self.is_compressible) << 7u32)
            | (flag_bit(self.is_physical) << 8u32) | (flag_bit(self.is_virtual) << 9u32)
    }

    /// The flag word with every bit clear.
    pub open spec fn spec_none() -> Self {
        MemoryPoolFlags {
            cpu_no_access: false,
            cpu_uncached: false,
            cpu_cached: false,
            gpu_no_access: false,
            gpu_uncached: false,
            gpu_cached: false,
            shader_code: false,
            is_compressible: false,
            is_physical: false,
            is_virtual: false,
        }
    }

    /// The flag word with every bit clear: the configuration a fresh
    /// builder starts from.
    #[verifier::when_used_as_spec(spec_none)]
    pub fn none() -> (f: Self)
        ensures
            f == (MemoryPoolFlags {
                cpu_no_access: false,
                cpu_uncached: false,
                cpu_cached: false,
                gpu_no_access: false,
                gpu_uncached: false,
                gpu_cached: false,
                shader_code: false,
                is_compressible: false,
                is_physical: false,
                is_virtual: false,
            }),
    {
        MemoryPoolFlags {
            cpu_no_access: false,
            cpu_uncached: false,
            cpu_cached: false,
            gpu_no_access: false,
            gpu_uncached: false,
            gpu_cached: false,
            shader_code: false,
            is_compressible: false,
            is_physical: false,
            is_virtual: false,
        }
    }

    /// Packs the fields into the 32-bit flag word the driver consumes.
    pub fn to_bits(&self) -> (b: u32)
        ensures
            b == self.spec_bits(),
    {
        (if self.cpu_no_access {
            1u32
        } else {
            0u32
        }) | ((if self.cpu_uncached {
            1u32
        } else {
            0u32
        }) << 1u32) | ((if self.cpu_cached {
            1u32
        } else {
            0u32
        }) << 2u32) | ((if self.gpu_no_access {
            1u32
        } else {
            0u32
        }) << 3u32) | ((if self.gpu_uncached {
            1u32
        } else {
            0u32
        }) << 4u32) | ((if self.gpu_cached {
            1u32
        } else {
            0u32
        }) << 5u32) | ((if self.shader_code {
            1u32
        } else {
            0u32
        }) << 6u32) | ((if self.is_compressible {
            1u32
        } else {
            0u32
        }) << 7u32) | ((if self.is_physical {
            1u32
        } else {
            0u32
        }) << 8u32) | ((if self.is_virtual {
            1u32
        } else {
            0u32
        }) << 9u32)
    }

    /// The fields read out of a packed flag word; bits beyond the tenth
    /// are ignored.
    pub open spec fn spec_from_bits(bits: u32) -> Self {
        MemoryPoolFlags {
            cpu_no_access: bits & 0x1u32 != 0,
            cpu_uncached: bits & 0x2u32 != 0,
            cpu_cached: bits & 0x4u32 != 0,
            gpu_no_access: bits & 0x8u32 != 0,
            gpu_uncached: bits & 0x10u32 != 0,
            gpu_cached: bits & 0x20u32 != 0,
            shader_code: bits & 0x40u32 != 0,
            is_compressible: bits & 0x80u32 != 0,
            is_physical: bits & 0x100u32 != 0,
            is_virtual: bits & 0x200u32 != 0,
        }
    }

    /// Unpacks a 32-bit flag word.
    pub fn from_bits(bits: u32) -> (f: Self)
        ensures
            f == Self::spec_from_bits(bits),
    {
        MemoryPoolFlags {
            cpu_no_access: bits & 0x1u32 != 0,
            cpu_uncached: bits & 0x2u32 != 0,
            cpu_cached: bits & 0x4u32 != 0,
            gpu_no_access: bits & 0x8u32 != 0,
            gpu_uncached: bits & 0x10u32 != 0,
            gpu_cached: bits & 0x20u32 != 0,
            shader_code: bits & 0x40u32 != 0,
            is_compressible: bits & 0x80u32 != 0,
            is_physical: bits & 0x100u32 != 0,
            is_virtual: bits & 0x200u32 != 0,
        }
    }
}

/// Each declared field occupies exactly its own bit of the packed word.
proof fn lemma_packed_bits(
    x0: u32, x1: u32, x2: u32, x3: u32, x4: u32,
    x5: u32, x6: u32, x7: u32, x8: u32, x9: u32,
)
    by (bit_vector)
    requires
        x0 <= 1, x1 <= 1, x2 <= 1, x3 <= 1, x4 <= 1,
        x5 <= 1, x6 <= 1, x7 <= 1, x8 <= 1, x9 <= 1,
    ensures
        ((x0 | (x1 << 1u32) | (x2 << 2u32) | (x3 << 3u32) | (x4 << 4u32) | (x5 << 5u32)
            | (x6 << 6u32) | (x7 << 7u32) | (x8 << 8u32) | (x9 << 9u32)) & 0x1u32 != 0) == (x0 == 1),
        ((x0 | (x1 << 1u32) | (x2 << 2u32) | (x3 << 3u32) | (x4 << 4u32) | (x5 << 5u32)
            | (x6 << 6u32) | (x7 << 7u32) | (x8 << 8u32) | (x9 << 9u32)) & 0x2u32 != 0) == (x1 == 1),
        ((x0 | (x1 << 1u32) | (x2 << 2u32) | (x3 << 3u32) | (x4 << 4u32) | (x5 << 5u32)
            | (x6 << 6u32) | (x7 << 7u32) | (x8 << 8u32) | (x9 << 9u32)) & 0x4u32 != 0) == (x2 == 1),
        ((x0 | (x1 << 1u32) | (x2 << 2u32) | (x3 << 3u32) | (x4 << 4u32) | (x5 << 5u32)
            | (x6 << 6u32) | (x7 << 7u32) | (x8 << 8u32) | (x9 << 9u32)) & 0x8u32 != 0) == (x3 == 1),
        ((x0 | (x1 << 1u32) | (x2 << 2u32) | (x3 << 3u32) | (x4 << 4u32) | (x5 << 5u32)
            | (x6 << 6u32) | (x7 << 7u32) | (x8 << 8u32) | (x9 << 9u32)) & 0x10u32 != 0) == (x4 == 1),
        ((x0 | (x1 << 1u32) | (x2 << 2u32) | (x3 << 3u32) | (x4 << 4u32) | (x5 << 5u32)
            | (x6 << 6u32) | (x7 << 7u32) | (x8 << 8u32) | (x9 << 9u32)) & 0x20u32 != 0) == (x5 == 1),
        ((x0 | (x1 << 1u32) | (x2 << 2u32) | (x3 << 3u32) | (x4 << 4u32) | (x5 << 5u32)
            | (x6 << 6u32) | (x7 << 7u32) | (x8 << 8u32) | (x9 << 9u32)) & 0x40u32 != 0) == (x6 == 1),
        ((x0 | (x1 << 1u32) | (x2 << 2u32) | (x3 << 3u32) | (x4 << 4u32) | (x5 << 5u32)
            | (x6 << 6u32) | (x7 << 7u32) | (x8 << 8u32) | (x9 << 9u32)) & 0x80u32 != 0) == (x7 == 1),
        ((x0 | (x1 << 1u32) | (x2 << 2u32) | (x3 << 3u32) | (x4 << 4u32) | (x5 << 5u32)
            | (x6 << 6u32) | (x7 << 7u32) | (x8 << 8u32) | (x9 << 9u32)) & 0x100u32 != 0) == (x8 == 1),
        ((x0 | (x1 << 1u32) | (x2 << 2u32) | (x3 << 3u32) | (x4 << 4u32) | (x5 << 5u32)
            | (x6 << 6u32) | (x7 << 7u32) | (x8 << 8u32) | (x9 << 9u32)) & 0x200u32 != 0) == (x9 == 1),
{
}

/// Packing and unpacking the flag word loses nothing: reading back a
/// packed word gives the fields it was packed from, exactly.
pub proof fn lemma_flags_round_trip(f: MemoryPoolFlags)
    ensures
        MemoryPoolFlags::spec_from_bits(f.spec_bits()) == f,
{
    lemma_packed_bits(
        flag_bit(f.cpu_no_access),
        flag_bit(f.cpu_uncached),
        flag_bit(f.cpu_cached),
        flag_bit(f.gpu_no_access),
        flag_bit(f.gpu_uncached),
        flag_bit(f.gpu_cached),
        flag_bit(f.shader_code),
        flag_bit(f.is_compressible),
        flag_bit(f.is_physical),
        flag_bit(f.is_virtual),
    );
}

} // verus!
