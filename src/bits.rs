//! The register quad and the bit-field arithmetic shared by all leaf views.
use vstd::prelude::*;

verus! {

/// The four registers returned by one CPUID query.
#[derive(Debug, Clone, Copy, PartialEq, Eq, Structural)]
pub struct CpuIdResult {
    /// Return value EAX register
    pub eax: u32,
    /// Return value EBX register
    pub ebx: u32,
    /// Return value ECX register
    pub ecx: u32,
    /// Return value EDX register
    pub edx: u32,
}

/// The all-zero quad, the answer for a leaf that a source does not know.
pub open spec fn zero_quad() -> CpuIdResult {
    CpuIdResult { eax: 0, ebx: 0, ecx: 0, edx: 0 }
}

impl CpuIdResult {
    /// A quad with every register zero.
    pub fn empty() -> (r: CpuIdResult)
        ensures
            r == zero_quad(),
    {
        CpuIdResult { eax: 0, ebx: 0, ecx: 0, edx: 0 }
    }

    /// A quad built from its four registers.
    pub fn new(eax: u32, ebx: u32, ecx: u32, edx: u32) -> (r: CpuIdResult)
        ensures
            r == (CpuIdResult { eax, ebx, ecx, edx }),
    {
        CpuIdResult { eax, ebx, ecx, edx }
    }
}

/// Bits `from..=to` of `r`, shifted down to bit 0.
pub open spec fn bit_field(r: u32, from: u32, to: u32) -> u32
    recommends
        from <= to <= 31,
{
    (r >> from) & (0xffff_ffffu32 >> ((31 - (to - from)) as u32))
}

/// Whether bit `b` of `r` is set.
pub open spec fn bit_set(r: u32, b: u32) -> bool
    recommends
        b < 32,
{
    (r >> b) & 1u32 == 1u32
}

/// Extracts bits `from..=to` (inclusive) of `r`.
pub fn get_bits(r: u32, from: u32, to: u32) -> (v: u32)
    requires
        from <= to <= 31,
    ensures
        v == bit_field(r, from, to),
{
    (r >> from) & (0xffff_ffffu32 >> (31 - (to - from)))
}

/// A field of at most 16 bits is below 0x1_0000.
pub proof fn lemma_narrow_field(r: u32, from: u32, to: u32)
    requires
        from <= to <= 31,
        to - from < 16,
    ensures
        bit_field(r, from, to) < 0x1_0000,
{
    assert(from <= to && to <= 31 && to - from < 16 ==> (r >> from) & (0xffff_ffffu32 >> ((31 - (to
        - from)) as u32)) < 0x1_0000u32) by (bit_vector);
}

/// A field of at most 7 bits is below 0x80.
pub proof fn lemma_field_below_0x80(r: u32, from: u32, to: u32)
    requires
        from <= to <= 31,
        to - from < 7,
    ensures
        bit_field(r, from, to) < 0x80,
{
    assert(from <= to && to <= 31 && to - from < 7 ==> (r >> from) & (0xffff_ffffu32 >> ((31 - (to
        - from)) as u32)) < 0x80u32) by (bit_vector);
}

/// A field of at most 12 bits is below 0x1000.
pub proof fn lemma_field_below_0x1000(r: u32, from: u32, to: u32)
    requires
        from <= to <= 31,
        to - from < 12,
    ensures
        bit_field(r, from, to) < 0x1000,
{
    assert(from <= to && to <= 31 && to - from < 12 ==> (r >> from) & (0xffff_ffffu32 >> ((31 - (to
        - from)) as u32)) < 0x1000u32) by (bit_vector);
}

/// Tests bit `b` of `r`.
pub fn test_bit(r: u32, b: u32) -> (v: bool)
    requires
        b < 32,
    ensures
        v == bit_set(r, b),
{
    (r >> b) & 1u32 == 1u32
}

/// Byte `i` (0 is the least significant) of `r`.
pub open spec fn byte_of(r: u32, i: int) -> u8
    recommends
        0 <= i < 4,
{
    (((r as int) / pow256(i)) % 256) as u8
}

pub open spec fn pow256(i: int) -> int {
    if i <= 0 {
        1
    } else if i == 1 {
        0x100
    } else if i == 2 {
        0x1_0000
    } else {
        0x100_0000
    }
}

/// Byte `i` of `r`, least significant first.
pub fn register_byte(r: u32, i: u32) -> (b: u8)
    requires
        i < 4,
    ensures
        b == byte_of(r, i as int),
{
    if i == 0 {
        (r % 0x100) as u8
    } else if i == 1 {
        ((r / 0x100) % 0x100) as u8
    } else if i == 2 {
        ((r / 0x1_0000) % 0x100) as u8
    } else {
        ((r / 0x100_0000) % 0x100) as u8
    }
}

} // verus!
