//! Extended leaves (0x8000_0000 and up): the extended function summary, the
//! extended feature identifiers, and the processor brand string.
use vstd::prelude::*;
use crate::bits::{bit_field, bit_set, get_bits, test_bit, CpuIdResult};
use crate::leaves::Vendor;
use crate::text::{regs_bytes, registers_to_bytes, text_from_bytes, text_of};

verus! {

/// The four registers of `q` in order eax, ebx, ecx, edx.
pub open spec fn quad_regs(q: CpuIdResult) -> Seq<u32> {
    seq![q.eax, q.ebx, q.ecx, q.edx]
}

/// The 48 bytes of a brand string held in three quads.
pub open spec fn brand_bytes(a: CpuIdResult, b: CpuIdResult, c: CpuIdResult) -> Seq<u8> {
    regs_bytes(quad_regs(a) + quad_regs(b) + quad_regs(c))
}

fn brand_text(a: CpuIdResult, b: CpuIdResult, c: CpuIdResult) -> (r: String)
    ensures
        r@ == text_of(brand_bytes(a, b, c), "Invalid Processor Brand String"@),
{
    let regs: Vec<u32> = vec![a.eax, a.ebx, a.ecx, a.edx, b.eax, b.ebx, b.ecx, b.edx, c.eax, c.ebx, c.ecx, c.edx];
    assert(regs@ =~= quad_regs(a) + quad_regs(b) + quad_regs(c));
    let bytes = registers_to_bytes(&regs);
    text_from_bytes(&bytes, "Invalid Processor Brand String")
}

/// Associativity of the L2 cache (leaf 0x8000_0006).
#[derive(Copy, Clone, Debug, PartialEq, Eq, Structural)]
pub enum L2Associativity {
    Disabled,
    DirectMapped,
    TwoWay,
    FourWay,
    EightWay,
    SixteenWay,
    FullyAssiciative,
    Unknown,
}

pub open spec fn spec_l2_associativity(v: u32) -> L2Associativity {
    if v == 0x0 {
        L2Associativity::Disabled
    } else if v == 0x1 {
        L2Associativity::DirectMapped
    } else if v == 0x2 {
        L2Associativity::TwoWay
    } else if v == 0x4 {
        L2Associativity::FourWay
    } else if v == 0x6 {
        L2Associativity::EightWay
    } else if v == 0x8 {
        L2Associativity::SixteenWay
    } else if v == 0xF {
        L2Associativity::FullyAssiciative
    } else {
        L2Associativity::Unknown
    }
}

/// Leaves 0x8000_0000 to 0x8000_0008, as far as the processor reports them.
/// `data[i]` holds leaf 0x8000_0000 + i.
#[derive(Debug, Clone, Copy)]
pub struct ExtendedFunctionInfo {
    /// The largest extended leaf, less 0x8000_0000.
    pub max_eax_value: u32,
    pub data: [CpuIdResult; 9],
}

impl ExtendedFunctionInfo {
    pub open spec fn supports(&self, val: u32) -> bool {
        val <= self.max_eax_value
    }

    fn leaf_is_supported(&self, val: u32) -> (r: bool)
        ensures
            r == self.supports(val),
    {
        val <= self.max_eax_value
    }

    /// The processor brand string (leaves 0x8000_0002 to 0x8000_0004), cut
    /// at its first NUL byte.
    pub fn processor_brand_string(&self) -> (r: Option<String>)
        ensures
            r is Some <==> self.supports(4),
            r matches Some(s) ==> s@ == text_of(
                brand_bytes(self.data@[2], self.data@[3], self.data@[4]),
                "Invalid Processor Brand String"@,
            ),
    {
        if self.leaf_is_supported(4) {
            Some(brand_text(self.data[2], self.data[3], self.data[4]))
        } else {
            None
        }
    }

    /// Extended processor signature and feature bits.
    pub fn extended_signature(&self) -> (r: Option<u32>)
        ensures
            r is Some <==> self.supports(1),
            r matches Some(v) ==> v == self.data@[1].eax,
    {
        if self.leaf_is_supported(1) {
            Some(self.data[1].eax)
        } else {
            None
        }
    }

    /// Cache line size in bytes.
    pub fn cache_line_size(&self) -> (r: Option<u8>)
        ensures
            r is Some <==> self.supports(6),
            r matches Some(v) ==> v == bit_field(self.data@[6].ecx, 0, 7) as u8,
    {
        if self.leaf_is_supported(6) {
            Some(get_bits(self.data[6].ecx, 0, 7) as u8)
        } else {
            None
        }
    }

    /// L2 associativity field.
    pub fn l2_associativity(&self) -> (r: Option<L2Associativity>)
        ensures
            r is Some <==> self.supports(6),
            r matches Some(v) ==> v == spec_l2_associativity(bit_field(self.data@[6].ecx, 12, 15)),
    {
        if self.leaf_is_supported(6) {
            let v = get_bits(self.data[6].ecx, 12, 15);
            Some(
                if v == 0x0 {
                    L2Associativity::Disabled
                } else if v == 0x1 {
                    L2Associativity::DirectMapped
                } else if v == 0x2 {
                    L2Associativity::TwoWay
                } else if v == 0x4 {
                    L2Associativity::FourWay
                } else if v == 0x6 {
                    L2Associativity::EightWay
                } else if v == 0x8 {
                    L2Associativity::SixteenWay
                } else if v == 0xF {
                    L2Associativity::FullyAssiciative
                } else {
                    L2Associativity::Unknown
                },
            )
        } else {
            None
        }
    }

    /// Cache size in 1K units.
    pub fn cache_size(&self) -> (r: Option<u16>)
        ensures
            r is Some <==> self.supports(6),
            r matches Some(v) ==> v == bit_field(self.data@[6].ecx, 16, 31) as u16,
    {
        if self.leaf_is_supported(6) {
            Some(get_bits(self.data[6].ecx, 16, 31) as u16)
        } else {
            None
        }
    }

    /// Physical address bits.
    pub fn physical_address_bits(&self) -> (r: Option<u8>)
        ensures
            r is Some <==> self.supports(8),
            r matches Some(v) ==> v == bit_field(self.data@[8].eax, 0, 7) as u8,
    {
        if self.leaf_is_supported(8) {
            Some(get_bits(self.data[8].eax, 0, 7) as u8)
        } else {
            None
        }
    }

    /// Linear address bits.
    pub fn linear_address_bits(&self) -> (r: Option<u8>)
        ensures
            r is Some <==> self.supports(8),
            r matches Some(v) ==> v == bit_field(self.data@[8].eax, 8, 15) as u8,
    {
        if self.leaf_is_supported(8) {
            Some(get_bits(self.data[8].eax, 8, 15) as u8)
        } else {
            None
        }
    }

    /// Invariant TSC.
    pub fn has_invariant_tsc(&self) -> (r: bool)
        ensures
            r == (self.supports(7) && bit_set(self.data@[7].edx, 8)),
    {
        self.leaf_is_supported(7) && test_bit(self.data[7].edx, 8)
    }

    /// LAHF/SAHF available in 64-bit mode.
    pub fn has_lahf_sahf(&self) -> (r: bool)
        ensures
            r == (self.supports(1) && bit_set(self.data@[1].ecx, 0)),
    {
        self.leaf_is_supported(1) && test_bit(self.data[1].ecx, 0)
    }

    /// LZCNT instruction.
    pub fn has_lzcnt(&self) -> (r: bool)
        ensures
            r == (self.supports(1) && bit_set(self.data@[1].ecx, 5)),
    {
        self.leaf_is_supported(1) && test_bit(self.data[1].ecx, 5)
    }

    /// PREFETCHW instruction.
    pub fn has_prefetchw(&self) -> (r: bool)
        ensures
            r == (self.supports(1) && bit_set(self.data@[1].ecx, 8)),
    {
        self.leaf_is_supported(1) && test_bit(self.data[1].ecx, 8)
    }

    /// SYSCALL/SYSRET available in 64-bit mode.
    pub fn has_syscall_sysret(&self) -> (r: bool)
        ensures
            r == (self.supports(1) && bit_set(self.data@[1].edx, 11)),
    {
        self.leaf_is_supported(1) && test_bit(self.data[1].edx, 11)
    }

    /// Execute disable bit.
    pub fn has_execute_disable(&self) -> (r: bool)
        ensures
            r == (self.supports(1) && bit_set(self.data@[1].edx, 20)),
    {
        self.leaf_is_supported(1) && test_bit(self.data[1].edx, 20)
    }

    /// 1-GByte pages.
    pub fn has_1gib_pages(&self) -> (r: bool)
        ensures
            r == (self.supports(1) && bit_set(self.data@[1].edx, 26)),
    {
        self.leaf_is_supported(1) && test_bit(self.data[1].edx, 26)
    }

    /// RDTSCP and IA32_TSC_AUX.
    pub fn has_rdtscp(&self) -> (r: bool)
        ensures
            r == (self.supports(1) && bit_set(self.data@[1].edx, 27)),
    {
        self.leaf_is_supported(1) && test_bit(self.data[1].edx, 27)
    }

    /// Intel 64 architecture.
    pub fn has_64bit_mode(&self) -> (r: bool)
        ensures
            r == (self.supports(1) && bit_set(self.data@[1].edx, 29)),
    {
        self.leaf_is_supported(1) && test_bit(self.data[1].edx, 29)
    }
}

/// Leaf 0x8000_0001: extended processor signature and feature bits.
#[derive(Debug, Clone, Copy)]
pub struct ExtendedProcessorFeatureIdentifiers {
    pub vendor: Vendor,
    pub eax: u32,
    pub ebx: u32,
    pub ecx: u32,
    pub edx: u32,
}

impl ExtendedProcessorFeatureIdentifiers {
    /// The view of leaf 0x8000_0001's registers for `vendor`.
    pub fn new(vendor: Vendor, data: CpuIdResult) -> (r: Self)
        ensures
            r == (ExtendedProcessorFeatureIdentifiers {
                vendor,
                eax: data.eax,
                ebx: data.ebx,
                ecx: data.ecx,
                edx: data.edx,
            }),
    {
        ExtendedProcessorFeatureIdentifiers {
            vendor,
            eax: data.eax,
            ebx: data.ebx,
            ecx: data.ecx,
            edx: data.edx,
        }
    }

    /// Extended processor signature.
    pub fn extended_signature(&self) -> (r: u32)
        ensures
            r == self.eax,
    {
        self.eax
    }

    /// Package type (AMD only; reserved elsewhere).
    pub fn pkg_type(&self) -> (r: u32)
        ensures
            r == bit_field(self.ebx, 28, 31),
    {
        get_bits(self.ebx, 28, 31)
    }

    /// Brand ID (AMD only; reserved elsewhere).
    pub fn brand_id(&self) -> (r: u32)
        ensures
            r == bit_field(self.ebx, 0, 15),
    {
        get_bits(self.ebx, 0, 15)
    }

    /// LAHF/SAHF available in 64-bit mode.
    pub fn has_lahf_sahf(&self) -> (r: bool)
        ensures
            r == bit_set(self.ecx, 0),
    {
        test_bit(self.ecx, 0)
    }

    /// Core multi-processing legacy mode. (AMD only; reserved elsewhere)
    pub fn has_cmp_legacy(&self) -> (r: bool)
        ensures
            r == (self.vendor == Vendor::Amd && bit_set(self.ecx, 1)),
    {
        self.vendor == Vendor::Amd && test_bit(self.ecx, 1)
    }

    /// Secure virtual machine. (AMD only; reserved elsewhere)
    pub fn has_svm(&self) -> (r: bool)
        ensures
            r == (self.vendor == Vendor::Amd && bit_set(self.ecx, 2)),
    {
        self.vendor == Vendor::Amd && test_bit(self.ecx, 2)
    }

    /// Extended APIC space. (AMD only; reserved elsewhere)
    pub fn has_ext_apic_space(&self) -> (r: bool)
        ensures
            r == (self.vendor == Vendor::Amd && bit_set(self.ecx, 3)),
    {
        self.vendor == Vendor::Amd && test_bit(self.ecx, 3)
    }

    /// LOCK MOV CR0 means MOV CR8. (AMD only; reserved elsewhere)
    pub fn has_alt_mov_cr8(&self) -> (r: bool)
        ensures
            r == (self.vendor == Vendor::Amd && bit_set(self.ecx, 4)),
    {
        self.vendor == Vendor::Amd && test_bit(self.ecx, 4)
    }

    /// LZCNT instruction.
    pub fn has_lzcnt(&self) -> (r: bool)
        ensures
            r == bit_set(self.ecx, 5),
    {
        test_bit(self.ecx, 5)
    }

    /// EXTRQ, INSERTQ, MOVNTSS and MOVNTSD. (AMD only; reserved elsewhere)
    pub fn has_sse4a(&self) -> (r: bool)
        ensures
            r == (self.vendor == Vendor::Amd && bit_set(self.ecx, 6)),
    {
        self.vendor == Vendor::Amd && test_bit(self.ecx, 6)
    }

    /// Misaligned SSE mode. (AMD only; reserved elsewhere)
    pub fn has_misaligned_sse_mode(&self) -> (r: bool)
        ensures
            r == (self.vendor == Vendor::Amd && bit_set(self.ecx, 7)),
    {
        self.vendor == Vendor::Amd && test_bit(self.ecx, 7)
    }

    /// PREFETCHW instruction.
    pub fn has_prefetchw(&self) -> (r: bool)
        ensures
            r == bit_set(self.ecx, 8),
    {
        test_bit(self.ecx, 8)
    }

    /// OS visible workaround. (AMD only; reserved elsewhere)
    pub fn has_osvw(&self) -> (r: bool)
        ensures
            r == (self.vendor == Vendor::Amd && bit_set(self.ecx, 9)),
    {
        self.vendor == Vendor::Amd && test_bit(self.ecx, 9)
    }

    /// Instruction based sampling. (AMD only; reserved elsewhere)
    pub fn has_ibs(&self) -> (r: bool)
        ensures
            r == (self.vendor == Vendor::Amd && bit_set(self.ecx, 10)),
    {
        self.vendor == Vendor::Amd && test_bit(self.ecx, 10)
    }

    /// Extended operation support. (AMD only; reserved elsewhere)
    pub fn has_xop(&self) -> (r: bool)
        ensures
            r == (self.vendor == Vendor::Amd && bit_set(self.ecx, 11)),
    {
        self.vendor == Vendor::Amd && test_bit(self.ecx, 11)
    }

    /// SKINIT and STGI. (AMD only; reserved elsewhere)
    pub fn has_skinit(&self) -> (r: bool)
        ensures
            r == (self.vendor == Vendor::Amd && bit_set(self.ecx, 12)),
    {
        self.vendor == Vendor::Amd && test_bit(self.ecx, 12)
    }

    /// Watchdog timer. (AMD only; reserved elsewhere)
    pub fn has_wdt(&self) -> (r: bool)
        ensures
            r == (self.vendor == Vendor::Amd && bit_set(self.ecx, 13)),
    {
        self.vendor == Vendor::Amd && test_bit(self.ecx, 13)
    }

    /// Lightweight profiling. (AMD only; reserved elsewhere)
    pub fn has_lwp(&self) -> (r: bool)
        ensures
            r == (self.vendor == Vendor::Amd && bit_set(self.ecx, 15)),
    {
        self.vendor == Vendor::Amd && test_bit(self.ecx, 15)
    }

    /// Four-operand FMA instructions. (AMD only; reserved elsewhere)
    pub fn has_fma4(&self) -> (r: bool)
        ensures
            r == (self.vendor == Vendor::Amd && bit_set(self.ecx, 16)),
    {
        self.vendor == Vendor::Amd && test_bit(self.ecx, 16)
    }

    /// Trailing bit manipulation. (AMD only; reserved elsewhere)
    pub fn has_tbm(&self) -> (r: bool)
        ensures
            r == (self.vendor == Vendor::Amd && bit_set(self.ecx, 21)),
    {
        self.vendor == Vendor::Amd && test_bit(self.ecx, 21)
    }

    /// Topology extensions. (AMD only; reserved elsewhere)
    pub fn has_topology_extensions(&self) -> (r: bool)
        ensures
            r == (self.vendor == Vendor::Amd && bit_set(self.ecx, 22)),
    {
        self.vendor == Vendor::Amd && test_bit(self.ecx, 22)
    }

    /// Processor performance counter extensions. (AMD only; reserved elsewhere)
    pub fn has_perf_cntr_extensions(&self) -> (r: bool)
        ensures
            r == (self.vendor == Vendor::Amd && bit_set(self.ecx, 23)),
    {
        self.vendor == Vendor::Amd && test_bit(self.ecx, 23)
    }

    /// NB performance counter extensions. (AMD only; reserved elsewhere)
    pub fn has_nb_perf_cntr_extensions(&self) -> (r: bool)
        ensures
            r == (self.vendor == Vendor::Amd && bit_set(self.ecx, 24)),
    {
        self.vendor == Vendor::Amd && test_bit(self.ecx, 24)
    }

    /// Data access breakpoint extension. (AMD only; reserved elsewhere)
    pub fn has_data_access_bkpt_extension(&self) -> (r: bool)
        ensures
            r == (self.vendor == Vendor::Amd && bit_set(self.ecx, 26)),
    {
        self.vendor == Vendor::Amd && test_bit(self.ecx, 26)
    }

    /// Performance time-stamp counter. (AMD only; reserved elsewhere)
    pub fn has_perf_tsc(&self) -> (r: bool)
        ensures
            r == (self.vendor == Vendor::Amd && bit_set(self.ecx, 27)),
    {
        self.vendor == Vendor::Amd && test_bit(self.ecx, 27)
    }

    /// L3 performance counter extension. (AMD only; reserved elsewhere)
    pub fn has_perf_cntr_llc_extensions(&self) -> (r: bool)
        ensures
            r == (self.vendor == Vendor::Amd && bit_set(self.ecx, 28)),
    {
        self.vendor == Vendor::Amd && test_bit(self.ecx, 28)
    }

    /// MWAITX and MONITORX. (AMD only; reserved elsewhere)
    pub fn has_monitorx_mwaitx(&self) -> (r: bool)
        ensures
            r == (self.vendor == Vendor::Amd && bit_set(self.ecx, 29)),
    {
        self.vendor == Vendor::Amd && test_bit(self.ecx, 29)
    }

    /// Breakpoint addressing masking extended to bit 31. (AMD only; reserved elsewhere)
    pub fn has_addr_mask_extension(&self) -> (r: bool)
        ensures
            r == (self.vendor == Vendor::Amd && bit_set(self.ecx, 30)),
    {
        self.vendor == Vendor::Amd && test_bit(self.ecx, 30)
    }

    /// SYSCALL/SYSRET available in 64-bit mode.
    pub fn has_syscall_sysret(&self) -> (r: bool)
        ensures
            r == bit_set(self.edx, 11),
    {
        test_bit(self.edx, 11)
    }

    /// Execute disable bit.
    pub fn has_execute_disable(&self) -> (r: bool)
        ensures
            r == bit_set(self.edx, 20),
    {
        test_bit(self.edx, 20)
    }

    /// AMD extensions to MMX instructions. (AMD only; reserved elsewhere)
    pub fn has_mmx_extensions(&self) -> (r: bool)
        ensures
            r == (self.vendor == Vendor::Amd && bit_set(self.edx, 22)),
    {
        self.vendor == Vendor::Amd && test_bit(self.edx, 22)
    }

    /// FXSAVE and FXRSTOR instruction optimizations. (AMD only; reserved elsewhere)
    pub fn has_fast_fxsave_fxstor(&self) -> (r: bool)
        ensures
            r == (self.vendor == Vendor::Amd && bit_set(self.edx, 24)),
    {
        self.vendor == Vendor::Amd && test_bit(self.edx, 24)
    }

    /// 1-GByte pages.
    pub fn has_1gib_pages(&self) -> (r: bool)
        ensures
            r == bit_set(self.edx, 26),
    {
        test_bit(self.edx, 26)
    }

    /// RDTSCP and IA32_TSC_AUX.
    pub fn has_rdtscp(&self) -> (r: bool)
        ensures
            r == bit_set(self.edx, 27),
    {
        test_bit(self.edx, 27)
    }

    /// 64-bit mode.
    pub fn has_64bit_mode(&self) -> (r: bool)
        ensures
            r == bit_set(self.edx, 29),
    {
        test_bit(self.edx, 29)
    }

    /// AMD extensions to 3DNow! instructions. (AMD only; reserved elsewhere)
    pub fn has_amd_3dnow_extensions(&self) -> (r: bool)
        ensures
            r == (self.vendor == Vendor::Amd && bit_set(self.edx, 30)),
    {
        self.vendor == Vendor::Amd && test_bit(self.edx, 30)
    }

    /// 3DNow! instructions. (AMD only; reserved elsewhere)
    pub fn has_3dnow(&self) -> (r: bool)
        ensures
            r == (self.vendor == Vendor::Amd && bit_set(self.edx, 31)),
    {
        self.vendor == Vendor::Amd && test_bit(self.edx, 31)
    }
}

/// Leaves 0x8000_0002 to 0x8000_0004: the processor brand string.
#[derive(Debug, Clone, Copy)]
pub struct ProcessorBrandString {
    pub data: [CpuIdResult; 3],
}

impl ProcessorBrandString {
    /// The brand string held in the three leaves.
    pub fn new(data: [CpuIdResult; 3]) -> (r: Self)
        ensures
            r.data == data,
    {
        ProcessorBrandString { data }
    }

    /// The brand string, cut at its first NUL byte, or a placeholder when
    /// its bytes are not valid UTF-8.
    pub fn as_str(&self) -> (r: String)
        ensures
            r@ == text_of(
                brand_bytes(self.data@[0], self.data@[1], self.data@[2]),
                "Invalid Processor Brand String"@,
            ),
    {
        brand_text(self.data[0], self.data[1], self.data[2])
    }
}

/// Leaf 0x8000_0005: L1 cache and TLB information, kept as registers.
#[derive(Debug, Clone, Copy)]
pub struct L1CacheTlbInfo {
    pub data: CpuIdResult,
}

impl L1CacheTlbInfo {
    /// The view of leaf 0x8000_0005's registers.
    pub fn new(data: CpuIdResult) -> (r: Self)
        ensures
            r.data == data,
    {
        L1CacheTlbInfo { data }
    }
}

} // verus!
