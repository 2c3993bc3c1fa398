//! Typed views of the standard leaves (below 0x8000_0000).
use vstd::prelude::*;
use crate::bits::{bit_field, bit_set, byte_of, get_bits, register_byte, test_bit, CpuIdResult};
use crate::text::{text_of, text_from_bytes};

verus! {

/// The processor's manufacturer, as leaf 0 names it.
#[derive(Debug, Clone, Copy, PartialEq, Eq, Structural)]
pub enum Vendor {
    Intel,
    Amd,
    /// Any other vendor, with leaf 0's `ebx`, `ecx` and `edx`.
    Unknown(u32, u32, u32),
}

/// The vendor that leaf 0's registers name.
pub open spec fn spec_vendor(q: CpuIdResult) -> Vendor {
    if q.ebx == 0x756e_6547 && q.edx == 0x4965_6e69 && q.ecx == 0x6c65_746e {
        Vendor::Intel
    } else if q.ebx == 0x6874_7541 && q.edx == 0x6974_6e65 && q.ecx == 0x444d_4163 {
        Vendor::Amd
    } else {
        Vendor::Unknown(q.ebx, q.ecx, q.edx)
    }
}

impl Vendor {
    /// Decodes the vendor from leaf 0 ("GenuineIntel", "AuthenticAMD").
    pub fn from_vendor_leaf(q: CpuIdResult) -> (r: Vendor)
        ensures
            r == spec_vendor(q),
    {
        if q.ebx == 0x756e_6547 && q.edx == 0x4965_6e69 && q.ecx == 0x6c65_746e {
            Vendor::Intel
        } else if q.ebx == 0x6874_7541 && q.edx == 0x6974_6e65 && q.ecx == 0x444d_4163 {
            Vendor::Amd
        } else {
            Vendor::Unknown(q.ebx, q.ecx, q.edx)
        }
    }
}

/// Leaf 0x0: the vendor identification string.
#[derive(Debug, Clone, Copy)]
pub struct VendorInfo {
    pub ebx: u32,
    pub edx: u32,
    pub ecx: u32,
}

/// The twelve bytes of the vendor string: `ebx`, `edx`, then `ecx`.
pub open spec fn vendor_bytes(v: VendorInfo) -> Seq<u8> {
    Seq::new(12, |i: int| if i < 4 { byte_of(v.ebx, i) } else if i < 8 { byte_of(v.edx, i - 4) } else { byte_of(v.ecx, i - 8) })
}

impl VendorInfo {
    /// The vendor identification as text, such as "GenuineIntel" or
    /// "AuthenticAMD", cut at the first NUL byte.
    pub fn as_string(&self) -> (r: String)
        ensures
            r@ == text_of(vendor_bytes(*self), "InvalidVendorString"@),
    {
        let mut bytes: Vec<u8> = Vec::new();
        let regs: [u32; 3] = [self.ebx, self.edx, self.ecx];
        let mut i: usize = 0;
        while i < 12
            invariant
                0 <= i <= 12,
                regs@ == seq![self.ebx, self.edx, self.ecx],
                bytes@ == vendor_bytes(*self).take(i as int),
            decreases 12 - i,
        {
            let b = register_byte(regs[i / 4], (i % 4) as u32);
            bytes.push(b);
            assert(bytes@ =~= vendor_bytes(*self).take(i as int + 1));
            i = i + 1;
        }
        assert(bytes@ =~= vendor_bytes(*self));
        text_from_bytes(&bytes, "InvalidVendorString")
    }
}

/// Leaf 0x1: version information and feature flags.
#[derive(Debug, Clone, Copy)]
pub struct FeatureInfo {
    pub eax: u32,
    pub ebx: u32,
    pub ecx: u32,
    pub edx: u32,
}

impl FeatureInfo {

    /// Version Information: Extended Family
    pub fn extended_family_id(&self) -> (r: u8)
        ensures
            r == bit_field(self.eax, 20, 27) as u8,
    {
        get_bits(self.eax, 20, 27) as u8
    }

    /// Version Information: Extended Model
    pub fn extended_model_id(&self) -> (r: u8)
        ensures
            r == bit_field(self.eax, 16, 19) as u8,
    {
        get_bits(self.eax, 16, 19) as u8
    }

    /// Version Information: Family
    pub fn family_id(&self) -> (r: u8)
        ensures
            r == bit_field(self.eax, 8, 11) as u8,
    {
        get_bits(self.eax, 8, 11) as u8
    }

    /// Version Information: Model
    pub fn model_id(&self) -> (r: u8)
        ensures
            r == bit_field(self.eax, 4, 7) as u8,
    {
        get_bits(self.eax, 4, 7) as u8
    }

    /// Version Information: Stepping ID
    pub fn stepping_id(&self) -> (r: u8)
        ensures
            r == bit_field(self.eax, 0, 3) as u8,
    {
        get_bits(self.eax, 0, 3) as u8
    }

    /// Brand Index
    pub fn brand_index(&self) -> (r: u8)
        ensures
            r == bit_field(self.ebx, 0, 7) as u8,
    {
        get_bits(self.ebx, 0, 7) as u8
    }

    /// CLFLUSH line size (value * 8 = cache line size in bytes)
    pub fn cflush_cache_line_size(&self) -> (r: u8)
        ensures
            r == bit_field(self.ebx, 8, 15) as u8,
    {
        get_bits(self.ebx, 8, 15) as u8
    }

    /// Initial APIC ID
    pub fn initial_local_apic_id(&self) -> (r: u8)
        ensures
            r == bit_field(self.ebx, 24, 31) as u8,
    {
        get_bits(self.ebx, 24, 31) as u8
    }

    /// Maximum number of addressable IDs for logical processors in this package
    pub fn max_logical_processor_ids(&self) -> (r: u8)
        ensures
            r == bit_field(self.ebx, 16, 23) as u8,
    {
        get_bits(self.ebx, 16, 23) as u8
    }

    /// Streaming SIMD Extensions 3 (SSE3).
    pub fn has_sse3(&self) -> (r: bool)
        ensures
            r == bit_set(self.ecx, 0),
    {
        test_bit(self.ecx, 0)
    }

    /// PCLMULQDQ instruction.
    pub fn has_pclmulqdq(&self) -> (r: bool)
        ensures
            r == bit_set(self.ecx, 1),
    {
        test_bit(self.ecx, 1)
    }

    /// 64-bit DS area.
    pub fn has_ds_area(&self) -> (r: bool)
        ensures
            r == bit_set(self.ecx, 2),
    {
        test_bit(self.ecx, 2)
    }

    /// MONITOR/MWAIT.
    pub fn has_monitor_mwait(&self) -> (r: bool)
        ensures
            r == bit_set(self.ecx, 3),
    {
        test_bit(self.ecx, 3)
    }

    /// CPL qualified debug store.
    pub fn has_cpl(&self) -> (r: bool)
        ensures
            r == bit_set(self.ecx, 4),
    {
        test_bit(self.ecx, 4)
    }

    /// Virtual machine extensions.
    pub fn has_vmx(&self) -> (r: bool)
        ensures
            r == bit_set(self.ecx, 5),
    {
        test_bit(self.ecx, 5)
    }

    /// Safer mode extensions.
    pub fn has_smx(&self) -> (r: bool)
        ensures
            r == bit_set(self.ecx, 6),
    {
        test_bit(self.ecx, 6)
    }

    /// Enhanced Intel SpeedStep technology.
    pub fn has_eist(&self) -> (r: bool)
        ensures
            r == bit_set(self.ecx, 7),
    {
        test_bit(self.ecx, 7)
    }

    /// Thermal monitor 2.
    pub fn has_tm2(&self) -> (r: bool)
        ensures
            r == bit_set(self.ecx, 8),
    {
        test_bit(self.ecx, 8)
    }

    /// Supplemental Streaming SIMD Extensions 3 (SSSE3).
    pub fn has_ssse3(&self) -> (r: bool)
        ensures
            r == bit_set(self.ecx, 9),
    {
        test_bit(self.ecx, 9)
    }

    /// L1 context ID.
    pub fn has_cnxtid(&self) -> (r: bool)
        ensures
            r == bit_set(self.ecx, 10),
    {
        test_bit(self.ecx, 10)
    }

    /// FMA extensions using YMM state.
    pub fn has_fma(&self) -> (r: bool)
        ensures
            r == bit_set(self.ecx, 12),
    {
        test_bit(self.ecx, 12)
    }

    /// CMPXCHG16B instruction.
    pub fn has_cmpxchg16b(&self) -> (r: bool)
        ensures
            r == bit_set(self.ecx, 13),
    {
        test_bit(self.ecx, 13)
    }

    /// Perfmon and debug capability.
    pub fn has_pdcm(&self) -> (r: bool)
        ensures
            r == bit_set(self.ecx, 15),
    {
        test_bit(self.ecx, 15)
    }

    /// Process-context identifiers.
    pub fn has_pcid(&self) -> (r: bool)
        ensures
            r == bit_set(self.ecx, 17),
    {
        test_bit(self.ecx, 17)
    }

    /// Prefetch from a memory mapped device.
    pub fn has_dca(&self) -> (r: bool)
        ensures
            r == bit_set(self.ecx, 18),
    {
        test_bit(self.ecx, 18)
    }

    /// SSE4.1.
    pub fn has_sse41(&self) -> (r: bool)
        ensures
            r == bit_set(self.ecx, 19),
    {
        test_bit(self.ecx, 19)
    }

    /// SSE4.2.
    pub fn has_sse42(&self) -> (r: bool)
        ensures
            r == bit_set(self.ecx, 20),
    {
        test_bit(self.ecx, 20)
    }

    /// x2APIC.
    pub fn has_x2apic(&self) -> (r: bool)
        ensures
            r == bit_set(self.ecx, 21),
    {
        test_bit(self.ecx, 21)
    }

    /// MOVBE instruction.
    pub fn has_movbe(&self) -> (r: bool)
        ensures
            r == bit_set(self.ecx, 22),
    {
        test_bit(self.ecx, 22)
    }

    /// POPCNT instruction.
    pub fn has_popcnt(&self) -> (r: bool)
        ensures
            r == bit_set(self.ecx, 23),
    {
        test_bit(self.ecx, 23)
    }

    /// One-shot APIC timer with a TSC deadline.
    pub fn has_tsc_deadline(&self) -> (r: bool)
        ensures
            r == bit_set(self.ecx, 24),
    {
        test_bit(self.ecx, 24)
    }

    /// AESNI instruction extensions.
    pub fn has_aesni(&self) -> (r: bool)
        ensures
            r == bit_set(self.ecx, 25),
    {
        test_bit(self.ecx, 25)
    }

    /// XSAVE/XRSTOR, XSETBV/XGETBV and XCR0.
    pub fn has_xsave(&self) -> (r: bool)
        ensures
            r == bit_set(self.ecx, 26),
    {
        test_bit(self.ecx, 26)
    }

    /// The OS has enabled XSETBV/XGETBV.
    pub fn has_oxsave(&self) -> (r: bool)
        ensures
            r == bit_set(self.ecx, 27),
    {
        test_bit(self.ecx, 27)
    }

    /// AVX instruction extensions.
    pub fn has_avx(&self) -> (r: bool)
        ensures
            r == bit_set(self.ecx, 28),
    {
        test_bit(self.ecx, 28)
    }

    /// 16-bit floating-point conversion instructions.
    pub fn has_f16c(&self) -> (r: bool)
        ensures
            r == bit_set(self.ecx, 29),
    {
        test_bit(self.ecx, 29)
    }

    /// RDRAND instruction.
    pub fn has_rdrand(&self) -> (r: bool)
        ensures
            r == bit_set(self.ecx, 30),
    {
        test_bit(self.ecx, 30)
    }

    /// Running under a hypervisor.
    pub fn has_hypervisor(&self) -> (r: bool)
        ensures
            r == bit_set(self.ecx, 31),
    {
        test_bit(self.ecx, 31)
    }

    /// x87 FPU on chip.
    pub fn has_fpu(&self) -> (r: bool)
        ensures
            r == bit_set(self.edx, 0),
    {
        test_bit(self.edx, 0)
    }

    /// Virtual 8086 mode enhancements.
    pub fn has_vme(&self) -> (r: bool)
        ensures
            r == bit_set(self.edx, 1),
    {
        test_bit(self.edx, 1)
    }

    /// Debugging extensions.
    pub fn has_de(&self) -> (r: bool)
        ensures
            r == bit_set(self.edx, 2),
    {
        test_bit(self.edx, 2)
    }

    /// Page size extension.
    pub fn has_pse(&self) -> (r: bool)
        ensures
            r == bit_set(self.edx, 3),
    {
        test_bit(self.edx, 3)
    }

    /// Time stamp counter.
    pub fn has_tsc(&self) -> (r: bool)
        ensures
            r == bit_set(self.edx, 4),
    {
        test_bit(self.edx, 4)
    }

    /// RDMSR and WRMSR instructions.
    pub fn has_msr(&self) -> (r: bool)
        ensures
            r == bit_set(self.edx, 5),
    {
        test_bit(self.edx, 5)
    }

    /// Physical address extension.
    pub fn has_pae(&self) -> (r: bool)
        ensures
            r == bit_set(self.edx, 6),
    {
        test_bit(self.edx, 6)
    }

    /// Machine check exception.
    pub fn has_mce(&self) -> (r: bool)
        ensures
            r == bit_set(self.edx, 7),
    {
        test_bit(self.edx, 7)
    }

    /// CMPXCHG8B instruction.
    pub fn has_cmpxchg8b(&self) -> (r: bool)
        ensures
            r == bit_set(self.edx, 8),
    {
        test_bit(self.edx, 8)
    }

    /// APIC on chip.
    pub fn has_apic(&self) -> (r: bool)
        ensures
            r == bit_set(self.edx, 9),
    {
        test_bit(self.edx, 9)
    }

    /// SYSENTER and SYSEXIT instructions.
    pub fn has_sysenter_sysexit(&self) -> (r: bool)
        ensures
            r == bit_set(self.edx, 11),
    {
        test_bit(self.edx, 11)
    }

    /// Memory type range registers.
    pub fn has_mtrr(&self) -> (r: bool)
        ensures
            r == bit_set(self.edx, 12),
    {
        test_bit(self.edx, 12)
    }

    /// Page global bit.
    pub fn has_pge(&self) -> (r: bool)
        ensures
            r == bit_set(self.edx, 13),
    {
        test_bit(self.edx, 13)
    }

    /// Machine check architecture.
    pub fn has_mca(&self) -> (r: bool)
        ensures
            r == bit_set(self.edx, 14),
    {
        test_bit(self.edx, 14)
    }

    /// Conditional move instructions.
    pub fn has_cmov(&self) -> (r: bool)
        ensures
            r == bit_set(self.edx, 15),
    {
        test_bit(self.edx, 15)
    }

    /// Page attribute table.
    pub fn has_pat(&self) -> (r: bool)
        ensures
            r == bit_set(self.edx, 16),
    {
        test_bit(self.edx, 16)
    }

    /// 36-bit page size extension.
    pub fn has_pse36(&self) -> (r: bool)
        ensures
            r == bit_set(self.edx, 17),
    {
        test_bit(self.edx, 17)
    }

    /// Processor serial number.
    pub fn has_psn(&self) -> (r: bool)
        ensures
            r == bit_set(self.edx, 18),
    {
        test_bit(self.edx, 18)
    }

    /// CLFLUSH instruction.
    pub fn has_clflush(&self) -> (r: bool)
        ensures
            r == bit_set(self.edx, 19),
    {
        test_bit(self.edx, 19)
    }

    /// Debug store.
    pub fn has_ds(&self) -> (r: bool)
        ensures
            r == bit_set(self.edx, 21),
    {
        test_bit(self.edx, 21)
    }

    /// Thermal monitor and software controlled clock facilities.
    pub fn has_acpi(&self) -> (r: bool)
        ensures
            r == bit_set(self.edx, 22),
    {
        test_bit(self.edx, 22)
    }

    /// MMX technology.
    pub fn has_mmx(&self) -> (r: bool)
        ensures
            r == bit_set(self.edx, 23),
    {
        test_bit(self.edx, 23)
    }

    /// FXSAVE and FXRSTOR instructions.
    pub fn has_fxsave_fxstor(&self) -> (r: bool)
        ensures
            r == bit_set(self.edx, 24),
    {
        test_bit(self.edx, 24)
    }

    /// SSE extensions.
    pub fn has_sse(&self) -> (r: bool)
        ensures
            r == bit_set(self.edx, 25),
    {
        test_bit(self.edx, 25)
    }

    /// SSE2 extensions.
    pub fn has_sse2(&self) -> (r: bool)
        ensures
            r == bit_set(self.edx, 26),
    {
        test_bit(self.edx, 26)
    }

    /// Self snoop.
    pub fn has_ss(&self) -> (r: bool)
        ensures
            r == bit_set(self.edx, 27),
    {
        test_bit(self.edx, 27)
    }

    /// Max APIC IDs reserved field is valid.
    pub fn has_htt(&self) -> (r: bool)
        ensures
            r == bit_set(self.edx, 28),
    {
        test_bit(self.edx, 28)
    }

    /// Thermal monitor.
    pub fn has_tm(&self) -> (r: bool)
        ensures
            r == bit_set(self.edx, 29),
    {
        test_bit(self.edx, 29)
    }

    /// Pending break enable.
    pub fn has_pbe(&self) -> (r: bool)
        ensures
            r == bit_set(self.edx, 31),
    {
        test_bit(self.edx, 31)
    }
}

/// Leaf 0x3: the processor serial number.
#[derive(Debug, Clone, Copy)]
pub struct ProcessorSerial {
    pub ecx: u32,
    pub edx: u32,
}

impl ProcessorSerial {
    /// Bits 00-31 of the 96 bit processor serial number.
    pub fn serial_lower(&self) -> (r: u32)
        ensures
            r == self.ecx,
    {
        self.ecx
    }

    /// Bits 32-63 of the 96 bit processor serial number.
    pub fn serial_middle(&self) -> (r: u32)
        ensures
            r == self.edx,
    {
        self.edx
    }
}

/// Leaf 0x5: MONITOR/MWAIT parameters.
#[derive(Debug, Clone, Copy)]
pub struct MonitorMwaitInfo {
    pub eax: u32,
    pub ebx: u32,
    pub ecx: u32,
    pub edx: u32,
}

impl MonitorMwaitInfo {

    /// Smallest monitor-line size in bytes.
    pub fn smallest_monitor_line(&self) -> (r: u16)
        ensures
            r == bit_field(self.eax, 0, 15) as u16,
    {
        get_bits(self.eax, 0, 15) as u16
    }

    /// Largest monitor-line size in bytes.
    pub fn largest_monitor_line(&self) -> (r: u16)
        ensures
            r == bit_field(self.ebx, 0, 15) as u16,
    {
        get_bits(self.ebx, 0, 15) as u16
    }

    /// Enumeration of MONITOR/MWAIT extensions.
    pub fn extensions_supported(&self) -> (r: bool)
        ensures
            r == bit_set(self.ecx, 0),
    {
        test_bit(self.ecx, 0)
    }

    /// Interrupts are break events for MWAIT, even when disabled.
    pub fn interrupts_as_break_event(&self) -> (r: bool)
        ensures
            r == bit_set(self.ecx, 1),
    {
        test_bit(self.ecx, 1)
    }

    /// Number of C0 sub C-states supported using MWAIT.
    pub fn supported_c0_states(&self) -> (r: u16)
        ensures
            r == bit_field(self.edx, 0, 3) as u16,
    {
        get_bits(self.edx, 0, 3) as u16
    }

    /// Number of C1 sub C-states supported using MWAIT.
    pub fn supported_c1_states(&self) -> (r: u16)
        ensures
            r == bit_field(self.edx, 4, 7) as u16,
    {
        get_bits(self.edx, 4, 7) as u16
    }

    /// Number of C2 sub C-states supported using MWAIT.
    pub fn supported_c2_states(&self) -> (r: u16)
        ensures
            r == bit_field(self.edx, 8, 11) as u16,
    {
        get_bits(self.edx, 8, 11) as u16
    }

    /// Number of C3 sub C-states supported using MWAIT.
    pub fn supported_c3_states(&self) -> (r: u16)
        ensures
            r == bit_field(self.edx, 12, 15) as u16,
    {
        get_bits(self.edx, 12, 15) as u16
    }

    /// Number of C4 sub C-states supported using MWAIT.
    pub fn supported_c4_states(&self) -> (r: u16)
        ensures
            r == bit_field(self.edx, 16, 19) as u16,
    {
        get_bits(self.edx, 16, 19) as u16
    }

    /// Number of C5 sub C-states supported using MWAIT.
    pub fn supported_c5_states(&self) -> (r: u16)
        ensures
            r == bit_field(self.edx, 20, 23) as u16,
    {
        get_bits(self.edx, 20, 23) as u16
    }

    /// Number of C6 sub C-states supported using MWAIT.
    pub fn supported_c6_states(&self) -> (r: u16)
        ensures
            r == bit_field(self.edx, 24, 27) as u16,
    {
        get_bits(self.edx, 24, 27) as u16
    }

    /// Number of C7 sub C-states supported using MWAIT.
    pub fn supported_c7_states(&self) -> (r: u16)
        ensures
            r == bit_field(self.edx, 28, 31) as u16,
    {
        get_bits(self.edx, 28, 31) as u16
    }
}

/// Leaf 0x6: thermal and power management.
#[derive(Debug, Clone, Copy)]
pub struct ThermalPowerInfo {
    pub eax: u32,
    pub ebx: u32,
    pub ecx: u32,
    pub edx: u32,
}

impl ThermalPowerInfo {

    /// Number of interrupt thresholds in the digital thermal sensor.
    pub fn dts_irq_threshold(&self) -> (r: u8)
        ensures
            r == bit_field(self.ebx, 0, 3) as u8,
    {
        get_bits(self.ebx, 0, 3) as u8
    }

    /// Digital temperature sensor.
    pub fn has_dts(&self) -> (r: bool)
        ensures
            r == bit_set(self.eax, 0),
    {
        test_bit(self.eax, 0)
    }

    /// Intel Turbo Boost technology.
    pub fn has_turbo_boost(&self) -> (r: bool)
        ensures
            r == bit_set(self.eax, 1),
    {
        test_bit(self.eax, 1)
    }

    /// APIC timer always running.
    pub fn has_arat(&self) -> (r: bool)
        ensures
            r == bit_set(self.eax, 2),
    {
        test_bit(self.eax, 2)
    }

    /// Power limit notification controls.
    pub fn has_pln(&self) -> (r: bool)
        ensures
            r == bit_set(self.eax, 4),
    {
        test_bit(self.eax, 4)
    }

    /// Clock modulation duty cycle extension.
    pub fn has_ecmd(&self) -> (r: bool)
        ensures
            r == bit_set(self.eax, 5),
    {
        test_bit(self.eax, 5)
    }

    /// Package thermal management.
    pub fn has_ptm(&self) -> (r: bool)
        ensures
            r == bit_set(self.eax, 6),
    {
        test_bit(self.eax, 6)
    }

    /// Hardware-controlled performance states.
    pub fn has_hwp(&self) -> (r: bool)
        ensures
            r == bit_set(self.eax, 7),
    {
        test_bit(self.eax, 7)
    }

    /// HWP notification.
    pub fn has_hwp_notification(&self) -> (r: bool)
        ensures
            r == bit_set(self.eax, 8),
    {
        test_bit(self.eax, 8)
    }

    /// HWP activity window.
    pub fn has_hwp_activity_window(&self) -> (r: bool)
        ensures
            r == bit_set(self.eax, 9),
    {
        test_bit(self.eax, 9)
    }

    /// HWP energy/performance preference.
    pub fn has_hwp_energy_performance_preference(&self) -> (r: bool)
        ensures
            r == bit_set(self.eax, 10),
    {
        test_bit(self.eax, 10)
    }

    /// HWP package level request.
    pub fn has_hwp_package_level_request(&self) -> (r: bool)
        ensures
            r == bit_set(self.eax, 11),
    {
        test_bit(self.eax, 11)
    }

    /// Hardware duty cycling.
    pub fn has_hdc(&self) -> (r: bool)
        ensures
            r == bit_set(self.eax, 13),
    {
        test_bit(self.eax, 13)
    }

    /// Intel Turbo Boost Max Technology 3.0.
    pub fn has_turbo_boost3(&self) -> (r: bool)
        ensures
            r == bit_set(self.eax, 14),
    {
        test_bit(self.eax, 14)
    }

    /// HWP capabilities (highest performance change).
    pub fn has_hwp_capabilities(&self) -> (r: bool)
        ensures
            r == bit_set(self.eax, 15),
    {
        test_bit(self.eax, 15)
    }

    /// HWP PECI override.
    pub fn has_hwp_peci_override(&self) -> (r: bool)
        ensures
            r == bit_set(self.eax, 16),
    {
        test_bit(self.eax, 16)
    }

    /// Flexible HWP.
    pub fn has_flexible_hwp(&self) -> (r: bool)
        ensures
            r == bit_set(self.eax, 17),
    {
        test_bit(self.eax, 17)
    }

    /// Fast access mode for the HWP request MSR.
    pub fn has_hwp_fast_access_mode(&self) -> (r: bool)
        ensures
            r == bit_set(self.eax, 18),
    {
        test_bit(self.eax, 18)
    }

    /// Ignoring idle logical processor HWP requests.
    pub fn has_ignore_idle_processor_hwp_request(&self) -> (r: bool)
        ensures
            r == bit_set(self.eax, 20),
    {
        test_bit(self.eax, 20)
    }

    /// Hardware coordination feedback capability.
    pub fn has_hw_coord_feedback(&self) -> (r: bool)
        ensures
            r == bit_set(self.ecx, 0),
    {
        test_bit(self.ecx, 0)
    }

    /// Performance-energy bias preference.
    pub fn has_energy_bias_pref(&self) -> (r: bool)
        ensures
            r == bit_set(self.ecx, 3),
    {
        test_bit(self.ecx, 3)
    }
}

/// Leaf 0x7: structured extended feature flags.
#[derive(Debug, Clone, Copy)]
pub struct ExtendedFeatures {
    pub eax: u32,
    pub ebx: u32,
    pub ecx: u32,
    pub edx: u32,
}

impl ExtendedFeatures {

    /// RDFSBASE/RDGSBASE/WRFSBASE/WRGSBASE.
    pub fn has_fsgsbase(&self) -> (r: bool)
        ensures
            r == bit_set(self.ebx, 0),
    {
        test_bit(self.ebx, 0)
    }

    /// IA32_TSC_ADJUST MSR.
    pub fn has_tsc_adjust_msr(&self) -> (r: bool)
        ensures
            r == bit_set(self.ebx, 1),
    {
        test_bit(self.ebx, 1)
    }

    /// Software guard extensions.
    pub fn has_sgx(&self) -> (r: bool)
        ensures
            r == bit_set(self.ebx, 2),
    {
        test_bit(self.ebx, 2)
    }

    /// BMI1.
    pub fn has_bmi1(&self) -> (r: bool)
        ensures
            r == bit_set(self.ebx, 3),
    {
        test_bit(self.ebx, 3)
    }

    /// Hardware lock elision.
    pub fn has_hle(&self) -> (r: bool)
        ensures
            r == bit_set(self.ebx, 4),
    {
        test_bit(self.ebx, 4)
    }

    /// AVX2.
    pub fn has_avx2(&self) -> (r: bool)
        ensures
            r == bit_set(self.ebx, 5),
    {
        test_bit(self.ebx, 5)
    }

    /// x87 FPU data pointer updated only on exceptions.
    pub fn has_fdp(&self) -> (r: bool)
        ensures
            r == bit_set(self.ebx, 6),
    {
        test_bit(self.ebx, 6)
    }

    /// Supervisor-mode execution prevention.
    pub fn has_smep(&self) -> (r: bool)
        ensures
            r == bit_set(self.ebx, 7),
    {
        test_bit(self.ebx, 7)
    }

    /// BMI2.
    pub fn has_bmi2(&self) -> (r: bool)
        ensures
            r == bit_set(self.ebx, 8),
    {
        test_bit(self.ebx, 8)
    }

    /// Enhanced REP MOVSB/STOSB.
    pub fn has_rep_movsb_stosb(&self) -> (r: bool)
        ensures
            r == bit_set(self.ebx, 9),
    {
        test_bit(self.ebx, 9)
    }

    /// INVPCID instruction.
    pub fn has_invpcid(&self) -> (r: bool)
        ensures
            r == bit_set(self.ebx, 10),
    {
        test_bit(self.ebx, 10)
    }

    /// Restricted transactional memory.
    pub fn has_rtm(&self) -> (r: bool)
        ensures
            r == bit_set(self.ebx, 11),
    {
        test_bit(self.ebx, 11)
    }

    /// Resource director technology monitoring.
    pub fn has_rdtm(&self) -> (r: bool)
        ensures
            r == bit_set(self.ebx, 12),
    {
        test_bit(self.ebx, 12)
    }

    /// Quality of service monitoring (the same bit as resource director monitoring).
    pub fn has_qm(&self) -> (r: bool)
        ensures
            r == bit_set(self.ebx, 12),
    {
        test_bit(self.ebx, 12)
    }

    /// FPU CS and DS values are deprecated.
    pub fn has_fpu_cs_ds_deprecated(&self) -> (r: bool)
        ensures
            r == bit_set(self.ebx, 13),
    {
        test_bit(self.ebx, 13)
    }

    /// Memory protection extensions.
    pub fn has_mpx(&self) -> (r: bool)
        ensures
            r == bit_set(self.ebx, 14),
    {
        test_bit(self.ebx, 14)
    }

    /// Resource director technology allocation.
    pub fn has_rdta(&self) -> (r: bool)
        ensures
            r == bit_set(self.ebx, 15),
    {
        test_bit(self.ebx, 15)
    }

    /// AVX512F.
    pub fn has_avx512f(&self) -> (r: bool)
        ensures
            r == bit_set(self.ebx, 16),
    {
        test_bit(self.ebx, 16)
    }

    /// AVX512DQ.
    pub fn has_avx512dq(&self) -> (r: bool)
        ensures
            r == bit_set(self.ebx, 17),
    {
        test_bit(self.ebx, 17)
    }

    /// RDSEED.
    pub fn has_rdseed(&self) -> (r: bool)
        ensures
            r == bit_set(self.ebx, 18),
    {
        test_bit(self.ebx, 18)
    }

    /// ADX.
    pub fn has_adx(&self) -> (r: bool)
        ensures
            r == bit_set(self.ebx, 19),
    {
        test_bit(self.ebx, 19)
    }

    /// Supervisor-mode access prevention.
    pub fn has_smap(&self) -> (r: bool)
        ensures
            r == bit_set(self.ebx, 20),
    {
        test_bit(self.ebx, 20)
    }

    /// AVX512_IFMA.
    pub fn has_avx512_ifma(&self) -> (r: bool)
        ensures
            r == bit_set(self.ebx, 21),
    {
        test_bit(self.ebx, 21)
    }

    /// CLFLUSHOPT.
    pub fn has_clflushopt(&self) -> (r: bool)
        ensures
            r == bit_set(self.ebx, 23),
    {
        test_bit(self.ebx, 23)
    }

    /// CLWB.
    pub fn has_clwb(&self) -> (r: bool)
        ensures
            r == bit_set(self.ebx, 24),
    {
        test_bit(self.ebx, 24)
    }

    /// Intel processor trace.
    pub fn has_processor_trace(&self) -> (r: bool)
        ensures
            r == bit_set(self.ebx, 25),
    {
        test_bit(self.ebx, 25)
    }

    /// AVX512PF.
    pub fn has_avx512pf(&self) -> (r: bool)
        ensures
            r == bit_set(self.ebx, 26),
    {
        test_bit(self.ebx, 26)
    }

    /// AVX512ER.
    pub fn has_avx512er(&self) -> (r: bool)
        ensures
            r == bit_set(self.ebx, 27),
    {
        test_bit(self.ebx, 27)
    }

    /// AVX512CD.
    pub fn has_avx512cd(&self) -> (r: bool)
        ensures
            r == bit_set(self.ebx, 28),
    {
        test_bit(self.ebx, 28)
    }

    /// SHA extensions.
    pub fn has_sha(&self) -> (r: bool)
        ensures
            r == bit_set(self.ebx, 29),
    {
        test_bit(self.ebx, 29)
    }

    /// AVX512BW.
    pub fn has_avx512bw(&self) -> (r: bool)
        ensures
            r == bit_set(self.ebx, 30),
    {
        test_bit(self.ebx, 30)
    }

    /// AVX512VL.
    pub fn has_avx512vl(&self) -> (r: bool)
        ensures
            r == bit_set(self.ebx, 31),
    {
        test_bit(self.ebx, 31)
    }

    /// PREFETCHWT1.
    pub fn has_prefetchwt1(&self) -> (r: bool)
        ensures
            r == bit_set(self.ecx, 0),
    {
        test_bit(self.ecx, 0)
    }

    /// User-mode instruction prevention.
    pub fn has_umip(&self) -> (r: bool)
        ensures
            r == bit_set(self.ecx, 2),
    {
        test_bit(self.ecx, 2)
    }

    /// Protection keys for user-mode pages.
    pub fn has_pku(&self) -> (r: bool)
        ensures
            r == bit_set(self.ecx, 3),
    {
        test_bit(self.ecx, 3)
    }

    /// The OS has set CR4.PKE.
    pub fn has_ospke(&self) -> (r: bool)
        ensures
            r == bit_set(self.ecx, 4),
    {
        test_bit(self.ecx, 4)
    }

    /// RDPID and IA32_TSC_AUX.
    pub fn has_rdpid(&self) -> (r: bool)
        ensures
            r == bit_set(self.ecx, 22),
    {
        test_bit(self.ecx, 22)
    }

    /// SGX launch configuration.
    pub fn has_sgx_lc(&self) -> (r: bool)
        ensures
            r == bit_set(self.ecx, 30),
    {
        test_bit(self.ecx, 30)
    }

    /// The value of MAWAU used by BNDLDX and BNDSTX in 64-bit mode.
    pub fn mawau_value(&self) -> (r: u8)
        ensures
            r == bit_field(self.ecx, 17, 21) as u8,
    {
        get_bits(self.ecx, 17, 21) as u8
    }
}

/// Leaf 0x9: direct cache access.
#[derive(Debug, Clone, Copy)]
pub struct DirectCacheAccessInfo {
    pub eax: u32,
}

impl DirectCacheAccessInfo {
    /// Value of the PLATFORM_DCA_CAP MSR bits [31:0].
    pub fn get_dca_cap_value(&self) -> (r: u32)
        ensures
            r == self.eax,
    {
        self.eax
    }
}

/// Leaf 0xA: architectural performance monitoring.
#[derive(Debug, Clone, Copy)]
pub struct PerformanceMonitoringInfo {
    pub eax: u32,
    pub ebx: u32,
    pub ecx: u32,
    pub edx: u32,
}

impl PerformanceMonitoringInfo {

    /// Version ID of architectural performance monitoring.
    pub fn version_id(&self) -> (r: u8)
        ensures
            r == bit_field(self.eax, 0, 7) as u8,
    {
        get_bits(self.eax, 0, 7) as u8
    }

    /// Number of general-purpose counters per logical processor.
    pub fn number_of_counters(&self) -> (r: u8)
        ensures
            r == bit_field(self.eax, 8, 15) as u8,
    {
        get_bits(self.eax, 8, 15) as u8
    }

    /// Bit width of the general-purpose counters.
    pub fn counter_bit_width(&self) -> (r: u8)
        ensures
            r == bit_field(self.eax, 16, 23) as u8,
    {
        get_bits(self.eax, 16, 23) as u8
    }

    /// Length of the EBX bit vector of architectural events.
    pub fn ebx_length(&self) -> (r: u8)
        ensures
            r == bit_field(self.eax, 24, 31) as u8,
    {
        get_bits(self.eax, 24, 31) as u8
    }

    /// Number of fixed-function counters.
    pub fn fixed_function_counters(&self) -> (r: u8)
        ensures
            r == bit_field(self.edx, 0, 4) as u8,
    {
        get_bits(self.edx, 0, 4) as u8
    }

    /// Bit width of the fixed-function counters.
    pub fn fixed_function_counters_bit_width(&self) -> (r: u8)
        ensures
            r == bit_field(self.edx, 5, 12) as u8,
    {
        get_bits(self.edx, 5, 12) as u8
    }

    /// Core cycle event not available.
    pub fn is_core_cyc_ev_unavailable(&self) -> (r: bool)
        ensures
            r == bit_set(self.ebx, 0),
    {
        test_bit(self.ebx, 0)
    }

    /// Instruction retired event not available.
    pub fn is_inst_ret_ev_unavailable(&self) -> (r: bool)
        ensures
            r == bit_set(self.ebx, 1),
    {
        test_bit(self.ebx, 1)
    }

    /// Reference cycles event not available.
    pub fn is_ref_cycle_ev_unavailable(&self) -> (r: bool)
        ensures
            r == bit_set(self.ebx, 2),
    {
        test_bit(self.ebx, 2)
    }

    /// Last-level cache reference event not available.
    pub fn is_cache_ref_ev_unavailable(&self) -> (r: bool)
        ensures
            r == bit_set(self.ebx, 3),
    {
        test_bit(self.ebx, 3)
    }

    /// Last-level cache misses event not available.
    pub fn is_ll_cache_miss_ev_unavailable(&self) -> (r: bool)
        ensures
            r == bit_set(self.ebx, 4),
    {
        test_bit(self.ebx, 4)
    }

    /// Branch instruction retired event not available.
    pub fn is_branch_inst_ret_ev_unavailable(&self) -> (r: bool)
        ensures
            r == bit_set(self.ebx, 5),
    {
        test_bit(self.ebx, 5)
    }

    /// Branch mispredict retired event not available.
    pub fn is_branch_midpred_ev_unavailable(&self) -> (r: bool)
        ensures
            r == bit_set(self.ebx, 6),
    {
        test_bit(self.ebx, 6)
    }
}

/// Leaf 0xF: quality of service monitoring, from subleaves 0 and 1.
#[derive(Debug, Clone, Copy)]
pub struct QoSInfo {
    pub ebx0: u32,
    pub edx0: u32,
    pub ebx1: u32,
    pub ecx1: u32,
    pub edx1: u32,
}

impl QoSInfo {
    /// Maximum range (zero-based) of RMID within this physical processor.
    pub fn maximum_rmid_range(&self) -> (r: u32)
        ensures
            r == self.ebx0,
    {
        self.ebx0
    }

    /// L3 cache quality of service monitoring.
    pub fn has_l3_qos(&self) -> (r: bool)
        ensures
            r == bit_set(self.edx0, 1),
    {
        test_bit(self.edx0, 1)
    }

    /// Conversion factor from the reported IA32_QM_CTR value to occupancy metric (bytes).
    pub fn conversion_factor(&self) -> (r: u32)
        ensures
            r == self.ebx1,
    {
        self.ebx1
    }

    /// Maximum range (zero-based) of RMID of the L3 resource type.
    pub fn maximum_range_l3_rmid(&self) -> (r: u32)
        ensures
            r == self.ecx1,
    {
        self.ecx1
    }

    /// L3 occupancy monitoring.
    pub fn has_l3_occupancy_monitoring(&self) -> (r: bool)
        ensures
            r == bit_set(self.edx1, 0),
    {
        test_bit(self.edx1, 0)
    }
}

} // verus!
