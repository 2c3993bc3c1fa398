//! Resource director technology: monitoring (leaf 0xF) and allocation
//! (leaf 0x10).
use vstd::prelude::*;
use crate::bits::{
    bit_field, bit_set, get_bits, lemma_field_below_0x1000, lemma_field_below_0x80, test_bit, CpuIdResult,
};
use crate::dump::CpuIdReader;

verus! {

/// Leaf of resource monitoring.
pub const EAX_RDT_MONITORING: u32 = 0xF;
/// Leaf of resource allocation.
pub const EAX_RDT_ALLOCATION: u32 = 0x10;

/// Leaf 0xF, subleaf 0: which resources can be monitored.
pub struct RdtMonitoringInfo<'a, R: CpuIdReader> {
    pub read: &'a R,
    pub ebx: u32,
    pub edx: u32,
}

impl<'a, R: CpuIdReader> RdtMonitoringInfo<'a, R> {
    /// Maximum range (zero-based) of RMID within this physical processor.
    pub fn rmid_range(&self) -> (r: u32)
        ensures
            r == self.ebx,
    {
        self.ebx
    }

    /// L3 cache resource monitoring.
    pub fn has_l3_monitoring(&self) -> (r: bool)
        ensures
            r == bit_set(self.edx, 1),
    {
        test_bit(self.edx, 1)
    }

    /// L3 cache monitoring details (subleaf 1), when L3 monitoring exists.
    pub fn l3_monitoring(&self) -> (r: Option<L3MonitoringInfo>)
        ensures
            r is Some <==> bit_set(self.edx, 1),
            r matches Some(v) ==> exists|q: CpuIdResult|
                self.read.answers(EAX_RDT_MONITORING, Some(1), q) && v.ebx == q.ebx && v.ecx == q.ecx
                    && v.edx == q.edx,
    {
        if self.has_l3_monitoring() {
            let res = self.read.cpuid2(EAX_RDT_MONITORING, 1);
            Some(L3MonitoringInfo { ebx: res.ebx, ecx: res.ecx, edx: res.edx })
        } else {
            None
        }
    }
}

/// Leaf 0xF, subleaf 1: L3 cache monitoring.
#[derive(Debug, Clone, Copy)]
pub struct L3MonitoringInfo {
    pub ebx: u32,
    pub ecx: u32,
    pub edx: u32,
}

impl L3MonitoringInfo {
    /// Conversion factor from the reported IA32_QM_CTR value to occupancy metric (bytes).
    pub fn conversion_factor(&self) -> (r: u32)
        ensures
            r == self.ebx,
    {
        self.ebx
    }

    /// Maximum range (zero-based) of RMID of this resource type.
    pub fn maximum_rmid_range(&self) -> (r: u32)
        ensures
            r == self.ecx,
    {
        self.ecx
    }

    /// L3 occupancy monitoring.
    pub fn has_occupancy_monitoring(&self) -> (r: bool)
        ensures
            r == bit_set(self.edx, 0),
    {
        test_bit(self.edx, 0)
    }

    /// L3 total bandwidth monitoring.
    pub fn has_total_bandwidth_monitoring(&self) -> (r: bool)
        ensures
            r == bit_set(self.edx, 1),
    {
        test_bit(self.edx, 1)
    }

    /// L3 local bandwidth monitoring.
    pub fn has_local_bandwidth_monitoring(&self) -> (r: bool)
        ensures
            r == bit_set(self.edx, 2),
    {
        test_bit(self.edx, 2)
    }
}

/// Leaf 0x10, subleaf 0: which resources can be allocated.
pub struct RdtAllocationInfo<'a, R: CpuIdReader> {
    pub read: &'a R,
    pub ebx: u32,
}

impl<'a, R: CpuIdReader> RdtAllocationInfo<'a, R> {

    /// L3 cache allocation technology.
    pub fn has_l3_cat(&self) -> (r: bool)
        ensures
            r == bit_set(self.ebx, 1),
    {
        test_bit(self.ebx, 1)
    }

    /// L2 cache allocation technology.
    pub fn has_l2_cat(&self) -> (r: bool)
        ensures
            r == bit_set(self.ebx, 2),
    {
        test_bit(self.ebx, 2)
    }

    /// Memory bandwidth allocation.
    pub fn has_memory_bandwidth_allocation(&self) -> (r: bool)
        ensures
            r == bit_set(self.ebx, 3),
    {
        test_bit(self.ebx, 3)
    }

    /// L3 cache allocation details (subleaf 1), when L3 allocation exists.
    pub fn l3_cat(&self) -> (r: Option<L3CatInfo>)
        ensures
            r is Some <==> bit_set(self.ebx, 1),
            r matches Some(v) ==> exists|q: CpuIdResult|
                self.read.answers(EAX_RDT_ALLOCATION, Some(1), q) && v.eax == q.eax && v.ebx == q.ebx && v.ecx == q.ecx && v.edx == q.edx,
    {
        if test_bit(self.ebx, 1) {
            let res = self.read.cpuid2(EAX_RDT_ALLOCATION, 1);
            Some(L3CatInfo { eax: res.eax, ebx: res.ebx, ecx: res.ecx, edx: res.edx })
        } else {
            None
        }
    }

    /// L2 cache allocation details (subleaf 2), when L2 allocation exists.
    pub fn l2_cat(&self) -> (r: Option<L2CatInfo>)
        ensures
            r is Some <==> bit_set(self.ebx, 2),
            r matches Some(v) ==> exists|q: CpuIdResult|
                self.read.answers(EAX_RDT_ALLOCATION, Some(2), q) && v.eax == q.eax && v.ebx == q.ebx && v.edx == q.edx,
    {
        if test_bit(self.ebx, 2) {
            let res = self.read.cpuid2(EAX_RDT_ALLOCATION, 2);
            Some(L2CatInfo { eax: res.eax, ebx: res.ebx, edx: res.edx })
        } else {
            None
        }
    }

    /// Memory bandwidth allocation details (subleaf 3), when it exists.
    pub fn memory_bandwidth_allocation(&self) -> (r: Option<MemBwAllocationInfo>)
        ensures
            r is Some <==> bit_set(self.ebx, 3),
            r matches Some(v) ==> exists|q: CpuIdResult|
                self.read.answers(EAX_RDT_ALLOCATION, Some(3), q) && v.eax == q.eax && v.ecx == q.ecx && v.edx == q.edx,
    {
        if test_bit(self.ebx, 3) {
            let res = self.read.cpuid2(EAX_RDT_ALLOCATION, 3);
            Some(MemBwAllocationInfo { eax: res.eax, ecx: res.ecx, edx: res.edx })
        } else {
            None
        }
    }
}

/// Leaf 0x10, subleaf 1: L3 cache allocation.
#[derive(Debug, Clone, Copy)]
pub struct L3CatInfo {
    pub eax: u32,
    pub ebx: u32,
    pub ecx: u32,
    pub edx: u32,
}

impl L3CatInfo {

    /// Length of the capacity bit mask.
    pub fn capacity_mask_length(&self) -> (r: u8)
        ensures
            r == bit_field(self.eax, 0, 4) + 1,
    {
        proof {
            lemma_field_below_0x80(self.eax, 0, 4);
        }
        (get_bits(self.eax, 0, 4) + 1) as u8
    }

    /// Bit-granular map of isolation/contention of allocation units.
    pub fn isolation_bitmap(&self) -> (r: u32)
        ensures
            r == self.ebx,
    {
        self.ebx
    }

    /// Highest class of service number supported.
    pub fn highest_cos(&self) -> (r: u16)
        ensures
            r == bit_field(self.edx, 0, 15) as u16,
    {
        get_bits(self.edx, 0, 15) as u16
    }

    /// Code and data prioritization.
    pub fn has_code_data_prioritization(&self) -> (r: bool)
        ensures
            r == bit_set(self.ecx, 2),
    {
        test_bit(self.ecx, 2)
    }
}

/// Leaf 0x10, subleaf 2: L2 cache allocation.
#[derive(Debug, Clone, Copy)]
pub struct L2CatInfo {
    pub eax: u32,
    pub ebx: u32,
    pub edx: u32,
}

impl L2CatInfo {

    /// Length of the capacity bit mask.
    pub fn capacity_mask_length(&self) -> (r: u8)
        ensures
            r == bit_field(self.eax, 0, 4) + 1,
    {
        proof {
            lemma_field_below_0x80(self.eax, 0, 4);
        }
        (get_bits(self.eax, 0, 4) + 1) as u8
    }

    /// Bit-granular map of isolation/contention of allocation units.
    pub fn isolation_bitmap(&self) -> (r: u32)
        ensures
            r == self.ebx,
    {
        self.ebx
    }

    /// Highest class of service number supported.
    pub fn highest_cos(&self) -> (r: u16)
        ensures
            r == bit_field(self.edx, 0, 15) as u16,
    {
        get_bits(self.edx, 0, 15) as u16
    }
}

/// Leaf 0x10, subleaf 3: memory bandwidth allocation.
#[derive(Debug, Clone, Copy)]
pub struct MemBwAllocationInfo {
    pub eax: u32,
    pub ecx: u32,
    pub edx: u32,
}

impl MemBwAllocationInfo {

    /// Maximum memory bandwidth allocation throttling value.
    pub fn max_hba_throttling(&self) -> (r: u16)
        ensures
            r == bit_field(self.eax, 0, 11) + 1,
    {
        proof {
            lemma_field_below_0x1000(self.eax, 0, 11);
        }
        (get_bits(self.eax, 0, 11) + 1) as u16
    }

    /// Highest class of service number supported.
    pub fn highest_cos(&self) -> (r: u16)
        ensures
            r == bit_field(self.edx, 0, 15) as u16,
    {
        get_bits(self.edx, 0, 15) as u16
    }

    /// The response of the delay values is linear.
    pub fn has_linear_response_delay(&self) -> (r: bool)
        ensures
            r == bit_set(self.ecx, 2),
    {
        test_bit(self.ecx, 2)
    }
}

} // verus!
