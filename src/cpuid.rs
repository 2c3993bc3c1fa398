//! The facade: one reader, one method per known leaf.
use vstd::prelude::*;
use crate::bits::{zero_quad, CpuIdResult};
use crate::dump::CpuIdReader;
use crate::extended::{
    ExtendedFunctionInfo, ExtendedProcessorFeatureIdentifiers, L1CacheTlbInfo, ProcessorBrandString,
};
use crate::leaves::{
    spec_vendor, DirectCacheAccessInfo, ExtendedFeatures, FeatureInfo, MonitorMwaitInfo,
    PerformanceMonitoringInfo, ProcessorSerial, QoSInfo, ThermalPowerInfo, Vendor, VendorInfo,
};
use crate::rdt::{RdtAllocationInfo, RdtMonitoringInfo, EAX_RDT_ALLOCATION, EAX_RDT_MONITORING};
use crate::sequences::{
    CacheInfoIter, CacheParametersIter, ExtendedStateInfo, ExtendedTopologyIter,
    EAX_CACHE_PARAMETERS, EAX_EXTENDED_STATE_INFO, EAX_EXTENDED_TOPOLOGY_INFO,
};

verus! {

pub const EAX_VENDOR_INFO: u32 = 0x0;
pub const EAX_FEATURE_INFO: u32 = 0x1;
pub const EAX_CACHE_INFO: u32 = 0x2;
pub const EAX_PROCESSOR_SERIAL: u32 = 0x3;
pub const EAX_MONITOR_MWAIT_INFO: u32 = 0x5;
pub const EAX_THERMAL_POWER_INFO: u32 = 0x6;
pub const EAX_STRUCTURED_EXTENDED_FEATURE_INFO: u32 = 0x7;
pub const EAX_DIRECT_CACHE_ACCESS_INFO: u32 = 0x9;
pub const EAX_PERFORMANCE_MONITOR_INFO: u32 = 0xA;
pub const EAX_QOS_INFO: u32 = 0xF;
pub const EAX_EXTENDED_FUNCTION_INFO: u32 = 0x8000_0000;
pub const EAX_EXTENDED_PROCESSOR_AND_FEATURE_IDENTIFIERS: u32 = 0x8000_0001;
pub const EAX_EXTENDED_BRAND_STRING: u32 = 0x8000_0002;
pub const EAX_L1_CACHE_INFO: u32 = 0x8000_0005;

/// Main type used to query a CPUID source for information about a processor.
pub struct CpuId<R: CpuIdReader> {
    pub read: R,
    /// The vendor that leaf 0 names.
    pub vendor: Vendor,
    /// The largest standard leaf (leaf 0's `eax`).
    pub supported_leafs: u32,
    /// The largest extended leaf (leaf 0x8000_0000's `eax`).
    pub supported_extended_leafs: u32,
}

/// The registers of `q` as one quad.
pub open spec fn quad(eax: u32, ebx: u32, ecx: u32, edx: u32) -> CpuIdResult {
    CpuIdResult { eax, ebx, ecx, edx }
}

impl<R: CpuIdReader> CpuId<R> {
    /// Binds `read`, reading the vendor and the largest standard and
    /// extended leaves from it.
    pub fn new(read: R) -> (r: Self)
        ensures
            r.read == read,
            exists|q: CpuIdResult|
                read.answers(EAX_VENDOR_INFO, None, q) && r.supported_leafs == q.eax && r.vendor
                    == spec_vendor(q),
            exists|q: CpuIdResult|
                read.answers(EAX_EXTENDED_FUNCTION_INFO, None, q) && r.supported_extended_leafs
                    == q.eax,
    {
        let vf = read.cpuid1(EAX_VENDOR_INFO);
        let ext = read.cpuid1(EAX_EXTENDED_FUNCTION_INFO);
        let vendor = Vendor::from_vendor_leaf(vf);
        CpuId { read, vendor, supported_leafs: vf.eax, supported_extended_leafs: ext.eax }
    }

    /// Whether `val` is a leaf this source reports: within the largest leaf
    /// of its range, and not one of the leaves AMD reserves (0x2 to 0x4 and
    /// 0x8 to 0xA).
    pub open spec fn supports(&self, val: u32) -> bool {
        &&& !(self.vendor == Vendor::Amd && ((0x2 <= val && val <= 0x4) || (0x8 <= val && val <= 0xa)))
        &&& if val < EAX_EXTENDED_FUNCTION_INFO {
            val <= self.supported_leafs
        } else {
            val <= self.supported_extended_leafs
        }
    }

    fn leaf_is_supported(&self, val: u32) -> (r: bool)
        ensures
            r == self.supports(val),
    {
        if self.vendor == Vendor::Amd && ((0x2 <= val && val <= 0x4) || (0x8 <= val && val <= 0xa)) {
            return false;
        }
        if val < EAX_EXTENDED_FUNCTION_INFO {
            val <= self.supported_leafs
        } else {
            val <= self.supported_extended_leafs
        }
    }

    /// The vendor identification (leaf 0x0). `None` when the source does not report the leaf.
    pub fn get_vendor_info(&self) -> (r: Option<VendorInfo>)
        ensures
            r is Some <==> self.supports(EAX_VENDOR_INFO),
            r matches Some(v) ==> exists|q: CpuIdResult|
                self.read.answers(EAX_VENDOR_INFO, None, q) && v.ebx == q.ebx && v.edx == q.edx && v.ecx == q.ecx,
    {
        if self.leaf_is_supported(EAX_VENDOR_INFO) {
            let res = self.read.cpuid1(EAX_VENDOR_INFO);
            Some(VendorInfo { ebx: res.ebx, edx: res.edx, ecx: res.ecx })
        } else {
            None
        }
    }

    /// Version information and feature flags (leaf 0x1). `None` when the source does not report the leaf.
    pub fn get_feature_info(&self) -> (r: Option<FeatureInfo>)
        ensures
            r is Some <==> self.supports(EAX_FEATURE_INFO),
            r matches Some(v) ==> exists|q: CpuIdResult|
                self.read.answers(EAX_FEATURE_INFO, None, q) && q == quad(v.eax, v.ebx, v.ecx, v.edx),
    {
        if self.leaf_is_supported(EAX_FEATURE_INFO) {
            let res = self.read.cpuid1(EAX_FEATURE_INFO);
            Some(FeatureInfo { eax: res.eax, ebx: res.ebx, ecx: res.ecx, edx: res.edx })
        } else {
            None
        }
    }

    /// The cache descriptors of leaf 0x2, starting after the count byte. `None` when the source does not report the leaf.
    pub fn get_cache_info(&self) -> (r: Option<CacheInfoIter>)
        ensures
            r is Some <==> self.supports(EAX_CACHE_INFO),
            r matches Some(v) ==> exists|q: CpuIdResult|
                self.read.answers(EAX_CACHE_INFO, None, q) && q == quad(v.eax, v.ebx, v.ecx, v.edx) && v.current == 1,
    {
        if self.leaf_is_supported(EAX_CACHE_INFO) {
            let res = self.read.cpuid1(EAX_CACHE_INFO);
            Some(CacheInfoIter { current: 1, eax: res.eax, ebx: res.ebx, ecx: res.ecx, edx: res.edx })
        } else {
            None
        }
    }

    /// The processor serial number (leaf 0x3). `None` when the source does not report the leaf.
    pub fn get_processor_serial(&self) -> (r: Option<ProcessorSerial>)
        ensures
            r is Some <==> self.supports(EAX_PROCESSOR_SERIAL),
            r matches Some(v) ==> exists|q: CpuIdResult|
                self.read.answers(EAX_PROCESSOR_SERIAL, None, q) && v.ecx == q.ecx && v.edx == q.edx,
    {
        if self.leaf_is_supported(EAX_PROCESSOR_SERIAL) {
            let res = self.read.cpuid1(EAX_PROCESSOR_SERIAL);
            Some(ProcessorSerial { ecx: res.ecx, edx: res.edx })
        } else {
            None
        }
    }

    /// The cache levels of leaf 0x4, from subleaf 0. `None` when the source
    /// does not report the leaf.
    pub fn get_cache_parameters(&self) -> (r: Option<CacheParametersIter<'_, R>>)
        ensures
            r is Some <==> self.supports(EAX_CACHE_PARAMETERS),
            r matches Some(it) ==> *it.read == self.read && it.current == 0,
    {
        if self.leaf_is_supported(EAX_CACHE_PARAMETERS) {
            Some(CacheParametersIter { read: &self.read, current: 0 })
        } else {
            None
        }
    }

    /// MONITOR/MWAIT parameters (leaf 0x5). `None` when the source does not report the leaf.
    pub fn get_monitor_mwait_info(&self) -> (r: Option<MonitorMwaitInfo>)
        ensures
            r is Some <==> self.supports(EAX_MONITOR_MWAIT_INFO),
            r matches Some(v) ==> exists|q: CpuIdResult|
                self.read.answers(EAX_MONITOR_MWAIT_INFO, None, q) && q == quad(v.eax, v.ebx, v.ecx, v.edx),
    {
        if self.leaf_is_supported(EAX_MONITOR_MWAIT_INFO) {
            let res = self.read.cpuid1(EAX_MONITOR_MWAIT_INFO);
            Some(MonitorMwaitInfo { eax: res.eax, ebx: res.ebx, ecx: res.ecx, edx: res.edx })
        } else {
            None
        }
    }

    /// Thermal and power management features (leaf 0x6). `None` when the source does not report the leaf.
    pub fn get_thermal_power_info(&self) -> (r: Option<ThermalPowerInfo>)
        ensures
            r is Some <==> self.supports(EAX_THERMAL_POWER_INFO),
            r matches Some(v) ==> exists|q: CpuIdResult|
                self.read.answers(EAX_THERMAL_POWER_INFO, None, q) && q == quad(v.eax, v.ebx, v.ecx, v.edx),
    {
        if self.leaf_is_supported(EAX_THERMAL_POWER_INFO) {
            let res = self.read.cpuid1(EAX_THERMAL_POWER_INFO);
            Some(ThermalPowerInfo { eax: res.eax, ebx: res.ebx, ecx: res.ecx, edx: res.edx })
        } else {
            None
        }
    }

    /// Structured extended feature flags (leaf 0x7). `None` when the source
    /// does not report the leaf.
    pub fn get_extended_feature_info(&self) -> (r: Option<ExtendedFeatures>)
        ensures
            r is Some <==> self.supports(EAX_STRUCTURED_EXTENDED_FEATURE_INFO),
            r matches Some(v) ==> self.read.answers(
                EAX_STRUCTURED_EXTENDED_FEATURE_INFO,
                None,
                quad(v.eax, v.ebx, v.ecx, v.edx),
            ),
    {
        if self.leaf_is_supported(EAX_STRUCTURED_EXTENDED_FEATURE_INFO) {
            let res = self.read.cpuid1(EAX_STRUCTURED_EXTENDED_FEATURE_INFO);
            Some(ExtendedFeatures { eax: res.eax, ebx: res.ebx, ecx: res.ecx, edx: res.edx })
        } else {
            None
        }
    }

    /// Direct cache access (leaf 0x9). `None` when the source does not report the leaf.
    pub fn get_direct_cache_access_info(&self) -> (r: Option<DirectCacheAccessInfo>)
        ensures
            r is Some <==> self.supports(EAX_DIRECT_CACHE_ACCESS_INFO),
            r matches Some(v) ==> exists|q: CpuIdResult|
                self.read.answers(EAX_DIRECT_CACHE_ACCESS_INFO, None, q) && v.eax == q.eax,
    {
        if self.leaf_is_supported(EAX_DIRECT_CACHE_ACCESS_INFO) {
            let res = self.read.cpuid1(EAX_DIRECT_CACHE_ACCESS_INFO);
            Some(DirectCacheAccessInfo { eax: res.eax })
        } else {
            None
        }
    }

    /// Architectural performance monitoring (leaf 0xA). `None` when the source does not report the leaf.
    pub fn get_performance_monitoring_info(&self) -> (r: Option<PerformanceMonitoringInfo>)
        ensures
            r is Some <==> self.supports(EAX_PERFORMANCE_MONITOR_INFO),
            r matches Some(v) ==> exists|q: CpuIdResult|
                self.read.answers(EAX_PERFORMANCE_MONITOR_INFO, None, q) && q == quad(v.eax, v.ebx, v.ecx, v.edx),
    {
        if self.leaf_is_supported(EAX_PERFORMANCE_MONITOR_INFO) {
            let res = self.read.cpuid1(EAX_PERFORMANCE_MONITOR_INFO);
            Some(PerformanceMonitoringInfo { eax: res.eax, ebx: res.ebx, ecx: res.ecx, edx: res.edx })
        } else {
            None
        }
    }

    /// The topology levels of leaf 0xB, from subleaf 0. `None` when the
    /// source does not report the leaf.
    pub fn get_extended_topology_info(&self) -> (r: Option<ExtendedTopologyIter<'_, R>>)
        ensures
            r is Some <==> self.supports(EAX_EXTENDED_TOPOLOGY_INFO),
            r matches Some(it) ==> *it.read == self.read && it.level == 0,
    {
        if self.leaf_is_supported(EAX_EXTENDED_TOPOLOGY_INFO) {
            Some(ExtendedTopologyIter { read: &self.read, level: 0 })
        } else {
            None
        }
    }

    /// The extended state save area (leaf 0xD, subleaves 0 and 1). `None`
    /// when the source does not report the leaf.
    pub fn get_extended_state_info(&self) -> (r: Option<ExtendedStateInfo<'_, R>>)
        ensures
            r is Some <==> self.supports(EAX_EXTENDED_STATE_INFO),
            r matches Some(v) ==> {
                &&& *v.read == self.read
                &&& self.read.answers(EAX_EXTENDED_STATE_INFO, Some(0), quad(v.eax, v.ebx, v.ecx, v.edx))
                &&& self.read.answers(EAX_EXTENDED_STATE_INFO, Some(1), quad(v.eax1, v.ebx1, v.ecx1, v.edx1))
            },
    {
        if self.leaf_is_supported(EAX_EXTENDED_STATE_INFO) {
            let res = self.read.cpuid2(EAX_EXTENDED_STATE_INFO, 0);
            let res1 = self.read.cpuid2(EAX_EXTENDED_STATE_INFO, 1);
            Some(
                ExtendedStateInfo {
                    read: &self.read,
                    eax: res.eax,
                    ebx: res.ebx,
                    ecx: res.ecx,
                    edx: res.edx,
                    eax1: res1.eax,
                    ebx1: res1.ebx,
                    ecx1: res1.ecx,
                    edx1: res1.edx,
                },
            )
        } else {
            None
        }
    }

    /// Quality of service monitoring (leaf 0xF, subleaves 0 and 1). `None`
    /// when the source does not report the leaf.
    pub fn get_quality_of_service_info(&self) -> (r: Option<QoSInfo>)
        ensures
            r is Some <==> self.supports(EAX_QOS_INFO),
            r matches Some(v) ==> {
                &&& exists|q: CpuIdResult|
                    self.read.answers(EAX_QOS_INFO, Some(0), q) && v.ebx0 == q.ebx && v.edx0 == q.edx
                &&& exists|q: CpuIdResult|
                    self.read.answers(EAX_QOS_INFO, Some(1), q) && v.ebx1 == q.ebx && v.ecx1 == q.ecx
                        && v.edx1 == q.edx
            },
    {
        if self.leaf_is_supported(EAX_QOS_INFO) {
            let res = self.read.cpuid2(EAX_QOS_INFO, 0);
            let res1 = self.read.cpuid2(EAX_QOS_INFO, 1);
            Some(QoSInfo { ebx0: res.ebx, edx0: res.edx, ebx1: res1.ebx, ecx1: res1.ecx, edx1: res1.edx })
        } else {
            None
        }
    }

    /// Resource monitoring (leaf 0xF, subleaf 0). `None` when the source does
    /// not report the leaf.
    pub fn get_rdt_monitoring_info(&self) -> (r: Option<RdtMonitoringInfo<'_, R>>)
        ensures
            r is Some <==> self.supports(EAX_RDT_MONITORING),
            r matches Some(v) ==> *v.read == self.read && exists|q: CpuIdResult|
                self.read.answers(EAX_RDT_MONITORING, Some(0), q) && v.ebx == q.ebx && v.edx == q.edx,
    {
        if self.leaf_is_supported(EAX_RDT_MONITORING) {
            let res = self.read.cpuid2(EAX_RDT_MONITORING, 0);
            Some(RdtMonitoringInfo { read: &self.read, ebx: res.ebx, edx: res.edx })
        } else {
            None
        }
    }

    /// Resource allocation (leaf 0x10, subleaf 0). `None` when the source
    /// does not report the leaf.
    pub fn get_rdt_allocation_info(&self) -> (r: Option<RdtAllocationInfo<'_, R>>)
        ensures
            r is Some <==> self.supports(EAX_RDT_ALLOCATION),
            r matches Some(v) ==> *v.read == self.read && exists|q: CpuIdResult|
                self.read.answers(EAX_RDT_ALLOCATION, Some(0), q) && v.ebx == q.ebx,
    {
        if self.leaf_is_supported(EAX_RDT_ALLOCATION) {
            let res = self.read.cpuid2(EAX_RDT_ALLOCATION, 0);
            Some(RdtAllocationInfo { read: &self.read, ebx: res.ebx })
        } else {
            None
        }
    }

    /// Extended processor signature and feature bits (leaf 0x8000_0001),
    /// read for this source's vendor. `None` when the source does not report
    /// the leaf.
    pub fn get_extended_processor_and_feature_identifiers(&self) -> (r: Option<
        ExtendedProcessorFeatureIdentifiers,
    >)
        ensures
            r is Some <==> self.supports(EAX_EXTENDED_PROCESSOR_AND_FEATURE_IDENTIFIERS),
            r matches Some(v) ==> v.vendor == self.vendor && self.read.answers(
                EAX_EXTENDED_PROCESSOR_AND_FEATURE_IDENTIFIERS,
                None,
                quad(v.eax, v.ebx, v.ecx, v.edx),
            ),
    {
        if self.leaf_is_supported(EAX_EXTENDED_PROCESSOR_AND_FEATURE_IDENTIFIERS) {
            let res = self.read.cpuid1(EAX_EXTENDED_PROCESSOR_AND_FEATURE_IDENTIFIERS);
            Some(ExtendedProcessorFeatureIdentifiers::new(self.vendor, res))
        } else {
            None
        }
    }

    /// The processor brand string (leaves 0x8000_0002 to 0x8000_0004).
    /// `None` when the source does not report all three leaves.
    pub fn get_processor_brand_string(&self) -> (r: Option<ProcessorBrandString>)
        ensures
            r is Some <==> self.supports((EAX_EXTENDED_BRAND_STRING + 2) as u32),
            r matches Some(v) ==> {
                &&& self.read.answers(EAX_EXTENDED_BRAND_STRING, None, v.data@[0])
                &&& self.read.answers((EAX_EXTENDED_BRAND_STRING + 1) as u32, None, v.data@[1])
                &&& self.read.answers((EAX_EXTENDED_BRAND_STRING + 2) as u32, None, v.data@[2])
            },
    {
        if self.leaf_is_supported(EAX_EXTENDED_BRAND_STRING + 2) {
            let a = self.read.cpuid1(EAX_EXTENDED_BRAND_STRING);
            let b = self.read.cpuid1(EAX_EXTENDED_BRAND_STRING + 1);
            let c = self.read.cpuid1(EAX_EXTENDED_BRAND_STRING + 2);
            Some(ProcessorBrandString::new([a, b, c]))
        } else {
            None
        }
    }

    /// L1 cache and TLB information (leaf 0x8000_0005). `None` when the
    /// source does not report the leaf.
    pub fn get_l1_cache_and_tlb_info(&self) -> (r: Option<L1CacheTlbInfo>)
        ensures
            r is Some <==> self.supports(EAX_L1_CACHE_INFO),
            r matches Some(v) ==> self.read.answers(EAX_L1_CACHE_INFO, None, v.data),
    {
        if self.leaf_is_supported(EAX_L1_CACHE_INFO) {
            let res = self.read.cpuid1(EAX_L1_CACHE_INFO);
            Some(L1CacheTlbInfo::new(res))
        } else {
            None
        }
    }

    /// Leaves 0x8000_0000 to 0x8000_0008, as far as the source reports them.
    /// `None` when leaf 0x8000_0000 reports no extended leaves.
    pub fn get_extended_function_info(&self) -> (r: Option<ExtendedFunctionInfo>)
        ensures
            r matches Some(ef) ==> {
                &&& self.read.answers(EAX_EXTENDED_FUNCTION_INFO, None, ef.data@[0])
                &&& ef.data@[0].eax >= EAX_EXTENDED_FUNCTION_INFO
                &&& ef.max_eax_value == ef.data@[0].eax - EAX_EXTENDED_FUNCTION_INFO
                &&& forall|i: int|
                    1 <= i <= 8 ==> if i <= ef.max_eax_value {
                        self.read.answers((EAX_EXTENDED_FUNCTION_INFO + i) as u32, None, ef.data@[i])
                    } else {
                        ef.data@[i] == zero_quad()
                    }
            },
            r is None ==> exists|q: CpuIdResult|
                self.read.answers(EAX_EXTENDED_FUNCTION_INFO, None, q) && q.eax
                    < EAX_EXTENDED_FUNCTION_INFO,
    {
        let res = self.read.cpuid1(EAX_EXTENDED_FUNCTION_INFO);
        if res.eax < EAX_EXTENDED_FUNCTION_INFO {
            return None;
        }
        let max_eax_value = res.eax - EAX_EXTENDED_FUNCTION_INFO;
        let mut data: [CpuIdResult; 9] = [
            res,
            CpuIdResult::empty(),
            CpuIdResult::empty(),
            CpuIdResult::empty(),
            CpuIdResult::empty(),
            CpuIdResult::empty(),
            CpuIdResult::empty(),
            CpuIdResult::empty(),
            CpuIdResult::empty(),
        ];
        let last: u32 = if max_eax_value < 8 { max_eax_value } else { 8 };
        let mut i: u32 = 1;
        while i <= last
            invariant
                1 <= i <= last + 1,
                last <= 8,
                last == if max_eax_value < 8 { max_eax_value } else { 8 },
                data@.len() == 9,
                data@[0] == res,
                forall|j: int| 1 <= j < i ==> self.read.answers((EAX_EXTENDED_FUNCTION_INFO + j) as u32, None, data@[j]),
                forall|j: int| i <= j <= 8 ==> data@[j] == zero_quad(),
            decreases last + 1 - i,
        {
            data[i as usize] = self.read.cpuid1(EAX_EXTENDED_FUNCTION_INFO + i);
            i = i + 1;
        }
        Some(ExtendedFunctionInfo { max_eax_value, data })
    }
}

} // verus!
