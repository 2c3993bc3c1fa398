//! Decoding of the x86 CPUID instruction's answers: a query-source abstraction,
//! a mutable snapshot store that keeps its bookkeeping leaves consistent, and
//! typed views of the individual leaves.
pub mod bits;
pub mod cpuid;
pub mod dump;
pub mod extended;
pub mod leaves;
pub mod native;
pub mod rdt;
pub mod sequences;
pub mod text;
pub mod uarch;

pub use bits::{get_bits, CpuIdResult};
pub use cpuid::CpuId;
pub use dump::{CpuIdDump, CpuIdDumpIter, CpuIdReader};
pub use extended::{
    ExtendedFunctionInfo, ExtendedProcessorFeatureIdentifiers, L1CacheTlbInfo, L2Associativity,
    ProcessorBrandString,
};
pub use leaves::{
    DirectCacheAccessInfo, ExtendedFeatures, FeatureInfo, MonitorMwaitInfo, PerformanceMonitoringInfo,
    ProcessorSerial, QoSInfo, ThermalPowerInfo, Vendor, VendorInfo,
};
pub use native::{cpuid1, cpuid2, NativeCpuIdReader};
pub use rdt::{
    L2CatInfo, L3CatInfo, L3MonitoringInfo, MemBwAllocationInfo, RdtAllocationInfo, RdtMonitoringInfo,
};
pub use sequences::{
    CacheInfo, CacheInfoIter, CacheInfoType, CacheParameter, CacheParametersIter, CacheType,
    ExtendedState, ExtendedStateIdent, ExtendedStateInfo, ExtendedStateIter, ExtendedTopologyIter, ExtendedTopologyLevel,
    TopologyType,
};
pub use uarch::{identify_micro_architecture, Core, CoreArch, MicroArchitecture, UArch};
