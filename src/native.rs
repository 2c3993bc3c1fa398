//! The live source: the CPUID instruction of the processor this code runs on.
use vstd::prelude::*;
use crate::bits::CpuIdResult;
use crate::dump::CpuIdReader;

verus! {

/// The processor this code runs on, queried through the CPUID instruction.
#[derive(Debug, Clone, Copy)]
pub struct NativeCpuIdReader;

/// Relies on `std::arch::x86_64::__cpuid_count`, which issues CPUID with
/// `leaf` in eax and `subleaf` in ecx on the current logical processor. What
/// it reports depends on the machine, so nothing is stated of it.
#[verifier::external_body]
fn native_cpuid(leaf: u32, subleaf: u32) -> (r: CpuIdResult) {
    let r = std::arch::x86_64::__cpuid_count(leaf, subleaf);
    CpuIdResult { eax: r.eax, ebx: r.ebx, ecx: r.ecx, edx: r.edx }
}

/// Executes CPUID with eax set to `eax` and ecx set to `ecx`.
pub fn cpuid2(eax: u32, ecx: u32) -> CpuIdResult {
    native_cpuid(eax, ecx)
}

/// Executes CPUID with eax set to `eax` (and ecx zero).
pub fn cpuid1(eax: u32) -> CpuIdResult {
    native_cpuid(eax, 0)
}

impl CpuIdReader for NativeCpuIdReader {
    /// Any quad may come back from the hardware.
    open spec fn answers(&self, leaf: u32, subleaf: Option<u32>, r: CpuIdResult) -> bool {
        true
    }

    fn cpuid1(&self, leaf: u32) -> (r: CpuIdResult) {
        native_cpuid(leaf, 0)
    }

    fn cpuid2(&self, leaf: u32, subleaf: u32) -> (r: CpuIdResult) {
        native_cpuid(leaf, subleaf)
    }
}

} // verus!
