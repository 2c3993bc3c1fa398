//! Leaves that decode into sequences: cache descriptors (leaf 0x2), cache
//! parameters (leaf 0x4), extended topology (leaf 0xB) and extended state
//! components (leaf 0xD).
use vstd::prelude::*;
use crate::bits::{bit_field, bit_set, byte_of, get_bits, lemma_narrow_field, register_byte, test_bit, CpuIdResult};
use crate::dump::{spec_query2, CpuIdDump, CpuIdReader};

verus! {

/// Leaf of the cache parameters.
pub const EAX_CACHE_PARAMETERS: u32 = 0x4;
/// Leaf of the extended topology levels.
pub const EAX_EXTENDED_TOPOLOGY_INFO: u32 = 0xB;
/// Leaf of the extended state components.
pub const EAX_EXTENDED_STATE_INFO: u32 = 0xD;

/// What a leaf 0x2 descriptor describes.
#[derive(Copy, Clone, Debug, PartialEq, Eq, Structural)]
pub enum CacheInfoType {
    GENERAL,
    CACHE,
    TLB,
    STLB,
    DTLB,
    PREFETCH,
}

/// One cache, TLB or prefetcher descriptor of leaf 0x2.
#[derive(Copy, Clone, Debug)]
pub struct CacheInfo {
    /// The descriptor byte as reported.
    pub num: u8,
    /// Kind of the described unit.
    pub typ: CacheInfoType,
    /// Description of the unit.
    pub desc: &'static str,
}

impl CacheInfo {
    /// Short name of the descriptor's kind.
    pub fn kind_name(&self) -> (r: &'static str)
        ensures
            r@ == match self.typ {
                CacheInfoType::GENERAL => "N/A"@,
                CacheInfoType::CACHE => "Cache"@,
                CacheInfoType::TLB => "TLB"@,
                CacheInfoType::STLB => "STLB"@,
                CacheInfoType::DTLB => "DTLB"@,
                CacheInfoType::PREFETCH => "Prefetcher"@,
            },
    {
        match self.typ {
            CacheInfoType::GENERAL => "N/A",
            CacheInfoType::CACHE => "Cache",
            CacheInfoType::TLB => "TLB",
            CacheInfoType::STLB => "STLB",
            CacheInfoType::DTLB => "DTLB",
            CacheInfoType::PREFETCH => "Prefetcher",
        }
    }
}

/// The table of known leaf 0x2 descriptors: kind and description of each
/// descriptor byte.
pub open spec fn descriptor_table(num: u8) -> Option<(CacheInfoType, Seq<char>)> {
    match num {
        0x00 => Some((CacheInfoType::GENERAL, "Null descriptor, this byte contains no information"@)),
        0x01 => Some((CacheInfoType::TLB, "Instruction TLB: 4 KByte pages, 4-way set associative, 32 entries"@)),
        0x02 => Some((CacheInfoType::TLB, "Instruction TLB: 4 MByte pages, fully associative, 2 entries"@)),
        0x03 => Some((CacheInfoType::TLB, "Data TLB: 4 KByte pages, 4-way set associative, 64 entries"@)),
        0x04 => Some((CacheInfoType::TLB, "Data TLB: 4 MByte pages, 4-way set associative, 8 entries"@)),
        0x05 => Some((CacheInfoType::TLB, "Data TLB1: 4 MByte pages, 4-way set associative, 32 entries"@)),
        0x06 => Some((CacheInfoType::CACHE, "1st-level instruction cache: 8 KBytes, 4-way set associative, 32 byte line size"@)),
        0x08 => Some((CacheInfoType::CACHE, "1st-level instruction cache: 16 KBytes, 4-way set associative, 32 byte line size"@)),
        0x09 => Some((CacheInfoType::CACHE, "1st-level instruction cache: 32KBytes, 4-way set associative, 64 byte line size"@)),
        0x0A => Some((CacheInfoType::CACHE, "1st-level data cache: 8 KBytes, 2-way set associative, 32 byte line size"@)),
        0x0B => Some((CacheInfoType::TLB, "Instruction TLB: 4 MByte pages, 4-way set associative, 4 entries"@)),
        0x0C => Some((CacheInfoType::CACHE, "1st-level data cache: 16 KBytes, 4-way set associative, 32 byte line size"@)),
        0x0D => Some((CacheInfoType::CACHE, "1st-level data cache: 16 KBytes, 4-way set associative, 64 byte line size"@)),
        0x0E => Some((CacheInfoType::CACHE, "1st-level data cache: 24 KBytes, 6-way set associative, 64 byte line size"@)),
        0x21 => Some((CacheInfoType::CACHE, "2nd-level cache: 256 KBytes, 8-way set associative, 64 byte line size"@)),
        0x22 => Some((CacheInfoType::CACHE, "3rd-level cache: 512 KBytes, 4-way set associative, 64 byte line size, 2 lines per sector"@)),
        0x23 => Some((CacheInfoType::CACHE, "3rd-level cache: 1 MBytes, 8-way set associative, 64 byte line size, 2 lines per sector"@)),
        0x24 => Some((CacheInfoType::CACHE, "2nd-level cache: 1 MBytes, 16-way set associative, 64 byte line size"@)),
        0x25 => Some((CacheInfoType::CACHE, "3rd-level cache: 2 MBytes, 8-way set associative, 64 byte line size, 2 lines per sector"@)),
        0x29 => Some((CacheInfoType::CACHE, "3rd-level cache: 4 MBytes, 8-way set associative, 64 byte line size, 2 lines per sector"@)),
        0x2C => Some((CacheInfoType::CACHE, "1st-level data cache: 32 KBytes, 8-way set associative, 64 byte line size"@)),
        0x30 => Some((CacheInfoType::CACHE, "1st-level instruction cache: 32 KBytes, 8-way set associative, 64 byte line size"@)),
        0x40 => Some((CacheInfoType::CACHE, "No 2nd-level cache or, if processor contains a valid 2nd-level cache, no 3rd-level cache"@)),
        0x41 => Some((CacheInfoType::CACHE, "2nd-level cache: 128 KBytes, 4-way set associative, 32 byte line size"@)),
        0x42 => Some((CacheInfoType::CACHE, "2nd-level cache: 256 KBytes, 4-way set associative, 32 byte line size"@)),
        0x43 => Some((CacheInfoType::CACHE, "2nd-level cache: 512 KBytes, 4-way set associative, 32 byte line size"@)),
        0x44 => Some((CacheInfoType::CACHE, "2nd-level cache: 1 MByte, 4-way set associative, 32 byte line size"@)),
        0x45 => Some((CacheInfoType::CACHE, "2nd-level cache: 2 MByte, 4-way set associative, 32 byte line size"@)),
        0x46 => Some((CacheInfoType::CACHE, "3rd-level cache: 4 MByte, 4-way set associative, 64 byte line size"@)),
        0x47 => Some((CacheInfoType::CACHE, "3rd-level cache: 8 MByte, 8-way set associative, 64 byte line size"@)),
        0x48 => Some((CacheInfoType::CACHE, "2nd-level cache: 3MByte, 12-way set associative, 64 byte line size"@)),
        0x49 => Some((CacheInfoType::CACHE, "3rd-level cache: 4MB, 16-way set associative, 64-byte line size (Intel Xeon processor MP, Family 0FH, Model 06H); 2nd-level cache: 4 MByte, 16-way set associative, 64 byte line size"@)),
        0x4A => Some((CacheInfoType::CACHE, "3rd-level cache: 6MByte, 12-way set associative, 64 byte line size"@)),
        0x4B => Some((CacheInfoType::CACHE, "3rd-level cache: 8MByte, 16-way set associative, 64 byte line size"@)),
        0x4C => Some((CacheInfoType::CACHE, "3rd-level cache: 12MByte, 12-way set associative, 64 byte line size"@)),
        0x4D => Some((CacheInfoType::CACHE, "3rd-level cache: 16MByte, 16-way set associative, 64 byte line size"@)),
        0x4E => Some((CacheInfoType::CACHE, "2nd-level cache: 6MByte, 24-way set associative, 64 byte line size"@)),
        0x4F => Some((CacheInfoType::TLB, "Instruction TLB: 4 KByte pages, 32 entries"@)),
        0x50 => Some((CacheInfoType::TLB, "Instruction TLB: 4 KByte and 2-MByte or 4-MByte pages, 64 entries"@)),
        0x51 => Some((CacheInfoType::TLB, "Instruction TLB: 4 KByte and 2-MByte or 4-MByte pages, 128 entries"@)),
        0x52 => Some((CacheInfoType::TLB, "Instruction TLB: 4 KByte and 2-MByte or 4-MByte pages, 256 entries"@)),
        0x55 => Some((CacheInfoType::TLB, "Instruction TLB: 2-MByte or 4-MByte pages, fully associative, 7 entries"@)),
        0x56 => Some((CacheInfoType::TLB, "Data TLB0: 4 MByte pages, 4-way set associative, 16 entries"@)),
        0x57 => Some((CacheInfoType::TLB, "Data TLB0: 4 KByte pages, 4-way associative, 16 entries"@)),
        0x59 => Some((CacheInfoType::TLB, "Data TLB0: 4 KByte pages, fully associative, 16 entries"@)),
        0x5A => Some((CacheInfoType::TLB, "Data TLB0: 2-MByte or 4 MByte pages, 4-way set associative, 32 entries"@)),
        0x5B => Some((CacheInfoType::TLB, "Data TLB: 4 KByte and 4 MByte pages, 64 entries"@)),
        0x5C => Some((CacheInfoType::TLB, "Data TLB: 4 KByte and 4 MByte pages,128 entries"@)),
        0x5D => Some((CacheInfoType::TLB, "Data TLB: 4 KByte and 4 MByte pages,256 entries"@)),
        0x60 => Some((CacheInfoType::CACHE, "1st-level data cache: 16 KByte, 8-way set associative, 64 byte line size"@)),
        0x61 => Some((CacheInfoType::TLB, "Instruction TLB: 4 KByte pages, fully associative, 48 entries"@)),
        0x63 => Some((CacheInfoType::TLB, "Data TLB: 1 GByte pages, 4-way set associative, 4 entries"@)),
        0x66 => Some((CacheInfoType::CACHE, "1st-level data cache: 8 KByte, 4-way set associative, 64 byte line size"@)),
        0x67 => Some((CacheInfoType::CACHE, "1st-level data cache: 16 KByte, 4-way set associative, 64 byte line size"@)),
        0x68 => Some((CacheInfoType::CACHE, "1st-level data cache: 32 KByte, 4-way set associative, 64 byte line size"@)),
        0x70 => Some((CacheInfoType::CACHE, "Trace cache: 12 K-μop, 8-way set associative"@)),
        0x71 => Some((CacheInfoType::CACHE, "Trace cache: 16 K-μop, 8-way set associative"@)),
        0x72 => Some((CacheInfoType::CACHE, "Trace cache: 32 K-μop, 8-way set associative"@)),
        0x76 => Some((CacheInfoType::TLB, "Instruction TLB: 2M/4M pages, fully associative, 8 entries"@)),
        0x78 => Some((CacheInfoType::CACHE, "2nd-level cache: 1 MByte, 4-way set associative, 64byte line size"@)),
        0x79 => Some((CacheInfoType::CACHE, "2nd-level cache: 128 KByte, 8-way set associative, 64 byte line size, 2 lines per sector"@)),
        0x7A => Some((CacheInfoType::CACHE, "2nd-level cache: 256 KByte, 8-way set associative, 64 byte line size, 2 lines per sector"@)),
        0x7B => Some((CacheInfoType::CACHE, "2nd-level cache: 512 KByte, 8-way set associative, 64 byte line size, 2 lines per sector"@)),
        0x7C => Some((CacheInfoType::CACHE, "2nd-level cache: 1 MByte, 8-way set associative, 64 byte line size, 2 lines per sector"@)),
        0x7D => Some((CacheInfoType::CACHE, "2nd-level cache: 2 MByte, 8-way set associative, 64byte line size"@)),
        0x7F => Some((CacheInfoType::CACHE, "2nd-level cache: 512 KByte, 2-way set associative, 64-byte line size"@)),
        0x80 => Some((CacheInfoType::CACHE, "2nd-level cache: 512 KByte, 8-way set associative, 64-byte line size"@)),
        0x82 => Some((CacheInfoType::CACHE, "2nd-level cache: 256 KByte, 8-way set associative, 32 byte line size"@)),
        0x83 => Some((CacheInfoType::CACHE, "2nd-level cache: 512 KByte, 8-way set associative, 32 byte line size"@)),
        0x84 => Some((CacheInfoType::CACHE, "2nd-level cache: 1 MByte, 8-way set associative, 32 byte line size"@)),
        0x85 => Some((CacheInfoType::CACHE, "2nd-level cache: 2 MByte, 8-way set associative, 32 byte line size"@)),
        0x86 => Some((CacheInfoType::CACHE, "2nd-level cache: 512 KByte, 4-way set associative, 64 byte line size"@)),
        0x87 => Some((CacheInfoType::CACHE, "2nd-level cache: 1 MByte, 8-way set associative, 64 byte line size"@)),
        0xB0 => Some((CacheInfoType::TLB, "Instruction TLB: 4 KByte pages, 4-way set associative, 128 entries"@)),
        0xB1 => Some((CacheInfoType::TLB, "Instruction TLB: 2M pages, 4-way, 8 entries or 4M pages, 4-way, 4 entries"@)),
        0xB2 => Some((CacheInfoType::TLB, "Instruction TLB: 4KByte pages, 4-way set associative, 64 entries"@)),
        0xB3 => Some((CacheInfoType::TLB, "Data TLB: 4 KByte pages, 4-way set associative, 128 entries"@)),
        0xB4 => Some((CacheInfoType::TLB, "Data TLB1: 4 KByte pages, 4-way associative, 256 entries"@)),
        0xB5 => Some((CacheInfoType::TLB, "Instruction TLB: 4KByte pages, 8-way set associative, 64 entries"@)),
        0xB6 => Some((CacheInfoType::TLB, "Instruction TLB: 4KByte pages, 8-way set associative, 128 entries"@)),
        0xBA => Some((CacheInfoType::TLB, "Data TLB1: 4 KByte pages, 4-way associative, 64 entries"@)),
        0xC0 => Some((CacheInfoType::TLB, "Data TLB: 4 KByte and 4 MByte pages, 4-way associative, 8 entries"@)),
        0xC1 => Some((CacheInfoType::STLB, "Shared 2nd-Level TLB: 4 KByte/2MByte pages, 8-way associative, 1024 entries"@)),
        0xC2 => Some((CacheInfoType::DTLB, "DTLB: 2 MByte/$MByte pages, 4-way associative, 16 entries"@)),
        0xCA => Some((CacheInfoType::STLB, "Shared 2nd-Level TLB: 4 KByte pages, 4-way associative, 512 entries"@)),
        0xD0 => Some((CacheInfoType::CACHE, "3rd-level cache: 512 KByte, 4-way set associative, 64 byte line size"@)),
        0xD1 => Some((CacheInfoType::CACHE, "3rd-level cache: 1 MByte, 4-way set associative, 64 byte line size"@)),
        0xD2 => Some((CacheInfoType::CACHE, "3rd-level cache: 2 MByte, 4-way set associative, 64 byte line size"@)),
        0xD6 => Some((CacheInfoType::CACHE, "3rd-level cache: 1 MByte, 8-way set associative, 64 byte line size"@)),
        0xD7 => Some((CacheInfoType::CACHE, "3rd-level cache: 2 MByte, 8-way set associative, 64 byte line size"@)),
        0xD8 => Some((CacheInfoType::CACHE, "3rd-level cache: 4 MByte, 8-way set associative, 64 byte line size"@)),
        0xDC => Some((CacheInfoType::CACHE, "3rd-level cache: 1.5 MByte, 12-way set associative, 64 byte line size"@)),
        0xDD => Some((CacheInfoType::CACHE, "3rd-level cache: 3 MByte, 12-way set associative, 64 byte line size"@)),
        0xDE => Some((CacheInfoType::CACHE, "3rd-level cache: 6 MByte, 12-way set associative, 64 byte line size"@)),
        0xE2 => Some((CacheInfoType::CACHE, "3rd-level cache: 2 MByte, 16-way set associative, 64 byte line size"@)),
        0xE3 => Some((CacheInfoType::CACHE, "3rd-level cache: 4 MByte, 16-way set associative, 64 byte line size"@)),
        0xE4 => Some((CacheInfoType::CACHE, "3rd-level cache: 8 MByte, 16-way set associative, 64 byte line size"@)),
        0xEA => Some((CacheInfoType::CACHE, "3rd-level cache: 12MByte, 24-way set associative, 64 byte line size"@)),
        0xEB => Some((CacheInfoType::CACHE, "3rd-level cache: 18MByte, 24-way set associative, 64 byte line size"@)),
        0xEC => Some((CacheInfoType::CACHE, "3rd-level cache: 24MByte, 24-way set associative, 64 byte line size"@)),
        0xF0 => Some((CacheInfoType::PREFETCH, "64-Byte prefetching"@)),
        0xF1 => Some((CacheInfoType::PREFETCH, "128-Byte prefetching"@)),
        0xFF => Some((CacheInfoType::GENERAL, "CPUID leaf 2 does not report cache descriptor information, use CPUID leaf 4 to query cache parameters"@)),
        _ => None,
    }
}

/// `c` is the table's entry for descriptor byte `num`.
pub open spec fn is_table_entry(c: CacheInfo, num: u8) -> bool {
    match descriptor_table(num) {
        Some((typ, desc)) => c.num == num && c.typ == typ && c.desc@ == desc,
        None => false,
    }
}

/// Looks up a leaf 0x2 descriptor byte in the table of known descriptors.
pub fn cache_descriptor(num: u8) -> (r: Option<CacheInfo>)
    ensures
        r is Some <==> descriptor_table(num) is Some,
        r matches Some(c) ==> is_table_entry(c, num),
{
    match num {
        0x00 => Some(CacheInfo { num, typ: CacheInfoType::GENERAL, desc: "Null descriptor, this byte contains no information" }),
        0x01 => Some(CacheInfo { num, typ: CacheInfoType::TLB, desc: "Instruction TLB: 4 KByte pages, 4-way set associative, 32 entries" }),
        0x02 => Some(CacheInfo { num, typ: CacheInfoType::TLB, desc: "Instruction TLB: 4 MByte pages, fully associative, 2 entries" }),
        0x03 => Some(CacheInfo { num, typ: CacheInfoType::TLB, desc: "Data TLB: 4 KByte pages, 4-way set associative, 64 entries" }),
        0x04 => Some(CacheInfo { num, typ: CacheInfoType::TLB, desc: "Data TLB: 4 MByte pages, 4-way set associative, 8 entries" }),
        0x05 => Some(CacheInfo { num, typ: CacheInfoType::TLB, desc: "Data TLB1: 4 MByte pages, 4-way set associative, 32 entries" }),
        0x06 => Some(CacheInfo { num, typ: CacheInfoType::CACHE, desc: "1st-level instruction cache: 8 KBytes, 4-way set associative, 32 byte line size" }),
        0x08 => Some(CacheInfo { num, typ: CacheInfoType::CACHE, desc: "1st-level instruction cache: 16 KBytes, 4-way set associative, 32 byte line size" }),
        0x09 => Some(CacheInfo { num, typ: CacheInfoType::CACHE, desc: "1st-level instruction cache: 32KBytes, 4-way set associative, 64 byte line size" }),
        0x0A => Some(CacheInfo { num, typ: CacheInfoType::CACHE, desc: "1st-level data cache: 8 KBytes, 2-way set associative, 32 byte line size" }),
        0x0B => Some(CacheInfo { num, typ: CacheInfoType::TLB, desc: "Instruction TLB: 4 MByte pages, 4-way set associative, 4 entries" }),
        0x0C => Some(CacheInfo { num, typ: CacheInfoType::CACHE, desc: "1st-level data cache: 16 KBytes, 4-way set associative, 32 byte line size" }),
        0x0D => Some(CacheInfo { num, typ: CacheInfoType::CACHE, desc: "1st-level data cache: 16 KBytes, 4-way set associative, 64 byte line size" }),
        0x0E => Some(CacheInfo { num, typ: CacheInfoType::CACHE, desc: "1st-level data cache: 24 KBytes, 6-way set associative, 64 byte line size" }),
        0x21 => Some(CacheInfo { num, typ: CacheInfoType::CACHE, desc: "2nd-level cache: 256 KBytes, 8-way set associative, 64 byte line size" }),
        0x22 => Some(CacheInfo { num, typ: CacheInfoType::CACHE, desc: "3rd-level cache: 512 KBytes, 4-way set associative, 64 byte line size, 2 lines per sector" }),
        0x23 => Some(CacheInfo { num, typ: CacheInfoType::CACHE, desc: "3rd-level cache: 1 MBytes, 8-way set associative, 64 byte line size, 2 lines per sector" }),
        0x24 => Some(CacheInfo { num, typ: CacheInfoType::CACHE, desc: "2nd-level cache: 1 MBytes, 16-way set associative, 64 byte line size" }),
        0x25 => Some(CacheInfo { num, typ: CacheInfoType::CACHE, desc: "3rd-level cache: 2 MBytes, 8-way set associative, 64 byte line size, 2 lines per sector" }),
        0x29 => Some(CacheInfo { num, typ: CacheInfoType::CACHE, desc: "3rd-level cache: 4 MBytes, 8-way set associative, 64 byte line size, 2 lines per sector" }),
        0x2C => Some(CacheInfo { num, typ: CacheInfoType::CACHE, desc: "1st-level data cache: 32 KBytes, 8-way set associative, 64 byte line size" }),
        0x30 => Some(CacheInfo { num, typ: CacheInfoType::CACHE, desc: "1st-level instruction cache: 32 KBytes, 8-way set associative, 64 byte line size" }),
        0x40 => Some(CacheInfo { num, typ: CacheInfoType::CACHE, desc: "No 2nd-level cache or, if processor contains a valid 2nd-level cache, no 3rd-level cache" }),
        0x41 => Some(CacheInfo { num, typ: CacheInfoType::CACHE, desc: "2nd-level cache: 128 KBytes, 4-way set associative, 32 byte line size" }),
        0x42 => Some(CacheInfo { num, typ: CacheInfoType::CACHE, desc: "2nd-level cache: 256 KBytes, 4-way set associative, 32 byte line size" }),
        0x43 => Some(CacheInfo { num, typ: CacheInfoType::CACHE, desc: "2nd-level cache: 512 KBytes, 4-way set associative, 32 byte line size" }),
        0x44 => Some(CacheInfo { num, typ: CacheInfoType::CACHE, desc: "2nd-level cache: 1 MByte, 4-way set associative, 32 byte line size" }),
        0x45 => Some(CacheInfo { num, typ: CacheInfoType::CACHE, desc: "2nd-level cache: 2 MByte, 4-way set associative, 32 byte line size" }),
        0x46 => Some(CacheInfo { num, typ: CacheInfoType::CACHE, desc: "3rd-level cache: 4 MByte, 4-way set associative, 64 byte line size" }),
        0x47 => Some(CacheInfo { num, typ: CacheInfoType::CACHE, desc: "3rd-level cache: 8 MByte, 8-way set associative, 64 byte line size" }),
        0x48 => Some(CacheInfo { num, typ: CacheInfoType::CACHE, desc: "2nd-level cache: 3MByte, 12-way set associative, 64 byte line size" }),
        0x49 => Some(CacheInfo { num, typ: CacheInfoType::CACHE, desc: "3rd-level cache: 4MB, 16-way set associative, 64-byte line size (Intel Xeon processor MP, Family 0FH, Model 06H); 2nd-level cache: 4 MByte, 16-way set associative, 64 byte line size" }),
        0x4A => Some(CacheInfo { num, typ: CacheInfoType::CACHE, desc: "3rd-level cache: 6MByte, 12-way set associative, 64 byte line size" }),
        0x4B => Some(CacheInfo { num, typ: CacheInfoType::CACHE, desc: "3rd-level cache: 8MByte, 16-way set associative, 64 byte line size" }),
        0x4C => Some(CacheInfo { num, typ: CacheInfoType::CACHE, desc: "3rd-level cache: 12MByte, 12-way set associative, 64 byte line size" }),
        0x4D => Some(CacheInfo { num, typ: CacheInfoType::CACHE, desc: "3rd-level cache: 16MByte, 16-way set associative, 64 byte line size" }),
        0x4E => Some(CacheInfo { num, typ: CacheInfoType::CACHE, desc: "2nd-level cache: 6MByte, 24-way set associative, 64 byte line size" }),
        0x4F => Some(CacheInfo { num, typ: CacheInfoType::TLB, desc: "Instruction TLB: 4 KByte pages, 32 entries" }),
        0x50 => Some(CacheInfo { num, typ: CacheInfoType::TLB, desc: "Instruction TLB: 4 KByte and 2-MByte or 4-MByte pages, 64 entries" }),
        0x51 => Some(CacheInfo { num, typ: CacheInfoType::TLB, desc: "Instruction TLB: 4 KByte and 2-MByte or 4-MByte pages, 128 entries" }),
        0x52 => Some(CacheInfo { num, typ: CacheInfoType::TLB, desc: "Instruction TLB: 4 KByte and 2-MByte or 4-MByte pages, 256 entries" }),
        0x55 => Some(CacheInfo { num, typ: CacheInfoType::TLB, desc: "Instruction TLB: 2-MByte or 4-MByte pages, fully associative, 7 entries" }),
        0x56 => Some(CacheInfo { num, typ: CacheInfoType::TLB, desc: "Data TLB0: 4 MByte pages, 4-way set associative, 16 entries" }),
        0x57 => Some(CacheInfo { num, typ: CacheInfoType::TLB, desc: "Data TLB0: 4 KByte pages, 4-way associative, 16 entries" }),
        0x59 => Some(CacheInfo { num, typ: CacheInfoType::TLB, desc: "Data TLB0: 4 KByte pages, fully associative, 16 entries" }),
        0x5A => Some(CacheInfo { num, typ: CacheInfoType::TLB, desc: "Data TLB0: 2-MByte or 4 MByte pages, 4-way set associative, 32 entries" }),
        0x5B => Some(CacheInfo { num, typ: CacheInfoType::TLB, desc: "Data TLB: 4 KByte and 4 MByte pages, 64 entries" }),
        0x5C => Some(CacheInfo { num, typ: CacheInfoType::TLB, desc: "Data TLB: 4 KByte and 4 MByte pages,128 entries" }),
        0x5D => Some(CacheInfo { num, typ: CacheInfoType::TLB, desc: "Data TLB: 4 KByte and 4 MByte pages,256 entries" }),
        0x60 => Some(CacheInfo { num, typ: CacheInfoType::CACHE, desc: "1st-level data cache: 16 KByte, 8-way set associative, 64 byte line size" }),
        0x61 => Some(CacheInfo { num, typ: CacheInfoType::TLB, desc: "Instruction TLB: 4 KByte pages, fully associative, 48 entries" }),
        0x63 => Some(CacheInfo { num, typ: CacheInfoType::TLB, desc: "Data TLB: 1 GByte pages, 4-way set associative, 4 entries" }),
        0x66 => Some(CacheInfo { num, typ: CacheInfoType::CACHE, desc: "1st-level data cache: 8 KByte, 4-way set associative, 64 byte line size" }),
        0x67 => Some(CacheInfo { num, typ: CacheInfoType::CACHE, desc: "1st-level data cache: 16 KByte, 4-way set associative, 64 byte line size" }),
        0x68 => Some(CacheInfo { num, typ: CacheInfoType::CACHE, desc: "1st-level data cache: 32 KByte, 4-way set associative, 64 byte line size" }),
        0x70 => Some(CacheInfo { num, typ: CacheInfoType::CACHE, desc: "Trace cache: 12 K-μop, 8-way set associative" }),
        0x71 => Some(CacheInfo { num, typ: CacheInfoType::CACHE, desc: "Trace cache: 16 K-μop, 8-way set associative" }),
        0x72 => Some(CacheInfo { num, typ: CacheInfoType::CACHE, desc: "Trace cache: 32 K-μop, 8-way set associative" }),
        0x76 => Some(CacheInfo { num, typ: CacheInfoType::TLB, desc: "Instruction TLB: 2M/4M pages, fully associative, 8 entries" }),
        0x78 => Some(CacheInfo { num, typ: CacheInfoType::CACHE, desc: "2nd-level cache: 1 MByte, 4-way set associative, 64byte line size" }),
        0x79 => Some(CacheInfo { num, typ: CacheInfoType::CACHE, desc: "2nd-level cache: 128 KByte, 8-way set associative, 64 byte line size, 2 lines per sector" }),
        0x7A => Some(CacheInfo { num, typ: CacheInfoType::CACHE, desc: "2nd-level cache: 256 KByte, 8-way set associative, 64 byte line size, 2 lines per sector" }),
        0x7B => Some(CacheInfo { num, typ: CacheInfoType::CACHE, desc: "2nd-level cache: 512 KByte, 8-way set associative, 64 byte line size, 2 lines per sector" }),
        0x7C => Some(CacheInfo { num, typ: CacheInfoType::CACHE, desc: "2nd-level cache: 1 MByte, 8-way set associative, 64 byte line size, 2 lines per sector" }),
        0x7D => Some(CacheInfo { num, typ: CacheInfoType::CACHE, desc: "2nd-level cache: 2 MByte, 8-way set associative, 64byte line size" }),
        0x7F => Some(CacheInfo { num, typ: CacheInfoType::CACHE, desc: "2nd-level cache: 512 KByte, 2-way set associative, 64-byte line size" }),
        0x80 => Some(CacheInfo { num, typ: CacheInfoType::CACHE, desc: "2nd-level cache: 512 KByte, 8-way set associative, 64-byte line size" }),
        0x82 => Some(CacheInfo { num, typ: CacheInfoType::CACHE, desc: "2nd-level cache: 256 KByte, 8-way set associative, 32 byte line size" }),
        0x83 => Some(CacheInfo { num, typ: CacheInfoType::CACHE, desc: "2nd-level cache: 512 KByte, 8-way set associative, 32 byte line size" }),
        0x84 => Some(CacheInfo { num, typ: CacheInfoType::CACHE, desc: "2nd-level cache: 1 MByte, 8-way set associative, 32 byte line size" }),
        0x85 => Some(CacheInfo { num, typ: CacheInfoType::CACHE, desc: "2nd-level cache: 2 MByte, 8-way set associative, 32 byte line size" }),
        0x86 => Some(CacheInfo { num, typ: CacheInfoType::CACHE, desc: "2nd-level cache: 512 KByte, 4-way set associative, 64 byte line size" }),
        0x87 => Some(CacheInfo { num, typ: CacheInfoType::CACHE, desc: "2nd-level cache: 1 MByte, 8-way set associative, 64 byte line size" }),
        0xB0 => Some(CacheInfo { num, typ: CacheInfoType::TLB, desc: "Instruction TLB: 4 KByte pages, 4-way set associative, 128 entries" }),
        0xB1 => Some(CacheInfo { num, typ: CacheInfoType::TLB, desc: "Instruction TLB: 2M pages, 4-way, 8 entries or 4M pages, 4-way, 4 entries" }),
        0xB2 => Some(CacheInfo { num, typ: CacheInfoType::TLB, desc: "Instruction TLB: 4KByte pages, 4-way set associative, 64 entries" }),
        0xB3 => Some(CacheInfo { num, typ: CacheInfoType::TLB, desc: "Data TLB: 4 KByte pages, 4-way set associative, 128 entries" }),
        0xB4 => Some(CacheInfo { num, typ: CacheInfoType::TLB, desc: "Data TLB1: 4 KByte pages, 4-way associative, 256 entries" }),
        0xB5 => Some(CacheInfo { num, typ: CacheInfoType::TLB, desc: "Instruction TLB: 4KByte pages, 8-way set associative, 64 entries" }),
        0xB6 => Some(CacheInfo { num, typ: CacheInfoType::TLB, desc: "Instruction TLB: 4KByte pages, 8-way set associative, 128 entries" }),
        0xBA => Some(CacheInfo { num, typ: CacheInfoType::TLB, desc: "Data TLB1: 4 KByte pages, 4-way associative, 64 entries" }),
        0xC0 => Some(CacheInfo { num, typ: CacheInfoType::TLB, desc: "Data TLB: 4 KByte and 4 MByte pages, 4-way associative, 8 entries" }),
        0xC1 => Some(CacheInfo { num, typ: CacheInfoType::STLB, desc: "Shared 2nd-Level TLB: 4 KByte/2MByte pages, 8-way associative, 1024 entries" }),
        0xC2 => Some(CacheInfo { num, typ: CacheInfoType::DTLB, desc: "DTLB: 2 MByte/$MByte pages, 4-way associative, 16 entries" }),
        0xCA => Some(CacheInfo { num, typ: CacheInfoType::STLB, desc: "Shared 2nd-Level TLB: 4 KByte pages, 4-way associative, 512 entries" }),
        0xD0 => Some(CacheInfo { num, typ: CacheInfoType::CACHE, desc: "3rd-level cache: 512 KByte, 4-way set associative, 64 byte line size" }),
        0xD1 => Some(CacheInfo { num, typ: CacheInfoType::CACHE, desc: "3rd-level cache: 1 MByte, 4-way set associative, 64 byte line size" }),
        0xD2 => Some(CacheInfo { num, typ: CacheInfoType::CACHE, desc: "3rd-level cache: 2 MByte, 4-way set associative, 64 byte line size" }),
        0xD6 => Some(CacheInfo { num, typ: CacheInfoType::CACHE, desc: "3rd-level cache: 1 MByte, 8-way set associative, 64 byte line size" }),
        0xD7 => Some(CacheInfo { num, typ: CacheInfoType::CACHE, desc: "3rd-level cache: 2 MByte, 8-way set associative, 64 byte line size" }),
        0xD8 => Some(CacheInfo { num, typ: CacheInfoType::CACHE, desc: "3rd-level cache: 4 MByte, 8-way set associative, 64 byte line size" }),
        0xDC => Some(CacheInfo { num, typ: CacheInfoType::CACHE, desc: "3rd-level cache: 1.5 MByte, 12-way set associative, 64 byte line size" }),
        0xDD => Some(CacheInfo { num, typ: CacheInfoType::CACHE, desc: "3rd-level cache: 3 MByte, 12-way set associative, 64 byte line size" }),
        0xDE => Some(CacheInfo { num, typ: CacheInfoType::CACHE, desc: "3rd-level cache: 6 MByte, 12-way set associative, 64 byte line size" }),
        0xE2 => Some(CacheInfo { num, typ: CacheInfoType::CACHE, desc: "3rd-level cache: 2 MByte, 16-way set associative, 64 byte line size" }),
        0xE3 => Some(CacheInfo { num, typ: CacheInfoType::CACHE, desc: "3rd-level cache: 4 MByte, 16-way set associative, 64 byte line size" }),
        0xE4 => Some(CacheInfo { num, typ: CacheInfoType::CACHE, desc: "3rd-level cache: 8 MByte, 16-way set associative, 64 byte line size" }),
        0xEA => Some(CacheInfo { num, typ: CacheInfoType::CACHE, desc: "3rd-level cache: 12MByte, 24-way set associative, 64 byte line size" }),
        0xEB => Some(CacheInfo { num, typ: CacheInfoType::CACHE, desc: "3rd-level cache: 18MByte, 24-way set associative, 64 byte line size" }),
        0xEC => Some(CacheInfo { num, typ: CacheInfoType::CACHE, desc: "3rd-level cache: 24MByte, 24-way set associative, 64 byte line size" }),
        0xF0 => Some(CacheInfo { num, typ: CacheInfoType::PREFETCH, desc: "64-Byte prefetching" }),
        0xF1 => Some(CacheInfo { num, typ: CacheInfoType::PREFETCH, desc: "128-Byte prefetching" }),
        0xFF => Some(CacheInfo { num, typ: CacheInfoType::GENERAL, desc: "CPUID leaf 2 does not report cache descriptor information, use CPUID leaf 4 to query cache parameters" }),
        _ => None,
    }
}

/// Iterates over the descriptor bytes of leaf 0x2.
#[derive(Debug, Clone, Copy)]
pub struct CacheInfoIter {
    /// Position of the next byte to look at: register `current % 4`
    /// (eax, ebx, ecx, edx), byte `current / 4`.
    pub current: u32,
    pub eax: u32,
    pub ebx: u32,
    pub ecx: u32,
    pub edx: u32,
}

impl CacheInfoIter {
    /// The descriptor byte at position `pos`.
    pub open spec fn byte_at(&self, pos: int) -> u8 {
        let reg = if pos % 4 == 0 {
            self.eax
        } else if pos % 4 == 1 {
            self.ebx
        } else if pos % 4 == 2 {
            self.ecx
        } else {
            self.edx
        };
        byte_of(reg, pos / 4)
    }

    /// The first position at or after `from` that holds a non-zero byte, or
    /// 16 when there is none.
    pub open spec fn first_nonzero(&self, from: int) -> int
        decreases 16 - from,
    {
        if from >= 16 {
            from
        } else if self.byte_at(from) != 0 {
            from
        } else {
            self.first_nonzero(from + 1)
        }
    }

    /// The table entry of the next non-zero descriptor byte. Zero bytes are
    /// skipped; the sequence ends after the last byte or at the first byte
    /// that the table does not know.
    pub fn next(&mut self) -> (r: Option<CacheInfo>)
        ensures
            final(self).eax == old(self).eax && final(self).ebx == old(self).ebx,
            final(self).ecx == old(self).ecx && final(self).edx == old(self).edx,
            ({
                let p = old(self).first_nonzero(old(self).current as int);
                if p >= 16 {
                    r is None && final(self).current == p
                } else if descriptor_table(old(self).byte_at(p)) is Some {
                    &&& r matches Some(c) && is_table_entry(c, old(self).byte_at(p))
                    &&& final(self).current == p + 1
                } else {
                    r is None && final(self).current == p
                }
            }),
    {
        while self.current < 16 && self.current_byte() == 0
            invariant
                self.eax == old(self).eax && self.ebx == old(self).ebx,
                self.ecx == old(self).ecx && self.edx == old(self).edx,
                old(self).first_nonzero(old(self).current as int) == old(self).first_nonzero(
                    self.current as int,
                ),
                self.current >= old(self).current,
            decreases 16 - self.current,
        {
            assert(old(self).byte_at(self.current as int) == 0);
            self.current = self.current + 1;
        }
        if self.current >= 16 {
            return None;
        }
        let byte = self.current_byte();
        match cache_descriptor(byte) {
            Some(c) => {
                self.current = self.current + 1;
                Some(c)
            },
            None => None,
        }
    }

    fn current_byte(&self) -> (b: u8)
        requires
            self.current < 16,
        ensures
            b == self.byte_at(self.current as int),
    {
        let reg = if self.current % 4 == 0 {
            self.eax
        } else if self.current % 4 == 1 {
            self.ebx
        } else if self.current % 4 == 2 {
            self.ecx
        } else {
            self.edx
        };
        register_byte(reg, self.current / 4)
    }
}

/// The type of a cache in leaf 0x4.
#[derive(Copy, Clone, Debug, PartialEq, Eq, Structural)]
pub enum CacheType {
    NULL,
    DATA,
    INSTRUCTION,
    UNIFIED,
    RESERVED,
}

pub open spec fn spec_cache_type(eax: u32) -> CacheType {
    let t = bit_field(eax, 0, 4);
    if t == 0 {
        CacheType::NULL
    } else if t == 1 {
        CacheType::DATA
    } else if t == 2 {
        CacheType::INSTRUCTION
    } else if t == 3 {
        CacheType::UNIFIED
    } else {
        CacheType::RESERVED
    }
}

/// One cache level of leaf 0x4.
#[derive(Copy, Clone, Debug)]
pub struct CacheParameter {
    pub eax: u32,
    pub ebx: u32,
    pub ecx: u32,
    pub edx: u32,
}

impl CacheParameter {
    pub open spec fn regs(&self) -> CpuIdResult {
        CpuIdResult { eax: self.eax, ebx: self.ebx, ecx: self.ecx, edx: self.edx }
    }

    /// Cache type.
    pub fn cache_type(&self) -> (r: CacheType)
        ensures
            r == spec_cache_type(self.eax),
    {
        let typ = get_bits(self.eax, 0, 4);
        if typ == 0 {
            CacheType::NULL
        } else if typ == 1 {
            CacheType::DATA
        } else if typ == 2 {
            CacheType::INSTRUCTION
        } else if typ == 3 {
            CacheType::UNIFIED
        } else {
            CacheType::RESERVED
        }
    }

    /// Cache level (starts at 1).
    pub fn level(&self) -> (r: u8)
        ensures
            r == bit_field(self.eax, 5, 7) as u8,
    {
        get_bits(self.eax, 5, 7) as u8
    }

    /// Self-initializing cache level (needs no software initialization).
    pub fn is_self_initializing(&self) -> (r: bool)
        ensures
            r == bit_set(self.eax, 8),
    {
        test_bit(self.eax, 8)
    }

    /// Fully associative cache.
    pub fn is_fully_associative(&self) -> (r: bool)
        ensures
            r == bit_set(self.eax, 9),
    {
        test_bit(self.eax, 9)
    }

    /// Maximum number of addressable IDs for logical processors sharing this cache.
    pub fn max_cores_for_cache(&self) -> (r: usize)
        ensures
            r == bit_field(self.eax, 14, 25) + 1,
    {
        proof {
            lemma_narrow_field(self.eax, 14, 25);
        }
        (get_bits(self.eax, 14, 25) + 1) as usize
    }

    /// Maximum number of addressable IDs for processor cores in the physical package.
    pub fn max_cores_for_package(&self) -> (r: usize)
        ensures
            r == bit_field(self.eax, 26, 31) + 1,
    {
        proof {
            lemma_narrow_field(self.eax, 26, 31);
        }
        (get_bits(self.eax, 26, 31) + 1) as usize
    }

    /// System coherency line size.
    pub fn coherency_line_size(&self) -> (r: usize)
        ensures
            r == bit_field(self.ebx, 0, 11) + 1,
    {
        proof {
            lemma_narrow_field(self.ebx, 0, 11);
        }
        (get_bits(self.ebx, 0, 11) + 1) as usize
    }

    /// Physical line partitions.
    pub fn physical_line_partitions(&self) -> (r: usize)
        ensures
            r == bit_field(self.ebx, 12, 21) + 1,
    {
        proof {
            lemma_narrow_field(self.ebx, 12, 21);
        }
        (get_bits(self.ebx, 12, 21) + 1) as usize
    }

    /// Ways of associativity.
    pub fn associativity(&self) -> (r: usize)
        ensures
            r == bit_field(self.ebx, 22, 31) + 1,
    {
        proof {
            lemma_narrow_field(self.ebx, 22, 31);
        }
        (get_bits(self.ebx, 22, 31) + 1) as usize
    }

    /// Number of sets.
    pub fn sets(&self) -> (r: usize)
        requires
            self.ecx < u32::MAX,
        ensures
            r == self.ecx + 1,
    {
        (self.ecx + 1) as usize
    }

    /// WBINVD/INVD does not invalidate lower-level caches of sharing threads.
    pub fn is_write_back_invalidate(&self) -> (r: bool)
        ensures
            r == bit_set(self.edx, 0),
    {
        test_bit(self.edx, 0)
    }

    /// Cache is inclusive of lower cache levels.
    pub fn is_inclusive(&self) -> (r: bool)
        ensures
            r == bit_set(self.edx, 1),
    {
        test_bit(self.edx, 1)
    }

    /// A complex function indexes the cache.
    pub fn has_complex_indexing(&self) -> (r: bool)
        ensures
            r == bit_set(self.edx, 2),
    {
        test_bit(self.edx, 2)
    }
}

/// Iterates over the cache levels of leaf 0x4, subleaf by subleaf, until a
/// null or reserved cache type.
pub struct CacheParametersIter<'a, R: CpuIdReader> {
    pub read: &'a R,
    pub current: u32,
}

impl<'a, R: CpuIdReader> CacheParametersIter<'a, R> {
    /// The cache level at the current subleaf; the sequence ends at a null or
    /// reserved cache type.
    pub fn next(&mut self) -> (r: Option<CacheParameter>)
        ensures
            final(self).read == old(self).read,
            r matches Some(p) ==> {
                &&& old(self).read.answers(EAX_CACHE_PARAMETERS, Some(old(self).current), p.regs())
                &&& spec_cache_type(p.eax) != CacheType::NULL
                &&& spec_cache_type(p.eax) != CacheType::RESERVED
                &&& final(self).current == old(self).current + 1
            },
            r is None ==> final(self).current == old(self).current && (old(self).current
                == u32::MAX || exists|q: CpuIdResult|
                old(self).read.answers(EAX_CACHE_PARAMETERS, Some(old(self).current), q)
                    && (spec_cache_type(q.eax) == CacheType::NULL || spec_cache_type(q.eax)
                    == CacheType::RESERVED)),
    {
        if self.current == u32::MAX {
            return None;
        }
        let res = self.read.cpuid2(EAX_CACHE_PARAMETERS, self.current);
        let cp = CacheParameter { eax: res.eax, ebx: res.ebx, ecx: res.ecx, edx: res.edx };
        match cp.cache_type() {
            CacheType::NULL => None,
            CacheType::RESERVED => None,
            _ => {
                self.current = self.current + 1;
                Some(cp)
            },
        }
    }
}

/// The type of a level of leaf 0xB.
#[derive(Copy, Clone, Debug, PartialEq, Eq, Structural)]
pub enum TopologyType {
    INVALID,
    SMT,
    CORE,
    /// A level type that this library does not name.
    UNKNOWN,
}

pub open spec fn spec_level_type(ecx: u32) -> TopologyType {
    let t = bit_field(ecx, 8, 15);
    if t == 0 {
        TopologyType::INVALID
    } else if t == 1 {
        TopologyType::SMT
    } else if t == 2 {
        TopologyType::CORE
    } else {
        TopologyType::UNKNOWN
    }
}

/// Over a store whose leaf 0xB holds valid levels at subleaves `0..n` and an
/// invalid level at `n`, the topology walk cannot end before subleaf `n`
/// (each `next` there yields a level) and must end at `n`; so a walk from
/// subleaf 0 yields exactly `n` levels.
pub proof fn lemma_topology_walk_length(d: &CpuIdDump, n: u32, i: u32)
    requires
        forall|j: u32|
            j < n ==> spec_level_type(#[trigger] spec_query2(d@, EAX_EXTENDED_TOPOLOGY_INFO, j).ecx)
                != TopologyType::INVALID,
        spec_level_type(spec_query2(d@, EAX_EXTENDED_TOPOLOGY_INFO, n).ecx) == TopologyType::INVALID,
    ensures
        i < n ==> !exists|q: CpuIdResult|
            d.answers(EAX_EXTENDED_TOPOLOGY_INFO, Some(i), q) && spec_level_type(q.ecx)
                == TopologyType::INVALID,
        exists|q: CpuIdResult|
            d.answers(EAX_EXTENDED_TOPOLOGY_INFO, Some(n), q) && spec_level_type(q.ecx)
                == TopologyType::INVALID,
{
    let qn = spec_query2(d@, EAX_EXTENDED_TOPOLOGY_INFO, n);
    assert(d.answers(EAX_EXTENDED_TOPOLOGY_INFO, Some(n), qn));
    if i < n {
        assert(spec_level_type(spec_query2(d@, EAX_EXTENDED_TOPOLOGY_INFO, i).ecx) != TopologyType::INVALID);
    }
}

/// One level of the extended topology (leaf 0xB).
#[derive(Copy, Clone, Debug)]
pub struct ExtendedTopologyLevel {
    pub eax: u32,
    pub ebx: u32,
    pub ecx: u32,
    pub edx: u32,
}

impl ExtendedTopologyLevel {
    pub open spec fn regs(&self) -> CpuIdResult {
        CpuIdResult { eax: self.eax, ebx: self.ebx, ecx: self.ecx, edx: self.edx }
    }

    /// Number of logical processors at this level type.
    pub fn processors(&self) -> (r: u16)
        ensures
            r == bit_field(self.ebx, 0, 15) as u16,
    {
        get_bits(self.ebx, 0, 15) as u16
    }

    /// Level number.
    pub fn level_number(&self) -> (r: u8)
        ensures
            r == bit_field(self.ecx, 0, 7) as u8,
    {
        get_bits(self.ecx, 0, 7) as u8
    }

    /// Level type.
    pub fn level_type(&self) -> (r: TopologyType)
        ensures
            r == spec_level_type(self.ecx),
    {
        let t = get_bits(self.ecx, 8, 15);
        if t == 0 {
            TopologyType::INVALID
        } else if t == 1 {
            TopologyType::SMT
        } else if t == 2 {
            TopologyType::CORE
        } else {
            TopologyType::UNKNOWN
        }
    }

    /// x2APIC ID of the current logical processor.
    pub fn x2apic_id(&self) -> (r: u32)
        ensures
            r == self.edx,
    {
        self.edx
    }

    /// Number of bits to shift the x2APIC ID right to get a unique topology ID of the next level type.
    pub fn shift_right_for_next_apic_id(&self) -> (r: u32)
        ensures
            r == bit_field(self.eax, 0, 4),
    {
        get_bits(self.eax, 0, 4)
    }
}

/// Iterates over the levels of leaf 0xB, subleaf by subleaf, until an
/// invalid level type.
pub struct ExtendedTopologyIter<'a, R: CpuIdReader> {
    pub read: &'a R,
    pub level: u32,
}

impl<'a, R: CpuIdReader> ExtendedTopologyIter<'a, R> {
    /// The level at the current subleaf; the sequence ends at the first
    /// subleaf whose level type is invalid, which is not yielded.
    pub fn next(&mut self) -> (r: Option<ExtendedTopologyLevel>)
        ensures
            final(self).read == old(self).read,
            r matches Some(t) ==> {
                &&& old(self).read.answers(EAX_EXTENDED_TOPOLOGY_INFO, Some(old(self).level), t.regs())
                &&& spec_level_type(t.ecx) != TopologyType::INVALID
                &&& final(self).level == old(self).level + 1
            },
            r is None ==> final(self).level == old(self).level && (old(self).level == u32::MAX
                || exists|q: CpuIdResult|
                old(self).read.answers(EAX_EXTENDED_TOPOLOGY_INFO, Some(old(self).level), q)
                    && spec_level_type(q.ecx) == TopologyType::INVALID),
    {
        if self.level == u32::MAX {
            return None;
        }
        let res = self.read.cpuid2(EAX_EXTENDED_TOPOLOGY_INFO, self.level);
        let et = ExtendedTopologyLevel { eax: res.eax, ebx: res.ebx, ecx: res.ecx, edx: res.edx };
        match et.level_type() {
            TopologyType::INVALID => None,
            _ => {
                self.level = self.level + 1;
                Some(et)
            },
        }
    }
}

/// A processor state component, or a group of them, that XCR0 may enable.
#[allow(non_camel_case_types)]
#[derive(Debug, Clone, Copy, PartialEq, Eq, Structural)]
pub enum ExtendedStateIdent {
    /// x87 FPU state.
    Legacy87,
    /// SSE state.
    SSE128,
    /// AVX state (upper halves of YMM0-YMM15).
    AVX256,
    /// MPX state (bounds registers and configuration).
    MPX,
    /// AVX-512 state (opmask, ZMM_Hi256 and Hi16_ZMM).
    AVX512,
    /// State managed through IA32_XSS.
    IA32_XSS,
    /// PKRU state.
    PKRU,
}

pub open spec fn spec_ident_mask(i: ExtendedStateIdent) -> u64 {
    match i {
        ExtendedStateIdent::Legacy87 => 0b1,
        ExtendedStateIdent::SSE128 => 0b10,
        ExtendedStateIdent::AVX256 => 0b100,
        ExtendedStateIdent::MPX => 0b1_1000,
        ExtendedStateIdent::AVX512 => 0b1110_0000,
        ExtendedStateIdent::IA32_XSS => 0b1_0000_0000,
        ExtendedStateIdent::PKRU => 0b10_0000_0000,
    }
}

impl ExtendedStateIdent {
    /// The XCR0 bits of the component.
    pub fn mask(&self) -> (r: u64)
        ensures
            r == spec_ident_mask(*self),
    {
        match self {
            ExtendedStateIdent::Legacy87 => 0b1,
            ExtendedStateIdent::SSE128 => 0b10,
            ExtendedStateIdent::AVX256 => 0b100,
            ExtendedStateIdent::MPX => 0b1_1000,
            ExtendedStateIdent::AVX512 => 0b1110_0000,
            ExtendedStateIdent::IA32_XSS => 0b1_0000_0000,
            ExtendedStateIdent::PKRU => 0b10_0000_0000,
        }
    }
}

/// Whether bit `b` of `x` is set.
pub open spec fn bit_set64(x: u64, b: int) -> bool {
    (x >> (b as u64)) & 1u64 == 1u64
}

/// The first position above `l`, up to 63, whose bit is set in `x`.
pub open spec fn next_set(x: u64, l: int) -> Option<int>
    decreases 63 - l,
{
    if l >= 63 {
        None
    } else if bit_set64(x, l + 1) {
        Some(l + 1)
    } else {
        next_set(x, l + 1)
    }
}

/// Leaf 0xD, subleaves 0 and 1: the extended state save area.
pub struct ExtendedStateInfo<'a, R: CpuIdReader> {
    pub read: &'a R,
    pub eax: u32,
    pub ebx: u32,
    pub ecx: u32,
    pub edx: u32,
    pub eax1: u32,
    pub ebx1: u32,
    pub ecx1: u32,
    pub edx1: u32,
}

impl<'a, R: CpuIdReader> ExtendedStateInfo<'a, R> {
    pub open spec fn spec_xcr0(&self) -> u64 {
        ((self.edx as u64) * 0x1_0000_0000 + (self.eax as u64)) as u64
    }

    /// The XCR0 bits that may be set: `edx` high, `eax` low.
    pub fn xcr0_supported(&self) -> (r: u64)
        ensures
            r == self.spec_xcr0(),
    {
        (self.edx as u64) * 0x1_0000_0000 + (self.eax as u64)
    }

    /// XCR0 may enable legacy x87 state.
    pub fn has_legacy_x87(&self) -> (r: bool)
        ensures
            r == bit_set(self.eax, 0),
    {
        test_bit(self.eax, 0)
    }

    /// XCR0 may enable 128-bit SSE state.
    pub fn has_sse_128(&self) -> (r: bool)
        ensures
            r == bit_set(self.eax, 1),
    {
        test_bit(self.eax, 1)
    }

    /// XCR0 may enable 256-bit AVX state.
    pub fn has_avx_256(&self) -> (r: bool)
        ensures
            r == bit_set(self.eax, 2),
    {
        test_bit(self.eax, 2)
    }

    /// XCR0 may enable MPX state (bounds registers or configuration).
    pub fn has_mpx(&self) -> (r: bool)
        ensures
            r == (bit_set(self.eax, 3) || bit_set(self.eax, 4)),
    {
        test_bit(self.eax, 3) || test_bit(self.eax, 4)
    }

    /// XCR0 may enable AVX-512 state (opmask, ZMM_Hi256 or Hi16_ZMM).
    pub fn has_avx_512(&self) -> (r: bool)
        ensures
            r == (bit_set(self.eax, 5) || bit_set(self.eax, 6) || bit_set(self.eax, 7)),
    {
        test_bit(self.eax, 5) || test_bit(self.eax, 6) || test_bit(self.eax, 7)
    }

    /// IA32_XSS state component.
    pub fn has_ia32_xss(&self) -> (r: bool)
        ensures
            r == bit_set(self.eax, 8),
    {
        test_bit(self.eax, 8)
    }

    /// XCR0 may enable PKRU state.
    pub fn has_pkru(&self) -> (r: bool)
        ensures
            r == bit_set(self.eax, 9),
    {
        test_bit(self.eax, 9)
    }

    /// XCR0 may enable legacy x87 state.
    pub fn xcr0_supports_legacy_x87(&self) -> (r: bool)
        ensures
            r == bit_set(self.eax, 0),
    {
        test_bit(self.eax, 0)
    }

    /// XCR0 may enable 128-bit SSE state.
    pub fn xcr0_supports_sse_128(&self) -> (r: bool)
        ensures
            r == bit_set(self.eax, 1),
    {
        test_bit(self.eax, 1)
    }

    /// XCR0 may enable 256-bit AVX state.
    pub fn xcr0_supports_avx_256(&self) -> (r: bool)
        ensures
            r == bit_set(self.eax, 2),
    {
        test_bit(self.eax, 2)
    }

    /// XCR0 may enable MPX bounds registers.
    pub fn xcr0_supports_mpx_bndregs(&self) -> (r: bool)
        ensures
            r == bit_set(self.eax, 3),
    {
        test_bit(self.eax, 3)
    }

    /// XCR0 may enable MPX configuration and status.
    pub fn xcr0_supports_mpx_bndcsr(&self) -> (r: bool)
        ensures
            r == bit_set(self.eax, 4),
    {
        test_bit(self.eax, 4)
    }

    /// XCR0 may enable AVX-512 opmask state.
    pub fn xcr0_supports_avx512_opmask(&self) -> (r: bool)
        ensures
            r == bit_set(self.eax, 5),
    {
        test_bit(self.eax, 5)
    }

    /// XCR0 may enable the upper halves of ZMM0-ZMM15.
    pub fn xcr0_supports_avx512_zmm_hi256(&self) -> (r: bool)
        ensures
            r == bit_set(self.eax, 6),
    {
        test_bit(self.eax, 6)
    }

    /// XCR0 may enable ZMM16-ZMM31.
    pub fn xcr0_supports_avx512_zmm_hi16(&self) -> (r: bool)
        ensures
            r == bit_set(self.eax, 7),
    {
        test_bit(self.eax, 7)
    }

    /// XCR0 may enable PKRU state.
    pub fn xcr0_supports_pkru(&self) -> (r: bool)
        ensures
            r == bit_set(self.eax, 9),
    {
        test_bit(self.eax, 9)
    }

    /// IA32_XSS may enable processor trace state.
    pub fn ia32_xss_supports_pt(&self) -> (r: bool)
        ensures
            r == bit_set(self.ecx1, 8),
    {
        test_bit(self.ecx1, 8)
    }

    /// IA32_XSS may enable HDC state.
    pub fn ia32_xss_supports_hdc(&self) -> (r: bool)
        ensures
            r == bit_set(self.ecx1, 13),
    {
        test_bit(self.ecx1, 13)
    }

    /// Size in bytes of the save area for the features XCR0 enables.
    pub fn maximum_size_enabled_features(&self) -> (r: u32)
        ensures
            r == self.ebx,
    {
        self.ebx
    }

    /// Size in bytes of the save area for every supported feature.
    pub fn maximum_size_supported_features(&self) -> (r: u32)
        ensures
            r == self.ecx,
    {
        self.ecx
    }

    /// Size in bytes of the save area for the features XCR0 enables.
    pub fn xsave_area_size_enabled_features(&self) -> (r: u32)
        ensures
            r == self.ebx,
    {
        self.ebx
    }

    /// Size in bytes of the save area for every supported feature.
    pub fn xsave_area_size_supported_features(&self) -> (r: u32)
        ensures
            r == self.ecx,
    {
        self.ecx
    }

    /// Size in bytes of the save area for the features in XCR0 | IA32_XSS.
    pub fn xsave_size(&self) -> (r: u32)
        ensures
            r == self.ebx1,
    {
        self.ebx1
    }

    /// XSAVEOPT.
    pub fn has_xsaveopt(&self) -> (r: bool)
        ensures
            r == bit_set(self.eax1, 0),
    {
        test_bit(self.eax1, 0)
    }

    /// XSAVEC and the compacted form of XRSTOR.
    pub fn has_xsavec(&self) -> (r: bool)
        ensures
            r == bit_set(self.eax1, 1),
    {
        test_bit(self.eax1, 1)
    }

    /// XGETBV with ECX = 1.
    pub fn has_xgetbv(&self) -> (r: bool)
        ensures
            r == bit_set(self.eax1, 2),
    {
        test_bit(self.eax1, 2)
    }

    /// XSAVES/XRSTORS and IA32_XSS.
    pub fn has_xsaves_xrstors(&self) -> (r: bool)
        ensures
            r == bit_set(self.eax1, 3),
    {
        test_bit(self.eax1, 3)
    }

    /// The state components that XCR0 may enable, from component 2 on.
    pub fn iter(&self) -> (r: ExtendedStateIter<'a, R>)
        ensures
            r.read == self.read,
            r.level == 1,
            r.xcr0_supported == self.spec_xcr0(),
    {
        ExtendedStateIter { read: self.read, level: 1, xcr0_supported: self.xcr0_supported() }
    }
}

/// Iterates over the state components of leaf 0xD that XCR0 may enable.
pub struct ExtendedStateIter<'a, R: CpuIdReader> {
    pub read: &'a R,
    pub level: u32,
    pub xcr0_supported: u64,
}

impl<'a, R: CpuIdReader> ExtendedStateIter<'a, R> {
    /// The next component whose XCR0 bit is set, queried at its subleaf.
    pub fn next(&mut self) -> (r: Option<ExtendedState>)
        ensures
            final(self).read == old(self).read,
            final(self).xcr0_supported == old(self).xcr0_supported,
            match next_set(old(self).xcr0_supported, old(self).level as int) {
                Some(j) => {
                    &&& r matches Some(s) && s.subleaf == j && old(self).read.answers(
                        EAX_EXTENDED_STATE_INFO,
                        Some(j as u32),
                        s.regs(),
                    )
                    &&& final(self).level == j
                },
                None => r is None,
            },
    {
        while self.level <= 62
            invariant
                self.read == old(self).read,
                self.xcr0_supported == old(self).xcr0_supported,
                next_set(self.xcr0_supported, self.level as int) == next_set(
                    old(self).xcr0_supported,
                    old(self).level as int,
                ),
            decreases 63 - self.level,
        {
            self.level = self.level + 1;
            if (self.xcr0_supported >> self.level) & 1u64 == 1u64 {
                let res = self.read.cpuid2(EAX_EXTENDED_STATE_INFO, self.level);
                return Some(
                    ExtendedState {
                        subleaf: self.level,
                        eax: res.eax,
                        ebx: res.ebx,
                        ecx: res.ecx,
                        edx: res.edx,
                    },
                );
            }
        }
        None
    }
}

/// One state component of leaf 0xD.
#[derive(Debug, Clone, Copy)]
pub struct ExtendedState {
    /// The component's subleaf (its XCR0 bit).
    pub subleaf: u32,
    pub eax: u32,
    pub ebx: u32,
    pub ecx: u32,
    pub edx: u32,
}

impl ExtendedState {
    pub open spec fn regs(&self) -> CpuIdResult {
        CpuIdResult { eax: self.eax, ebx: self.ebx, ecx: self.ecx, edx: self.edx }
    }

    /// Size in bytes of the save area for this component.
    pub fn size(&self) -> (r: u32)
        ensures
            r == self.eax,
    {
        self.eax
    }

    /// Offset in bytes of this component from the start of the save area.
    pub fn offset(&self) -> (r: u32)
        ensures
            r == self.ebx,
    {
        self.ebx
    }

    /// The component is managed through IA32_XSS.
    pub fn is_in_ia32_xss(&self) -> (r: bool)
        ensures
            r == bit_set(self.ecx, 0),
    {
        test_bit(self.ecx, 0)
    }

    /// The component is managed through XCR0.
    pub fn is_in_xcr0(&self) -> (r: bool)
        ensures
            r == !bit_set(self.ecx, 0),
    {
        !test_bit(self.ecx, 0)
    }

    /// The component is aligned to 64 bytes in the compacted format.
    pub fn is_compacted_format(&self) -> (r: bool)
        ensures
            r == bit_set(self.ecx, 1),
    {
        test_bit(self.ecx, 1)
    }
}

} // verus!
