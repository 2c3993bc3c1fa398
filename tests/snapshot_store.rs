use raw_cpuid::{
    identify_micro_architecture, CacheType, CpuId, CpuIdDump, CpuIdReader, CpuIdResult,
    ExtendedProcessorFeatureIdentifiers, ProcessorBrandString, TopologyType, UArch, Vendor,
};

fn quad(eax: u32, ebx: u32, ecx: u32, edx: u32) -> CpuIdResult {
    CpuIdResult { eax, ebx, ecx, edx }
}

const MIRROR_MASK: u32 = 0b0000_0001_1000_0011_1111_0011_1111_1111;

#[test]
fn round_trip_of_a_scalar_write() {
    let mut dump = CpuIdDump::new();
    let q = quad(0x1234_5678, 0x9abc_def0, 0x0f0f_0f0f, 0xf0f0_f0f0);
    dump.set_leaf(0x7, Some(q));
    assert_eq!(dump.cpuid1(0x7), q);
    dump.set_leaf(0x1, Some(q));
    assert_eq!(dump.cpuid1(0x1), q);
    dump.set_leaf(0x8000_0008, Some(q));
    assert_eq!(dump.cpuid1(0x8000_0008), q);
    // Overwriting replaces the whole quad.
    let q2 = quad(1, 2, 3, 4);
    dump.set_leaf(0x7, Some(q2));
    assert_eq!(dump.cpuid1(0x7), q2);
}

#[test]
fn mirroring_from_leaf_1() {
    let mut dump = CpuIdDump::new();
    dump.set_leaf(0x8000_0001, Some(quad(0, 0, 0, 0)));
    dump.set_leaf(0x1, Some(quad(0, 0, 0, 1 << 5)));
    assert_ne!(dump.cpuid1(0x8000_0001).edx & (1 << 5), 0);
}

#[test]
fn mirroring_into_leaf_8000_0001() {
    let mut dump = CpuIdDump::new();
    dump.set_leaf(0x1, Some(quad(0, 0, 0, 1 << 5)));
    dump.set_leaf(0x8000_0001, Some(quad(0, 0, 0, 1 << 31)));
    let ext = dump.cpuid1(0x8000_0001).edx;
    let std = dump.cpuid1(0x1).edx;
    assert_eq!(ext & MIRROR_MASK, std & MIRROR_MASK);
    assert_eq!(ext, (1 << 5) | (1 << 31));
    assert_eq!(std, 1 << 5);
}

#[test]
fn mirrored_bits_converge_in_either_order() {
    let leaf1 = quad(0, 0, 0, 0x178b_fbff);
    let ext = quad(0, 0, 0, 0x2fd3_0000);

    let mut a = CpuIdDump::new();
    a.set_leaf(0x8000_0001, Some(ext));
    a.set_leaf(0x1, Some(leaf1));

    let mut b = CpuIdDump::new();
    b.set_leaf(0x1, Some(leaf1));
    b.set_leaf(0x8000_0001, Some(ext));

    assert_eq!(a.cpuid1(0x8000_0001).edx, b.cpuid1(0x8000_0001).edx);
    assert_eq!(a.cpuid1(0x8000_0001).edx & MIRROR_MASK, 0x178b_fbff & MIRROR_MASK);
    assert_eq!(a.cpuid1(0x8000_0001).edx & !MIRROR_MASK, 0x2fd3_0000 & !MIRROR_MASK);
}

#[test]
fn bookkeeping_follows_writes_and_removals() {
    let mut dump = CpuIdDump::new();
    assert_eq!(dump.cpuid1(0x0), quad(0, 0, 0, 0));

    dump.set_leaf(0x5, Some(quad(9, 9, 9, 9)));
    assert_eq!(dump.cpuid1(0x0).eax, 0x5);
    dump.set_subleaf(0xd, 3, Some(quad(1, 1, 1, 1)));
    assert_eq!(dump.cpuid1(0x0).eax, 0xd);
    dump.set_leaf(0x4000_0003, Some(quad(1, 1, 1, 1)));
    assert_eq!(dump.cpuid1(0x4000_0000).eax, 0x4000_0003);
    dump.set_leaf(0x8000_0008, Some(quad(1, 1, 1, 1)));
    assert_eq!(dump.cpuid1(0x8000_0000).eax, 0x8000_0008);
    // Leaves from 0xC000_0000 on belong to no namespace.
    dump.set_leaf(0xc000_0001, Some(quad(1, 1, 1, 1)));
    assert_eq!(dump.cpuid1(0x8000_0000).eax, 0x8000_0008);

    dump.set_leaf(0xd, None);
    assert_eq!(dump.cpuid1(0x0).eax, 0x5);
    dump.set_leaf(0x5, None);
    // Only leaf 0 itself is left in the standard namespace.
    assert_eq!(dump.cpuid1(0x0).eax, 0x0);

    // The other registers of a bookkeeping leaf are kept.
    dump.set_leaf(0x0, Some(quad(0x77, 0x6874_7541, 0x444d_4163, 0x6974_6e65)));
    assert_eq!(dump.cpuid1(0x0), quad(0, 0x6874_7541, 0x444d_4163, 0x6974_6e65));
    dump.set_leaf(0x2, Some(quad(0, 0, 0, 0)));
    assert_eq!(dump.cpuid1(0x0), quad(2, 0x6874_7541, 0x444d_4163, 0x6974_6e65));
}

#[test]
fn removing_a_subleaf_keeps_the_others() {
    let mut dump = CpuIdDump::new();
    dump.set_subleaf(0xb, 0, Some(quad(1, 2, 0x100, 0)));
    dump.set_subleaf(0xb, 1, Some(quad(4, 4, 0x201, 0)));
    dump.set_subleaf(0xb, 0, None);
    assert_eq!(dump.cpuid2(0xb, 0), quad(0, 0, 0, 0));
    assert_eq!(dump.cpuid2(0xb, 1), quad(4, 4, 0x201, 0));
    // Removing from an absent leaf changes nothing.
    dump.set_subleaf(0x12, 0, None);
    assert_eq!(dump.cpuid1(0x0).eax, 0xb);
}

#[test]
fn scalar_and_table_answers() {
    let mut dump = CpuIdDump::new();
    dump.set_leaf(0x6, Some(quad(4, 0, 1, 0)));
    dump.set_subleaf(0x7, 0, Some(quad(0, 0x219c_91a9, 0, 0)));
    // A scalar leaf does not answer subleaf queries.
    assert_eq!(dump.cpuid2(0x6, 0), quad(0, 0, 0, 0));
    // A table answers a plain query with subleaf 0.
    assert_eq!(dump.cpuid1(0x7), quad(0, 0x219c_91a9, 0, 0));
    assert_eq!(dump.cpuid2(0x7, 1), quad(0, 0, 0, 0));
}

#[test]
fn topology_sequence_stops_at_the_invalid_level() {
    let mut dump = CpuIdDump::new();
    dump.set_subleaf(0xb, 0, Some(quad(1, 2, 0x100, 0)));
    dump.set_subleaf(0xb, 1, Some(quad(4, 8, 0x201, 0)));
    dump.set_subleaf(0xb, 2, Some(quad(0, 0, 0x002, 0)));
    let cpuid = CpuId::new(dump);
    let mut levels = cpuid.get_extended_topology_info().expect("leaf 0xB is reported");
    let first = levels.next().expect("level 0");
    assert_eq!(first.level_type(), TopologyType::SMT);
    let second = levels.next().expect("level 1");
    assert_eq!(second.level_type(), TopologyType::CORE);
    assert!(levels.next().is_none());
    assert!(levels.next().is_none());
}

#[test]
fn cache_parameters_stop_at_the_null_type() {
    let mut dump = CpuIdDump::new();
    dump.set_subleaf(0x4, 0, Some(quad(0x121, 0x1c0_003f, 0x3f, 0)));
    dump.set_subleaf(0x4, 1, Some(quad(0x143, 0x1c0_003f, 0x3ff, 0)));
    let cpuid = CpuId::new(dump);
    let mut caches = cpuid.get_cache_parameters().expect("leaf 0x4 is reported");
    assert_eq!(caches.next().expect("L1").cache_type(), CacheType::DATA);
    assert_eq!(caches.next().expect("L2").cache_type(), CacheType::UNIFIED);
    assert!(caches.next().is_none());
}

#[test]
fn absent_leaf_answers_zero_every_time() {
    let mut dump = CpuIdDump::new();
    dump.set_leaf(0x1, Some(quad(1, 2, 3, 4)));
    let first = dump.cpuid1(0x42);
    let second = dump.cpuid1(0x42);
    assert_eq!(first, quad(0, 0, 0, 0));
    assert_eq!(first, second);
    assert_eq!(dump.cpuid2(0x42, 7), quad(0, 0, 0, 0));
}

#[test]
fn scenario_mirrored_bit_and_leaf_count() {
    let mut dump = CpuIdDump::new();
    dump.set_leaf(0x1, Some(quad(0, 0, 0, 0b10)));
    dump.set_leaf(0x8000_0001, Some(quad(0, 0, 0, 0)));
    // Bit 1 lies within the mirror mask.
    assert_ne!(MIRROR_MASK & 0b10, 0);
    assert_eq!(dump.cpuid1(0x8000_0001).edx & 0b10, 0b10);
    assert_eq!(dump.cpuid1(0x0).eax, 1);
}

#[test]
fn draining_hands_out_every_answer_once() {
    let mut dump = CpuIdDump::new();
    dump.set_leaf(0x1, Some(quad(1, 0, 0, 0)));
    dump.set_subleaf(0xb, 0, Some(quad(2, 0, 0, 0)));
    dump.set_subleaf(0xb, 1, Some(quad(3, 0, 0, 0)));
    let mut iter = dump.into_iter();
    let mut seen = Vec::new();
    while let Some(entry) = iter.next() {
        seen.push(entry);
    }
    seen.sort_by_key(|e| (e.0, e.1));
    assert_eq!(
        seen,
        vec![
            (0x0, None, quad(0xb, 0, 0, 0)),
            (0x1, None, quad(1, 0, 0, 0)),
            (0xb, Some(0), quad(2, 0, 0, 0)),
            (0xb, Some(1), quad(3, 0, 0, 0)),
        ]
    );
    assert!(iter.next().is_none());
}

#[test]
fn extended_function_info_from_a_store() {
    let mut dump = CpuIdDump::new();
    dump.set_leaf(0x8000_0000, Some(quad(0, 0, 0, 0)));
    dump.set_subleaf(0x8000_0006, 0, Some(quad(0, 0, 16801856, 0)));
    let cpuid = CpuId::new(dump);
    let ef = cpuid.get_extended_function_info().expect("extended leaves are reported");
    assert_eq!(ef.max_eax_value, 6);
    assert_eq!(ef.cache_line_size(), Some(64));
    assert_eq!(ef.cache_size(), Some(256));
    assert_eq!(ef.physical_address_bits(), None);
    assert_eq!(ef.processor_brand_string(), Some(String::new()));

    let empty = CpuId::new(CpuIdDump::new());
    assert!(empty.get_extended_function_info().is_none());
    assert!(empty.get_vendor_info().is_some());
    assert!(empty.get_feature_info().is_none());
}

#[test]
fn brand_string_is_cut_at_nul_and_checked() {
    let name = ProcessorBrandString::new([
        quad(0x2044_4d41, 0x657a_7952, 0x2035_206e, 0x3030_3633),
        quad(0x2d36_2058, 0x6572_6f43, 0x6f72_5020, 0x7373_6563),
        quad(0x2020_726f, 0x2020_2020, 0x2020_2020, 0x0020_2020),
    ]);
    assert_eq!(name.as_str(), "AMD Ryzen 5 3600X 6-Core Processor             ");

    let bad = ProcessorBrandString::new([quad(0xffff_ffff, 0, 0, 0), quad(0, 0, 0, 0), quad(0, 0, 0, 0)]);
    assert_eq!(bad.as_str(), "Invalid Processor Brand String");
}

#[test]
fn amd_only_bits_need_an_amd_vendor() {
    let regs = quad(0x0087_0f10, 0x2000_0000, 0x75c2_37ff, 0x2fd3_fbff);
    let amd = ExtendedProcessorFeatureIdentifiers::new(Vendor::Amd, regs);
    let intel = ExtendedProcessorFeatureIdentifiers::new(Vendor::Intel, regs);
    assert!(amd.has_svm());
    assert!(!intel.has_svm());
    assert!(amd.has_lahf_sahf() && intel.has_lahf_sahf());
    assert_eq!(amd.pkg_type(), 0x2);
    assert_eq!(amd.extended_signature(), 0x0087_0f10);
    assert!(amd.has_mmx_extensions());
    assert!(!amd.has_3dnow());
}

#[test]
fn vendor_from_leaf_0() {
    assert_eq!(Vendor::from_vendor_leaf(quad(0x10, 0x6874_7541, 0x444d_4163, 0x6974_6e65)), Vendor::Amd);
    assert_eq!(Vendor::from_vendor_leaf(quad(0x16, 0x756e_6547, 0x6c65_746e, 0x4965_6e69)), Vendor::Intel);
    assert_eq!(Vendor::from_vendor_leaf(quad(0, 1, 2, 3)), Vendor::Unknown(1, 2, 3));
}

#[test]
fn micro_architecture_by_family_and_model() {
    let p = identify_micro_architecture(Vendor::Intel, 0x6, 0x7, 0).expect("known");
    assert_eq!(p.codename, UArch::P6PentiumIII);
    let n = identify_micro_architecture(Vendor::Intel, 0xF, 0x2, 1).expect("known");
    assert_eq!(n.codename, UArch::Northwood);
    assert!(identify_micro_architecture(Vendor::Intel, 0x6, 0x9A, 0).is_none());
    assert!(identify_micro_architecture(Vendor::Amd, 0x17, 0x71, 0).is_none());
}

#[test]
fn live_processor_reports_its_vendor() {
    let cpuid = CpuId::new(raw_cpuid::NativeCpuIdReader);
    let vendor = cpuid.get_vendor_info().expect("leaf 0 is always reported");
    assert_eq!(vendor.as_string().len(), 12);
    assert_eq!(raw_cpuid::cpuid1(0), raw_cpuid::cpuid2(0, 0));
}

#[test]
fn cache_descriptor_kinds() {
    let mut iter = raw_cpuid::CacheInfoIter { current: 1, eax: 0x01, ebx: 0xf0, ecx: 0, edx: 0x49 };
    let prefetch = iter.next().expect("0xf0 is known");
    assert_eq!(prefetch.kind_name(), "Prefetcher");
    assert_eq!(prefetch.typ, raw_cpuid::CacheInfoType::PREFETCH);
    assert_eq!(prefetch.desc, "64-Byte prefetching");
    let cache = iter.next().expect("0x49 is known");
    assert_eq!(cache.kind_name(), "Cache");
    assert_eq!(cache.num, 0x49);
    assert!(cache.desc.starts_with("3rd-level cache: 4MB, 16-way set associative"));
    assert!(iter.next().is_none());
    // An unknown descriptor ends the sequence.
    let mut unknown = raw_cpuid::CacheInfoIter { current: 1, eax: 0x01, ebx: 0x07, ecx: 0, edx: 0 };
    assert!(unknown.next().is_none());
}

#[test]
fn leaf_7_is_read_as_a_scalar_or_as_subleaf_0() {
    let mut scalar = CpuIdDump::new();
    scalar.set_leaf(0x7, Some(quad(0, 0x219c_91a9, 0x0040_0004, 0)));
    let features = CpuId::new(scalar).get_extended_feature_info().expect("leaf 7 is reported");
    assert_eq!(features.ebx, 0x219c_91a9);
    assert!(features.has_avx2());
    assert!(features.has_rdpid());

    let mut table = CpuIdDump::new();
    table.set_subleaf(0x7, 0, Some(quad(0, 0x219c_91a9, 0x0040_0004, 0)));
    let features = CpuId::new(table).get_extended_feature_info().expect("leaf 7 is reported");
    assert_eq!(features.ebx, 0x219c_91a9);
}

#[test]
fn subleaf_writes_on_leaves_without_a_fixed_shape() {
    let mut dump = CpuIdDump::new();
    // Leaf 0x1 may be recorded by subleaf while it is absent.
    dump.set_subleaf(0x1, 0, Some(quad(5, 6, 7, 8)));
    assert_eq!(dump.cpuid2(0x1, 0), quad(5, 6, 7, 8));
    assert_eq!(dump.cpuid1(0x1), quad(5, 6, 7, 8));
    assert_eq!(dump.cpuid1(0x0).eax, 0x1);
    // Removing a subleaf of an absent bookkeeping leaf changes nothing.
    dump.set_subleaf(0x4000_0000, 0, None);
    assert_eq!(dump.cpuid1(0x4000_0000), quad(0, 0, 0, 0));
    dump.set_subleaf(0x8000_0001, 3, None);
    assert_eq!(dump.cpuid1(0x8000_0000), quad(0, 0, 0, 0));
}

#[test]
fn repeating_a_write_changes_nothing() {
    let mut dump = CpuIdDump::new();
    dump.set_leaf(0x8000_0001, Some(quad(0, 0, 0, 0xffff_0000)));
    dump.set_leaf(0x1, Some(quad(1, 2, 3, 0x0000_00ff)));
    let ext_once = dump.cpuid1(0x8000_0001);
    let leaf0_once = dump.cpuid1(0x0);
    dump.set_leaf(0x1, Some(quad(1, 2, 3, 0x0000_00ff)));
    assert_eq!(dump.cpuid1(0x8000_0001), ext_once);
    assert_eq!(dump.cpuid1(0x1), quad(1, 2, 3, 0x0000_00ff));
    assert_eq!(dump.cpuid1(0x0), leaf0_once);
}
