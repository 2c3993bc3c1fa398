//! The query-source interface and the snapshot store ("dump"): an in-memory,
//! mutable stand-in for the CPUID instruction.
use vstd::prelude::*;
use std::collections::HashMap;
use crate::bits::{zero_quad, CpuIdResult};

verus! {

broadcast use vstd::std_specs::hash::group_hash_axioms;

/// Something that answers CPUID queries.
///
/// `answers(leaf, subleaf, r)` says that `r` is an answer the source may give
/// for that query: for a snapshot it is the one stored answer, for live
/// hardware it is whatever the processor reports.
pub trait CpuIdReader {
    spec fn answers(&self, leaf: u32, subleaf: Option<u32>, r: CpuIdResult) -> bool;

    /// Queries `leaf` with no subleaf.
    fn cpuid1(&self, leaf: u32) -> (r: CpuIdResult)
        ensures
            self.answers(leaf, None, r),
    ;

    /// Queries `leaf` at `subleaf`.
    fn cpuid2(&self, leaf: u32, subleaf: u32) -> (r: CpuIdResult)
        ensures
            self.answers(leaf, Some(subleaf), r),
    ;
}

/// Standard leaf whose `eax` reports the largest standard leaf.
pub const STANDARD_BASE: u32 = 0x0;
/// Hypervisor leaf whose `eax` reports the largest hypervisor leaf.
pub const HYPERVISOR_BASE: u32 = 0x4000_0000;
/// Extended leaf whose `eax` reports the largest extended leaf.
pub const EXTENDED_BASE: u32 = 0x8000_0000;
/// The feature information leaf.
pub const FEATURE_LEAF: u32 = 0x1;
/// The extended feature information leaf, which mirrors part of leaf 1's `edx`.
pub const EXTENDED_FEATURE_LEAF: u32 = 0x8000_0001;
/// The `edx` bits that leaf 0x8000_0001 mirrors from leaf 0x1.
pub const MIRROR_MASK: u32 = 0b0000_0001_1000_0011_1111_0011_1111_1111;

/// What the store holds for one leaf, as a mathematical value.
pub enum LeafShape {
    Scalar(CpuIdResult),
    Table(Map<u32, CpuIdResult>),
}

#[derive(Clone)]
enum LeafOrSubleaves {
    Leaf(CpuIdResult),
    Subleaf(HashMap<u32, CpuIdResult>),
}

impl LeafOrSubleaves {
    spec fn shape(self) -> LeafShape {
        match self {
            LeafOrSubleaves::Leaf(q) => LeafShape::Scalar(q),
            LeafOrSubleaves::Subleaf(t) => LeafShape::Table(t@),
        }
    }
}

/// A recorded set of CPUID answers, keyed by leaf.
#[derive(Clone)]
pub struct CpuIdDump {
    leaves: HashMap<u32, LeafOrSubleaves>,
}

impl View for CpuIdDump {
    type V = Map<u32, LeafShape>;

    closed spec fn view(&self) -> Map<u32, LeafShape> {
        self.leaves@.map_values(|e: LeafOrSubleaves| e.shape())
    }
}

/// The namespace that `base` starts holds `k`.
pub open spec fn in_namespace(k: u32, base: u32) -> bool {
    base <= k && (k as int) < (base as int) + 0x4000_0000
}

/// `k` is one of the three bookkeeping leaves.
pub open spec fn is_base(k: u32) -> bool {
    k == STANDARD_BASE || k == HYPERVISOR_BASE || k == EXTENDED_BASE
}

pub open spec fn is_scalar(m: Map<u32, LeafShape>, k: u32) -> bool {
    m.contains_key(k) && m[k] is Scalar
}

pub open spec fn is_table(m: Map<u32, LeafShape>, k: u32) -> bool {
    m.contains_key(k) && m[k] is Table
}

/// The quad stored at `k` if it is a scalar, else the zero quad.
pub open spec fn scalar_at(m: Map<u32, LeafShape>, k: u32) -> CpuIdResult {
    if m.contains_key(k) {
        match m[k] {
            LeafShape::Scalar(q) => q,
            LeafShape::Table(_) => zero_quad(),
        }
    } else {
        zero_quad()
    }
}

/// The subleaf table stored at `k`, empty if there is none.
pub open spec fn table_at(m: Map<u32, LeafShape>, k: u32) -> Map<u32, CpuIdResult> {
    if m.contains_key(k) {
        match m[k] {
            LeafShape::Table(t) => t,
            LeafShape::Scalar(_) => Map::empty(),
        }
    } else {
        Map::empty()
    }
}

/// Answer to a query of `leaf` with no subleaf: the scalar, or subleaf 0 of a
/// table, or the zero quad.
pub open spec fn spec_query1(m: Map<u32, LeafShape>, leaf: u32) -> CpuIdResult {
    if is_scalar(m, leaf) {
        scalar_at(m, leaf)
    } else if is_table(m, leaf) && table_at(m, leaf).contains_key(0) {
        table_at(m, leaf)[0]
    } else {
        zero_quad()
    }
}

/// Answer to a query of `leaf` at `subleaf`: only a table answers it.
pub open spec fn spec_query2(m: Map<u32, LeafShape>, leaf: u32, subleaf: u32) -> CpuIdResult {
    if is_table(m, leaf) && table_at(m, leaf).contains_key(subleaf) {
        table_at(m, leaf)[subleaf]
    } else {
        zero_quad()
    }
}

pub open spec fn spec_query(m: Map<u32, LeafShape>, leaf: u32, subleaf: Option<u32>) -> CpuIdResult {
    match subleaf {
        None => spec_query1(m, leaf),
        Some(s) => spec_query2(m, leaf, s),
    }
}

pub open spec fn with_eax(q: CpuIdResult, eax: u32) -> CpuIdResult {
    CpuIdResult { eax, ebx: q.ebx, ecx: q.ecx, edx: q.edx }
}

pub open spec fn with_edx(q: CpuIdResult, edx: u32) -> CpuIdResult {
    CpuIdResult { eax: q.eax, ebx: q.ebx, ecx: q.ecx, edx }
}

/// `target` with its mirrored bits replaced by those of `source`.
pub open spec fn mirror_edx(target: u32, source: u32) -> u32 {
    (target & !MIRROR_MASK) | (source & MIRROR_MASK)
}

pub open spec fn namespace_nonempty(m: Map<u32, LeafShape>, base: u32) -> bool {
    exists|k: u32| m.contains_key(k) && in_namespace(k, base)
}

/// `x` is the largest leaf of `base`'s namespace in `m`.
pub open spec fn is_namespace_max(m: Map<u32, LeafShape>, base: u32, x: u32) -> bool {
    &&& m.contains_key(x)
    &&& in_namespace(x, base)
    &&& forall|k: u32| m.contains_key(k) && in_namespace(k, base) ==> k <= x
}

pub open spec fn namespace_max(m: Map<u32, LeafShape>, base: u32) -> u32 {
    choose|x: u32| is_namespace_max(m, base, x)
}

/// The store after the bookkeeping leaves are brought up to date: each
/// non-empty namespace's base leaf is a scalar whose `eax` is the namespace's
/// largest leaf; the other registers of an existing base leaf are kept.
pub open spec fn bookkeep(m: Map<u32, LeafShape>) -> Map<u32, LeafShape> {
    Map::new(
        |k: u32| m.contains_key(k) || (is_base(k) && namespace_nonempty(m, k)),
        |k: u32|
            if is_base(k) && namespace_nonempty(m, k) {
                LeafShape::Scalar(with_eax(scalar_at(m, k), namespace_max(m, k)))
            } else {
                m[k]
            },
    )
}

/// The store after a scalar write, before bookkeeping.
pub open spec fn write_leaf(m: Map<u32, LeafShape>, leaf: u32, bits: Option<CpuIdResult>) -> Map<
    u32,
    LeafShape,
> {
    match bits {
        None => m.remove(leaf),
        Some(q) => {
            let m1 = if leaf == FEATURE_LEAF && is_scalar(m, EXTENDED_FEATURE_LEAF) {
                let e = scalar_at(m, EXTENDED_FEATURE_LEAF);
                m.insert(EXTENDED_FEATURE_LEAF, LeafShape::Scalar(with_edx(e, mirror_edx(e.edx, q.edx))))
            } else {
                m
            };
            let q2 = if leaf == EXTENDED_FEATURE_LEAF && is_scalar(m, FEATURE_LEAF) {
                with_edx(q, mirror_edx(q.edx, scalar_at(m, FEATURE_LEAF).edx))
            } else {
                q
            };
            m1.insert(leaf, LeafShape::Scalar(q2))
        },
    }
}

/// The store after a subleaf write, before bookkeeping.
pub open spec fn write_subleaf(
    m: Map<u32, LeafShape>,
    leaf: u32,
    subleaf: u32,
    bits: Option<CpuIdResult>,
) -> Map<u32, LeafShape> {
    match bits {
        Some(q) => m.insert(leaf, LeafShape::Table(table_at(m, leaf).insert(subleaf, q))),
        None => if m.contains_key(leaf) {
            m.insert(leaf, LeafShape::Table(table_at(m, leaf).remove(subleaf)))
        } else {
            m
        },
    }
}

/// The bookkeeping leaves are scalars whenever they are present.
pub open spec fn shapes_ok(m: Map<u32, LeafShape>) -> bool {
    forall|k: u32| is_base(k) && m.contains_key(k) ==> #[trigger] m[k] is Scalar
}

/// Each non-empty namespace's base leaf reports the namespace's largest leaf.
pub open spec fn bookkept(m: Map<u32, LeafShape>) -> bool {
    forall|base: u32|
        is_base(base) && #[trigger] namespace_nonempty(m, base) ==> is_scalar(m, base)
            && is_namespace_max(m, base, scalar_at(m, base).eax)
}

/// Two maxima of one namespace are the same leaf.
pub proof fn lemma_namespace_max_unique(m: Map<u32, LeafShape>, base: u32, x: u32)
    requires
        is_namespace_max(m, base, x),
    ensures
        namespace_max(m, base) == x,
        namespace_nonempty(m, base),
{
    let y = namespace_max(m, base);
    assert(is_namespace_max(m, base, y));
}

/// Bookkeeping leaves every namespace consistent and keeps every shape rule.
pub proof fn lemma_bookkeep_consistent(m: Map<u32, LeafShape>)
    requires
        shapes_ok(m),
        m.dom().finite(),
    ensures
        bookkept(bookkeep(m)),
        shapes_ok(bookkeep(m)),
        bookkeep(m).dom().finite(),
{
    let b = bookkeep(m);
    assert(b.dom() =~= m.dom().union(Set::new(|k: u32| is_base(k) && namespace_nonempty(m, k))));
    assert(Set::new(|k: u32| is_base(k) && namespace_nonempty(m, k)).subset_of(set![STANDARD_BASE, HYPERVISOR_BASE, EXTENDED_BASE]));
    vstd::set_lib::lemma_set_subset_finite(set![STANDARD_BASE, HYPERVISOR_BASE, EXTENDED_BASE], Set::new(|k: u32| is_base(k) && namespace_nonempty(m, k)));
    assert forall|base: u32| is_base(base) && #[trigger] namespace_nonempty(b, base) implies is_scalar(b, base)
        && is_namespace_max(b, base, scalar_at(b, base).eax) by {
        let k = choose|k: u32| b.contains_key(k) && in_namespace(k, base);
        if !m.contains_key(k) {
            assert(is_base(k) && namespace_nonempty(m, k));
            let w = choose|w: u32| m.contains_key(w) && in_namespace(w, k);
            assert(in_namespace(w, base));
        }
        assert(namespace_nonempty(m, base));
        let x = choose|x: u32| is_namespace_max(m, base, x);
        assert(is_namespace_max(m, base, x)) by {
            lemma_max_exists(m, base);
        }
        lemma_namespace_max_unique(m, base, x);
        assert forall|j: u32| b.contains_key(j) && in_namespace(j, base) implies j <= x by {
            if !m.contains_key(j) {
                assert(is_base(j));
            }
        }
    }
}

/// A non-empty namespace of a finite store has a largest leaf.
pub proof fn lemma_max_exists(m: Map<u32, LeafShape>, base: u32)
    requires
        m.dom().finite(),
        namespace_nonempty(m, base),
    ensures
        exists|x: u32| is_namespace_max(m, base, x),
{
    broadcast use vstd::set::group_set_axioms, vstd::set_lib::group_set_properties;

    let s = m.dom().filter(|k: u32| in_namespace(k, base));
    let w = choose|k: u32| m.contains_key(k) && in_namespace(k, base);
    assert(s.contains(w));
    assert(s.len() > 0);
    let r = |a: u32, b: u32| a <= b;
    assert(vstd::relations::total_ordering(r));
    s.find_unique_maximal_ensures(r);
    let x = s.find_unique_maximal(r);
    assert(is_namespace_max(m, base, x)) by {
        assert forall|k: u32| m.contains_key(k) && in_namespace(k, base) implies k <= x by {
            assert(s.contains(k));
            assert(vstd::relations::is_maximal(r, x, s));
            assert(r(k, x) || r(x, k));
            if r(x, k) {
                assert(r(k, x));
            }
        }
    }
}

impl CpuIdDump {
    /// The store obeys its shape rules and its bookkeeping leaves are current.
    pub open spec fn wf(&self) -> bool {
        &&& shapes_ok(self@)
        &&& bookkept(self@)
        &&& self@.dom().finite()
    }

    /// An empty store.
    pub fn new() -> (r: Self)
        ensures
            r@ == Map::<u32, LeafShape>::empty(),
            r.wf(),
    {
        let r = CpuIdDump { leaves: HashMap::new() };
        assert(r@ =~= Map::<u32, LeafShape>::empty());
        r
    }

    /// The largest leaf of each namespace, or `None` for an empty one.
    fn namespace_maxima(&self) -> (r: (Option<u32>, Option<u32>, Option<u32>))
        ensures
            namespace_result(self@, STANDARD_BASE, r.0),
            namespace_result(self@, HYPERVISOR_BASE, r.1),
            namespace_result(self@, EXTENDED_BASE, r.2),
    {
        let mut max_standard: Option<u32> = None;
        let mut max_hv: Option<u32> = None;
        let mut max_extended: Option<u32> = None;
        for k in it: self.leaves.keys()
            invariant
                forall|k: u32|
                    self@.contains_key(k) ==> exists|j: int|
                        0 <= j < it.seq().len() && *it.seq()[j] == k,
                it.index() <= it.seq().len(),
                partial_max(self@, STANDARD_BASE, max_standard, it.seq(), it.index()),
                partial_max(self@, HYPERVISOR_BASE, max_hv, it.seq(), it.index()),
                partial_max(self@, EXTENDED_BASE, max_extended, it.seq(), it.index()),
        {
            let k = *k;
            if self.leaves.contains_key(&k) {
                if k < HYPERVISOR_BASE {
                    max_standard = Some(max_of(max_standard, k));
                } else if k < EXTENDED_BASE {
                    max_hv = Some(max_of(max_hv, k));
                } else if k < 0xc000_0000 {
                    max_extended = Some(max_of(max_extended, k));
                }
            }
        }
        (max_standard, max_hv, max_extended)
    }

    /// Sets `eax` of the bookkeeping leaf `base`, creating it as a zero
    /// scalar first if it is absent.
    fn set_base_eax(&mut self, base: u32, eax: u32)
        requires
            is_base(base),
            shapes_ok(old(self)@),
        ensures
            final(self)@ == old(self)@.insert(
                base,
                LeafShape::Scalar(with_eax(scalar_at(old(self)@, base), eax)),
            ),
    {
        let prior = match self.leaves.get(&base) {
            Some(LeafOrSubleaves::Leaf(q)) => *q,
            _ => CpuIdResult::empty(),
        };
        let q = CpuIdResult { eax, ebx: prior.ebx, ecx: prior.ecx, edx: prior.edx };
        self.leaves.insert(base, LeafOrSubleaves::Leaf(q));
        assert(self@ =~= old(self)@.insert(base, LeafShape::Scalar(with_eax(scalar_at(old(self)@, base), eax))));
    }

    /// Brings the three bookkeeping leaves up to date.
    fn update_max_leaves(&mut self)
        requires
            shapes_ok(old(self)@),
            old(self)@.dom().finite(),
        ensures
            final(self)@ == bookkeep(old(self)@),
            final(self).wf(),
    {
        let ghost m = self@;
        let (max_standard, max_hv, max_extended) = self.namespace_maxima();
        if let Some(eax) = max_standard {
            proof { lemma_namespace_max_unique(m, STANDARD_BASE, eax); }
            self.set_base_eax(STANDARD_BASE, eax);
        }
        if let Some(eax) = max_hv {
            proof { lemma_namespace_max_unique(m, HYPERVISOR_BASE, eax); }
            self.set_base_eax(HYPERVISOR_BASE, eax);
        }
        if let Some(eax) = max_extended {
            proof { lemma_namespace_max_unique(m, EXTENDED_BASE, eax); }
            self.set_base_eax(EXTENDED_BASE, eax);
        }
        assert(self@ =~= bookkeep(m));
        proof {
            lemma_bookkeep_consistent(m);
        }
    }
}

impl CpuIdDump {
    /// Stores `bits` as the scalar answer of `leaf`, or removes `leaf` when
    /// `bits` is `None`. Writing leaf 0x1 first copies its mirrored `edx` bits
    /// into an existing leaf 0x8000_0001; writing leaf 0x8000_0001 first takes
    /// those bits from an existing leaf 0x1; either write is refused while
    /// the other of the two leaves is a subleaf table. The bookkeeping leaves
    /// are then brought up to date.
    pub fn set_leaf(&mut self, leaf: u32, bits: Option<CpuIdResult>)
        requires
            old(self).wf(),
            !is_table(old(self)@, leaf),
            bits is Some && leaf == FEATURE_LEAF ==> !is_table(old(self)@, EXTENDED_FEATURE_LEAF),
            bits is Some && leaf == EXTENDED_FEATURE_LEAF ==> !is_table(old(self)@, FEATURE_LEAF),
        ensures
            final(self)@ == bookkeep(write_leaf(old(self)@, leaf, bits)),
            final(self).wf(),
    {
        let ghost m = self@;
        match bits {
            Some(q) => {
                let mut q = q;
                if leaf == FEATURE_LEAF {
                    let ext = match self.leaves.get(&EXTENDED_FEATURE_LEAF) {
                        Some(LeafOrSubleaves::Leaf(e)) => Some(*e),
                        _ => None,
                    };
                    if let Some(e) = ext {
                        let edx = (e.edx & !MIRROR_MASK) | (q.edx & MIRROR_MASK);
                        let e2 = CpuIdResult { eax: e.eax, ebx: e.ebx, ecx: e.ecx, edx };
                        self.leaves.insert(EXTENDED_FEATURE_LEAF, LeafOrSubleaves::Leaf(e2));
                    }
                } else if leaf == EXTENDED_FEATURE_LEAF {
                    let prior = match self.leaves.get(&FEATURE_LEAF) {
                        Some(LeafOrSubleaves::Leaf(p)) => Some(*p),
                        _ => None,
                    };
                    if let Some(p) = prior {
                        q.edx = (q.edx & !MIRROR_MASK) | (p.edx & MIRROR_MASK);
                    }
                }
                self.leaves.insert(leaf, LeafOrSubleaves::Leaf(q));
            },
            None => {
                self.leaves.remove(&leaf);
            },
        }
        assert(self@ =~= write_leaf(m, leaf, bits));
        self.update_max_leaves();
    }

    /// Stores `bits` as the answer of `leaf` at `subleaf`, creating the
    /// leaf's subleaf table if needed, or removes that one subleaf when `bits`
    /// is `None`. The bookkeeping leaves are then brought up to date.
    pub fn set_subleaf(&mut self, leaf: u32, subleaf: u32, bits: Option<CpuIdResult>)
        requires
            old(self).wf(),
            !is_scalar(old(self)@, leaf),
            bits is Some ==> !is_base(leaf),
        ensures
            final(self)@ == bookkeep(write_subleaf(old(self)@, leaf, subleaf, bits)),
            final(self).wf(),
    {
        let ghost m = self@;
        match self.leaves.remove(&leaf) {
            Some(LeafOrSubleaves::Subleaf(table)) => {
                let mut table = table;
                match bits {
                    Some(q) => {
                        table.insert(subleaf, q);
                    },
                    None => {
                        table.remove(&subleaf);
                    },
                }
                self.leaves.insert(leaf, LeafOrSubleaves::Subleaf(table));
            },
            Some(LeafOrSubleaves::Leaf(q)) => {
                // Excluded by the precondition: the leaf is not a scalar.
                self.leaves.insert(leaf, LeafOrSubleaves::Leaf(q));
            },
            None => {
                if let Some(q) = bits {
                    let mut table: HashMap<u32, CpuIdResult> = HashMap::new();
                    table.insert(subleaf, q);
                    self.leaves.insert(leaf, LeafOrSubleaves::Subleaf(table));
                }
            },
        }
        assert(self@ =~= write_subleaf(m, leaf, subleaf, bits));
        self.update_max_leaves();
    }
}

impl CpuIdReader for CpuIdDump {
    open spec fn answers(&self, leaf: u32, subleaf: Option<u32>, r: CpuIdResult) -> bool {
        r == spec_query(self@, leaf, subleaf)
    }

    fn cpuid1(&self, leaf: u32) -> (r: CpuIdResult) {
        match self.leaves.get(&leaf) {
            Some(LeafOrSubleaves::Leaf(res)) => *res,
            Some(LeafOrSubleaves::Subleaf(subleaves)) => match subleaves.get(&0) {
                Some(res) => *res,
                None => CpuIdResult::empty(),
            },
            None => CpuIdResult::empty(),
        }
    }

    fn cpuid2(&self, leaf: u32, subleaf: u32) -> (r: CpuIdResult) {
        match self.leaves.get(&leaf) {
            Some(LeafOrSubleaves::Leaf(_)) => CpuIdResult::empty(),
            Some(LeafOrSubleaves::Subleaf(subleaves)) => match subleaves.get(&subleaf) {
                Some(res) => *res,
                None => CpuIdResult::empty(),
            },
            None => CpuIdResult::empty(),
        }
    }
}

/// One stored answer: leaf, subleaf (`None` for a scalar) and quad.
pub type DumpEntry = (u32, Option<u32>, CpuIdResult);

/// Every answer the store holds, one entry per scalar leaf and one per
/// subleaf of a table.
pub open spec fn entries(m: Map<u32, LeafShape>) -> Set<DumpEntry> {
    Set::new(
        |t: DumpEntry|
            match t.1 {
                None => is_scalar(m, t.0) && scalar_at(m, t.0) == t.2,
                Some(s) => is_table(m, t.0) && table_at(m, t.0).contains_key(s) && table_at(m, t.0)[s]
                    == t.2,
            },
    )
}

/// The entries of one leaf's subleaf table.
pub open spec fn table_entries(leaf: u32, t: Map<u32, CpuIdResult>) -> Set<DumpEntry> {
    Set::new(
        |e: DumpEntry|
            e.0 == leaf && match e.1 {
                Some(s) => t.contains_key(s) && t[s] == e.2,
                None => false,
            },
    )
}

/// Drains a store, handing out its answers one at a time in no particular
/// order.
pub struct CpuIdDumpIter {
    dump: CpuIdDump,
    leaf: u32,
    current_subleaf: Option<HashMap<u32, CpuIdResult>>,
}

impl View for CpuIdDumpIter {
    type V = Set<DumpEntry>;

    /// The answers not yet handed out.
    closed spec fn view(&self) -> Set<DumpEntry> {
        match self.current_subleaf {
            Some(t) => entries(self.dump@).union(table_entries(self.leaf, t@)),
            None => entries(self.dump@),
        }
    }
}

impl CpuIdDumpIter {
    pub closed spec fn inv(&self) -> bool {
        &&& self.dump@.dom().finite()
        &&& self.current_subleaf is Some ==> !self.dump@.contains_key(self.leaf)
    }

    /// Hands out one answer not yet handed out, or `None` once all are.
    pub fn next(&mut self) -> (r: Option<DumpEntry>)
        requires
            old(self).inv(),
        ensures
            final(self).inv(),
            r matches Some(t) ==> old(self)@.contains(t) && final(self)@ == old(self)@.remove(t),
            r is None ==> old(self)@ == Set::<DumpEntry>::empty() && final(self)@ == old(self)@,
    {
        let ghost start = self@;
        loop
            invariant
                self.inv(),
                self@ == start,
                start == old(self)@,
            decreases self.dump@.dom().len(), if self.current_subleaf is Some { 1int } else { 0int },
        {
            let taken = self.current_subleaf.take();
            if let Some(subleaves) = taken {
                let mut subleaves = subleaves;
                match any_key(&subleaves) {
                    Some(subleaf) => {
                        let ghost before = subleaves@;
                        let regs = match subleaves.remove(&subleaf) {
                            Some(q) => q,
                            None => CpuIdResult::empty(),
                        };
                        self.current_subleaf = Some(subleaves);
                        let t = (self.leaf, Some(subleaf), regs);
                        proof {
                            assert(table_entries(self.leaf, before).contains(t));
                            assert(table_entries(self.leaf, subleaves@) =~= table_entries(self.leaf, before).remove(t));
                            assert(!entries(self.dump@).contains(t));
                            assert(self@ =~= start.remove(t));
                        }
                        return Some(t);
                    },
                    None => {
                        proof {
                            assert(table_entries(self.leaf, subleaves@) =~= Set::<DumpEntry>::empty());
                            assert(self@ =~= start);
                        }
                    },
                }
            }
            assert(self@ == start);
            let ghost before = self.dump@;
            match any_key(&self.dump.leaves) {
                None => {
                    proof {
                        assert(self.dump@.dom() =~= Set::<u32>::empty());
                        assert(entries(self.dump@) =~= Set::<DumpEntry>::empty());
                    }
                    return None;
                },
                Some(leaf) => {
                    self.leaf = leaf;
                    let entry = self.dump.leaves.remove(&leaf);
                    proof {
                        assert(self.dump@ =~= before.remove(leaf));
                    }
                    match entry {
                        Some(LeafOrSubleaves::Leaf(regs)) => {
                            let t = (leaf, None, regs);
                            proof {
                                assert(entries(before).contains(t));
                                assert(entries(self.dump@) =~= entries(before).remove(t));
                            }
                            return Some(t);
                        },
                        Some(LeafOrSubleaves::Subleaf(subleaves)) => {
                            self.current_subleaf = Some(subleaves);
                            proof {
                                assert(entries(before) =~= entries(self.dump@).union(table_entries(leaf, subleaves@)));
                                assert(self@ =~= start);
                            }
                        },
                        None => {
                            proof {
                                assert(self@ =~= start);
                            }
                        },
                    }
                },
            }
        }
    }
}

impl CpuIdDump {
    /// A drain of every answer that the store holds.
    pub fn into_iter(self) -> (r: CpuIdDumpIter)
        requires
            self.wf(),
        ensures
            r.inv(),
            r@ == entries(self@),
    {
        CpuIdDumpIter { dump: self, leaf: 0, current_subleaf: None }
    }
}

/// Some key of `m`, or `None` when `m` is empty.
fn any_key<V>(m: &HashMap<u32, V>) -> (r: Option<u32>)
    ensures
        r matches Some(k) ==> m@.contains_key(k),
        r is None ==> m@.dom() == Set::<u32>::empty(),
{
    let mut found: Option<u32> = None;
    for k in it: m.keys()
        invariant
            forall|k: u32|
                m@.contains_key(k) ==> exists|j: int| 0 <= j < it.seq().len() && *it.seq()[j] == k,
            it.index() <= it.seq().len(),
            found matches Some(x) ==> m@.contains_key(x),
            found is None ==> forall|j: int| 0 <= j < it.index() ==> !m@.contains_key(*it.seq()[j]),
    {
        if found.is_none() && m.contains_key(k) {
            found = Some(*k);
        }
    }
    if found.is_none() {
        assert(m@.dom() =~= Set::<u32>::empty());
    }
    found
}

/// `r` is the largest leaf of `base`'s namespace, or `None` if it is empty.
pub open spec fn namespace_result(m: Map<u32, LeafShape>, base: u32, r: Option<u32>) -> bool {
    match r {
        Some(x) => is_namespace_max(m, base, x),
        None => !namespace_nonempty(m, base),
    }
}

spec fn partial_max(m: Map<u32, LeafShape>, base: u32, r: Option<u32>, seq: Seq<&u32>, n: int) -> bool {
    &&& r matches Some(x) ==> m.contains_key(x) && in_namespace(x, base)
    &&& r matches Some(x) ==> forall|j: int|
        0 <= j < n && m.contains_key(*seq[j]) && in_namespace(*seq[j], base) ==> *seq[j] <= x
    &&& r is None ==> forall|j: int|
        0 <= j < n && m.contains_key(*seq[j]) ==> !in_namespace(*seq[j], base)
}

fn max_of(prev: Option<u32>, k: u32) -> (r: u32)
    ensures
        prev is None ==> r == k,
        prev matches Some(p) ==> r == if k > p { k } else { p },
{
    match prev {
        None => k,
        Some(p) => if k > p {
            k
        } else {
            p
        },
    }
}

/// Bookkeeping changes no leaf other than the three bookkeeping leaves.
pub proof fn lemma_bookkeep_keeps_other_leaves(m: Map<u32, LeafShape>, k: u32)
    requires
        !is_base(k),
    ensures
        bookkeep(m).contains_key(k) == m.contains_key(k),
        m.contains_key(k) ==> bookkeep(m)[k] == m[k],
        spec_query1(bookkeep(m), k) == spec_query1(m, k),
{
}

/// Reading a leaf back after a scalar write returns the written quad. The
/// exceptions are the bookkeeping leaves, whose `eax` the store owns, and
/// leaf 0x8000_0001 while leaf 0x1 is present, whose mirrored bits come from
/// leaf 0x1.
pub proof fn lemma_round_trip(m: Map<u32, LeafShape>, leaf: u32, q: CpuIdResult)
    requires
        shapes_ok(m),
        !is_table(m, leaf),
        !is_base(leaf),
        leaf == EXTENDED_FEATURE_LEAF ==> !m.contains_key(FEATURE_LEAF),
    ensures
        spec_query1(bookkeep(write_leaf(m, leaf, Some(q))), leaf) == q,
{
    lemma_bookkeep_keeps_other_leaves(write_leaf(m, leaf, Some(q)), leaf);
}

/// Mirroring: after a write of leaf 0x1 while leaf 0x8000_0001 is present,
/// and after a write of leaf 0x8000_0001 while leaf 0x1 is present, the
/// mirrored `edx` bits of the two leaves agree, and they are those of the
/// leaf 0x1 that was written or kept; the other bits of leaf 0x8000_0001
/// are its own.
pub proof fn lemma_mirroring(m: Map<u32, LeafShape>, q: CpuIdResult)
    requires
        shapes_ok(m),
        is_scalar(m, FEATURE_LEAF),
        is_scalar(m, EXTENDED_FEATURE_LEAF),
    ensures
        ({
            let a = bookkeep(write_leaf(m, FEATURE_LEAF, Some(q)));
            &&& spec_query1(a, EXTENDED_FEATURE_LEAF).edx & MIRROR_MASK == q.edx & MIRROR_MASK
            &&& spec_query1(a, EXTENDED_FEATURE_LEAF).edx & !MIRROR_MASK
                == spec_query1(m, EXTENDED_FEATURE_LEAF).edx & !MIRROR_MASK
            &&& spec_query1(a, FEATURE_LEAF) == q
        }),
        ({
            let b = bookkeep(write_leaf(m, EXTENDED_FEATURE_LEAF, Some(q)));
            &&& spec_query1(b, EXTENDED_FEATURE_LEAF).edx & MIRROR_MASK
                == spec_query1(b, FEATURE_LEAF).edx & MIRROR_MASK
            &&& spec_query1(b, FEATURE_LEAF) == spec_query1(m, FEATURE_LEAF)
            &&& spec_query1(b, EXTENDED_FEATURE_LEAF).edx & !MIRROR_MASK == q.edx & !MIRROR_MASK
        }),
{
    let wa = write_leaf(m, FEATURE_LEAF, Some(q));
    let wb = write_leaf(m, EXTENDED_FEATURE_LEAF, Some(q));
    lemma_bookkeep_keeps_other_leaves(wa, FEATURE_LEAF);
    lemma_bookkeep_keeps_other_leaves(wa, EXTENDED_FEATURE_LEAF);
    lemma_bookkeep_keeps_other_leaves(wb, FEATURE_LEAF);
    lemma_bookkeep_keeps_other_leaves(wb, EXTENDED_FEATURE_LEAF);
    let e = scalar_at(m, EXTENDED_FEATURE_LEAF).edx;
    let f = scalar_at(m, FEATURE_LEAF).edx;
    lemma_mirror_bits(e, q.edx);
    lemma_mirror_bits(q.edx, f);
}

/// The mirrored bits come from `source`, the others from `target`.
pub proof fn lemma_mirror_bits(target: u32, source: u32)
    ensures
        mirror_edx(target, source) & MIRROR_MASK == source & MIRROR_MASK,
        mirror_edx(target, source) & !MIRROR_MASK == target & !MIRROR_MASK,
{
    assert(((target & !0b0000_0001_1000_0011_1111_0011_1111_1111u32) | (source
        & 0b0000_0001_1000_0011_1111_0011_1111_1111u32))
        & 0b0000_0001_1000_0011_1111_0011_1111_1111u32 == source
        & 0b0000_0001_1000_0011_1111_0011_1111_1111u32) by (bit_vector);
    assert(((target & !0b0000_0001_1000_0011_1111_0011_1111_1111u32) | (source
        & 0b0000_0001_1000_0011_1111_0011_1111_1111u32))
        & !0b0000_0001_1000_0011_1111_0011_1111_1111u32 == target
        & !0b0000_0001_1000_0011_1111_0011_1111_1111u32) by (bit_vector);
}

/// What bookkeeping does to the leaf `base` of one namespace: if the
/// namespace holds a leaf, `base` becomes a scalar whose `eax` is the
/// namespace's largest leaf and whose other registers are those it had (zero
/// if it was absent); if the namespace is empty, `base` is left as it was
/// (absent stays absent). Leaves that are not bookkeeping leaves are kept.
pub proof fn lemma_bookkeep_effect(m: Map<u32, LeafShape>, base: u32, k: u32)
    requires
        m.dom().finite(),
        is_base(base),
        !is_base(k),
    ensures
        namespace_nonempty(m, base) ==> {
            &&& bookkeep(m).contains_key(base)
            &&& is_namespace_max(m, base, namespace_max(m, base))
            &&& bookkeep(m)[base] == LeafShape::Scalar(
                with_eax(scalar_at(m, base), namespace_max(m, base)),
            )
        },
        !namespace_nonempty(m, base) ==> {
            &&& bookkeep(m).contains_key(base) == m.contains_key(base)
            &&& m.contains_key(base) ==> bookkeep(m)[base] == m[base]
        },
        bookkeep(m).contains_key(k) == m.contains_key(k),
        m.contains_key(k) ==> bookkeep(m)[k] == m[k],
{
    if namespace_nonempty(m, base) {
        lemma_max_exists(m, base);
        let x = choose|x: u32| is_namespace_max(m, base, x);
        lemma_namespace_max_unique(m, base, x);
    }
}

/// Writing leaf 0x1 and leaf 0x8000_0001 into a store that holds neither
/// gives the same store in either order: leaf 0x1 is as written, and leaf
/// 0x8000_0001 carries leaf 0x1's mirrored `edx` bits and its own others.
pub proof fn lemma_write_order(m: Map<u32, LeafShape>, q: CpuIdResult, e: CpuIdResult)
    requires
        shapes_ok(m),
        m.dom().finite(),
        !m.contains_key(FEATURE_LEAF),
        !m.contains_key(EXTENDED_FEATURE_LEAF),
    ensures
        ({
            let a = bookkeep(
                write_leaf(bookkeep(write_leaf(m, EXTENDED_FEATURE_LEAF, Some(e))), FEATURE_LEAF, Some(q)),
            );
            let b = bookkeep(
                write_leaf(bookkeep(write_leaf(m, FEATURE_LEAF, Some(q))), EXTENDED_FEATURE_LEAF, Some(e)),
            );
            &&& a == b
            &&& spec_query1(a, FEATURE_LEAF) == q
            &&& spec_query1(a, EXTENDED_FEATURE_LEAF) == with_edx(e, mirror_edx(e.edx, q.edx))
        }),
{
    let wa1 = write_leaf(m, EXTENDED_FEATURE_LEAF, Some(e));
    let ba1 = bookkeep(wa1);
    let wa2 = write_leaf(ba1, FEATURE_LEAF, Some(q));
    let wb1 = write_leaf(m, FEATURE_LEAF, Some(q));
    let bb1 = bookkeep(wb1);
    let wb2 = write_leaf(bb1, EXTENDED_FEATURE_LEAF, Some(e));
    let mir = LeafShape::Scalar(with_edx(e, mirror_edx(e.edx, q.edx)));
    lemma_bookkeep_keeps_other_leaves(wa1, EXTENDED_FEATURE_LEAF);
    lemma_bookkeep_keeps_other_leaves(wb1, FEATURE_LEAF);
    lemma_bookkeep_keeps_other_leaves(wa1, FEATURE_LEAF);
    lemma_bookkeep_keeps_other_leaves(wb1, EXTENDED_FEATURE_LEAF);
    assert(wa2 == ba1.insert(EXTENDED_FEATURE_LEAF, mir).insert(FEATURE_LEAF, LeafShape::Scalar(q)));
    assert(wb2 == bb1.insert(EXTENDED_FEATURE_LEAF, mir));
    lemma_bookkeep_consistent(wa1);
    lemma_bookkeep_consistent(wb1);
    assert forall|k: u32|
        !is_base(k) implies (#[trigger] wa2.contains_key(k) == wb2.contains_key(k) && (
        wa2.contains_key(k) ==> wa2[k] == wb2[k])) by {
        lemma_bookkeep_keeps_other_leaves(wa1, k);
        lemma_bookkeep_keeps_other_leaves(wb1, k);
    }
    assert forall|b: u32| is_base(b) implies with_eax(#[trigger] scalar_at(wa2, b), 0) == with_eax(
        scalar_at(wb2, b),
        0,
    ) by {
        lemma_bases_apart(b);
        assert(scalar_at(wa2, b) == scalar_at(ba1, b));
        assert(scalar_at(wb2, b) == scalar_at(bb1, b));
        assert(scalar_at(wa1, b) == scalar_at(m, b));
        assert(scalar_at(wb1, b) == scalar_at(m, b));
    }
    assert forall|b: u32| is_base(b) && #[trigger] wa2.contains_key(b) implies wb2.contains_key(b)
        || exists|k: u32| !is_base(k) && wa2.contains_key(k) && in_namespace(k, b) by {
        lemma_bases_apart(b);
        if !m.contains_key(b) {
            assert(namespace_nonempty(wa1, b));
            let k = choose|k: u32| wa1.contains_key(k) && in_namespace(k, b);
            assert(!is_base(k));
            lemma_bookkeep_keeps_other_leaves(wa1, k);
            assert(wa2.contains_key(k));
        } else {
            assert(wb1.contains_key(b));
        }
    }
    assert forall|b: u32| is_base(b) && #[trigger] wb2.contains_key(b) implies wa2.contains_key(b)
        || exists|k: u32| !is_base(k) && wb2.contains_key(k) && in_namespace(k, b) by {
        lemma_bases_apart(b);
        if !m.contains_key(b) {
            assert(namespace_nonempty(wb1, b));
            let k = choose|k: u32| wb1.contains_key(k) && in_namespace(k, b);
            assert(!is_base(k));
            lemma_bookkeep_keeps_other_leaves(wb1, k);
            assert(wb2.contains_key(k));
        } else {
            assert(wa1.contains_key(b));
        }
    }
    lemma_bookkeep_agrees(wa2, wb2);
    lemma_bookkeep_keeps_other_leaves(wa2, FEATURE_LEAF);
    lemma_bookkeep_keeps_other_leaves(wa2, EXTENDED_FEATURE_LEAF);
}

/// Repeating a scalar write of a leaf that is not a bookkeeping leaf leaves
/// the store as the first write made it.
pub proof fn lemma_write_repeat(m: Map<u32, LeafShape>, leaf: u32, v: CpuIdResult)
    requires
        shapes_ok(m),
        m.dom().finite(),
        !is_base(leaf),
    ensures
        ({
            let once = bookkeep(write_leaf(m, leaf, Some(v)));
            bookkeep(write_leaf(once, leaf, Some(v))) == once
        }),
{
    let w = write_leaf(m, leaf, Some(v));
    let b = bookkeep(w);
    let w2 = write_leaf(b, leaf, Some(v));
    lemma_bookkeep_consistent(w);
    lemma_mirror_bits_again(scalar_at(m, EXTENDED_FEATURE_LEAF).edx, v.edx);
    lemma_bookkeep_keeps_other_leaves(w, FEATURE_LEAF);
    lemma_bookkeep_keeps_other_leaves(w, EXTENDED_FEATURE_LEAF);
    lemma_bookkeep_keeps_other_leaves(w, leaf);
    assert forall|k: u32|
        !is_base(k) implies (#[trigger] w2.contains_key(k) == w.contains_key(k) && (
        w2.contains_key(k) ==> w2[k] == w[k])) by {
        lemma_bookkeep_keeps_other_leaves(w, k);
    }
    assert forall|c: u32| is_base(c) implies with_eax(#[trigger] scalar_at(w2, c), 0) == with_eax(
        scalar_at(w, c),
        0,
    ) by {
        assert(scalar_at(w2, c) == scalar_at(b, c));
    }
    assert forall|c: u32| is_base(c) && #[trigger] w2.contains_key(c) implies w.contains_key(c)
        || exists|k: u32| !is_base(k) && w2.contains_key(k) && in_namespace(k, c) by {
        lemma_bases_apart(c);
        if !w.contains_key(c) {
            let k = choose|k: u32| w.contains_key(k) && in_namespace(k, c);
            lemma_bookkeep_keeps_other_leaves(w, k);
            assert(w2.contains_key(k));
        }
    }
    lemma_bookkeep_agrees(w2, w);
}

/// Mirroring the same source bits a second time changes nothing.
pub proof fn lemma_mirror_bits_again(target: u32, source: u32)
    ensures
        mirror_edx(mirror_edx(target, source), source) == mirror_edx(target, source),
{
    assert((((target & !0b0000_0001_1000_0011_1111_0011_1111_1111u32) | (source
        & 0b0000_0001_1000_0011_1111_0011_1111_1111u32))
        & !0b0000_0001_1000_0011_1111_0011_1111_1111u32) | (source
        & 0b0000_0001_1000_0011_1111_0011_1111_1111u32) == (target
        & !0b0000_0001_1000_0011_1111_0011_1111_1111u32) | (source
        & 0b0000_0001_1000_0011_1111_0011_1111_1111u32)) by (bit_vector);
}

/// Bookkeeping gives the same store for two maps that hold the same
/// non-bookkeeping leaves, whose bookkeeping leaves agree in every register
/// but `eax`, and in which a bookkeeping leaf present in one is present in the
/// other or has a non-bookkeeping leaf of its namespace beside it.
pub proof fn lemma_bookkeep_agrees(w1: Map<u32, LeafShape>, w2: Map<u32, LeafShape>)
    requires
        w1.dom().finite(),
        w2.dom().finite(),
        forall|k: u32|
            !is_base(k) ==> (#[trigger] w1.contains_key(k) == w2.contains_key(k) && (
            w1.contains_key(k) ==> w1[k] == w2[k])),
        forall|b: u32|
            is_base(b) ==> with_eax(#[trigger] scalar_at(w1, b), 0) == with_eax(scalar_at(w2, b), 0),
        forall|b: u32|
            is_base(b) && #[trigger] w1.contains_key(b) ==> w2.contains_key(b) || exists|k: u32|
                !is_base(k) && w1.contains_key(k) && in_namespace(k, b),
        forall|b: u32|
            is_base(b) && #[trigger] w2.contains_key(b) ==> w1.contains_key(b) || exists|k: u32|
                !is_base(k) && w2.contains_key(k) && in_namespace(k, b),
    ensures
        bookkeep(w1) == bookkeep(w2),
{
    assert forall|b: u32| is_base(b) implies (namespace_nonempty(w1, b) <==> namespace_nonempty(w2, b))
        && (namespace_nonempty(w1, b) ==> namespace_max(w1, b) == namespace_max(w2, b)) by {
        lemma_bases_apart(b);
        if namespace_nonempty(w1, b) {
            lemma_max_exists(w1, b);
            let x = choose|x: u32| is_namespace_max(w1, b, x);
            lemma_namespace_max_unique(w1, b, x);
            if !is_base(x) {
                assert(w2.contains_key(x));
            } else {
                assert(x == b);
                if !w2.contains_key(b) {
                    let k = choose|k: u32| !is_base(k) && w1.contains_key(k) && in_namespace(k, b);
                    assert(k <= x);
                }
            }
            assert forall|k: u32| w2.contains_key(k) && in_namespace(k, b) implies k <= x by {
                if !is_base(k) {
                    assert(w1.contains_key(k));
                }
            }
            assert(is_namespace_max(w2, b, x));
            lemma_namespace_max_unique(w2, b, x);
        }
        if namespace_nonempty(w2, b) {
            let k = choose|k: u32| w2.contains_key(k) && in_namespace(k, b);
            if !is_base(k) {
                assert(w1.contains_key(k));
            } else if !w1.contains_key(b) {
                let j = choose|j: u32| !is_base(j) && w2.contains_key(j) && in_namespace(j, b);
                assert(w1.contains_key(j));
            }
        }
    }
    assert forall|k: u32| #[trigger] bookkeep(w1).contains_key(k) == bookkeep(w2).contains_key(k) && (
    bookkeep(w1).contains_key(k) ==> bookkeep(w1)[k] == bookkeep(w2)[k]) by {
        if is_base(k) {
            lemma_bases_apart(k);
            assert(w1.contains_key(k) ==> namespace_nonempty(w1, k));
            assert(w2.contains_key(k) ==> namespace_nonempty(w2, k));
            if namespace_nonempty(w1, k) {
                assert(with_eax(scalar_at(w1, k), namespace_max(w1, k)) == with_eax(
                    with_eax(scalar_at(w1, k), 0),
                    namespace_max(w1, k),
                ));
                assert(with_eax(scalar_at(w2, k), namespace_max(w2, k)) == with_eax(
                    with_eax(scalar_at(w2, k), 0),
                    namespace_max(w2, k),
                ));
            }
        }
    }
    assert(bookkeep(w1) =~= bookkeep(w2));
}

/// Each bookkeeping leaf lies in its own namespace and in no other.
pub proof fn lemma_bases_apart(b: u32)
    requires
        is_base(b),
    ensures
        in_namespace(b, b),
        forall|c: u32| is_base(c) && #[trigger] in_namespace(c, b) ==> c == b,
{
}

/// In a well-formed store, the `eax` of each bookkeeping leaf is the largest
/// leaf present in its namespace, whenever that namespace holds any leaf.
pub proof fn lemma_bookkeeping(d: &CpuIdDump, base: u32)
    requires
        d.wf(),
        is_base(base),
        namespace_nonempty(d@, base),
    ensures
        is_namespace_max(d@, base, spec_query1(d@, base).eax),
        d@.contains_key(base),
{
}

/// A leaf the store does not hold answers every query with the zero quad,
/// so asking again gives the same answer.
pub proof fn lemma_absent_leaf_is_zero(m: Map<u32, LeafShape>, leaf: u32, subleaf: u32)
    requires
        !m.contains_key(leaf),
    ensures
        spec_query1(m, leaf) == zero_quad(),
        spec_query2(m, leaf, subleaf) == zero_quad(),
{
}

} // verus!
