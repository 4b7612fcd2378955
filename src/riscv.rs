//! RISC-V Sv39/Sv48 page table entries for RV64.
use vstd::prelude::*;

use crate::flags::{has_bits, MappingFlags};
use crate::{GenericPTE, PhysAddr};

verus! {

/// Hardware flag bits of an RV64 page table entry.
#[derive(Clone, Copy, Debug, PartialEq, Eq, Structural)]
pub struct PTEFlags(pub usize);

impl PTEFlags {
    /// Whether the entry is valid.
    pub const V: usize = 0x1;
    /// Whether the page is readable.
    pub const R: usize = 0x2;
    /// Whether the page is writable.
    pub const W: usize = 0x4;
    /// Whether the page is executable.
    pub const X: usize = 0x8;
    /// Whether the page is accessible to user mode.
    pub const U: usize = 0x10;
    /// Designates a global mapping.
    pub const G: usize = 0x20;
    /// The page has been read, written or fetched from since the bit was cleared.
    pub const A: usize = 0x40;
    /// The page has been written since the bit was cleared.
    pub const D: usize = 0x80;
    /// First bit reserved for supervisor software; it carries copy-on-write.
    pub const RSW1: usize = 0x100;
    /// Second bit reserved for supervisor software.
    pub const RSW2: usize = 0x200;
    /// Every bit that names a flag.
    pub const ALL: usize = 0x3ff;

    /// No flag.
    pub fn empty() -> (r: PTEFlags)
        ensures
            r.0 == 0,
    {
        PTEFlags(0)
    }

    /// The raw bits.
    pub fn bits(&self) -> (r: usize)
        ensures
            r == self.0,
    {
        self.0
    }

    /// The flags named by `bits`; bits that name no flag are dropped.
    pub fn from_bits_truncate(bits: usize) -> (r: PTEFlags)
        ensures
            r.0 == bits & Self::ALL,
    {
        PTEFlags(bits & Self::ALL)
    }

    /// Whether every flag of `other` is set in `self`.
    pub fn contains(&self, other: PTEFlags) -> (r: bool)
        ensures
            r == has_bits(self.0, other.0),
    {
        self.0 & other.0 == other.0
    }

    /// Whether some flag of `other` is set in `self`.
    pub fn intersects(&self, other: PTEFlags) -> (r: bool)
        ensures
            r == (self.0 & other.0 != 0),
    {
        self.0 & other.0 != 0
    }

    /// The flags set in `self` or in `other`.
    pub fn union(self, other: PTEFlags) -> (r: PTEFlags)
        ensures
            r.0 == self.0 | other.0,
    {
        PTEFlags(self.0 | other.0)
    }
}

/// `bit` if `cond` holds, else no bit.
pub open spec fn bit_if(cond: bool, bit: usize) -> usize {
    if cond {
        bit
    } else {
        0
    }
}

/// The generic flags that the hardware flags `p` stand for: none unless `p`
/// is valid, else one generic flag for each permission bit and for the
/// copy-on-write bit.
pub open spec fn mapping_of_pte(p: usize) -> usize {
    if !has_bits(p, PTEFlags::V) {
        0
    } else {
        bit_if(has_bits(p, PTEFlags::R), MappingFlags::READ)
            | bit_if(has_bits(p, PTEFlags::W), MappingFlags::WRITE)
            | bit_if(has_bits(p, PTEFlags::X), MappingFlags::EXECUTE)
            | bit_if(has_bits(p, PTEFlags::U), MappingFlags::USER)
            | bit_if(has_bits(p, PTEFlags::RSW1), MappingFlags::COW)
    }
}

/// The hardware flags for the generic flags `m`: none for the empty set, else
/// the valid bit and one hardware bit for each permission and for copy-on-write.
pub open spec fn pte_of_mapping(m: usize) -> usize {
    if m == 0 {
        0
    } else {
        PTEFlags::V
            | bit_if(has_bits(m, MappingFlags::READ), PTEFlags::R)
            | bit_if(has_bits(m, MappingFlags::WRITE), PTEFlags::W)
            | bit_if(has_bits(m, MappingFlags::EXECUTE), PTEFlags::X)
            | bit_if(has_bits(m, MappingFlags::USER), PTEFlags::U)
            | bit_if(has_bits(m, MappingFlags::COW), PTEFlags::RSW1)
    }
}

impl From<PTEFlags> for MappingFlags {
    fn from(f: PTEFlags) -> (r: MappingFlags)
        ensures
            r.0 == mapping_of_pte(f.0),
    {
        if !f.contains(PTEFlags(PTEFlags::V)) {
            return MappingFlags::empty();
        }
        let read = if f.contains(PTEFlags(PTEFlags::R)) { MappingFlags::READ } else { 0 };
        let write = if f.contains(PTEFlags(PTEFlags::W)) { MappingFlags::WRITE } else { 0 };
        let execute = if f.contains(PTEFlags(PTEFlags::X)) { MappingFlags::EXECUTE } else { 0 };
        let user = if f.contains(PTEFlags(PTEFlags::U)) { MappingFlags::USER } else { 0 };
        let cow = if f.contains(PTEFlags(PTEFlags::RSW1)) { MappingFlags::COW } else { 0 };
        MappingFlags(read | write | execute | user | cow)
    }
}

impl vstd::std_specs::convert::FromSpecImpl<PTEFlags> for MappingFlags {
    open spec fn obeys_from_spec() -> bool {
        true
    }

    open spec fn from_spec(f: PTEFlags) -> MappingFlags {
        MappingFlags(mapping_of_pte(f.0))
    }
}

impl From<MappingFlags> for PTEFlags {
    fn from(f: MappingFlags) -> (r: PTEFlags)
        ensures
            r.0 == pte_of_mapping(f.0),
    {
        if f.is_empty() {
            return PTEFlags::empty();
        }
        let read = if f.contains(MappingFlags(MappingFlags::READ)) { PTEFlags::R } else { 0 };
        let write = if f.contains(MappingFlags(MappingFlags::WRITE)) { PTEFlags::W } else { 0 };
        let execute = if f.contains(MappingFlags(MappingFlags::EXECUTE)) { PTEFlags::X } else { 0 };
        let user = if f.contains(MappingFlags(MappingFlags::USER)) { PTEFlags::U } else { 0 };
        let cow = if f.contains(MappingFlags(MappingFlags::COW)) { PTEFlags::RSW1 } else { 0 };
        PTEFlags(PTEFlags::V | read | write | execute | user | cow)
    }
}

impl vstd::std_specs::convert::FromSpecImpl<MappingFlags> for PTEFlags {
    open spec fn obeys_from_spec() -> bool {
        true
    }

    open spec fn from_spec(f: MappingFlags) -> PTEFlags {
        PTEFlags(pte_of_mapping(f.0))
    }
}

/// Sv39 and Sv48 page table entry for RV64 systems.
///
/// Bits 0..10 hold the hardware flags; bits 10..54 hold the physical address
/// shifted right by two.
#[derive(Clone, Copy, Debug, PartialEq, Eq, Structural)]
pub struct Rv64PTE(pub u64);

impl Rv64PTE {
    /// The address field: bits 10..54.
    pub const PHYS_ADDR_MASK: u64 = 0x003f_ffff_ffff_fc00;

    /// The generic flags that the encoding can express.
    pub const KEPT_MAPPING: usize = 0x4f;

    /// What the address field holds for the address `paddr`.
    pub open spec fn addr_field(paddr: usize) -> u64 {
        ((paddr >> 2) as u64) & Self::PHYS_ADDR_MASK
    }

    /// The hardware flags of the entry.
    pub open spec fn hw_flags(self) -> usize {
        (self.0 as usize) & PTEFlags::ALL
    }

    /// The raw value of an entry with hardware flags `flags` and address `paddr`.
    pub open spec fn packed(flags: usize, paddr: usize) -> u64 {
        (flags as u64) | Self::addr_field(paddr)
    }

    /// Creates an empty entry with all bits set to zero.
    pub fn empty() -> (r: Rv64PTE)
        ensures
            r.0 == 0,
            r.spec_unused(),
            !r.spec_present(),
    {
        proof {
            lemma_zero_entry();
        }
        Rv64PTE(0)
    }
}

impl GenericPTE for Rv64PTE {
    open spec fn spec_paddr(&self) -> usize {
        ((self.0 & Self::PHYS_ADDR_MASK) << 2) as usize
    }

    open spec fn spec_flags(&self) -> MappingFlags {
        MappingFlags(mapping_of_pte(self.hw_flags()))
    }

    open spec fn spec_bits(&self) -> usize {
        self.0 as usize
    }

    open spec fn spec_unused(&self) -> bool {
        self.0 == 0
    }

    open spec fn spec_present(&self) -> bool {
        has_bits(self.hw_flags(), PTEFlags::V)
    }

    open spec fn spec_dirty(&self) -> bool {
        has_bits(self.hw_flags(), PTEFlags::D)
    }

    open spec fn spec_accessed(&self) -> bool {
        has_bits(self.hw_flags(), PTEFlags::A)
    }

    open spec fn spec_huge(&self) -> bool {
        self.hw_flags() & (PTEFlags::R | PTEFlags::X) != 0
    }

    open spec fn kept_paddr(paddr: usize) -> usize {
        (Self::addr_field(paddr) << 2) as usize
    }

    open spec fn kept_flags(flags: MappingFlags) -> MappingFlags {
        MappingFlags(flags.0 & Self::KEPT_MAPPING)
    }

    fn new_page(paddr: PhysAddr, flags: MappingFlags, _is_huge: bool) -> (r: Rv64PTE)
        ensures
            r.0 == Self::packed(pte_of_mapping(flags.0) | (PTEFlags::A | PTEFlags::D), paddr@),
            r.spec_huge(),
    {
        let ghost old_flags = flags;
        let flags = PTEFlags::from(flags).union(PTEFlags(PTEFlags::A | PTEFlags::D));
        let r = Rv64PTE(flags.bits() as u64 | ((paddr.as_usize() >> 2) as u64 & Self::PHYS_ADDR_MASK));
        proof {
            lemma_pte_of_mapping_bounded(old_flags.0);
            lemma_addr_field_in_window(paddr@);
            lemma_parts(flags.0, Self::addr_field(paddr@));
            lemma_leaf_flags(old_flags.0);
        }
        r
    }

    fn new_table(paddr: PhysAddr) -> (r: Rv64PTE)
        ensures
            r.0 == Self::packed(PTEFlags::V, paddr@),
    {
        let r = Rv64PTE(PTEFlags::V as u64 | ((paddr.as_usize() >> 2) as u64 & Self::PHYS_ADDR_MASK));
        proof {
            lemma_addr_field_in_window(paddr@);
            lemma_parts(PTEFlags::V, Self::addr_field(paddr@));
            lemma_table_flags();
        }
        r
    }

    fn paddr(&self) -> (r: PhysAddr) {
        PhysAddr::from_usize(((self.0 & Self::PHYS_ADDR_MASK) << 2) as usize)
    }

    fn flags(&self) -> (r: MappingFlags) {
        PTEFlags::from_bits_truncate(self.0 as usize).into()
    }

    fn set_paddr(&mut self, paddr: PhysAddr)
        ensures
            final(self).0 == (old(self).0 & !Self::PHYS_ADDR_MASK) | Self::addr_field(paddr@),
    {
        self.0 = (self.0 & !Self::PHYS_ADDR_MASK) | ((paddr.as_usize() >> 2) as u64 & Self::PHYS_ADDR_MASK);
        proof {
            let (o, f) = (old(self).0, Self::addr_field(paddr@));
            lemma_addr_field_in_window(paddr@);
            assert((((o & !0x003f_ffff_ffff_fc00u64) | f) as usize) & 0x3ff == (o as usize) & 0x3ff)
                by (bit_vector)
                requires
                    f & !0x003f_ffff_ffff_fc00u64 == 0,
            ;
            assert(((((o & !0x003f_ffff_ffff_fc00u64) | f) & 0x003f_ffff_ffff_fc00u64) << 2) as usize
                == (f << 2) as usize) by (bit_vector)
                requires
                    f & !0x003f_ffff_ffff_fc00u64 == 0,
            ;
        }
    }

    fn set_flags(&mut self, flags: MappingFlags, _is_huge: bool)
        ensures
            final(self).0 == (old(self).0 & Self::PHYS_ADDR_MASK) | ((pte_of_mapping(flags.0)
                | (PTEFlags::A | PTEFlags::D)) as u64),
            final(self).spec_huge(),
    {
        let ghost old_flags = flags;
        let flags = PTEFlags::from(flags).union(PTEFlags(PTEFlags::A | PTEFlags::D));
        proof {
            lemma_pte_of_mapping_bounded(old_flags.0);
            lemma_leaf_flags(old_flags.0);
            let fb = flags.0;
            assert(fb & 0x3ff == fb) by (bit_vector)
                requires
                    fb <= 0x3ff,
            ;
        }
        self.set_flags_arch(flags)
    }

    /// Only the bits that name hardware flags are taken from `flags`.
    fn set_flags_arch(&mut self, flags: PTEFlags)
        ensures
            final(self).0 == (old(self).0 & Self::PHYS_ADDR_MASK) | ((flags.0 & PTEFlags::ALL) as u64),
            final(self).hw_flags() == flags.0 & PTEFlags::ALL,
    {
        self.0 = (self.0 & Self::PHYS_ADDR_MASK) | (flags.bits() & PTEFlags::ALL) as u64;
        proof {
            let (o, f) = (old(self).0, flags.0);
            assert((((o & 0x003f_ffff_ffff_fc00u64) | ((f & 0x3ff) as u64)) as usize) & 0x3ff == f & 0x3ff)
                by (bit_vector);
            assert(((((o & 0x003f_ffff_ffff_fc00u64) | ((f & 0x3ff) as u64)) & 0x003f_ffff_ffff_fc00u64) << 2)
                as usize == ((o & 0x003f_ffff_ffff_fc00u64) << 2) as usize) by (bit_vector);
        }
    }

    fn bits(self) -> (r: usize) {
        self.0 as usize
    }

    fn is_unused(&self) -> (r: bool) {
        self.0 == 0
    }

    fn is_present(&self) -> (r: bool) {
        PTEFlags::from_bits_truncate(self.0 as usize).contains(PTEFlags(PTEFlags::V))
    }

    fn is_dirty(&self) -> (r: bool) {
        PTEFlags::from_bits_truncate(self.0 as usize).contains(PTEFlags(PTEFlags::D))
    }

    fn set_dirty(&mut self, dirty: bool)
        ensures
            final(self).0 == if dirty {
                old(self).0 | (PTEFlags::D as u64)
            } else {
                old(self).0 & !(PTEFlags::D as u64)
            },
    {
        if dirty {
            self.0 = self.0 | PTEFlags::D as u64;
        } else {
            self.0 = self.0 & !(PTEFlags::D as u64);
        }
        proof {
            lemma_status_bit_only(old(self).0, self.0, PTEFlags::D, dirty);
        }
    }

    fn is_accessed(&self) -> (r: bool) {
        PTEFlags::from_bits_truncate(self.0 as usize).contains(PTEFlags(PTEFlags::A))
    }

    fn set_accessed(&mut self, accessed: bool)
        ensures
            final(self).0 == if accessed {
                old(self).0 | (PTEFlags::A as u64)
            } else {
                old(self).0 & !(PTEFlags::A as u64)
            },
    {
        if accessed {
            self.0 = self.0 | PTEFlags::A as u64;
        } else {
            self.0 = self.0 & !(PTEFlags::A as u64);
        }
        proof {
            lemma_status_bit_only(old(self).0, self.0, PTEFlags::A, accessed);
        }
    }

    fn is_huge(&self) -> (r: bool) {
        PTEFlags::from_bits_truncate(self.0 as usize).intersects(PTEFlags(PTEFlags::R | PTEFlags::X))
    }

    fn clear(&mut self) {
        self.0 = 0;
        proof {
            lemma_zero_entry();
        }
    }
}

/// The hardware flags of a leaf made from `m` are accessed and dirty, valid
/// and readable or executable when `m` is readable or executable, and stand
/// for `m`'s expressible flags.
proof fn lemma_leaf_flags(m: usize)
    ensures
        has_bits(pte_of_mapping(m) | (PTEFlags::A | PTEFlags::D), PTEFlags::A),
        has_bits(pte_of_mapping(m) | (PTEFlags::A | PTEFlags::D), PTEFlags::D),
        m & (MappingFlags::READ | MappingFlags::EXECUTE) != 0 ==> has_bits(
            pte_of_mapping(m) | (PTEFlags::A | PTEFlags::D),
            PTEFlags::V,
        ),
        m & (MappingFlags::READ | MappingFlags::EXECUTE) != 0 ==> (pte_of_mapping(m) | (
        PTEFlags::A | PTEFlags::D)) & (PTEFlags::R | PTEFlags::X) != 0,
        mapping_of_pte(pte_of_mapping(m) | (PTEFlags::A | PTEFlags::D)) == m
            & Rv64PTE::KEPT_MAPPING,
{
    assert(has_bits(pte_of_mapping(m) | (PTEFlags::A | PTEFlags::D), PTEFlags::A)) by (bit_vector);
    assert(has_bits(pte_of_mapping(m) | (PTEFlags::A | PTEFlags::D), PTEFlags::D)) by (bit_vector);
    assert(m & (MappingFlags::READ | MappingFlags::EXECUTE) != 0 ==> has_bits(
        pte_of_mapping(m) | (PTEFlags::A | PTEFlags::D),
        PTEFlags::V,
    )) by (bit_vector);
    assert(m & (MappingFlags::READ | MappingFlags::EXECUTE) != 0 ==> (pte_of_mapping(m) | (
    PTEFlags::A | PTEFlags::D)) & (PTEFlags::R | PTEFlags::X) != 0) by (bit_vector);
    assert(mapping_of_pte(pte_of_mapping(m) | (PTEFlags::A | PTEFlags::D)) == m
        & Rv64PTE::KEPT_MAPPING) by (bit_vector);
}

/// The hardware flags of a table pointer are valid and nothing else.
proof fn lemma_table_flags()
    ensures
        has_bits(PTEFlags::V, PTEFlags::V),
        mapping_of_pte(PTEFlags::V) == 0,
        PTEFlags::V & (PTEFlags::R | PTEFlags::X) == 0,
{
    assert(has_bits(PTEFlags::V, PTEFlags::V)) by (bit_vector);
    assert(mapping_of_pte(PTEFlags::V) == 0) by (bit_vector);
    assert(PTEFlags::V & (PTEFlags::R | PTEFlags::X) == 0) by (bit_vector);
}

/// Setting or clearing only the accessed or the dirty bit changes no other
/// part of the entry.
proof fn lemma_status_bit_only(o: u64, n: u64, bit: usize, set: bool)
    requires
        bit == PTEFlags::A || bit == PTEFlags::D,
        n == if set {
            o | (bit as u64)
        } else {
            o & !(bit as u64)
        },
    ensures
        bit == PTEFlags::D ==> Rv64PTE(n).spec_dirty() == set,
        bit == PTEFlags::A ==> Rv64PTE(n).spec_accessed() == set,
        bit == PTEFlags::D ==> Rv64PTE(n).spec_accessed() == Rv64PTE(o).spec_accessed(),
        bit == PTEFlags::A ==> Rv64PTE(n).spec_dirty() == Rv64PTE(o).spec_dirty(),
        Rv64PTE(n).spec_present() == Rv64PTE(o).spec_present(),
        Rv64PTE(n).spec_huge() == Rv64PTE(o).spec_huge(),
        Rv64PTE(n).spec_paddr() == Rv64PTE(o).spec_paddr(),
        Rv64PTE(n).spec_flags() == Rv64PTE(o).spec_flags(),
{
    let (ho, hn) = (Rv64PTE(o).hw_flags(), Rv64PTE(n).hw_flags());
    assert(has_bits(hn, bit) == set) by (bit_vector)
        requires
            bit == PTEFlags::A || bit == PTEFlags::D,
            n == if set {
                o | (bit as u64)
            } else {
                o & !(bit as u64)
            },
            hn == (n as usize) & PTEFlags::ALL,
    ;
    assert(hn & !bit == ho & !bit) by (bit_vector)
        requires
            bit == PTEFlags::A || bit == PTEFlags::D,
            n == o | (bit as u64) || n == o & !(bit as u64),
            hn == (n as usize) & PTEFlags::ALL,
            ho == (o as usize) & PTEFlags::ALL,
    ;
    assert(n & Rv64PTE::PHYS_ADDR_MASK == o & Rv64PTE::PHYS_ADDR_MASK) by (bit_vector)
        requires
            bit == PTEFlags::A || bit == PTEFlags::D,
            n == o | (bit as u64) || n == o & !(bit as u64),
    ;
    lemma_hw_same_except(ho, hn, bit);
}

/// Hardware flags that differ at most in the accessed or the dirty bit agree
/// on everything else the entry's contracts speak of.
proof fn lemma_hw_same_except(ho: usize, hn: usize, bit: usize)
    requires
        bit == PTEFlags::A || bit == PTEFlags::D,
        hn & !bit == ho & !bit,
    ensures
        bit == PTEFlags::D ==> has_bits(hn, PTEFlags::A) == has_bits(ho, PTEFlags::A),
        bit == PTEFlags::A ==> has_bits(hn, PTEFlags::D) == has_bits(ho, PTEFlags::D),
        has_bits(hn, PTEFlags::V) == has_bits(ho, PTEFlags::V),
        (hn & (PTEFlags::R | PTEFlags::X) != 0) == (ho & (PTEFlags::R | PTEFlags::X) != 0),
        mapping_of_pte(hn) == mapping_of_pte(ho),
{
    assert(bit == PTEFlags::D ==> has_bits(hn, PTEFlags::A) == has_bits(ho, PTEFlags::A))
        by (bit_vector)
        requires
            hn & !bit == ho & !bit,
    ;
    assert(bit == PTEFlags::A ==> has_bits(hn, PTEFlags::D) == has_bits(ho, PTEFlags::D))
        by (bit_vector)
        requires
            hn & !bit == ho & !bit,
    ;
    assert(has_bits(hn, PTEFlags::V) == has_bits(ho, PTEFlags::V)) by (bit_vector)
        requires
            bit == PTEFlags::A || bit == PTEFlags::D,
            hn & !bit == ho & !bit,
    ;
    assert((hn & (PTEFlags::R | PTEFlags::X) != 0) == (ho & (PTEFlags::R | PTEFlags::X) != 0))
        by (bit_vector)
        requires
            bit == PTEFlags::A || bit == PTEFlags::D,
            hn & !bit == ho & !bit,
    ;
    assert(mapping_of_pte(hn) == mapping_of_pte(ho)) by (bit_vector)
        requires
            bit == PTEFlags::A || bit == PTEFlags::D,
            hn & !bit == ho & !bit,
    ;
}

/// Packing an address into the address field and unpacking it gives the
/// address back, for every address aligned to a 4 KiB frame and below 2^56.
pub proof fn lemma_paddr_round_trip(paddr: usize)
    requires
        paddr % 4096 == 0,
        paddr < 0x0100_0000_0000_0000,
    ensures
        Rv64PTE::kept_paddr(paddr) == paddr,
{
    assert((((((paddr >> 2) as u64) & Rv64PTE::PHYS_ADDR_MASK) << 2) as usize) == paddr)
        by (bit_vector)
        requires
            paddr % 4096 == 0,
            paddr < 0x0100_0000_0000_0000,
    ;
}

/// Encoding generic flags as hardware flags and decoding them again gives
/// back every flag that the hardware can express, and drops the others.
pub proof fn lemma_flags_round_trip(flags: MappingFlags)
    ensures
        mapping_of_pte(pte_of_mapping(flags.0)) == Rv64PTE::kept_flags(flags).0,
{
    let m = flags.0;
    assert(mapping_of_pte(pte_of_mapping(m)) == m & Rv64PTE::KEPT_MAPPING) by (bit_vector);
}

/// The empty generic set encodes with the valid bit clear, and hardware flags
/// with the valid bit clear decode to the empty set, whatever else they hold.
pub proof fn lemma_invalid_is_empty(hw: usize)
    ensures
        !has_bits(pte_of_mapping(0), PTEFlags::V),
        !has_bits(hw, PTEFlags::V) ==> mapping_of_pte(hw) == 0,
{
    assert(!has_bits(pte_of_mapping(0), PTEFlags::V)) by (bit_vector);
}

/// A table pointer is never huge and carries none of the Read, Write,
/// Execute and User bits, so it decodes to the empty generic set.
pub proof fn lemma_table_entry(paddr: usize)
    ensures
        ({
            let e = Rv64PTE(Rv64PTE::packed(PTEFlags::V, paddr));
            &&& !e.spec_huge()
            &&& e.hw_flags() & (PTEFlags::R | PTEFlags::W | PTEFlags::X | PTEFlags::U) == 0
            &&& e.spec_flags() == MappingFlags(0)
        }),
{
    lemma_addr_field_in_window(paddr);
    lemma_parts(PTEFlags::V, Rv64PTE::addr_field(paddr));
    lemma_table_flags();
    assert(PTEFlags::V & (PTEFlags::R | PTEFlags::W | PTEFlags::X | PTEFlags::U) == 0)
        by (bit_vector);
}

/// An unused (all-zero) entry is not present and holds no flag.
pub proof fn lemma_unused_not_present(e: Rv64PTE)
    requires
        e.spec_unused(),
    ensures
        !e.spec_present(),
        e.spec_flags() == MappingFlags(0),
{
    lemma_zero_entry();
}

/// The zero entry holds no flag.
proof fn lemma_zero_entry()
    ensures
        Rv64PTE(0).hw_flags() == 0,
        !has_bits(0, PTEFlags::V),
        mapping_of_pte(0) == 0,
{
    assert(((0u64 as usize) & PTEFlags::ALL) == 0) by (bit_vector);
    assert(!has_bits(0, PTEFlags::V)) by (bit_vector);
    assert(mapping_of_pte(0) == 0) by (bit_vector);
}

/// An entry made of hardware flags `flags` and an address field `field`
/// gives both back unchanged.
proof fn lemma_parts(flags: usize, field: u64)
    requires
        flags <= PTEFlags::ALL,
        field & !Rv64PTE::PHYS_ADDR_MASK == 0,
    ensures
        Rv64PTE((flags as u64) | field).hw_flags() == flags,
        Rv64PTE((flags as u64) | field).spec_paddr() == ((field << 2) as usize),
{
    assert((((flags as u64) | field) as usize) & 0x3ff == flags) by (bit_vector)
        requires
            flags <= 0x3ff,
            field & !0x003f_ffff_ffff_fc00u64 == 0,
    ;
    assert(((((flags as u64) | field) & 0x003f_ffff_ffff_fc00u64) << 2) as usize == (field << 2) as usize)
        by (bit_vector)
        requires
            flags <= 0x3ff,
            field & !0x003f_ffff_ffff_fc00u64 == 0,
    ;
}

/// The address field never holds a bit outside its window.
proof fn lemma_addr_field_in_window(paddr: usize)
    ensures
        Rv64PTE::addr_field(paddr) & !Rv64PTE::PHYS_ADDR_MASK == 0,
{
    assert((((paddr >> 2) as u64) & 0x003f_ffff_ffff_fc00u64) & !0x003f_ffff_ffff_fc00u64 == 0)
        by (bit_vector);
}

/// Hardware flags made from generic flags name no bit outside the flag bits.
proof fn lemma_pte_of_mapping_bounded(m: usize)
    ensures
        pte_of_mapping(m) <= PTEFlags::ALL,
        (pte_of_mapping(m) | (PTEFlags::A | PTEFlags::D)) <= PTEFlags::ALL,
{
    assert(pte_of_mapping(m) <= 0x3ff) by (bit_vector);
    assert((pte_of_mapping(m) | (PTEFlags::A | PTEFlags::D)) <= 0x3ff) by (bit_vector);
}

} // verus!
