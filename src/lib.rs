//! Page table entries: an architecture-neutral set of mapping flags, the
//! operations every concrete entry supports, and the RV64 Sv39/Sv48 encoding.
use vstd::prelude::*;

pub mod flags;
pub mod riscv;

pub use flags::MappingFlags;
pub use riscv::{PTEFlags, Rv64PTE};

verus! {

/// A physical memory address.
#[derive(Clone, Copy, Debug, PartialEq, Eq, Structural)]
pub struct PhysAddr(pub usize);

impl PhysAddr {
    /// The address as a plain integer.
    pub open spec fn view(self) -> usize {
        self.0
    }

    /// Wraps a plain integer as a physical address.
    pub fn from_usize(addr: usize) -> (r: PhysAddr)
        ensures
            r@ == addr,
    {
        PhysAddr(addr)
    }

    /// The address as a plain integer.
    pub fn as_usize(self) -> (r: usize)
        ensures
            r == self@,
    {
        self.0
    }
}

/// A page table entry of some architecture.
///
/// The contracts speak of an entry through the spec functions below; each
/// encoding says what they are for its own bit layout.
pub trait GenericPTE: Sized + Copy {
    /// The physical address the entry points to.
    spec fn spec_paddr(&self) -> usize;

    /// The generic flags the entry's hardware bits stand for.
    spec fn spec_flags(&self) -> MappingFlags;

    /// The raw bits of the entry.
    spec fn spec_bits(&self) -> usize;

    /// Whether the entry is all zeros.
    spec fn spec_unused(&self) -> bool;

    /// Whether the entry is marked present (valid).
    spec fn spec_present(&self) -> bool;

    /// Whether the entry is marked dirty.
    spec fn spec_dirty(&self) -> bool;

    /// Whether the entry is marked accessed.
    spec fn spec_accessed(&self) -> bool;

    /// Whether the entry ends translation (maps a frame rather than a table).
    spec fn spec_huge(&self) -> bool;

    /// The address that an entry holds after being given `paddr`; bits that
    /// the address field cannot hold are lost.
    spec fn kept_paddr(paddr: usize) -> usize;

    /// The generic flags that an entry holds after being given `flags`;
    /// flags that the hardware cannot express are lost.
    spec fn kept_flags(flags: MappingFlags) -> MappingFlags;

    /// Creates an entry that maps the page or block at `paddr` with `flags`.
    fn new_page(paddr: PhysAddr, flags: MappingFlags, is_huge: bool) -> (r: Self)
        requires
            flags.grants_read_or_execute(),
        ensures
            r.spec_paddr() == Self::kept_paddr(paddr@),
            r.spec_flags() == Self::kept_flags(flags),
            r.spec_present(),
            r.spec_accessed(),
            r.spec_dirty(),
    ;

    /// Creates an entry that points to the next-level table at `paddr`.
    fn new_table(paddr: PhysAddr) -> (r: Self)
        ensures
            r.spec_paddr() == Self::kept_paddr(paddr@),
            r.spec_flags() == MappingFlags(0),
            r.spec_present(),
            !r.spec_huge(),
    ;

    /// The physical address the entry points to.
    fn paddr(&self) -> (r: PhysAddr)
        ensures
            r@ == self.spec_paddr(),
    ;

    /// The generic flags of the entry.
    fn flags(&self) -> (r: MappingFlags)
        ensures
            r == self.spec_flags(),
    ;

    /// Points the entry at `paddr`, keeping its flags.
    fn set_paddr(&mut self, paddr: PhysAddr)
        ensures
            final(self).spec_paddr() == Self::kept_paddr(paddr@),
            final(self).spec_flags() == old(self).spec_flags(),
            final(self).spec_present() == old(self).spec_present(),
            final(self).spec_dirty() == old(self).spec_dirty(),
            final(self).spec_accessed() == old(self).spec_accessed(),
            final(self).spec_huge() == old(self).spec_huge(),
    ;

    /// Replaces the flags of the entry by `flags`, keeping its address.
    fn set_flags(&mut self, flags: MappingFlags, is_huge: bool)
        requires
            flags.grants_read_or_execute(),
        ensures
            final(self).spec_paddr() == old(self).spec_paddr(),
            final(self).spec_flags() == Self::kept_flags(flags),
            final(self).spec_present(),
            final(self).spec_accessed(),
            final(self).spec_dirty(),
    ;

    /// Replaces the hardware flags of the entry by `flags`, keeping its address.
    fn set_flags_arch(&mut self, flags: PTEFlags)
        ensures
            final(self).spec_paddr() == old(self).spec_paddr(),
    ;

    /// The raw bits of the entry.
    fn bits(self) -> (r: usize)
        ensures
            r == self.spec_bits(),
    ;

    /// Whether the entry is all zeros.
    fn is_unused(&self) -> (r: bool)
        ensures
            r == self.spec_unused(),
    ;

    /// Whether the entry is marked present.
    fn is_present(&self) -> (r: bool)
        ensures
            r == self.spec_present(),
    ;

    /// Whether the mapped page has been written.
    fn is_dirty(&self) -> (r: bool)
        ensures
            r == self.spec_dirty(),
    ;

    /// Sets or clears the dirty mark, leaving the rest of the entry alone.
    fn set_dirty(&mut self, dirty: bool)
        ensures
            final(self).spec_dirty() == dirty,
            final(self).spec_accessed() == old(self).spec_accessed(),
            final(self).spec_present() == old(self).spec_present(),
            final(self).spec_huge() == old(self).spec_huge(),
            final(self).spec_paddr() == old(self).spec_paddr(),
            final(self).spec_flags() == old(self).spec_flags(),
    ;

    /// Whether the mapped page has been accessed.
    fn is_accessed(&self) -> (r: bool)
        ensures
            r == self.spec_accessed(),
    ;

    /// Sets or clears the accessed mark, leaving the rest of the entry alone.
    fn set_accessed(&mut self, accessed: bool)
        ensures
            final(self).spec_accessed() == accessed,
            final(self).spec_dirty() == old(self).spec_dirty(),
            final(self).spec_present() == old(self).spec_present(),
            final(self).spec_huge() == old(self).spec_huge(),
            final(self).spec_paddr() == old(self).spec_paddr(),
            final(self).spec_flags() == old(self).spec_flags(),
    ;

    /// Whether the entry ends translation rather than pointing to a table.
    fn is_huge(&self) -> (r: bool)
        ensures
            r == self.spec_huge(),
    ;

    /// Sets the entry to all zeros.
    fn clear(&mut self)
        ensures
            final(self).spec_unused(),
            !final(self).spec_present(),
            final(self).spec_flags() == MappingFlags(0),
    ;
}

} // verus!
