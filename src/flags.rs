//! Generic mapping flags: the permissions and attributes of a mapped region,
//! independent of any hardware layout.
use vstd::prelude::*;
use vstd::string::StringExecFns;

verus! {

/// Whether every bit of `b` is set in `x`.
pub open spec fn has_bits(x: usize, b: usize) -> bool {
    x & b == b
}

/// Permissions and attributes of a mapped memory region, one bit each.
///
/// The empty set means "not mapped".
#[derive(Clone, Copy, Debug, PartialEq, Eq, Structural)]
pub struct MappingFlags(pub usize);

impl MappingFlags {
    /// The memory is readable.
    pub const READ: usize = 0x1;
    /// The memory is writable.
    pub const WRITE: usize = 0x2;
    /// The memory is executable.
    pub const EXECUTE: usize = 0x4;
    /// The memory is user accessible.
    pub const USER: usize = 0x8;
    /// The memory is device memory.
    pub const DEVICE: usize = 0x10;
    /// The memory is uncached.
    pub const UNCACHED: usize = 0x20;
    /// Copy-on-write.
    pub const COW: usize = 0x40;
    /// Every bit that names a flag.
    pub const ALL: usize = 0x7f;

    /// Whether every bit of `other` is set in `self`.
    pub open spec fn has(self, other: MappingFlags) -> bool {
        has_bits(self.0, other.0)
    }

    /// Whether the flags allow reading or executing, as every leaf mapping must.
    pub open spec fn grants_read_or_execute(self) -> bool {
        self.0 & (Self::READ | Self::EXECUTE) != 0
    }

    /// What `mark_cow` makes of `flags`.
    pub open spec fn cow_of(flags: MappingFlags) -> MappingFlags {
        if flags.has(MappingFlags(Self::WRITE)) {
            MappingFlags((flags.0 & !Self::WRITE) | Self::COW)
        } else {
            flags
        }
    }

    /// What `protect` makes of `flags` under the original flags `self`:
    /// `flags` with the COW, DEVICE and USER bits of `self` added.
    pub open spec fn protected(self, flags: MappingFlags) -> MappingFlags {
        MappingFlags(flags.0 | (self.0 & (Self::COW | Self::DEVICE | Self::USER)))
    }

    /// The permissions as text: `r`, `w` and `x` for READ, WRITE and EXECUTE,
    /// `-` for each that is missing.
    pub open spec fn perm_chars(self) -> Seq<char> {
        seq![
            if self.has(MappingFlags(Self::READ)) { 'r' } else { '-' },
            if self.has(MappingFlags(Self::WRITE)) { 'w' } else { '-' },
            if self.has(MappingFlags(Self::EXECUTE)) { 'x' } else { '-' },
        ]
    }

    /// The permissions as text, such as `rw-`.
    pub fn to_string(&self) -> (r: String)
        ensures
            r@ == self.perm_chars(),
    {
        proof {
            reveal_strlit("r");
            reveal_strlit("w");
            reveal_strlit("x");
            reveal_strlit("-");
        }
        let mut text = String::new();
        if self.contains(MappingFlags(Self::READ)) {
            text.append("r");
        } else {
            text.append("-");
        }
        if self.contains(MappingFlags(Self::WRITE)) {
            text.append("w");
        } else {
            text.append("-");
        }
        if self.contains(MappingFlags(Self::EXECUTE)) {
            text.append("x");
        } else {
            text.append("-");
        }
        assert(text@ =~= self.perm_chars());
        text
    }

    /// The empty set.
    pub fn empty() -> (r: MappingFlags)
        ensures
            r.0 == 0,
    {
        MappingFlags(0)
    }

    /// The raw bits.
    pub fn bits(&self) -> (r: usize)
        ensures
            r == self.0,
    {
        self.0
    }

    /// The flags named by `bits`; bits that name no flag are dropped.
    pub fn from_bits_truncate(bits: usize) -> (r: MappingFlags)
        ensures
            r.0 == bits & Self::ALL,
    {
        MappingFlags(bits & Self::ALL)
    }

    /// Whether no flag is set.
    pub fn is_empty(&self) -> (r: bool)
        ensures
            r == (self.0 == 0),
    {
        self.0 == 0
    }

    /// Whether every flag of `other` is set in `self`.
    pub fn contains(&self, other: MappingFlags) -> (r: bool)
        ensures
            r == self.has(other),
    {
        self.0 & other.0 == other.0
    }

    /// The flags set in `self` or in `other`.
    pub fn union(self, other: MappingFlags) -> (r: MappingFlags)
        ensures
            r.0 == self.0 | other.0,
    {
        MappingFlags(self.0 | other.0)
    }

    /// The flags set in both `self` and `other`.
    pub fn intersection(self, other: MappingFlags) -> (r: MappingFlags)
        ensures
            r.0 == self.0 & other.0,
    {
        MappingFlags(self.0 & other.0)
    }

    /// Sets the flags of `other`.
    pub fn insert(&mut self, other: MappingFlags)
        ensures
            final(self).0 == old(self).0 | other.0,
    {
        self.0 = self.0 | other.0;
    }

    /// Clears the flags of `other`.
    pub fn remove(&mut self, other: MappingFlags)
        ensures
            final(self).0 == old(self).0 & !other.0,
    {
        self.0 = self.0 & !other.0;
    }

    /// Turns a writable mapping into a copy-on-write one: WRITE, if set, is
    /// replaced by COW; other flags are left alone.
    pub fn mark_cow(flags: MappingFlags) -> (r: MappingFlags)
        ensures
            r == Self::cow_of(flags),
    {
        let mut flags = flags;
        if flags.contains(MappingFlags(Self::WRITE)) {
            flags.remove(MappingFlags(Self::WRITE));
            flags.insert(MappingFlags(Self::COW));
        }
        flags
    }

    /// The new flags `flags` for a region whose flags were `self`, keeping the
    /// COW, DEVICE and USER bits of `self`.
    pub fn protect(&self, flags: MappingFlags) -> (r: MappingFlags)
        ensures
            r == self.protected(flags),
    {
        let ghost old_flags = flags;
        let mut flags = flags;
        flags.insert(self.intersection(MappingFlags(Self::COW)));
        flags.insert(self.intersection(MappingFlags(Self::DEVICE | Self::USER)));
        proof {
            let (f0, a) = (old_flags.0, self.0);
            let (c, d, u) = (Self::COW, Self::DEVICE, Self::USER);
            assert(((f0 | (a & c)) | (a & (d | u))) == (f0 | (a & (c | d | u)))) by (bit_vector);
        }
        flags
    }
}

/// Marking flags copy-on-write keeps them readable or executable.
pub proof fn lemma_cow_keeps_read_or_execute(flags: MappingFlags)
    requires
        flags.grants_read_or_execute(),
    ensures
        MappingFlags::cow_of(flags).grants_read_or_execute(),
{
    let f = flags.0;
    assert(f & (MappingFlags::READ | MappingFlags::EXECUTE) != 0 ==> ((f & !MappingFlags::WRITE)
        | MappingFlags::COW) & (MappingFlags::READ | MappingFlags::EXECUTE) != 0) by (bit_vector);
}

} // verus!
