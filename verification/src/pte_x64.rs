//! Page table entries of x86-64.

use vstd::prelude::*;

use crate::mapping::{
    MappingFlags, MAP_DEVICE, MAP_EXECUTE, MAP_READ, MAP_UNCACHED, MAP_USER, MAP_WRITE,
};

verus! {

/// The entry is in use.
pub const PTF_PRESENT: u64 = 0x1;

/// The page can be written.
pub const PTF_WRITABLE: u64 = 0x2;

/// The page can be used in user mode.
pub const PTF_USER_ACCESSIBLE: u64 = 0x4;

/// Writes go through the cache.
pub const PTF_WRITE_THROUGH: u64 = 0x8;

/// The page is not cached.
pub const PTF_NO_CACHE: u64 = 0x10;

/// The entry maps a large page.
pub const PTF_HUGE_PAGE: u64 = 0x80;

/// The page cannot be executed.
pub const PTF_NO_EXECUTE: u64 = 0x8000_0000_0000_0000;

/// The bits of an entry that hold the physical address.
pub const X64_ADDR_MASK: u64 = 0x000f_ffff_ffff_f000;

/// The entry bits that stand for the attributes `flags`: none if there are no
/// attributes, else the entry is present, what the attributes do not allow is
/// denied, and device and uncached pages bypass the cache.
pub open spec fn ptf_of(flags: u64) -> u64 {
    if flags == 0 {
        0
    } else {
        PTF_PRESENT | (if flags & MAP_WRITE != 0 {
            PTF_WRITABLE
        } else {
            0
        }) | (if flags & MAP_EXECUTE == 0 {
            PTF_NO_EXECUTE
        } else {
            0
        }) | (if flags & MAP_USER != 0 {
            PTF_USER_ACCESSIBLE
        } else {
            0
        }) | (if flags & (MAP_DEVICE | MAP_UNCACHED) != 0 {
            PTF_NO_CACHE | PTF_WRITE_THROUGH
        } else {
            0
        })
    }
}

/// The attributes that the entry bits `ptf` stand for: a present page can
/// always be read, and whether it holds registers cannot be told.
pub open spec fn flags_of(ptf: u64) -> u64 {
    if ptf & PTF_PRESENT == 0 {
        0
    } else {
        MAP_READ | (if ptf & PTF_WRITABLE != 0 {
            MAP_WRITE
        } else {
            0
        }) | (if ptf & PTF_NO_EXECUTE == 0 {
            MAP_EXECUTE
        } else {
            0
        }) | (if ptf & PTF_USER_ACCESSIBLE != 0 {
            MAP_USER
        } else {
            0
        }) | (if ptf & PTF_NO_CACHE != 0 {
            MAP_UNCACHED
        } else {
            0
        })
    }
}

/// The entry bits that stand for `flags`.
pub fn ptf_from_flags(flags: MappingFlags) -> (ptf: u64)
    ensures
        ptf == ptf_of(flags.bits),
{
    let f: u64 = flags.bits;
    if f == 0 {
        return 0;
    }
    let write: u64 = if f & MAP_WRITE != 0 {
        PTF_WRITABLE
    } else {
        0
    };
    let deny: u64 = if f & MAP_EXECUTE == 0 {
        PTF_NO_EXECUTE
    } else {
        0
    };
    let user: u64 = if f & MAP_USER != 0 {
        PTF_USER_ACCESSIBLE
    } else {
        0
    };
    let cache: u64 = if f & (MAP_DEVICE | MAP_UNCACHED) != 0 {
        PTF_NO_CACHE | PTF_WRITE_THROUGH
    } else {
        0
    };
    PTF_PRESENT | write | deny | user | cache
}

/// The attributes that the entry bits `ptf` stand for.
pub fn flags_from_ptf(ptf: u64) -> (flags: MappingFlags)
    ensures
        flags.bits == flags_of(ptf),
{
    if ptf & PTF_PRESENT == 0 {
        return MappingFlags::empty();
    }
    let write: u64 = if ptf & PTF_WRITABLE != 0 {
        MAP_WRITE
    } else {
        0
    };
    let execute: u64 = if ptf & PTF_NO_EXECUTE == 0 {
        MAP_EXECUTE
    } else {
        0
    };
    let user: u64 = if ptf & PTF_USER_ACCESSIBLE != 0 {
        MAP_USER
    } else {
        0
    };
    let cache: u64 = if ptf & PTF_NO_CACHE != 0 {
        MAP_UNCACHED
    } else {
        0
    };
    MappingFlags::from_bits(MAP_READ | write | execute | user | cache)
}

/// A page table entry.
#[derive(Debug, Clone, Copy, PartialEq, Eq, Structural)]
pub struct X64PTE(pub u64);

impl X64PTE {
    /// An entry that is not in use.
    pub fn empty() -> (entry: Self)
        ensures
            entry.0 == 0,
    {
        Self(0)
    }

    /// The entry that maps the page, large if `is_huge`, at `paddr`.
    pub fn new_page(paddr: u64, flags: MappingFlags, is_huge: bool) -> (entry: Self)
        ensures
            entry.0 == page_bits(paddr, flags.bits, is_huge),
    {
        let huge: u64 = if is_huge {
            PTF_HUGE_PAGE
        } else {
            0
        };
        Self(ptf_from_flags(flags) | huge | (paddr & X64_ADDR_MASK))
    }

    /// The entry that refers to the page table at `paddr`.
    pub fn new_table(paddr: u64) -> (entry: Self)
        ensures
            entry.0 == table_bits(paddr),
    {
        Self((PTF_PRESENT | PTF_WRITABLE | PTF_USER_ACCESSIBLE) | (paddr & X64_ADDR_MASK))
    }

    /// The physical address in the entry.
    pub fn paddr(&self) -> (paddr: u64)
        ensures
            paddr == self.0 & X64_ADDR_MASK,
    {
        self.0 & X64_ADDR_MASK
    }

    /// The attributes in the entry.
    pub fn flags(&self) -> (flags: MappingFlags)
        ensures
            flags.bits == flags_of(self.0),
    {
        flags_from_ptf(self.0)
    }

    /// Puts another physical address into the entry.
    pub fn set_paddr(&mut self, paddr: u64)
        ensures
            final(self).0 == (old(self).0 & !X64_ADDR_MASK) | (paddr & X64_ADDR_MASK),
    {
        self.0 = (self.0 & !X64_ADDR_MASK) | (paddr & X64_ADDR_MASK);
    }

    /// Puts other attributes into the entry.
    pub fn set_flags(&mut self, flags: MappingFlags, is_huge: bool)
        ensures
            final(self).0 == page_bits(old(self).0 & X64_ADDR_MASK, flags.bits, is_huge),
    {
        *self = Self::new_page(self.0 & X64_ADDR_MASK, flags, is_huge);
    }

    /// The entry as a number.
    pub fn bits(&self) -> (bits: u64)
        ensures
            bits == self.0,
    {
        self.0
    }

    /// Whether the entry is not in use.
    pub fn is_unused(&self) -> (unused: bool)
        ensures
            unused == (self.0 == 0),
    {
        self.0 == 0
    }

    /// Whether the entry is present.
    pub fn is_present(&self) -> (present: bool)
        ensures
            present == (self.0 & PTF_PRESENT != 0),
    {
        self.0 & PTF_PRESENT != 0
    }

    /// Whether the entry maps a large page.
    pub fn is_huge(&self) -> (huge: bool)
        ensures
            huge == (self.0 & PTF_HUGE_PAGE != 0),
    {
        self.0 & PTF_HUGE_PAGE != 0
    }

    /// Takes the entry out of use.
    pub fn clear(&mut self)
        ensures
            final(self).0 == 0,
    {
        self.0 = 0;
    }
}

/// The entry that maps a page.
pub open spec fn page_bits(paddr: u64, flags: u64, is_huge: bool) -> u64 {
    ptf_of(flags) | (if is_huge {
        PTF_HUGE_PAGE
    } else {
        0
    }) | (paddr & X64_ADDR_MASK)
}

/// The entry that refers to a page table.
pub open spec fn table_bits(paddr: u64) -> u64 {
    (PTF_PRESENT | PTF_WRITABLE | PTF_USER_ACCESSIBLE) | (paddr & X64_ADDR_MASK)
}

/// The attributes of a readable page that is neither device nor uncached memory
/// survive the way into an entry and back.
pub proof fn x64_flags_round_trip(flags: u64)
    requires
        flags & MAP_READ != 0,
        flags & !(MAP_READ | MAP_WRITE | MAP_EXECUTE | MAP_USER) == 0,
    ensures
        flags_of(ptf_of(flags)) == flags,
{
    assert(flags_of(ptf_of(flags)) == flags) by (bit_vector)
        requires
            flags & MAP_READ != 0,
            flags & !(MAP_READ | MAP_WRITE | MAP_EXECUTE | MAP_USER) == 0,
    ;
}

/// An entry that maps a page gives back the page's address, is large as asked
/// for, and has the attributes that its bits stand for; it is present unless
/// there were no attributes at all.
pub proof fn x64_page_reads_back(paddr: u64, flags: u64, is_huge: bool)
    requires
        paddr & !X64_ADDR_MASK == 0,
    ensures
        page_bits(paddr, flags, is_huge) & X64_ADDR_MASK == paddr,
        (page_bits(paddr, flags, is_huge) & PTF_HUGE_PAGE != 0) == is_huge,
        flags_of(page_bits(paddr, flags, is_huge)) == flags_of(ptf_of(flags)),
        (page_bits(paddr, flags, is_huge) & PTF_PRESENT != 0) == (flags != 0),
{
    assert(page_bits(paddr, flags, is_huge) & X64_ADDR_MASK == paddr && (page_bits(
        paddr,
        flags,
        is_huge,
    ) & PTF_HUGE_PAGE != 0) == is_huge && flags_of(page_bits(paddr, flags, is_huge)) == flags_of(
        ptf_of(flags),
    ) && (page_bits(paddr, flags, is_huge) & PTF_PRESENT != 0) == (flags != 0)) by (bit_vector)
        requires
            paddr & !X64_ADDR_MASK == 0,
    ;
}

/// An entry that refers to a page table gives back the table's address and is
/// present but not large.
pub proof fn x64_table_reads_back(paddr: u64)
    requires
        paddr & !X64_ADDR_MASK == 0,
    ensures
        table_bits(paddr) & X64_ADDR_MASK == paddr,
        table_bits(paddr) & PTF_PRESENT != 0,
        table_bits(paddr) & PTF_HUGE_PAGE == 0,
{
    assert(table_bits(paddr) & X64_ADDR_MASK == paddr && table_bits(paddr) & PTF_PRESENT != 0
        && table_bits(paddr) & PTF_HUGE_PAGE == 0) by (bit_vector)
        requires
            paddr & !X64_ADDR_MASK == 0,
    ;
}

/// Changing the address of an entry keeps its attributes, and the new address
/// is read back.
pub proof fn x64_address_changes_alone(bits: u64, paddr: u64)
    requires
        paddr & !X64_ADDR_MASK == 0,
    ensures
        ((bits & !X64_ADDR_MASK) | (paddr & X64_ADDR_MASK)) & X64_ADDR_MASK == paddr,
        flags_of((bits & !X64_ADDR_MASK) | (paddr & X64_ADDR_MASK)) == flags_of(bits),
{
    assert(((bits & !X64_ADDR_MASK) | (paddr & X64_ADDR_MASK)) & X64_ADDR_MASK == paddr
        && flags_of((bits & !X64_ADDR_MASK) | (paddr & X64_ADDR_MASK)) == flags_of(bits))
        by (bit_vector)
        requires
            paddr & !X64_ADDR_MASK == 0,
    ;
}

} // verus!
