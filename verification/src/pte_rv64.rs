//! Page table entries of 64-bit RISC-V with page-based memory types.

use vstd::prelude::*;

use crate::mapping::{
    MappingFlags, MAP_DEVICE, MAP_EXECUTE, MAP_READ, MAP_UNCACHED, MAP_USER, MAP_WRITE,
};

verus! {

/// The entry is valid.
pub const RV_VALID: u64 = 0x1;

/// The page can be read.
pub const RV_READ: u64 = 0x2;

/// The page can be written.
pub const RV_WRITE: u64 = 0x4;

/// The page can be executed.
pub const RV_EXECUTE: u64 = 0x8;

/// The page can be used in user mode.
pub const RV_USER: u64 = 0x10;

/// The page has been accessed.
pub const RV_ACCESSED: u64 = 0x40;

/// The page has been written.
pub const RV_DIRTY: u64 = 0x80;

/// Memory type: idempotent, but not cached.
pub const PBMT_NC: u64 = 0x2000_0000_0000_0000;

/// Memory type: device registers.
pub const PBMT_IO: u64 = 0x4000_0000_0000_0000;

/// The bits of an entry that hold the memory type.
pub const PBMT_MASK: u64 = 0x6000_0000_0000_0000;

/// The bits of an entry that hold the page number.
pub const RV_PAGE_MASK: u64 = 0x003f_ffff_ffff_fc00;

/// The physical addresses that an entry can hold: page aligned, 56 bits.
pub const RV_ADDR_MASK: u64 = 0x00ff_ffff_ffff_f000;

/// The memory type of the attributes `flags`: device registers, memory that
/// bypasses the cache, or whatever the physical memory attributes say.
pub open spec fn pbmt_of(flags: u64) -> u64 {
    if flags & MAP_DEVICE != 0 {
        PBMT_IO
    } else if flags & MAP_UNCACHED != 0 {
        PBMT_NC
    } else {
        0
    }
}

/// The entry bits that stand for the attributes `flags`.
pub open spec fn rv_bits_of(flags: u64) -> u64 {
    if flags == 0 {
        0
    } else {
        RV_VALID | (if flags & MAP_READ != 0 {
            RV_READ
        } else {
            0
        }) | (if flags & MAP_WRITE != 0 {
            RV_WRITE
        } else {
            0
        }) | (if flags & MAP_EXECUTE != 0 {
            RV_EXECUTE
        } else {
            0
        }) | (if flags & MAP_USER != 0 {
            RV_USER
        } else {
            0
        }) | pbmt_of(flags)
    }
}

/// The attributes that the entry `bits` stands for.
pub open spec fn rv_flags_of(bits: u64) -> u64 {
    if bits & RV_VALID == 0 {
        0
    } else {
        (if bits & RV_READ != 0 {
            MAP_READ
        } else {
            0
        }) | (if bits & RV_WRITE != 0 {
            MAP_WRITE
        } else {
            0
        }) | (if bits & RV_EXECUTE != 0 {
            MAP_EXECUTE
        } else {
            0
        }) | (if bits & RV_USER != 0 {
            MAP_USER
        } else {
            0
        }) | (if bits & PBMT_MASK == PBMT_NC {
            MAP_UNCACHED
        } else if bits & PBMT_MASK == PBMT_IO {
            MAP_DEVICE
        } else {
            0
        })
    }
}

/// The entry that maps a page.
pub open spec fn rv_page_bits(paddr: u64, flags: u64) -> u64 {
    rv_bits_of(flags) | RV_ACCESSED | RV_DIRTY | ((paddr >> 2) & RV_PAGE_MASK)
}

/// A page table entry.
#[derive(Debug, Clone, Copy, PartialEq, Eq, Structural)]
pub struct Rv64PTE(pub u64);

impl Rv64PTE {
    /// The entry that maps the page at `paddr`. A large page looks no different.
    pub fn new_page(paddr: u64, flags: MappingFlags, _is_huge: bool) -> (entry: Self)
        ensures
            entry.0 == rv_page_bits(paddr, flags.bits),
    {
        let f: u64 = flags.bits;
        let bits: u64 = if f == 0 {
            0
        } else {
            let read: u64 = if f & MAP_READ != 0 {
                RV_READ
            } else {
                0
            };
            let write: u64 = if f & MAP_WRITE != 0 {
                RV_WRITE
            } else {
                0
            };
            let execute: u64 = if f & MAP_EXECUTE != 0 {
                RV_EXECUTE
            } else {
                0
            };
            let user: u64 = if f & MAP_USER != 0 {
                RV_USER
            } else {
                0
            };
            let pbmt: u64 = if f & MAP_DEVICE != 0 {
                PBMT_IO
            } else if f & MAP_UNCACHED != 0 {
                PBMT_NC
            } else {
                0
            };
            RV_VALID | read | write | execute | user | pbmt
        };
        Self(bits | RV_ACCESSED | RV_DIRTY | ((paddr >> 2) & RV_PAGE_MASK))
    }

    /// The physical address in the entry.
    pub fn paddr(&self) -> (paddr: u64)
        ensures
            paddr == (self.0 & RV_PAGE_MASK) << 2,
    {
        (self.0 & RV_PAGE_MASK) << 2
    }

    /// The attributes in the entry.
    pub fn flags(&self) -> (flags: MappingFlags)
        ensures
            flags.bits == rv_flags_of(self.0),
    {
        let b: u64 = self.0;
        if b & RV_VALID == 0 {
            return MappingFlags::empty();
        }
        let read: u64 = if b & RV_READ != 0 {
            MAP_READ
        } else {
            0
        };
        let write: u64 = if b & RV_WRITE != 0 {
            MAP_WRITE
        } else {
            0
        };
        let execute: u64 = if b & RV_EXECUTE != 0 {
            MAP_EXECUTE
        } else {
            0
        };
        let user: u64 = if b & RV_USER != 0 {
            MAP_USER
        } else {
            0
        };
        let cache: u64 = if b & PBMT_MASK == PBMT_NC {
            MAP_UNCACHED
        } else if b & PBMT_MASK == PBMT_IO {
            MAP_DEVICE
        } else {
            0
        };
        MappingFlags::from_bits(read | write | execute | user | cache)
    }

    /// The entry as a number.
    pub fn bits(&self) -> (bits: u64)
        ensures
            bits == self.0,
    {
        self.0
    }
}

/// A page's memory type is encoded in its entry: uncached memory is `01`, device
/// registers are `10`, and everything else is left to the physical memory
/// attributes.
pub proof fn rv_page_has_its_memory_type(paddr: u64, flags: u64)
    ensures
        (rv_page_bits(paddr, flags) >> 61) & 3 == (if flags & MAP_DEVICE != 0 {
            2u64
        } else if flags & MAP_UNCACHED != 0 {
            1u64
        } else {
            0u64
        }),
{
    assert((rv_page_bits(paddr, flags) >> 61) & 3 == (if flags & MAP_DEVICE != 0 {
        2u64
    } else if flags & MAP_UNCACHED != 0 {
        1u64
    } else {
        0u64
    })) by (bit_vector);
}

/// An entry gives back the page's address, and all of its attributes unless it
/// was to be both device and uncached memory.
pub proof fn rv_page_reads_back(paddr: u64, flags: u64)
    requires
        paddr & !RV_ADDR_MASK == 0,
        flags < 0x40,
        !(flags & MAP_DEVICE != 0 && flags & MAP_UNCACHED != 0),
    ensures
        (rv_page_bits(paddr, flags) & RV_PAGE_MASK) << 2 == paddr,
        rv_flags_of(rv_page_bits(paddr, flags)) == flags,
{
    assert((rv_page_bits(paddr, flags) & RV_PAGE_MASK) << 2 == paddr && rv_flags_of(
        rv_page_bits(paddr, flags),
    ) == flags) by (bit_vector)
        requires
            paddr & !RV_ADDR_MASK == 0,
            flags < 0x40,
            !(flags & MAP_DEVICE != 0 && flags & MAP_UNCACHED != 0),
    ;
}

} // verus!
