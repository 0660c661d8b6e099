//! Attributes of a page mapping.

use vstd::prelude::*;
use vstd::string::StringExecFns;

verus! {

/// The page can be read.
pub const MAP_READ: u64 = 0x1;

/// The page can be written.
pub const MAP_WRITE: u64 = 0x2;

/// The page can be executed.
pub const MAP_EXECUTE: u64 = 0x4;

/// The page can be used in user mode.
pub const MAP_USER: u64 = 0x8;

/// The page holds device registers.
pub const MAP_DEVICE: u64 = 0x10;

/// The page is memory that bypasses the cache.
pub const MAP_UNCACHED: u64 = 0x20;

/// Number of attributes.
pub const MAP_FLAGS: usize = 6;

/// The name of the attribute at bit `i`.
pub open spec fn name_at(i: nat) -> Seq<char> {
    if i == 0 {
        "READ"@
    } else if i == 1 {
        "WRITE"@
    } else if i == 2 {
        "EXECUTE"@
    } else if i == 3 {
        "USER"@
    } else if i == 4 {
        "DEVICE"@
    } else {
        "UNCACHED"@
    }
}

/// The names of the attributes of `bits` below bit `n`, set apart by bars.
pub open spec fn flag_names(bits: u64, n: nat) -> Seq<char>
    decreases n,
{
    if n == 0 {
        Seq::empty()
    } else {
        let before = flag_names(bits, (n - 1) as nat);
        let bit = 1u64 << ((n - 1) as usize);
        if bits & bit != bit {
            before
        } else if before.len() == 0 {
            name_at((n - 1) as nat)
        } else {
            before + " | "@ + name_at((n - 1) as nat)
        }
    }
}

/// The name of the attribute at bit `i`.
fn flag_name(i: usize) -> (name: &'static str)
    ensures
        name@ == name_at(i as nat),
{
    if i == 0 {
        "READ"
    } else if i == 1 {
        "WRITE"
    } else if i == 2 {
        "EXECUTE"
    } else if i == 3 {
        "USER"
    } else if i == 4 {
        "DEVICE"
    } else {
        "UNCACHED"
    }
}

/// Attributes of a page mapping, as a set of bits.
#[derive(Debug, Clone, Copy, PartialEq, Eq, Structural)]
pub struct MappingFlags {
    /// The bits of the set.
    pub bits: u64,
}

impl MappingFlags {
    /// Whether every bit of `mask` is in the set.
    pub open spec fn has(&self, mask: u64) -> bool {
        self.bits & mask == mask
    }

    /// No attributes.
    pub fn empty() -> (flags: Self)
        ensures
            flags.bits == 0,
    {
        Self { bits: 0 }
    }

    /// The attributes with the bits `bits`.
    pub fn from_bits(bits: u64) -> (flags: Self)
        ensures
            flags.bits == bits,
    {
        Self { bits }
    }

    /// The bits of the set.
    pub fn bits(&self) -> (bits: u64)
        ensures
            bits == self.bits,
    {
        self.bits
    }

    /// Whether every bit of `mask` is in the set.
    pub fn contains(&self, mask: u64) -> (yes: bool)
        ensures
            yes == self.has(mask),
    {
        self.bits & mask == mask
    }

    /// The names of the attributes in the set, in ascending order of their bits,
    /// set apart by bars.
    pub fn describe(&self) -> (text: String)
        ensures
            text@ == flag_names(self.bits, MAP_FLAGS as nat),
    {
        let mut text = String::new();
        let mut i: usize = 0;
        while i < MAP_FLAGS
            invariant
                i <= MAP_FLAGS,
                text@ == flag_names(self.bits, i as nat),
            decreases MAP_FLAGS - i,
        {
            let name = flag_name(i);
            if self.contains(1u64 << i) {
                if !text.as_str().is_empty() {
                    text.append(" | ");
                }
                text.append(name);
            }
            i = i + 1;
        }
        text
    }
}

} // verus!
