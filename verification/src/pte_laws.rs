//! Page table entries, hardware bit by hardware bit.

use vstd::prelude::*;

use crate::mapping::{flag_names, name_at, MappingFlags};
use crate::pte_rv64::{rv_flags_of, rv_page_bits};
use crate::pte_x64::{flags_of, page_bits, ptf_of, table_bits};

verus! {

/// Each bit of an x86-64 entry says what the architecture has it say: of a page
/// with any attributes, bit 0 is set; bit 1 is set exactly if it can be written,
/// bit 2 exactly if user mode can use it, bits 3 and 4 exactly if it is to bypass
/// the cache, and bit 63 exactly if it cannot be executed. Without attributes no
/// bit is set, and no other bit ever is.
pub proof fn x64_bits_one_by_one(flags: u64)
    ensures
        flags == 0 ==> ptf_of(flags) == 0,
        flags != 0 ==> {
            let ptf = ptf_of(flags);
            &&& ptf & 0x1 != 0
            &&& ptf & 0x2 != 0 <==> flags & 0x2 != 0
            &&& ptf & 0x4 != 0 <==> flags & 0x8 != 0
            &&& ptf & 0x8 != 0 <==> flags & 0x30 != 0
            &&& ptf & 0x10 != 0 <==> flags & 0x30 != 0
            &&& ptf & 0x8000_0000_0000_0000 != 0 <==> flags & 0x4 == 0
        },
        ptf_of(flags) & 0x7fff_ffff_ffff_ffe0 == 0,
{
    assert(flags == 0 ==> ptf_of(flags) == 0) by (bit_vector);
    assert(flags != 0 ==> (ptf_of(flags) & 0x1 != 0 && (ptf_of(flags) & 0x2 != 0 <==> flags & 0x2
        != 0) && (ptf_of(flags) & 0x4 != 0 <==> flags & 0x8 != 0) && (ptf_of(flags) & 0x8 != 0
        <==> flags & 0x30 != 0) && (ptf_of(flags) & 0x10 != 0 <==> flags & 0x30 != 0) && (ptf_of(
        flags,
    ) & 0x8000_0000_0000_0000 != 0 <==> flags & 0x4 == 0))) by (bit_vector);
    assert(ptf_of(flags) & 0x7fff_ffff_ffff_ffe0 == 0) by (bit_vector);
}

/// Each attribute that an x86-64 entry stands for comes from its own bit: an entry
/// that is present can be read, can be written exactly if bit 1 is set, can be
/// executed exactly if bit 63 is not, can be used in user mode exactly if bit 2 is
/// set, and is uncached exactly if bit 4 is. One that is not present stands for
/// nothing.
pub proof fn x64_attributes_one_by_one(ptf: u64)
    ensures
        ptf & 0x1 == 0 ==> flags_of(ptf) == 0,
        ptf & 0x1 != 0 ==> {
            let flags = flags_of(ptf);
            &&& flags & 0x1 != 0
            &&& flags & 0x2 != 0 <==> ptf & 0x2 != 0
            &&& flags & 0x4 != 0 <==> ptf & 0x8000_0000_0000_0000 == 0
            &&& flags & 0x8 != 0 <==> ptf & 0x4 != 0
            &&& flags & 0x20 != 0 <==> ptf & 0x10 != 0
        },
        flags_of(ptf) & 0xffff_ffff_ffff_ffd0 == 0,
{
    assert(ptf & 0x1 == 0 ==> flags_of(ptf) == 0) by (bit_vector);
    assert(ptf & 0x1 != 0 ==> (flags_of(ptf) & 0x1 != 0 && (flags_of(ptf) & 0x2 != 0 <==> ptf & 0x2
        != 0) && (flags_of(ptf) & 0x4 != 0 <==> ptf & 0x8000_0000_0000_0000 == 0) && (flags_of(ptf)
        & 0x8 != 0 <==> ptf & 0x4 != 0) && (flags_of(ptf) & 0x20 != 0 <==> ptf & 0x10 != 0)))
        by (bit_vector);
    assert(flags_of(ptf) & 0xffff_ffff_ffff_ffd0 == 0) by (bit_vector);
}

/// The fields of an x86-64 page entry: bits 12 to 51 are those of the address, bit
/// 7 is set exactly for a large page, and the rest are the attribute bits. Of a
/// table entry the address bits are the same, and of the others bits 0, 1 and 2
/// are set.
pub proof fn x64_fields(paddr: u64, flags: u64, is_huge: bool)
    ensures
        page_bits(paddr, flags, is_huge) & 0x000f_ffff_ffff_f000 == paddr & 0x000f_ffff_ffff_f000,
        page_bits(paddr, flags, is_huge) & 0x80 != 0 <==> is_huge,
        page_bits(paddr, flags, is_huge) & 0xfff0_0000_0000_0f7f == ptf_of(flags),
        table_bits(paddr) & 0x000f_ffff_ffff_f000 == paddr & 0x000f_ffff_ffff_f000,
        table_bits(paddr) & 0xfff0_0000_0000_0fff == 0x7,
{
    assert(page_bits(paddr, flags, is_huge) & 0x000f_ffff_ffff_f000 == paddr
        & 0x000f_ffff_ffff_f000 && (page_bits(paddr, flags, is_huge) & 0x80 != 0 <==> is_huge)
        && page_bits(paddr, flags, is_huge) & 0xfff0_0000_0000_0f7f == ptf_of(flags)
        && table_bits(paddr) & 0x000f_ffff_ffff_f000 == paddr & 0x000f_ffff_ffff_f000 && table_bits(
        paddr,
    ) & 0xfff0_0000_0000_0fff == 0x7) by (bit_vector);
}

/// Each bit of a RISC-V page entry says what the architecture has it say: with any
/// attributes it is valid, and bits 1 to 4 are set exactly if the page can be
/// read, written, executed, and used in user mode. It counts as accessed and
/// dirty. Bits 61 and 62 are `10` for device registers, else `01` for uncached
/// memory, else `00`. Bits 10 to 53 are the page number.
pub proof fn rv_bits_one_by_one(paddr: u64, flags: u64)
    ensures
        ({
            let bits = rv_page_bits(paddr, flags);
            &&& bits & 0x1 != 0 <==> flags != 0
            &&& bits & 0x2 != 0 <==> flags & 0x1 != 0
            &&& bits & 0x4 != 0 <==> flags & 0x2 != 0
            &&& bits & 0x8 != 0 <==> flags & 0x4 != 0
            &&& bits & 0x10 != 0 <==> flags & 0x8 != 0
            &&& bits & 0xc0 == 0xc0
            &&& bits & 0x4000_0000_0000_0000 != 0 <==> flags & 0x10 != 0
            &&& bits & 0x2000_0000_0000_0000 != 0 <==> flags & 0x10 == 0 && flags & 0x20 != 0
            &&& (bits >> 10) & 0xfff_ffff_ffff == (paddr >> 12) & 0xfff_ffff_ffff
            &&& bits & 0x9fc0_0000_0000_0320 == 0
        }),
{
    assert((rv_page_bits(paddr, flags) & 0x1 != 0 <==> flags != 0) && (rv_page_bits(paddr, flags)
        & 0x2 != 0 <==> flags & 0x1 != 0) && (rv_page_bits(paddr, flags) & 0x4 != 0 <==> flags & 0x2
        != 0) && (rv_page_bits(paddr, flags) & 0x8 != 0 <==> flags & 0x4 != 0) && (rv_page_bits(
        paddr,
        flags,
    ) & 0x10 != 0 <==> flags & 0x8 != 0)) by (bit_vector);
    assert(rv_page_bits(paddr, flags) & 0xc0 == 0xc0 && (rv_page_bits(paddr, flags)
        & 0x4000_0000_0000_0000 != 0 <==> flags & 0x10 != 0) && (rv_page_bits(paddr, flags)
        & 0x2000_0000_0000_0000 != 0 <==> flags & 0x10 == 0 && flags & 0x20 != 0)) by (bit_vector);
    assert((rv_page_bits(paddr, flags) >> 10) & 0xfff_ffff_ffff == (paddr >> 12) & 0xfff_ffff_ffff
        && rv_page_bits(paddr, flags) & 0x9fc0_0000_0000_0320 == 0) by (bit_vector);
}

/// Each attribute that a RISC-V entry stands for comes from its own bits; an entry
/// that is not valid stands for nothing.
pub proof fn rv_attributes_one_by_one(bits: u64)
    ensures
        bits & 0x1 == 0 ==> rv_flags_of(bits) == 0,
        bits & 0x1 != 0 ==> {
            let flags = rv_flags_of(bits);
            &&& flags & 0x1 != 0 <==> bits & 0x2 != 0
            &&& flags & 0x2 != 0 <==> bits & 0x4 != 0
            &&& flags & 0x4 != 0 <==> bits & 0x8 != 0
            &&& flags & 0x8 != 0 <==> bits & 0x10 != 0
            &&& flags & 0x10 != 0 <==> (bits >> 61) & 3 == 2
            &&& flags & 0x20 != 0 <==> (bits >> 61) & 3 == 1
        },
        rv_flags_of(bits) & 0xffff_ffff_ffff_ffc0 == 0,
{
    assert(bits & 0x1 == 0 ==> rv_flags_of(bits) == 0) by (bit_vector);
    assert(bits & 0x1 != 0 ==> ((rv_flags_of(bits) & 0x1 != 0 <==> bits & 0x2 != 0) && (rv_flags_of(
        bits,
    ) & 0x2 != 0 <==> bits & 0x4 != 0) && (rv_flags_of(bits) & 0x4 != 0 <==> bits & 0x8 != 0) && (
    rv_flags_of(bits) & 0x8 != 0 <==> bits & 0x10 != 0) && (rv_flags_of(bits) & 0x10 != 0 <==> (
    bits >> 61) & 3 == 2) && (rv_flags_of(bits) & 0x20 != 0 <==> (bits >> 61) & 3 == 1)))
        by (bit_vector);
    assert(rv_flags_of(bits) & 0xffff_ffff_ffff_ffc0 == 0) by (bit_vector);
}

/// A set of attributes has a single attribute exactly if its bit is set.
pub proof fn an_attribute_is_a_bit(flags: MappingFlags, b: u64)
    requires
        b < 64,
    ensures
        flags.has(1u64 << b) <==> (flags.bits >> b) & 1 == 1,
{
    let f = flags.bits;
    assert(f & (1u64 << b) == (1u64 << b) <==> (f >> b) & 1 == 1) by (bit_vector)
        requires
            b < 64,
    ;
}

/// The attributes by their bits, from the lowest on.
pub proof fn the_names_of_the_attributes()
    ensures
        name_at(0) == "READ"@,
        name_at(1) == "WRITE"@,
        name_at(2) == "EXECUTE"@,
        name_at(3) == "USER"@,
        name_at(4) == "DEVICE"@,
        name_at(5) == "UNCACHED"@,
{
}

/// Whether attribute `b` is in the set.
pub open spec fn set_at(bits: u64, b: nat) -> bool {
    (bits >> (b as usize)) & 1 == 1
}

/// `text` ends in `name`, which stands alone or behind a bar.
pub open spec fn ends_in(text: Seq<char>, name: Seq<char>) -> bool {
    ||| text == name
    ||| exists|front: Seq<char>| front.len() > 0 && text == #[trigger] (front + " | "@ + name)
}

/// The text of a set names an attribute exactly if it is in the set: going up from
/// bit to bit, an attribute in the set adds its name at the end, behind a bar if
/// there are names already, and one that is not in the set adds nothing.
pub proof fn a_text_names_what_is_in_the_set(bits: u64, b: nat)
    requires
        b < 6,
    ensures
        !set_at(bits, b) ==> flag_names(bits, b + 1) == flag_names(bits, b),
        set_at(bits, b) ==> ends_in(flag_names(bits, b + 1), name_at(b)) && flag_names(
            bits,
            b + 1,
        ).take(flag_names(bits, b).len() as int) == flag_names(bits, b),
        flag_names(bits, 0).len() == 0,
{
    let i = b as usize;
    assert(bits & (1u64 << i) == (1u64 << i) <==> (bits >> i) & 1 == 1) by (bit_vector)
        requires
            i < 64,
    ;
    let before = flag_names(bits, b);
    let after = flag_names(bits, b + 1);
    if set_at(bits, b) && before.len() > 0 {
        assert(after == before + " | "@ + name_at(b));
        assert(after.take(before.len() as int) =~= before);
    } else if set_at(bits, b) {
        assert(after.take(0) =~= before);
    }
}

} // verus!
