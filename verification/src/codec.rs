//! The packed error-code layout of the host library.
//!
//! A single integer code combines a (library, function, reason) triple. The
//! layout differs between the two generations of the host's error ABI:
//!
//! * legacy: 8 bits of library at bit 24, 12 bits of function at bit 12,
//!   12 bits of reason at bit 0;
//! * modern: 8 bits of library at bit 23, 23 bits of reason at bit 0, and no
//!   function field at all (the function is carried as debug metadata).
//!
//! Out-of-range components are masked to their field width, exactly as the
//! host's own packing rule masks them.

use vstd::prelude::*;

verus! {

/// One of the two generations of the host library's error ABI.
#[derive(Clone, Copy)]
pub enum Abi {
    /// Function ids are small integers carried inside the packed code.
    Legacy,
    /// Function names are strings carried as debug metadata; the packed code
    /// has no function field.
    Modern,
}

/// The packed code for a (library, function, reason) triple, as the host's
/// packing rule computes it (each component masked to its field width).
pub open spec fn pack(abi: Abi, lib: u32, func: u32, reason: u32) -> int {
    match abi {
        Abi::Legacy => (lib % 0x100) * 0x100_0000 + (func % 0x1000) * 0x1000 + (reason % 0x1000),
        Abi::Modern => (lib % 0x100) * 0x80_0000 + (reason % 0x80_0000),
    }
}

/// The library component of a packed code.
pub open spec fn lib_field(abi: Abi, code: u64) -> int {
    match abi {
        Abi::Legacy => ((code as int) / 0x100_0000) % 0x100,
        Abi::Modern => ((code as int) / 0x80_0000) % 0x100,
    }
}

/// The function component of a packed code (always 0 under the modern ABI).
pub open spec fn func_field(abi: Abi, code: u64) -> int {
    match abi {
        Abi::Legacy => ((code as int) / 0x1000) % 0x1000,
        Abi::Modern => 0,
    }
}

/// The reason component of a packed code.
pub open spec fn reason_field(abi: Abi, code: u64) -> int {
    match abi {
        Abi::Legacy => (code as int) % 0x1000,
        Abi::Modern => (code as int) % 0x80_0000,
    }
}

/// Packs a (library, function, reason) triple into one code.
pub fn err_pack(abi: Abi, lib: u32, func: u32, reason: u32) -> (r: u64)
    ensures
        r == pack(abi, lib, func, reason),
{
    match abi {
        Abi::Legacy => {
            ((lib % 0x100) as u64) * 0x100_0000 + ((func % 0x1000) as u64) * 0x1000
                + ((reason % 0x1000) as u64)
        }
        Abi::Modern => ((lib % 0x100) as u64) * 0x80_0000 + ((reason % 0x80_0000) as u64),
    }
}

/// Extracts the library component of a packed code.
///
/// The modern host's decoder special-cases codes with the high "system
/// error" flag bit set; no code this core produces sets it (see
/// [`lemma_pack_bounded`]), so the extractor reads the library field
/// directly.
pub fn err_get_lib(abi: Abi, code: u64) -> (r: u32)
    ensures
        r == lib_field(abi, code),
{
    match abi {
        Abi::Legacy => ((code / 0x100_0000) % 0x100) as u32,
        Abi::Modern => ((code / 0x80_0000) % 0x100) as u32,
    }
}

/// Extracts the function component of a packed code.
pub fn err_get_func(abi: Abi, code: u64) -> (r: u32)
    ensures
        r == func_field(abi, code),
{
    match abi {
        Abi::Legacy => ((code / 0x1000) % 0x1000) as u32,
        Abi::Modern => 0,
    }
}

/// Extracts the reason component of a packed code.
pub fn err_get_reason(abi: Abi, code: u64) -> (r: u32)
    ensures
        r == reason_field(abi, code),
{
    match abi {
        Abi::Legacy => (code % 0x1000) as u32,
        Abi::Modern => (code % 0x80_0000) as u32,
    }
}

/// A packed code never exceeds the layout's total width, so it always fits
/// the host's unsigned code type and never sets the modern ABI's high
/// "system error" flag bit.
pub proof fn lemma_pack_bounded(abi: Abi, lib: u32, func: u32, reason: u32)
    ensures
        0 <= pack(abi, lib, func, reason) < 0x1_0000_0000,
        matches!(abi, Abi::Modern) ==> pack(abi, lib, func, reason) < 0x8000_0000,
{
}

/// Decoding inverts packing: for components within their field widths, the
/// three field extractors recover exactly the packed components.
pub proof fn lemma_pack_fields(abi: Abi, lib: u32, func: u32, reason: u32)
    requires
        lib < 0x100,
        matches!(abi, Abi::Legacy) ==> func < 0x1000 && reason < 0x1000,
        matches!(abi, Abi::Modern) ==> reason < 0x80_0000,
    ensures
        lib_field(abi, pack(abi, lib, func, reason) as u64) == lib,
        matches!(abi, Abi::Legacy) ==> func_field(abi, pack(abi, lib, func, reason) as u64) == func,
        matches!(abi, Abi::Modern) ==> func_field(abi, pack(abi, lib, func, reason) as u64) == 0,
        reason_field(abi, pack(abi, lib, func, reason) as u64) == reason,
{
    match abi {
        Abi::Legacy => {
            let l = lib as int;
            let f = func as int;
            let r = reason as int;
            let c = l * 0x100_0000 + f * 0x1000 + r;
            assert(pack(abi, lib, func, reason) == c);
            assert(c / 0x100_0000 == l && (c / 0x1000) % 0x1000 == f && c % 0x1000 == r)
                by (nonlinear_arith)
                requires
                    0 <= l < 0x100,
                    0 <= f < 0x1000,
                    0 <= r < 0x1000,
                    c == l * 0x100_0000 + f * 0x1000 + r,
            ;
        }
        Abi::Modern => {
            let l = lib as int;
            let r = reason as int;
            let c = l * 0x80_0000 + r;
            assert(pack(abi, lib, func, reason) == c);
            assert(c / 0x80_0000 == l && c % 0x80_0000 == r) by (nonlinear_arith)
                requires
                    0 <= l < 0x100,
                    0 <= r < 0x80_0000,
                    c == l * 0x80_0000 + r,
            ;
        }
    }
}

/// Packing is injective on in-range triples: two packed codes are equal only
/// if their library, function and reason components are all equal.
pub proof fn lemma_pack_injective(abi: Abi, l1: u32, f1: u32, r1: u32, l2: u32, f2: u32, r2: u32)
    requires
        l1 < 0x100,
        l2 < 0x100,
        matches!(abi, Abi::Legacy) ==> f1 < 0x1000 && r1 < 0x1000 && f2 < 0x1000 && r2 < 0x1000,
        matches!(abi, Abi::Modern) ==> r1 < 0x80_0000 && r2 < 0x80_0000,
        pack(abi, l1, f1, r1) == pack(abi, l2, f2, r2),
    ensures
        l1 == l2,
        reason_field(abi, pack(abi, l1, f1, r1) as u64) == reason_field(
            abi,
            pack(abi, l2, f2, r2) as u64,
        ),
        r1 == r2,
        matches!(abi, Abi::Legacy) ==> f1 == f2,
{
    lemma_pack_fields(abi, l1, f1, r1);
    lemma_pack_fields(abi, l2, f2, r2);
}

} // verus!
