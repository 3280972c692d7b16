//! Library-wide laws, proved over the specs the contracts are stated in.
//!
//! The laws relate the table builder, the registration step and the push
//! path: declaration-order numbering of codes, the shape of a trivial
//! declaration's table, and the round trip from a pushed error back to the
//! declared display strings.

use vstd::prelude::*;
use crate::codec::{pack, lib_field, func_field, reason_field, lemma_pack_fields, lemma_pack_bounded, Abi};
use crate::decl::LibraryDecl;
use crate::table::{TableEntry, table_layout, func_rows, entry_is};
use crate::host::{StringRow, lookup, lemma_lookup_append, lemma_lookup_from_match};
use crate::library::rows_match;

verus! {

/// Declaration-order numbering: in a library's table, the function rows
/// carry function components exactly `1..=k` and the reason rows reason
/// components exactly `1..=m`, in declaration order, with no code equal to
/// another and none whose own component is 0.
pub proof fn lemma_codes_sequential(abi: Abi, decl: LibraryDecl, lib: u32, t: Seq<TableEntry>)
    requires
        decl.wf(abi),
        table_layout(abi, decl, lib, t),
        lib < 0x100,
    ensures
        forall|i: int|
            1 <= i <= func_rows(abi, decl) ==> func_field(abi, (#[trigger] t[i]).code as u64)
                == i && reason_field(abi, t[i].code as u64) == 0,
        forall|j: int|
            1 <= j <= decl.reasons@.len() ==> reason_field(
                abi,
                (#[trigger] t[func_rows(abi, decl) + j]).code as u64,
            ) == j && func_field(abi, t[func_rows(abi, decl) + j].code as u64) == 0,
        forall|p: int, q: int|
            1 <= p < q < t.len() - 1 ==> (#[trigger] t[p]).code != (#[trigger] t[q]).code,
{
    let k = func_rows(abi, decl);
    let m = decl.reasons@.len() as int;
    assert forall|i: int| 1 <= i <= k implies func_field(abi, (#[trigger] t[i]).code as u64) == i
        && reason_field(abi, t[i].code as u64) == 0 by {
        lemma_pack_fields(abi, 0, i as u32, 0);
    }
    assert forall|j: int| 1 <= j <= m implies reason_field(abi, (#[trigger] t[k + j]).code as u64)
        == j && func_field(abi, t[k + j].code as u64) == 0 by {
        lemma_pack_fields(abi, 0, 0, j as u32);
    }
    assert forall|p: int, q: int| 1 <= p < q < t.len() - 1 implies (#[trigger] t[p]).code != (
    #[trigger] t[q]).code by {
        if q <= k {
            assert(func_field(abi, t[p].code as u64) == p);
            assert(func_field(abi, t[q].code as u64) == q);
        } else if p <= k {
            assert(entry_is(t[k + (q - k)], pack(abi, 0, 0, (q - k) as u32), decl.reasons@[q - k
                - 1]@));
            assert(reason_field(abi, t[q].code as u64) == q - k);
            assert(reason_field(abi, t[p].code as u64) == 0);
        } else {
            assert(entry_is(t[k + (p - k)], pack(abi, 0, 0, (p - k) as u32), decl.reasons@[p - k
                - 1]@));
            assert(entry_is(t[k + (q - k)], pack(abi, 0, 0, (q - k) as u32), decl.reasons@[q - k
                - 1]@));
            assert(reason_field(abi, t[p].code as u64) == p - k);
            assert(reason_field(abi, t[q].code as u64) == q - k);
        }
    }
}

/// A library declared with no functions and no reasons still has a proper
/// table: exactly the library-name row and the sentinel.
pub proof fn lemma_empty_declaration_table(abi: Abi, decl: LibraryDecl, lib: u32, t: Seq<TableEntry>)
    requires
        decl.functions@.len() == 0,
        decl.reasons@.len() == 0,
        table_layout(abi, decl, lib, t),
    ensures
        t.len() == 2,
        entry_is(t[0], pack(abi, lib, 0, 0), decl.name@),
        t[1].code == 0,
        t[1].text is None,
{
}

/// Round trip: a pushed error's packed code decodes back to the library id,
/// function and reason it was pushed with, and the host's string registry —
/// holding the registered rows of that library after any rows of other
/// libraries — yields the declared display name for the library, for the
/// reason, and (under the legacy ABI, where function names are registered)
/// for the function.
pub proof fn lemma_error_round_trip(
    abi: Abi,
    decl: LibraryDecl,
    lib: u32,
    f: u32,
    r: u32,
    rows: Seq<StringRow>,
    pre: int,
    code: u64,
)
    requires
        decl.wf(abi),
        1 <= lib < 0x100,
        1 <= r <= decl.reasons@.len(),
        matches!(abi, Abi::Legacy) ==> 1 <= f <= decl.functions@.len(),
        code == pack(abi, lib, (match abi { Abi::Legacy => f, Abi::Modern => 0 }), r),
        0 <= pre <= rows.len(),
        forall|p: int| 0 <= p < pre ==> lib_field(abi, (#[trigger] rows[p]).code) != lib,
        rows_match(rows.skip(pre), abi, decl, lib),
    ensures
        lib_field(abi, code) == lib,
        matches!(abi, Abi::Legacy) ==> func_field(abi, code) == f,
        reason_field(abi, code) == r,
        (lookup(rows, pack(abi, lib, 0, 0) as u64) matches Some(s) && s@ == decl.name@),
        (lookup(rows, pack(abi, lib, 0, r) as u64) matches Some(s) && s@ == decl.reasons@[r - 1]@),
        matches!(abi, Abi::Legacy) ==> (lookup(rows, pack(abi, lib, f, 0) as u64) matches Some(s)
            && s@ == decl.functions@[f - 1]@),
{
    let k = func_rows(abi, decl);
    let fc: u32 = (match abi { Abi::Legacy => f, Abi::Modern => 0 });
    lemma_pack_fields(abi, lib, fc, r);
    let suf = rows.skip(pre);
    let head = rows.take(pre);
    assert(rows =~= head + suf);

    let q_name = pack(abi, lib, 0, 0) as u64;
    let q_reason = pack(abi, lib, 0, r) as u64;
    lemma_pack_bounded(abi, lib, 0, 0);
    lemma_pack_bounded(abi, lib, 0, r);
    assert(q_name == pack(abi, lib, 0, 0));
    assert(q_reason == pack(abi, lib, 0, r));
    lemma_pack_fields(abi, lib, 0, 0);
    lemma_pack_fields(abi, lib, 0, r);

    // no row of another library matches any of this library's codes
    assert forall|p: int| 0 <= p < head.len() implies (#[trigger] head[p]).code != q_name by {
        assert(head[p] == rows[p]);
    }
    assert forall|p: int| 0 <= p < head.len() implies (#[trigger] head[p]).code != q_reason by {
        assert(head[p] == rows[p]);
    }
    lemma_lookup_append(head, suf, q_name);
    lemma_lookup_append(head, suf, q_reason);

    // the library-name row is the first row of the library's own block
    lemma_lookup_from_match(suf, q_name, 0, 0);

    // the reason row: every earlier row of the block carries a different code
    assert forall|p: int| 0 <= p < k + r implies (#[trigger] suf[p]).code != q_reason by {
        if p == 0 {
        } else if p <= k {
            lemma_pack_fields(abi, lib, p as u32, 0);
        } else {
            let j = p - k;
            lemma_pack_fields(abi, lib, 0, j as u32);
            assert(suf[k + j].code == pack(abi, lib, 0, j as u32));
        }
    }
    lemma_lookup_from_match(suf, q_reason, k + r, 0);

    match abi {
        Abi::Legacy => {
            let q_func = pack(abi, lib, f, 0) as u64;
            lemma_pack_bounded(abi, lib, f, 0);
            assert(q_func == pack(abi, lib, f, 0));
            lemma_pack_fields(abi, lib, f, 0);
            assert forall|p: int| 0 <= p < head.len() implies (#[trigger] head[p]).code
                != q_func by {
                assert(head[p] == rows[p]);
            }
            lemma_lookup_append(head, suf, q_func);
            assert forall|p: int| 0 <= p < f implies (#[trigger] suf[p]).code != q_func by {
                if p >= 1 {
                    lemma_pack_fields(abi, lib, p as u32, 0);
                }
            }
            lemma_lookup_from_match(suf, q_func, f as int, 0);
        }
        Abi::Modern => {}
    }
}


/// The round trip from a well-formed registry: when every row in front of
/// the library's block belongs to an earlier id — which is what
/// [`crate::host::Host::strings_wf`] yields for the rows present before the
/// registration that assigned `lib`, since that registration took the next
/// free id — the freshness hypothesis of [`lemma_error_round_trip`] holds
/// and the same conclusions follow.
pub proof fn lemma_error_round_trip_fresh(
    abi: Abi,
    decl: LibraryDecl,
    lib: u32,
    f: u32,
    r: u32,
    rows: Seq<StringRow>,
    pre: int,
    code: u64,
)
    requires
        decl.wf(abi),
        1 <= lib < 0x100,
        1 <= r <= decl.reasons@.len(),
        matches!(abi, Abi::Legacy) ==> 1 <= f <= decl.functions@.len(),
        code == pack(abi, lib, (match abi { Abi::Legacy => f, Abi::Modern => 0 }), r),
        0 <= pre <= rows.len(),
        forall|p: int| 0 <= p < pre ==> lib_field(abi, (#[trigger] rows[p]).code) < lib,
        rows_match(rows.skip(pre), abi, decl, lib),
    ensures
        lib_field(abi, code) == lib,
        matches!(abi, Abi::Legacy) ==> func_field(abi, code) == f,
        reason_field(abi, code) == r,
        (lookup(rows, pack(abi, lib, 0, 0) as u64) matches Some(s) && s@ == decl.name@),
        (lookup(rows, pack(abi, lib, 0, r) as u64) matches Some(s) && s@ == decl.reasons@[r - 1]@),
        matches!(abi, Abi::Legacy) ==> (lookup(rows, pack(abi, lib, f, 0) as u64) matches Some(s)
            && s@ == decl.functions@[f - 1]@),
{
    lemma_error_round_trip(abi, decl, lib, f, r, rows, pre, code);
}

} // verus!
