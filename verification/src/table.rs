//! Construction of a library's static error-string table.
//!
//! The table for one library holds: one entry for the library's own display
//! name (whose packed code is patched to carry the host-assigned library id
//! at registration time), one entry per function (legacy ABI only), one entry
//! per reason, and a terminating sentinel entry with code 0 and no string.

use vstd::prelude::*;
use crate::codec::{pack, err_pack, Abi};
use crate::decl::LibraryDecl;

verus! {

/// One row of a library's error-string table: a packed code paired with a
/// display string, or the `(0, None)` sentinel that ends the table.
pub struct TableEntry {
    /// The packed code this row's string is registered under.
    pub code: u64,
    /// The display string; `None` only in the sentinel row.
    pub text: Option<String>,
}

/// An entry carrying the given code and display text.
pub open spec fn entry_is(e: TableEntry, code: int, text: Seq<char>) -> bool {
    &&& e.code == code
    &&& e.text matches Some(s) && s@ == text
}

/// The number of function rows the table holds: one per declared function
/// under the legacy ABI, none under the modern ABI (the modern host does not
/// register function names in this table).
pub open spec fn func_rows(abi: Abi, decl: LibraryDecl) -> int {
    match abi {
        Abi::Legacy => decl.functions@.len() as int,
        Abi::Modern => 0,
    }
}

/// The table for `decl` with library component `lib` in its first row:
/// the library-name row, `func_rows` function rows, one row per reason, and
/// the sentinel. Before registration `lib` is 0, so the first row's code is
/// 0; the registration patch makes it `pack(abi, lib, 0, 0)`.
pub open spec fn table_layout(abi: Abi, decl: LibraryDecl, lib: u32, t: Seq<TableEntry>) -> bool {
    let k = func_rows(abi, decl);
    let m = decl.reasons@.len() as int;
    &&& t.len() == k + m + 2
    &&& entry_is(t[0], pack(abi, lib, 0, 0), decl.name@)
    &&& forall|i: int|
        1 <= i <= k ==> entry_is(#[trigger] t[i], pack(abi, 0, i as u32, 0), decl.functions@[i - 1]@)
    &&& forall|j: int|
        1 <= j <= m ==> entry_is(
            #[trigger] t[k + j],
            pack(abi, 0, 0, j as u32),
            decl.reasons@[j - 1]@,
        )
    &&& t[t.len() - 1].code == 0
    &&& t[t.len() - 1].text is None
}

/// Every row of a well-formed table except the sentinel carries a display
/// string and, once the first row is patched with a nonzero library id, a
/// nonzero code — the host's table loader walks rows until it meets a code
/// of 0, so exactly these rows are loaded.
pub proof fn lemma_table_codes_nonzero(abi: Abi, decl: LibraryDecl, lib: u32, t: Seq<TableEntry>)
    requires
        decl.wf(abi),
        table_layout(abi, decl, lib, t),
        1 <= lib < 0x100,
    ensures
        forall|i: int| 0 <= i < t.len() - 1 ==> ((#[trigger] t[i]).code != 0 && t[i].text is Some),
{
    let k = func_rows(abi, decl);
    assert forall|i: int| 0 <= i < t.len() - 1 implies ((#[trigger] t[i]).code != 0
        && t[i].text is Some) by {
        if i == 0 {
            assert(pack(abi, lib, 0, 0) >= 0x80_0000);
        } else if i <= k {
            assert(entry_is(t[i], pack(abi, 0, i as u32, 0), decl.functions@[i - 1]@));
        } else {
            let j = i - k;
            assert(entry_is(t[k + j], pack(abi, 0, 0, j as u32), decl.reasons@[j - 1]@));
        }
    }
}

/// Builds the unpatched string table for a declaration: the library-name row
/// (code still 0), the function rows under the legacy ABI, the reason rows,
/// and the sentinel.
pub fn build_table(abi: Abi, decl: &LibraryDecl) -> (t: Vec<TableEntry>)
    requires
        decl.wf(abi),
    ensures
        table_layout(abi, *decl, 0, t@),
{
    let ghost gk = func_rows(abi, *decl);
    let mut t: Vec<TableEntry> = Vec::new();
    t.push(TableEntry { code: 0, text: Some(decl.name.clone()) });
    assert(pack(abi, 0, 0, 0) == 0);
    let k: usize = match abi {
        Abi::Legacy => decl.functions.len(),
        Abi::Modern => 0,
    };
    let mut i: usize = 1;
    while i <= k
        invariant
            decl.wf(abi),
            gk == func_rows(abi, *decl),
            k == gk,
            1 <= i <= k + 1,
            t@.len() == i,
            entry_is(t@[0], 0, decl.name@),
            forall|p: int|
                1 <= p < i ==> entry_is(
                    #[trigger] t@[p],
                    pack(abi, 0, p as u32, 0),
                    decl.functions@[p - 1]@,
                ),
        decreases k + 1 - i,
    {
        t.push(TableEntry { code: err_pack(abi, 0, i as u32, 0), text: Some(decl.functions[i - 1].clone()) });
        i += 1;
    }
    let m: usize = decl.reasons.len();
    let mut j: usize = 1;
    while j <= m
        invariant
            decl.wf(abi),
            gk == func_rows(abi, *decl),
            k == gk,
            m == decl.reasons@.len(),
            1 <= j <= m + 1,
            t@.len() == k + j,
            entry_is(t@[0], 0, decl.name@),
            forall|p: int|
                1 <= p <= k ==> entry_is(
                    #[trigger] t@[p],
                    pack(abi, 0, p as u32, 0),
                    decl.functions@[p - 1]@,
                ),
            forall|q: int|
                1 <= q < j ==> entry_is(
                    #[trigger] t@[k + q],
                    pack(abi, 0, 0, q as u32),
                    decl.reasons@[q - 1]@,
                ),
        decreases m + 1 - j,
    {
        t.push(TableEntry { code: err_pack(abi, 0, 0, j as u32), text: Some(decl.reasons[j - 1].clone()) });
        j += 1;
    }
    t.push(TableEntry { code: 0, text: None });
    t
}

/// Overwrites the packed code of the table's first row, leaving its string
/// and every other row unchanged. Registration uses this to stamp the
/// host-assigned library id into the library-name row.
pub fn patch_first_code(t: &mut Vec<TableEntry>, code: u64)
    requires
        old(t)@.len() >= 1,
    ensures
        final(t)@.len() == old(t)@.len(),
        final(t)@[0].code == code,
        final(t)@[0].text == old(t)@[0].text,
        forall|i: int| 1 <= i < old(t)@.len() ==> final(t)@[i] == old(t)@[i],
{
    t[0].code = code;
}

/// Patching the first row of an unpatched table with the packed form of a
/// library id yields the table layout for that id.
pub proof fn lemma_patched_layout(
    abi: Abi,
    decl: LibraryDecl,
    lib: u32,
    t0: Seq<TableEntry>,
    t1: Seq<TableEntry>,
)
    requires
        table_layout(abi, decl, 0, t0),
        t1.len() == t0.len(),
        t1[0].code == pack(abi, lib, 0, 0),
        t1[0].text == t0[0].text,
        forall|i: int| 1 <= i < t0.len() ==> t1[i] == t0[i],
    ensures
        table_layout(abi, decl, lib, t1),
{
    let k = func_rows(abi, decl);
    let m = decl.reasons@.len() as int;
    assert forall|i: int| 1 <= i <= k implies entry_is(
        #[trigger] t1[i],
        pack(abi, 0, i as u32, 0),
        decl.functions@[i - 1]@,
    ) by {
        assert(t1[i] == t0[i]);
    }
    assert forall|j: int| 1 <= j <= m implies entry_is(
        #[trigger] t1[k + j],
        pack(abi, 0, 0, j as u32),
        decl.reasons@[j - 1]@,
    ) by {
        assert(t1[k + j] == t0[k + j]);
    }
}

} // verus!
