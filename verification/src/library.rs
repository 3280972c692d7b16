//! A declared error library's registration state and the push operation.
//!
//! [`ErrorLibrary`] bundles everything one declared library needs at run
//! time: its declaration, its string table, and the registration state
//! (the cached host-assigned id). [`ErrorLibrary::resolve_id`] performs the
//! one-time registration — initialize the host's string subsystem, take a
//! fresh library id, patch it into the table's first row, load the table —
//! and afterwards only returns the cached id without touching the host.
//! [`__put_error`] resolves the id and records one error, with an optional
//! message, through the ABI generation the host speaks.

use vstd::prelude::*;
use core::marker::PhantomData;
use crate::codec::{pack, lib_field, lemma_pack_fields, lemma_pack_bounded, err_pack, Abi};
use crate::decl::{LibraryDecl, RawFunction, Function, Reason, Message};
use crate::table::{TableEntry, table_layout, func_rows, build_table, patch_first_code,
    lemma_patched_layout, lemma_table_codes_nonzero};
use crate::host::{Host, StringRow, loaded_rows, combine};

verus! {

/// The string-registry rows that registering `decl` under id `lib` adds:
/// the library-name row, one row per function under the legacy ABI, and one
/// row per reason, each code carrying `lib` in its library field.
pub open spec fn rows_match(rows: Seq<StringRow>, abi: Abi, decl: LibraryDecl, lib: u32) -> bool {
    let k = func_rows(abi, decl);
    let m = decl.reasons@.len() as int;
    &&& rows.len() == k + m + 1
    &&& rows[0].code == pack(abi, lib, 0, 0)
    &&& rows[0].text@ == decl.name@
    &&& forall|i: int|
        1 <= i <= k ==> (#[trigger] rows[i]).code == pack(abi, lib, i as u32, 0)
            && rows[i].text@ == decl.functions@[i - 1]@
    &&& forall|j: int|
        1 <= j <= m ==> (#[trigger] rows[k + j]).code == pack(abi, lib, 0, j as u32)
            && rows[k + j].text@ == decl.reasons@[j - 1]@
}

/// Loading a patched table for library `lib` adds exactly the rows that
/// `rows_match` describes.
pub proof fn lemma_loaded_rows_match(abi: Abi, decl: LibraryDecl, lib: u32, t: Seq<TableEntry>)
    requires
        decl.wf(abi),
        table_layout(abi, decl, lib, t),
        lib < 0x100,
    ensures
        rows_match(loaded_rows(abi, lib, t), abi, decl, lib),
{
    let k = func_rows(abi, decl);
    let m = decl.reasons@.len() as int;
    let rows = loaded_rows(abi, lib, t);
    lemma_pack_fields(abi, 0, 0, 0);
    lemma_pack_fields(abi, lib, 0, 0);
    assert(combine(abi, lib, t[0].code) == pack(abi, lib, 0, 0));
    assert forall|i: int| 1 <= i <= k implies (#[trigger] rows[i]).code == pack(
        abi,
        lib,
        i as u32,
        0,
    ) && rows[i].text@ == decl.functions@[i - 1]@ by {
        lemma_pack_fields(abi, 0, i as u32, 0);
    }
    assert forall|j: int| 1 <= j <= m implies (#[trigger] rows[k + j]).code == pack(
        abi,
        lib,
        0,
        j as u32,
    ) && rows[k + j].text@ == decl.reasons@[j - 1]@ by {
        lemma_pack_fields(abi, 0, 0, j as u32);
    }
}

/// Every row that registering a library adds carries that library's id in
/// its library field: with [`Host::strings_wf`], a newly assigned id never
/// collides with a row already present, which is what the round-trip law
/// needs of the rows in front of a library's own block.
pub proof fn lemma_rows_lib_field(rows: Seq<StringRow>, abi: Abi, decl: LibraryDecl, lib: u32)
    requires
        decl.wf(abi),
        lib < 0x100,
        rows_match(rows, abi, decl, lib),
    ensures
        forall|p: int| 0 <= p < rows.len() ==> lib_field(abi, (#[trigger] rows[p]).code) == lib,
{
    let k = func_rows(abi, decl);
    assert forall|p: int| 0 <= p < rows.len() implies lib_field(abi, (#[trigger] rows[p]).code)
        == lib by {
        if p == 0 {
            lemma_pack_bounded(abi, lib, 0, 0);
            lemma_pack_fields(abi, lib, 0, 0);
        } else if p <= k {
            lemma_pack_bounded(abi, lib, p as u32, 0);
            lemma_pack_fields(abi, lib, p as u32, 0);
        } else {
            let j = p - k;
            assert(rows[k + j].code == pack(abi, lib, 0, j as u32));
            lemma_pack_bounded(abi, lib, 0, j as u32);
            lemma_pack_fields(abi, lib, 0, j as u32);
        }
    }
}

/// One declared error library: its declaration, its string table, and its
/// registration state. The marker type `T` — a type with no values — tags
/// the library's tokens, so a [`Function`] or [`Reason`] of one library
/// cannot be pushed against another: the mismatch is a compile error.
#[verifier::reject_recursive_types(T)]
pub struct ErrorLibrary<T> {
    /// The ABI generation this library was declared for; must match the
    /// host it is registered with.
    pub abi: Abi,
    /// The declaration: display name, function names, reason names.
    pub decl: LibraryDecl,
    /// The library's string table; its first row's code is patched with the
    /// host-assigned id during registration.
    pub table: Vec<TableEntry>,
    /// The cached host-assigned library id; 0 while unregistered.
    pub lib_num: u32,
    /// Whether the one-time registration has run.
    pub registered: bool,
    /// Ties the library to its marker type; carries no data.
    pub marker: PhantomData<T>,
}

impl<T> ErrorLibrary<T> {
    /// Internal consistency: the declaration fits the ABI's code fields, and
    /// the table is the declaration's table — unpatched while unregistered,
    /// stamped with the assigned id afterwards.
    pub open spec fn wf(self) -> bool {
        &&& self.decl.wf(self.abi)
        &&& if self.registered {
            1 <= self.lib_num < 0x100 && table_layout(
                self.abi,
                self.decl,
                self.lib_num,
                self.table@,
            )
        } else {
            self.lib_num == 0 && table_layout(self.abi, self.decl, 0, self.table@)
        }
    }

    /// Declares a library: builds its (unpatched) string table; nothing is
    /// registered with the host yet.
    pub fn new(abi: Abi, decl: LibraryDecl) -> (lib: ErrorLibrary<T>)
        requires
            decl.wf(abi),
        ensures
            lib.wf(),
            lib.abi == abi,
            lib.decl == decl,
            !lib.registered,
    {
        let table = build_table(abi, &decl);
        ErrorLibrary { abi, decl, table, lib_num: 0, registered: false, marker: PhantomData }
    }

    /// The function token for the `n`th declared function (1-based): its
    /// sequential code under the legacy ABI, its own display name under the
    /// modern ABI.
    pub fn function(&self, n: u32) -> (f: Function<T>)
        requires
            1 <= n <= self.decl.functions@.len(),
        ensures
            f.raw.fits_abi(self.abi),
            matches!(self.abi, Abi::Legacy) ==> f.raw == RawFunction::Code(n),
            matches!(self.abi, Abi::Modern) ==> (f.raw matches RawFunction::Name(s) && s@
                == self.decl.functions@[n - 1]@),
    {
        match self.abi {
            Abi::Legacy => Function::__from_raw(RawFunction::Code(n)),
            Abi::Modern => Function::__from_raw(
                RawFunction::Name(self.decl.functions[(n - 1) as usize].clone()),
            ),
        }
    }

    /// The reason code for the `n`th declared reason (1-based).
    pub fn reason(&self, n: u32) -> (r: Reason<T>)
        requires
            1 <= n <= self.decl.reasons@.len(),
        ensures
            r.code == n,
    {
        Reason::__from_raw(n)
    }

    /// Whether id resolution may run against this host: the states are
    /// consistent, and — only where registration still has to happen — the
    /// host can still hand out an id that fits the code layout's library
    /// field (exhaustion of the id space is the host's affair, not handled
    /// here).
    pub open spec fn resolvable(self, host: Host) -> bool {
        &&& self.wf()
        &&& host.counters_ok()
        &&& self.abi == host.abi
        &&& !self.registered ==> host.next_lib < 0x100
    }

    /// Returns this library's host-assigned id. The first call performs the
    /// one-time registration: initialize the host's error strings, take the
    /// next free id, patch it into the table's first row, and load the
    /// table. Every later call returns the cached id and performs no host
    /// call at all.
    pub fn resolve_id(&mut self, host: &mut Host) -> (r: u32)
        requires
            old(self).resolvable(*old(host)),
        ensures
            final(self).wf(),
            final(self).registered,
            r == final(self).lib_num,
            1 <= r < 0x100,
            final(self).abi == old(self).abi,
            final(self).decl == old(self).decl,
            old(self).registered ==> {
                &&& r == old(self).lib_num
                &&& final(self).table@ == old(self).table@
                &&& *final(host) == *old(host)
            },
            !old(self).registered ==> {
                &&& r == old(host).next_lib
                &&& final(host).initialized
                &&& final(host).next_lib == old(host).next_lib + 1
                &&& final(host).next_lib_calls == old(host).next_lib_calls + 1
                &&& final(host).load_calls == old(host).load_calls + 1
                &&& final(host).strings@.len() == old(host).strings@.len() + func_rows(
                    old(self).abi,
                    old(self).decl,
                ) + old(self).decl.reasons@.len() + 1
                &&& final(host).strings@.subrange(0, old(host).strings@.len() as int) == old(
                    host,
                ).strings@
                &&& rows_match(
                    final(host).strings@.skip(old(host).strings@.len() as int),
                    old(self).abi,
                    old(self).decl,
                    r,
                )
            },
            final(host).abi == old(host).abi,
            final(host).stack@ == old(host).stack@,
            Host::eq_alloc(*final(host), *old(host)),
            final(host).next_lib >= old(host).next_lib,
            old(host).strings_wf() ==> final(host).strings_wf(),
    {
        if self.registered {
            return self.lib_num;
        }
        host.init();
        let id = host.get_next_error_library();
        let code = err_pack(self.abi, id, 0, 0);
        let ghost unpatched = self.table@;
        patch_first_code(&mut self.table, code);
        proof {
            lemma_patched_layout(self.abi, self.decl, id, unpatched, self.table@);
            lemma_table_codes_nonzero(self.abi, self.decl, id, self.table@);
        }
        self.lib_num = id;
        self.registered = true;
        let ghost pre = host.strings@;
        host.load_strings(id, &self.table);
        proof {
            lemma_loaded_rows_match(self.abi, self.decl, id, self.table@);
            assert(host.strings@.subrange(0, pre.len() as int) =~= pre);
            assert(host.strings@.skip(pre.len() as int) =~= loaded_rows(
                self.abi,
                id,
                self.table@,
            ));
            if old(host).strings_wf() {
                lemma_rows_lib_field(
                    host.strings@.skip(pre.len() as int),
                    self.abi,
                    self.decl,
                    id,
                );
                assert forall|p: int| 0 <= p < host.strings@.len() implies lib_field(
                    host.abi,
                    (#[trigger] host.strings@[p]).code,
                ) < host.next_lib by {
                    if p < pre.len() {
                        assert(host.strings@[p] == pre[p]);
                        assert(lib_field(old(host).abi, pre[p].code) < old(host).next_lib);
                    } else {
                        let q = p - pre.len();
                        assert(host.strings@.skip(pre.len() as int)[q] == host.strings@[p]);
                    }
                }
            }
        }
        id
    }
}

/// The effect the optional message has on the pushed record and on the host
/// allocator, relating host state before and after the push: no message
/// leaves the record's data empty and the allocator untouched; a borrowed
/// static string is attached without allocating; an owned string costs
/// exactly one allocation, sized for the text plus its nul terminator
/// (measured in the model's unit, characters — bytes at the real edge,
/// identical for ASCII), and is silently dropped — leaving the data empty —
/// when that allocation fails.
pub open spec fn message_effect(pre: Host, post: Host, message: Option<Message>) -> bool {
    let rec = post.stack@.last();
    &&& (message is None ==> rec.data is None && Host::eq_alloc(post, pre))
    &&& (message matches Some(Message::Borrowed(s)) ==> (rec.data matches Some(d) && d.text@ == s@
        && !d.host_owned) && Host::eq_alloc(post, pre))
    &&& (message matches Some(Message::Owned(s)) ==> {
        &&& post.malloc_calls == pre.malloc_calls + 1
        &&& post.last_malloc_size == s@.len() + 1
        &&& post.malloc_fails == pre.malloc_fails
        &&& (!pre.malloc_fails ==> (rec.data matches Some(d) && d.text@ == s@ && d.host_owned))
        &&& (pre.malloc_fails ==> rec.data is None)
    })
}

/// Records one error on the host stack, masking the difference between the
/// two ABI generations, and attaches the optional message: one host push
/// call under the legacy ABI; a new-record, debug-info, set-error sequence
/// under the modern ABI. The base record is recorded whatever becomes of
/// the message.
pub fn put_error_inner(
    host: &mut Host,
    library: u32,
    func: &RawFunction,
    reason: u32,
    file: &str,
    line: u32,
    message: Option<Message>,
)
    requires
        old(host).malloc_calls < 0xFFFF_FFFF_FFFF,
        func.fits_abi(old(host).abi),
        message matches Some(Message::Owned(s)) ==> s@.len() < usize::MAX,
    ensures
        final(host).stack@.len() == old(host).stack@.len() + 1,
        forall|i: int|
            0 <= i < old(host).stack@.len() ==> final(host).stack@[i] == old(host).stack@[i],
        final(host).stack@.last().code == pack(old(host).abi, library, func.code(), reason),
        final(host).stack@.last().file@ == file@,
        final(host).stack@.last().line == line,
        matches!(old(host).abi, Abi::Legacy) ==> final(host).stack@.last().func_name is None,
        matches!(old(host).abi, Abi::Modern) ==> (final(host).stack@.last().func_name matches Some(
            fs,
        ) && func matches RawFunction::Name(nm) && fs@ == nm@),
        message_effect(*old(host), *final(host), message),
        Host::eq_registry(*final(host), *old(host)),
{
    match host.abi {
        Abi::Legacy => {
            let n: u32 = match func {
                RawFunction::Code(c) => *c,
                RawFunction::Name(_) => {
                    proof {
                        assert(false);
                    }
                    0
                }
            };
            host.err_put_error(library, n, reason, file, line);
        }
        Abi::Modern => {
            host.err_new();
            match func {
                RawFunction::Name(s) => {
                    host.err_set_debug(file, line, s.as_str());
                }
                RawFunction::Code(_) => {
                    proof {
                        assert(false);
                    }
                }
            }
            host.err_set_error(library, reason);
        }
    }
    match message {
        None => {}
        Some(Message::Borrowed(s)) => {
            host.err_set_error_data(s, false);
        }
        Some(Message::Owned(s)) => {
            let size = s.as_str().unicode_len() + 1;
            let ok = host.crypto_malloc(size);
            if ok {
                host.err_set_error_data(s, true);
            }
        }
    }
}

/// Resolves the library's id — registering the library on first use — and
/// records one error with the given function token, reason code, source
/// location and optional message. The function and reason carry the
/// library's marker type, so tokens of another library are rejected at
/// compile time.
pub fn __put_error<T>(
    lib: &mut ErrorLibrary<T>,
    host: &mut Host,
    func: &Function<T>,
    reason: &Reason<T>,
    file: &str,
    line: u32,
    message: Option<Message>,
)
    requires
        old(lib).resolvable(*old(host)),
        func.raw.fits_abi(old(lib).abi),
        message matches Some(Message::Owned(s)) ==> s@.len() < usize::MAX,
    ensures
        final(lib).wf(),
        final(lib).registered,
        final(lib).abi == old(lib).abi,
        final(lib).decl == old(lib).decl,
        old(lib).registered ==> {
            &&& final(lib).lib_num == old(lib).lib_num
            &&& final(lib).table@ == old(lib).table@
            &&& Host::eq_registry(*final(host), *old(host))
        },
        !old(lib).registered ==> {
            &&& final(lib).lib_num == old(host).next_lib
            &&& final(host).initialized
            &&& final(host).next_lib == old(host).next_lib + 1
            &&& final(host).next_lib_calls == old(host).next_lib_calls + 1
            &&& final(host).load_calls == old(host).load_calls + 1
            &&& final(host).strings@.len() == old(host).strings@.len() + func_rows(
                old(lib).abi,
                old(lib).decl,
            ) + old(lib).decl.reasons@.len() + 1
            &&& final(host).strings@.subrange(0, old(host).strings@.len() as int) == old(
                host,
            ).strings@
            &&& rows_match(
                final(host).strings@.skip(old(host).strings@.len() as int),
                old(lib).abi,
                old(lib).decl,
                final(lib).lib_num,
            )
        },
        1 <= final(lib).lib_num < 0x100,
        final(host).stack@.len() == old(host).stack@.len() + 1,
        forall|i: int|
            0 <= i < old(host).stack@.len() ==> final(host).stack@[i] == old(host).stack@[i],
        final(host).stack@.last().code == pack(
            old(lib).abi,
            final(lib).lib_num,
            func.raw.code(),
            reason.code,
        ),
        final(host).stack@.last().file@ == file@,
        final(host).stack@.last().line == line,
        matches!(old(lib).abi, Abi::Legacy) ==> final(host).stack@.last().func_name is None,
        matches!(old(lib).abi, Abi::Modern) ==> (final(host).stack@.last().func_name matches Some(
            fs,
        ) && func.raw matches RawFunction::Name(nm) && fs@ == nm@),
        message_effect(*old(host), *final(host), message),
        final(host).abi == old(host).abi,
        old(host).strings_wf() ==> final(host).strings_wf(),
{
    let id = lib.resolve_id(host);
    put_error_inner(host, id, &func.raw, reason.code, file, line, message);
}

/// An error library resolvable against a host registry; implemented by
/// [`ErrorLibrary`] and open to other representations of a declared library.
pub trait Library {
    /// Whether id resolution may run against this host.
    spec fn resolvable(&self, host: Host) -> bool;

    /// Whether the one-time registration has already run.
    spec fn is_registered(&self) -> bool;

    /// The cached host-assigned library id.
    spec fn lib_id(&self) -> u32;

    /// Returns the id assigned to this library by the host, registering the
    /// library on first call; once registered, later calls return the same
    /// cached id and leave the host exactly as it was.
    fn id(&mut self, host: &mut Host) -> (r: u32)
        requires
            old(self).resolvable(*old(host)),
        ensures
            final(self).is_registered(),
            r == final(self).lib_id(),
            1 <= r < 0x100,
            old(self).is_registered() ==> r == old(self).lib_id() && *final(host) == *old(host),
    ;
}

impl<T> Library for ErrorLibrary<T> {
    open spec fn resolvable(&self, host: Host) -> bool {
        ErrorLibrary::resolvable(*self, host)
    }

    open spec fn is_registered(&self) -> bool {
        self.registered
    }

    open spec fn lib_id(&self) -> u32 {
        self.lib_num
    }

    fn id(&mut self, host: &mut Host) -> (r: u32) {
        self.resolve_id(host)
    }
}

} // verus!
