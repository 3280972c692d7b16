//! An executable model of the host library's error subsystem.
//!
//! The real host is a native library reached through a foreign-function
//! binding; its error stack, string registry and allocator live outside this
//! crate. [`Host`] states, as plain data, exactly what this core needs from
//! those primitives: an idempotent string-subsystem initializer, a monotonic
//! "next library id" counter, a string-table loader, the error-record push
//! calls of both ABI generations, the error-data slot, and an allocator that
//! may fail. The registration and push logic is verified against this model,
//! and tests observe it directly (call counters included).

use vstd::prelude::*;
use crate::codec::{pack, lib_field, func_field, reason_field, err_pack, err_get_func, err_get_reason, Abi};
use crate::table::TableEntry;

verus! {

/// Auxiliary data attached to an error record: the message text, and whether
/// the host owns (and later frees) the underlying buffer.
pub struct ErrorData {
    /// The message text.
    pub text: String,
    /// True when the text lives in a host-allocated buffer the host frees
    /// when the record is popped; false for a caller-owned static string.
    pub host_owned: bool,
}

/// One record on the host's error stack.
pub struct ErrorRecord {
    /// The packed (library, function, reason) code.
    pub code: u64,
    /// Source file of the call site.
    pub file: String,
    /// 1-based source line of the call site.
    pub line: u32,
    /// The function's display name, carried as debug metadata under the
    /// modern ABI; `None` under the legacy ABI, where the function id lives
    /// in the packed code instead.
    pub func_name: Option<String>,
    /// The optional attached message.
    pub data: Option<ErrorData>,
}

/// One row of the host's global string registry.
pub struct StringRow {
    /// The packed code the string is registered under, with the owning
    /// library's id merged in.
    pub code: u64,
    /// The registered display string.
    pub text: String,
}

/// The host library's error subsystem, as plain data.
pub struct Host {
    /// Which generation of the error ABI this host speaks.
    pub abi: Abi,
    /// Whether the error-string subsystem has been initialized.
    pub initialized: bool,
    /// The next unused library id; assigned ids count up from here.
    pub next_lib: u32,
    /// The global string registry, in load order.
    pub strings: Vec<StringRow>,
    /// The error stack; the last element is the most recent record.
    pub stack: Vec<ErrorRecord>,
    /// How many times a fresh library id has been handed out.
    pub next_lib_calls: u64,
    /// How many string tables have been loaded.
    pub load_calls: u64,
    /// How many allocations have been requested.
    pub malloc_calls: u64,
    /// The size of the most recent allocation request. The model measures
    /// string sizes in characters, not bytes; the two agree for ASCII text.
    pub last_malloc_size: usize,
    /// When true, every allocation request fails.
    pub malloc_fails: bool,
}

/// The registry-assigned library ids start here; ids below are reserved for
/// the host's own error libraries.
pub const FIRST_LIBRARY_ID: u32 = 128;

/// The code a table row is registered under: the row's own function and
/// reason components with the owning library's id merged into the library
/// field, as the host's table loader computes it.
pub open spec fn combine(abi: Abi, lib: u32, code: u64) -> int {
    pack(abi, lib, func_field(abi, code) as u32, reason_field(abi, code) as u32)
}

/// The string-registry rows that loading `entries` for library `lib` adds:
/// one row per entry before the sentinel, each with the library id merged
/// into its code.
pub open spec fn loaded_rows(abi: Abi, lib: u32, entries: Seq<TableEntry>) -> Seq<StringRow> {
    Seq::new(
        (entries.len() - 1) as nat,
        |i: int| StringRow { code: combine(abi, lib, entries[i].code) as u64, text: entries[i].text.unwrap() },
    )
}

/// First-match search of the string registry from row `i` on.
pub open spec fn lookup_from(rows: Seq<StringRow>, code: u64, i: int) -> Option<String>
    decreases rows.len() - i,
{
    if i >= rows.len() {
        None
    } else if i < 0 {
        lookup_from(rows, code, 0)
    } else if rows[i].code == code {
        Some(rows[i].text)
    } else {
        lookup_from(rows, code, i + 1)
    }
}

/// The display string registered under a packed code, if any.
pub open spec fn lookup(rows: Seq<StringRow>, code: u64) -> Option<String> {
    lookup_from(rows, code, 0)
}

/// Rows before a first match do not change the search's outcome.
pub proof fn lemma_lookup_from_match(rows: Seq<StringRow>, code: u64, at: int, i: int)
    requires
        0 <= i <= at < rows.len(),
        forall|p: int| 0 <= p < at ==> (#[trigger] rows[p].code) != code,
        rows[at].code == code,
    ensures
        lookup_from(rows, code, i) == Some(rows[at].text),
    decreases at - i,
{
    if i < at {
        lemma_lookup_from_match(rows, code, at, i + 1);
    }
}

/// A registry holding no row with the given code yields no string for it.
pub proof fn lemma_lookup_from_miss(rows: Seq<StringRow>, code: u64, i: int)
    requires
        forall|p: int| 0 <= p < rows.len() ==> (#[trigger] rows[p].code) != code,
    ensures
        lookup_from(rows, code, i) is None,
    decreases rows.len() - i,
{
    if i < 0 {
        lemma_lookup_from_miss(rows, code, 0);
    } else if i < rows.len() {
        lemma_lookup_from_miss(rows, code, i + 1);
    }
}

/// Searching an extended registry: when no earlier row carries the code, the
/// outcome is decided by the appended rows alone.
pub proof fn lemma_lookup_append(pre: Seq<StringRow>, post: Seq<StringRow>, code: u64)
    requires
        forall|p: int| 0 <= p < pre.len() ==> (#[trigger] pre[p].code) != code,
    ensures
        lookup(pre + post, code) == lookup(post, code),
{
    lemma_lookup_append_from(pre, post, code, 0);
    if pre.len() == 0 {
        assert(pre + post =~= post);
    }
}

proof fn lemma_lookup_append_from(pre: Seq<StringRow>, post: Seq<StringRow>, code: u64, i: int)
    requires
        0 <= i,
        forall|p: int| 0 <= p < pre.len() ==> (#[trigger] pre[p].code) != code,
    ensures
        lookup_from(pre + post, code, i) == lookup_from(post, code, i - pre.len()),
    decreases (pre + post).len() - i + 1,
{
    let all = pre + post;
    if i >= all.len() {
        assert(lookup_from(all, code, i) is None);
        assert(i - pre.len() >= post.len());
    } else if i < pre.len() {
        assert(all[i] == pre[i]);
        lemma_lookup_append_from(pre, post, code, i + 1);
        assert(lookup_from(post, code, i - pre.len()) == lookup_from(post, code, i + 1 - pre.len()));
    } else {
        assert(all[i] == post[i - pre.len()]);
        if all[i].code != code {
            lemma_lookup_append_from(pre, post, code, i + 1);
        }
    }
}

impl Host {
    /// Every row of the string registry belongs to a library whose id the
    /// host has already handed out: its library field is below `next_lib`.
    /// A fresh host satisfies this, and registration preserves it, so a
    /// newly assigned id never collides with a row already present.
    pub open spec fn strings_wf(self) -> bool {
        forall|p: int|
            0 <= p < self.strings@.len() ==> lib_field(self.abi, (#[trigger] self.strings@[p]).code)
                < self.next_lib
    }

    /// Counters and the id well away from their numeric limits; every state
    /// a process can actually reach satisfies this.
    pub open spec fn counters_ok(self) -> bool {
        &&& 1 <= self.next_lib < 0xFFFF_FFFF
        &&& self.next_lib_calls < 0xFFFF_FFFF_FFFF
        &&& self.load_calls < 0xFFFF_FFFF_FFFF
        &&& self.malloc_calls < 0xFFFF_FFFF_FFFF
    }

    /// The registry side of two host states agrees: initialization flag,
    /// next id, string registry and their call counters.
    pub open spec fn eq_registry(a: Host, b: Host) -> bool {
        &&& a.abi == b.abi
        &&& a.initialized == b.initialized
        &&& a.next_lib == b.next_lib
        &&& a.strings@ == b.strings@
        &&& a.next_lib_calls == b.next_lib_calls
        &&& a.load_calls == b.load_calls
    }

    /// The allocator side of two host states agrees.
    pub open spec fn eq_alloc(a: Host, b: Host) -> bool {
        &&& a.malloc_calls == b.malloc_calls
        &&& a.last_malloc_size == b.last_malloc_size
        &&& a.malloc_fails == b.malloc_fails
    }

    /// A fresh host speaking the given ABI generation: nothing initialized,
    /// no strings loaded, an empty error stack, a working allocator.
    pub fn new(abi: Abi) -> (h: Host)
        ensures
            h.abi == abi,
            !h.initialized,
            h.next_lib == FIRST_LIBRARY_ID,
            h.strings@ == Seq::<StringRow>::empty(),
            h.stack@ == Seq::<ErrorRecord>::empty(),
            h.next_lib_calls == 0,
            h.load_calls == 0,
            h.malloc_calls == 0,
            h.last_malloc_size == 0,
            !h.malloc_fails,
            h.strings_wf(),
    {
        Host {
            abi,
            initialized: false,
            next_lib: FIRST_LIBRARY_ID,
            strings: Vec::new(),
            stack: Vec::new(),
            next_lib_calls: 0,
            load_calls: 0,
            malloc_calls: 0,
            last_malloc_size: 0,
            malloc_fails: false,
        }
    }

    /// Initializes the error-string subsystem. Idempotent: calling it any
    /// number of times only sets the flag.
    pub fn init(&mut self)
        ensures
            final(self).initialized,
            final(self).abi == old(self).abi,
            final(self).next_lib == old(self).next_lib,
            final(self).strings@ == old(self).strings@,
            final(self).next_lib_calls == old(self).next_lib_calls,
            final(self).load_calls == old(self).load_calls,
            final(self).stack@ == old(self).stack@,
            Host::eq_alloc(*final(self), *old(self)),
    {
        self.initialized = true;
    }

    /// Hands out the next unused library id and advances the counter.
    pub fn get_next_error_library(&mut self) -> (r: u32)
        requires
            old(self).counters_ok(),
        ensures
            r == old(self).next_lib,
            final(self).next_lib == old(self).next_lib + 1,
            final(self).next_lib_calls == old(self).next_lib_calls + 1,
            final(self).abi == old(self).abi,
            final(self).initialized == old(self).initialized,
            final(self).strings@ == old(self).strings@,
            final(self).load_calls == old(self).load_calls,
            final(self).stack@ == old(self).stack@,
            Host::eq_alloc(*final(self), *old(self)),
    {
        let r = self.next_lib;
        self.next_lib = self.next_lib + 1;
        self.next_lib_calls = self.next_lib_calls + 1;
        r
    }

    /// Loads a sentinel-terminated string table for library `lib`: every row
    /// before the sentinel is appended to the global registry with the
    /// library id merged into its code.
    pub fn load_strings(&mut self, lib: u32, entries: &Vec<TableEntry>)
        requires
            old(self).load_calls < 0xFFFF_FFFF_FFFF,
            entries@.len() >= 1,
            entries@[entries@.len() - 1].code == 0,
            forall|i: int|
                0 <= i < entries@.len() - 1 ==> (#[trigger] entries@[i].code) != 0
                    && entries@[i].text is Some,
        ensures
            final(self).strings@ == old(self).strings@ + loaded_rows(
                old(self).abi,
                lib,
                entries@,
            ),
            final(self).load_calls == old(self).load_calls + 1,
            final(self).abi == old(self).abi,
            final(self).initialized == old(self).initialized,
            final(self).next_lib == old(self).next_lib,
            final(self).next_lib_calls == old(self).next_lib_calls,
            final(self).stack@ == old(self).stack@,
            Host::eq_alloc(*final(self), *old(self)),
    {
        let ghost rows = loaded_rows(self.abi, lib, entries@);
        let n: usize = entries.len();
        let mut i: usize = 0;
        while entries[i].code != 0
            invariant
                n == entries@.len(),
                0 <= i < n,
                entries@[entries@.len() - 1].code == 0,
                forall|p: int|
                    0 <= p < entries@.len() - 1 ==> (#[trigger] entries@[p].code) != 0
                        && entries@[p].text is Some,
                rows == loaded_rows(self.abi, lib, entries@),
                self.abi == old(self).abi,
                self.initialized == old(self).initialized,
                self.next_lib == old(self).next_lib,
                self.next_lib_calls == old(self).next_lib_calls,
                self.load_calls == old(self).load_calls,
                self.stack@ == old(self).stack@,
                Host::eq_alloc(*self, *old(self)),
                self.strings@ == old(self).strings@ + rows.take(i as int),
            decreases entries@.len() - i,
        {
            assert(i < entries@.len() - 1);
            assert(entries@[i as int].text is Some);
            let code = err_pack(
                self.abi,
                lib,
                err_get_func(self.abi, entries[i].code),
                err_get_reason(self.abi, entries[i].code),
            );
            let text = match &entries[i].text {
                Some(s) => s.clone(),
                None => String::new(),
            };
            self.strings.push(StringRow { code, text });
            proof {
                assert(rows.take(i as int + 1) =~= rows.take(i as int).push(rows[i as int]));
            }
            i = i + 1;
        }
        self.load_calls = self.load_calls + 1;
        proof {
            assert(i == entries@.len() - 1);
            assert(rows.take(i as int) =~= rows);
        }
    }

    /// Legacy ABI: pushes one complete error record, packing the library,
    /// function and reason ids into its code. No message is attached yet.
    pub fn err_put_error(&mut self, lib: u32, func: u32, reason: u32, file: &str, line: u32)
        requires
            matches!(old(self).abi, Abi::Legacy),
        ensures
            final(self).stack@.len() == old(self).stack@.len() + 1,
            forall|i: int|
                0 <= i < old(self).stack@.len() ==> final(self).stack@[i] == old(self).stack@[i],
            final(self).stack@.last().code == pack(old(self).abi, lib, func, reason),
            final(self).stack@.last().file@ == file@,
            final(self).stack@.last().line == line,
            final(self).stack@.last().func_name is None,
            final(self).stack@.last().data is None,
            Host::eq_registry(*final(self), *old(self)),
            Host::eq_alloc(*final(self), *old(self)),
    {
        let code = err_pack(self.abi, lib, func, reason);
        self.stack.push(ErrorRecord {
            code,
            file: String::from_str(file),
            line,
            func_name: None,
            data: None,
        });
    }

    /// Modern ABI: starts a new, still-blank error record on the stack.
    pub fn err_new(&mut self)
        requires
            matches!(old(self).abi, Abi::Modern),
        ensures
            final(self).stack@.len() == old(self).stack@.len() + 1,
            forall|i: int|
                0 <= i < old(self).stack@.len() ==> final(self).stack@[i] == old(self).stack@[i],
            final(self).stack@.last().code == 0,
            final(self).stack@.last().line == 0,
            final(self).stack@.last().func_name is None,
            final(self).stack@.last().data is None,
            Host::eq_registry(*final(self), *old(self)),
            Host::eq_alloc(*final(self), *old(self)),
    {
        self.stack.push(ErrorRecord {
            code: 0,
            file: String::new(),
            line: 0,
            func_name: None,
            data: None,
        });
    }

    /// Modern ABI: attaches debug metadata — source file, line and the
    /// function's name — to the current (most recent) record.
    pub fn err_set_debug(&mut self, file: &str, line: u32, func: &str)
        requires
            matches!(old(self).abi, Abi::Modern),
            old(self).stack@.len() >= 1,
        ensures
            final(self).stack@.len() == old(self).stack@.len(),
            forall|i: int|
                0 <= i < old(self).stack@.len() - 1 ==> final(self).stack@[i] == old(
                    self,
                ).stack@[i],
            final(self).stack@.last().code == old(self).stack@.last().code,
            final(self).stack@.last().file@ == file@,
            final(self).stack@.last().line == line,
            final(self).stack@.last().func_name matches Some(s) && s@ == func@,
            final(self).stack@.last().data == old(self).stack@.last().data,
            Host::eq_registry(*final(self), *old(self)),
            Host::eq_alloc(*final(self), *old(self)),
    {
        let mut rec = self.stack.pop().unwrap();
        rec.file = String::from_str(file);
        rec.line = line;
        rec.func_name = Some(String::from_str(func));
        self.stack.push(rec);
    }

    /// Modern ABI: sets the numeric (library, reason) pair of the current
    /// record; the packed code carries no function component.
    pub fn err_set_error(&mut self, lib: u32, reason: u32)
        requires
            matches!(old(self).abi, Abi::Modern),
            old(self).stack@.len() >= 1,
        ensures
            final(self).stack@.len() == old(self).stack@.len(),
            forall|i: int|
                0 <= i < old(self).stack@.len() - 1 ==> final(self).stack@[i] == old(
                    self,
                ).stack@[i],
            final(self).stack@.last().code == pack(old(self).abi, lib, 0, reason),
            final(self).stack@.last().file == old(self).stack@.last().file,
            final(self).stack@.last().line == old(self).stack@.last().line,
            final(self).stack@.last().func_name == old(self).stack@.last().func_name,
            final(self).stack@.last().data == old(self).stack@.last().data,
            Host::eq_registry(*final(self), *old(self)),
            Host::eq_alloc(*final(self), *old(self)),
    {
        let mut rec = self.stack.pop().unwrap();
        rec.code = err_pack(self.abi, lib, 0, reason);
        self.stack.push(rec);
    }

    /// Requests a buffer of `size` units from the host allocator,
    /// attributing the allocation to this core. Returns whether the
    /// allocation succeeded; the model makes every request fail while
    /// `malloc_fails` is set. The model's unit of size is the character
    /// (the real allocator's is the byte; identical for ASCII text).
    pub fn crypto_malloc(&mut self, size: usize) -> (ok: bool)
        requires
            old(self).malloc_calls < 0xFFFF_FFFF_FFFF,
        ensures
            ok == !old(self).malloc_fails,
            final(self).malloc_calls == old(self).malloc_calls + 1,
            final(self).last_malloc_size == size,
            final(self).malloc_fails == old(self).malloc_fails,
            final(self).stack@ == old(self).stack@,
            Host::eq_registry(*final(self), *old(self)),
    {
        self.malloc_calls = self.malloc_calls + 1;
        self.last_malloc_size = size;
        !self.malloc_fails
    }

    /// Attaches auxiliary string data to the current record; `host_owned`
    /// tells the host whether to free the buffer when the record is popped.
    pub fn err_set_error_data(&mut self, text: String, host_owned: bool)
        requires
            old(self).stack@.len() >= 1,
        ensures
            final(self).stack@.len() == old(self).stack@.len(),
            forall|i: int|
                0 <= i < old(self).stack@.len() - 1 ==> final(self).stack@[i] == old(
                    self,
                ).stack@[i],
            final(self).stack@.last().code == old(self).stack@.last().code,
            final(self).stack@.last().file == old(self).stack@.last().file,
            final(self).stack@.last().line == old(self).stack@.last().line,
            final(self).stack@.last().func_name == old(self).stack@.last().func_name,
            final(self).stack@.last().data matches Some(d) && d.text == text && d.host_owned
                == host_owned,
            Host::eq_registry(*final(self), *old(self)),
            Host::eq_alloc(*final(self), *old(self)),
    {
        let mut rec = self.stack.pop().unwrap();
        rec.data = Some(ErrorData { text, host_owned });
        self.stack.push(rec);
    }

    /// The most recent error record, if any.
    pub fn peek_last_error(&self) -> (r: Option<&ErrorRecord>)
        ensures
            match r {
                Some(rec) => self.stack@.len() > 0 && *rec == self.stack@.last(),
                None => self.stack@.len() == 0,
            },
    {
        let n = self.stack.len();
        if n == 0 {
            None
        } else {
            Some(&self.stack[n - 1])
        }
    }

    /// The display string registered under a packed code: the first matching
    /// row of the global string registry, if any.
    pub fn error_string(&self, code: u64) -> (r: Option<&String>)
        ensures
            match r {
                Some(s) => lookup(self.strings@, code) == Some(*s),
                None => lookup(self.strings@, code) is None,
            },
    {
        let n = self.strings.len();
        let mut i: usize = 0;
        while i < n
            invariant
                n == self.strings@.len(),
                0 <= i <= n,
                forall|p: int| 0 <= p < i ==> (#[trigger] self.strings@[p].code) != code,
            decreases n - i,
        {
            if self.strings[i].code == code {
                proof {
                    lemma_lookup_from_match(self.strings@, code, i as int, 0);
                }
                return Some(&self.strings[i].text);
            }
            i = i + 1;
        }
        proof {
            lemma_lookup_from_miss(self.strings@, code, 0);
        }
        None
    }
}

} // verus!
