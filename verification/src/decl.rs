//! Declarations of error libraries, and the typed tokens they yield.
//!
//! A [`LibraryDecl`] gives a library's display name together with its named
//! functions and reasons. Function tokens and reason codes are numbered
//! `1..=k` and `1..=m` in declaration order; 0 is reserved by the host to
//! mean "no function" / "no reason".
//!
//! Each token is parameterized by its owning library's marker type — a
//! type with no values, used only as a tag — so a function token and a
//! reason code can only meet in a push when they belong to the same
//! declared library: mixing tokens across libraries is a compile error.

use vstd::prelude::*;
use core::marker::PhantomData;
use crate::codec::Abi;

verus! {

/// A declared error library: display name, function names and reason names,
/// each in declaration order.
pub struct LibraryDecl {
    /// The library's own human-readable display name.
    pub name: String,
    /// Display names of the library's functions; function `n` (1-based) is
    /// `functions[n - 1]`.
    pub functions: Vec<String>,
    /// Display names of the library's reasons; reason `n` (1-based) is
    /// `reasons[n - 1]`.
    pub reasons: Vec<String>,
}

impl LibraryDecl {
    /// A declaration is well formed when its function and reason counts fit
    /// the code fields of the given ABI generation, so that the 1-based codes
    /// never collide under the packing rule's masks.
    pub open spec fn wf(self, abi: Abi) -> bool {
        match abi {
            Abi::Legacy => self.functions@.len() < 0x1000 && self.reasons@.len() < 0x1000,
            Abi::Modern => self.reasons@.len() < 0x80_0000,
        }
    }
}

/// The raw representation of a function token: a small sequential integer
/// under the legacy ABI, or the function's own display name (standing for a
/// pointer to that static string) under the modern ABI.
pub enum RawFunction {
    /// Legacy ABI: the function's 1-based code.
    Code(u32),
    /// Modern ABI: the function's display name.
    Name(String),
}

impl RawFunction {
    /// Whether this raw token has the shape the given ABI generation uses.
    pub open spec fn fits_abi(self, abi: Abi) -> bool {
        match abi {
            Abi::Legacy => self matches RawFunction::Code(_),
            Abi::Modern => self matches RawFunction::Name(_),
        }
    }

    /// The function component that the token contributes to a packed code:
    /// its integer code under the legacy ABI, 0 under the modern ABI.
    pub open spec fn code(self) -> u32 {
        match self {
            RawFunction::Code(n) => n,
            RawFunction::Name(_) => 0,
        }
    }
}

/// A function declaration, parameterized by its error library's marker
/// type.
#[verifier::reject_recursive_types(T)]
pub struct Function<T> {
    /// The raw token value.
    pub raw: RawFunction,
    /// Ties the token to its library at compile time; carries no data.
    pub marker: PhantomData<T>,
}

impl<T> Function<T> {
    /// Builds a token from its raw value.
    pub fn __from_raw(raw: RawFunction) -> (f: Function<T>)
        ensures
            f.raw == raw,
    {
        Function { raw, marker: PhantomData }
    }

    /// The raw token value.
    pub fn __as_raw(&self) -> (r: &RawFunction)
        ensures
            r == &self.raw,
    {
        &self.raw
    }
}

/// A reason declaration, parameterized by its error library's marker type.
#[verifier::reject_recursive_types(T)]
pub struct Reason<T> {
    /// The reason's 1-based code.
    pub code: u32,
    /// Ties the code to its library at compile time; carries no data.
    pub marker: PhantomData<T>,
}

impl<T> Reason<T> {
    /// Builds a reason from its raw code.
    pub fn __from_raw(raw: u32) -> (r: Reason<T>)
        ensures
            r.code == raw,
    {
        Reason { code: raw, marker: PhantomData }
    }

    /// The reason's raw code.
    pub fn __as_raw(&self) -> (r: u32)
        ensures
            r == self.code,
    {
        self.code
    }
}

/// An optional diagnostic message attached to a pushed error, in one of
/// two ownership regimes: a borrowed static string is handed to the host
/// as-is, an owned formatted string is copied into a buffer obtained from
/// the host allocator.
pub enum Message {
    /// A static string; attached without allocating, the host must not free
    /// it.
    Borrowed(String),
    /// An owned formatted string; copied into a host-allocated buffer that
    /// the host frees later.
    Owned(String),
}

} // verus!
