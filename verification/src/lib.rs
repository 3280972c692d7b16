//! Custom error-library support modelled on the host cryptography library's
//! error subsystem.
//!
//! Errors are organized at the top level into "libraries". A library is
//! declared with a display name, a list of named functions and a list of
//! named reasons. Declaring a library yields typed function tokens and reason
//! codes; a push operation records an error against the host's error stack,
//! resolving the library's host-assigned id on first use.
//!
//! The host's error subsystem itself is represented here by an executable
//! model ([`host::Host`]) that states exactly what each host primitive does,
//! so that registration, table construction and the push path are verified
//! end to end against it.

use vstd::prelude::*;

pub mod codec;
pub mod decl;
pub mod table;
pub mod host;
pub mod library;
pub mod laws;

verus! {

} // verus!
