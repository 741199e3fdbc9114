//! A verified model of the GToolkit virtual machine tooling: the interpreter
//! bindings (exports, parameters, marshalling decisions), the bundle builder
//! (options, libraries, bundlers) and the client runtime (image discovery,
//! logging, event loop decisions).
use vstd::prelude::*;

pub mod text;
pub mod paths;
pub mod words;
pub mod platform;
pub mod builder;
pub mod bindings;
pub mod client;
pub mod samples;

verus! {
} // verus!
