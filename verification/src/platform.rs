//! The operating system the tools run on, where their behaviour depends on
//! it.
use vstd::prelude::*;

verus! {

/// An operating system.
#[derive(Debug, Clone, Copy, PartialEq, Eq, Structural)]
pub enum OperatingSystem {
    Linux,
    MacOs,
    Windows,
    Android,
    Ios,
    Other,
}

} // verus!
