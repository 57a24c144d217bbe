//! Status codes shared by the Carbon Core style C APIs.
#![allow(non_upper_case_globals)]

use vstd::prelude::*;

verus! {

/// Result code of the C APIs: `0` is success, anything else an error.
pub type OSStatus = i32;

/// A parameter was invalid (for instance a null pointer).
pub const paramErr: OSStatus = -50;

/// The end of a file was reached.
pub const eofErr: OSStatus = -39;

} // verus!
