//! Audio File Services codes used by Extended Audio File Services.
#![allow(non_upper_case_globals)]

use crate::carbon_core::OSStatus;
use vstd::prelude::*;

verus! {

/// `'!siz'`: the size given for a property is wrong (also returned for
/// unsupported properties and unknown handles).
pub const kAudioFileBadPropertySizeError: OSStatus = 0x2173_697a;

/// `'dfmt'`: the data format of an audio file.
pub const kAudioFilePropertyDataFormat: u32 = 0x6466_6d74;

/// Permission to read an audio file.
pub const kAudioFileReadPermission: i8 = 1;

} // verus!
