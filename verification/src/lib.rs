//! Audio Toolbox handle management, `NSNumberFormatter` rules and Media Player
//! constants of an iPhone OS emulator, with their behaviour stated as
//! contracts and proved.
//!
//! The guest-facing entry points read and write guest memory and call other
//! emulated services. The library holds the decisions they make: functions
//! that take the values read from the guest, or the results of those calls,
//! and return what has to be written back or done next.

pub mod audio_toolbox;
pub mod carbon_core;
pub mod core_audio_types;
pub mod foundation;
pub mod media_player;
