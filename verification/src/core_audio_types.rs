//! Core Audio data types and four-character codes.
#![allow(non_upper_case_globals)]

use vstd::prelude::*;

verus! {

/// The number that a four-character code stands for: its bytes read as a
/// big-endian 32-bit integer.
pub open spec fn fourcc_value(a: u8, b: u8, c: u8, d: u8) -> int {
    a * 0x100_0000 + b * 0x1_0000 + c * 0x100 + d
}

/// A four-character code reads as its bytes in order, the first in the
/// highest byte: each byte can be read back from the packed value.
pub proof fn lemma_fourcc_is_big_endian(a: u8, b: u8, c: u8, d: u8)
    ensures
        fourcc_value(a, b, c, d) / 0x100_0000 == a,
        (fourcc_value(a, b, c, d) / 0x1_0000) % 0x100 == b,
        (fourcc_value(a, b, c, d) / 0x100) % 0x100 == c,
        fourcc_value(a, b, c, d) % 0x100 == d,
{
    let v = fourcc_value(a, b, c, d);
    assert(v / 0x100_0000 == a) by (nonlinear_arith)
        requires
            v == a * 0x100_0000 + b * 0x1_0000 + c * 0x100 + d,
            0 <= a < 0x100,
            0 <= b < 0x100,
            0 <= c < 0x100,
            0 <= d < 0x100,
    ;
    assert((v / 0x1_0000) % 0x100 == b) by (nonlinear_arith)
        requires
            v == a * 0x100_0000 + b * 0x1_0000 + c * 0x100 + d,
            0 <= a < 0x100,
            0 <= b < 0x100,
            0 <= c < 0x100,
            0 <= d < 0x100,
    ;
    assert((v / 0x100) % 0x100 == c) by (nonlinear_arith)
        requires
            v == a * 0x100_0000 + b * 0x1_0000 + c * 0x100 + d,
            0 <= a < 0x100,
            0 <= b < 0x100,
            0 <= c < 0x100,
            0 <= d < 0x100,
    ;
    assert(v % 0x100 == d) by (nonlinear_arith)
        requires
            v == a * 0x100_0000 + b * 0x1_0000 + c * 0x100 + d,
            0 <= a < 0x100,
            0 <= b < 0x100,
            0 <= c < 0x100,
            0 <= d < 0x100,
    ;
}

/// Packs a four-character code such as `b"lpcm"` into its 32-bit value.
pub fn fourcc(code: &[u8; 4]) -> (r: u32)
    ensures
        r == fourcc_value(code@[0], code@[1], code@[2], code@[3]),
{
    let a: u8 = code[0];
    let b: u8 = code[1];
    let c: u8 = code[2];
    let d: u8 = code[3];
    (a as u32) * 0x100_0000 + (b as u32) * 0x1_0000 + (c as u32) * 0x100 + (d as u32)
}

/// `'lpcm'`: uncompressed linear PCM.
pub const kAudioFormatLinearPCM: u32 = 0x6c70_636d;

/// Size in guest memory of an [`AudioStreamBasicDescription`]: an `f64`
/// followed by eight `u32` fields.
pub const AUDIO_STREAM_BASIC_DESCRIPTION_SIZE: u32 = 40;

/// `AudioStreamBasicDescription`: the layout of an audio stream.
///
/// The sample rate is a 64-bit float in the guest structure; it is held here
/// as its IEEE-754 bit pattern, since nothing in this library computes with it.
#[derive(Clone, Copy, Debug, PartialEq, Eq, Structural)]
pub struct AudioStreamBasicDescription {
    pub sample_rate_bits: u64,
    pub format_id: u32,
    pub format_flags: u32,
    pub bytes_per_packet: u32,
    pub frames_per_packet: u32,
    pub bytes_per_frame: u32,
    pub channels_per_frame: u32,
    pub bits_per_channel: u32,
    pub reserved: u32,
}

} // verus!
