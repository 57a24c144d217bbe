use touchhle::audio_toolbox::audio_file::{kAudioFileBadPropertySizeError, kAudioFilePropertyDataFormat};
use touchhle::audio_toolbox::extended_audio_file::{
    host_object_for_opened_file, get_property_check, kExtAudioFileProperty_ClientDataFormat,
    kExtAudioFileProperty_FileDataFormat, return_if_null, set_property_check, AudioBuffer,
    ExtAudioFileHostObject, OpaqueExtAudioFile, ReadOutcome, ReadRequest, State,
};
use touchhle::carbon_core::{eofErr, paramErr};
use touchhle::core_audio_types::{fourcc, kAudioFormatLinearPCM, AudioStreamBasicDescription};

const HANDLE: u32 = 0x1000;
const FILE: u32 = 0x2000;

fn pcm(bytes_per_frame: u32, channels: u32) -> AudioStreamBasicDescription {
    AudioStreamBasicDescription {
        sample_rate_bits: 44100.0f64.to_bits(),
        format_id: kAudioFormatLinearPCM,
        format_flags: 12,
        bytes_per_packet: bytes_per_frame,
        frames_per_packet: 1,
        bytes_per_frame,
        channels_per_frame: channels,
        bits_per_channel: 16,
        reserved: 0,
    }
}

fn opened() -> State {
    let mut state = State::new();
    let host = host_object_for_opened_file(0, FILE).unwrap();
    state.register(HANDLE, host);
    state
}

fn opened_with_format(bytes_per_frame: u32, channels: u32) -> State {
    let mut state = opened();
    assert_eq!(state.set_client_data_format(HANDLE, pcm(bytes_per_frame, channels), true), 0);
    state
}

fn refused() -> ReadOutcome {
    ReadOutcome { status: kAudioFileBadPropertySizeError, frames_read: Some(0), buffer: None }
}

fn buffer() -> AudioBuffer {
    AudioBuffer { number_channels: 0, data_byte_size: 4096, data: 0x3000 }
}

#[test]
fn four_character_codes() {
    assert_eq!(fourcc(b"ffmt"), kExtAudioFileProperty_FileDataFormat);
    assert_eq!(fourcc(b"cfmt"), kExtAudioFileProperty_ClientDataFormat);
    assert_eq!(fourcc(b"dfmt"), kAudioFilePropertyDataFormat);
    assert_eq!(fourcc(b"lpcm"), kAudioFormatLinearPCM);
    assert_eq!(fourcc(b"!siz") as i32, kAudioFileBadPropertySizeError);
    assert_eq!(fourcc(b"\x01\x02\x03\x04"), 0x0102_0304);
}

#[test]
fn null_arguments_give_param_err() {
    assert_eq!(return_if_null(0), Some(paramErr));
    assert_eq!(return_if_null(HANDLE), None);
    assert_eq!(paramErr, -50);
    assert_eq!(eofErr, -39);
}

#[test]
fn opening_registers_a_fresh_handle() {
    assert_eq!(host_object_for_opened_file(-43, FILE), Err(-43));
    let host = host_object_for_opened_file(0, FILE).unwrap();
    assert_eq!(host, ExtAudioFileHostObject { guest_audio_file: FILE, client_data_format: None, current_bytes_read: 0 });
    let state = opened();
    assert_eq!(state.extended_audio_files.len(), 1);
    assert_eq!(state.extended_audio_files.get(&HANDLE), Some(&host));
    assert_eq!(OpaqueExtAudioFile::new()._filler, 0);
}

#[test]
fn get_property_supports_only_the_file_data_format() {
    assert_eq!(get_property_check(0, kExtAudioFileProperty_FileDataFormat), Err(paramErr));
    assert_eq!(get_property_check(HANDLE, kExtAudioFileProperty_ClientDataFormat), Err(kAudioFileBadPropertySizeError));
    assert_eq!(get_property_check(HANDLE, kExtAudioFileProperty_FileDataFormat), Ok(kAudioFilePropertyDataFormat));
    let state = opened();
    assert_eq!(state.get_property_target(HANDLE, 40), Ok(FILE));
    assert_eq!(state.get_property_target(HANDLE, 36), Err(kAudioFileBadPropertySizeError));
    assert_eq!(state.get_property_target(0x9999, 40), Err(kAudioFileBadPropertySizeError));
}

#[test]
fn set_property_checks_the_property_and_its_size() {
    assert_eq!(set_property_check(0, kExtAudioFileProperty_ClientDataFormat, 40), Some(paramErr));
    assert_eq!(set_property_check(HANDLE, kExtAudioFileProperty_FileDataFormat, 40), Some(kAudioFileBadPropertySizeError));
    assert_eq!(set_property_check(HANDLE, kExtAudioFileProperty_ClientDataFormat, 24), Some(kAudioFileBadPropertySizeError));
    assert_eq!(set_property_check(HANDLE, kExtAudioFileProperty_ClientDataFormat, 40), None);
}

#[test]
fn set_client_data_format_accepts_only_supported_pcm_on_open_handles() {
    let mut state = opened();
    let mut not_pcm = pcm(4, 2);
    not_pcm.format_id = fourcc(b"ima4");
    assert_eq!(state.set_client_data_format(HANDLE, not_pcm, true), kAudioFileBadPropertySizeError);
    assert_eq!(state.set_client_data_format(HANDLE, pcm(4, 2), false), kAudioFileBadPropertySizeError);
    assert_eq!(state.set_client_data_format(0x9999, pcm(4, 2), true), kAudioFileBadPropertySizeError);
    assert_eq!(state.extended_audio_files.get(&HANDLE).unwrap().client_data_format, None);
    assert_eq!(state.set_client_data_format(HANDLE, pcm(4, 2), true), 0);
    assert_eq!(state.extended_audio_files.get(&HANDLE).unwrap().client_data_format, Some(pcm(4, 2)));
    assert_eq!(state.set_client_data_format(HANDLE, pcm(2, 1), true), 0);
    assert_eq!(state.extended_audio_files.get(&HANDLE).unwrap().client_data_format, Some(pcm(2, 1)));
    assert_eq!(state.extended_audio_files.len(), 1);
}

#[test]
fn read_plan_refuses_bad_reads() {
    let plain = opened();
    assert_eq!(plain.read_plan(HANDLE, 1, 10), Err(refused()));
    let state = opened_with_format(4, 2);
    assert_eq!(state.read_plan(HANDLE, 2, 10), Err(refused()));
    assert_eq!(state.read_plan(HANDLE, 0, 10), Err(refused()));
    assert_eq!(state.read_plan(0x9999, 1, 10), Err(refused()));
    assert_eq!(state.read_plan(HANDLE, 1, 0x4000_0000), Err(refused()));
    let zero = opened_with_format(0, 2);
    assert_eq!(zero.read_plan(HANDLE, 1, 10), Err(refused()));
}

#[test]
fn read_plan_asks_for_whole_frames_from_the_current_position() {
    let state = opened_with_format(4, 2);
    let expected = ReadRequest { audio_file: FILE, starting_byte: 0, byte_count: 40, bytes_per_frame: 4, channels_per_frame: 2 };
    assert_eq!(state.read_plan(HANDLE, 1, 10), Ok(expected));
    assert_eq!(state.read_plan(HANDLE, 1, 0x3fff_ffff).unwrap().byte_count, 0xffff_fffc);
}

#[test]
fn read_complete_reports_frames_and_advances() {
    let mut state = opened_with_format(4, 2);
    let request = state.read_plan(HANDLE, 1, 10).unwrap();
    let outcome = state.read_complete(HANDLE, request, 0, 38, buffer());
    assert_eq!(
        outcome,
        ReadOutcome {
            status: 0,
            frames_read: Some(9),
            buffer: Some(AudioBuffer { number_channels: 2, data_byte_size: 38, data: 0x3000 }),
        }
    );
    assert_eq!(state.extended_audio_files.get(&HANDLE).unwrap().current_bytes_read, 38);
}

#[test]
fn read_complete_end_of_file_and_errors() {
    let mut state = opened_with_format(4, 2);
    let request = state.read_plan(HANDLE, 1, 10).unwrap();
    let eof = state.read_complete(HANDLE, request, eofErr, 0, buffer());
    assert_eq!(eof, ReadOutcome { status: 0, frames_read: Some(0), buffer: None });
    let err = state.read_complete(HANDLE, request, -36, 12, buffer());
    assert_eq!(err, ReadOutcome { status: -36, frames_read: None, buffer: None });
    assert_eq!(state.extended_audio_files.get(&HANDLE).unwrap().current_bytes_read, 0);
}

#[test]
fn read_complete_after_the_handle_went_away() {
    let mut state = opened_with_format(4, 2);
    let request = state.read_plan(HANDLE, 1, 10).unwrap();
    assert_eq!(state.dispose(HANDLE), Some(FILE));
    let outcome = state.read_complete(HANDLE, request, 0, 40, buffer());
    assert_eq!(outcome.status, 0);
    assert_eq!(outcome.frames_read, Some(10));
    assert!(state.extended_audio_files.is_empty());
}

#[test]
fn consecutive_reads_are_contiguous() {
    let mut state = opened_with_format(4, 2);
    let first = state.read_plan(HANDLE, 1, 10).unwrap();
    state.read_complete(HANDLE, first, 0, 40, buffer());
    let second = state.read_plan(HANDLE, 1, 5).unwrap();
    assert_eq!(second.starting_byte, 40);
    assert_eq!(second.byte_count, 20);
    state.read_complete(HANDLE, second, 0, 18, buffer());
    let third = state.read_plan(HANDLE, 1, 5).unwrap();
    assert_eq!(third.starting_byte, 58);
}

#[test]
fn whole_frames_are_reported() {
    let mut state = opened_with_format(6, 3);
    let request = state.read_plan(HANDLE, 1, 4).unwrap();
    let outcome = state.read_complete(HANDLE, request, 0, 17, buffer());
    assert_eq!(outcome.frames_read, Some(2));
    assert!(2 * 6 <= 17 && 17 < 3 * 6);
}

#[test]
fn dispose_forgets_the_handle_once() {
    let mut state = opened_with_format(4, 2);
    assert_eq!(state.dispose(HANDLE), Some(FILE));
    assert_eq!(state.dispose(HANDLE), None);
    assert!(state.extended_audio_files.is_empty());
    assert_eq!(state.get_property_target(HANDLE, 40), Err(kAudioFileBadPropertySizeError));
    assert_eq!(state.set_client_data_format(HANDLE, pcm(4, 2), true), kAudioFileBadPropertySizeError);
    assert_eq!(state.read_plan(HANDLE, 1, 1), Err(refused()));
    assert!(state.extended_audio_files.is_empty());
}

#[test]
fn dispose_keeps_other_handles() {
    let mut state = opened();
    state.register(0x1100, host_object_for_opened_file(0, 0x2100).unwrap());
    assert_eq!(state.dispose(HANDLE), Some(FILE));
    assert_eq!(state.extended_audio_files.len(), 1);
    assert_eq!(state.get_property_target(0x1100, 40), Ok(0x2100));
}

#[test]
fn each_open_gets_its_own_handle() {
    let mut state = opened_with_format(4, 2);
    let first = state.read_plan(HANDLE, 1, 3).unwrap();
    state.read_complete(HANDLE, first, 0, 12, buffer());
    let before = *state.extended_audio_files.get(&HANDLE).unwrap();
    state.register(0x1100, host_object_for_opened_file(0, FILE).unwrap());
    assert_eq!(state.extended_audio_files.get(&HANDLE), Some(&before));
    assert_eq!(state.extended_audio_files.get(&0x1100).unwrap().current_bytes_read, 0);
    assert_eq!(state.extended_audio_files.get(&0x1100).unwrap().client_data_format, None);
}

#[test]
fn open_calls_then_dispose_restores_the_table() {
    let mut state = opened();
    let other = *state.extended_audio_files.get(&HANDLE).unwrap();
    state.register(0x1100, host_object_for_opened_file(0, 0x2100).unwrap());
    assert_eq!(state.set_client_data_format(0x1100, pcm(4, 2), true), 0);
    assert_eq!(state.get_property_target(0x1100, 40), Ok(0x2100));
    let request = state.read_plan(0x1100, 1, 8).unwrap();
    state.read_complete(0x1100, request, 0, 32, buffer());
    assert_eq!(state.read_plan(0x1100, 2, 8), Err(refused()));
    assert_eq!(state.dispose(0x1100), Some(0x2100));
    assert_eq!(state.extended_audio_files.len(), 1);
    assert_eq!(state.extended_audio_files.get(&HANDLE), Some(&other));
}
