//! `ExtendedAudioFile.h` (Extended Audio File Services), built on Audio File
//! Services.
//!
//! Each C entry point reads its arguments from guest memory, calls Audio File
//! Services and writes its results back. The decisions between those steps
//! are the functions here: they take the values read from the guest, or the
//! results of the Audio File Services calls, and say what to return, what to
//! write back and how the table of open handles changes.
#![allow(non_upper_case_globals)]

use crate::audio_toolbox::audio_file::{kAudioFileBadPropertySizeError, kAudioFilePropertyDataFormat};
use crate::carbon_core::{eofErr, paramErr, OSStatus};
use crate::core_audio_types::{
    kAudioFormatLinearPCM, AudioStreamBasicDescription, AUDIO_STREAM_BASIC_DESCRIPTION_SIZE,
};
use std::collections::HashMap;
use vstd::prelude::*;

verus! {

broadcast use vstd::std_specs::hash::group_hash_axioms;

/// Guest address of an [`OpaqueExtAudioFile`]; `0` is the null handle.
pub type ExtAudioFileRef = u32;

/// Guest handle of an Audio File Services file.
pub type AudioFileID = u32;

/// Property of an extended audio file; usually a four-character code.
pub type ExtAudioFilePropertyID = u32;

/// `'ffmt'`: the data format of the file itself.
pub const kExtAudioFileProperty_FileDataFormat: ExtAudioFilePropertyID = 0x6666_6d74;

/// `'cfmt'`: the data format in which the client reads from the file.
pub const kExtAudioFileProperty_ClientDataFormat: ExtAudioFilePropertyID = 0x6366_6d74;

/// The object that an [`ExtAudioFileRef`] points to in guest memory. The
/// guest never looks inside it; its address is the handle.
pub struct OpaqueExtAudioFile {
    pub _filler: u8,
}

impl OpaqueExtAudioFile {
    /// The value written to guest memory for a new handle.
    pub fn new() -> (r: Self)
        ensures
            r._filler == 0,
    {
        OpaqueExtAudioFile { _filler: 0 }
    }
}

/// What the emulator keeps for one open extended audio file.
#[derive(Clone, Copy, Debug, PartialEq, Eq, Structural)]
pub struct ExtAudioFileHostObject {
    /// The Audio File Services file that is read.
    pub guest_audio_file: AudioFileID,
    /// The format the client reads in, once it has set one.
    pub client_data_format: Option<AudioStreamBasicDescription>,
    /// How many bytes of the audio data have been read so far.
    pub current_bytes_read: i64,
}

/// One buffer of a guest `AudioBufferList`.
#[derive(Clone, Copy, Debug, PartialEq, Eq, Structural)]
pub struct AudioBuffer {
    pub number_channels: u32,
    pub data_byte_size: u32,
    /// Guest address of the buffer's data.
    pub data: u32,
}

/// The Audio File Services read that an `ExtAudioFileRead` call asks for:
/// `byte_count` bytes of `audio_file`, starting at `starting_byte`, into the
/// data of the guest's buffer.
#[derive(Clone, Copy, Debug, PartialEq, Eq, Structural)]
pub struct ReadRequest {
    pub audio_file: AudioFileID,
    pub starting_byte: i64,
    pub byte_count: u32,
    /// Bytes per frame of the client data format.
    pub bytes_per_frame: u32,
    /// Channels per frame of the client data format.
    pub channels_per_frame: u32,
}

/// How an `ExtAudioFileRead` call ends once Audio File Services has read.
#[derive(Clone, Copy, Debug, PartialEq, Eq, Structural)]
pub struct ReadOutcome {
    /// What the call returns.
    pub status: OSStatus,
    /// The frame count to write to the guest's `ioNumberFrames`, if any.
    pub frames_read: Option<u32>,
    /// The buffer to write back into the guest's buffer list, if any.
    pub buffer: Option<AudioBuffer>,
}

/// Extended Audio File Services state: the open handles.
pub struct State {
    pub extended_audio_files: HashMap<ExtAudioFileRef, ExtAudioFileHostObject>,
}

impl Default for State {
    fn default() -> (s: Self)
        ensures
            s.files() == Map::<ExtAudioFileRef, ExtAudioFileHostObject>::empty(),
    {
        State::new()
    }
}

/// `return_if_null!`: a null argument makes the call return `paramErr`
/// before anything else happens.
pub fn return_if_null(param: u32) -> (r: Option<OSStatus>)
    ensures
        r == (if param == 0 { Some(paramErr) } else { None::<OSStatus> }),
{
    if param == 0 {
        Some(paramErr)
    } else {
        None
    }
}

/// The host object for a file that Audio File Services opened with status
/// `open_status`.
pub open spec fn opened_file_spec(open_status: OSStatus, guest_audio_file: AudioFileID) -> Result<
    ExtAudioFileHostObject,
    OSStatus,
> {
    if open_status != 0 {
        Err(open_status)
    } else {
        Ok(
            ExtAudioFileHostObject {
                guest_audio_file,
                client_data_format: None,
                current_bytes_read: 0,
            },
        )
    }
}

/// `ExtAudioFileOpenURL`, after Audio File Services has tried to open the
/// URL: its error is returned as it is; on success the new file has no client
/// format and nothing read yet. The caller then allocates the handle and
/// passes both to [`State::register`].
pub fn host_object_for_opened_file(open_status: OSStatus, guest_audio_file: AudioFileID) -> (r:
    Result<ExtAudioFileHostObject, OSStatus>)
    ensures
        r == opened_file_spec(open_status, guest_audio_file),
{
    if open_status != 0 {
        return Err(open_status);
    }
    Ok(ExtAudioFileHostObject { guest_audio_file, client_data_format: None, current_bytes_read: 0 })
}

/// What `ExtAudioFileGetProperty` does before it reads the property size:
/// the Audio File Services property to ask for, or the status to return.
pub open spec fn get_property_check_spec(
    in_ext_audio_file: ExtAudioFileRef,
    in_property_id: ExtAudioFilePropertyID,
) -> Result<u32, OSStatus> {
    if in_ext_audio_file == 0 {
        Err(paramErr)
    } else if in_property_id != kExtAudioFileProperty_FileDataFormat {
        Err(kAudioFileBadPropertySizeError)
    } else {
        Ok(kAudioFilePropertyDataFormat)
    }
}

/// `ExtAudioFileGetProperty`, first step: only the file data format is
/// supported, and it is answered by the Audio File Services data format.
pub fn get_property_check(in_ext_audio_file: ExtAudioFileRef, in_property_id: ExtAudioFilePropertyID) -> (r:
    Result<u32, OSStatus>)
    ensures
        r == get_property_check_spec(in_ext_audio_file, in_property_id),
{
    if in_ext_audio_file == 0 {
        return Err(paramErr);
    }
    if in_property_id != kExtAudioFileProperty_FileDataFormat {
        return Err(kAudioFileBadPropertySizeError);
    }
    Ok(kAudioFilePropertyDataFormat)
}

/// What `ExtAudioFileSetProperty` does before it reads the property data:
/// `Some` status to return at once, or `None` to go on.
pub open spec fn set_property_check_spec(
    in_ext_audio_file: ExtAudioFileRef,
    in_property_id: ExtAudioFilePropertyID,
    in_property_data_size: u32,
) -> Option<OSStatus> {
    if in_ext_audio_file == 0 {
        Some(paramErr)
    } else if in_property_id != kExtAudioFileProperty_ClientDataFormat {
        Some(kAudioFileBadPropertySizeError)
    } else if in_property_data_size != AUDIO_STREAM_BASIC_DESCRIPTION_SIZE {
        Some(kAudioFileBadPropertySizeError)
    } else {
        None
    }
}

/// `ExtAudioFileSetProperty`, first step: only the client data format can be
/// set, and its data must be exactly one `AudioStreamBasicDescription`.
pub fn set_property_check(
    in_ext_audio_file: ExtAudioFileRef,
    in_property_id: ExtAudioFilePropertyID,
    in_property_data_size: u32,
) -> (r: Option<OSStatus>)
    ensures
        r == set_property_check_spec(in_ext_audio_file, in_property_id, in_property_data_size),
{
    if in_ext_audio_file == 0 {
        return Some(paramErr);
    }
    if in_property_id != kExtAudioFileProperty_ClientDataFormat {
        return Some(kAudioFileBadPropertySizeError);
    }
    if in_property_data_size != AUDIO_STREAM_BASIC_DESCRIPTION_SIZE {
        return Some(kAudioFileBadPropertySizeError);
    }
    None
}

/// The Audio File Services file that `ExtAudioFileGetProperty` asks, or the
/// status it returns, given the property size that the guest passed.
pub open spec fn get_property_target_spec(
    files: Map<ExtAudioFileRef, ExtAudioFileHostObject>,
    in_ext_audio_file: ExtAudioFileRef,
    io_property_data_size: u32,
) -> Result<AudioFileID, OSStatus> {
    if io_property_data_size != AUDIO_STREAM_BASIC_DESCRIPTION_SIZE {
        Err(kAudioFileBadPropertySizeError)
    } else if !files.contains_key(in_ext_audio_file) {
        Err(kAudioFileBadPropertySizeError)
    } else {
        Ok(files[in_ext_audio_file].guest_audio_file)
    }
}

/// The table and the status after `ExtAudioFileSetProperty` has read the
/// client data format `desc`; `format_supported` is whether the emulated
/// audio queues can play `desc`.
pub open spec fn set_client_data_format_spec(
    files: Map<ExtAudioFileRef, ExtAudioFileHostObject>,
    in_ext_audio_file: ExtAudioFileRef,
    desc: AudioStreamBasicDescription,
    format_supported: bool,
) -> (Map<ExtAudioFileRef, ExtAudioFileHostObject>, OSStatus) {
    if desc.format_id != kAudioFormatLinearPCM || !format_supported || !files.contains_key(
        in_ext_audio_file,
    ) {
        (files, kAudioFileBadPropertySizeError)
    } else {
        (
            files.insert(
                in_ext_audio_file,
                ExtAudioFileHostObject {
                    client_data_format: Some(desc),
                    ..files[in_ext_audio_file]
                },
            ),
            0,
        )
    }
}

/// How `ExtAudioFileRead` ends when it refuses a read:
/// `kAudioFileBadPropertySizeError`, with 0 frames reported and the buffer
/// list left as it was.
pub open spec fn read_refused() -> ReadOutcome {
    ReadOutcome { status: kAudioFileBadPropertySizeError, frames_read: Some(0), buffer: None }
}

/// The read that `ExtAudioFileRead` asks Audio File Services for, or how it
/// ends when it refuses the read, given the buffer count of the guest's
/// buffer list and the frame count it asked for.
pub open spec fn read_plan_spec(
    files: Map<ExtAudioFileRef, ExtAudioFileHostObject>,
    in_ext_audio_file: ExtAudioFileRef,
    number_buffers: u32,
    number_frames: u32,
) -> Result<ReadRequest, ReadOutcome> {
    if number_buffers != 1 || !files.contains_key(in_ext_audio_file)
        || files[in_ext_audio_file].client_data_format is None {
        Err(read_refused())
    } else {
        let host = files[in_ext_audio_file];
        let format = host.client_data_format->0;
        if format.bytes_per_frame == 0 || number_frames * format.bytes_per_frame > u32::MAX {
            Err(read_refused())
        } else {
            Ok(
                ReadRequest {
                    audio_file: host.guest_audio_file,
                    starting_byte: host.current_bytes_read,
                    byte_count: (number_frames * format.bytes_per_frame) as u32,
                    bytes_per_frame: format.bytes_per_frame,
                    channels_per_frame: format.channels_per_frame,
                },
            )
        }
    }
}

/// How `ExtAudioFileRead` ends after Audio File Services returned
/// `read_status` having read `bytes_read` bytes into `buffer`'s data.
pub open spec fn read_outcome_spec(
    request: ReadRequest,
    read_status: OSStatus,
    bytes_read: u32,
    buffer: AudioBuffer,
) -> ReadOutcome {
    if read_status == eofErr {
        ReadOutcome { status: 0, frames_read: Some(0), buffer: None }
    } else if read_status != 0 {
        ReadOutcome { status: read_status, frames_read: None, buffer: None }
    } else {
        ReadOutcome {
            status: 0,
            frames_read: Some(
                if request.bytes_per_frame == 0 {
                    0
                } else {
                    bytes_read / request.bytes_per_frame
                },
            ),
            buffer: Some(
                AudioBuffer {
                    number_channels: request.channels_per_frame,
                    data_byte_size: bytes_read,
                    data: buffer.data,
                },
            ),
        }
    }
}

/// The table after an `ExtAudioFileRead` whose Audio File Services read
/// returned `read_status` having read `bytes_read` bytes.
pub open spec fn files_after_read(
    files: Map<ExtAudioFileRef, ExtAudioFileHostObject>,
    in_ext_audio_file: ExtAudioFileRef,
    read_status: OSStatus,
    bytes_read: u32,
) -> Map<ExtAudioFileRef, ExtAudioFileHostObject> {
    if read_status == 0 && files.contains_key(in_ext_audio_file) {
        files.insert(
            in_ext_audio_file,
            ExtAudioFileHostObject {
                current_bytes_read: (files[in_ext_audio_file].current_bytes_read + bytes_read) as i64,
                ..files[in_ext_audio_file]
            },
        )
    } else {
        files
    }
}

impl State {
    /// The open handles and what is kept for each.
    pub open spec fn files(&self) -> Map<ExtAudioFileRef, ExtAudioFileHostObject> {
        self.extended_audio_files@
    }

    /// No handle open.
    pub fn new() -> (s: State)
        ensures
            s.files() == Map::<ExtAudioFileRef, ExtAudioFileHostObject>::empty(),
    {
        State { extended_audio_files: HashMap::new() }
    }

    /// The Extended Audio File Services part of the Audio Toolbox state.
    pub fn get<C>(audio_toolbox_state: &mut super::State<C>) -> (r: &mut State)
        ensures
            *r == old(audio_toolbox_state).ext_audio_file,
            final(audio_toolbox_state).ext_audio_file == *final(r),
            final(audio_toolbox_state).al_context == old(audio_toolbox_state).al_context,
    {
        &mut audio_toolbox_state.ext_audio_file
    }

    /// `ExtAudioFileOpenURL`, last step: records the new handle
    /// `ext_audio_file`, which the caller has just allocated, for `host`.
    pub fn register(&mut self, ext_audio_file: ExtAudioFileRef, host: ExtAudioFileHostObject)
        ensures
            final(self).files() == old(self).files().insert(ext_audio_file, host),
    {
        self.extended_audio_files.insert(ext_audio_file, host);
    }

    /// `ExtAudioFileGetProperty`, second step: the Audio File Services file
    /// whose data format answers the call, given the property size the guest
    /// passed; an unknown handle or a size other than that of an
    /// `AudioStreamBasicDescription` gives `kAudioFileBadPropertySizeError`.
    pub fn get_property_target(&self, in_ext_audio_file: ExtAudioFileRef, io_property_data_size: u32) -> (r:
        Result<AudioFileID, OSStatus>)
        ensures
            r == get_property_target_spec(self.files(), in_ext_audio_file, io_property_data_size),
    {
        if io_property_data_size != AUDIO_STREAM_BASIC_DESCRIPTION_SIZE {
            return Err(kAudioFileBadPropertySizeError);
        }
        match self.extended_audio_files.get(&in_ext_audio_file) {
            Some(host) => Ok(host.guest_audio_file),
            None => Err(kAudioFileBadPropertySizeError),
        }
    }

    /// `ExtAudioFileSetProperty`, second step: sets the client data format of
    /// an open handle to `desc`, replacing any earlier one. Only linear PCM
    /// formats that the emulated audio queues support (`format_supported`)
    /// are accepted; otherwise, and for an unknown handle, nothing changes and
    /// `kAudioFileBadPropertySizeError` is returned.
    pub fn set_client_data_format(
        &mut self,
        in_ext_audio_file: ExtAudioFileRef,
        desc: AudioStreamBasicDescription,
        format_supported: bool,
    ) -> (r: OSStatus)
        ensures
            (final(self).files(), r) == set_client_data_format_spec(
                old(self).files(),
                in_ext_audio_file,
                desc,
                format_supported,
            ),
    {
        if desc.format_id != kAudioFormatLinearPCM {
            return kAudioFileBadPropertySizeError;
        }
        if !format_supported {
            return kAudioFileBadPropertySizeError;
        }
        let host: ExtAudioFileHostObject = match self.extended_audio_files.get(&in_ext_audio_file) {
            Some(host) => *host,
            None => {
                return kAudioFileBadPropertySizeError;
            },
        };
        let updated = ExtAudioFileHostObject { client_data_format: Some(desc), ..host };
        self.extended_audio_files.insert(in_ext_audio_file, updated);
        0
    }

    /// `ExtAudioFileRead`, first step, after the null check: the read to ask
    /// Audio File Services for, `frames * bytes_per_frame` bytes from where
    /// the last read ended, or the refusal (`kAudioFileBadPropertySizeError`
    /// with 0 frames reported) where the buffer list does not hold exactly one
    /// buffer, the handle is unknown, no client format is set, the format has
    /// no bytes per frame or the byte count does not fit in 32 bits.
    pub fn read_plan(&self, in_ext_audio_file: ExtAudioFileRef, number_buffers: u32, number_frames: u32) -> (r:
        Result<ReadRequest, ReadOutcome>)
        ensures
            r == read_plan_spec(self.files(), in_ext_audio_file, number_buffers, number_frames),
    {
        if number_buffers != 1 {
            return Err(ReadOutcome { status: kAudioFileBadPropertySizeError, frames_read: Some(0), buffer: None });
        }
        let host: ExtAudioFileHostObject = match self.extended_audio_files.get(&in_ext_audio_file) {
            Some(host) => *host,
            None => {
                return Err(ReadOutcome { status: kAudioFileBadPropertySizeError, frames_read: Some(0), buffer: None });
            },
        };
        let format = match host.client_data_format {
            Some(format) => format,
            None => {
                return Err(ReadOutcome { status: kAudioFileBadPropertySizeError, frames_read: Some(0), buffer: None });
            },
        };
        let bytes_per_frame = format.bytes_per_frame;
        if bytes_per_frame == 0 {
            return Err(ReadOutcome { status: kAudioFileBadPropertySizeError, frames_read: Some(0), buffer: None });
        }
        let number_of_bytes = match number_frames.checked_mul(bytes_per_frame) {
            Some(n) => n,
            None => {
                return Err(ReadOutcome { status: kAudioFileBadPropertySizeError, frames_read: Some(0), buffer: None });
            },
        };
        Ok(
            ReadRequest {
                audio_file: host.guest_audio_file,
                starting_byte: host.current_bytes_read,
                byte_count: number_of_bytes,
                bytes_per_frame,
                channels_per_frame: format.channels_per_frame,
            },
        )
    }

    /// `ExtAudioFileRead`, last step, after Audio File Services returned
    /// `read_status` having read `bytes_read` bytes into `buffer`'s data.
    ///
    /// The end of the file reads as success with 0 frames; another error is
    /// returned as it is, with nothing written back. On success the whole
    /// frames read are reported, the buffer takes the client format's channel
    /// count and the byte count, and the handle's read position moves on by
    /// the bytes read (if the handle is still open).
    pub fn read_complete(
        &mut self,
        in_ext_audio_file: ExtAudioFileRef,
        request: ReadRequest,
        read_status: OSStatus,
        bytes_read: u32,
        buffer: AudioBuffer,
    ) -> (r: ReadOutcome)
        requires
            read_status == 0 && old(self).files().contains_key(in_ext_audio_file) ==> old(
                self,
            ).files()[in_ext_audio_file].current_bytes_read + bytes_read <= i64::MAX,
        ensures
            r == read_outcome_spec(request, read_status, bytes_read, buffer),
            final(self).files() == files_after_read(
                old(self).files(),
                in_ext_audio_file,
                read_status,
                bytes_read,
            ),
    {
        if read_status != 0 {
            if read_status == eofErr {
                return ReadOutcome { status: 0, frames_read: Some(0), buffer: None };
            }
            return ReadOutcome { status: read_status, frames_read: None, buffer: None };
        }
        let frames_read: u32 = match bytes_read.checked_div(request.bytes_per_frame) {
            Some(frames) => frames,
            None => 0,
        };
        let written = AudioBuffer {
            number_channels: request.channels_per_frame,
            data_byte_size: bytes_read,
            data: buffer.data,
        };
        match self.extended_audio_files.get(&in_ext_audio_file) {
            Some(host) => {
                let host: ExtAudioFileHostObject = *host;
                let updated = ExtAudioFileHostObject {
                    current_bytes_read: host.current_bytes_read + bytes_read as i64,
                    ..host
                };
                self.extended_audio_files.insert(in_ext_audio_file, updated);
            },
            None => {},
        }
        ReadOutcome { status: 0, frames_read: Some(frames_read), buffer: Some(written) }
    }

    /// `ExtAudioFileDispose`, after the null check: forgets the handle and
    /// returns its Audio File Services file, which the caller closes before
    /// freeing the handle. An unknown (already disposed) handle changes
    /// nothing. The call returns 0 either way.
    pub fn dispose(&mut self, in_ext_audio_file: ExtAudioFileRef) -> (r: Option<AudioFileID>)
        ensures
            match r {
                Some(file) => {
                    &&& old(self).files().contains_key(in_ext_audio_file)
                    &&& file == old(self).files()[in_ext_audio_file].guest_audio_file
                    &&& final(self).files() == old(self).files().remove(in_ext_audio_file)
                },
                None => {
                    &&& !old(self).files().contains_key(in_ext_audio_file)
                    &&& final(self).files() == old(self).files()
                },
            },
    {
        match self.extended_audio_files.remove(&in_ext_audio_file) {
            Some(host) => Some(host.guest_audio_file),
            None => None,
        }
    }
}


/// A successful read moves the handle's read position on by exactly the
/// bytes it read, and changes nothing else: the next read of the same handle
/// starts where this one ended and is otherwise planned as it would have been
/// before.
pub proof fn lemma_reads_are_contiguous(
    files: Map<ExtAudioFileRef, ExtAudioFileHostObject>,
    in_ext_audio_file: ExtAudioFileRef,
    number_buffers: u32,
    number_frames: u32,
    bytes_read: u32,
    next_number_buffers: u32,
    next_number_frames: u32,
)
    requires
        read_plan_spec(files, in_ext_audio_file, number_buffers, number_frames) is Ok,
        files[in_ext_audio_file].current_bytes_read + bytes_read <= i64::MAX,
    ensures
        ({
            let first = read_plan_spec(files, in_ext_audio_file, number_buffers, number_frames)->Ok_0;
            let after = files_after_read(files, in_ext_audio_file, 0, bytes_read);
            let next = read_plan_spec(after, in_ext_audio_file, next_number_buffers, next_number_frames);
            let unmoved = read_plan_spec(files, in_ext_audio_file, next_number_buffers, next_number_frames);
            &&& (next is Ok <==> unmoved is Ok)
            &&& next is Ok ==> next->Ok_0 == ReadRequest {
                starting_byte: (first.starting_byte + bytes_read) as i64,
                ..unmoved->Ok_0
            }
            &&& next is Err ==> next == unmoved
        }),
{
}

/// A disposed handle is unknown to every later call: the property calls and
/// reads fail with `kAudioFileBadPropertySizeError` and change nothing, and
/// disposing it again finds nothing.
pub proof fn lemma_disposed_handle_is_unknown(
    files: Map<ExtAudioFileRef, ExtAudioFileHostObject>,
    in_ext_audio_file: ExtAudioFileRef,
    io_property_data_size: u32,
    desc: AudioStreamBasicDescription,
    format_supported: bool,
    number_buffers: u32,
    number_frames: u32,
)
    ensures
        ({
            let after = files.remove(in_ext_audio_file);
            &&& !after.contains_key(in_ext_audio_file)
            &&& get_property_target_spec(after, in_ext_audio_file, io_property_data_size) == Err::<
                AudioFileID,
                OSStatus,
            >(kAudioFileBadPropertySizeError)
            &&& set_client_data_format_spec(after, in_ext_audio_file, desc, format_supported) == (
                after,
                kAudioFileBadPropertySizeError,
            )
            &&& read_plan_spec(after, in_ext_audio_file, number_buffers, number_frames) == Err::<
                ReadRequest,
                ReadOutcome,
            >(read_refused())
        }),
{
}

/// A newly opened file cannot be read until a client format is set; once a
/// supported linear PCM format is set, a read of `n` frames asks for `n`
/// frames' worth of bytes from the start of the file.
pub proof fn lemma_new_file_reads_from_start(
    files: Map<ExtAudioFileRef, ExtAudioFileHostObject>,
    in_ext_audio_file: ExtAudioFileRef,
    guest_audio_file: AudioFileID,
    desc: AudioStreamBasicDescription,
    number_frames: u32,
)
    requires
        desc.format_id == kAudioFormatLinearPCM,
        desc.bytes_per_frame != 0,
        number_frames * desc.bytes_per_frame <= u32::MAX,
    ensures
        ({
            let opened = files.insert(
                in_ext_audio_file,
                opened_file_spec(0, guest_audio_file)->Ok_0,
            );
            let (formatted, status) = set_client_data_format_spec(
                opened,
                in_ext_audio_file,
                desc,
                true,
            );
            &&& read_plan_spec(opened, in_ext_audio_file, 1, number_frames) == Err::<
                ReadRequest,
                ReadOutcome,
            >(read_refused())
            &&& status == 0
            &&& read_plan_spec(formatted, in_ext_audio_file, 1, number_frames) == Ok::<
                ReadRequest,
                ReadOutcome,
            >(
                ReadRequest {
                    audio_file: guest_audio_file,
                    starting_byte: 0,
                    byte_count: (number_frames * desc.bytes_per_frame) as u32,
                    bytes_per_frame: desc.bytes_per_frame,
                    channels_per_frame: desc.channels_per_frame,
                },
            )
        }),
{
}

/// A call that fails leaves the table of handles as it was.
pub proof fn lemma_failures_change_nothing(
    files: Map<ExtAudioFileRef, ExtAudioFileHostObject>,
    in_ext_audio_file: ExtAudioFileRef,
    desc: AudioStreamBasicDescription,
    format_supported: bool,
    read_status: OSStatus,
    bytes_read: u32,
)
    ensures
        set_client_data_format_spec(files, in_ext_audio_file, desc, format_supported).1 != 0
            ==> set_client_data_format_spec(files, in_ext_audio_file, desc, format_supported).0
            == files,
        read_status != 0 ==> files_after_read(files, in_ext_audio_file, read_status, bytes_read)
            == files,
{
}

/// A successful read reports the whole frames among the bytes read: their
/// bytes never exceed the bytes read, and less than one frame is left over.
/// Where Audio File Services read no more than was asked for, no more frames
/// are reported than were asked for.
pub proof fn lemma_frames_read_are_whole_frames(
    request: ReadRequest,
    bytes_read: u32,
    buffer: AudioBuffer,
    number_frames: u32,
)
    requires
        request.bytes_per_frame > 0,
    ensures
        ({
            let frames = read_outcome_spec(request, 0, bytes_read, buffer).frames_read->0;
            &&& frames * request.bytes_per_frame <= bytes_read
            &&& bytes_read < frames * request.bytes_per_frame + request.bytes_per_frame
            &&& (request.byte_count == number_frames * request.bytes_per_frame && bytes_read
                <= request.byte_count) ==> frames <= number_frames
        }),
{
    let frames = bytes_read / request.bytes_per_frame;
    let bpf = request.bytes_per_frame;
    assert(frames * bpf <= bytes_read < frames * bpf + bpf) by (nonlinear_arith)
        requires
            frames == bytes_read / bpf,
            bpf > 0,
    ;
    if request.byte_count == number_frames * bpf && bytes_read <= request.byte_count {
        assert(frames <= number_frames) by (nonlinear_arith)
            requires
                frames * bpf <= bytes_read,
                bytes_read <= number_frames * bpf,
                bpf > 0,
        ;
    }
}


/// Opening a file under a handle that is not open yet (the guest allocator
/// gives memory that is not in use) adds exactly that handle: it differs from
/// every open handle, and every open handle keeps its file, its read position
/// and its client format.
pub proof fn lemma_open_gets_its_own_handle(
    files: Map<ExtAudioFileRef, ExtAudioFileHostObject>,
    new_ext_audio_file: ExtAudioFileRef,
    host: ExtAudioFileHostObject,
    open_ext_audio_file: ExtAudioFileRef,
)
    requires
        files.contains_key(open_ext_audio_file),
        !files.contains_key(new_ext_audio_file),
    ensures
        ({
            let after = files.insert(new_ext_audio_file, host);
            &&& new_ext_audio_file != open_ext_audio_file
            &&& after.contains_key(open_ext_audio_file)
            &&& after.contains_key(new_ext_audio_file)
            &&& after[open_ext_audio_file] == files[open_ext_audio_file]
            &&& after[new_ext_audio_file] == host
        }),
{
}

/// A call made on an open handle, with the values the guest and Audio File
/// Services supplied to it.
pub enum HandleCall {
    /// `ExtAudioFileGetProperty` for the file data format.
    GetProperty { io_property_data_size: u32 },
    /// `ExtAudioFileSetProperty` for the client data format.
    SetClientDataFormat { desc: AudioStreamBasicDescription, format_supported: bool },
    /// `ExtAudioFileRead`; where the read is not refused, Audio File Services
    /// returned `read_status` having read `bytes_read` bytes.
    Read { number_buffers: u32, number_frames: u32, read_status: OSStatus, bytes_read: u32 },
}

/// The table after `call` on `in_ext_audio_file`.
pub open spec fn files_after_call(
    files: Map<ExtAudioFileRef, ExtAudioFileHostObject>,
    in_ext_audio_file: ExtAudioFileRef,
    call: HandleCall,
) -> Map<ExtAudioFileRef, ExtAudioFileHostObject> {
    match call {
        HandleCall::GetProperty { .. } => files,
        HandleCall::SetClientDataFormat { desc, format_supported } => set_client_data_format_spec(
            files,
            in_ext_audio_file,
            desc,
            format_supported,
        ).0,
        HandleCall::Read { number_buffers, number_frames, read_status, bytes_read } => {
            if read_plan_spec(files, in_ext_audio_file, number_buffers, number_frames) is Ok {
                files_after_read(files, in_ext_audio_file, read_status, bytes_read)
            } else {
                files
            }
        },
    }
}

/// The table after `calls`, in order, on `in_ext_audio_file`.
pub open spec fn files_after_calls(
    files: Map<ExtAudioFileRef, ExtAudioFileHostObject>,
    in_ext_audio_file: ExtAudioFileRef,
    calls: Seq<HandleCall>,
) -> Map<ExtAudioFileRef, ExtAudioFileHostObject>
    decreases calls.len(),
{
    if calls.len() == 0 {
        files
    } else {
        files_after_call(
            files_after_calls(files, in_ext_audio_file, calls.drop_last()),
            in_ext_audio_file,
            calls.last(),
        )
    }
}

/// Calls on an open handle keep it open and touch no other handle.
proof fn lemma_calls_touch_only_their_handle(
    files: Map<ExtAudioFileRef, ExtAudioFileHostObject>,
    in_ext_audio_file: ExtAudioFileRef,
    calls: Seq<HandleCall>,
)
    requires
        files.contains_key(in_ext_audio_file),
    ensures
        files_after_calls(files, in_ext_audio_file, calls).dom() == files.dom(),
        forall|k: ExtAudioFileRef|
            k != in_ext_audio_file && files.contains_key(k) ==> #[trigger] files_after_calls(
                files,
                in_ext_audio_file,
                calls,
            )[k] == files[k],
    decreases calls.len(),
{
    if calls.len() > 0 {
        lemma_calls_touch_only_their_handle(files, in_ext_audio_file, calls.drop_last());
        let before = files_after_calls(files, in_ext_audio_file, calls.drop_last());
        let after = files_after_calls(files, in_ext_audio_file, calls);
        assert(after == files_after_call(before, in_ext_audio_file, calls.last()));
        assert(after.dom() =~= files.dom());
    }
}

/// Opening a file under a handle that is not open yet, making any calls on
/// it and disposing it leaves the table of handles as it was before the
/// open; the dispose finds the handle and gives back the opened file.
pub proof fn lemma_open_then_dispose_restores_table(
    files: Map<ExtAudioFileRef, ExtAudioFileHostObject>,
    in_ext_audio_file: ExtAudioFileRef,
    host: ExtAudioFileHostObject,
    calls: Seq<HandleCall>,
)
    requires
        !files.contains_key(in_ext_audio_file),
    ensures
        ({
            let before_dispose = files_after_calls(
                files.insert(in_ext_audio_file, host),
                in_ext_audio_file,
                calls,
            );
            &&& before_dispose.contains_key(in_ext_audio_file)
            &&& before_dispose[in_ext_audio_file].guest_audio_file == host.guest_audio_file
            &&& before_dispose.remove(in_ext_audio_file) == files
        }),
{
    let opened = files.insert(in_ext_audio_file, host);
    lemma_calls_touch_only_their_handle(opened, in_ext_audio_file, calls);
    lemma_calls_keep_the_file(opened, in_ext_audio_file, calls);
    let before_dispose = files_after_calls(opened, in_ext_audio_file, calls);
    assert forall|k: ExtAudioFileRef| #[trigger] files.contains_key(k) implies before_dispose.remove(
        in_ext_audio_file,
    )[k] == files[k] by {
        assert(opened[k] == files[k]);
    }
    assert(before_dispose.remove(in_ext_audio_file) =~= files);
}

/// Calls on an open handle never change the file it reads.
proof fn lemma_calls_keep_the_file(
    files: Map<ExtAudioFileRef, ExtAudioFileHostObject>,
    in_ext_audio_file: ExtAudioFileRef,
    calls: Seq<HandleCall>,
)
    requires
        files.contains_key(in_ext_audio_file),
    ensures
        files_after_calls(files, in_ext_audio_file, calls).contains_key(in_ext_audio_file),
        files_after_calls(files, in_ext_audio_file, calls)[in_ext_audio_file].guest_audio_file
            == files[in_ext_audio_file].guest_audio_file,
    decreases calls.len(),
{
    if calls.len() > 0 {
        lemma_calls_keep_the_file(files, in_ext_audio_file, calls.drop_last());
    }
}


/// Opening succeeds exactly when Audio File Services opened the file: any
/// other status, negative or a positive four-character code, is returned as
/// it is and nothing is registered; a successful open yields a host object
/// for that very file, with no client format and nothing read.
pub proof fn lemma_open_succeeds_only_on_success(open_status: OSStatus, guest_audio_file: AudioFileID)
    ensures
        open_status != 0 ==> opened_file_spec(open_status, guest_audio_file) == Err::<
            ExtAudioFileHostObject,
            OSStatus,
        >(open_status),
        open_status == 0 ==> opened_file_spec(open_status, guest_audio_file) is Ok,
        opened_file_spec(open_status, guest_audio_file) is Ok ==> {
            let host = opened_file_spec(open_status, guest_audio_file)->Ok_0;
            &&& open_status == 0
            &&& host.guest_audio_file == guest_audio_file
            &&& host.client_data_format is None
            &&& host.current_bytes_read == 0
        },
{
}

/// `ExtAudioFileGetProperty` goes on only for a non-null handle and the file
/// data format property, and then asks Audio File Services for the file's
/// data format; it answers only for an open handle and a size of one stream
/// description, with that handle's own file.
pub proof fn lemma_get_property_answers_only_the_file_format(
    files: Map<ExtAudioFileRef, ExtAudioFileHostObject>,
    in_ext_audio_file: ExtAudioFileRef,
    in_property_id: ExtAudioFilePropertyID,
    io_property_data_size: u32,
)
    ensures
        in_ext_audio_file == 0 ==> get_property_check_spec(in_ext_audio_file, in_property_id)
            == Err::<u32, OSStatus>(paramErr),
        in_ext_audio_file != 0 && in_property_id != kExtAudioFileProperty_FileDataFormat
            ==> get_property_check_spec(in_ext_audio_file, in_property_id) == Err::<u32, OSStatus>(
            kAudioFileBadPropertySizeError,
        ),
        in_ext_audio_file != 0 && in_property_id == kExtAudioFileProperty_FileDataFormat
            ==> get_property_check_spec(in_ext_audio_file, in_property_id) == Ok::<u32, OSStatus>(
            kAudioFilePropertyDataFormat,
        ),
        (files.contains_key(in_ext_audio_file) && io_property_data_size
            == AUDIO_STREAM_BASIC_DESCRIPTION_SIZE) ==> get_property_target_spec(
            files,
            in_ext_audio_file,
            io_property_data_size,
        ) == Ok::<AudioFileID, OSStatus>(files[in_ext_audio_file].guest_audio_file),
        !(files.contains_key(in_ext_audio_file) && io_property_data_size
            == AUDIO_STREAM_BASIC_DESCRIPTION_SIZE) ==> get_property_target_spec(
            files,
            in_ext_audio_file,
            io_property_data_size,
        ) == Err::<AudioFileID, OSStatus>(kAudioFileBadPropertySizeError),
{
}

/// `ExtAudioFileSetProperty` goes on to read the data only for a non-null
/// handle, the client data format property and a size of one stream
/// description.
pub proof fn lemma_set_property_accepts_only_the_client_format(
    in_ext_audio_file: ExtAudioFileRef,
    in_property_id: ExtAudioFilePropertyID,
    in_property_data_size: u32,
)
    ensures
        in_ext_audio_file == 0 ==> set_property_check_spec(
            in_ext_audio_file,
            in_property_id,
            in_property_data_size,
        ) == Some(paramErr),
        set_property_check_spec(in_ext_audio_file, in_property_id, in_property_data_size) is None
            <==> (in_ext_audio_file != 0 && in_property_id == kExtAudioFileProperty_ClientDataFormat
            && in_property_data_size == AUDIO_STREAM_BASIC_DESCRIPTION_SIZE),
        in_ext_audio_file != 0 && set_property_check_spec(
            in_ext_audio_file,
            in_property_id,
            in_property_data_size,
        ) is Some ==> set_property_check_spec(in_ext_audio_file, in_property_id, in_property_data_size)
            == Some(kAudioFileBadPropertySizeError),
{
}

/// Setting the client data format succeeds exactly for a supported linear
/// PCM format on an open handle, and then changes nothing but that handle's
/// client format: its file and its read position stay as they were, and so
/// does every other handle. Otherwise nothing changes.
pub proof fn lemma_set_client_format_changes_only_the_format(
    files: Map<ExtAudioFileRef, ExtAudioFileHostObject>,
    in_ext_audio_file: ExtAudioFileRef,
    desc: AudioStreamBasicDescription,
    format_supported: bool,
)
    ensures
        ({
            let (after, status) = set_client_data_format_spec(
                files,
                in_ext_audio_file,
                desc,
                format_supported,
            );
            &&& (status == 0) <==> (desc.format_id == kAudioFormatLinearPCM && format_supported
                && files.contains_key(in_ext_audio_file))
            &&& status != 0 ==> status == kAudioFileBadPropertySizeError && after == files
            &&& status == 0 ==> {
                &&& after.dom() == files.dom()
                &&& after[in_ext_audio_file].client_data_format == Some(desc)
                &&& after[in_ext_audio_file].guest_audio_file
                    == files[in_ext_audio_file].guest_audio_file
                &&& after[in_ext_audio_file].current_bytes_read
                    == files[in_ext_audio_file].current_bytes_read
                &&& forall|k: ExtAudioFileRef|
                    k != in_ext_audio_file && files.contains_key(k) ==> #[trigger] after[k]
                        == files[k]
            }
        }),
{
    let (after, status) = set_client_data_format_spec(files, in_ext_audio_file, desc, format_supported);
    if status == 0 {
        assert(after.dom() =~= files.dom());
    }
}

/// A read goes ahead exactly for a one-buffer list on an open handle with a
/// client format that has bytes per frame and where the byte count fits in
/// 32 bits. It then reads the handle's own file, from its read position,
/// `frames × bytes per frame` bytes, in the client format's frame size and
/// channel count. Any other read is refused with
/// `kAudioFileBadPropertySizeError`, 0 frames and the buffer untouched.
pub proof fn lemma_read_plan_follows_the_client_format(
    files: Map<ExtAudioFileRef, ExtAudioFileHostObject>,
    in_ext_audio_file: ExtAudioFileRef,
    number_buffers: u32,
    number_frames: u32,
)
    ensures
        ({
            let plan = read_plan_spec(files, in_ext_audio_file, number_buffers, number_frames);
            let goes_ahead = number_buffers == 1 && files.contains_key(in_ext_audio_file)
                && files[in_ext_audio_file].client_data_format is Some
                && files[in_ext_audio_file].client_data_format->0.bytes_per_frame != 0
                && number_frames * files[in_ext_audio_file].client_data_format->0.bytes_per_frame
                <= u32::MAX;
            &&& (plan is Ok <==> goes_ahead)
            &&& plan is Err ==> plan->Err_0 == ReadOutcome {
                status: kAudioFileBadPropertySizeError,
                frames_read: Some(0),
                buffer: None,
            }
            &&& plan is Ok ==> {
                let req = plan->Ok_0;
                let host = files[in_ext_audio_file];
                let format = host.client_data_format->0;
                &&& req.audio_file == host.guest_audio_file
                &&& req.starting_byte == host.current_bytes_read
                &&& req.byte_count == number_frames * format.bytes_per_frame
                &&& req.bytes_per_frame == format.bytes_per_frame
                &&& req.channels_per_frame == format.channels_per_frame
            }
        }),
{
}

/// How a read ends once Audio File Services has answered. The end of the
/// file is success with 0 frames and nothing written to the buffer list;
/// another error is returned as it is with nothing written back. On success
/// the status is 0, the buffer written back keeps its data pointer and
/// carries the client format's channel count and the bytes read, and the
/// frames reported are the whole frames among those bytes.
pub proof fn lemma_read_outcome_reports_what_was_read(
    request: ReadRequest,
    read_status: OSStatus,
    bytes_read: u32,
    buffer: AudioBuffer,
)
    ensures
        ({
            let outcome = read_outcome_spec(request, read_status, bytes_read, buffer);
            &&& read_status == eofErr ==> outcome == ReadOutcome {
                status: 0,
                frames_read: Some(0),
                buffer: None,
            }
            &&& (read_status != 0 && read_status != eofErr) ==> outcome == ReadOutcome {
                status: read_status,
                frames_read: None,
                buffer: None,
            }
            &&& read_status == 0 ==> {
                &&& outcome.status == 0
                &&& outcome.buffer == Some(
                    AudioBuffer {
                        number_channels: request.channels_per_frame,
                        data_byte_size: bytes_read,
                        data: buffer.data,
                    },
                )
                &&& outcome.frames_read is Some
                &&& request.bytes_per_frame > 0 ==> {
                    let frames = outcome.frames_read->0;
                    &&& frames * request.bytes_per_frame <= bytes_read
                    &&& bytes_read < frames * request.bytes_per_frame + request.bytes_per_frame
                }
            }
        }),
{
    if read_status == 0 && request.bytes_per_frame > 0 {
        lemma_frames_read_are_whole_frames(request, bytes_read, buffer, 0);
    }
}

/// After a successful read on an open handle the read position has moved on
/// by exactly the bytes read; its file and client format, and every other
/// handle, stay as they were. A failed read moves nothing.
pub proof fn lemma_read_advances_by_the_bytes_read(
    files: Map<ExtAudioFileRef, ExtAudioFileHostObject>,
    in_ext_audio_file: ExtAudioFileRef,
    read_status: OSStatus,
    bytes_read: u32,
)
    requires
        files.contains_key(in_ext_audio_file) ==> files[in_ext_audio_file].current_bytes_read
            + bytes_read <= i64::MAX,
    ensures
        ({
            let after = files_after_read(files, in_ext_audio_file, read_status, bytes_read);
            &&& read_status != 0 ==> after == files
            &&& after.dom() == files.dom()
            &&& forall|k: ExtAudioFileRef|
                k != in_ext_audio_file && files.contains_key(k) ==> #[trigger] after[k] == files[k]
            &&& (read_status == 0 && files.contains_key(in_ext_audio_file)) ==> {
                &&& after[in_ext_audio_file].current_bytes_read
                    == files[in_ext_audio_file].current_bytes_read + bytes_read
                &&& after[in_ext_audio_file].guest_audio_file
                    == files[in_ext_audio_file].guest_audio_file
                &&& after[in_ext_audio_file].client_data_format
                    == files[in_ext_audio_file].client_data_format
            }
        }),
{
    let after = files_after_read(files, in_ext_audio_file, read_status, bytes_read);
    assert(after.dom() =~= files.dom());
}

} // verus!
