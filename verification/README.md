# touchhle audio and formatter library

Verified pieces of an iPhone OS emulator's frameworks, written in Verus.

- `src/audio_toolbox.rs`: the Audio Toolbox framework state and the OpenAL
  context that is created on first use and then kept.
- `src/audio_toolbox/extended_audio_file.rs`: Extended Audio File Services —
  the table of open handles and the decisions of `ExtAudioFileOpenURL`,
  `ExtAudioFileGetProperty`, `ExtAudioFileSetProperty`, `ExtAudioFileRead` and
  `ExtAudioFileDispose`, with proofs of how reads advance and what a disposed
  handle answers.
- `src/foundation/ns_number_formatter.rs`: the `NSNumberFormatter` host object,
  its formatter-behaviour rule, and the cleaning of strings before parsing.
- `src/media_player/media_playlist.rs`: `MPMediaPlaylist` property keys.
- `src/carbon_core.rs`, `src/core_audio_types.rs`,
  `src/audio_toolbox/audio_file.rs`: status codes, four-character codes and
  the stream description type.
- `app/lib.rs`: the entry points that read and write guest memory and call
  Audio File Services, and the floating-point formatting and parsing.
