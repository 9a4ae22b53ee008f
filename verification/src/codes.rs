//! Numeric codes of the engine's call surface: the error codes reported by
//! get-last-error-code and the identifiers of the per-channel attributes.
//!
//! The values are the ones the engine documents; the embedding application
//! passes them through unchanged.

use vstd::prelude::*;

verus! {

/// No error is pending.
pub const BASS_OK: i32 = 0;
/// There is too little free memory.
pub const BASS_ERROR_MEM: i32 = 1;
/// The file could not be opened.
pub const BASS_ERROR_FILEOPEN: i32 = 2;
/// The sample format is not supported.
pub const BASS_ERROR_FORMAT: i32 = 6;
/// The output is paused or stopped, so playback cannot start.
pub const BASS_ERROR_START: i32 = 9;
/// SSL support is not available.
pub const BASS_ERROR_SSL: i32 = 10;
/// The file does not contain audio, or it contains both audio and video.
pub const BASS_ERROR_NOTAUDIO: i32 = 17;
/// The channel is not playing.
pub const BASS_ERROR_NOPLAY: i32 = 24;
/// No internet connection could be opened.
pub const BASS_ERROR_NONET: i32 = 32;
/// The server did not respond within the timeout period.
pub const BASS_ERROR_TIMEOUT: i32 = 40;
/// The file's format is not supported or recognised.
pub const BASS_ERROR_FILEFORM: i32 = 41;
/// The codec is not available or not supported.
pub const BASS_ERROR_CODEC: i32 = 44;
/// The file cannot be streamed.
pub const BASS_ERROR_UNSTREAMABLE: i32 = 47;
/// The protocol is not supported.
pub const BASS_ERROR_PROTOCOL: i32 = 48;

/// Sample rate of the channel.
pub const BASS_ATTRIB_FREQ: u32 = 1;
/// Volume level of the channel.
pub const BASS_ATTRIB_VOL: u32 = 2;
/// Panning position of the channel.
pub const BASS_ATTRIB_PAN: u32 = 3;
/// Switch that disables playback buffering.
pub const BASS_ATTRIB_NOBUFFER: u32 = 5;
/// Sample-rate-conversion quality of the channel.
pub const BASS_ATTRIB_SRC: u32 = 8;
/// Buffer level required to resume stalled playback.
pub const BASS_ATTRIB_NET_RESUME: u32 = 9;
/// Switch that disables playback ramping.
pub const BASS_ATTRIB_NORAMP: u32 = 11;
/// Average bit rate of the stream.
pub const BASS_ATTRIB_BITRATE: u32 = 12;
/// Playback buffering length of the channel.
pub const BASS_ATTRIB_BUFFER: u32 = 13;
/// Processing granularity of the channel.
pub const BASS_ATTRIB_GRANULE: u32 = 14;

} // verus!
