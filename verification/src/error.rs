//! The typed error taxonomy and the translation of the engine's numeric error
//! codes into it.
//!
//! A failure code that a call site does not map is an engine-contract
//! violation, not a user-facing condition: the classification functions return
//! `None` for it, and the embedding application treats it as fatal.

use vstd::prelude::*;
use crate::codes::{
    BASS_ERROR_MEM, BASS_ERROR_FILEOPEN, BASS_ERROR_FORMAT, BASS_ERROR_START, BASS_ERROR_SSL,
    BASS_ERROR_NOTAUDIO, BASS_ERROR_NOPLAY, BASS_ERROR_NONET, BASS_ERROR_TIMEOUT,
    BASS_ERROR_FILEFORM, BASS_ERROR_CODEC, BASS_ERROR_UNSTREAMABLE, BASS_ERROR_PROTOCOL,
};

verus! {

/// The recoverable, caller-actionable failures of the binding layer.
///
/// `StreamIsNotPlayable` and `CouldNotInitialize3DSupport` are reserved
/// members of the taxonomy: no mapped call site currently produces them.
#[derive(Clone, Copy, Debug, PartialEq, Eq, Structural)]
pub enum BassError {
    OutputIsPausedOrStopped,
    StreamIsNotPlayable,
    StreamIsNotPlaying,
    FileCouldNotBeOpened,
    InvalidFileFormat,
    InvalidFileContent,
    InvalidCodec,
    InvalidSampleFormat,
    InsufficientMemory,
    CouldNotInitialize3DSupport,
    NoInternetConnection,
    InvalidProtocol,
    SslSupportNotAvailable,
    UnstreamableFile,
    TimeOut,
}

/// The error a failed file open maps to, by the engine's last error code;
/// `None` for every unmapped code.
pub open spec fn file_open_error(code: i32) -> Option<BassError> {
    if code == BASS_ERROR_FILEOPEN {
        Some(BassError::FileCouldNotBeOpened)
    } else if code == BASS_ERROR_FILEFORM {
        Some(BassError::InvalidFileFormat)
    } else if code == BASS_ERROR_NOTAUDIO {
        Some(BassError::InvalidFileContent)
    } else if code == BASS_ERROR_CODEC {
        Some(BassError::InvalidCodec)
    } else if code == BASS_ERROR_FORMAT {
        Some(BassError::InvalidSampleFormat)
    } else if code == BASS_ERROR_MEM {
        Some(BassError::InsufficientMemory)
    } else {
        None
    }
}

/// The error a failed URL open maps to, by the engine's last error code;
/// `None` for every unmapped code.
pub open spec fn url_open_error(code: i32) -> Option<BassError> {
    if code == BASS_ERROR_NONET {
        Some(BassError::NoInternetConnection)
    } else if code == BASS_ERROR_PROTOCOL {
        Some(BassError::InvalidProtocol)
    } else if code == BASS_ERROR_SSL {
        Some(BassError::SslSupportNotAvailable)
    } else if code == BASS_ERROR_TIMEOUT {
        Some(BassError::TimeOut)
    } else if code == BASS_ERROR_FILEOPEN {
        Some(BassError::FileCouldNotBeOpened)
    } else if code == BASS_ERROR_FILEFORM {
        Some(BassError::InvalidFileFormat)
    } else if code == BASS_ERROR_UNSTREAMABLE {
        Some(BassError::UnstreamableFile)
    } else if code == BASS_ERROR_NOTAUDIO {
        Some(BassError::InvalidFileContent)
    } else if code == BASS_ERROR_CODEC {
        Some(BassError::InvalidCodec)
    } else if code == BASS_ERROR_FORMAT {
        Some(BassError::InvalidSampleFormat)
    } else if code == BASS_ERROR_MEM {
        Some(BassError::InsufficientMemory)
    } else {
        None
    }
}

/// The error a failed play maps to: only "the output is paused or stopped"
/// is recoverable.
pub open spec fn play_failure_error(code: i32) -> Option<BassError> {
    if code == BASS_ERROR_START {
        Some(BassError::OutputIsPausedOrStopped)
    } else {
        None
    }
}

/// The error a failed pause maps to: only "the channel is not playing"
/// is recoverable.
pub open spec fn pause_failure_error(code: i32) -> Option<BassError> {
    if code == BASS_ERROR_NOPLAY {
        Some(BassError::StreamIsNotPlaying)
    } else {
        None
    }
}

/// Classifies the engine's last error code after a failed file open.
pub fn classify_file_open_error(code: i32) -> (r: Option<BassError>)
    ensures
        r == file_open_error(code),
{
    if code == BASS_ERROR_FILEOPEN {
        Some(BassError::FileCouldNotBeOpened)
    } else if code == BASS_ERROR_FILEFORM {
        Some(BassError::InvalidFileFormat)
    } else if code == BASS_ERROR_NOTAUDIO {
        Some(BassError::InvalidFileContent)
    } else if code == BASS_ERROR_CODEC {
        Some(BassError::InvalidCodec)
    } else if code == BASS_ERROR_FORMAT {
        Some(BassError::InvalidSampleFormat)
    } else if code == BASS_ERROR_MEM {
        Some(BassError::InsufficientMemory)
    } else {
        None
    }
}

/// Classifies the engine's last error code after a failed URL open.
pub fn classify_url_open_error(code: i32) -> (r: Option<BassError>)
    ensures
        r == url_open_error(code),
{
    if code == BASS_ERROR_NONET {
        Some(BassError::NoInternetConnection)
    } else if code == BASS_ERROR_PROTOCOL {
        Some(BassError::InvalidProtocol)
    } else if code == BASS_ERROR_SSL {
        Some(BassError::SslSupportNotAvailable)
    } else if code == BASS_ERROR_TIMEOUT {
        Some(BassError::TimeOut)
    } else if code == BASS_ERROR_FILEOPEN {
        Some(BassError::FileCouldNotBeOpened)
    } else if code == BASS_ERROR_FILEFORM {
        Some(BassError::InvalidFileFormat)
    } else if code == BASS_ERROR_UNSTREAMABLE {
        Some(BassError::UnstreamableFile)
    } else if code == BASS_ERROR_NOTAUDIO {
        Some(BassError::InvalidFileContent)
    } else if code == BASS_ERROR_CODEC {
        Some(BassError::InvalidCodec)
    } else if code == BASS_ERROR_FORMAT {
        Some(BassError::InvalidSampleFormat)
    } else if code == BASS_ERROR_MEM {
        Some(BassError::InsufficientMemory)
    } else {
        None
    }
}

/// Classifies the engine's last error code after a failed play.
pub fn classify_play_failure(code: i32) -> (r: Option<BassError>)
    ensures
        r == play_failure_error(code),
{
    if code == BASS_ERROR_START {
        Some(BassError::OutputIsPausedOrStopped)
    } else {
        None
    }
}

/// Classifies the engine's last error code after a failed pause.
pub fn classify_pause_failure(code: i32) -> (r: Option<BassError>)
    ensures
        r == pause_failure_error(code),
{
    if code == BASS_ERROR_NOPLAY {
        Some(BassError::StreamIsNotPlaying)
    } else {
        None
    }
}

impl BassError {
    /// The human-readable description of `self`.
    pub open spec fn message_spec(self) -> Seq<char> {
        match self {
            BassError::OutputIsPausedOrStopped => "The output is paused or stopped."@,
            BassError::StreamIsNotPlayable => "The stream is not playable."@,
            BassError::StreamIsNotPlaying => "The stream is not playing."@,
            BassError::FileCouldNotBeOpened => "The file couldn't be opened."@,
            BassError::InvalidFileFormat => "The file format isn't supported or recognised."@,
            BassError::InvalidFileContent => "The file doesn't contain audio or it contains audio and video."@,
            BassError::InvalidCodec => "The codec isn't supported."@,
            BassError::InvalidSampleFormat => "The sample format isn't supported."@,
            BassError::InsufficientMemory => "There is too little free memory."@,
            BassError::CouldNotInitialize3DSupport => "Couldn't initialize 3d support."@,
            BassError::NoInternetConnection => "Internet connection isn't available."@,
            BassError::InvalidProtocol => "The protocol isn't supported."@,
            BassError::SslSupportNotAvailable => "SSL support is not available."@,
            BassError::UnstreamableFile => "The file can't be streamed."@,
            BassError::TimeOut => "The server didn't respond to the request within the timeout period."@,
        }
    }

    /// The human-readable description of the error.
    pub fn message(&self) -> (m: &'static str)
        ensures
            m@ == self.message_spec(),
    {
        match self {
            BassError::OutputIsPausedOrStopped => "The output is paused or stopped.",
            BassError::StreamIsNotPlayable => "The stream is not playable.",
            BassError::StreamIsNotPlaying => "The stream is not playing.",
            BassError::FileCouldNotBeOpened => "The file couldn't be opened.",
            BassError::InvalidFileFormat => "The file format isn't supported or recognised.",
            BassError::InvalidFileContent => "The file doesn't contain audio or it contains audio and video.",
            BassError::InvalidCodec => "The codec isn't supported.",
            BassError::InvalidSampleFormat => "The sample format isn't supported.",
            BassError::InsufficientMemory => "There is too little free memory.",
            BassError::CouldNotInitialize3DSupport => "Couldn't initialize 3d support.",
            BassError::NoInternetConnection => "Internet connection isn't available.",
            BassError::InvalidProtocol => "The protocol isn't supported.",
            BassError::SslSupportNotAvailable => "SSL support is not available.",
            BassError::UnstreamableFile => "The file can't be streamed.",
            BassError::TimeOut => "The server didn't respond to the request within the timeout period.",
        }
    }
}

} // verus!
