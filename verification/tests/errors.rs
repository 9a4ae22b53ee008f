use bass_stream::codes::{
    BASS_OK, BASS_ERROR_MEM, BASS_ERROR_FILEOPEN, BASS_ERROR_FORMAT, BASS_ERROR_START,
    BASS_ERROR_SSL, BASS_ERROR_NOTAUDIO, BASS_ERROR_NOPLAY, BASS_ERROR_NONET,
    BASS_ERROR_TIMEOUT, BASS_ERROR_FILEFORM, BASS_ERROR_CODEC, BASS_ERROR_UNSTREAMABLE,
    BASS_ERROR_PROTOCOL,
};
use bass_stream::error::{
    classify_file_open_error, classify_url_open_error, classify_play_failure,
    classify_pause_failure, BassError,
};

#[test]
fn file_open_codes_map_to_the_listed_variants() {
    assert_eq!(
        classify_file_open_error(BASS_ERROR_FILEOPEN),
        Some(BassError::FileCouldNotBeOpened)
    );
    assert_eq!(
        classify_file_open_error(BASS_ERROR_FILEFORM),
        Some(BassError::InvalidFileFormat)
    );
    assert_eq!(
        classify_file_open_error(BASS_ERROR_NOTAUDIO),
        Some(BassError::InvalidFileContent)
    );
    assert_eq!(
        classify_file_open_error(BASS_ERROR_CODEC),
        Some(BassError::InvalidCodec)
    );
    assert_eq!(
        classify_file_open_error(BASS_ERROR_FORMAT),
        Some(BassError::InvalidSampleFormat)
    );
    assert_eq!(
        classify_file_open_error(BASS_ERROR_MEM),
        Some(BassError::InsufficientMemory)
    );
}

#[test]
fn unmapped_file_open_codes_are_not_classified() {
    assert_eq!(classify_file_open_error(BASS_OK), None);
    assert_eq!(classify_file_open_error(BASS_ERROR_START), None);
    assert_eq!(classify_file_open_error(BASS_ERROR_NONET), None);
    assert_eq!(classify_file_open_error(BASS_ERROR_UNSTREAMABLE), None);
    assert_eq!(classify_file_open_error(3), None);
    assert_eq!(classify_file_open_error(-1), None);
}

#[test]
fn url_open_codes_map_to_the_listed_variants() {
    assert_eq!(
        classify_url_open_error(BASS_ERROR_NONET),
        Some(BassError::NoInternetConnection)
    );
    assert_eq!(
        classify_url_open_error(BASS_ERROR_PROTOCOL),
        Some(BassError::InvalidProtocol)
    );
    assert_eq!(
        classify_url_open_error(BASS_ERROR_SSL),
        Some(BassError::SslSupportNotAvailable)
    );
    assert_eq!(classify_url_open_error(BASS_ERROR_TIMEOUT), Some(BassError::TimeOut));
    assert_eq!(
        classify_url_open_error(BASS_ERROR_FILEOPEN),
        Some(BassError::FileCouldNotBeOpened)
    );
    assert_eq!(
        classify_url_open_error(BASS_ERROR_FILEFORM),
        Some(BassError::InvalidFileFormat)
    );
    assert_eq!(
        classify_url_open_error(BASS_ERROR_UNSTREAMABLE),
        Some(BassError::UnstreamableFile)
    );
    assert_eq!(
        classify_url_open_error(BASS_ERROR_NOTAUDIO),
        Some(BassError::InvalidFileContent)
    );
    assert_eq!(classify_url_open_error(BASS_ERROR_CODEC), Some(BassError::InvalidCodec));
    assert_eq!(
        classify_url_open_error(BASS_ERROR_FORMAT),
        Some(BassError::InvalidSampleFormat)
    );
    assert_eq!(
        classify_url_open_error(BASS_ERROR_MEM),
        Some(BassError::InsufficientMemory)
    );
}

#[test]
fn unmapped_url_open_codes_are_not_classified() {
    assert_eq!(classify_url_open_error(BASS_OK), None);
    assert_eq!(classify_url_open_error(BASS_ERROR_START), None);
    assert_eq!(classify_url_open_error(BASS_ERROR_NOPLAY), None);
    assert_eq!(classify_url_open_error(5), None);
    assert_eq!(classify_url_open_error(-7), None);
}

#[test]
fn play_failure_is_recoverable_only_when_output_is_paused_or_stopped() {
    assert_eq!(
        classify_play_failure(BASS_ERROR_START),
        Some(BassError::OutputIsPausedOrStopped)
    );
    assert_eq!(classify_play_failure(BASS_OK), None);
    assert_eq!(classify_play_failure(BASS_ERROR_NOPLAY), None);
    assert_eq!(classify_play_failure(BASS_ERROR_MEM), None);
}

#[test]
fn pause_failure_is_recoverable_only_when_not_playing() {
    assert_eq!(
        classify_pause_failure(BASS_ERROR_NOPLAY),
        Some(BassError::StreamIsNotPlaying)
    );
    assert_eq!(classify_pause_failure(BASS_OK), None);
    assert_eq!(classify_pause_failure(BASS_ERROR_START), None);
    assert_eq!(classify_pause_failure(BASS_ERROR_FILEOPEN), None);
}

#[test]
fn messages_describe_each_error() {
    assert_eq!(
        BassError::OutputIsPausedOrStopped.message(),
        "The output is paused or stopped."
    );
    assert_eq!(BassError::StreamIsNotPlayable.message(), "The stream is not playable.");
    assert_eq!(BassError::StreamIsNotPlaying.message(), "The stream is not playing.");
    assert_eq!(
        BassError::FileCouldNotBeOpened.message(),
        "The file couldn't be opened."
    );
    assert_eq!(
        BassError::InvalidFileFormat.message(),
        "The file format isn't supported or recognised."
    );
    assert_eq!(
        BassError::InvalidFileContent.message(),
        "The file doesn't contain audio or it contains audio and video."
    );
    assert_eq!(BassError::InvalidCodec.message(), "The codec isn't supported.");
    assert_eq!(
        BassError::InvalidSampleFormat.message(),
        "The sample format isn't supported."
    );
    assert_eq!(
        BassError::InsufficientMemory.message(),
        "There is too little free memory."
    );
    assert_eq!(
        BassError::CouldNotInitialize3DSupport.message(),
        "Couldn't initialize 3d support."
    );
    assert_eq!(
        BassError::NoInternetConnection.message(),
        "Internet connection isn't available."
    );
    assert_eq!(BassError::InvalidProtocol.message(), "The protocol isn't supported.");
    assert_eq!(
        BassError::SslSupportNotAvailable.message(),
        "SSL support is not available."
    );
    assert_eq!(BassError::UnstreamableFile.message(), "The file can't be streamed.");
    assert_eq!(
        BassError::TimeOut.message(),
        "The server didn't respond to the request within the timeout period."
    );
}
