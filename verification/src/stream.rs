//! The owning handle to one channel of the engine, and the translation of
//! every engine reply into a typed result.
//!
//! Each method's contract states, over the engine's transcript, exactly which
//! engine operations the method performs — in which order and with which
//! arguments — and what it returns for each scripted reply. Inputs on which
//! the binding layer's policy is to terminate the process (an unmapped
//! failure code, a failed stop, lock or release) are excluded by `requires`:
//! the embedding application checks the engine's reply first and aborts as
//! the policy demands.

use vstd::prelude::*;
use vstd::pervasive::unreached;
use crate::codes::{
    BASS_ERROR_START, BASS_ERROR_NOPLAY, BASS_ATTRIB_FREQ, BASS_ATTRIB_VOL, BASS_ATTRIB_PAN,
    BASS_ATTRIB_NOBUFFER, BASS_ATTRIB_SRC, BASS_ATTRIB_NET_RESUME, BASS_ATTRIB_NORAMP,
    BASS_ATTRIB_BITRATE, BASS_ATTRIB_BUFFER, BASS_ATTRIB_GRANULE,
};
use crate::engine::{EngineCall, MockEngine};
use crate::error::{
    BassError, file_open_error, url_open_error, play_failure_error, pause_failure_error,
    classify_file_open_error, classify_url_open_error, classify_play_failure,
    classify_pause_failure,
};

verus! {

/// An owning handle to one live channel of the engine.
///
/// A `Stream` is only ever built by a constructor that saw a non-zero handle,
/// so a value of this type always refers to a live channel; ownership is
/// exclusive, and [`Stream::release`] consumes the value, so the channel is
/// released at most once and the handle is never reused by this layer.
#[derive(Debug)]
pub struct Stream {
    raw: u32,
}

impl Stream {
    /// The native handle of the channel this stream owns.
    pub closed spec fn handle(self) -> u32 {
        self.raw
    }

    /// The handle is non-zero: zero is the engine's sentinel for "no channel".
    pub open spec fn wf(self) -> bool {
        self.handle() != 0
    }

    /// Opens `file_name` as a decodable audio source and takes ownership of
    /// the channel the engine creates for it.
    ///
    /// Performs open-stream-from-path; on a zero handle it queries
    /// get-last-error-code and returns the mapped error. The text itself is
    /// marshaled by the embedding layer and is not interpreted here.
    #[allow(unused_variables)]
    pub fn create_from_file(file_name: String, engine: &mut MockEngine) -> (r: Result<Stream, BassError>)
        requires
            old(engine).open_handle == 0 ==> file_open_error(old(engine).last_error) is Some,
        ensures
            final(engine).same_replies(*old(engine)),
            old(engine).open_handle != 0 ==> {
                &&& r matches Ok(s) && s.handle() == old(engine).open_handle
                &&& final(engine).calls@ == old(engine).calls@.push(
                    EngineCall::OpenFile { flags: 0, offset: 0, length: 0, mode: 0 })
            },
            old(engine).open_handle == 0 ==> {
                &&& r matches Err(e) && Some(e) == file_open_error(old(engine).last_error)
                &&& final(engine).calls@ == old(engine).calls@.push(
                    EngineCall::OpenFile { flags: 0, offset: 0, length: 0, mode: 0 }).push(
                    EngineCall::GetLastErrorCode)
            },
    {
        let handle = engine.stream_create_file(0, 0, 0, 0);
        if handle == 0 {
            let error_code = engine.error_get_code();
            match classify_file_open_error(error_code) {
                Some(error) => Err(error),
                None => unreached(),
            }
        } else {
            Ok(Stream { raw: handle })
        }
    }

    /// Opens `url` as a streamed audio source and takes ownership of the
    /// channel the engine creates for it.
    ///
    /// Performs open-stream-from-url; on a zero handle it queries
    /// get-last-error-code and returns the mapped error. The transcoded text
    /// is handed to the engine for the duration of the call only; the
    /// embedding layer reclaims it as soon as the call returns.
    #[allow(unused_variables)]
    pub fn create_from_url(url: String, engine: &mut MockEngine) -> (r: Result<Stream, BassError>)
        requires
            old(engine).open_handle == 0 ==> url_open_error(old(engine).last_error) is Some,
        ensures
            final(engine).same_replies(*old(engine)),
            old(engine).open_handle != 0 ==> {
                &&& r matches Ok(s) && s.handle() == old(engine).open_handle
                &&& final(engine).calls@ == old(engine).calls@.push(
                    EngineCall::OpenUrl { flags: 0, offset: 0, length: 0, mode: 0 })
            },
            old(engine).open_handle == 0 ==> {
                &&& r matches Err(e) && Some(e) == url_open_error(old(engine).last_error)
                &&& final(engine).calls@ == old(engine).calls@.push(
                    EngineCall::OpenUrl { flags: 0, offset: 0, length: 0, mode: 0 }).push(
                    EngineCall::GetLastErrorCode)
            },
    {
        let handle = engine.stream_create_url(0, 0, 0, 0);
        if handle == 0 {
            let error_code = engine.error_get_code();
            match classify_url_open_error(error_code) {
                Some(error) => Err(error),
                None => unreached(),
            }
        } else {
            Ok(Stream { raw: handle })
        }
    }

    /// Starts or resumes playback from the current position.
    ///
    /// Performs channel-play without restart; when the engine reports
    /// failure, the code "the output is paused or stopped" is the one
    /// recoverable condition.
    pub fn play(&self, engine: &mut MockEngine) -> (r: Result<(), BassError>)
        requires
            self.wf(),
            !old(engine).play_ok ==> play_failure_error(old(engine).last_error) is Some,
        ensures
            final(engine).same_replies(*old(engine)),
            old(engine).play_ok ==> {
                &&& r is Ok
                &&& final(engine).calls@ == old(engine).calls@.push(
                    EngineCall::Play { handle: self.handle(), restart: false })
            },
            !old(engine).play_ok ==> {
                &&& r matches Err(e) && e == BassError::OutputIsPausedOrStopped
                &&& final(engine).calls@ == old(engine).calls@.push(
                    EngineCall::Play { handle: self.handle(), restart: false }).push(
                    EngineCall::GetLastErrorCode)
            },
    {
        if !engine.channel_play(self.raw, false) {
            let error_code = engine.error_get_code();
            match classify_play_failure(error_code) {
                Some(error) => Err(error),
                None => unreached(),
            }
        } else {
            Ok(())
        }
    }

    /// Suspends playback without resetting the position.
    ///
    /// Performs channel-pause; when the engine reports failure, the code
    /// "the channel is not playing" is the one recoverable condition.
    pub fn pause(&self, engine: &mut MockEngine) -> (r: Result<(), BassError>)
        requires
            self.wf(),
            !old(engine).pause_ok ==> pause_failure_error(old(engine).last_error) is Some,
        ensures
            final(engine).same_replies(*old(engine)),
            old(engine).pause_ok ==> {
                &&& r is Ok
                &&& final(engine).calls@ == old(engine).calls@.push(
                    EngineCall::Pause { handle: self.handle() })
            },
            !old(engine).pause_ok ==> {
                &&& r matches Err(e) && e == BassError::StreamIsNotPlaying
                &&& final(engine).calls@ == old(engine).calls@.push(
                    EngineCall::Pause { handle: self.handle() }).push(
                    EngineCall::GetLastErrorCode)
            },
    {
        if !engine.channel_pause(self.raw) {
            let error_code = engine.error_get_code();
            match classify_pause_failure(error_code) {
                Some(error) => Err(error),
                None => unreached(),
            }
        } else {
            Ok(())
        }
    }

    /// Halts playback and resets the channel's state.
    ///
    /// Performs channel-stop. No recoverable error is modeled for this call:
    /// an engine-reported failure is fatal, so it is excluded by `requires`
    /// and the result is always a success.
    pub fn stop(&self, engine: &mut MockEngine) -> (r: Result<(), BassError>)
        requires
            self.wf(),
            old(engine).stop_ok,
        ensures
            final(engine).same_replies(*old(engine)),
            r is Ok,
            final(engine).calls@ == old(engine).calls@.push(
                EngineCall::Stop { handle: self.handle() }),
    {
        let ok = engine.channel_stop(self.raw);
        if !ok {
            unreached()
        } else {
            Ok(())
        }
    }

    /// Enters the engine-level exclusive section of the channel.
    ///
    /// Performs channel-lock with the lock flag set. Failure is an
    /// engine-contract violation and fatal, so it is excluded by `requires`.
    pub fn lock(&self, engine: &mut MockEngine)
        requires
            self.wf(),
            old(engine).lock_ok,
        ensures
            final(engine).same_replies(*old(engine)),
            final(engine).calls@ == old(engine).calls@.push(
                EngineCall::Lock { handle: self.handle(), lock: true }),
    {
        let ok = engine.channel_lock(self.raw, true);
        if !ok {
            unreached()
        }
    }

    /// Leaves the engine-level exclusive section of the channel.
    ///
    /// Performs channel-lock with the lock flag cleared. Failure is an
    /// engine-contract violation and fatal, so it is excluded by `requires`.
    pub fn unlock(&self, engine: &mut MockEngine)
        requires
            self.wf(),
            old(engine).lock_ok,
        ensures
            final(engine).same_replies(*old(engine)),
            final(engine).calls@ == old(engine).calls@.push(
                EngineCall::Lock { handle: self.handle(), lock: false }),
    {
        let ok = engine.channel_lock(self.raw, false);
        if !ok {
            unreached()
        }
    }

    /// Reads one attribute of the channel: the engine's value on success, the
    /// default 0.0 (all bits zero) when the engine call fails. Attribute
    /// reads are best-effort; no error is surfaced.
    fn read_attribute(&self, engine: &mut MockEngine, attribute: u32) -> (bits: u32)
        requires
            self.wf(),
        ensures
            final(engine).same_replies(*old(engine)),
            final(engine).calls@ == old(engine).calls@.push(
                EngineCall::GetAttribute { handle: self.handle(), attribute }),
            bits == (if old(engine).get_attribute_ok { old(engine).attribute_bits } else { 0u32 }),
    {
        match engine.channel_get_attribute(self.raw, attribute) {
            Some(bits) => bits,
            None => 0,
        }
    }

    /// Writes one attribute of the channel, fire-and-forget: the engine's
    /// reported success or failure is not surfaced.
    fn write_attribute(&self, engine: &mut MockEngine, attribute: u32, value_bits: u32)
        requires
            self.wf(),
        ensures
            final(engine).same_replies(*old(engine)),
            final(engine).calls@ == old(engine).calls@.push(
                EngineCall::SetAttribute { handle: self.handle(), attribute, value_bits }),
    {
        let _ = engine.channel_set_attribute(self.raw, attribute, value_bits);
    }

    /// The average bit rate of the stream, as the bits of a 32-bit float;
    /// 0.0 when the engine call fails.
    pub fn get_bit_rate(&self, engine: &mut MockEngine) -> (bits: u32)
        requires
            self.wf(),
        ensures
            final(engine).same_replies(*old(engine)),
            final(engine).calls@ == old(engine).calls@.push(
                EngineCall::GetAttribute { handle: self.handle(), attribute: BASS_ATTRIB_BITRATE }),
            bits == (if old(engine).get_attribute_ok { old(engine).attribute_bits } else { 0u32 }),
    {
        self.read_attribute(engine, BASS_ATTRIB_BITRATE)
    }

    /// The playback buffering length, as the bits of a 32-bit float; 0.0 when
    /// the engine call fails.
    pub fn get_buffering_length(&self, engine: &mut MockEngine) -> (bits: u32)
        requires
            self.wf(),
        ensures
            final(engine).same_replies(*old(engine)),
            final(engine).calls@ == old(engine).calls@.push(
                EngineCall::GetAttribute { handle: self.handle(), attribute: BASS_ATTRIB_BUFFER }),
            bits == (if old(engine).get_attribute_ok { old(engine).attribute_bits } else { 0u32 }),
    {
        self.read_attribute(engine, BASS_ATTRIB_BUFFER)
    }

    /// The sample rate, as the bits of a 32-bit float; 0.0 when the engine
    /// call fails.
    pub fn get_sample_rate(&self, engine: &mut MockEngine) -> (bits: u32)
        requires
            self.wf(),
        ensures
            final(engine).same_replies(*old(engine)),
            final(engine).calls@ == old(engine).calls@.push(
                EngineCall::GetAttribute { handle: self.handle(), attribute: BASS_ATTRIB_FREQ }),
            bits == (if old(engine).get_attribute_ok { old(engine).attribute_bits } else { 0u32 }),
    {
        self.read_attribute(engine, BASS_ATTRIB_FREQ)
    }

    /// The processing granularity, as the bits of a 32-bit float; 0.0 when
    /// the engine call fails.
    pub fn get_processing_granularity(&self, engine: &mut MockEngine) -> (bits: u32)
        requires
            self.wf(),
        ensures
            final(engine).same_replies(*old(engine)),
            final(engine).calls@ == old(engine).calls@.push(
                EngineCall::GetAttribute { handle: self.handle(), attribute: BASS_ATTRIB_GRANULE }),
            bits == (if old(engine).get_attribute_ok { old(engine).attribute_bits } else { 0u32 }),
    {
        self.read_attribute(engine, BASS_ATTRIB_GRANULE)
    }

    /// The buffer level required to resume stalled playback, as the bits of a
    /// 32-bit float; 0.0 when the engine call fails.
    pub fn get_buffer_level_required_to_resume_stalled_playback(&self, engine: &mut MockEngine) -> (bits: u32)
        requires
            self.wf(),
        ensures
            final(engine).same_replies(*old(engine)),
            final(engine).calls@ == old(engine).calls@.push(
                EngineCall::GetAttribute { handle: self.handle(), attribute: BASS_ATTRIB_NET_RESUME }),
            bits == (if old(engine).get_attribute_ok { old(engine).attribute_bits } else { 0u32 }),
    {
        self.read_attribute(engine, BASS_ATTRIB_NET_RESUME)
    }

    /// The switch that disables playback buffering, as the bits of a 32-bit
    /// float; 0.0 when the engine call fails.
    pub fn get_playback_buffering_switch(&self, engine: &mut MockEngine) -> (bits: u32)
        requires
            self.wf(),
        ensures
            final(engine).same_replies(*old(engine)),
            final(engine).calls@ == old(engine).calls@.push(
                EngineCall::GetAttribute { handle: self.handle(), attribute: BASS_ATTRIB_NOBUFFER }),
            bits == (if old(engine).get_attribute_ok { old(engine).attribute_bits } else { 0u32 }),
    {
        self.read_attribute(engine, BASS_ATTRIB_NOBUFFER)
    }

    /// The switch that disables playback ramping, as the bits of a 32-bit
    /// float; 0.0 when the engine call fails.
    pub fn get_playback_ramping_switch(&self, engine: &mut MockEngine) -> (bits: u32)
        requires
            self.wf(),
        ensures
            final(engine).same_replies(*old(engine)),
            final(engine).calls@ == old(engine).calls@.push(
                EngineCall::GetAttribute { handle: self.handle(), attribute: BASS_ATTRIB_NORAMP }),
            bits == (if old(engine).get_attribute_ok { old(engine).attribute_bits } else { 0u32 }),
    {
        self.read_attribute(engine, BASS_ATTRIB_NORAMP)
    }

    /// The panning position, as the bits of a 32-bit float; 0.0 when the
    /// engine call fails.
    pub fn get_panning_position(&self, engine: &mut MockEngine) -> (bits: u32)
        requires
            self.wf(),
        ensures
            final(engine).same_replies(*old(engine)),
            final(engine).calls@ == old(engine).calls@.push(
                EngineCall::GetAttribute { handle: self.handle(), attribute: BASS_ATTRIB_PAN }),
            bits == (if old(engine).get_attribute_ok { old(engine).attribute_bits } else { 0u32 }),
    {
        self.read_attribute(engine, BASS_ATTRIB_PAN)
    }

    /// The sample-rate-conversion quality, as the bits of a 32-bit float;
    /// 0.0 when the engine call fails.
    pub fn get_sample_rate_conversion_quality(&self, engine: &mut MockEngine) -> (bits: u32)
        requires
            self.wf(),
        ensures
            final(engine).same_replies(*old(engine)),
            final(engine).calls@ == old(engine).calls@.push(
                EngineCall::GetAttribute { handle: self.handle(), attribute: BASS_ATTRIB_SRC }),
            bits == (if old(engine).get_attribute_ok { old(engine).attribute_bits } else { 0u32 }),
    {
        self.read_attribute(engine, BASS_ATTRIB_SRC)
    }

    /// The volume level, as the bits of a 32-bit float; 0.0 when the engine
    /// call fails.
    pub fn get_volume(&self, engine: &mut MockEngine) -> (bits: u32)
        requires
            self.wf(),
        ensures
            final(engine).same_replies(*old(engine)),
            final(engine).calls@ == old(engine).calls@.push(
                EngineCall::GetAttribute { handle: self.handle(), attribute: BASS_ATTRIB_VOL }),
            bits == (if old(engine).get_attribute_ok { old(engine).attribute_bits } else { 0u32 }),
    {
        self.read_attribute(engine, BASS_ATTRIB_VOL)
    }

    /// Sets the playback buffering length to the 32-bit float whose bits are
    /// `value_bits`, fire-and-forget.
    pub fn set_buffering_length(&self, engine: &mut MockEngine, value_bits: u32)
        requires
            self.wf(),
        ensures
            final(engine).same_replies(*old(engine)),
            final(engine).calls@ == old(engine).calls@.push(
                EngineCall::SetAttribute { handle: self.handle(), attribute: BASS_ATTRIB_BUFFER, value_bits }),
    {
        self.write_attribute(engine, BASS_ATTRIB_BUFFER, value_bits);
    }

    /// Sets the sample rate to the 32-bit float whose bits are `value_bits`,
    /// fire-and-forget.
    pub fn set_sample_rate(&self, engine: &mut MockEngine, value_bits: u32)
        requires
            self.wf(),
        ensures
            final(engine).same_replies(*old(engine)),
            final(engine).calls@ == old(engine).calls@.push(
                EngineCall::SetAttribute { handle: self.handle(), attribute: BASS_ATTRIB_FREQ, value_bits }),
    {
        self.write_attribute(engine, BASS_ATTRIB_FREQ, value_bits);
    }

    /// Sets the processing granularity to the 32-bit float whose bits are
    /// `value_bits`, fire-and-forget.
    pub fn set_processing_granularity(&self, engine: &mut MockEngine, value_bits: u32)
        requires
            self.wf(),
        ensures
            final(engine).same_replies(*old(engine)),
            final(engine).calls@ == old(engine).calls@.push(
                EngineCall::SetAttribute { handle: self.handle(), attribute: BASS_ATTRIB_GRANULE, value_bits }),
    {
        self.write_attribute(engine, BASS_ATTRIB_GRANULE, value_bits);
    }

    /// Sets the buffer level required to resume stalled playback to the
    /// 32-bit float whose bits are `value_bits`, fire-and-forget.
    pub fn set_buffer_level_required_to_resume_stalled_playback(&self, engine: &mut MockEngine, value_bits: u32)
        requires
            self.wf(),
        ensures
            final(engine).same_replies(*old(engine)),
            final(engine).calls@ == old(engine).calls@.push(
                EngineCall::SetAttribute { handle: self.handle(), attribute: BASS_ATTRIB_NET_RESUME, value_bits }),
    {
        self.write_attribute(engine, BASS_ATTRIB_NET_RESUME, value_bits);
    }

    /// Sets the switch that disables playback buffering to the 32-bit float
    /// whose bits are `value_bits`, fire-and-forget.
    pub fn set_playback_buffering_switch(&self, engine: &mut MockEngine, value_bits: u32)
        requires
            self.wf(),
        ensures
            final(engine).same_replies(*old(engine)),
            final(engine).calls@ == old(engine).calls@.push(
                EngineCall::SetAttribute { handle: self.handle(), attribute: BASS_ATTRIB_NOBUFFER, value_bits }),
    {
        self.write_attribute(engine, BASS_ATTRIB_NOBUFFER, value_bits);
    }

    /// Sets the switch that disables playback ramping to the 32-bit float
    /// whose bits are `value_bits`, fire-and-forget.
    pub fn set_playback_ramping_switch(&self, engine: &mut MockEngine, value_bits: u32)
        requires
            self.wf(),
        ensures
            final(engine).same_replies(*old(engine)),
            final(engine).calls@ == old(engine).calls@.push(
                EngineCall::SetAttribute { handle: self.handle(), attribute: BASS_ATTRIB_NORAMP, value_bits }),
    {
        self.write_attribute(engine, BASS_ATTRIB_NORAMP, value_bits);
    }

    /// Sets the panning position to the 32-bit float whose bits are
    /// `value_bits`, fire-and-forget.
    pub fn set_panning_position(&self, engine: &mut MockEngine, value_bits: u32)
        requires
            self.wf(),
        ensures
            final(engine).same_replies(*old(engine)),
            final(engine).calls@ == old(engine).calls@.push(
                EngineCall::SetAttribute { handle: self.handle(), attribute: BASS_ATTRIB_PAN, value_bits }),
    {
        self.write_attribute(engine, BASS_ATTRIB_PAN, value_bits);
    }

    /// Sets the volume level to the 32-bit float whose bits are `value_bits`,
    /// fire-and-forget.
    pub fn set_volume(&self, engine: &mut MockEngine, value_bits: u32)
        requires
            self.wf(),
        ensures
            final(engine).same_replies(*old(engine)),
            final(engine).calls@ == old(engine).calls@.push(
                EngineCall::SetAttribute { handle: self.handle(), attribute: BASS_ATTRIB_VOL, value_bits }),
    {
        self.write_attribute(engine, BASS_ATTRIB_VOL, value_bits);
    }

    /// The current playback position, in the engine's internal unit (bytes),
    /// read through channel-get-position in its default mode.
    pub fn get_position(&self, engine: &mut MockEngine) -> (p: u64)
        requires
            self.wf(),
        ensures
            final(engine).same_replies(*old(engine)),
            final(engine).calls@ == old(engine).calls@.push(
                EngineCall::GetPosition { handle: self.handle(), mode: 0 }),
            p == old(engine).position,
    {
        engine.channel_get_position(self.raw, 0)
    }

    /// The elapsed playback time, as the bits of a 64-bit float: the byte
    /// position read by [`Stream::get_position`] is handed, unchanged, to
    /// byte-to-seconds conversion, and the conversion's result is returned
    /// unchanged. Always recomputed, never cached.
    pub fn get_time(&self, engine: &mut MockEngine) -> (seconds_bits: u64)
        requires
            self.wf(),
        ensures
            final(engine).same_replies(*old(engine)),
            final(engine).calls@ == old(engine).calls@.push(
                EngineCall::GetPosition { handle: self.handle(), mode: 0 }).push(
                EngineCall::BytesToSeconds { handle: self.handle(), position: old(engine).position }),
            seconds_bits == old(engine).seconds_bits,
    {
        let position = self.get_position(engine);
        engine.channel_bytes_to_seconds(self.raw, position)
    }

    /// The underlying native handle, for advanced use by the embedding
    /// application. This is an explicit trapdoor out of the safety envelope:
    /// what the caller does with the handle is outside this layer's
    /// guarantees.
    pub fn get_raw_handle(&self) -> (h: u32)
        ensures
            h == self.handle(),
    {
        self.raw
    }

    /// Releases the owned channel: performs free-stream with this stream's
    /// own handle, exactly once.
    ///
    /// Consuming `self` is the linear-ownership discipline: the handle
    /// cannot be used or released again through this layer. No other
    /// method records a free-stream call, so a stream that is released once
    /// frees its channel exactly once, whatever succeeded or failed before.
    /// An engine-reported failure to free is unrecoverable and excluded by
    /// `requires`; the embedding application treats it as fatal.
    pub fn release(self, engine: &mut MockEngine)
        requires
            self.wf(),
            old(engine).free_ok,
        ensures
            final(engine).same_replies(*old(engine)),
            final(engine).calls@ == old(engine).calls@.push(
                EngineCall::FreeStream { handle: self.handle() }),
    {
        let ok = engine.stream_free(self.raw);
        if !ok {
            unreached()
        }
    }
}

} // verus!
