//! A scripted model of the native engine's call surface.
//!
//! [`MockEngine`] stands in for the external engine: every reply it gives is
//! part of its configuration, and every call it receives is appended to its
//! transcript. The contracts of [`crate::stream::Stream`] are stated over
//! that transcript, which pins down exactly which engine operations each
//! method performs, in which order and with which arguments.

use vstd::prelude::*;

verus! {

/// One invocation of an operation of the engine's call surface, with the
/// arguments it was given. The text argument of the two open operations is a
/// marshaling concern of the embedding layer and is not part of the record.
#[derive(Clone, Copy, Debug, PartialEq, Eq, Structural)]
pub enum EngineCall {
    /// open-stream-from-path(flags, text, offset, length, mode-flags)
    OpenFile { flags: u32, offset: u64, length: u64, mode: u32 },
    /// open-stream-from-url(flags, text, offset, length, mode-flags)
    OpenUrl { flags: u32, offset: u64, length: u64, mode: u32 },
    /// free-stream(handle)
    FreeStream { handle: u32 },
    /// channel-play(handle, restart-flag)
    Play { handle: u32, restart: bool },
    /// channel-pause(handle)
    Pause { handle: u32 },
    /// channel-stop(handle)
    Stop { handle: u32 },
    /// channel-lock(handle, lock-flag)
    Lock { handle: u32, lock: bool },
    /// channel-get-attribute(handle, attribute-id)
    GetAttribute { handle: u32, attribute: u32 },
    /// channel-set-attribute(handle, attribute-id, value); the value is the
    /// bit pattern of the 32-bit floating-point argument
    SetAttribute { handle: u32, attribute: u32, value_bits: u32 },
    /// channel-get-position(handle, mode)
    GetPosition { handle: u32, mode: u32 },
    /// channel-bytes-to-seconds(handle, byte-position)
    BytesToSeconds { handle: u32, position: u64 },
    /// get-last-error-code()
    GetLastErrorCode,
}

/// The engine as a scripted collaborator: the public fields configure the
/// reply of each operation, and `calls` records every call received.
///
/// The floating-point values of the real call surface are carried as bit
/// patterns (`attribute_bits` for 32-bit values, `seconds_bits` for the
/// 64-bit result of byte-to-seconds conversion); the binding layer never
/// computes on them, it only passes them through.
pub struct MockEngine {
    /// Handle returned by the two open operations; zero means failure.
    pub open_handle: u32,
    /// Code returned by get-last-error-code.
    pub last_error: i32,
    /// Success of channel-play.
    pub play_ok: bool,
    /// Success of channel-pause.
    pub pause_ok: bool,
    /// Success of channel-stop.
    pub stop_ok: bool,
    /// Success of channel-lock.
    pub lock_ok: bool,
    /// Success of free-stream.
    pub free_ok: bool,
    /// Success of channel-get-attribute.
    pub get_attribute_ok: bool,
    /// Success of channel-set-attribute.
    pub set_attribute_ok: bool,
    /// Value channel-get-attribute hands out on success.
    pub attribute_bits: u32,
    /// Position returned by channel-get-position.
    pub position: u64,
    /// Result of channel-bytes-to-seconds.
    pub seconds_bits: u64,
    /// The transcript: every call received, oldest first.
    pub calls: Vec<EngineCall>,
}

/// The number of free-stream records for `handle` in a transcript.
pub open spec fn free_records(calls: Seq<EngineCall>, handle: u32) -> nat
    decreases calls.len(),
{
    if calls.len() == 0 {
        0
    } else {
        free_records(calls.drop_last(), handle) + (if calls.last() == (EngineCall::FreeStream {
            handle,
        }) {
            1nat
        } else {
            0nat
        })
    }
}

/// Law: recording one more engine call adds a free-stream record for
/// `handle` exactly when that call is free-stream with that handle.
///
/// Every operation of [`crate::stream::Stream`] extends the transcript by
/// calls its contract names, and only [`crate::stream::Stream::release`]
/// ever records a free-stream call — with the stream's own handle. So
/// however a stream is used between construction and release, releasing it
/// frees its channel exactly once.
pub proof fn lemma_free_records_push(calls: Seq<EngineCall>, call: EngineCall, handle: u32)
    ensures
        free_records(calls.push(call), handle) == free_records(calls, handle) + (if call
            == (EngineCall::FreeStream { handle }) {
            1nat
        } else {
            0nat
        }),
{
    assert(calls.push(call).drop_last() =~= calls);
}

impl MockEngine {
    /// The scripted replies of `self` and `other` agree; only the transcripts
    /// may differ.
    pub open spec fn same_replies(self, other: Self) -> bool {
        &&& self.open_handle == other.open_handle
        &&& self.last_error == other.last_error
        &&& self.play_ok == other.play_ok
        &&& self.pause_ok == other.pause_ok
        &&& self.stop_ok == other.stop_ok
        &&& self.lock_ok == other.lock_ok
        &&& self.free_ok == other.free_ok
        &&& self.get_attribute_ok == other.get_attribute_ok
        &&& self.set_attribute_ok == other.set_attribute_ok
        &&& self.attribute_bits == other.attribute_bits
        &&& self.position == other.position
        &&& self.seconds_bits == other.seconds_bits
    }

    /// An engine with an empty transcript on which every operation succeeds.
    pub fn new() -> (e: MockEngine)
        ensures
            e.open_handle == 1,
            e.last_error == 0,
            e.play_ok,
            e.pause_ok,
            e.stop_ok,
            e.lock_ok,
            e.free_ok,
            e.get_attribute_ok,
            e.set_attribute_ok,
            e.attribute_bits == 0,
            e.position == 0,
            e.seconds_bits == 0,
            e.calls@.len() == 0,
    {
        MockEngine {
            open_handle: 1,
            last_error: 0,
            play_ok: true,
            pause_ok: true,
            stop_ok: true,
            lock_ok: true,
            free_ok: true,
            get_attribute_ok: true,
            set_attribute_ok: true,
            attribute_bits: 0,
            position: 0,
            seconds_bits: 0,
            calls: Vec::new(),
        }
    }

    /// open-stream-from-path: returns the scripted handle, zero on failure.
    pub fn stream_create_file(&mut self, flags: u32, offset: u64, length: u64, mode: u32) -> (h: u32)
        ensures
            h == old(self).open_handle,
            final(self).same_replies(*old(self)),
            final(self).calls@ == old(self).calls@.push(EngineCall::OpenFile { flags, offset, length, mode }),
    {
        self.calls.push(EngineCall::OpenFile { flags, offset, length, mode });
        self.open_handle
    }

    /// open-stream-from-url: returns the scripted handle, zero on failure.
    pub fn stream_create_url(&mut self, flags: u32, offset: u64, length: u64, mode: u32) -> (h: u32)
        ensures
            h == old(self).open_handle,
            final(self).same_replies(*old(self)),
            final(self).calls@ == old(self).calls@.push(EngineCall::OpenUrl { flags, offset, length, mode }),
    {
        self.calls.push(EngineCall::OpenUrl { flags, offset, length, mode });
        self.open_handle
    }

    /// free-stream: releases the channel behind `handle`.
    pub fn stream_free(&mut self, handle: u32) -> (ok: bool)
        ensures
            ok == old(self).free_ok,
            final(self).same_replies(*old(self)),
            final(self).calls@ == old(self).calls@.push(EngineCall::FreeStream { handle }),
    {
        self.calls.push(EngineCall::FreeStream { handle });
        self.free_ok
    }

    /// channel-play: starts or resumes playback of the channel.
    pub fn channel_play(&mut self, handle: u32, restart: bool) -> (ok: bool)
        ensures
            ok == old(self).play_ok,
            final(self).same_replies(*old(self)),
            final(self).calls@ == old(self).calls@.push(EngineCall::Play { handle, restart }),
    {
        self.calls.push(EngineCall::Play { handle, restart });
        self.play_ok
    }

    /// channel-pause: suspends playback of the channel.
    pub fn channel_pause(&mut self, handle: u32) -> (ok: bool)
        ensures
            ok == old(self).pause_ok,
            final(self).same_replies(*old(self)),
            final(self).calls@ == old(self).calls@.push(EngineCall::Pause { handle }),
    {
        self.calls.push(EngineCall::Pause { handle });
        self.pause_ok
    }

    /// channel-stop: halts playback of the channel.
    pub fn channel_stop(&mut self, handle: u32) -> (ok: bool)
        ensures
            ok == old(self).stop_ok,
            final(self).same_replies(*old(self)),
            final(self).calls@ == old(self).calls@.push(EngineCall::Stop { handle }),
    {
        self.calls.push(EngineCall::Stop { handle });
        self.stop_ok
    }

    /// channel-lock: enters (`lock` true) or leaves (`lock` false) the
    /// engine-level exclusive section of the channel.
    pub fn channel_lock(&mut self, handle: u32, lock: bool) -> (ok: bool)
        ensures
            ok == old(self).lock_ok,
            final(self).same_replies(*old(self)),
            final(self).calls@ == old(self).calls@.push(EngineCall::Lock { handle, lock }),
    {
        self.calls.push(EngineCall::Lock { handle, lock });
        self.lock_ok
    }

    /// channel-get-attribute: hands out the attribute's value on success,
    /// nothing on failure.
    pub fn channel_get_attribute(&mut self, handle: u32, attribute: u32) -> (r: Option<u32>)
        ensures
            r == (if old(self).get_attribute_ok { Some(old(self).attribute_bits) } else { None::<u32> }),
            final(self).same_replies(*old(self)),
            final(self).calls@ == old(self).calls@.push(EngineCall::GetAttribute { handle, attribute }),
    {
        self.calls.push(EngineCall::GetAttribute { handle, attribute });
        if self.get_attribute_ok {
            Some(self.attribute_bits)
        } else {
            None
        }
    }

    /// channel-set-attribute: sets the attribute's value.
    pub fn channel_set_attribute(&mut self, handle: u32, attribute: u32, value_bits: u32) -> (ok: bool)
        ensures
            ok == old(self).set_attribute_ok,
            final(self).same_replies(*old(self)),
            final(self).calls@ == old(self).calls@.push(EngineCall::SetAttribute { handle, attribute, value_bits }),
    {
        self.calls.push(EngineCall::SetAttribute { handle, attribute, value_bits });
        self.set_attribute_ok
    }

    /// channel-get-position: the playback position of the channel, in bytes.
    pub fn channel_get_position(&mut self, handle: u32, mode: u32) -> (p: u64)
        ensures
            p == old(self).position,
            final(self).same_replies(*old(self)),
            final(self).calls@ == old(self).calls@.push(EngineCall::GetPosition { handle, mode }),
    {
        self.calls.push(EngineCall::GetPosition { handle, mode });
        self.position
    }

    /// channel-bytes-to-seconds: translates a byte position of the channel
    /// into elapsed seconds.
    pub fn channel_bytes_to_seconds(&mut self, handle: u32, position: u64) -> (s: u64)
        ensures
            s == old(self).seconds_bits,
            final(self).same_replies(*old(self)),
            final(self).calls@ == old(self).calls@.push(EngineCall::BytesToSeconds { handle, position }),
    {
        self.calls.push(EngineCall::BytesToSeconds { handle, position });
        self.seconds_bits
    }

    /// get-last-error-code: the code of the most recent failure.
    pub fn error_get_code(&mut self) -> (c: i32)
        ensures
            c == old(self).last_error,
            final(self).same_replies(*old(self)),
            final(self).calls@ == old(self).calls@.push(EngineCall::GetLastErrorCode),
    {
        self.calls.push(EngineCall::GetLastErrorCode);
        self.last_error
    }
}

} // verus!
