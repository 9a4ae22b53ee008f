//! A safe ownership layer over the BASS audio engine's handle-based call
//! surface: stream construction from files and URLs, transport control,
//! attribute access, and exclusive handle ownership with exactly-once release.
//!
//! The engine itself is an external collaborator reached only through a fixed,
//! numeric-handle call surface. The [`engine`] module models that surface as a
//! scripted collaborator that records every call it receives; the [`stream`]
//! module's contracts pin down, call by call, which engine operations each
//! method performs and how their replies are translated into typed results.
//! The embedding application binds the same decision logic to the real native
//! engine.

pub mod codes;
pub mod engine;
pub mod error;
pub mod stream;
