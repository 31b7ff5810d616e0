//! Reconstruction of a typed snapshot of a running game engine's state from a
//! raw byte image of its memory.
//!
//! The image is captured once per sampling cycle by an outside collaborator and
//! is read-only here; every decoding step below is a pure function of those
//! bytes.  Because the observed process keeps mutating its own memory while the
//! image is captured, nothing in the image can be trusted as such: headers are
//! checked against signature words, object bodies against guard markers, and a
//! failed check yields an absent entry or a clean, identified error rather than
//! a partial snapshot.

pub mod datum;
pub mod engine;
pub mod entity;
pub mod memory;
pub mod snapshot;
