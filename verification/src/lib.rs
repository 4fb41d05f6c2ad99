//! A safety-oriented bridge between managed code and a callback-driven,
//! C-style pattern-matching engine.
//!
//! The engine scans byte buffers in three modes (block, vectored, streaming)
//! and reports matches synchronously through a caller-supplied callback.
//! This crate verifies the logic that sits around those calls: translation
//! of engine status codes into a typed result, the callback continuation
//! protocol, derivation of the length arguments each mode needs, the
//! cumulative-offset model shared by the vectored and streaming modes, and
//! an exclusively-owning cell for one engine-facing value. The raw calls
//! themselves live outside the verified library.

pub mod buffer;
pub mod cptr;
pub mod dispatch;
pub mod event;
pub mod offsets;
pub mod status;
pub mod stream;
