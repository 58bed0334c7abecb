//! Core of a screen-cast republisher.
//!
//! A capture session is granted by the desktop portal, its media stream is
//! negotiated down to one concrete video format, frames are consumed from the
//! transport's buffer pool, and the result is published on a streaming mount.
//! Every decision of that pipeline lives here as sequential, verified code on
//! plain values; the processes that talk to the portal, the media transport
//! and the network feed these functions and carry out what they decide.

pub mod format;
pub mod frames;
pub mod negotiation;
pub mod publish;
pub mod session;
pub mod text;
