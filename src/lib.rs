//! A GenCam device-simulation server core: the packet vocabulary, its wire
//! codec, the per-frame selection and rendering rules, and the per-connection
//! session state machine that turns inbound messages and timer ticks into
//! replies.
//!
//! The wire format of `codec` is this library's own compact binary layout
//! (a 17-byte header, then the payload of an `Image` packet). It is not the
//! JSON encoding of GenCam packets: peers that speak that encoding cannot
//! talk to a server built on this library.

pub mod packet;
pub mod codec;
pub mod frames;
pub mod session;
