//! A verified model of a live frame-streaming pipeline.
//!
//! Frames are produced on a fixed cadence, carried through a FIFO channel as
//! `(encoded frame, metric)` packets, and serialized onto one persistent
//! connection as ordered message pairs: a binary message holding the frame,
//! then a text message holding the metric in decimal. Inbound text messages
//! are answered with a fixed acknowledgement through the same exclusive
//! outbound writer, so an acknowledgement never splits a frame's pair.
//!
//! The frame source, the image codec and the connection transport are
//! external collaborators; this crate holds the pipeline's decisions and
//! data paths, each with a proved contract.

pub mod message;
pub mod packet;
pub mod channel;
pub mod writer;
pub mod capture;
pub mod sender;
pub mod supervisor;
pub mod connection;

use vstd::prelude::*;

verus! {

/// Target interval between successive capture attempts, in milliseconds
/// (about 15 frames per second).
pub const CADENCE_MS: u64 = 66;

/// Fixed encoding quality handed to the image codec, on a 0-100 scale,
/// chosen to bound bandwidth over fidelity.
pub const ENCODE_QUALITY: i32 = 30;

/// Port the upgrade endpoint listens on.
pub const STREAM_PORT: u16 = 8080;

} // verus!
