//! Voice connection: RTP transport, voice gateway protocol, packet streamer
//! and player task.

pub mod crypto;
pub mod error;
pub mod payload;
pub mod player;
pub mod rtp;
pub mod streamer;
pub mod ws;
