//! Voice transport and playback engine of a per-guild music bot.
//!
//! The library holds the logic of the voice connection: RTP packet layout and
//! sealing, the voice gateway's payload framing and close codes, the handshake
//! and heartbeat decisions, the real-time packet streamer and the player
//! task's decisions. Everything that waits on a socket, a process or a clock
//! is left to the caller, which hands the results back as plain values.

pub mod constants;
pub mod voice;
pub mod ytdl;

