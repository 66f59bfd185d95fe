//! Constants of the voice protocol.

use vstd::prelude::*;

verus! {

/// Raw sample rate of the Opus stream.
pub const SAMPLE_RATE: usize = 48000;

/// The rate of frames to be sent per second.
pub const AUDIO_FRAME_RATE: usize = 50;

/// Length of time between any two audio frames, in milliseconds.
pub const TIMESTEP_MILLIS: u64 = 20;

/// Number of samples in one complete frame of audio per channel.
pub const MONO_FRAME_SIZE: usize = 960;

/// Number of individual samples in one complete frame of stereo audio.
pub const STEREO_FRAME_SIZE: usize = 1920;

/// Maximum packet size for a voice packet.
///
/// Set a safe amount below the Ethernet MTU to avoid fragmentation.
pub const VOICE_PACKET_MAX: usize = 1460;

/// Number of silence frames sent on every break in a stream.
pub const SILENCE_FRAME_COUNT: u32 = 5;

/// How long past a packet's deadline a source may take, in milliseconds.
pub const DEFAULT_PATIENCE_MILLIS: u64 = 200;

/// How long a handshake, a reconnect or a wait on the gateway may take, in
/// milliseconds.
pub const CONNECT_TIMEOUT_MILLIS: u64 = 5000;

/// The Opus frame that encodes silence.
pub open spec fn silence_frame() -> Seq<u8> {
    seq![0xF8u8, 0xFFu8, 0xFEu8]
}

/// Returns the Opus frame that encodes silence.
pub fn silence_frame_bytes() -> (r: Vec<u8>)
    ensures
        r@ == silence_frame(),
{
    let r = vec![0xF8u8, 0xFFu8, 0xFEu8];
    assert(r@ =~= silence_frame());
    r
}

} // verus!
