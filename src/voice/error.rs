//! Voice errors.

use vstd::prelude::*;
use crate::voice::{rtp, ws};
use crate::ytdl::YtdlError;

verus! {

/// An audio source error.
pub enum AudioError {
    /// IO error of a source's process.
    Io(std::io::Error),
    /// The Opus encoder failed; holds its message.
    Codec(String),
    /// Error from `youtube-dl`.
    Ytdl(YtdlError),
}

/// Any error that can occur with voice interactions.
pub enum Error {
    /// An error occured in the websocket.
    Ws(ws::Error),
    /// An error occured in the RTP socket.
    Rtp(rtp::Error),
    /// An error occured in the audio source encoding.
    Audio(AudioError),
    /// The gateway closed unexpectedly.
    GatewayClosed,
    /// An operation timed out.
    Timeout,
    /// The bot was unable to join the specified channel.
    CannotJoin,
    /// The bot was disconnected from the channel.
    Disconnected,
}

impl Error {
    /// The player's error for a failed connection: a failed IP discovery
    /// is an error of the RTP side, anything else one of the websocket.
    pub fn from_ws(err: ws::Error) -> (r: Error)
        ensures
            err matches ws::Error::IpDiscovery(d) ==> r == Error::Rtp(rtp::Error::IpDiscovery(d)),
            !(err is IpDiscovery) ==> r == Error::Ws(err),
    {
        match err {
            ws::Error::IpDiscovery(d) => Error::Rtp(rtp::Error::IpDiscovery(d)),
            other => Error::Ws(other),
        }
    }
}

} // verus!
