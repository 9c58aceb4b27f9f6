//! Mixer configuration: encoder bitrate, the driver configuration block,
//! and the per-connection cryptographic bookkeeping.

use vstd::prelude::*;

verus! {

/// Bitrate the audio encoder is asked to produce.
#[derive(Clone, Copy, Debug, PartialEq, Eq)]
pub enum Bitrate {
    /// An explicit rate, in bits per second.
    BitsPerSecond(i32),
    /// The highest rate the encoder supports.
    Max,
    /// Let the encoder choose.
    Auto,
}

/// Nonce strategy negotiated for a connection: where in the packet the
/// nonce lives and how successive nonces are derived.
#[derive(Clone, Copy, Debug, PartialEq, Eq)]
pub enum CryptoMode {
    /// The RTP header doubles as the nonce.
    Normal,
    /// A random nonce is appended to each packet.
    Suffix,
    /// An incrementing counter is appended to each packet.
    Lite,
}

/// Per-connection cryptographic bookkeeping: the nonce/sequence state one
/// live session carries. Exclusively owned by one `MixerConnection`; created
/// when the connection is established and discarded with it.
#[derive(Clone, Copy, Debug, PartialEq, Eq)]
pub enum CryptoState {
    /// Header-as-nonce strategy: nothing to track between packets.
    Normal,
    /// Random-suffix strategy: nothing to track between packets.
    Suffix,
    /// Counter-suffix strategy, carrying the next counter value.
    Lite(u32),
}

impl CryptoMode {
    /// The bookkeeping a fresh connection starts with under this mode; the
    /// counter strategy begins at zero.
    pub fn initial_state(&self) -> (s: CryptoState)
        ensures
            s == (match *self {
                CryptoMode::Normal => CryptoState::Normal,
                CryptoMode::Suffix => CryptoState::Suffix,
                CryptoMode::Lite => CryptoState::Lite(0u32),
            }),
    {
        match self {
            CryptoMode::Normal => CryptoState::Normal,
            CryptoMode::Suffix => CryptoState::Suffix,
            CryptoMode::Lite => CryptoState::Lite(0),
        }
    }
}

impl CryptoState {
    /// Advances the nonce bookkeeping past one transmitted packet. Only the
    /// counter strategy carries state, and its counter wraps rather than
    /// panicking on overflow.
    pub fn advance(&mut self)
        ensures
            *final(self) == (match *old(self) {
                CryptoState::Normal => CryptoState::Normal,
                CryptoState::Suffix => CryptoState::Suffix,
                CryptoState::Lite(n) => CryptoState::Lite(
                    if n == u32::MAX { 0u32 } else { (n + 1) as u32 },
                ),
            }),
    {
        match self {
            CryptoState::Normal => {},
            CryptoState::Suffix => {},
            CryptoState::Lite(n) => {
                if *n == u32::MAX {
                    *n = 0;
                } else {
                    *n = *n + 1;
                }
            },
        }
    }
}

/// Driver configuration retained by the mixer and applied to every
/// connection it installs.
#[derive(Clone, Copy, Debug, PartialEq, Eq)]
pub struct Config {
    /// Nonce strategy requested for new connections.
    pub crypto_mode: CryptoMode,
    /// How many track slots the mixer reserves up front.
    pub preallocated_tracks: usize,
}

impl Default for Config {
    /// The configuration the mixer starts with before any `SetConfig`
    /// command arrives.
    fn default() -> (c: Config)
        ensures
            c.crypto_mode == CryptoMode::Normal,
            c.preallocated_tracks == 1usize,
    {
        Config { crypto_mode: CryptoMode::Normal, preallocated_tracks: 1 }
    }
}

} // verus!
