//! The messages that cross task boundaries: the commands the network tasks
//! obey, the live-connection bundle, and the command union the mixer task
//! drains.

use vstd::prelude::*;
use crate::config::{Bitrate, Config, CryptoState};
use crate::context::CoreContext;
use crate::tracks::Track;

verus! {

/// Command stream for the receive-side network task.
pub enum UdpRxMessage {
    /// Terminal marker: stop listening and exit.
    Poison,
}

/// Command stream for the transmit-side network task.
pub enum UdpTxMessage {
    /// Terminal marker: stop transmitting and exit.
    Poison,
}

/// Command stream for the control-channel (websocket) sink.
pub enum WsMessage {
    /// Forward a speaking-state notification to the gateway.
    Speaking(crate::context::Speaking),
    /// Terminal marker: close the sink and exit.
    Poison,
}

/// The cross-task channel bundle the mixer emits events through.
pub struct Interconnect {
    /// Where fired events are delivered for dispatch to listeners.
    pub events: flume::Sender<CoreContext>,
}

/// One live encrypted transport session: the cipher protecting it, its
/// nonce bookkeeping, and the two channels into the network tasks that
/// serve it.
///
/// A connection is valid only as long as both endpoints are open; once a
/// task has exited, sends towards it become best-effort no-ops.
pub struct MixerConnection {
    /// Symmetric AEAD cipher for this session.
    pub cipher: xsalsa20poly1305::XSalsa20Poly1305,
    /// Nonce/sequence bookkeeping for this session.
    pub crypto_state: CryptoState,
    /// Channel into the receive-side network task.
    pub udp_rx: flume::Sender<UdpRxMessage>,
    /// Channel into the transmit-side network task.
    pub udp_tx: flume::Sender<UdpTxMessage>,
}

impl MixerConnection {
    /// Ends the session: signals each of the two network tasks, once, that
    /// it should terminate. Each send is best-effort — a task that already
    /// exited has dropped its receiver, and the returned message is
    /// discarded — so teardown never panics and never blocks on a peer
    /// that is gone.
    ///
    /// Consuming `self` is what makes the signal pair exactly-once: after
    /// the call no handle to the connection remains, so no path can signal
    /// the same connection twice.
    pub fn teardown(self) {
        let _ = self.udp_rx.send(UdpRxMessage::Poison);
        let _ = self.udp_tx.send(UdpTxMessage::Poison);
    }
}

/// Command union consumed strictly in send order by the mixer task. No two
/// commands of one producer are ever reordered; across producers only
/// per-channel FIFO holds.
pub enum MixerMessage {
    /// Queue another track alongside the present ones.
    AddTrack(Track),
    /// Replace the whole track set with one track, or clear it.
    SetTrack(Option<Track>),
    /// Reconfigure the encoder's bitrate.
    SetBitrate(Bitrate),
    /// Replace the retained driver configuration.
    SetConfig(Config),
    /// Suppress or restore audio transmission.
    SetMute(bool),
    /// Pause or resume the mixer; configuration is retained either way.
    SetDisabled(bool),
    /// Install a new live connection under the given generation id,
    /// tearing down whichever connection it supersedes.
    SetConn(MixerConnection, u32),
    /// Attach the control-channel sink, or detach it with `None`.
    Ws(Option<flume::Sender<WsMessage>>),
    /// Tear down the current connection, if any, and go idle.
    DropConn,
    /// Swap the cross-task channel bundle used to emit events.
    ReplaceInterconnect(Interconnect),
    /// Discard the current encoder so the next frame rebuilds it; a safe
    /// no-op when no encoder exists.
    RebuildEncoder,
    /// Terminal marker: tear down any pending connection and exit.
    Poison,
}

} // verus!
