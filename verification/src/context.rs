//! The event context duality: one set of event kinds under two
//! representations.
//!
//! [`CoreContext`] is the internal, owned form that the driver's own tasks
//! pass around; [`EventContext`] is the read-only form handed to user
//! callbacks. [`CoreContext::to_user_context`] converts between them, once
//! per fired event, and both representations share one mathematical model
//! ([`ContextModel`]), so fidelity of the conversion is stated as plain
//! equality of views. [`EventContext::to_core_event`] classifies an event
//! for listener matching.

use vstd::prelude::*;
use crate::message::{UdpTxMessage, WsMessage};
use crate::tracks::{TrackHandle, TrackState};

verus! {

/// Speaking-state payload from the voice gateway: which source (SSRC) is
/// transmitting, and how.
#[derive(Clone, Copy, Debug, PartialEq, Eq)]
pub struct Speaking {
    /// Synchronisation source the update is about.
    pub ssrc: u32,
    /// Whether that source says it is transmitting.
    pub speaking: bool,
    /// Optional delay hint, in milliseconds.
    pub delay: Option<u32>,
    /// The user behind the source, where the gateway revealed it.
    pub user_id: Option<u64>,
}

/// Payload fired when a client leaves the voice channel.
#[derive(Clone, Copy, Debug, PartialEq, Eq)]
pub struct ClientDisconnect {
    /// The user who disconnected.
    pub user_id: u64,
}

/// Which connection attempt a disconnect event ends.
#[derive(Clone, Copy, Debug, PartialEq, Eq)]
pub enum DisconnectKind {
    /// A first connection attempt failed or was abandoned.
    Connect,
    /// A reconnection attempt failed or was abandoned.
    Reconnect,
    /// An established session dropped at runtime.
    Runtime,
}

/// Internal form of a speaking transition: a source fell silent or broke a
/// silent burst.
pub struct InternalSpeakingUpdate {
    /// Synchronisation source the transition is about.
    pub ssrc: u32,
    /// Whether audio is now arriving from it.
    pub speaking: bool,
}

/// Internal form of a received voice packet.
pub struct InternalVoicePacket {
    /// Synchronisation source the packet came from.
    pub ssrc: u32,
    /// RTP sequence number.
    pub sequence: u16,
    /// RTP timestamp.
    pub timestamp: u32,
    /// Decoded audio carried by the packet.
    pub audio: Vec<u8>,
}

/// Internal form of a received telemetry (RTCP) packet.
pub struct InternalRtcpPacket {
    /// Raw bytes of the packet.
    pub packet: Vec<u8>,
}

/// Internal description of a connection that was just established.
pub struct InternalConnect {
    /// Synchronisation source assigned to this driver.
    pub ssrc: u32,
    /// Guild the voice channel belongs to.
    pub guild_id: u64,
    /// The channel joined, where known.
    pub channel_id: Option<u64>,
}

/// Internal description of a connection that ended.
pub struct InternalDisconnect {
    /// Which attempt or session ended.
    pub kind: DisconnectKind,
    /// Guild the voice channel belongs to.
    pub guild_id: u64,
}

/// External form of a speaking transition; plain copyable data.
#[derive(Clone, Copy, Debug, PartialEq, Eq)]
pub struct SpeakingUpdateData {
    /// Synchronisation source the transition is about.
    pub ssrc: u32,
    /// Whether audio is now arriving from it.
    pub speaking: bool,
}

/// External form of a received voice packet; borrows the audio from the
/// internal event for the duration of the dispatch call.
pub struct VoiceData<'a> {
    /// Synchronisation source the packet came from.
    pub ssrc: u32,
    /// RTP sequence number.
    pub sequence: u16,
    /// RTP timestamp.
    pub timestamp: u32,
    /// Decoded audio carried by the packet.
    pub audio: &'a Vec<u8>,
}

/// External form of a telemetry packet; borrows the bytes from the
/// internal event for the duration of the dispatch call.
pub struct RtcpData<'a> {
    /// Raw bytes of the packet.
    pub packet: &'a Vec<u8>,
}

/// External description of an established connection; plain copyable data.
#[derive(Clone, Copy, Debug, PartialEq, Eq)]
pub struct ConnectData {
    /// Synchronisation source assigned to this driver.
    pub ssrc: u32,
    /// Guild the voice channel belongs to.
    pub guild_id: u64,
    /// The channel joined, where known.
    pub channel_id: Option<u64>,
}

/// External description of an ended connection; plain copyable data.
#[derive(Clone, Copy, Debug, PartialEq, Eq)]
pub struct DisconnectData {
    /// Which attempt or session ended.
    pub kind: DisconnectKind,
    /// Guild the voice channel belongs to.
    pub guild_id: u64,
}

/// An independently owned cipher clone, safe to hand to arbitrary user
/// code: mutating it cannot reach the crypto state the driver keeps using.
pub struct CipherWrapper(xsalsa20poly1305::XSalsa20Poly1305);

impl CipherWrapper {
    /// The cipher value the wrapper holds.
    pub closed spec fn cipher(&self) -> xsalsa20poly1305::XSalsa20Poly1305 {
        self.0
    }

    /// Read-only access to the wrapped cipher clone.
    pub fn get(&self) -> (c: &xsalsa20poly1305::XSalsa20Poly1305)
        ensures
            *c == self.cipher(),
    {
        &self.0
    }
}

/// Internal event representation, carrying owned internal payloads plus,
/// for connect events, the live channel senders and the cipher in use at
/// the moment of the event.
pub enum CoreContext {
    /// Speaking state update from the gateway.
    SpeakingStateUpdate(Speaking),
    /// A source started or stopped producing audio.
    SpeakingUpdate(InternalSpeakingUpdate),
    /// Voice packet received from another stream.
    VoicePacket(InternalVoicePacket),
    /// Telemetry packet received from another stream.
    RtcpPacket(InternalRtcpPacket),
    /// A client disconnected from the channel.
    ClientDisconnect(ClientDisconnect),
    /// This driver connected to a voice channel.
    DriverConnect(
        InternalConnect,
        flume::Sender<UdpTxMessage>,
        flume::Sender<WsMessage>,
        xsalsa20poly1305::XSalsa20Poly1305,
    ),
    /// This driver reconnected after a network error.
    DriverReconnect(
        InternalConnect,
        flume::Sender<UdpTxMessage>,
        flume::Sender<WsMessage>,
        xsalsa20poly1305::XSalsa20Poly1305,
    ),
    /// This driver failed to connect to, or dropped from, a channel.
    DriverDisconnect(InternalDisconnect),
}

/// External event representation: every payload is copyable, borrowed for
/// the dispatch call, or an independently owned cheap clone. It is the only
/// representation ever exposed across the user callback boundary.
#[non_exhaustive]
pub enum EventContext<'a> {
    /// Track event context: the tracks an event was fired against. Routed
    /// by track identity, never by global kind.
    Track(&'a [(TrackState, TrackHandle)]),
    /// Speaking state update from the gateway.
    SpeakingStateUpdate(Speaking),
    /// A source started or stopped producing audio.
    SpeakingUpdate(SpeakingUpdateData),
    /// Voice packet received from another stream.
    VoicePacket(VoiceData<'a>),
    /// Telemetry packet received from another stream.
    RtcpPacket(RtcpData<'a>),
    /// A client disconnected from the channel.
    ClientDisconnect(ClientDisconnect),
    /// This driver connected to a voice channel.
    DriverConnect(
        ConnectData,
        flume::Sender<UdpTxMessage>,
        flume::Sender<WsMessage>,
        CipherWrapper,
    ),
    /// This driver reconnected after a network error.
    DriverReconnect(
        ConnectData,
        flume::Sender<UdpTxMessage>,
        flume::Sender<WsMessage>,
        CipherWrapper,
    ),
    /// This driver failed to connect to, or dropped from, a channel.
    DriverDisconnect(DisconnectData),
}

/// The classification an event is matched against listener registrations
/// by: one tag per globally matchable event kind. Track-scoped events have
/// no tag here — they are routed by track identity instead.
#[derive(Clone, Copy, Debug, PartialEq, Eq, Structural)]
pub enum CoreEvent {
    /// Speaking state update.
    SpeakingStateUpdate,
    /// Speaking transition.
    SpeakingUpdate,
    /// Received voice packet.
    VoicePacket,
    /// Received telemetry packet.
    RtcpPacket,
    /// A client disconnected.
    ClientDisconnect,
    /// Driver connected.
    DriverConnect,
    /// Driver reconnected.
    DriverReconnect,
    /// Driver disconnected.
    DriverDisconnect,
}

/// The one mathematical model both context representations map onto: the
/// event kind together with the payload values that matter to listeners.
/// Channel senders and the cipher handle are deliberately absent — they are
/// transport, not payload.
#[allow(inconsistent_fields)]
pub ghost enum ContextModel {
    /// Track-scoped context.
    Track { tracks: Seq<(TrackState, TrackHandle)> },
    /// Speaking state update.
    SpeakingStateUpdate { payload: Speaking },
    /// Speaking transition.
    SpeakingUpdate { ssrc: u32, speaking: bool },
    /// Received voice packet.
    VoicePacket { ssrc: u32, sequence: u16, timestamp: u32, audio: Seq<u8> },
    /// Received telemetry packet.
    RtcpPacket { packet: Seq<u8> },
    /// A client disconnected.
    ClientDisconnect { payload: ClientDisconnect },
    /// Driver connected.
    DriverConnect { payload: ConnectData },
    /// Driver reconnected.
    DriverReconnect { payload: ConnectData },
    /// Driver disconnected.
    DriverDisconnect { payload: DisconnectData },
}

impl View for CoreContext {
    type V = ContextModel;

    open spec fn view(&self) -> ContextModel {
        match self {
            CoreContext::SpeakingStateUpdate(evt) => ContextModel::SpeakingStateUpdate {
                payload: *evt,
            },
            CoreContext::SpeakingUpdate(evt) => ContextModel::SpeakingUpdate {
                ssrc: evt.ssrc,
                speaking: evt.speaking,
            },
            CoreContext::VoicePacket(evt) => ContextModel::VoicePacket {
                ssrc: evt.ssrc,
                sequence: evt.sequence,
                timestamp: evt.timestamp,
                audio: evt.audio@,
            },
            CoreContext::RtcpPacket(evt) => ContextModel::RtcpPacket { packet: evt.packet@ },
            CoreContext::ClientDisconnect(evt) => ContextModel::ClientDisconnect {
                payload: *evt,
            },
            CoreContext::DriverConnect(evt, _, _, _) => ContextModel::DriverConnect {
                payload: ConnectData {
                    ssrc: evt.ssrc,
                    guild_id: evt.guild_id,
                    channel_id: evt.channel_id,
                },
            },
            CoreContext::DriverReconnect(evt, _, _, _) => ContextModel::DriverReconnect {
                payload: ConnectData {
                    ssrc: evt.ssrc,
                    guild_id: evt.guild_id,
                    channel_id: evt.channel_id,
                },
            },
            CoreContext::DriverDisconnect(evt) => ContextModel::DriverDisconnect {
                payload: DisconnectData { kind: evt.kind, guild_id: evt.guild_id },
            },
        }
    }
}

impl<'a> View for EventContext<'a> {
    type V = ContextModel;

    open spec fn view(&self) -> ContextModel {
        match self {
            EventContext::Track(tracks) => ContextModel::Track { tracks: tracks@ },
            EventContext::SpeakingStateUpdate(evt) => ContextModel::SpeakingStateUpdate {
                payload: *evt,
            },
            EventContext::SpeakingUpdate(evt) => ContextModel::SpeakingUpdate {
                ssrc: evt.ssrc,
                speaking: evt.speaking,
            },
            EventContext::VoicePacket(evt) => ContextModel::VoicePacket {
                ssrc: evt.ssrc,
                sequence: evt.sequence,
                timestamp: evt.timestamp,
                audio: evt.audio@,
            },
            EventContext::RtcpPacket(evt) => ContextModel::RtcpPacket { packet: evt.packet@ },
            EventContext::ClientDisconnect(evt) => ContextModel::ClientDisconnect {
                payload: *evt,
            },
            EventContext::DriverConnect(data, _, _, _) => ContextModel::DriverConnect {
                payload: *data,
            },
            EventContext::DriverReconnect(data, _, _, _) => ContextModel::DriverReconnect {
                payload: *data,
            },
            EventContext::DriverDisconnect(data) => ContextModel::DriverDisconnect {
                payload: *data,
            },
        }
    }
}

impl CoreContext {
    /// Converts the internal representation into the external one, once per
    /// fired event, immediately before listeners run.
    ///
    /// The two views are equal: the conversion changes ownership, never
    /// content. Payload bytes are borrowed rather than copied; channel
    /// senders are cloned handles onto the same channels; and the cipher is
    /// cloned into [`CipherWrapper`], so external code never touches the
    /// internal cipher handle.
    pub fn to_user_context<'a>(&'a self) -> (r: EventContext<'a>)
        ensures
            r@ == self@,
            self matches CoreContext::DriverConnect(_, _, _, c) ==> (r matches
                EventContext::DriverConnect(_, _, _, w) && w.cipher() == c),
            self matches CoreContext::DriverReconnect(_, _, _, c) ==> (r matches
                EventContext::DriverReconnect(_, _, _, w) && w.cipher() == c),
    {
        match self {
            CoreContext::SpeakingStateUpdate(evt) => EventContext::SpeakingStateUpdate(*evt),
            CoreContext::SpeakingUpdate(evt) => EventContext::SpeakingUpdate(
                SpeakingUpdateData { ssrc: evt.ssrc, speaking: evt.speaking },
            ),
            CoreContext::VoicePacket(evt) => EventContext::VoicePacket(
                VoiceData {
                    ssrc: evt.ssrc,
                    sequence: evt.sequence,
                    timestamp: evt.timestamp,
                    audio: &evt.audio,
                },
            ),
            CoreContext::RtcpPacket(evt) => EventContext::RtcpPacket(
                RtcpData { packet: &evt.packet },
            ),
            CoreContext::ClientDisconnect(evt) => EventContext::ClientDisconnect(*evt),
            CoreContext::DriverConnect(evt, tx, ws, cipher) => EventContext::DriverConnect(
                ConnectData {
                    ssrc: evt.ssrc,
                    guild_id: evt.guild_id,
                    channel_id: evt.channel_id,
                },
                tx.clone(),
                ws.clone(),
                CipherWrapper(cipher.clone()),
            ),
            CoreContext::DriverReconnect(evt, tx, ws, cipher) => EventContext::DriverReconnect(
                ConnectData {
                    ssrc: evt.ssrc,
                    guild_id: evt.guild_id,
                    channel_id: evt.channel_id,
                },
                tx.clone(),
                ws.clone(),
                CipherWrapper(cipher.clone()),
            ),
            CoreContext::DriverDisconnect(evt) => EventContext::DriverDisconnect(
                DisconnectData { kind: evt.kind, guild_id: evt.guild_id },
            ),
        }
    }
}

/// The classification tag a model event is routed by, or `None` for the
/// track-scoped kind.
pub open spec fn core_event_of(m: ContextModel) -> Option<CoreEvent> {
    match m {
        ContextModel::Track { .. } => None,
        ContextModel::SpeakingStateUpdate { .. } => Some(CoreEvent::SpeakingStateUpdate),
        ContextModel::SpeakingUpdate { .. } => Some(CoreEvent::SpeakingUpdate),
        ContextModel::VoicePacket { .. } => Some(CoreEvent::VoicePacket),
        ContextModel::RtcpPacket { .. } => Some(CoreEvent::RtcpPacket),
        ContextModel::ClientDisconnect { .. } => Some(CoreEvent::ClientDisconnect),
        ContextModel::DriverConnect { .. } => Some(CoreEvent::DriverConnect),
        ContextModel::DriverReconnect { .. } => Some(CoreEvent::DriverReconnect),
        ContextModel::DriverDisconnect { .. } => Some(CoreEvent::DriverDisconnect),
    }
}

impl EventContext<'_> {
    /// Retrieves the event class used when matching this event against the
    /// registered listeners: one tag per global kind, and `None` for
    /// track-scoped contexts, which are routed by track identity.
    pub fn to_core_event(&self) -> (r: Option<CoreEvent>)
        ensures
            r == core_event_of(self@),
    {
        match self {
            EventContext::Track(_) => None,
            EventContext::SpeakingStateUpdate(_) => Some(CoreEvent::SpeakingStateUpdate),
            EventContext::SpeakingUpdate(_) => Some(CoreEvent::SpeakingUpdate),
            EventContext::VoicePacket(_) => Some(CoreEvent::VoicePacket),
            EventContext::RtcpPacket(_) => Some(CoreEvent::RtcpPacket),
            EventContext::ClientDisconnect(_) => Some(CoreEvent::ClientDisconnect),
            EventContext::DriverConnect(_, _, _, _) => Some(CoreEvent::DriverConnect),
            EventContext::DriverReconnect(_, _, _, _) => Some(CoreEvent::DriverReconnect),
            EventContext::DriverDisconnect(_) => Some(CoreEvent::DriverDisconnect),
        }
    }
}

/// Whether two model events are of the same kind, payloads aside.
pub open spec fn same_kind(a: ContextModel, b: ContextModel) -> bool {
    match (a, b) {
        (ContextModel::Track { .. }, ContextModel::Track { .. }) => true,
        (
            ContextModel::SpeakingStateUpdate { .. },
            ContextModel::SpeakingStateUpdate { .. },
        ) => true,
        (ContextModel::SpeakingUpdate { .. }, ContextModel::SpeakingUpdate { .. }) => true,
        (ContextModel::VoicePacket { .. }, ContextModel::VoicePacket { .. }) => true,
        (ContextModel::RtcpPacket { .. }, ContextModel::RtcpPacket { .. }) => true,
        (ContextModel::ClientDisconnect { .. }, ContextModel::ClientDisconnect { .. }) => true,
        (ContextModel::DriverConnect { .. }, ContextModel::DriverConnect { .. }) => true,
        (ContextModel::DriverReconnect { .. }, ContextModel::DriverReconnect { .. }) => true,
        (
            ContextModel::DriverDisconnect { .. },
            ContextModel::DriverDisconnect { .. },
        ) => true,
        _ => false,
    }
}

/// Law: classification is total on the globally matchable kinds — every
/// model event that is not track-scoped carries exactly one tag.
pub proof fn lemma_classification_total(m: ContextModel)
    requires
        !(m is Track),
    ensures
        core_event_of(m) is Some,
{
}

/// Law: classification separates kinds — two events that are not
/// track-scoped and carry the same tag are of the same kind. Together with
/// totality, the non-track kinds and the tags are in bijection.
pub proof fn lemma_classification_injective(a: ContextModel, b: ContextModel)
    requires
        !(a is Track),
        !(b is Track),
        core_event_of(a) == core_event_of(b),
    ensures
        same_kind(a, b),
{
}

/// Law: an internal event is never track-scoped, so classification of a
/// core context always yields a tag; and since conversion preserves the
/// view, the tag of a converted event agrees with the tag of its source.
pub proof fn lemma_core_context_classified(c: &CoreContext)
    ensures
        !(c@ is Track),
        core_event_of(c@) is Some,
{
    match c {
        CoreContext::SpeakingStateUpdate(_) => {},
        CoreContext::SpeakingUpdate(_) => {},
        CoreContext::VoicePacket(_) => {},
        CoreContext::RtcpPacket(_) => {},
        CoreContext::ClientDisconnect(_) => {},
        CoreContext::DriverConnect(_, _, _, _) => {},
        CoreContext::DriverReconnect(_, _, _, _) => {},
        CoreContext::DriverDisconnect(_) => {},
    }
}

} // verus!
