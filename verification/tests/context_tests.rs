use mixer_core::context::{
    ClientDisconnect, CoreContext, CoreEvent, DisconnectKind, EventContext, InternalConnect,
    InternalDisconnect, InternalRtcpPacket, InternalSpeakingUpdate, InternalVoicePacket,
    Speaking,
};
use mixer_core::message::{UdpTxMessage, WsMessage};
use mixer_core::tracks::{TrackHandle, TrackState};
use xsalsa20poly1305::{Key, KeyInit, XSalsa20Poly1305};

fn test_cipher() -> XSalsa20Poly1305 {
    XSalsa20Poly1305::new(&Key::from([9u8; 32]))
}

fn test_speaking() -> Speaking {
    Speaking { ssrc: 11, speaking: true, delay: Some(0), user_id: Some(77) }
}

fn tx_sender() -> flume::Sender<UdpTxMessage> {
    flume::unbounded().0
}

fn ws_sender() -> flume::Sender<WsMessage> {
    flume::unbounded().0
}

#[test]
fn speaking_state_update_conversion_is_faithful() {
    let core = CoreContext::SpeakingStateUpdate(test_speaking());
    match core.to_user_context() {
        EventContext::SpeakingStateUpdate(evt) => {
            assert_eq!(evt.ssrc, 11);
            assert!(evt.speaking);
            assert_eq!(evt.delay, Some(0));
            assert_eq!(evt.user_id, Some(77));
        },
        _ => panic!("conversion changed the event kind"),
    }
}

#[test]
fn speaking_update_conversion_is_faithful() {
    let core = CoreContext::SpeakingUpdate(InternalSpeakingUpdate { ssrc: 21, speaking: false });
    match core.to_user_context() {
        EventContext::SpeakingUpdate(evt) => {
            assert_eq!(evt.ssrc, 21);
            assert!(!evt.speaking);
        },
        _ => panic!("conversion changed the event kind"),
    }
}

#[test]
fn voice_packet_conversion_preserves_bytes() {
    let audio: Vec<u8> = (0..160u32).map(|i| (i % 251) as u8).collect();
    let core = CoreContext::VoicePacket(InternalVoicePacket {
        ssrc: 12345,
        sequence: 7,
        timestamp: 960,
        audio: audio.clone(),
    });
    match core.to_user_context() {
        EventContext::VoicePacket(data) => {
            assert_eq!(data.ssrc, 12345);
            assert_eq!(data.sequence, 7);
            assert_eq!(data.timestamp, 960);
            assert_eq!(data.audio.len(), 160);
            assert_eq!(*data.audio, audio);
        },
        _ => panic!("conversion changed the event kind"),
    }
}

#[test]
fn rtcp_packet_conversion_preserves_bytes() {
    let packet = vec![0x80u8, 0xc8, 0x00, 0x06];
    let core = CoreContext::RtcpPacket(InternalRtcpPacket { packet: packet.clone() });
    match core.to_user_context() {
        EventContext::RtcpPacket(data) => assert_eq!(*data.packet, packet),
        _ => panic!("conversion changed the event kind"),
    }
}

#[test]
fn client_disconnect_conversion_is_faithful() {
    let core = CoreContext::ClientDisconnect(ClientDisconnect { user_id: 31 });
    match core.to_user_context() {
        EventContext::ClientDisconnect(evt) => assert_eq!(evt.user_id, 31),
        _ => panic!("conversion changed the event kind"),
    }
}

#[test]
fn driver_connect_conversion_clones_handles() {
    let (tx_send, tx_recv) = flume::unbounded::<UdpTxMessage>();
    let (ws_send, ws_recv) = flume::unbounded::<WsMessage>();
    let core = CoreContext::DriverConnect(
        InternalConnect { ssrc: 41, guild_id: 99, channel_id: Some(5) },
        tx_send,
        ws_send,
        test_cipher(),
    );
    match core.to_user_context() {
        EventContext::DriverConnect(data, tx, ws, cipher) => {
            assert_eq!(data.ssrc, 41);
            assert_eq!(data.guild_id, 99);
            assert_eq!(data.channel_id, Some(5));
            let _ = cipher.get();
            let _ = tx.send(UdpTxMessage::Poison);
            assert!(matches!(tx_recv.try_recv(), Ok(UdpTxMessage::Poison)));
            let _ = ws.send(WsMessage::Speaking(test_speaking()));
            assert!(matches!(ws_recv.try_recv(), Ok(WsMessage::Speaking(_))));
        },
        _ => panic!("conversion changed the event kind"),
    }
}

#[test]
fn driver_reconnect_conversion_is_faithful() {
    let core = CoreContext::DriverReconnect(
        InternalConnect { ssrc: 42, guild_id: 100, channel_id: None },
        tx_sender(),
        ws_sender(),
        test_cipher(),
    );
    match core.to_user_context() {
        EventContext::DriverReconnect(data, _, _, _) => {
            assert_eq!(data.ssrc, 42);
            assert_eq!(data.guild_id, 100);
            assert_eq!(data.channel_id, None);
        },
        _ => panic!("conversion changed the event kind"),
    }
}

#[test]
fn driver_disconnect_conversion_is_faithful() {
    let core = CoreContext::DriverDisconnect(InternalDisconnect {
        kind: DisconnectKind::Runtime,
        guild_id: 55,
    });
    match core.to_user_context() {
        EventContext::DriverDisconnect(data) => {
            assert_eq!(data.kind, DisconnectKind::Runtime);
            assert_eq!(data.guild_id, 55);
        },
        _ => panic!("conversion changed the event kind"),
    }
}

#[test]
fn classification_maps_each_global_kind_to_its_tag() {
    let contexts = vec![
        CoreContext::SpeakingStateUpdate(test_speaking()),
        CoreContext::SpeakingUpdate(InternalSpeakingUpdate { ssrc: 1, speaking: true }),
        CoreContext::VoicePacket(InternalVoicePacket {
            ssrc: 2,
            sequence: 3,
            timestamp: 4,
            audio: vec![1, 2, 3],
        }),
        CoreContext::RtcpPacket(InternalRtcpPacket { packet: vec![5] }),
        CoreContext::ClientDisconnect(ClientDisconnect { user_id: 6 }),
        CoreContext::DriverConnect(
            InternalConnect { ssrc: 7, guild_id: 8, channel_id: None },
            tx_sender(),
            ws_sender(),
            test_cipher(),
        ),
        CoreContext::DriverReconnect(
            InternalConnect { ssrc: 9, guild_id: 10, channel_id: None },
            tx_sender(),
            ws_sender(),
            test_cipher(),
        ),
        CoreContext::DriverDisconnect(InternalDisconnect {
            kind: DisconnectKind::Connect,
            guild_id: 11,
        }),
    ];
    let expected = vec![
        CoreEvent::SpeakingStateUpdate,
        CoreEvent::SpeakingUpdate,
        CoreEvent::VoicePacket,
        CoreEvent::RtcpPacket,
        CoreEvent::ClientDisconnect,
        CoreEvent::DriverConnect,
        CoreEvent::DriverReconnect,
        CoreEvent::DriverDisconnect,
    ];
    assert_eq!(contexts.len(), expected.len());
    for (core, tag) in contexts.iter().zip(expected.iter()) {
        assert_eq!(core.to_user_context().to_core_event(), Some(*tag));
    }
}

#[test]
fn track_scoped_events_have_no_global_tag() {
    let tracks = vec![(
        TrackState { playing: true, position_ms: 1500 },
        TrackHandle { id: 3 },
    )];
    let context = EventContext::Track(&tracks[..]);
    assert_eq!(context.to_core_event(), None);
}
