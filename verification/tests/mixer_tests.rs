use mixer_core::config::{Bitrate, Config, CryptoMode, CryptoState};
use mixer_core::message::{
    Interconnect, MixerConnection, MixerMessage, UdpRxMessage, UdpTxMessage, WsMessage,
};
use mixer_core::mixer::{is_stale, MixerState};
use mixer_core::tracks::{Track, TrackHandle, TrackState};
use xsalsa20poly1305::{Key, KeyInit, XSalsa20Poly1305};

fn test_cipher() -> XSalsa20Poly1305 {
    XSalsa20Poly1305::new(&Key::from([7u8; 32]))
}

fn test_connection() -> (
    MixerConnection,
    flume::Receiver<UdpRxMessage>,
    flume::Receiver<UdpTxMessage>,
) {
    let (rx_sender, rx_receiver) = flume::unbounded();
    let (tx_sender, tx_receiver) = flume::unbounded();
    let conn = MixerConnection {
        cipher: test_cipher(),
        crypto_state: CryptoState::Normal,
        udp_rx: rx_sender,
        udp_tx: tx_sender,
    };
    (conn, rx_receiver, tx_receiver)
}

fn test_track(id: u64) -> Track {
    Track {
        handle: TrackHandle { id },
        state: TrackState { playing: true, position_ms: 0 },
    }
}

#[test]
fn teardown_signals_both_channels_once() {
    let (conn, rx, tx) = test_connection();
    conn.teardown();
    assert!(matches!(rx.try_recv(), Ok(UdpRxMessage::Poison)));
    assert!(rx.try_recv().is_err());
    assert!(matches!(tx.try_recv(), Ok(UdpTxMessage::Poison)));
    assert!(tx.try_recv().is_err());
}

#[test]
fn teardown_survives_closed_receiver() {
    let (conn, rx, tx) = test_connection();
    drop(rx);
    conn.teardown();
    assert!(matches!(tx.try_recv(), Ok(UdpTxMessage::Poison)));
    assert!(tx.try_recv().is_err());
}

#[test]
fn connection_handoff_scenario() {
    let mut mixer = MixerState::new(Config::default());
    let (conn_a, a_rx, a_tx) = test_connection();
    let (conn_b, b_rx, b_tx) = test_connection();

    assert_eq!(mixer.process(MixerMessage::SetConn(conn_a, 1)), None);
    assert_eq!(mixer.current_generation(), Some(1));

    assert_eq!(mixer.process(MixerMessage::SetConn(conn_b, 2)), Some(1));
    assert!(matches!(a_rx.try_recv(), Ok(UdpRxMessage::Poison)));
    assert!(a_rx.try_recv().is_err());
    assert!(matches!(a_tx.try_recv(), Ok(UdpTxMessage::Poison)));
    assert!(a_tx.try_recv().is_err());
    assert_eq!(mixer.current_generation(), Some(2));

    assert_eq!(mixer.process(MixerMessage::DropConn), Some(2));
    assert!(matches!(b_rx.try_recv(), Ok(UdpRxMessage::Poison)));
    assert!(b_rx.try_recv().is_err());
    assert!(matches!(b_tx.try_recv(), Ok(UdpTxMessage::Poison)));
    assert!(b_tx.try_recv().is_err());
    assert_eq!(mixer.current_generation(), None);
    assert!(!mixer.is_poisoned());
}

#[test]
fn poison_stops_processing_and_disposes() {
    let mut mixer = MixerState::new(Config::default());
    let (conn_a, a_rx, _a_tx) = test_connection();
    let (conn_b, b_rx, _b_tx) = test_connection();
    let torn = mixer.run_batch(vec![
        MixerMessage::SetConn(conn_a, 1),
        MixerMessage::SetMute(true),
        MixerMessage::Poison,
        MixerMessage::SetDisabled(true),
        MixerMessage::SetConn(conn_b, 2),
    ]);
    assert_eq!(torn, vec![1, 2]);
    assert!(mixer.is_poisoned());
    assert!(mixer.is_muted());
    assert!(!mixer.is_disabled());
    assert_eq!(mixer.current_generation(), None);
    assert!(matches!(a_rx.try_recv(), Ok(UdpRxMessage::Poison)));
    assert!(matches!(b_rx.try_recv(), Ok(UdpRxMessage::Poison)));
}

#[test]
fn commands_apply_in_order() {
    let mut mixer = MixerState::new(Config::default());
    let torn = mixer.run_batch(vec![
        MixerMessage::AddTrack(test_track(10)),
        MixerMessage::SetTrack(Some(test_track(11))),
    ]);
    assert!(torn.is_empty());
    assert_eq!(mixer.track_count(), 1);

    let mut other = MixerState::new(Config::default());
    other.run_batch(vec![
        MixerMessage::SetTrack(Some(test_track(11))),
        MixerMessage::AddTrack(test_track(10)),
    ]);
    assert_eq!(other.track_count(), 2);

    other.run_batch(vec![MixerMessage::SetTrack(None)]);
    assert_eq!(other.track_count(), 0);
}

#[test]
fn flags_apply_regardless_of_connection_state() {
    let mut mixer = MixerState::new(Config::default());
    assert_eq!(mixer.process(MixerMessage::SetMute(true)), None);
    assert_eq!(mixer.process(MixerMessage::SetDisabled(true)), None);
    assert!(mixer.is_muted());
    assert!(mixer.is_disabled());
    assert_eq!(mixer.process(MixerMessage::SetMute(false)), None);
    assert!(!mixer.is_muted());
    assert!(mixer.is_disabled());
}

#[test]
fn reconfiguration_commands_take_effect() {
    let mut mixer = MixerState::new(Config::default());
    assert_eq!(mixer.bitrate(), Bitrate::Auto);
    assert!(!mixer.has_ws_sink());
    assert!(!mixer.has_interconnect());
    assert!(!mixer.needs_encoder_rebuild());

    let (ws_sender, _ws_receiver) = flume::unbounded::<WsMessage>();
    let (event_sender, _event_receiver) = flume::unbounded();
    let new_config = Config { crypto_mode: CryptoMode::Lite, preallocated_tracks: 4 };
    let torn = mixer.run_batch(vec![
        MixerMessage::SetBitrate(Bitrate::BitsPerSecond(64_000)),
        MixerMessage::SetConfig(new_config),
        MixerMessage::Ws(Some(ws_sender)),
        MixerMessage::ReplaceInterconnect(Interconnect { events: event_sender }),
        MixerMessage::RebuildEncoder,
    ]);
    assert!(torn.is_empty());
    assert_eq!(mixer.bitrate(), Bitrate::BitsPerSecond(64_000));
    assert_eq!(mixer.config(), new_config);
    assert!(mixer.has_ws_sink());
    assert!(mixer.has_interconnect());
    assert!(mixer.needs_encoder_rebuild());

    assert_eq!(mixer.process(MixerMessage::Ws(None)), None);
    assert!(!mixer.has_ws_sink());
    assert_eq!(mixer.process(MixerMessage::RebuildEncoder), None);
    assert!(mixer.needs_encoder_rebuild());
}

#[test]
fn generations_observed_non_decreasing() {
    let mut mixer = MixerState::new(Config::default());
    let mut last = 0u32;
    for gen in [1u32, 3, 3, 7] {
        let (conn, _rx, _tx) = test_connection();
        mixer.process(MixerMessage::SetConn(conn, gen));
        let observed = mixer.current_generation().unwrap();
        assert!(observed >= last);
        last = observed;
    }
}

#[test]
fn stale_generation_data_is_discarded() {
    assert!(is_stale(2, 1));
    assert!(!is_stale(2, 2));
    assert!(!is_stale(2, 3));
}

#[test]
fn default_config_values() {
    let config = Config::default();
    assert_eq!(config.crypto_mode, CryptoMode::Normal);
    assert_eq!(config.preallocated_tracks, 1);
}

#[test]
fn crypto_state_initial_and_advance() {
    assert_eq!(CryptoMode::Normal.initial_state(), CryptoState::Normal);
    assert_eq!(CryptoMode::Suffix.initial_state(), CryptoState::Suffix);
    assert_eq!(CryptoMode::Lite.initial_state(), CryptoState::Lite(0));

    let mut counter = CryptoState::Lite(41);
    counter.advance();
    assert_eq!(counter, CryptoState::Lite(42));

    let mut wrapped = CryptoState::Lite(u32::MAX);
    wrapped.advance();
    assert_eq!(wrapped, CryptoState::Lite(0));

    let mut plain = CryptoState::Normal;
    plain.advance();
    assert_eq!(plain, CryptoState::Normal);
}
