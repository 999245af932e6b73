use voicelink::error::{ErrorKind, VoiceError};
use voicelink::machine::SessionMachine;
use voicelink::session::{
    retry_delay_ms, ConnectionInfo, Phase, Reaction, SessionState, BASE_DELAY_MS, MAX_DELAY_MS,
    MAX_RETRIES,
};
use voicelink::transport::{Counters, KEEPALIVE_LIMIT, TICKS_PER_FRAME};

fn info() -> ConnectionInfo {
    ConnectionInfo {
        token: "tok".to_string(),
        endpoint: "relay.example:443".to_string(),
        session_id: "sess".to_string(),
        guild_id: 10,
        channel_id: 20,
        user_id: 30,
    }
}

#[test]
fn retry_delay_doubles_up_to_the_cap() {
    assert_eq!(BASE_DELAY_MS, 250);
    assert_eq!(MAX_DELAY_MS, 8000);
    assert_eq!(retry_delay_ms(0), 250);
    assert_eq!(retry_delay_ms(1), 500);
    assert_eq!(retry_delay_ms(2), 1000);
    assert_eq!(retry_delay_ms(3), 2000);
    assert_eq!(retry_delay_ms(4), 4000);
    assert_eq!(retry_delay_ms(5), 8000);
    assert_eq!(retry_delay_ms(6), 8000);
    assert_eq!(retry_delay_ms(64), 8000);
    assert_eq!(retry_delay_ms(u32::MAX), 8000);
}

#[test]
fn acceptable_parameters() {
    assert!(info().is_acceptable());
    let mut blank = info();
    blank.endpoint = String::new();
    assert!(!blank.is_acceptable());
    let mut zero = info();
    zero.user_id = 0;
    assert!(!zero.is_acceptable());
}

#[test]
fn duplicate_copies_every_field() {
    let a = info();
    let b = a.duplicate();
    assert_eq!(a.token, b.token);
    assert_eq!(a.endpoint, b.endpoint);
    assert_eq!(a.session_id, b.session_id);
    assert_eq!((a.guild_id, a.channel_id, a.user_id), (b.guild_id, b.channel_id, b.user_id));
}

#[test]
fn machine_walks_through_its_phases() {
    let mut m = SessionMachine::new();
    assert_eq!(m.phase(), Phase::Idle);
    assert!(m.handshake_parameters().is_none());
    m.connect(info()).unwrap();
    assert_eq!(m.phase(), Phase::Handshaking);
    assert!(matches!(m.key_exchanged(vec![1, 2, 3]), Reaction::Pending));
    assert_eq!(m.handshake_parameters().unwrap().token, "tok");
    assert!(matches!(m.keepalive_acked(), Reaction::Established));
    assert_eq!(m.phase(), Phase::Connected);
    assert!(m.handshake_parameters().is_none());
    assert!(matches!(m.link_lost(), Reaction::Retry(250)));
    assert_eq!(m.phase(), Phase::Reconnecting);
    assert_eq!(m.handshake_parameters().unwrap().token, "tok");
    m.leave().unwrap();
    assert_eq!(m.phase(), Phase::Disconnected);
}

#[test]
fn reconnecting_keeps_counters_and_takes_the_new_key() {
    let mut m = SessionMachine::new();
    m.connect(info()).unwrap();
    m.key_exchanged(vec![1]);
    m.keepalive_acked();
    m.send(vec![0]).unwrap();
    m.send(vec![0]).unwrap();
    m.link_lost();
    m.key_exchanged(vec![2]);
    m.keepalive_acked();
    match m.state() {
        SessionState::Connected(s) => {
            assert_eq!(s.key, vec![2]);
            assert_eq!(s.counters, Counters { sequence: 2, timestamp: 2 * TICKS_PER_FRAME });
            assert_eq!(s.info.session_id, "sess");
        }
        other => panic!("not connected: {:?}", other),
    }
}

#[test]
fn empty_key_while_reconnecting_uses_up_one_retry() {
    let mut m = SessionMachine::new();
    m.connect(info()).unwrap();
    m.key_exchanged(vec![1]);
    m.keepalive_acked();
    m.link_lost();
    assert!(matches!(m.key_exchanged(Vec::new()), Reaction::Retry(500)));
    match m.state() {
        SessionState::Reconnecting(_, failures, _) => assert_eq!(*failures, 1),
        other => panic!("not reconnecting: {:?}", other),
    }
}

#[test]
fn exactly_max_retries_failures_end_the_session() {
    let mut m = SessionMachine::new();
    m.connect(info()).unwrap();
    m.key_exchanged(vec![1]);
    m.keepalive_acked();
    m.link_lost();
    for _ in 0..MAX_RETRIES - 1 {
        assert!(matches!(m.handshake_failed("no".to_string()), Reaction::Retry(_)));
    }
    assert!(matches!(m.handshake_failed("no".to_string()), Reaction::Failed(_)));
    assert_eq!(m.phase(), Phase::Disconnected);
}

#[test]
fn link_lost_twice_does_not_restart_the_budget() {
    let mut m = SessionMachine::new();
    m.connect(info()).unwrap();
    m.key_exchanged(vec![1]);
    m.keepalive_acked();
    m.link_lost();
    m.handshake_failed("no".to_string());
    assert!(matches!(m.link_lost(), Reaction::Nothing));
    match m.state() {
        SessionState::Reconnecting(_, failures, _) => assert_eq!(*failures, 1),
        other => panic!("not reconnecting: {:?}", other),
    }
}

#[test]
fn keepalive_limit_is_three() {
    assert_eq!(KEEPALIVE_LIMIT, 3);
    let mut m = SessionMachine::new();
    m.connect(info()).unwrap();
    m.key_exchanged(vec![1]);
    m.keepalive_acked();
    m.keepalive_missed();
    match m.state() {
        SessionState::Connected(s) => assert_eq!(s.missed, 1),
        other => panic!("not connected: {:?}", other),
    }
    m.keepalive_missed();
    assert!(matches!(m.keepalive_missed(), Reaction::Retry(250)));
    match m.state() {
        SessionState::Reconnecting(s, failures, key) => {
            assert_eq!(s.missed, 0);
            assert_eq!(*failures, 0);
            assert!(key.is_none());
        }
        other => panic!("not reconnecting: {:?}", other),
    }
}

#[test]
fn send_needs_a_live_session() {
    let mut m = SessionMachine::new();
    assert_eq!(m.send(vec![1]).unwrap_err().kind(), ErrorKind::NotConnected);
    m.connect(info()).unwrap();
    assert_eq!(m.send(vec![1]).unwrap_err().kind(), ErrorKind::NotConnected);
    assert_eq!(m.phase(), Phase::Handshaking);
}

#[test]
fn counters_stamp_and_advance() {
    let mut c = Counters::new();
    assert_eq!(c, Counters { sequence: 0, timestamp: 0 });
    let f = c.stamp(vec![5, 6]).unwrap();
    assert_eq!((f.sequence, f.timestamp, f.payload), (0, 0, vec![5, 6]));
    assert_eq!(c, Counters { sequence: 1, timestamp: 960 });
}

#[test]
fn counters_never_wrap() {
    let mut c = Counters { sequence: u64::MAX, timestamp: 0 };
    assert!(c.stamp(vec![1]).is_none());
    assert_eq!(c, Counters { sequence: u64::MAX, timestamp: 0 });
    let mut c = Counters { sequence: 7, timestamp: u64::MAX - 959 };
    assert!(c.stamp(vec![1]).is_none());
    assert_eq!(c, Counters { sequence: 7, timestamp: u64::MAX - 959 });
    let mut c = Counters { sequence: 7, timestamp: u64::MAX - 960 };
    assert!(c.stamp(vec![1]).is_some());
    assert_eq!(c, Counters { sequence: 8, timestamp: u64::MAX });
}

#[test]
fn every_error_describes_itself() {
    let cases = vec![
        (VoiceError::ConnectionError("a".to_string()), ErrorKind::ConnectionError, "a"),
        (VoiceError::SourceDecodeError("b".to_string()), ErrorKind::SourceDecodeError, "b"),
        (VoiceError::CompressionError("c".to_string()), ErrorKind::CompressionError, "c"),
        (
            VoiceError::AlreadyConnected,
            ErrorKind::AlreadyConnected,
            "a session is already live or being set up",
        ),
        (VoiceError::NotConnected, ErrorKind::NotConnected, "there is no session"),
        (VoiceError::ConsumedSource("d".to_string()), ErrorKind::ConsumedSource, "d"),
        (
            VoiceError::InvalidBitrate,
            ErrorKind::InvalidBitrate,
            "the bitrate is outside the supported range",
        ),
        (
            VoiceError::UseAsyncConstructor,
            ErrorKind::UseAsyncConstructor,
            "Use `CompressedSource.from_source` to create a `CompressedSource` object.",
        ),
    ];
    for (error, kind, text) in cases {
        assert_eq!(error.kind(), kind);
        assert_eq!(error.description(), text);
    }
}
