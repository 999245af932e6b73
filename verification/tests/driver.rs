use voicelink::driver::PyDriver;
use voicelink::error::{ErrorKind, VoiceError};
use voicelink::pipeline::Pull;
use voicelink::session::{Phase, Reaction, SessionState};
use voicelink::source::{Chunk, PySource, Source};

fn ready() -> PyDriver {
    let mut d = PyDriver::new();
    d.make_driver();
    d
}

fn connect(d: &mut PyDriver) -> Result<(), VoiceError> {
    d.connect("T".to_string(), "E".to_string(), "S".to_string(), 1, 2, 3)
}

fn connected() -> PyDriver {
    let mut d = ready();
    connect(&mut d).unwrap();
    assert!(matches!(d.key_exchanged(vec![7; 32]), Reaction::Pending));
    assert_eq!(d.phase(), Some(Phase::Handshaking));
    assert!(matches!(d.keepalive_acked(), Reaction::Established));
    d
}

fn send(d: &mut PyDriver, payload: Vec<u8>) -> Result<Option<voicelink::transport::Frame>, VoiceError> {
    let generation = d.generation().unwrap_or(0);
    d.send(payload, generation)
}

fn pcm(frames: usize, fill: u8) -> PySource {
    PySource::new(Source::from_pcm(vec![fill; frames * 3840]))
}

#[test]
fn new_driver_is_not_initialised() {
    let d = PyDriver::new();
    assert!(!d.is_initialized());
    assert_eq!(d.phase(), None);
    assert!(d.state().is_none());
    assert!(!d.is_playing());
}

#[test]
fn make_driver_gives_an_idle_driver() {
    let mut d = PyDriver::new();
    d.make_driver();
    assert!(d.is_initialized());
    assert_eq!(d.phase(), Some(Phase::Idle));
    assert!(!d.is_playing());
    assert_eq!(d.in_flight(), 0);
}

#[test]
fn make_driver_again_starts_over() {
    let mut d = connected();
    let mut s = pcm(2, 1);
    d.play(&mut s).unwrap();
    d.make_driver();
    assert_eq!(d.phase(), Some(Phase::Idle));
    assert!(!d.is_playing());
}

#[test]
fn connect_waits_for_the_handshake() {
    let mut d = ready();
    assert!(connect(&mut d).is_ok());
    assert_eq!(d.phase(), Some(Phase::Handshaking));
    let p = d.handshake_parameters().unwrap();
    assert_eq!(p.token, "T");
    assert_eq!(p.endpoint, "E");
    assert_eq!(p.session_id, "S");
    assert_eq!((p.guild_id, p.channel_id, p.user_id), (1, 2, 3));
}

#[test]
fn handshake_makes_a_fresh_session() {
    let d = connected();
    assert_eq!(d.phase(), Some(Phase::Connected));
    match d.state().unwrap() {
        SessionState::Connected(s) => {
            assert_eq!(s.key, vec![7; 32]);
            assert_eq!(s.counters.sequence, 0);
            assert_eq!(s.counters.timestamp, 0);
            assert_eq!(s.missed, 0);
            assert_eq!(s.info.token, "T");
            assert_eq!(s.info.guild_id, 1);
        }
        other => panic!("not connected: {:?}", other),
    }
}

#[test]
fn connect_leave_connect_ends_where_the_first_connect_ended() {
    let mut d = connected();
    let first = format!("{:?}", connected());
    assert!(d.leave().is_ok());
    assert_eq!(d.phase(), Some(Phase::Disconnected));
    assert!(connect(&mut d).is_ok());
    assert!(matches!(d.key_exchanged(vec![7; 32]), Reaction::Pending));
    assert!(matches!(d.keepalive_acked(), Reaction::Established));
    assert_eq!(format!("{:?}", d), first);
}

#[test]
fn leave_while_idle_is_not_connected() {
    let mut d = ready();
    let e = d.leave().unwrap_err();
    assert_eq!(e.kind(), ErrorKind::NotConnected);
    assert_eq!(d.phase(), Some(Phase::Idle));
}

#[test]
fn leave_after_leave_is_not_connected() {
    let mut d = connected();
    d.leave().unwrap();
    assert_eq!(d.leave().unwrap_err().kind(), ErrorKind::NotConnected);
    assert_eq!(d.phase(), Some(Phase::Disconnected));
}

#[test]
fn connect_while_connected_is_already_connected() {
    let mut d = connected();
    let e = connect(&mut d).unwrap_err();
    assert_eq!(e.kind(), ErrorKind::AlreadyConnected);
    assert_eq!(d.phase(), Some(Phase::Connected));
}

#[test]
fn connect_while_handshaking_is_already_connected() {
    let mut d = ready();
    connect(&mut d).unwrap();
    assert_eq!(connect(&mut d).unwrap_err().kind(), ErrorKind::AlreadyConnected);
    assert_eq!(d.phase(), Some(Phase::Handshaking));
}

#[test]
fn connect_with_blank_or_zero_parameters_is_refused() {
    let cases: Vec<(&str, &str, &str, u64, u64, u64)> = vec![
        ("", "E", "S", 1, 2, 3),
        ("T", "", "S", 1, 2, 3),
        ("T", "E", "", 1, 2, 3),
        ("T", "E", "S", 0, 2, 3),
        ("T", "E", "S", 1, 0, 3),
        ("T", "E", "S", 1, 2, 0),
    ];
    for (t, e, s, g, c, u) in cases {
        let mut d = ready();
        let err = d.connect(t.to_string(), e.to_string(), s.to_string(), g, c, u).unwrap_err();
        assert_eq!(err.kind(), ErrorKind::ConnectionError);
        assert_eq!(err.description(), "connection parameters must be non-empty and non-zero");
        assert_eq!(d.phase(), Some(Phase::Idle));
    }
}

#[test]
fn rejected_token_fails_with_the_reason_and_leaves_no_session() {
    let mut d = ready();
    connect(&mut d).unwrap();
    match d.handshake_failed("relay rejected the token".to_string()) {
        Reaction::Failed(e) => {
            assert_eq!(e.kind(), ErrorKind::ConnectionError);
            assert_eq!(e.description(), "relay rejected the token");
        }
        other => panic!("unexpected reaction: {:?}", other),
    }
    assert_eq!(d.phase(), Some(Phase::Disconnected));
    assert!(d.handshake_parameters().is_none());
    assert_eq!(send(&mut d, vec![1]).unwrap_err().kind(), ErrorKind::NotConnected);
    assert!(connect(&mut d).is_ok());
}

#[test]
fn handshake_without_a_key_counts_as_failed() {
    let mut d = ready();
    connect(&mut d).unwrap();
    match d.key_exchanged(Vec::new()) {
        Reaction::Failed(e) => {
            assert_eq!(e.kind(), ErrorKind::ConnectionError);
            assert_eq!(e.description(), "the relay supplied no session key");
        }
        other => panic!("unexpected reaction: {:?}", other),
    }
    assert_eq!(d.phase(), Some(Phase::Disconnected));
}

#[test]
fn leave_cancels_a_handshake_under_way() {
    let mut d = ready();
    connect(&mut d).unwrap();
    assert!(d.leave().is_ok());
    assert_eq!(d.phase(), Some(Phase::Disconnected));
    assert!(matches!(d.key_exchanged(vec![1]), Reaction::Discard));
    assert!(matches!(d.keepalive_acked(), Reaction::Nothing));
    assert_eq!(d.phase(), Some(Phase::Disconnected));
    assert!(matches!(d.handshake_failed("late".to_string()), Reaction::Nothing));
}

#[test]
fn play_without_a_session_is_not_connected_and_keeps_the_source() {
    let mut d = ready();
    let mut s = pcm(1, 1);
    assert_eq!(d.play(&mut s).unwrap_err().kind(), ErrorKind::NotConnected);
    assert!(!s.is_consumed());
    connect(&mut d).unwrap();
    assert_eq!(d.play(&mut s).unwrap_err().kind(), ErrorKind::NotConnected);
    d.leave().unwrap();
    assert_eq!(d.play(&mut s).unwrap_err().kind(), ErrorKind::NotConnected);
    assert!(!s.is_consumed());
}

#[test]
fn play_takes_the_source_once() {
    let mut d = connected();
    let mut s = pcm(1, 1);
    assert!(d.play(&mut s).is_ok());
    assert!(s.is_consumed());
    assert!(d.is_playing());
    assert_eq!(d.play(&mut s).unwrap_err().kind(), ErrorKind::ConsumedSource);
    assert!(d.is_playing());
}

#[test]
fn second_source_preempts_the_first() {
    let mut d = connected();
    let mut first = pcm(3, 1);
    let mut second = pcm(2, 2);
    d.play(&mut first).unwrap();
    match d.next_chunk() {
        Pull::Chunk(Chunk::Pcm(b), _) => assert_eq!(b, vec![1; 3840]),
        other => panic!("unexpected pull: {:?}", other),
    }
    assert_eq!(d.in_flight(), 1);
    d.play(&mut second).unwrap();
    assert_eq!(d.in_flight(), 0);
    for _ in 0..2 {
        match d.next_chunk() {
            Pull::Chunk(Chunk::Pcm(b), _) => assert_eq!(b, vec![2; 3840]),
            other => panic!("unexpected pull: {:?}", other),
        }
    }
    assert!(matches!(d.next_chunk(), Pull::Finished));
    assert!(!d.is_playing());
    assert!(matches!(d.next_chunk(), Pull::Idle));
}

#[test]
fn lost_link_is_restored_and_playback_goes_on_where_it_was() {
    let mut d = connected();
    let mut data = vec![1; 3840];
    data.extend(vec![2; 3840]);
    data.extend(vec![3; 3840]);
    let mut s = PySource::new(Source::from_pcm(data));
    d.play(&mut s).unwrap();
    assert!(matches!(d.next_chunk(), Pull::Chunk(_, _)));
    let f = send(&mut d, vec![0xAA]).unwrap().unwrap();
    assert_eq!((f.sequence, f.timestamp), (0, 0));

    assert!(matches!(d.link_lost(), Reaction::Retry(250)));
    assert_eq!(d.phase(), Some(Phase::Reconnecting));
    assert!(matches!(d.next_chunk(), Pull::Paused));
    assert_eq!(send(&mut d, vec![1]).unwrap_err().kind(), ErrorKind::NotConnected);
    let p = d.handshake_parameters().unwrap();
    assert_eq!((p.token.as_str(), p.session_id.as_str(), p.endpoint.as_str()), ("T", "S", "E"));

    assert!(matches!(d.handshake_failed("timeout".to_string()), Reaction::Retry(500)));
    assert!(matches!(d.key_exchanged(vec![9; 32]), Reaction::Pending));
    assert_eq!(d.phase(), Some(Phase::Reconnecting));
    assert!(matches!(d.next_chunk(), Pull::Paused));
    assert!(matches!(d.keepalive_acked(), Reaction::Established));
    assert_eq!(d.phase(), Some(Phase::Connected));
    assert!(d.is_playing());
    match d.next_chunk() {
        Pull::Chunk(Chunk::Pcm(b), _) => assert_eq!(b, vec![2; 3840]),
        other => panic!("unexpected pull: {:?}", other),
    }
    let f = send(&mut d, vec![0xBB]).unwrap().unwrap();
    assert_eq!((f.sequence, f.timestamp), (1, 960));
    match d.state().unwrap() {
        SessionState::Connected(s) => assert_eq!(s.key, vec![9; 32]),
        other => panic!("not connected: {:?}", other),
    }
}

#[test]
fn retry_budget_runs_out() {
    let mut d = connected();
    let mut s = pcm(2, 1);
    d.play(&mut s).unwrap();
    assert!(matches!(d.link_lost(), Reaction::Retry(250)));
    let waits = [500u64, 1000, 2000, 4000];
    for w in waits {
        match d.handshake_failed("timeout".to_string()) {
            Reaction::Retry(ms) => assert_eq!(ms, w),
            other => panic!("unexpected reaction: {:?}", other),
        }
        assert_eq!(d.phase(), Some(Phase::Reconnecting));
    }
    match d.handshake_failed("relay unreachable".to_string()) {
        Reaction::Failed(e) => {
            assert_eq!(e.kind(), ErrorKind::ConnectionError);
            assert_eq!(e.description(), "relay unreachable");
        }
        other => panic!("unexpected reaction: {:?}", other),
    }
    assert_eq!(d.phase(), Some(Phase::Disconnected));
    assert!(!d.is_playing());
}

#[test]
fn leave_while_reconnecting_ends_the_session() {
    let mut d = connected();
    d.link_lost();
    assert!(d.leave().is_ok());
    assert_eq!(d.phase(), Some(Phase::Disconnected));
    assert!(matches!(d.key_exchanged(vec![1]), Reaction::Discard));
}

#[test]
fn leave_releases_the_pipeline() {
    let mut d = connected();
    let mut s = pcm(2, 1);
    d.play(&mut s).unwrap();
    d.next_chunk();
    d.leave().unwrap();
    assert!(!d.is_playing());
    assert_eq!(d.in_flight(), 0);
    assert!(matches!(d.next_chunk(), Pull::Paused));
}

#[test]
fn third_missed_keepalive_is_a_lost_link() {
    let mut d = connected();
    assert!(matches!(d.keepalive_missed(), Reaction::Nothing));
    assert!(matches!(d.keepalive_missed(), Reaction::Nothing));
    assert_eq!(d.phase(), Some(Phase::Connected));
    assert!(matches!(d.keepalive_missed(), Reaction::Retry(250)));
    assert_eq!(d.phase(), Some(Phase::Reconnecting));
}

#[test]
fn answered_keepalive_starts_the_count_again() {
    let mut d = connected();
    d.keepalive_missed();
    d.keepalive_missed();
    assert!(matches!(d.keepalive_acked(), Reaction::Nothing));
    assert!(matches!(d.keepalive_missed(), Reaction::Nothing));
    assert!(matches!(d.keepalive_missed(), Reaction::Nothing));
    assert_eq!(d.phase(), Some(Phase::Connected));
}

#[test]
fn events_without_a_session_change_nothing() {
    let mut d = ready();
    assert!(matches!(d.link_lost(), Reaction::Nothing));
    assert!(matches!(d.keepalive_missed(), Reaction::Nothing));
    assert!(matches!(d.keepalive_acked(), Reaction::Nothing));
    assert!(matches!(d.handshake_failed("x".to_string()), Reaction::Nothing));
    assert!(matches!(d.key_exchanged(vec![1]), Reaction::Discard));
    assert_eq!(d.phase(), Some(Phase::Idle));
}

#[test]
fn frames_are_numbered_in_order() {
    let mut d = connected();
    for i in 0..5u64 {
        let f = send(&mut d, vec![i as u8]).unwrap().unwrap();
        assert_eq!(f.sequence, i);
        assert_eq!(f.timestamp, i * 960);
        assert_eq!(f.payload, vec![i as u8]);
    }
}

#[test]
fn sending_lets_the_pipeline_pull_again() {
    let mut d = connected();
    let mut s = pcm(6, 1);
    d.play(&mut s).unwrap();
    for _ in 0..4 {
        assert!(matches!(d.next_chunk(), Pull::Chunk(_, _)));
    }
    assert_eq!(d.in_flight(), 4);
    assert!(matches!(d.next_chunk(), Pull::Busy));
    send(&mut d, vec![1]).unwrap().unwrap();
    assert_eq!(d.in_flight(), 3);
    assert!(matches!(d.next_chunk(), Pull::Chunk(_, _)));
    assert!(matches!(d.next_chunk(), Pull::Busy));
}

#[test]
fn session_is_not_live_before_the_first_keepalive_is_answered() {
    let mut d = ready();
    connect(&mut d).unwrap();
    assert!(matches!(d.keepalive_acked(), Reaction::Nothing));
    assert_eq!(d.phase(), Some(Phase::Handshaking));
    assert!(matches!(d.key_exchanged(vec![1, 2]), Reaction::Pending));
    assert_eq!(d.phase(), Some(Phase::Handshaking));
    assert_eq!(send(&mut d, vec![1]).unwrap_err().kind(), ErrorKind::NotConnected);
    match d.state().unwrap() {
        SessionState::Handshaking(info, key) => {
            assert_eq!(info.token, "T");
            assert_eq!(key, &Some(vec![1, 2]));
        }
        other => panic!("not handshaking: {:?}", other),
    }
    match d.handshake_failed("no keepalive answer".to_string()) {
        Reaction::Failed(e) => assert_eq!(e.description(), "no keepalive answer"),
        other => panic!("unexpected reaction: {:?}", other),
    }
    assert_eq!(d.phase(), Some(Phase::Disconnected));
}

#[test]
fn failed_retry_forgets_the_exchanged_key() {
    let mut d = connected();
    d.link_lost();
    assert!(matches!(d.key_exchanged(vec![5]), Reaction::Pending));
    assert!(matches!(d.handshake_failed("no keepalive answer".to_string()), Reaction::Retry(500)));
    assert!(matches!(d.keepalive_acked(), Reaction::Nothing));
    assert_eq!(d.phase(), Some(Phase::Reconnecting));
}

#[test]
fn inbound_packets_pass_only_when_live_and_authentic() {
    let mut d = ready();
    assert_eq!(d.receive(vec![1, 2], true), None);
    connect(&mut d).unwrap();
    assert_eq!(d.receive(vec![1, 2], true), None);
    d.key_exchanged(vec![1]);
    d.keepalive_acked();
    assert_eq!(d.receive(vec![1, 2], true), Some(vec![1, 2]));
    assert_eq!(d.receive(vec![1, 2], false), None);
    d.link_lost();
    assert_eq!(d.receive(vec![1, 2], true), None);
}

#[test]
fn a_used_session_leaves_nothing_to_the_next() {
    let fresh = connected();
    let mut d = connected();
    send(&mut d, vec![1]).unwrap().unwrap();
    let mut s = pcm(3, 1);
    d.play(&mut s).unwrap();
    d.next_chunk();
    d.keepalive_missed();
    assert!(d.leave().is_ok());
    assert!(connect(&mut d).is_ok());
    assert!(matches!(d.key_exchanged(vec![7; 32]), Reaction::Pending));
    assert!(matches!(d.keepalive_acked(), Reaction::Established));
    assert_eq!(format!("{:?}", d.state()), format!("{:?}", fresh.state()));
    assert!(!d.is_playing());
    assert_eq!(d.in_flight(), 0);
    let f = send(&mut d, vec![9]).unwrap().unwrap();
    assert_eq!((f.sequence, f.timestamp), (0, 0));
}

#[test]
fn commands_on_a_driver_that_is_not_initialised() {
    let mut d = PyDriver::new();
    assert_eq!(connect(&mut d).unwrap_err().kind(), ErrorKind::NotConnected);
    assert_eq!(d.leave().unwrap_err().kind(), ErrorKind::NotConnected);
    let mut s = pcm(1, 1);
    let e = d.play(&mut s).unwrap_err();
    assert_eq!(e.kind(), ErrorKind::NotConnected);
    assert_eq!(e.description(), "there is no session");
    assert!(!s.is_consumed());
    assert_eq!(d.send(vec![1], 0).unwrap_err().kind(), ErrorKind::NotConnected);
    assert!(matches!(d.next_chunk(), Pull::Paused));
    assert!(matches!(d.key_exchanged(vec![1]), Reaction::Discard));
    assert!(matches!(d.keepalive_acked(), Reaction::Nothing));
    assert!(matches!(d.keepalive_missed(), Reaction::Nothing));
    assert!(matches!(d.link_lost(), Reaction::Nothing));
    assert!(matches!(d.handshake_failed("x".to_string()), Reaction::Nothing));
    assert_eq!(d.receive(vec![1], true), None);
    assert!(d.handshake_parameters().is_none());
    assert_eq!(d.generation(), None);
    assert!(!d.is_initialized());
    assert_eq!(d.phase(), None);
}

#[test]
fn make_driver_says_when_a_transport_is_left_over() {
    let mut d = PyDriver::new();
    assert!(matches!(d.make_driver(), Reaction::Nothing));
    assert!(matches!(d.make_driver(), Reaction::Nothing));
    connect(&mut d).unwrap();
    assert!(matches!(d.make_driver(), Reaction::Discard));
    assert_eq!(d.phase(), Some(Phase::Idle));
    let mut d = connected();
    assert!(matches!(d.make_driver(), Reaction::Discard));
    let mut d = connected();
    d.link_lost();
    assert!(matches!(d.make_driver(), Reaction::Discard));
    let mut d = connected();
    d.leave().unwrap();
    assert!(matches!(d.make_driver(), Reaction::Nothing));
}

#[test]
fn payload_of_a_replaced_source_is_dropped() {
    let mut d = connected();
    let mut first = pcm(3, 1);
    let mut second = pcm(2, 2);
    d.play(&mut first).unwrap();
    let old = match d.next_chunk() {
        Pull::Chunk(_, g) => g,
        other => panic!("unexpected pull: {:?}", other),
    };
    assert_eq!(Some(old), d.generation());
    d.play(&mut second).unwrap();
    assert_ne!(Some(old), d.generation());
    assert!(matches!(d.send(vec![0xAA], old), Ok(None)));
    let new = match d.next_chunk() {
        Pull::Chunk(_, g) => g,
        other => panic!("unexpected pull: {:?}", other),
    };
    assert_eq!(d.in_flight(), 1);
    let f = d.send(vec![0xBB], new).unwrap().unwrap();
    assert_eq!((f.sequence, f.timestamp, f.payload), (0, 0, vec![0xBB]));
    assert_eq!(d.in_flight(), 0);
    assert!(matches!(d.send(vec![0xAA], old), Ok(None)));
    let f = d.send(vec![0xCC], new).unwrap().unwrap();
    assert_eq!(f.sequence, 1);
}

#[test]
fn payload_of_a_left_session_is_dropped_in_the_next() {
    let mut d = connected();
    let mut s = pcm(3, 1);
    d.play(&mut s).unwrap();
    let old = match d.next_chunk() {
        Pull::Chunk(_, g) => g,
        other => panic!("unexpected pull: {:?}", other),
    };
    d.leave().unwrap();
    assert_eq!(d.send(vec![1], old).unwrap_err().kind(), ErrorKind::NotConnected);
    connect(&mut d).unwrap();
    d.key_exchanged(vec![7; 32]);
    d.keepalive_acked();
    assert!(matches!(d.send(vec![1], old), Ok(None)));
    d.make_driver();
    connect(&mut d).unwrap();
    d.key_exchanged(vec![7; 32]);
    d.keepalive_acked();
    let mut t = pcm(1, 2);
    d.play(&mut t).unwrap();
    assert!(matches!(d.send(vec![1], old), Ok(None)));
}
