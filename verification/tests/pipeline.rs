use voicelink::error::ErrorKind;
use voicelink::pipeline::{AudioPipeline, Pull, MAX_AHEAD};
use voicelink::source::{Chunk, PySource, Source, FRAME_BYTES};

#[test]
fn frame_is_twenty_milliseconds_of_stereo() {
    assert_eq!(FRAME_BYTES, 3840);
    assert_eq!(FRAME_BYTES, 48000 / 50 * 2 * 2);
    assert_eq!(MAX_AHEAD, 4);
}

#[test]
fn raw_source_gives_full_frames_and_pads_the_last() {
    let mut data = vec![1u8; 3840];
    data.extend(vec![2u8; 3840]);
    data.extend(vec![3u8; 1]);
    let mut s = Source::from_pcm(data);
    assert!(!s.is_exhausted());
    match s.pull() {
        Ok(Some(Chunk::Pcm(b))) => assert_eq!(b, vec![1u8; 3840]),
        other => panic!("unexpected: {:?}", other),
    }
    match s.pull() {
        Ok(Some(Chunk::Pcm(b))) => assert_eq!(b, vec![2u8; 3840]),
        other => panic!("unexpected: {:?}", other),
    }
    match s.pull() {
        Ok(Some(Chunk::Pcm(b))) => {
            assert_eq!(b.len(), 3840);
            assert_eq!(b[0], 3);
            assert!(b[1..].iter().all(|x| *x == 0));
        }
        other => panic!("unexpected: {:?}", other),
    }
    assert!(s.is_exhausted());
    assert!(matches!(s.pull(), Ok(None)));
    assert!(matches!(s.pull(), Ok(None)));
}

#[test]
fn exact_multiple_of_a_frame_gets_no_extra_frame() {
    let mut s = Source::from_pcm(vec![5u8; 3840 * 2]);
    assert_eq!(s.drain().unwrap().len(), 2);
    let mut s = Source::from_pcm(vec![5u8; 3840 * 2 + 1]);
    assert_eq!(s.drain().unwrap().len(), 3);
    let mut s = Source::from_pcm(vec![5u8; 3839]);
    assert_eq!(s.drain().unwrap().len(), 1);
}

#[test]
fn empty_raw_source_is_at_its_end() {
    let mut s = Source::from_pcm(Vec::new());
    assert!(s.is_exhausted());
    assert!(matches!(s.pull(), Ok(None)));
    assert_eq!(s.drain().unwrap().len(), 0);
}

#[test]
fn failing_reader_gives_its_data_then_its_failure() {
    let mut s = Source::from_failing_pcm(vec![1u8; 10], "provider went away".to_string());
    assert!(matches!(s.pull(), Ok(Some(Chunk::Pcm(_)))));
    let e = s.pull().unwrap_err();
    assert_eq!(e.kind(), ErrorKind::SourceDecodeError);
    assert_eq!(e.description(), "provider went away");
    assert_eq!(s.pull().unwrap_err().kind(), ErrorKind::SourceDecodeError);
}

#[test]
fn raw_source_does_not_seek() {
    let mut s = Source::from_pcm(vec![1u8; 3840 * 2]);
    s.pull().unwrap();
    assert!(!s.seek(0));
    assert_eq!(s.drain().unwrap().len(), 1);
}

#[test]
fn handle_gives_its_source_once() {
    let mut h = PySource::new(Source::from_pcm(vec![1u8; 4]));
    assert!(!h.is_consumed());
    assert!(h.take().is_ok());
    assert!(h.is_consumed());
    let e = h.take().unwrap_err();
    assert_eq!(e.kind(), ErrorKind::ConsumedSource);
    assert_eq!(h.take().unwrap_err().kind(), ErrorKind::ConsumedSource);
}

#[test]
fn pipeline_starts_idle() {
    let mut p = AudioPipeline::new();
    assert!(!p.is_attached());
    assert_eq!(p.in_flight(), 0);
    assert!(matches!(p.pull(), Pull::Idle));
}

#[test]
fn pipeline_runs_at_most_four_chunks_ahead() {
    let mut p = AudioPipeline::new();
    let mut h = PySource::new(Source::from_pcm(vec![1u8; 3840 * 10]));
    p.attach(&mut h).unwrap();
    for n in 1..=4 {
        assert!(matches!(p.pull(), Pull::Chunk(_, _)));
        assert_eq!(p.in_flight(), n);
    }
    assert!(matches!(p.pull(), Pull::Busy));
    assert!(matches!(p.pull(), Pull::Busy));
    assert_eq!(p.in_flight(), 4);
    p.sent();
    p.sent();
    assert_eq!(p.in_flight(), 2);
    assert!(matches!(p.pull(), Pull::Chunk(_, _)));
    assert!(matches!(p.pull(), Pull::Chunk(_, _)));
    assert!(matches!(p.pull(), Pull::Busy));
}

#[test]
fn sent_without_anything_in_flight_changes_nothing() {
    let mut p = AudioPipeline::new();
    p.sent();
    assert_eq!(p.in_flight(), 0);
}

#[test]
fn pipeline_detaches_at_the_end_of_the_source() {
    let mut p = AudioPipeline::new();
    let mut h = PySource::new(Source::from_pcm(vec![1u8; 10]));
    p.attach(&mut h).unwrap();
    assert!(matches!(p.pull(), Pull::Chunk(_, _)));
    assert!(p.is_attached());
    assert!(matches!(p.pull(), Pull::Finished));
    assert!(!p.is_attached());
    assert_eq!(p.in_flight(), 1);
    assert!(matches!(p.pull(), Pull::Idle));
}

#[test]
fn pipeline_detaches_on_a_decode_error() {
    let mut p = AudioPipeline::new();
    let mut h = PySource::new(Source::from_failing_pcm(vec![1u8; 10], "bad frame".to_string()));
    p.attach(&mut h).unwrap();
    assert!(matches!(p.pull(), Pull::Chunk(_, _)));
    match p.pull() {
        Pull::Failed(e) => {
            assert_eq!(e.kind(), ErrorKind::SourceDecodeError);
            assert_eq!(e.description(), "bad frame");
        }
        other => panic!("unexpected: {:?}", other),
    }
    assert!(!p.is_attached());
    assert!(matches!(p.pull(), Pull::Idle));
}

#[test]
fn attach_with_a_consumed_handle_changes_nothing() {
    let mut p = AudioPipeline::new();
    let mut first = PySource::new(Source::from_pcm(vec![1u8; 3840 * 3]));
    p.attach(&mut first).unwrap();
    p.pull();
    assert_eq!(p.attach(&mut first).unwrap_err().kind(), ErrorKind::ConsumedSource);
    assert!(p.is_attached());
    assert_eq!(p.in_flight(), 1);
    match p.pull() {
        Pull::Chunk(Chunk::Pcm(b), _) => assert_eq!(b, vec![1u8; 3840]),
        other => panic!("unexpected: {:?}", other),
    }
}

#[test]
fn attach_drops_what_was_playing_and_in_flight() {
    let mut p = AudioPipeline::new();
    let mut first = PySource::new(Source::from_pcm(vec![1u8; 3840 * 8]));
    let mut second = PySource::new(Source::from_pcm(vec![2u8; 3840]));
    p.attach(&mut first).unwrap();
    for _ in 0..4 {
        p.pull();
    }
    assert!(matches!(p.pull(), Pull::Busy));
    p.attach(&mut second).unwrap();
    assert_eq!(p.in_flight(), 0);
    match p.pull() {
        Pull::Chunk(Chunk::Pcm(b), _) => assert_eq!(b, vec![2u8; 3840]),
        other => panic!("unexpected: {:?}", other),
    }
    assert!(matches!(p.pull(), Pull::Finished));
}

#[test]
fn each_attach_starts_a_generation() {
    let mut p = AudioPipeline::new();
    assert_eq!(p.generation(), 0);
    let mut first = PySource::new(Source::from_pcm(vec![1u8; 3840 * 2]));
    let mut second = PySource::new(Source::from_pcm(vec![2u8; 3840]));
    p.attach(&mut first).unwrap();
    assert_eq!(p.generation(), 1);
    match p.pull() {
        Pull::Chunk(_, g) => assert_eq!(g, 1),
        other => panic!("unexpected: {:?}", other),
    }
    assert!(p.attach(&mut first).is_err());
    assert_eq!(p.generation(), 1);
    p.attach(&mut second).unwrap();
    assert_eq!(p.generation(), 2);
    match p.pull() {
        Pull::Chunk(_, g) => assert_eq!(g, 2),
        other => panic!("unexpected: {:?}", other),
    }
    p.detach();
    assert_eq!(p.generation(), 3);
    p.detach();
    assert_eq!(p.generation(), 3);
}

#[test]
fn detach_empties_the_pipeline() {
    let mut p = AudioPipeline::new();
    let mut h = PySource::new(Source::from_pcm(vec![1u8; 3840 * 3]));
    p.attach(&mut h).unwrap();
    p.pull();
    p.detach();
    assert!(!p.is_attached());
    assert_eq!(p.in_flight(), 0);
}
