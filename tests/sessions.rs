use beatsaber_telemetry::beatsaberplus::{
    decode_map_info, decode_message, encode_message, BSPlusEvent, BSPlusMessage, BSPlusSession,
    MapInfo, ScoreEvent, SessionState,
};
use beatsaber_telemetry::dispatch::{dispatch, decode, protocol_from_name, CanonicalEvent, DispatchError, Protocol};
use beatsaber_telemetry::error::DecodeError;
use beatsaber_telemetry::httpsirastatus::{decode_envelope, encode_envelope, Event, SiraEventType};
use beatsaber_telemetry::value::{Number, Value};

fn obj(entries: Vec<(&str, Value)>) -> Value {
    Value::Object(entries.into_iter().map(|(k, v)| (k.to_string(), v)).collect())
}

fn num(n: u64) -> Value {
    Value::Number(Number::PosInt(n))
}

fn float(x: f64) -> Value {
    Value::Number(Number::Float(x.to_bits()))
}

fn text(s: &str) -> Value {
    Value::Str(s.to_string())
}

fn handshake() -> Value {
    obj(vec![("_type", text("handshake")), ("protocolVersion", num(1))])
}

fn score_message() -> Value {
    obj(vec![
        ("_type", text("event")),
        ("_event", text("score")),
        (
            "scoreEvent",
            obj(vec![
                ("time", float(12.5)),
                ("score", num(45000)),
                ("accuracy", float(0.9731)),
                ("combo", num(88)),
                ("missCount", num(3)),
                ("currentHealth", float(0.75)),
            ]),
        ),
    ])
}

#[test]
fn handshake_then_score_is_accepted() {
    let mut s = BSPlusSession::new();
    assert_eq!(s.receive(&handshake()), Ok(BSPlusMessage::Handshake(1)));
    assert_eq!(s.state, SessionState::Active);
    match s.receive(&score_message()) {
        Ok(BSPlusMessage::Event(BSPlusEvent::Score(e))) => {
            assert_eq!(e.accuracy, Number::Float(0.9731f64.to_bits()));
            assert_eq!(e.combo, 88);
            assert_eq!(e.miss_count, 3);
            assert_eq!(e.score, 45000);
            assert_eq!(e.time, Number::Float(12.5f64.to_bits()));
            assert_eq!(e.current_health, Number::Float(0.75f64.to_bits()));
        },
        other => panic!("unexpected {:?}", other),
    }
    assert_eq!(s.state, SessionState::Active);
}

#[test]
fn score_before_handshake_is_refused() {
    let mut s = BSPlusSession::new();
    assert_eq!(s.receive(&score_message()), Err(DecodeError::PreconditionViolated));
    assert_eq!(s.state, SessionState::AwaitingHandshake);
}

#[test]
fn bad_handshake_keeps_the_session_waiting() {
    let mut s = BSPlusSession::new();
    let bad = obj(vec![("_type", text("handshake"))]);
    assert_eq!(s.receive(&bad), Err(DecodeError::MissingRequiredField));
    assert_eq!(s.state, SessionState::AwaitingHandshake);
    assert_eq!(s.receive(&score_message()), Err(DecodeError::PreconditionViolated));
}

#[test]
fn unknown_tags_are_refused() {
    let v = obj(vec![("_type", text("hello"))]);
    assert_eq!(decode_message(&v), Err(DecodeError::UnknownTag));
    let v = obj(vec![("_type", text("event")), ("_event", text("noteCut"))]);
    assert_eq!(decode_message(&v), Err(DecodeError::UnknownTag));
    let v = obj(vec![("_type", num(3))]);
    assert_eq!(decode_message(&v), Err(DecodeError::TypeMismatch));
    assert_eq!(decode_message(&obj(vec![])), Err(DecodeError::MissingRequiredField));
}

#[test]
fn handshake_version_must_fit() {
    let v = obj(vec![("_type", text("handshake")), ("protocolVersion", num(1u64 << 40))]);
    assert_eq!(decode_message(&v), Err(DecodeError::TypeMismatch));
}

#[test]
fn simple_events_decode() {
    let v = obj(vec![("_type", text("event")), ("_event", text("gameState")), ("gameStateChanged", text("Playing"))]);
    assert_eq!(decode_message(&v), Ok(BSPlusMessage::Event(BSPlusEvent::GameState("Playing".to_string()))));
    let v = obj(vec![("_type", text("event")), ("_event", text("pause")), ("pauseTime", float(3.5))]);
    assert_eq!(decode_message(&v), Ok(BSPlusMessage::Event(BSPlusEvent::Pause(Number::Float(3.5f64.to_bits())))));
    let v = obj(vec![("_type", text("event")), ("_event", text("resume")), ("resumeTime", num(4))]);
    assert_eq!(decode_message(&v), Ok(BSPlusMessage::Event(BSPlusEvent::Resume(Number::PosInt(4)))));
}

fn map_info() -> MapInfo {
    MapInfo {
        level_id: "custom_level_ABC".to_string(),
        name: "Song".to_string(),
        sub_name: "".to_string(),
        artist: "Artist".to_string(),
        mapper: "Mapper".to_string(),
        characteristic: "Standard".to_string(),
        difficulty: "Expert".to_string(),
        duration: 180000,
        bpm: Number::PosInt(128),
        pp: Number::Float(312.5f64.to_bits()),
        bsr_key: "1a2b".to_string(),
        cover_raw: "aGVsbG8=".to_string(),
        time: Number::PosInt(0),
        time_multiplier: Number::PosInt(1),
    }
}

#[test]
fn map_info_uses_literal_acronym_keys() {
    let v = obj(vec![
        ("levelId", text("custom_level_ABC")),
        ("name", text("Song")),
        ("subName", text("")),
        ("artist", text("Artist")),
        ("mapper", text("Mapper")),
        ("characteristic", text("Standard")),
        ("difficulty", text("Expert")),
        ("duration", num(180000)),
        ("BPM", num(128)),
        ("PP", float(312.5)),
        ("BSRKey", text("1a2b")),
        ("coverRaw", text("aGVsbG8=")),
        ("time", num(0)),
        ("timeMultiplier", num(1)),
    ]);
    assert_eq!(decode_map_info(&v), Ok(map_info()));
    let camel = match v {
        Value::Object(mut o) => {
            for e in o.iter_mut() {
                if e.0 == "BPM" {
                    e.0 = "bpm".to_string();
                }
            }
            Value::Object(o)
        },
        other => other,
    };
    assert_eq!(decode_map_info(&camel), Err(DecodeError::MissingRequiredField));
}

#[test]
fn messages_round_trip() {
    let msgs = vec![
        BSPlusMessage::Handshake(-7),
        BSPlusMessage::Event(BSPlusEvent::GameState("Menu".to_string())),
        BSPlusMessage::Event(BSPlusEvent::Resume(Number::PosInt(9))),
        BSPlusMessage::Event(BSPlusEvent::Pause(Number::NegInt(-1))),
        BSPlusMessage::Event(BSPlusEvent::MapInfo(map_info())),
        BSPlusMessage::Event(BSPlusEvent::Score(ScoreEvent {
            time: Number::PosInt(1),
            score: -1,
            accuracy: Number::Float(101.5f64.to_bits()),
            combo: 0,
            miss_count: u64::MAX,
            current_health: Number::PosInt(100),
        })),
    ];
    for m in msgs {
        assert_eq!(decode_message(&encode_message(&m)), Ok(m));
    }
}

#[test]
fn every_sira_tag_decodes_bare() {
    let tags = [
        "hello", "songStart", "finished", "softFailed", "failed", "menu", "pause", "resume", "noteSpawned",
        "noteCut", "noteFullyCut", "noteMissed", "bombCut", "bombMissed", "obstacleEnter", "obstacleExit",
        "scoreChanged", "beatmapEvent",
    ];
    let all = SiraEventType::all();
    assert_eq!(all.len(), 18);
    for (i, t) in tags.iter().enumerate() {
        let v = obj(vec![("time", num(1700000000000)), ("event", text(t))]);
        let e = decode_envelope(v).unwrap();
        assert_eq!(e.time, 1700000000000);
        assert_eq!(e.event, all[i]);
        assert_eq!(e.event.tag(), *t);
        assert_eq!(e.status, None);
    }
}

#[test]
fn other_sira_tags_are_unknown() {
    for t in ["Hello", "songstart", "", "noteCuts", "scoreChange"] {
        let v = obj(vec![("time", num(1)), ("event", text(t))]);
        assert_eq!(decode_envelope(v), Err(DecodeError::UnknownTag));
    }
}

#[test]
fn sira_status_passes_through() {
    let payload = obj(vec![("performance", obj(vec![("score", num(10))]))]);
    let v = obj(vec![("event", text("scoreChanged")), ("status", payload), ("time", num(5))]);
    let e = decode_envelope(v).unwrap();
    assert_eq!(e.event, SiraEventType::ScoreChanged);
    assert_eq!(e.status, Some(obj(vec![("performance", obj(vec![("score", num(10))]))])));
}

#[test]
fn sira_envelope_needs_time_and_tag() {
    assert_eq!(decode_envelope(obj(vec![("event", text("menu"))])), Err(DecodeError::MissingRequiredField));
    assert_eq!(decode_envelope(obj(vec![("time", num(1))])), Err(DecodeError::MissingRequiredField));
    assert_eq!(decode_envelope(obj(vec![("time", text("1")), ("event", text("menu"))])), Err(DecodeError::TypeMismatch));
}

#[test]
fn sira_envelope_round_trips() {
    let e = Event { time: 42, event: SiraEventType::NoteCut, status: Some(obj(vec![("noteID", num(3))])) };
    let back = decode_envelope(encode_envelope(e)).unwrap();
    assert_eq!(back, Event { time: 42, event: SiraEventType::NoteCut, status: Some(obj(vec![("noteID", num(3))])) });
    let e = Event { time: 0, event: SiraEventType::Hello, status: None };
    assert_eq!(decode_envelope(encode_envelope(e)), Ok(Event { time: 0, event: SiraEventType::Hello, status: None }));
}

#[test]
fn dispatch_routes_by_name() {
    assert_eq!(protocol_from_name(&"HttpSiraStatus".to_string()), Some(Protocol::HttpSiraStatus));
    assert_eq!(protocol_from_name(&"DataPuller.MapData".to_string()), Some(Protocol::DataPullerMapData));
    let r = dispatch(&"BeatSaberPlus".to_string(), handshake());
    assert_eq!(r, Ok(CanonicalEvent::BeatSaberPlus(BSPlusMessage::Handshake(1))));
    let r = dispatch(&"HttpSiraStatus".to_string(), obj(vec![("time", num(1)), ("event", text("menu"))]));
    assert_eq!(r, Ok(CanonicalEvent::HttpSiraStatus(Event { time: 1, event: SiraEventType::Menu, status: None })));
}

#[test]
fn dispatch_tells_unknown_protocol_from_decode_error() {
    assert_eq!(dispatch(&"Overlay".to_string(), handshake()), Err(DispatchError::UnknownProtocol));
    assert_eq!(
        dispatch(&"DataPuller.LiveData".to_string(), Value::Null),
        Err(DispatchError::Decode(DecodeError::TypeMismatch))
    );
    assert_eq!(decode(Protocol::DataPullerMapData, Value::Bool(true)), Err(DecodeError::TypeMismatch));
}
