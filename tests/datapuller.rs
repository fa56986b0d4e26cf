use beatsaber_telemetry::common::Rank;
use beatsaber_telemetry::error::DecodeError;
use beatsaber_telemetry::livedata::{
    decode_live_data, encode_live_data, BlockHitScore, ColorType, LiveData, LiveDataEventTrigger,
    NoteCutDirection,
};
use beatsaber_telemetry::mapdata::{
    decode_color_scheme, decode_map_data, decode_rgba_color, default_hex_code, encode_map_data,
    ColorScheme, MapData, Modifiers, PracticeModeModifiers, RGBAColor, RankedState,
};
use beatsaber_telemetry::value::{Number, Value};

fn obj(entries: Vec<(&str, Value)>) -> Value {
    Value::Object(entries.into_iter().map(|(k, v)| (k.to_string(), v)).collect())
}

fn num(n: i64) -> Value {
    if n >= 0 {
        Value::Number(Number::PosInt(n as u64))
    } else {
        Value::Number(Number::NegInt(n))
    }
}

fn float(x: f64) -> Value {
    Value::Number(Number::Float(x.to_bits()))
}

fn text(s: &str) -> Value {
    Value::Str(s.to_string())
}

fn live_entries(color: Value, cut: Value, trigger: Value) -> Vec<(&'static str, Value)> {
    vec![
        ("Score", num(1234)),
        ("ScoreWithMultipliers", num(1100)),
        ("MaxScore", num(1500)),
        ("MaxScoreWithMultipliers", num(1400)),
        ("Rank", text("A")),
        ("FullCombo", Value::Bool(true)),
        ("NotesSpawned", num(42)),
        ("Combo", num(17)),
        ("Misses", num(0)),
        ("Accuracy", float(93.5)),
        ("BlockHitScore", obj(vec![("PreSwing", num(70)), ("PostSwing", num(30)), ("CenterSwing", num(15))])),
        ("PlayerHealth", float(80.0)),
        ("ColorType", color),
        ("CutDirection", cut),
        ("TimeElapsed", num(61)),
        ("EventTrigger", trigger),
    ]
}

fn with_field(mut entries: Vec<(&'static str, Value)>, key: &str, v: Value) -> Value {
    for e in entries.iter_mut() {
        if e.0 == key {
            e.1 = v;
            return obj(entries);
        }
    }
    panic!("no such field")
}

#[test]
fn live_data_decodes_every_field() {
    let d = decode_live_data(&obj(live_entries(num(-1), num(9), num(4)))).unwrap();
    assert_eq!(d.score, 1234);
    assert_eq!(d.score_with_multipliers, 1100);
    assert_eq!(d.max_score, 1500);
    assert_eq!(d.max_score_with_multipliers, 1400);
    assert_eq!(d.rank, Rank::A);
    assert!(d.full_combo);
    assert_eq!(d.notes_spawned, 42);
    assert_eq!(d.combo, 17);
    assert_eq!(d.misses, 0);
    assert_eq!(d.accuracy, Number::Float(93.5f64.to_bits()));
    assert_eq!(d.block_hit_score, BlockHitScore { pre_swing: 70, post_swing: 30, center_swing: 15 });
    assert_eq!(d.player_health, Number::Float(80.0f64.to_bits()));
    assert_eq!(d.color_type, ColorType::NoColor);
    assert_eq!(d.cut_direction, NoteCutDirection::NoDirection);
    assert_eq!(d.time_elapsed, 61);
    assert_eq!(d.event_trigger, LiveDataEventTrigger::ScoreChange);
}

#[test]
fn live_data_color_out_of_table_is_refused() {
    let r = decode_live_data(&obj(live_entries(num(42), num(0), num(0))));
    assert_eq!(r, Err(DecodeError::EnumOutOfRange));
}

#[test]
fn live_data_direction_out_of_table_is_refused() {
    let r = decode_live_data(&obj(live_entries(num(0), num(42), num(0))));
    assert_eq!(r, Err(DecodeError::EnumOutOfRange));
    let r = decode_live_data(&obj(live_entries(num(0), num(-2), num(0))));
    assert_eq!(r, Err(DecodeError::EnumOutOfRange));
}

#[test]
fn live_data_trigger_out_of_table_is_refused() {
    let r = decode_live_data(&obj(live_entries(num(1), num(3), num(5))));
    assert_eq!(r, Err(DecodeError::EnumOutOfRange));
}

#[test]
fn live_data_huge_ordinal_is_refused() {
    let v = obj(live_entries(Value::Number(Number::PosInt(u64::MAX)), num(0), num(0)));
    assert_eq!(decode_live_data(&v), Err(DecodeError::EnumOutOfRange));
}

#[test]
fn live_data_float_ordinal_is_a_type_mismatch() {
    let v = obj(live_entries(float(1.0), num(0), num(0)));
    assert_eq!(decode_live_data(&v), Err(DecodeError::TypeMismatch));
}

#[test]
fn live_data_missing_field_is_reported() {
    let mut entries = live_entries(num(0), num(0), num(0));
    entries.retain(|e| e.0 != "Combo");
    assert_eq!(decode_live_data(&obj(entries)), Err(DecodeError::MissingRequiredField));
}

#[test]
fn live_data_unknown_rank_is_out_of_range() {
    let v = with_field(live_entries(num(0), num(0), num(0)), "Rank", text("S"));
    assert_eq!(decode_live_data(&v), Err(DecodeError::EnumOutOfRange));
}

#[test]
fn live_data_wrong_shapes_are_type_mismatches() {
    let v = with_field(live_entries(num(0), num(0), num(0)), "FullCombo", num(1));
    assert_eq!(decode_live_data(&v), Err(DecodeError::TypeMismatch));
    let v = with_field(live_entries(num(0), num(0), num(0)), "Accuracy", text("93"));
    assert_eq!(decode_live_data(&v), Err(DecodeError::TypeMismatch));
    let hit = obj(vec![("PreSwing", num(256)), ("PostSwing", num(0)), ("CenterSwing", num(0))]);
    let v = with_field(live_entries(num(0), num(0), num(0)), "BlockHitScore", hit);
    assert_eq!(decode_live_data(&v), Err(DecodeError::TypeMismatch));
    let v = with_field(live_entries(num(0), num(0), num(0)), "TimeElapsed", num(-1));
    assert_eq!(decode_live_data(&v), Err(DecodeError::TypeMismatch));
    assert_eq!(decode_live_data(&Value::Null), Err(DecodeError::TypeMismatch));
}

#[test]
fn live_data_round_trips() {
    let d = LiveData {
        score: -5,
        score_with_multipliers: 7,
        max_score: i64::MAX,
        max_score_with_multipliers: i64::MIN,
        rank: Rank::E,
        full_combo: false,
        notes_spawned: 3,
        combo: 2,
        misses: 1,
        accuracy: Number::Float(12.25f64.to_bits()),
        block_hit_score: BlockHitScore { pre_swing: 1, post_swing: 2, center_swing: 3 },
        player_health: Number::PosInt(100),
        color_type: ColorType::ColorB,
        cut_direction: NoteCutDirection::DownRight,
        time_elapsed: 9,
        event_trigger: LiveDataEventTrigger::EnergyChange,
    };
    assert_eq!(decode_live_data(&encode_live_data(&d)), Ok(d));
}

#[test]
fn ordinal_tables_match_the_wire() {
    assert_eq!(ColorType::from_ordinal(-1), Some(ColorType::NoColor));
    assert_eq!(ColorType::from_ordinal(0), Some(ColorType::ColorA));
    assert_eq!(ColorType::from_ordinal(1), Some(ColorType::ColorB));
    assert_eq!(ColorType::from_ordinal(2), None);
    assert_eq!(NoteCutDirection::from_ordinal(0), Some(NoteCutDirection::Up));
    assert_eq!(NoteCutDirection::from_ordinal(7), Some(NoteCutDirection::DownRight));
    assert_eq!(NoteCutDirection::from_ordinal(8), Some(NoteCutDirection::Any));
    assert_eq!(NoteCutDirection::from_ordinal(9), Some(NoteCutDirection::NoDirection));
    assert_eq!(NoteCutDirection::from_ordinal(10), None);
    assert_eq!(LiveDataEventTrigger::from_ordinal(0), Some(LiveDataEventTrigger::Unknown));
    assert_eq!(LiveDataEventTrigger::from_ordinal(2), Some(LiveDataEventTrigger::NoteMissed));
    assert_eq!(LiveDataEventTrigger::from_ordinal(-1), None);
    assert_eq!(NoteCutDirection::UpLeft.ordinal(), 4);
    assert_eq!(ColorType::NoColor.ordinal(), -1);
    assert_eq!(LiveDataEventTrigger::TimerElapsed.ordinal(), 1);
}

#[test]
fn defaults_follow_the_model() {
    assert_eq!(Rank::default(), Rank::SSS);
    assert_eq!(ColorType::default(), ColorType::NoColor);
    assert_eq!(NoteCutDirection::default(), NoteCutDirection::NoDirection);
    assert_eq!(LiveDataEventTrigger::default(), LiveDataEventTrigger::Unknown);
    assert_eq!(RGBAColor::default().hex_code, "#000000");
    assert_eq!(default_hex_code(), "#000000");
}

#[test]
fn ranks_are_ordered_from_best() {
    assert!(Rank::SSS.is_better_than(&Rank::SS));
    assert!(Rank::A.is_better_than(&Rank::E));
    assert!(!Rank::E.is_better_than(&Rank::D));
    assert!(!Rank::B.is_better_than(&Rank::B));
    assert_eq!(Rank::SSS.position(), 0);
    assert_eq!(Rank::E.position(), 6);
    assert_eq!(Rank::C.label(), "C");
}

fn color(hex: Option<&str>) -> Vec<(&'static str, Value)> {
    let mut e = vec![("Red", num(255)), ("Green", num(128)), ("Blue", num(0)), ("Alpha", float(0.5))];
    if let Some(h) = hex {
        e.insert(0, ("HexCode", text(h)));
    }
    e
}

#[test]
fn color_without_hex_code_is_black() {
    let c = decode_rgba_color(&obj(color(None))).unwrap();
    assert_eq!(c.hex_code, "#000000");
    assert_eq!((c.red, c.green, c.blue), (255, 128, 0));
    assert_eq!(c.alpha, Number::Float(0.5f64.to_bits()));
}

#[test]
fn color_keeps_its_hex_code() {
    let c = decode_rgba_color(&obj(color(Some("#ff8000")))).unwrap();
    assert_eq!(c.hex_code, "#ff8000");
}

#[test]
fn color_components_are_required() {
    for missing in ["Red", "Green", "Blue", "Alpha"] {
        let mut e = color(Some("#ffffff"));
        e.retain(|f| f.0 != missing);
        assert_eq!(decode_rgba_color(&obj(e)), Err(DecodeError::MissingRequiredField));
    }
    let mut e = color(None);
    e.retain(|f| f.0 != "Alpha");
    assert_eq!(decode_rgba_color(&obj(e)), Err(DecodeError::MissingRequiredField));
}

#[test]
fn color_scheme_fields_are_optional() {
    let s = decode_color_scheme(&obj(vec![("SaberAColor", obj(color(None))), ("ObstaclesColor", Value::Null)]))
        .unwrap();
    assert_eq!(s.saber_a_color.unwrap().hex_code, "#000000");
    assert_eq!(s.saber_b_color, None);
    assert_eq!(s.obstacles_color, None);
    assert_eq!(s.environment_color1_boost, None);
    assert_eq!(decode_color_scheme(&obj(vec![])).unwrap(), ColorScheme::default());
}

fn sample_map() -> MapData {
    MapData {
        level_paused: false,
        level_finished: true,
        level_failed: false,
        level_quit: false,
        hash: Some("ABCDEF".to_string()),
        level_id: None,
        song_name: "Song".to_string(),
        song_sub_name: "Sub".to_string(),
        song_author: "Author".to_string(),
        mapper: "M1, L1".to_string(),
        mappers: vec!["M1".to_string()],
        lighters: vec!["L1".to_string(), "L2".to_string()],
        content_rating: "".to_string(),
        bsr_key: Some("1a2b".to_string()),
        cover_image: None,
        duration: 200,
        map_type: "Standard".to_string(),
        difficulty: "ExpertPlus".to_string(),
        custom_difficulty_label: None,
        bpm: 128,
        njs: Number::Float(18.5f64.to_bits()),
        modifiers: Modifiers { no_fail_on_0_energy: true, faster_song: true, ..Modifiers::default() },
        modifiers_multiplier: Number::Float(1.08f64.to_bits()),
        practice_mode: true,
        practice_mode_modifiers: PracticeModeModifiers {
            song_speed_mul: Number::PosInt(1),
            start_in_advance_and_clear_notes: true,
            song_start_time: Number::Float(12.0f64.to_bits()),
        },
        pp: Number::PosInt(0),
        star: Number::Float(7.25f64.to_bits()),
        ranked_state: RankedState { ranked: true, scoresaber_ranked: true, ..RankedState::default() },
        rating: Number::PosInt(95),
        color_scheme: ColorScheme {
            saber_a_color: Some(RGBAColor {
                hex_code: "#123456".to_string(),
                red: 18,
                green: 52,
                blue: 86,
                alpha: Number::PosInt(1),
            }),
            ..ColorScheme::default()
        },
        game_version: "1.29.1".to_string(),
        plugin_version: "2.1.0".to_string(),
        is_multiplayer: false,
        previous_record: 0,
        previous_bsr: None,
    }
}

#[test]
fn map_data_round_trips() {
    let m = sample_map();
    assert_eq!(decode_map_data(&encode_map_data(&m)), Ok(m));
}

fn without(v: Value, key: &str) -> Value {
    match v {
        Value::Object(mut o) => {
            o.retain(|e| e.0 != key);
            Value::Object(o)
        },
        other => other,
    }
}

#[test]
fn map_data_optional_fields_read_as_absent() {
    let mut v = encode_map_data(&sample_map());
    for k in ["Hash", "LevelId", "BsrKey", "CoverImage", "CustomDifficultyLabel", "PreviousBsr"] {
        v = without(v, k);
    }
    let m = decode_map_data(&v).unwrap();
    assert_eq!(m.hash, None);
    assert_eq!(m.bsr_key, None);
    assert_eq!(m.previous_bsr, None);
    assert_eq!(m.song_name, "Song");
}

#[test]
fn map_data_replayed_keeps_previous_key_absent() {
    let v = without(encode_map_data(&sample_map()), "PreviousBsr");
    let first = decode_map_data(&v).unwrap();
    let second = decode_map_data(&v).unwrap();
    assert_eq!(first.song_name, second.song_name);
    assert_eq!(first.previous_bsr, None);
    assert_eq!(second.previous_bsr, None);
}

#[test]
fn map_data_required_fields_are_reported() {
    let v = without(encode_map_data(&sample_map()), "ColorScheme");
    assert_eq!(decode_map_data(&v), Err(DecodeError::MissingRequiredField));
    let v = without(encode_map_data(&sample_map()), "SongName");
    assert_eq!(decode_map_data(&v), Err(DecodeError::MissingRequiredField));
}

#[test]
fn map_data_mappers_must_be_strings() {
    let v = match encode_map_data(&sample_map()) {
        Value::Object(mut o) => {
            for e in o.iter_mut() {
                if e.0 == "Mappers" {
                    e.1 = Value::Array(vec![text("a"), num(1)]);
                }
            }
            Value::Object(o)
        },
        other => other,
    };
    assert_eq!(decode_map_data(&v), Err(DecodeError::TypeMismatch));
}
