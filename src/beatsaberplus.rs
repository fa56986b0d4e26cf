//! The BeatSaberPlus protocol: a handshake, then events tagged two levels deep.
use vstd::prelude::*;
use crate::error::DecodeError;
use crate::value::{Number, Value};
use crate::wire::{
    field_i32, field_nested, field_number, field_str, field_u64, find_field, lookup, read_i32, read_i64,
    read_number, read_str, read_u64, str_is, Fields, field_i64, encode_i64, encode_u64,
    lemma_lookup_hit, lemma_lookup_skip,
};

verus! {

/// Metadata of the map being played.
#[derive(Clone, Default, Debug, PartialEq)]
pub struct MapInfo {
    /// The level's identifier.
    pub level_id: String,
    /// The song's name.
    pub name: String,
    /// The song's sub-name.
    pub sub_name: String,
    /// The song's artist.
    pub artist: String,
    /// The map's author.
    pub mapper: String,
    /// The characteristic (Standard, OneSaber, NoArrows, 360Degree, ...).
    pub characteristic: String,
    /// The difficulty.
    pub difficulty: String,
    /// The song's duration in milliseconds.
    pub duration: u64,
    /// The song's beats per minute.
    pub bpm: Number,
    /// The performance points the map is worth.
    pub pp: Number,
    /// The map's key in the external catalog.
    pub bsr_key: String,
    /// The cover art, as an encoded blob.
    pub cover_raw: String,
    /// The playback position in seconds.
    pub time: Number,
    /// The speed factor of playback; usually 1.
    pub time_multiplier: Number,
}

/// A snapshot of the score.
#[derive(Clone, Default, Copy, Debug, PartialEq, Eq, Structural)]
pub struct ScoreEvent {
    /// The playback position in seconds.
    pub time: Number,
    /// The score; negative only as a sentinel.
    pub score: i64,
    /// The accuracy in percent, scaled by modifiers.
    pub accuracy: Number,
    /// The current combo.
    pub combo: u64,
    /// The misses and bad cuts so far.
    pub miss_count: u64,
    /// The health in percent.
    pub current_health: Number,
}

/// An event of the protocol, selected by the `_event` tag.
#[derive(Clone, Debug, PartialEq)]
pub enum BSPlusEvent {
    /// `gameState`: the new game state.
    GameState(String),
    /// `resume`: the time of resumption.
    Resume(Number),
    /// `pause`: the time of pausing.
    Pause(Number),
    /// `mapInfo`: the map now being played.
    MapInfo(MapInfo),
    /// `score`: a new score.
    Score(ScoreEvent),
}

/// A message of the protocol, selected by the `_type` tag.
#[derive(Clone, Debug, PartialEq)]
pub enum BSPlusMessage {
    /// `handshake`: the protocol version of the sender.
    Handshake(i32),
    /// `event`: one event.
    Event(BSPlusEvent),
}

/// The decoding of a `MapInfo` object.
pub open spec fn map_info_of(v: Value) -> Result<MapInfo, DecodeError> {
    match v {
        Value::Object(o) => {
            let level_id = field_str(lookup(o@, "levelId"@));
            let name = field_str(lookup(o@, "name"@));
            let sub_name = field_str(lookup(o@, "subName"@));
            let artist = field_str(lookup(o@, "artist"@));
            let mapper = field_str(lookup(o@, "mapper"@));
            let characteristic = field_str(lookup(o@, "characteristic"@));
            let difficulty = field_str(lookup(o@, "difficulty"@));
            let duration = field_u64(lookup(o@, "duration"@));
            let bpm = field_number(lookup(o@, "BPM"@));
            let pp = field_number(lookup(o@, "PP"@));
            let bsr_key = field_str(lookup(o@, "BSRKey"@));
            let cover_raw = field_str(lookup(o@, "coverRaw"@));
            let time = field_number(lookup(o@, "time"@));
            let time_multiplier = field_number(lookup(o@, "timeMultiplier"@));
            if level_id is Err {
                Err(level_id->Err_0)
            } else if name is Err {
                Err(name->Err_0)
            } else if sub_name is Err {
                Err(sub_name->Err_0)
            } else if artist is Err {
                Err(artist->Err_0)
            } else if mapper is Err {
                Err(mapper->Err_0)
            } else if characteristic is Err {
                Err(characteristic->Err_0)
            } else if difficulty is Err {
                Err(difficulty->Err_0)
            } else if duration is Err {
                Err(duration->Err_0)
            } else if bpm is Err {
                Err(bpm->Err_0)
            } else if pp is Err {
                Err(pp->Err_0)
            } else if bsr_key is Err {
                Err(bsr_key->Err_0)
            } else if cover_raw is Err {
                Err(cover_raw->Err_0)
            } else if time is Err {
                Err(time->Err_0)
            } else if time_multiplier is Err {
                Err(time_multiplier->Err_0)
            } else {
                Ok(MapInfo {
                    level_id: level_id->Ok_0,
                    name: name->Ok_0,
                    sub_name: sub_name->Ok_0,
                    artist: artist->Ok_0,
                    mapper: mapper->Ok_0,
                    characteristic: characteristic->Ok_0,
                    difficulty: difficulty->Ok_0,
                    duration: duration->Ok_0,
                    bpm: bpm->Ok_0,
                    pp: pp->Ok_0,
                    bsr_key: bsr_key->Ok_0,
                    cover_raw: cover_raw->Ok_0,
                    time: time->Ok_0,
                    time_multiplier: time_multiplier->Ok_0,
                })
            }
        },
        _ => Err(DecodeError::TypeMismatch),
    }
}

/// The decoding of a `ScoreEvent` object.
pub open spec fn score_event_of(v: Value) -> Result<ScoreEvent, DecodeError> {
    match v {
        Value::Object(o) => {
            let time = field_number(lookup(o@, "time"@));
            let score = field_i64(lookup(o@, "score"@));
            let accuracy = field_number(lookup(o@, "accuracy"@));
            let combo = field_u64(lookup(o@, "combo"@));
            let miss_count = field_u64(lookup(o@, "missCount"@));
            let current_health = field_number(lookup(o@, "currentHealth"@));
            if time is Err {
                Err(time->Err_0)
            } else if score is Err {
                Err(score->Err_0)
            } else if accuracy is Err {
                Err(accuracy->Err_0)
            } else if combo is Err {
                Err(combo->Err_0)
            } else if miss_count is Err {
                Err(miss_count->Err_0)
            } else if current_health is Err {
                Err(current_health->Err_0)
            } else {
                Ok(ScoreEvent {
                    time: time->Ok_0,
                    score: score->Ok_0,
                    accuracy: accuracy->Ok_0,
                    combo: combo->Ok_0,
                    miss_count: miss_count->Ok_0,
                    current_health: current_health->Ok_0,
                })
            }
        },
        _ => Err(DecodeError::TypeMismatch),
    }
}

/// The decoding of the payload of an event-typed message, by its `_event` tag.
pub open spec fn bsplus_event_of(o: Seq<(String, Value)>) -> Result<BSPlusEvent, DecodeError> {
    match field_str(lookup(o, "_event"@)) {
        Err(e) => Err(e),
        Ok(tag) => if tag@ == "gameState"@ {
            match field_str(lookup(o, "gameStateChanged"@)) {
                Ok(s) => Ok(BSPlusEvent::GameState(s)),
                Err(e) => Err(e),
            }
        } else if tag@ == "resume"@ {
            match field_number(lookup(o, "resumeTime"@)) {
                Ok(t) => Ok(BSPlusEvent::Resume(t)),
                Err(e) => Err(e),
            }
        } else if tag@ == "pause"@ {
            match field_number(lookup(o, "pauseTime"@)) {
                Ok(t) => Ok(BSPlusEvent::Pause(t)),
                Err(e) => Err(e),
            }
        } else if tag@ == "mapInfo"@ {
            match field_nested(lookup(o, "mapInfoChanged"@), |v: Value| map_info_of(v)) {
                Ok(m) => Ok(BSPlusEvent::MapInfo(m)),
                Err(e) => Err(e),
            }
        } else if tag@ == "score"@ {
            match field_nested(lookup(o, "scoreEvent"@), |v: Value| score_event_of(v)) {
                Ok(s) => Ok(BSPlusEvent::Score(s)),
                Err(e) => Err(e),
            }
        } else {
            Err(DecodeError::UnknownTag)
        },
    }
}

/// The decoding of a message, by its `_type` tag.
pub open spec fn bsplus_message_of(v: Value) -> Result<BSPlusMessage, DecodeError> {
    match v {
        Value::Object(o) => match field_str(lookup(o@, "_type"@)) {
            Err(e) => Err(e),
            Ok(tag) => if tag@ == "handshake"@ {
                match field_i32(lookup(o@, "protocolVersion"@)) {
                    Ok(n) => Ok(BSPlusMessage::Handshake(n)),
                    Err(e) => Err(e),
                }
            } else if tag@ == "event"@ {
                match bsplus_event_of(o@) {
                    Ok(e) => Ok(BSPlusMessage::Event(e)),
                    Err(e) => Err(e),
                }
            } else {
                Err(DecodeError::UnknownTag)
            },
        },
        _ => Err(DecodeError::TypeMismatch),
    }
}

/// Decodes a `MapInfo` object. Every field is required.
pub fn decode_map_info(v: &Value) -> (r: Result<MapInfo, DecodeError>)
    ensures
        r == map_info_of(*v),
{
    match v {
        Value::Object(o) => {
            let level_id = read_str(o, "levelId")?;
            let name = read_str(o, "name")?;
            let sub_name = read_str(o, "subName")?;
            let artist = read_str(o, "artist")?;
            let mapper = read_str(o, "mapper")?;
            let characteristic = read_str(o, "characteristic")?;
            let difficulty = read_str(o, "difficulty")?;
            let duration = read_u64(o, "duration")?;
            let bpm = read_number(o, "BPM")?;
            let pp = read_number(o, "PP")?;
            let bsr_key = read_str(o, "BSRKey")?;
            let cover_raw = read_str(o, "coverRaw")?;
            let time = read_number(o, "time")?;
            let time_multiplier = read_number(o, "timeMultiplier")?;
            Ok(MapInfo {
                level_id,
                name,
                sub_name,
                artist,
                mapper,
                characteristic,
                difficulty,
                duration,
                bpm,
                pp,
                bsr_key,
                cover_raw,
                time,
                time_multiplier,
            })
        },
        _ => Err(DecodeError::TypeMismatch),
    }
}

/// Decodes a `ScoreEvent` object. Every field is required.
pub fn decode_score_event(v: &Value) -> (r: Result<ScoreEvent, DecodeError>)
    ensures
        r == score_event_of(*v),
{
    match v {
        Value::Object(o) => {
            let time = read_number(o, "time")?;
            let score = read_i64(o, "score")?;
            let accuracy = read_number(o, "accuracy")?;
            let combo = read_u64(o, "combo")?;
            let miss_count = read_u64(o, "missCount")?;
            let current_health = read_number(o, "currentHealth")?;
            Ok(ScoreEvent { time, score, accuracy, combo, miss_count, current_health })
        },
        _ => Err(DecodeError::TypeMismatch),
    }
}

fn decode_event(o: &Fields) -> (r: Result<BSPlusEvent, DecodeError>)
    ensures
        r == bsplus_event_of(o@),
{
    let tag = read_str(o, "_event")?;
    if str_is(&tag, "gameState") {
        Ok(BSPlusEvent::GameState(read_str(o, "gameStateChanged")?))
    } else if str_is(&tag, "resume") {
        Ok(BSPlusEvent::Resume(read_number(o, "resumeTime")?))
    } else if str_is(&tag, "pause") {
        Ok(BSPlusEvent::Pause(read_number(o, "pauseTime")?))
    } else if str_is(&tag, "mapInfo") {
        match find_field(o, "mapInfoChanged") {
            Some(i) => Ok(BSPlusEvent::MapInfo(decode_map_info(&o[i].1)?)),
            None => Err(DecodeError::MissingRequiredField),
        }
    } else if str_is(&tag, "score") {
        match find_field(o, "scoreEvent") {
            Some(i) => Ok(BSPlusEvent::Score(decode_score_event(&o[i].1)?)),
            None => Err(DecodeError::MissingRequiredField),
        }
    } else {
        Err(DecodeError::UnknownTag)
    }
}

/// Decodes one message, statelessly: a handshake or an event. Whether an event
/// may come yet is the session's concern (see `BSPlusSession`).
pub fn decode_message(v: &Value) -> (r: Result<BSPlusMessage, DecodeError>)
    ensures
        r == bsplus_message_of(*v),
{
    match v {
        Value::Object(o) => {
            let tag = read_str(o, "_type")?;
            if str_is(&tag, "handshake") {
                Ok(BSPlusMessage::Handshake(read_i32(o, "protocolVersion")?))
            } else if str_is(&tag, "event") {
                Ok(BSPlusMessage::Event(decode_event(o)?))
            } else {
                Err(DecodeError::UnknownTag)
            }
        },
        _ => Err(DecodeError::TypeMismatch),
    }
}

/// Where a session stands: events are accepted only once it is `Active`.
#[derive(Clone, Copy, Debug, PartialEq, Eq, Structural)]
pub enum SessionState {
    AwaitingHandshake,
    Active,
}

/// One connection's handshake state, on top of the stateless decoder.
#[derive(Clone, Copy, Debug, PartialEq, Eq, Structural)]
pub struct BSPlusSession {
    pub state: SessionState,
}

/// The state after a session in `s` receives `v`, and what it answers.
/// A failed decode leaves the state as it was; a handshake makes the session
/// active for good; an event before any handshake is refused.
pub open spec fn session_step(s: SessionState, v: Value) -> (SessionState, Result<BSPlusMessage, DecodeError>) {
    match bsplus_message_of(v) {
        Err(e) => (s, Err(e)),
        Ok(BSPlusMessage::Handshake(n)) => (SessionState::Active, Ok(BSPlusMessage::Handshake(n))),
        Ok(m) => if s == SessionState::Active {
            (s, Ok(m))
        } else {
            (s, Err(DecodeError::PreconditionViolated))
        },
    }
}

impl BSPlusSession {
    /// A session that has not yet seen a handshake.
    pub fn new() -> (r: BSPlusSession)
        ensures
            r.state == SessionState::AwaitingHandshake,
    {
        BSPlusSession { state: SessionState::AwaitingHandshake }
    }

    /// Decodes a message received on this session, refusing events that come
    /// before a handshake.
    pub fn receive(&mut self, v: &Value) -> (r: Result<BSPlusMessage, DecodeError>)
        ensures
            (final(self).state, r) == session_step(old(self).state, *v),
    {
        let m = decode_message(v)?;
        match m {
            BSPlusMessage::Handshake(n) => {
                self.state = SessionState::Active;
                Ok(BSPlusMessage::Handshake(n))
            },
            BSPlusMessage::Event(e) => {
                if self.state == SessionState::Active {
                    Ok(BSPlusMessage::Event(e))
                } else {
                    Err(DecodeError::PreconditionViolated)
                }
            },
        }
    }
}

/// The length and first letter of every tag.
proof fn lemma_tag_letters()
    ensures
        "handshake"@.len() == 9,
        "handshake"@[0] == 'h',
        "event"@.len() == 5,
        "event"@[0] == 'e',
        "gameState"@.len() == 9,
        "gameState"@[0] == 'g',
        "resume"@.len() == 6,
        "resume"@[0] == 'r',
        "pause"@.len() == 5,
        "pause"@[0] == 'p',
        "mapInfo"@.len() == 7,
        "mapInfo"@[0] == 'm',
        "score"@.len() == 5,
        "score"@[0] == 's',
{
    reveal_strlit("handshake");
    reveal_strlit("event");
    reveal_strlit("gameState");
    reveal_strlit("resume");
    reveal_strlit("pause");
    reveal_strlit("mapInfo");
    reveal_strlit("score");
}

/// Whether field `key` of `o` is the string `lit`.
pub open spec fn str_field_is(o: Seq<(String, Value)>, key: Seq<char>, lit: Seq<char>) -> bool {
    match lookup(o, key) {
        Some(Value::Str(s)) => s@ == lit,
        _ => false,
    }
}

/// Whether `v` is a score event carrying `payload`.
pub open spec fn is_score_message(v: Value, payload: Value) -> bool {
    match v {
        Value::Object(o) => {
            &&& str_field_is(o@, "_type"@, "event"@)
            &&& str_field_is(o@, "_event"@, "score"@)
            &&& lookup(o@, "scoreEvent"@) == Some(payload)
        },
        _ => false,
    }
}

/// Before any handshake, a session refuses every event and stays where it was.
pub proof fn lemma_event_before_handshake_refused(v: Value)
    requires
        bsplus_message_of(v) is Ok,
        bsplus_message_of(v)->Ok_0 is Event,
    ensures
        session_step(SessionState::AwaitingHandshake, v) == (
            SessionState::AwaitingHandshake,
            Err::<BSPlusMessage, DecodeError>(DecodeError::PreconditionViolated),
        ),
{
}

/// A score message with a well-formed payload is refused before a handshake.
pub proof fn lemma_score_before_handshake_refused(v: Value, payload: Value)
    requires
        is_score_message(v, payload),
        score_event_of(payload) is Ok,
    ensures
        session_step(SessionState::AwaitingHandshake, v).1 == Err::<BSPlusMessage, DecodeError>(
            DecodeError::PreconditionViolated,
        ),
{
    lemma_score_message_decodes(v, payload);
}

/// A score message decodes to the score event of its payload.
pub proof fn lemma_score_message_decodes(v: Value, payload: Value)
    requires
        is_score_message(v, payload),
        score_event_of(payload) is Ok,
    ensures
        bsplus_message_of(v) == Ok::<BSPlusMessage, DecodeError>(
            BSPlusMessage::Event(BSPlusEvent::Score(score_event_of(payload)->Ok_0)),
        ),
{
    lemma_tag_letters();
}

/// After a handshake, a session accepts a score message with a well-formed
/// payload, and the accuracy, combo and miss count are those on the wire.
pub proof fn lemma_handshake_then_score(h: Value, v: Value, payload: Value)
    requires
        bsplus_message_of(h) is Ok,
        bsplus_message_of(h)->Ok_0 is Handshake,
        is_score_message(v, payload),
        score_event_of(payload) is Ok,
    ensures
        ({
            let (s1, r1) = session_step(SessionState::AwaitingHandshake, h);
            let (s2, r2) = session_step(s1, v);
            &&& s1 == SessionState::Active
            &&& r1 == bsplus_message_of(h)
            &&& s2 == SessionState::Active
            &&& r2 is Ok
            &&& r2->Ok_0 is Event
            &&& r2->Ok_0->Event_0 is Score
            &&& payload is Object
            &&& field_number(lookup(payload->Object_0@, "accuracy"@)) == Ok::<Number, DecodeError>(
                r2->Ok_0->Event_0->Score_0.accuracy,
            )
            &&& field_u64(lookup(payload->Object_0@, "combo"@)) == Ok::<u64, DecodeError>(
                r2->Ok_0->Event_0->Score_0.combo,
            )
            &&& field_u64(lookup(payload->Object_0@, "missCount"@)) == Ok::<u64, DecodeError>(
                r2->Ok_0->Event_0->Score_0.miss_count,
            )
        }),
{
    lemma_score_message_decodes(v, payload);
}

/// The length of every key of the object, and the letters that tell keys of
/// equal length apart.
proof fn lemma_score_event_keys()
    ensures
        "time"@.len() == 4,
        "score"@.len() == 5,
        "score"@[0] == 's',
        "accuracy"@.len() == 8,
        "combo"@.len() == 5,
        "combo"@[0] == 'c',
        "missCount"@.len() == 9,
        "currentHealth"@.len() == 13,
{
    reveal_strlit("time");
    reveal_strlit("score");
    reveal_strlit("accuracy");
    reveal_strlit("combo");
    reveal_strlit("missCount");
    reveal_strlit("currentHealth");
}

/// Encodes `m` as a `ScoreEvent` object; decoding it gives `m` back.
pub fn encode_score_event(m: &ScoreEvent) -> (r: Value)
    ensures
        score_event_of(r) == Ok::<ScoreEvent, DecodeError>(*m),
{
    let o: Vec<(String, Value)> = vec![
        ("time".to_owned(), Value::Number(m.time)),
        ("score".to_owned(), encode_i64(m.score)),
        ("accuracy".to_owned(), Value::Number(m.accuracy)),
        ("combo".to_owned(), encode_u64(m.combo)),
        ("missCount".to_owned(), encode_u64(m.miss_count)),
        ("currentHealth".to_owned(), Value::Number(m.current_health)),
    ];
    proof {
        lemma_score_event_keys();
        lemma_lookup_hit(o@, "time"@, 0);
        lemma_lookup_skip(o@, "score"@, 0);
        lemma_lookup_hit(o@, "score"@, 1);
        lemma_lookup_skip(o@, "accuracy"@, 0);
        lemma_lookup_skip(o@, "accuracy"@, 1);
        lemma_lookup_hit(o@, "accuracy"@, 2);
        lemma_lookup_skip(o@, "combo"@, 0);
        lemma_lookup_skip(o@, "combo"@, 1);
        lemma_lookup_skip(o@, "combo"@, 2);
        lemma_lookup_hit(o@, "combo"@, 3);
        lemma_lookup_skip(o@, "missCount"@, 0);
        lemma_lookup_skip(o@, "missCount"@, 1);
        lemma_lookup_skip(o@, "missCount"@, 2);
        lemma_lookup_skip(o@, "missCount"@, 3);
        lemma_lookup_hit(o@, "missCount"@, 4);
        lemma_lookup_skip(o@, "currentHealth"@, 0);
        lemma_lookup_skip(o@, "currentHealth"@, 1);
        lemma_lookup_skip(o@, "currentHealth"@, 2);
        lemma_lookup_skip(o@, "currentHealth"@, 3);
        lemma_lookup_skip(o@, "currentHealth"@, 4);
        lemma_lookup_hit(o@, "currentHealth"@, 5);
    }
    Value::Object(o)
}

/// The length of every key of the object, and the letters that tell keys of
/// equal length apart.
proof fn lemma_map_info_keys()
    ensures
        "levelId"@.len() == 7,
        "levelId"@[0] == 'l',
        "name"@.len() == 4,
        "name"@[0] == 'n',
        "subName"@.len() == 7,
        "subName"@[0] == 's',
        "artist"@.len() == 6,
        "artist"@[0] == 'a',
        "mapper"@.len() == 6,
        "mapper"@[0] == 'm',
        "characteristic"@.len() == 14,
        "characteristic"@[0] == 'c',
        "difficulty"@.len() == 10,
        "duration"@.len() == 8,
        "duration"@[0] == 'd',
        "BPM"@.len() == 3,
        "PP"@.len() == 2,
        "BSRKey"@.len() == 6,
        "BSRKey"@[0] == 'B',
        "coverRaw"@.len() == 8,
        "coverRaw"@[0] == 'c',
        "time"@.len() == 4,
        "time"@[0] == 't',
        "timeMultiplier"@.len() == 14,
        "timeMultiplier"@[0] == 't',
{
    reveal_strlit("levelId");
    reveal_strlit("name");
    reveal_strlit("subName");
    reveal_strlit("artist");
    reveal_strlit("mapper");
    reveal_strlit("characteristic");
    reveal_strlit("difficulty");
    reveal_strlit("duration");
    reveal_strlit("BPM");
    reveal_strlit("PP");
    reveal_strlit("BSRKey");
    reveal_strlit("coverRaw");
    reveal_strlit("time");
    reveal_strlit("timeMultiplier");
}

/// Encodes `m` as a `MapInfo` object; decoding it gives `m` back.
pub fn encode_map_info(m: &MapInfo) -> (r: Value)
    ensures
        map_info_of(r) == Ok::<MapInfo, DecodeError>(*m),
{
    let o: Vec<(String, Value)> = vec![
        ("levelId".to_owned(), Value::Str(m.level_id.clone())),
        ("name".to_owned(), Value::Str(m.name.clone())),
        ("subName".to_owned(), Value::Str(m.sub_name.clone())),
        ("artist".to_owned(), Value::Str(m.artist.clone())),
        ("mapper".to_owned(), Value::Str(m.mapper.clone())),
        ("characteristic".to_owned(), Value::Str(m.characteristic.clone())),
        ("difficulty".to_owned(), Value::Str(m.difficulty.clone())),
        ("duration".to_owned(), encode_u64(m.duration)),
        ("BPM".to_owned(), Value::Number(m.bpm)),
        ("PP".to_owned(), Value::Number(m.pp)),
        ("BSRKey".to_owned(), Value::Str(m.bsr_key.clone())),
        ("coverRaw".to_owned(), Value::Str(m.cover_raw.clone())),
        ("time".to_owned(), Value::Number(m.time)),
        ("timeMultiplier".to_owned(), Value::Number(m.time_multiplier)),
    ];
    proof {
        lemma_map_info_keys();
        lemma_lookup_hit(o@, "levelId"@, 0);
        lemma_lookup_skip(o@, "name"@, 0);
        lemma_lookup_hit(o@, "name"@, 1);
        lemma_lookup_skip(o@, "subName"@, 0);
        lemma_lookup_skip(o@, "subName"@, 1);
        lemma_lookup_hit(o@, "subName"@, 2);
        lemma_lookup_skip(o@, "artist"@, 0);
        lemma_lookup_skip(o@, "artist"@, 1);
        lemma_lookup_skip(o@, "artist"@, 2);
        lemma_lookup_hit(o@, "artist"@, 3);
        lemma_lookup_skip(o@, "mapper"@, 0);
        lemma_lookup_skip(o@, "mapper"@, 1);
        lemma_lookup_skip(o@, "mapper"@, 2);
        lemma_lookup_skip(o@, "mapper"@, 3);
        lemma_lookup_hit(o@, "mapper"@, 4);
        lemma_lookup_skip(o@, "characteristic"@, 0);
        lemma_lookup_skip(o@, "characteristic"@, 1);
        lemma_lookup_skip(o@, "characteristic"@, 2);
        lemma_lookup_skip(o@, "characteristic"@, 3);
        lemma_lookup_skip(o@, "characteristic"@, 4);
        lemma_lookup_hit(o@, "characteristic"@, 5);
        lemma_lookup_skip(o@, "difficulty"@, 0);
        lemma_lookup_skip(o@, "difficulty"@, 1);
        lemma_lookup_skip(o@, "difficulty"@, 2);
        lemma_lookup_skip(o@, "difficulty"@, 3);
        lemma_lookup_skip(o@, "difficulty"@, 4);
        lemma_lookup_skip(o@, "difficulty"@, 5);
        lemma_lookup_hit(o@, "difficulty"@, 6);
        lemma_lookup_skip(o@, "duration"@, 0);
        lemma_lookup_skip(o@, "duration"@, 1);
        lemma_lookup_skip(o@, "duration"@, 2);
        lemma_lookup_skip(o@, "duration"@, 3);
        lemma_lookup_skip(o@, "duration"@, 4);
        lemma_lookup_skip(o@, "duration"@, 5);
        lemma_lookup_skip(o@, "duration"@, 6);
        lemma_lookup_hit(o@, "duration"@, 7);
        lemma_lookup_skip(o@, "BPM"@, 0);
        lemma_lookup_skip(o@, "BPM"@, 1);
        lemma_lookup_skip(o@, "BPM"@, 2);
        lemma_lookup_skip(o@, "BPM"@, 3);
        lemma_lookup_skip(o@, "BPM"@, 4);
        lemma_lookup_skip(o@, "BPM"@, 5);
        lemma_lookup_skip(o@, "BPM"@, 6);
        lemma_lookup_skip(o@, "BPM"@, 7);
        lemma_lookup_hit(o@, "BPM"@, 8);
        lemma_lookup_skip(o@, "PP"@, 0);
        lemma_lookup_skip(o@, "PP"@, 1);
        lemma_lookup_skip(o@, "PP"@, 2);
        lemma_lookup_skip(o@, "PP"@, 3);
        lemma_lookup_skip(o@, "PP"@, 4);
        lemma_lookup_skip(o@, "PP"@, 5);
        lemma_lookup_skip(o@, "PP"@, 6);
        lemma_lookup_skip(o@, "PP"@, 7);
        lemma_lookup_skip(o@, "PP"@, 8);
        lemma_lookup_hit(o@, "PP"@, 9);
        lemma_lookup_skip(o@, "BSRKey"@, 0);
        lemma_lookup_skip(o@, "BSRKey"@, 1);
        lemma_lookup_skip(o@, "BSRKey"@, 2);
        lemma_lookup_skip(o@, "BSRKey"@, 3);
        lemma_lookup_skip(o@, "BSRKey"@, 4);
        lemma_lookup_skip(o@, "BSRKey"@, 5);
        lemma_lookup_skip(o@, "BSRKey"@, 6);
        lemma_lookup_skip(o@, "BSRKey"@, 7);
        lemma_lookup_skip(o@, "BSRKey"@, 8);
        lemma_lookup_skip(o@, "BSRKey"@, 9);
        lemma_lookup_hit(o@, "BSRKey"@, 10);
        lemma_lookup_skip(o@, "coverRaw"@, 0);
        lemma_lookup_skip(o@, "coverRaw"@, 1);
        lemma_lookup_skip(o@, "coverRaw"@, 2);
        lemma_lookup_skip(o@, "coverRaw"@, 3);
        lemma_lookup_skip(o@, "coverRaw"@, 4);
        lemma_lookup_skip(o@, "coverRaw"@, 5);
        lemma_lookup_skip(o@, "coverRaw"@, 6);
        lemma_lookup_skip(o@, "coverRaw"@, 7);
        lemma_lookup_skip(o@, "coverRaw"@, 8);
        lemma_lookup_skip(o@, "coverRaw"@, 9);
        lemma_lookup_skip(o@, "coverRaw"@, 10);
        lemma_lookup_hit(o@, "coverRaw"@, 11);
        lemma_lookup_skip(o@, "time"@, 0);
        lemma_lookup_skip(o@, "time"@, 1);
        lemma_lookup_skip(o@, "time"@, 2);
        lemma_lookup_skip(o@, "time"@, 3);
        lemma_lookup_skip(o@, "time"@, 4);
        lemma_lookup_skip(o@, "time"@, 5);
        lemma_lookup_skip(o@, "time"@, 6);
        lemma_lookup_skip(o@, "time"@, 7);
        lemma_lookup_skip(o@, "time"@, 8);
        lemma_lookup_skip(o@, "time"@, 9);
        lemma_lookup_skip(o@, "time"@, 10);
        lemma_lookup_skip(o@, "time"@, 11);
        lemma_lookup_hit(o@, "time"@, 12);
        lemma_lookup_skip(o@, "timeMultiplier"@, 0);
        lemma_lookup_skip(o@, "timeMultiplier"@, 1);
        lemma_lookup_skip(o@, "timeMultiplier"@, 2);
        lemma_lookup_skip(o@, "timeMultiplier"@, 3);
        lemma_lookup_skip(o@, "timeMultiplier"@, 4);
        lemma_lookup_skip(o@, "timeMultiplier"@, 5);
        lemma_lookup_skip(o@, "timeMultiplier"@, 6);
        lemma_lookup_skip(o@, "timeMultiplier"@, 7);
        lemma_lookup_skip(o@, "timeMultiplier"@, 8);
        lemma_lookup_skip(o@, "timeMultiplier"@, 9);
        lemma_lookup_skip(o@, "timeMultiplier"@, 10);
        lemma_lookup_skip(o@, "timeMultiplier"@, 11);
        lemma_lookup_skip(o@, "timeMultiplier"@, 12);
        lemma_lookup_hit(o@, "timeMultiplier"@, 13);
    }
    Value::Object(o)
}

/// The length of every key of the object, and the letters that tell keys of
/// equal length apart.
proof fn lemma_message_keys()
    ensures
        "_type"@.len() == 5,
        "_event"@.len() == 6,
        "protocolVersion"@.len() == 15,
        "gameStateChanged"@.len() == 16,
        "resumeTime"@.len() == 10,
        "resumeTime"@[0] == 'r',
        "pauseTime"@.len() == 9,
        "mapInfoChanged"@.len() == 14,
        "scoreEvent"@.len() == 10,
        "scoreEvent"@[0] == 's',
{
    reveal_strlit("_type");
    reveal_strlit("_event");
    reveal_strlit("protocolVersion");
    reveal_strlit("gameStateChanged");
    reveal_strlit("resumeTime");
    reveal_strlit("pauseTime");
    reveal_strlit("mapInfoChanged");
    reveal_strlit("scoreEvent");
}

/// Encodes a message in the protocol's tagged form; decoding it gives `m` back.
pub fn encode_message(m: &BSPlusMessage) -> (r: Value)
    ensures
        bsplus_message_of(r) == Ok::<BSPlusMessage, DecodeError>(*m),
{
    proof {
        lemma_message_keys();
        lemma_tag_letters();
    }
    match m {
        BSPlusMessage::Handshake(n) => {
            let o: Vec<(String, Value)> = vec![
                ("_type".to_owned(), Value::Str("handshake".to_owned())),
                ("protocolVersion".to_owned(), encode_i64(*n as i64)),
            ];
            proof {
                lemma_lookup_hit(o@, "_type"@, 0);
                lemma_lookup_skip(o@, "protocolVersion"@, 0);
                lemma_lookup_hit(o@, "protocolVersion"@, 1);
            }
            Value::Object(o)
        },
        BSPlusMessage::Event(e) => match e {
            BSPlusEvent::GameState(g) => {
                let o: Vec<(String, Value)> = vec![
                    ("_type".to_owned(), Value::Str("event".to_owned())),
                    ("_event".to_owned(), Value::Str("gameState".to_owned())),
                    ("gameStateChanged".to_owned(), Value::Str(g.clone())),
                ];
                proof {
                    lemma_lookup_hit(o@, "_type"@, 0);
                    lemma_lookup_skip(o@, "_event"@, 0);
                    lemma_lookup_hit(o@, "_event"@, 1);
                    lemma_lookup_skip(o@, "gameStateChanged"@, 0);
                    lemma_lookup_skip(o@, "gameStateChanged"@, 1);
                    lemma_lookup_hit(o@, "gameStateChanged"@, 2);
                }
                Value::Object(o)
            },
            BSPlusEvent::Resume(t) => {
                let o: Vec<(String, Value)> = vec![
                    ("_type".to_owned(), Value::Str("event".to_owned())),
                    ("_event".to_owned(), Value::Str("resume".to_owned())),
                    ("resumeTime".to_owned(), Value::Number(*t)),
                ];
                proof {
                    lemma_lookup_hit(o@, "_type"@, 0);
                    lemma_lookup_skip(o@, "_event"@, 0);
                    lemma_lookup_hit(o@, "_event"@, 1);
                    lemma_lookup_skip(o@, "resumeTime"@, 0);
                    lemma_lookup_skip(o@, "resumeTime"@, 1);
                    lemma_lookup_hit(o@, "resumeTime"@, 2);
                }
                Value::Object(o)
            },
            BSPlusEvent::Pause(t) => {
                let o: Vec<(String, Value)> = vec![
                    ("_type".to_owned(), Value::Str("event".to_owned())),
                    ("_event".to_owned(), Value::Str("pause".to_owned())),
                    ("pauseTime".to_owned(), Value::Number(*t)),
                ];
                proof {
                    lemma_lookup_hit(o@, "_type"@, 0);
                    lemma_lookup_skip(o@, "_event"@, 0);
                    lemma_lookup_hit(o@, "_event"@, 1);
                    lemma_lookup_skip(o@, "pauseTime"@, 0);
                    lemma_lookup_skip(o@, "pauseTime"@, 1);
                    lemma_lookup_hit(o@, "pauseTime"@, 2);
                }
                Value::Object(o)
            },
            BSPlusEvent::MapInfo(i) => {
                let o: Vec<(String, Value)> = vec![
                    ("_type".to_owned(), Value::Str("event".to_owned())),
                    ("_event".to_owned(), Value::Str("mapInfo".to_owned())),
                    ("mapInfoChanged".to_owned(), encode_map_info(i)),
                ];
                proof {
                    lemma_lookup_hit(o@, "_type"@, 0);
                    lemma_lookup_skip(o@, "_event"@, 0);
                    lemma_lookup_hit(o@, "_event"@, 1);
                    lemma_lookup_skip(o@, "mapInfoChanged"@, 0);
                    lemma_lookup_skip(o@, "mapInfoChanged"@, 1);
                    lemma_lookup_hit(o@, "mapInfoChanged"@, 2);
                }
                Value::Object(o)
            },
            BSPlusEvent::Score(c) => {
                let o: Vec<(String, Value)> = vec![
                    ("_type".to_owned(), Value::Str("event".to_owned())),
                    ("_event".to_owned(), Value::Str("score".to_owned())),
                    ("scoreEvent".to_owned(), encode_score_event(c)),
                ];
                proof {
                    lemma_lookup_hit(o@, "_type"@, 0);
                    lemma_lookup_skip(o@, "_event"@, 0);
                    lemma_lookup_hit(o@, "_event"@, 1);
                    lemma_lookup_skip(o@, "scoreEvent"@, 0);
                    lemma_lookup_skip(o@, "scoreEvent"@, 1);
                    lemma_lookup_hit(o@, "scoreEvent"@, 2);
                }
                Value::Object(o)
            },
        },
    }
}

} // verus!
