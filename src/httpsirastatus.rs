//! The HttpSiraStatus protocol: a timestamped envelope around one tagged event.
use vstd::prelude::*;
use crate::error::DecodeError;
use crate::value::{Number, Value};
use crate::wire::{lemma_lookup_hit, lemma_lookup_skip, entries_are, lemma_lookup_absent, lemma_lookup_distinct, field_str, field_u64, find_field, lookup, read_str, read_u64, str_is};

verus! {

/// The kind of an HttpSiraStatus event, sent as its tag in the `event` field.
#[derive(Clone, Copy, Debug, PartialEq, Eq, Structural)]
pub enum SiraEventType {
    Hello,
    SongStart,
    Finished,
    SoftFailed,
    Failed,
    Menu,
    Pause,
    Resume,
    NoteSpawned,
    NoteCut,
    NoteFullyCut,
    NoteMissed,
    BombCut,
    BombMissed,
    ObstacleEnter,
    ObstacleExit,
    ScoreChanged,
    BeatmapEvent,
}

impl SiraEventType {
    /// The tag that stands for this kind on the wire.
    pub open spec fn spec_tag(self) -> Seq<char> {
        match self {
            SiraEventType::Hello => "hello"@,
            SiraEventType::SongStart => "songStart"@,
            SiraEventType::Finished => "finished"@,
            SiraEventType::SoftFailed => "softFailed"@,
            SiraEventType::Failed => "failed"@,
            SiraEventType::Menu => "menu"@,
            SiraEventType::Pause => "pause"@,
            SiraEventType::Resume => "resume"@,
            SiraEventType::NoteSpawned => "noteSpawned"@,
            SiraEventType::NoteCut => "noteCut"@,
            SiraEventType::NoteFullyCut => "noteFullyCut"@,
            SiraEventType::NoteMissed => "noteMissed"@,
            SiraEventType::BombCut => "bombCut"@,
            SiraEventType::BombMissed => "bombMissed"@,
            SiraEventType::ObstacleEnter => "obstacleEnter"@,
            SiraEventType::ObstacleExit => "obstacleExit"@,
            SiraEventType::ScoreChanged => "scoreChanged"@,
            SiraEventType::BeatmapEvent => "beatmapEvent"@,
        }
    }

    /// The tag that stands for this kind on the wire.
    pub fn tag(&self) -> (r: &'static str)
        ensures
            r@ == self.spec_tag(),
    {
        match self {
            SiraEventType::Hello => "hello",
            SiraEventType::SongStart => "songStart",
            SiraEventType::Finished => "finished",
            SiraEventType::SoftFailed => "softFailed",
            SiraEventType::Failed => "failed",
            SiraEventType::Menu => "menu",
            SiraEventType::Pause => "pause",
            SiraEventType::Resume => "resume",
            SiraEventType::NoteSpawned => "noteSpawned",
            SiraEventType::NoteCut => "noteCut",
            SiraEventType::NoteFullyCut => "noteFullyCut",
            SiraEventType::NoteMissed => "noteMissed",
            SiraEventType::BombCut => "bombCut",
            SiraEventType::BombMissed => "bombMissed",
            SiraEventType::ObstacleEnter => "obstacleEnter",
            SiraEventType::ObstacleExit => "obstacleExit",
            SiraEventType::ScoreChanged => "scoreChanged",
            SiraEventType::BeatmapEvent => "beatmapEvent",
        }
    }

    /// Every kind, in the order of the protocol.
    pub fn all() -> (r: Vec<SiraEventType>)
        ensures
            r@.len() == 18,
            forall|t: SiraEventType| #[trigger] r@.contains(t),
    {
        let r = vec![
            SiraEventType::Hello,
            SiraEventType::SongStart,
            SiraEventType::Finished,
            SiraEventType::SoftFailed,
            SiraEventType::Failed,
            SiraEventType::Menu,
            SiraEventType::Pause,
            SiraEventType::Resume,
            SiraEventType::NoteSpawned,
            SiraEventType::NoteCut,
            SiraEventType::NoteFullyCut,
            SiraEventType::NoteMissed,
            SiraEventType::BombCut,
            SiraEventType::BombMissed,
            SiraEventType::ObstacleEnter,
            SiraEventType::ObstacleExit,
            SiraEventType::ScoreChanged,
            SiraEventType::BeatmapEvent,
        ];
        assert forall|t: SiraEventType| #[trigger] r@.contains(t) by {
            match t {
                SiraEventType::Hello => assert(r@[0] == t),
                SiraEventType::SongStart => assert(r@[1] == t),
                SiraEventType::Finished => assert(r@[2] == t),
                SiraEventType::SoftFailed => assert(r@[3] == t),
                SiraEventType::Failed => assert(r@[4] == t),
                SiraEventType::Menu => assert(r@[5] == t),
                SiraEventType::Pause => assert(r@[6] == t),
                SiraEventType::Resume => assert(r@[7] == t),
                SiraEventType::NoteSpawned => assert(r@[8] == t),
                SiraEventType::NoteCut => assert(r@[9] == t),
                SiraEventType::NoteFullyCut => assert(r@[10] == t),
                SiraEventType::NoteMissed => assert(r@[11] == t),
                SiraEventType::BombCut => assert(r@[12] == t),
                SiraEventType::BombMissed => assert(r@[13] == t),
                SiraEventType::ObstacleEnter => assert(r@[14] == t),
                SiraEventType::ObstacleExit => assert(r@[15] == t),
                SiraEventType::ScoreChanged => assert(r@[16] == t),
                SiraEventType::BeatmapEvent => assert(r@[17] == t),
            }
        }
        r
    }
}

/// The kind that a tag names.
pub open spec fn sira_event_type_of(s: Seq<char>) -> Option<SiraEventType> {
    if s == "hello"@ {
        Some(SiraEventType::Hello)
    } else if s == "songStart"@ {
        Some(SiraEventType::SongStart)
    } else if s == "finished"@ {
        Some(SiraEventType::Finished)
    } else if s == "softFailed"@ {
        Some(SiraEventType::SoftFailed)
    } else if s == "failed"@ {
        Some(SiraEventType::Failed)
    } else if s == "menu"@ {
        Some(SiraEventType::Menu)
    } else if s == "pause"@ {
        Some(SiraEventType::Pause)
    } else if s == "resume"@ {
        Some(SiraEventType::Resume)
    } else if s == "noteSpawned"@ {
        Some(SiraEventType::NoteSpawned)
    } else if s == "noteCut"@ {
        Some(SiraEventType::NoteCut)
    } else if s == "noteFullyCut"@ {
        Some(SiraEventType::NoteFullyCut)
    } else if s == "noteMissed"@ {
        Some(SiraEventType::NoteMissed)
    } else if s == "bombCut"@ {
        Some(SiraEventType::BombCut)
    } else if s == "bombMissed"@ {
        Some(SiraEventType::BombMissed)
    } else if s == "obstacleEnter"@ {
        Some(SiraEventType::ObstacleEnter)
    } else if s == "obstacleExit"@ {
        Some(SiraEventType::ObstacleExit)
    } else if s == "scoreChanged"@ {
        Some(SiraEventType::ScoreChanged)
    } else if s == "beatmapEvent"@ {
        Some(SiraEventType::BeatmapEvent)
    } else {
        None
    }
}

/// The kind that a tag names, if any.
pub fn sira_event_type_from_tag(s: &String) -> (r: Option<SiraEventType>)
    ensures
        r == sira_event_type_of(s@),
{
    if str_is(s, "hello") {
        Some(SiraEventType::Hello)
    } else if str_is(s, "songStart") {
        Some(SiraEventType::SongStart)
    } else if str_is(s, "finished") {
        Some(SiraEventType::Finished)
    } else if str_is(s, "softFailed") {
        Some(SiraEventType::SoftFailed)
    } else if str_is(s, "failed") {
        Some(SiraEventType::Failed)
    } else if str_is(s, "menu") {
        Some(SiraEventType::Menu)
    } else if str_is(s, "pause") {
        Some(SiraEventType::Pause)
    } else if str_is(s, "resume") {
        Some(SiraEventType::Resume)
    } else if str_is(s, "noteSpawned") {
        Some(SiraEventType::NoteSpawned)
    } else if str_is(s, "noteCut") {
        Some(SiraEventType::NoteCut)
    } else if str_is(s, "noteFullyCut") {
        Some(SiraEventType::NoteFullyCut)
    } else if str_is(s, "noteMissed") {
        Some(SiraEventType::NoteMissed)
    } else if str_is(s, "bombCut") {
        Some(SiraEventType::BombCut)
    } else if str_is(s, "bombMissed") {
        Some(SiraEventType::BombMissed)
    } else if str_is(s, "obstacleEnter") {
        Some(SiraEventType::ObstacleEnter)
    } else if str_is(s, "obstacleExit") {
        Some(SiraEventType::ObstacleExit)
    } else if str_is(s, "scoreChanged") {
        Some(SiraEventType::ScoreChanged)
    } else if str_is(s, "beatmapEvent") {
        Some(SiraEventType::BeatmapEvent)
    } else {
        None
    }
}

/// One HttpSiraStatus message.
#[derive(Debug, PartialEq)]
pub struct Event {
    /// When the event happened, in milliseconds since the Unix epoch.
    pub time: u64,
    /// What happened.
    pub event: SiraEventType,
    /// The event's `status` payload as sent, not decoded further; absent when
    /// the message has none.
    pub status: Option<Value>,
}

/// The decoding of an envelope: its timestamp, its tag, and its payload passed
/// through as it stands.
pub open spec fn sira_envelope_of(v: Value) -> Result<Event, DecodeError> {
    match v {
        Value::Object(o) => {
            let time = field_u64(lookup(o@, "time"@));
            let tag = field_str(lookup(o@, "event"@));
            if time is Err {
                Err(time->Err_0)
            } else if tag is Err {
                Err(tag->Err_0)
            } else {
                match sira_event_type_of(tag->Ok_0@) {
                    Some(t) => Ok(Event { time: time->Ok_0, event: t, status: lookup(o@, "status"@) }),
                    None => Err(DecodeError::UnknownTag),
                }
            }
        },
        _ => Err(DecodeError::TypeMismatch),
    }
}

/// Decodes an HttpSiraStatus envelope, taking the message over so that its
/// payload moves into the result untouched. Any of the known tags is accepted,
/// with or without a payload; any other tag is `UnknownTag`.
pub fn decode_envelope(v: Value) -> (r: Result<Event, DecodeError>)
    ensures
        r == sira_envelope_of(v),
{
    match v {
        Value::Object(mut o) => {
            let time = read_u64(&o, "time")?;
            let tag = read_str(&o, "event")?;
            match sira_event_type_from_tag(&tag) {
                Some(event) => {
                    let status = match find_field(&o, "status") {
                        Some(i) => Some(o.remove(i).1),
                        None => None,
                    };
                    Ok(Event { time, event, status })
                },
                None => Err(DecodeError::UnknownTag),
            }
        },
        _ => Err(DecodeError::TypeMismatch),
    }
}

/// The length of every tag, and the letters that tell tags of equal length
/// apart.
proof fn lemma_tag_letters()
    ensures
        "hello"@.len() == 5,
        "hello"@[0] == 'h',
        "songStart"@.len() == 9,
        "finished"@.len() == 8,
        "softFailed"@.len() == 10,
        "softFailed"@[0] == 's',
        "failed"@.len() == 6,
        "failed"@[0] == 'f',
        "menu"@.len() == 4,
        "pause"@.len() == 5,
        "pause"@[0] == 'p',
        "resume"@.len() == 6,
        "resume"@[0] == 'r',
        "noteSpawned"@.len() == 11,
        "noteCut"@.len() == 7,
        "noteCut"@[0] == 'n',
        "noteFullyCut"@.len() == 12,
        "noteFullyCut"@[0] == 'n',
        "noteMissed"@.len() == 10,
        "noteMissed"@[0] == 'n',
        "bombCut"@.len() == 7,
        "bombCut"@[0] == 'b',
        "bombMissed"@.len() == 10,
        "bombMissed"@[0] == 'b',
        "obstacleEnter"@.len() == 13,
        "obstacleExit"@.len() == 12,
        "obstacleExit"@[0] == 'o',
        "scoreChanged"@.len() == 12,
        "scoreChanged"@[0] == 's',
        "beatmapEvent"@.len() == 12,
        "beatmapEvent"@[0] == 'b',
{
    reveal_strlit("hello");
    reveal_strlit("songStart");
    reveal_strlit("finished");
    reveal_strlit("softFailed");
    reveal_strlit("failed");
    reveal_strlit("menu");
    reveal_strlit("pause");
    reveal_strlit("resume");
    reveal_strlit("noteSpawned");
    reveal_strlit("noteCut");
    reveal_strlit("noteFullyCut");
    reveal_strlit("noteMissed");
    reveal_strlit("bombCut");
    reveal_strlit("bombMissed");
    reveal_strlit("obstacleEnter");
    reveal_strlit("obstacleExit");
    reveal_strlit("scoreChanged");
    reveal_strlit("beatmapEvent");
}

/// Each kind's tag names that kind and no other.
pub proof fn lemma_tag_names_kind(t: SiraEventType)
    ensures
        sira_event_type_of(t.spec_tag()) == Some(t),
{
    lemma_tag_letters();
}

/// A string that is no kind's tag names no kind.
pub proof fn lemma_other_tag_names_nothing(s: Seq<char>)
    requires
        forall|t: SiraEventType| s != #[trigger] t.spec_tag(),
    ensures
        sira_event_type_of(s) is None,
{
    assert(s != SiraEventType::Hello.spec_tag());
    assert(s != SiraEventType::SongStart.spec_tag());
    assert(s != SiraEventType::Finished.spec_tag());
    assert(s != SiraEventType::SoftFailed.spec_tag());
    assert(s != SiraEventType::Failed.spec_tag());
    assert(s != SiraEventType::Menu.spec_tag());
    assert(s != SiraEventType::Pause.spec_tag());
    assert(s != SiraEventType::Resume.spec_tag());
    assert(s != SiraEventType::NoteSpawned.spec_tag());
    assert(s != SiraEventType::NoteCut.spec_tag());
    assert(s != SiraEventType::NoteFullyCut.spec_tag());
    assert(s != SiraEventType::NoteMissed.spec_tag());
    assert(s != SiraEventType::BombCut.spec_tag());
    assert(s != SiraEventType::BombMissed.spec_tag());
    assert(s != SiraEventType::ObstacleEnter.spec_tag());
    assert(s != SiraEventType::ObstacleExit.spec_tag());
    assert(s != SiraEventType::ScoreChanged.spec_tag());
    assert(s != SiraEventType::BeatmapEvent.spec_tag());
}

/// An envelope of exactly a timestamp and a tag, with no payload.
pub open spec fn is_bare_envelope(v: Value, time: u64, tag: Seq<char>) -> bool {
    match v {
        Value::Object(o) => {
            &&& o@.len() == 2
            &&& o@[0].0@ == "time"@
            &&& o@[0].1 == Value::Number(Number::PosInt(time))
            &&& o@[1].0@ == "event"@
            &&& o@[1].1 is Str
            &&& o@[1].1->Str_0@ == tag
        },
        _ => false,
    }
}

/// A bare envelope with any of the known tags decodes to that kind, with its
/// timestamp and no payload; with any other tag it is refused as `UnknownTag`.
pub proof fn lemma_bare_envelope_decodes(v: Value, time: u64, tag: Seq<char>)
    requires
        is_bare_envelope(v, time, tag),
    ensures
        forall|t: SiraEventType| tag == t.spec_tag() ==> sira_envelope_of(v) == Ok::<Event, DecodeError>(
            Event { time, event: t, status: None },
        ),
        (forall|t: SiraEventType| tag != #[trigger] t.spec_tag()) ==> sira_envelope_of(v)
            == Err::<Event, DecodeError>(DecodeError::UnknownTag),
{
    reveal_strlit("time");
    reveal_strlit("event");
    reveal_strlit("status");
    let o = v->Object_0@;
    let keys = seq!["time"@, "event"@];
    let vals = seq![o[0].1, o[1].1];
    assert(entries_are(o, keys, vals));
    assert("time"@.len() == 4 && "event"@.len() == 5 && "status"@.len() == 6);
    assert(keys.no_duplicates());
    lemma_lookup_distinct(o, keys, vals, 0);
    lemma_lookup_distinct(o, keys, vals, 1);
    assert(!keys.contains("status"@)) by {
        assert(keys[0] != "status"@);
        assert(keys[1] != "status"@);
    }
    lemma_lookup_absent(o, keys, vals, "status"@);
    assert forall|t: SiraEventType| tag == t.spec_tag() implies sira_envelope_of(v) == Ok::<Event, DecodeError>(
        Event { time, event: t, status: None },
    ) by {
        lemma_tag_names_kind(t);
    }
    if forall|t: SiraEventType| tag != #[trigger] t.spec_tag() {
        lemma_other_tag_names_nothing(tag);
    }
}

/// Encodes an envelope: its timestamp, its tag, and its payload when it has
/// one. Decoding it gives `e` back.
pub fn encode_envelope(e: Event) -> (r: Value)
    ensures
        sira_envelope_of(r) == Ok::<Event, DecodeError>(e),
{
    let ghost old_e = e;
    let Event { time, event, status } = e;
    proof {
        reveal_strlit("time");
        reveal_strlit("event");
        reveal_strlit("status");
        assert("time"@.len() == 4 && "event"@.len() == 5 && "status"@.len() == 6);
        lemma_tag_names_kind(event);
    }
    let tag = Value::Str(event.tag().to_owned());
    match status {
        None => {
            let o: Vec<(String, Value)> = vec![
                ("time".to_owned(), Value::Number(Number::PosInt(time))),
                ("event".to_owned(), tag),
            ];
            proof {
                lemma_lookup_hit(o@, "time"@, 0);
                lemma_lookup_skip(o@, "event"@, 0);
                lemma_lookup_hit(o@, "event"@, 1);
                lemma_lookup_skip(o@, "status"@, 0);
                lemma_lookup_skip(o@, "status"@, 1);
            }
            Value::Object(o)
        },
        Some(payload) => {
            let o: Vec<(String, Value)> = vec![
                ("time".to_owned(), Value::Number(Number::PosInt(time))),
                ("event".to_owned(), tag),
                ("status".to_owned(), payload),
            ];
            proof {
                lemma_lookup_hit(o@, "time"@, 0);
                lemma_lookup_skip(o@, "event"@, 0);
                lemma_lookup_hit(o@, "event"@, 1);
                lemma_lookup_skip(o@, "status"@, 0);
                lemma_lookup_skip(o@, "status"@, 1);
                lemma_lookup_hit(o@, "status"@, 2);
            }
            Value::Object(o)
        },
    }
}

} // verus!
