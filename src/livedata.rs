//! DataPuller's per-tick live snapshot, its discriminant tables and its decoder.
use vstd::prelude::*;
use crate::common::{field_rank, lemma_label_names_rank, read_rank, Rank};
use crate::error::DecodeError;
use crate::value::{Number, Value};
use crate::wire::{encode_i64, encode_u64, lemma_lookup_hit, lemma_lookup_skip, find_field, integer_of, lookup, read_bool, read_i64, read_number, read_u64, read_u8, field_bool, field_i64, field_number, field_u64, field_u8, Fields};

verus! {

/// The colour of the last hit note. Wire ordinals: NoColor = -1, ColorA = 0, ColorB = 1.
#[derive(Clone, Copy, Debug, PartialEq, Eq, Structural)]
pub enum ColorType {
    NoColor,
    ColorA,
    ColorB,
}

/// The cut direction of the last hit note. Wire ordinals: Up = 0, Down = 1,
/// Left = 2, Right = 3, UpLeft = 4, UpRight = 5, DownLeft = 6, DownRight = 7,
/// Any = 8, NoDirection = 9.
#[derive(Clone, Copy, Debug, PartialEq, Eq, Structural)]
pub enum NoteCutDirection {
    Up,
    Down,
    Left,
    Right,
    UpLeft,
    UpRight,
    DownLeft,
    DownRight,
    Any,
    NoDirection,
}

/// What caused a live snapshot to be sent. Wire ordinals: Unknown = 0,
/// TimerElapsed = 1, NoteMissed = 2, EnergyChange = 3, ScoreChange = 4.
#[derive(Clone, Copy, Debug, PartialEq, Eq, Structural)]
pub enum LiveDataEventTrigger {
    Unknown,
    TimerElapsed,
    NoteMissed,
    EnergyChange,
    ScoreChange,
}

impl ColorType {
    pub open spec fn spec_ordinal(self) -> int {
        match self {
            ColorType::NoColor => -1,
            ColorType::ColorA => 0,
            ColorType::ColorB => 1,
        }
    }

    /// The wire ordinal of this colour.
    pub fn ordinal(&self) -> (r: i64)
        ensures
            r as int == self.spec_ordinal(),
    {
        match self {
            ColorType::NoColor => -1,
            ColorType::ColorA => 0,
            ColorType::ColorB => 1,
        }
    }

    /// The colour with wire ordinal `n`, if there is one.
    pub fn from_ordinal(n: i64) -> (r: Option<ColorType>)
        ensures
            r == color_type_of(n as int),
    {
        if n == -1 {
            Some(ColorType::NoColor)
        } else if n == 0 {
            Some(ColorType::ColorA)
        } else if n == 1 {
            Some(ColorType::ColorB)
        } else {
            None
        }
    }
}

impl NoteCutDirection {
    pub open spec fn spec_ordinal(self) -> int {
        match self {
            NoteCutDirection::Up => 0,
            NoteCutDirection::Down => 1,
            NoteCutDirection::Left => 2,
            NoteCutDirection::Right => 3,
            NoteCutDirection::UpLeft => 4,
            NoteCutDirection::UpRight => 5,
            NoteCutDirection::DownLeft => 6,
            NoteCutDirection::DownRight => 7,
            NoteCutDirection::Any => 8,
            NoteCutDirection::NoDirection => 9,
        }
    }

    /// The wire ordinal of this direction.
    pub fn ordinal(&self) -> (r: i64)
        ensures
            r as int == self.spec_ordinal(),
    {
        match self {
            NoteCutDirection::Up => 0,
            NoteCutDirection::Down => 1,
            NoteCutDirection::Left => 2,
            NoteCutDirection::Right => 3,
            NoteCutDirection::UpLeft => 4,
            NoteCutDirection::UpRight => 5,
            NoteCutDirection::DownLeft => 6,
            NoteCutDirection::DownRight => 7,
            NoteCutDirection::Any => 8,
            NoteCutDirection::NoDirection => 9,
        }
    }

    /// The direction with wire ordinal `n`, if there is one.
    pub fn from_ordinal(n: i64) -> (r: Option<NoteCutDirection>)
        ensures
            r == cut_direction_of(n as int),
    {
        if n == 0 {
            Some(NoteCutDirection::Up)
        } else if n == 1 {
            Some(NoteCutDirection::Down)
        } else if n == 2 {
            Some(NoteCutDirection::Left)
        } else if n == 3 {
            Some(NoteCutDirection::Right)
        } else if n == 4 {
            Some(NoteCutDirection::UpLeft)
        } else if n == 5 {
            Some(NoteCutDirection::UpRight)
        } else if n == 6 {
            Some(NoteCutDirection::DownLeft)
        } else if n == 7 {
            Some(NoteCutDirection::DownRight)
        } else if n == 8 {
            Some(NoteCutDirection::Any)
        } else if n == 9 {
            Some(NoteCutDirection::NoDirection)
        } else {
            None
        }
    }
}

impl LiveDataEventTrigger {
    pub open spec fn spec_ordinal(self) -> int {
        match self {
            LiveDataEventTrigger::Unknown => 0,
            LiveDataEventTrigger::TimerElapsed => 1,
            LiveDataEventTrigger::NoteMissed => 2,
            LiveDataEventTrigger::EnergyChange => 3,
            LiveDataEventTrigger::ScoreChange => 4,
        }
    }

    /// The wire ordinal of this trigger.
    pub fn ordinal(&self) -> (r: i64)
        ensures
            r as int == self.spec_ordinal(),
    {
        match self {
            LiveDataEventTrigger::Unknown => 0,
            LiveDataEventTrigger::TimerElapsed => 1,
            LiveDataEventTrigger::NoteMissed => 2,
            LiveDataEventTrigger::EnergyChange => 3,
            LiveDataEventTrigger::ScoreChange => 4,
        }
    }

    /// The trigger with wire ordinal `n`, if there is one.
    pub fn from_ordinal(n: i64) -> (r: Option<LiveDataEventTrigger>)
        ensures
            r == trigger_of(n as int),
    {
        if n == 0 {
            Some(LiveDataEventTrigger::Unknown)
        } else if n == 1 {
            Some(LiveDataEventTrigger::TimerElapsed)
        } else if n == 2 {
            Some(LiveDataEventTrigger::NoteMissed)
        } else if n == 3 {
            Some(LiveDataEventTrigger::EnergyChange)
        } else if n == 4 {
            Some(LiveDataEventTrigger::ScoreChange)
        } else {
            None
        }
    }
}

/// The colour table: the colour whose ordinal is `n`.
pub open spec fn color_type_of(n: int) -> Option<ColorType> {
    if n == -1 {
        Some(ColorType::NoColor)
    } else if n == 0 {
        Some(ColorType::ColorA)
    } else if n == 1 {
        Some(ColorType::ColorB)
    } else {
        None
    }
}

/// The direction table: the direction whose ordinal is `n`.
pub open spec fn cut_direction_of(n: int) -> Option<NoteCutDirection> {
    if n == 0 {
        Some(NoteCutDirection::Up)
    } else if n == 1 {
        Some(NoteCutDirection::Down)
    } else if n == 2 {
        Some(NoteCutDirection::Left)
    } else if n == 3 {
        Some(NoteCutDirection::Right)
    } else if n == 4 {
        Some(NoteCutDirection::UpLeft)
    } else if n == 5 {
        Some(NoteCutDirection::UpRight)
    } else if n == 6 {
        Some(NoteCutDirection::DownLeft)
    } else if n == 7 {
        Some(NoteCutDirection::DownRight)
    } else if n == 8 {
        Some(NoteCutDirection::Any)
    } else if n == 9 {
        Some(NoteCutDirection::NoDirection)
    } else {
        None
    }
}

/// The trigger table: the trigger whose ordinal is `n`.
pub open spec fn trigger_of(n: int) -> Option<LiveDataEventTrigger> {
    if n == 0 {
        Some(LiveDataEventTrigger::Unknown)
    } else if n == 1 {
        Some(LiveDataEventTrigger::TimerElapsed)
    } else if n == 2 {
        Some(LiveDataEventTrigger::NoteMissed)
    } else if n == 3 {
        Some(LiveDataEventTrigger::EnergyChange)
    } else if n == 4 {
        Some(LiveDataEventTrigger::ScoreChange)
    } else {
        None
    }
}

/// A required integer field read as a discriminant, before any table.
pub open spec fn field_ordinal(f: Option<Value>) -> Result<int, DecodeError> {
    match f {
        None => Err(DecodeError::MissingRequiredField),
        Some(Value::Number(n)) => match integer_of(n) {
            Some(i) => Ok(i),
            None => Err(DecodeError::TypeMismatch),
        },
        Some(_) => Err(DecodeError::TypeMismatch),
    }
}

/// A required colour field, sent as its ordinal.
pub open spec fn field_color_type(f: Option<Value>) -> Result<ColorType, DecodeError> {
    match field_ordinal(f) {
        Ok(i) => match color_type_of(i) {
            Some(c) => Ok(c),
            None => Err(DecodeError::EnumOutOfRange),
        },
        Err(e) => Err(e),
    }
}

/// A required cut-direction field, sent as its ordinal.
pub open spec fn field_cut_direction(f: Option<Value>) -> Result<NoteCutDirection, DecodeError> {
    match field_ordinal(f) {
        Ok(i) => match cut_direction_of(i) {
            Some(c) => Ok(c),
            None => Err(DecodeError::EnumOutOfRange),
        },
        Err(e) => Err(e),
    }
}

/// A required trigger field, sent as its ordinal.
pub open spec fn field_trigger(f: Option<Value>) -> Result<LiveDataEventTrigger, DecodeError> {
    match field_ordinal(f) {
        Ok(i) => match trigger_of(i) {
            Some(c) => Ok(c),
            None => Err(DecodeError::EnumOutOfRange),
        },
        Err(e) => Err(e),
    }
}

/// Reads a required discriminant as an integer; `Ok(None)` stands for an
/// integer above the `i64` range, which no table knows.
fn read_ordinal(o: &Fields, key: &str) -> (r: Result<Option<i64>, DecodeError>)
    ensures
        match r {
            Ok(Some(n)) => field_ordinal(lookup(o@, key@)) == Ok::<int, DecodeError>(n as int),
            Ok(None) => field_ordinal(lookup(o@, key@)) matches Ok(i) && i > i64::MAX,
            Err(e) => field_ordinal(lookup(o@, key@)) == Err::<int, DecodeError>(e),
        },
{
    match find_field(o, key) {
        None => Err(DecodeError::MissingRequiredField),
        Some(i) => match &o[i].1 {
            Value::Number(Number::PosInt(u)) => if *u <= i64::MAX as u64 {
                Ok(Some(*u as i64))
            } else {
                Ok(None)
            },
            Value::Number(Number::NegInt(n)) => Ok(Some(*n)),
            _ => Err(DecodeError::TypeMismatch),
        },
    }
}

/// Reads a required colour field.
pub fn read_color_type(o: &Fields, key: &str) -> (r: Result<ColorType, DecodeError>)
    ensures
        r == field_color_type(lookup(o@, key@)),
{
    match read_ordinal(o, key) {
        Ok(Some(n)) => match ColorType::from_ordinal(n) {
            Some(c) => Ok(c),
            None => Err(DecodeError::EnumOutOfRange),
        },
        Ok(None) => Err(DecodeError::EnumOutOfRange),
        Err(e) => Err(e),
    }
}

/// Reads a required cut-direction field.
pub fn read_cut_direction(o: &Fields, key: &str) -> (r: Result<NoteCutDirection, DecodeError>)
    ensures
        r == field_cut_direction(lookup(o@, key@)),
{
    match read_ordinal(o, key) {
        Ok(Some(n)) => match NoteCutDirection::from_ordinal(n) {
            Some(c) => Ok(c),
            None => Err(DecodeError::EnumOutOfRange),
        },
        Ok(None) => Err(DecodeError::EnumOutOfRange),
        Err(e) => Err(e),
    }
}

/// Reads a required trigger field.
pub fn read_trigger(o: &Fields, key: &str) -> (r: Result<LiveDataEventTrigger, DecodeError>)
    ensures
        r == field_trigger(lookup(o@, key@)),
{
    match read_ordinal(o, key) {
        Ok(Some(n)) => match LiveDataEventTrigger::from_ordinal(n) {
            Some(c) => Ok(c),
            None => Err(DecodeError::EnumOutOfRange),
        },
        Ok(None) => Err(DecodeError::EnumOutOfRange),
        Err(e) => Err(e),
    }
}

/// The scores of the last hit note.
#[derive(Clone, Default, Copy, Debug, PartialEq, Eq, Structural)]
pub struct BlockHitScore {
    /// The pre-swing score (0 to 70).
    pub pre_swing: u8,
    /// The post-swing score (0 to 30).
    pub post_swing: u8,
    /// How close the cut was to the centre of the note (0 to 15).
    pub center_swing: u8,
}

/// DataPuller's live snapshot of one tick of play.
#[derive(Clone, Default, Copy, Debug, PartialEq, Eq, Structural)]
pub struct LiveData {
    /// The raw score.
    pub score: i64,
    /// The score with the selected modifiers applied.
    pub score_with_multipliers: i64,
    /// The highest raw score possible for the notes cut so far.
    pub max_score: i64,
    /// The highest modified score possible for the notes cut so far.
    pub max_score_with_multipliers: i64,
    /// The rank of the current score.
    pub rank: Rank,
    /// Whether every note so far was hit.
    pub full_combo: bool,
    /// The notes spawned since the start of the song.
    pub notes_spawned: i64,
    /// The current combo.
    pub combo: i64,
    /// The missed and badly cut notes so far.
    pub misses: i64,
    /// Accuracy in percent (0 to 100).
    pub accuracy: Number,
    /// The scores of the last hit note.
    pub block_hit_score: BlockHitScore,
    /// Health in percent (0 to 100).
    pub player_health: Number,
    /// The colour of the last hit note; `NoColor` if none was hit or a bomb was.
    pub color_type: ColorType,
    /// The cut direction of the last hit note; `NoDirection` if none was hit.
    pub cut_direction: NoteCutDirection,
    /// Seconds since the start of the map.
    pub time_elapsed: u64,
    /// What caused this snapshot.
    pub event_trigger: LiveDataEventTrigger,
}

/// The decoding of a `BlockHitScore` object.
pub open spec fn block_hit_score_of(v: Value) -> Result<BlockHitScore, DecodeError> {
    match v {
        Value::Object(o) => {
            let pre_swing = field_u8(lookup(o@, "PreSwing"@));
            let post_swing = field_u8(lookup(o@, "PostSwing"@));
            let center_swing = field_u8(lookup(o@, "CenterSwing"@));
            if pre_swing is Err {
                Err(pre_swing->Err_0)
            } else if post_swing is Err {
                Err(post_swing->Err_0)
            } else if center_swing is Err {
                Err(center_swing->Err_0)
            } else {
                Ok(BlockHitScore {
                    pre_swing: pre_swing->Ok_0,
                    post_swing: post_swing->Ok_0,
                    center_swing: center_swing->Ok_0,
                })
            }
        },
        _ => Err(DecodeError::TypeMismatch),
    }
}

/// The decoding of a `LiveData` object.
pub open spec fn live_data_of(v: Value) -> Result<LiveData, DecodeError> {
    match v {
        Value::Object(o) => {
            let score = field_i64(lookup(o@, "Score"@));
            let score_with_multipliers = field_i64(lookup(o@, "ScoreWithMultipliers"@));
            let max_score = field_i64(lookup(o@, "MaxScore"@));
            let max_score_with_multipliers = field_i64(lookup(o@, "MaxScoreWithMultipliers"@));
            let rank = field_rank(lookup(o@, "Rank"@));
            let full_combo = field_bool(lookup(o@, "FullCombo"@));
            let notes_spawned = field_i64(lookup(o@, "NotesSpawned"@));
            let combo = field_i64(lookup(o@, "Combo"@));
            let misses = field_i64(lookup(o@, "Misses"@));
            let accuracy = field_number(lookup(o@, "Accuracy"@));
            let block_hit_score = match lookup(o@, "BlockHitScore"@) {
                Some(b) => block_hit_score_of(b),
                None => Err(DecodeError::MissingRequiredField),
            };
            let player_health = field_number(lookup(o@, "PlayerHealth"@));
            let color_type = field_color_type(lookup(o@, "ColorType"@));
            let cut_direction = field_cut_direction(lookup(o@, "CutDirection"@));
            let time_elapsed = field_u64(lookup(o@, "TimeElapsed"@));
            let event_trigger = field_trigger(lookup(o@, "EventTrigger"@));
            if score is Err {
                Err(score->Err_0)
            } else if score_with_multipliers is Err {
                Err(score_with_multipliers->Err_0)
            } else if max_score is Err {
                Err(max_score->Err_0)
            } else if max_score_with_multipliers is Err {
                Err(max_score_with_multipliers->Err_0)
            } else if rank is Err {
                Err(rank->Err_0)
            } else if full_combo is Err {
                Err(full_combo->Err_0)
            } else if notes_spawned is Err {
                Err(notes_spawned->Err_0)
            } else if combo is Err {
                Err(combo->Err_0)
            } else if misses is Err {
                Err(misses->Err_0)
            } else if accuracy is Err {
                Err(accuracy->Err_0)
            } else if block_hit_score is Err {
                Err(block_hit_score->Err_0)
            } else if player_health is Err {
                Err(player_health->Err_0)
            } else if color_type is Err {
                Err(color_type->Err_0)
            } else if cut_direction is Err {
                Err(cut_direction->Err_0)
            } else if time_elapsed is Err {
                Err(time_elapsed->Err_0)
            } else if event_trigger is Err {
                Err(event_trigger->Err_0)
            } else {
                Ok(LiveData {
                    score: score->Ok_0,
                    score_with_multipliers: score_with_multipliers->Ok_0,
                    max_score: max_score->Ok_0,
                    max_score_with_multipliers: max_score_with_multipliers->Ok_0,
                    rank: rank->Ok_0,
                    full_combo: full_combo->Ok_0,
                    notes_spawned: notes_spawned->Ok_0,
                    combo: combo->Ok_0,
                    misses: misses->Ok_0,
                    accuracy: accuracy->Ok_0,
                    block_hit_score: block_hit_score->Ok_0,
                    player_health: player_health->Ok_0,
                    color_type: color_type->Ok_0,
                    cut_direction: cut_direction->Ok_0,
                    time_elapsed: time_elapsed->Ok_0,
                    event_trigger: event_trigger->Ok_0,
                })
            }
        },
        _ => Err(DecodeError::TypeMismatch),
    }
}

/// Decodes a `BlockHitScore` object.
pub fn decode_block_hit_score(v: &Value) -> (r: Result<BlockHitScore, DecodeError>)
    ensures
        r == block_hit_score_of(*v),
{
    match v {
        Value::Object(o) => {
            let pre_swing = read_u8(o, "PreSwing")?;
            let post_swing = read_u8(o, "PostSwing")?;
            let center_swing = read_u8(o, "CenterSwing")?;
            Ok(BlockHitScore { pre_swing, post_swing, center_swing })
        },
        _ => Err(DecodeError::TypeMismatch),
    }
}

/// Decodes a DataPuller live snapshot. Every field is required; the colour,
/// cut direction and trigger must be ordinals that their tables know.
pub fn decode_live_data(v: &Value) -> (r: Result<LiveData, DecodeError>)
    ensures
        r == live_data_of(*v),
{
    match v {
        Value::Object(o) => {
            let score = read_i64(o, "Score")?;
            let score_with_multipliers = read_i64(o, "ScoreWithMultipliers")?;
            let max_score = read_i64(o, "MaxScore")?;
            let max_score_with_multipliers = read_i64(o, "MaxScoreWithMultipliers")?;
            let rank = read_rank(o, "Rank")?;
            let full_combo = read_bool(o, "FullCombo")?;
            let notes_spawned = read_i64(o, "NotesSpawned")?;
            let combo = read_i64(o, "Combo")?;
            let misses = read_i64(o, "Misses")?;
            let accuracy = read_number(o, "Accuracy")?;
            let block_hit_score = match find_field(o, "BlockHitScore") {
                Some(i) => decode_block_hit_score(&o[i].1)?,
                None => return Err(DecodeError::MissingRequiredField),
            };
            let player_health = read_number(o, "PlayerHealth")?;
            let color_type = read_color_type(o, "ColorType")?;
            let cut_direction = read_cut_direction(o, "CutDirection")?;
            let time_elapsed = read_u64(o, "TimeElapsed")?;
            let event_trigger = read_trigger(o, "EventTrigger")?;
            Ok(LiveData {
                score,
                score_with_multipliers,
                max_score,
                max_score_with_multipliers,
                rank,
                full_combo,
                notes_spawned,
                combo,
                misses,
                accuracy,
                block_hit_score,
                player_health,
                color_type,
                cut_direction,
                time_elapsed,
                event_trigger,
            })
        },
        _ => Err(DecodeError::TypeMismatch),
    }
}

/// Whether every field of a live snapshot that comes before the colour decodes.
pub open spec fn fields_before_color_ok(o: Seq<(String, Value)>) -> bool {
    &&& field_i64(lookup(o, "Score"@)) is Ok
    &&& field_i64(lookup(o, "ScoreWithMultipliers"@)) is Ok
    &&& field_i64(lookup(o, "MaxScore"@)) is Ok
    &&& field_i64(lookup(o, "MaxScoreWithMultipliers"@)) is Ok
    &&& field_rank(lookup(o, "Rank"@)) is Ok
    &&& field_bool(lookup(o, "FullCombo"@)) is Ok
    &&& field_i64(lookup(o, "NotesSpawned"@)) is Ok
    &&& field_i64(lookup(o, "Combo"@)) is Ok
    &&& field_i64(lookup(o, "Misses"@)) is Ok
    &&& field_number(lookup(o, "Accuracy"@)) is Ok
    &&& lookup(o, "BlockHitScore"@) is Some
    &&& block_hit_score_of(lookup(o, "BlockHitScore"@)->Some_0) is Ok
    &&& field_number(lookup(o, "PlayerHealth"@)) is Ok
}

/// A colour ordinal outside its table never decodes to a colour: the snapshot
/// is refused, and with `EnumOutOfRange` when the fields before it are sound.
pub proof fn lemma_out_of_table_color_refused(v: Value)
    requires
        v is Object,
        field_ordinal(lookup(v->Object_0@, "ColorType"@)) is Ok,
        color_type_of(field_ordinal(lookup(v->Object_0@, "ColorType"@))->Ok_0) is None,
    ensures
        live_data_of(v) is Err,
        fields_before_color_ok(v->Object_0@) ==> live_data_of(v) == Err::<LiveData, DecodeError>(
            DecodeError::EnumOutOfRange,
        ),
{
}

/// A cut-direction ordinal outside its table never decodes to a direction: the
/// snapshot is refused, and with `EnumOutOfRange` when the fields before it are
/// sound.
pub proof fn lemma_out_of_table_direction_refused(v: Value)
    requires
        v is Object,
        field_ordinal(lookup(v->Object_0@, "CutDirection"@)) is Ok,
        cut_direction_of(field_ordinal(lookup(v->Object_0@, "CutDirection"@))->Ok_0) is None,
    ensures
        live_data_of(v) is Err,
        fields_before_color_ok(v->Object_0@) && field_color_type(lookup(v->Object_0@, "ColorType"@))
            is Ok ==> live_data_of(v) == Err::<LiveData, DecodeError>(DecodeError::EnumOutOfRange),
{
}

/// Each table gives back what the ordinal of an entry names.
pub proof fn lemma_ordinals_round_trip(c: ColorType, d: NoteCutDirection, t: LiveDataEventTrigger)
    ensures
        color_type_of(c.spec_ordinal()) == Some(c),
        cut_direction_of(d.spec_ordinal()) == Some(d),
        trigger_of(t.spec_ordinal()) == Some(t),
{
}

/// The length of every key of the object, and the letters that tell keys of
/// equal length apart.
proof fn lemma_block_hit_score_keys()
    ensures
        "PreSwing"@.len() == 8,
        "PostSwing"@.len() == 9,
        "CenterSwing"@.len() == 11,
{
    reveal_strlit("PreSwing");
    reveal_strlit("PostSwing");
    reveal_strlit("CenterSwing");
}

/// Encodes `m` as a `BlockHitScore` object; decoding it gives `m` back.
pub fn encode_block_hit_score(m: &BlockHitScore) -> (r: Value)
    ensures
        block_hit_score_of(r) == Ok::<BlockHitScore, DecodeError>(*m),
{
    let o: Vec<(String, Value)> = vec![
        ("PreSwing".to_owned(), encode_u64(m.pre_swing as u64)),
        ("PostSwing".to_owned(), encode_u64(m.post_swing as u64)),
        ("CenterSwing".to_owned(), encode_u64(m.center_swing as u64)),
    ];
    proof {
        lemma_block_hit_score_keys();
        lemma_lookup_hit(o@, "PreSwing"@, 0);
        lemma_lookup_skip(o@, "PostSwing"@, 0);
        lemma_lookup_hit(o@, "PostSwing"@, 1);
        lemma_lookup_skip(o@, "CenterSwing"@, 0);
        lemma_lookup_skip(o@, "CenterSwing"@, 1);
        lemma_lookup_hit(o@, "CenterSwing"@, 2);
    }
    Value::Object(o)
}

/// The length of every key of the object, and the letters that tell keys of
/// equal length apart.
proof fn lemma_live_data_keys()
    ensures
        "Score"@.len() == 5,
        "Score"@[0] == 'S',
        "ScoreWithMultipliers"@.len() == 20,
        "MaxScore"@.len() == 8,
        "MaxScore"@[0] == 'M',
        "MaxScoreWithMultipliers"@.len() == 23,
        "Rank"@.len() == 4,
        "FullCombo"@.len() == 9,
        "FullCombo"@[0] == 'F',
        "NotesSpawned"@.len() == 12,
        "NotesSpawned"@[0] == 'N',
        "Combo"@.len() == 5,
        "Combo"@[0] == 'C',
        "Misses"@.len() == 6,
        "Accuracy"@.len() == 8,
        "Accuracy"@[0] == 'A',
        "BlockHitScore"@.len() == 13,
        "PlayerHealth"@.len() == 12,
        "PlayerHealth"@[0] == 'P',
        "ColorType"@.len() == 9,
        "ColorType"@[0] == 'C',
        "CutDirection"@.len() == 12,
        "CutDirection"@[0] == 'C',
        "TimeElapsed"@.len() == 11,
        "EventTrigger"@.len() == 12,
        "EventTrigger"@[0] == 'E',
{
    reveal_strlit("Score");
    reveal_strlit("ScoreWithMultipliers");
    reveal_strlit("MaxScore");
    reveal_strlit("MaxScoreWithMultipliers");
    reveal_strlit("Rank");
    reveal_strlit("FullCombo");
    reveal_strlit("NotesSpawned");
    reveal_strlit("Combo");
    reveal_strlit("Misses");
    reveal_strlit("Accuracy");
    reveal_strlit("BlockHitScore");
    reveal_strlit("PlayerHealth");
    reveal_strlit("ColorType");
    reveal_strlit("CutDirection");
    reveal_strlit("TimeElapsed");
    reveal_strlit("EventTrigger");
}

/// Encodes `m` as a `LiveData` object; decoding it gives `m` back.
pub fn encode_live_data(m: &LiveData) -> (r: Value)
    ensures
        live_data_of(r) == Ok::<LiveData, DecodeError>(*m),
{
    let o: Vec<(String, Value)> = vec![
        ("Score".to_owned(), encode_i64(m.score)),
        ("ScoreWithMultipliers".to_owned(), encode_i64(m.score_with_multipliers)),
        ("MaxScore".to_owned(), encode_i64(m.max_score)),
        ("MaxScoreWithMultipliers".to_owned(), encode_i64(m.max_score_with_multipliers)),
        ("Rank".to_owned(), Value::Str(m.rank.label().to_owned())),
        ("FullCombo".to_owned(), Value::Bool(m.full_combo)),
        ("NotesSpawned".to_owned(), encode_i64(m.notes_spawned)),
        ("Combo".to_owned(), encode_i64(m.combo)),
        ("Misses".to_owned(), encode_i64(m.misses)),
        ("Accuracy".to_owned(), Value::Number(m.accuracy)),
        ("BlockHitScore".to_owned(), encode_block_hit_score(&m.block_hit_score)),
        ("PlayerHealth".to_owned(), Value::Number(m.player_health)),
        ("ColorType".to_owned(), encode_i64(m.color_type.ordinal())),
        ("CutDirection".to_owned(), encode_i64(m.cut_direction.ordinal())),
        ("TimeElapsed".to_owned(), encode_u64(m.time_elapsed)),
        ("EventTrigger".to_owned(), encode_i64(m.event_trigger.ordinal())),
    ];
    proof {
        lemma_live_data_keys();
        lemma_label_names_rank(m.rank);
        lemma_ordinals_round_trip(m.color_type, NoteCutDirection::Up, LiveDataEventTrigger::Unknown);
        lemma_ordinals_round_trip(ColorType::ColorA, m.cut_direction, LiveDataEventTrigger::Unknown);
        lemma_ordinals_round_trip(ColorType::ColorA, NoteCutDirection::Up, m.event_trigger);
        lemma_lookup_hit(o@, "Score"@, 0);
        lemma_lookup_skip(o@, "ScoreWithMultipliers"@, 0);
        lemma_lookup_hit(o@, "ScoreWithMultipliers"@, 1);
        lemma_lookup_skip(o@, "MaxScore"@, 0);
        lemma_lookup_skip(o@, "MaxScore"@, 1);
        lemma_lookup_hit(o@, "MaxScore"@, 2);
        lemma_lookup_skip(o@, "MaxScoreWithMultipliers"@, 0);
        lemma_lookup_skip(o@, "MaxScoreWithMultipliers"@, 1);
        lemma_lookup_skip(o@, "MaxScoreWithMultipliers"@, 2);
        lemma_lookup_hit(o@, "MaxScoreWithMultipliers"@, 3);
        lemma_lookup_skip(o@, "Rank"@, 0);
        lemma_lookup_skip(o@, "Rank"@, 1);
        lemma_lookup_skip(o@, "Rank"@, 2);
        lemma_lookup_skip(o@, "Rank"@, 3);
        lemma_lookup_hit(o@, "Rank"@, 4);
        lemma_lookup_skip(o@, "FullCombo"@, 0);
        lemma_lookup_skip(o@, "FullCombo"@, 1);
        lemma_lookup_skip(o@, "FullCombo"@, 2);
        lemma_lookup_skip(o@, "FullCombo"@, 3);
        lemma_lookup_skip(o@, "FullCombo"@, 4);
        lemma_lookup_hit(o@, "FullCombo"@, 5);
        lemma_lookup_skip(o@, "NotesSpawned"@, 0);
        lemma_lookup_skip(o@, "NotesSpawned"@, 1);
        lemma_lookup_skip(o@, "NotesSpawned"@, 2);
        lemma_lookup_skip(o@, "NotesSpawned"@, 3);
        lemma_lookup_skip(o@, "NotesSpawned"@, 4);
        lemma_lookup_skip(o@, "NotesSpawned"@, 5);
        lemma_lookup_hit(o@, "NotesSpawned"@, 6);
        lemma_lookup_skip(o@, "Combo"@, 0);
        lemma_lookup_skip(o@, "Combo"@, 1);
        lemma_lookup_skip(o@, "Combo"@, 2);
        lemma_lookup_skip(o@, "Combo"@, 3);
        lemma_lookup_skip(o@, "Combo"@, 4);
        lemma_lookup_skip(o@, "Combo"@, 5);
        lemma_lookup_skip(o@, "Combo"@, 6);
        lemma_lookup_hit(o@, "Combo"@, 7);
        lemma_lookup_skip(o@, "Misses"@, 0);
        lemma_lookup_skip(o@, "Misses"@, 1);
        lemma_lookup_skip(o@, "Misses"@, 2);
        lemma_lookup_skip(o@, "Misses"@, 3);
        lemma_lookup_skip(o@, "Misses"@, 4);
        lemma_lookup_skip(o@, "Misses"@, 5);
        lemma_lookup_skip(o@, "Misses"@, 6);
        lemma_lookup_skip(o@, "Misses"@, 7);
        lemma_lookup_hit(o@, "Misses"@, 8);
        lemma_lookup_skip(o@, "Accuracy"@, 0);
        lemma_lookup_skip(o@, "Accuracy"@, 1);
        lemma_lookup_skip(o@, "Accuracy"@, 2);
        lemma_lookup_skip(o@, "Accuracy"@, 3);
        lemma_lookup_skip(o@, "Accuracy"@, 4);
        lemma_lookup_skip(o@, "Accuracy"@, 5);
        lemma_lookup_skip(o@, "Accuracy"@, 6);
        lemma_lookup_skip(o@, "Accuracy"@, 7);
        lemma_lookup_skip(o@, "Accuracy"@, 8);
        lemma_lookup_hit(o@, "Accuracy"@, 9);
        lemma_lookup_skip(o@, "BlockHitScore"@, 0);
        lemma_lookup_skip(o@, "BlockHitScore"@, 1);
        lemma_lookup_skip(o@, "BlockHitScore"@, 2);
        lemma_lookup_skip(o@, "BlockHitScore"@, 3);
        lemma_lookup_skip(o@, "BlockHitScore"@, 4);
        lemma_lookup_skip(o@, "BlockHitScore"@, 5);
        lemma_lookup_skip(o@, "BlockHitScore"@, 6);
        lemma_lookup_skip(o@, "BlockHitScore"@, 7);
        lemma_lookup_skip(o@, "BlockHitScore"@, 8);
        lemma_lookup_skip(o@, "BlockHitScore"@, 9);
        lemma_lookup_hit(o@, "BlockHitScore"@, 10);
        lemma_lookup_skip(o@, "PlayerHealth"@, 0);
        lemma_lookup_skip(o@, "PlayerHealth"@, 1);
        lemma_lookup_skip(o@, "PlayerHealth"@, 2);
        lemma_lookup_skip(o@, "PlayerHealth"@, 3);
        lemma_lookup_skip(o@, "PlayerHealth"@, 4);
        lemma_lookup_skip(o@, "PlayerHealth"@, 5);
        lemma_lookup_skip(o@, "PlayerHealth"@, 6);
        lemma_lookup_skip(o@, "PlayerHealth"@, 7);
        lemma_lookup_skip(o@, "PlayerHealth"@, 8);
        lemma_lookup_skip(o@, "PlayerHealth"@, 9);
        lemma_lookup_skip(o@, "PlayerHealth"@, 10);
        lemma_lookup_hit(o@, "PlayerHealth"@, 11);
        lemma_lookup_skip(o@, "ColorType"@, 0);
        lemma_lookup_skip(o@, "ColorType"@, 1);
        lemma_lookup_skip(o@, "ColorType"@, 2);
        lemma_lookup_skip(o@, "ColorType"@, 3);
        lemma_lookup_skip(o@, "ColorType"@, 4);
        lemma_lookup_skip(o@, "ColorType"@, 5);
        lemma_lookup_skip(o@, "ColorType"@, 6);
        lemma_lookup_skip(o@, "ColorType"@, 7);
        lemma_lookup_skip(o@, "ColorType"@, 8);
        lemma_lookup_skip(o@, "ColorType"@, 9);
        lemma_lookup_skip(o@, "ColorType"@, 10);
        lemma_lookup_skip(o@, "ColorType"@, 11);
        lemma_lookup_hit(o@, "ColorType"@, 12);
        lemma_lookup_skip(o@, "CutDirection"@, 0);
        lemma_lookup_skip(o@, "CutDirection"@, 1);
        lemma_lookup_skip(o@, "CutDirection"@, 2);
        lemma_lookup_skip(o@, "CutDirection"@, 3);
        lemma_lookup_skip(o@, "CutDirection"@, 4);
        lemma_lookup_skip(o@, "CutDirection"@, 5);
        lemma_lookup_skip(o@, "CutDirection"@, 6);
        lemma_lookup_skip(o@, "CutDirection"@, 7);
        lemma_lookup_skip(o@, "CutDirection"@, 8);
        lemma_lookup_skip(o@, "CutDirection"@, 9);
        lemma_lookup_skip(o@, "CutDirection"@, 10);
        lemma_lookup_skip(o@, "CutDirection"@, 11);
        lemma_lookup_skip(o@, "CutDirection"@, 12);
        lemma_lookup_hit(o@, "CutDirection"@, 13);
        lemma_lookup_skip(o@, "TimeElapsed"@, 0);
        lemma_lookup_skip(o@, "TimeElapsed"@, 1);
        lemma_lookup_skip(o@, "TimeElapsed"@, 2);
        lemma_lookup_skip(o@, "TimeElapsed"@, 3);
        lemma_lookup_skip(o@, "TimeElapsed"@, 4);
        lemma_lookup_skip(o@, "TimeElapsed"@, 5);
        lemma_lookup_skip(o@, "TimeElapsed"@, 6);
        lemma_lookup_skip(o@, "TimeElapsed"@, 7);
        lemma_lookup_skip(o@, "TimeElapsed"@, 8);
        lemma_lookup_skip(o@, "TimeElapsed"@, 9);
        lemma_lookup_skip(o@, "TimeElapsed"@, 10);
        lemma_lookup_skip(o@, "TimeElapsed"@, 11);
        lemma_lookup_skip(o@, "TimeElapsed"@, 12);
        lemma_lookup_skip(o@, "TimeElapsed"@, 13);
        lemma_lookup_hit(o@, "TimeElapsed"@, 14);
        lemma_lookup_skip(o@, "EventTrigger"@, 0);
        lemma_lookup_skip(o@, "EventTrigger"@, 1);
        lemma_lookup_skip(o@, "EventTrigger"@, 2);
        lemma_lookup_skip(o@, "EventTrigger"@, 3);
        lemma_lookup_skip(o@, "EventTrigger"@, 4);
        lemma_lookup_skip(o@, "EventTrigger"@, 5);
        lemma_lookup_skip(o@, "EventTrigger"@, 6);
        lemma_lookup_skip(o@, "EventTrigger"@, 7);
        lemma_lookup_skip(o@, "EventTrigger"@, 8);
        lemma_lookup_skip(o@, "EventTrigger"@, 9);
        lemma_lookup_skip(o@, "EventTrigger"@, 10);
        lemma_lookup_skip(o@, "EventTrigger"@, 11);
        lemma_lookup_skip(o@, "EventTrigger"@, 12);
        lemma_lookup_skip(o@, "EventTrigger"@, 13);
        lemma_lookup_skip(o@, "EventTrigger"@, 14);
        lemma_lookup_hit(o@, "EventTrigger"@, 15);
    }
    Value::Object(o)
}

impl Default for ColorType {
    fn default() -> (r: ColorType)
        ensures
            r == ColorType::NoColor,
    {
        ColorType::NoColor
    }
}

impl Default for NoteCutDirection {
    fn default() -> (r: NoteCutDirection)
        ensures
            r == NoteCutDirection::NoDirection,
    {
        NoteCutDirection::NoDirection
    }
}

impl Default for LiveDataEventTrigger {
    fn default() -> (r: LiveDataEventTrigger)
        ensures
            r == LiveDataEventTrigger::Unknown,
    {
        LiveDataEventTrigger::Unknown
    }
}

} // verus!
