//! DataPuller's map-level snapshot and its decoder.
use vstd::prelude::*;
use crate::error::DecodeError;
use crate::value::{Number, Value};
use crate::wire::{
    err_of, field_bool, field_i64, field_nested, field_number, field_opt_str, field_str,
    field_str_list, field_u8, find_field, lookup, read_bool, read_i64, read_number,
    read_opt_str, read_str, read_str_list, read_u8, Fields, encode_i64, encode_opt_str,
    encode_str_list, encode_u64, lemma_lookup_hit, lemma_lookup_skip,
};

verus! {


/// The gameplay modifiers that the player selected.
#[derive(Clone, Copy, Debug, Default, PartialEq, Eq, Structural)]
pub struct Modifiers {
    /// No Fail: the level goes on at zero energy.
    pub no_fail_on_0_energy: bool,
    /// One Life.
    pub one_life: bool,
    /// Four Lives.
    pub four_lives: bool,
    /// No Bombs.
    pub no_bombs: bool,
    /// No Walls.
    pub no_walls: bool,
    /// No Arrows.
    pub no_arrows: bool,
    /// Ghost Notes.
    pub ghost_notes: bool,
    /// Disappearing Arrows.
    pub disappearing_arrows: bool,
    /// Small Notes.
    pub small_notes: bool,
    /// Pro Mode.
    pub pro_mode: bool,
    /// Strict Angles.
    pub strict_angles: bool,
    /// Zen Mode.
    pub zen_mode: bool,
    /// Slower Song.
    pub slower_song: bool,
    /// Faster Song.
    pub faster_song: bool,
    /// Super Fast Song.
    pub super_fast_song: bool,
}
/// Settings of practice mode.
#[derive(Clone, Default, Copy, Debug, PartialEq, Eq, Structural)]
pub struct PracticeModeModifiers {
    /// The speed factor of the song.
    pub song_speed_mul: Number,
    /// Whether play starts early with the notes before the start cleared.
    pub start_in_advance_and_clear_notes: bool,
    /// Where in the song play starts, in seconds.
    pub song_start_time: Number,
}
/// A colour with transparency.
#[derive(Clone, Debug, PartialEq)]
pub struct RGBAColor {
    /// The RGB colour as `#rrggbb`; `#000000` when the wire leaves it out.
    pub hex_code: String,
    /// The red component (0 to 255).
    pub red: u8,
    /// The green component (0 to 255).
    pub green: u8,
    /// The blue component (0 to 255).
    pub blue: u8,
    /// The alpha component (0 to 1).
    pub alpha: Number,
}
/// The colours of a map; each is absent when the map does not set it.
#[derive(Clone, Default, Debug, PartialEq)]
pub struct ColorScheme {
    /// The primary (usually left) saber and its notes.
    pub saber_a_color: Option<RGBAColor>,
    /// The secondary (usually right) saber and its notes.
    pub saber_b_color: Option<RGBAColor>,
    /// The walls.
    pub obstacles_color: Option<RGBAColor>,
    /// The primary environment colour.
    pub environment_color0: Option<RGBAColor>,
    /// The secondary environment colour.
    pub environment_color1: Option<RGBAColor>,
    /// The primary environment boost colour.
    pub environment_color0_boost: Option<RGBAColor>,
    /// The secondary environment boost colour.
    pub environment_color1_boost: Option<RGBAColor>,
}
/// How a map stands on the leaderboards.
#[derive(Clone, Default, Copy, Debug, PartialEq, Eq, Structural)]
pub struct RankedState {
    /// Ranked on any leaderboard.
    pub ranked: bool,
    /// Qualified on any leaderboard.
    pub qualified: bool,
    /// Qualified on BeatLeader.
    pub beatleader_qualified: bool,
    /// Qualified on ScoreSaber.
    pub scoresaber_qualified: bool,
    /// Ranked on BeatLeader.
    pub beatleader_ranked: bool,
    /// Ranked on ScoreSaber.
    pub scoresaber_ranked: bool,
    /// BeatLeader stars; 0 if unknown.
    pub beatleader_stars: Number,
    /// ScoreSaber stars; 0 if unknown.
    pub scoresaber_stars: Number,
}
/// DataPuller's snapshot of the map and session.
#[derive(Clone, Default, Debug, PartialEq)]
pub struct MapData {
    /// Whether the level is paused.
    pub level_paused: bool,
    /// Whether the level was played to the end.
    pub level_finished: bool,
    /// Whether the level was failed.
    pub level_failed: bool,
    /// Whether the player quit the level.
    pub level_quit: bool,
    /// The map's hash; absent when it cannot be determined.
    pub hash: Option<String>,
    /// The built-in level's identifier; absent for other maps.
    pub level_id: Option<String>,
    /// The song's name.
    pub song_name: String,
    /// The song's sub-name.
    pub song_sub_name: String,
    /// The song's author.
    pub song_author: String,
    /// Mappers and lighters, comma-separated (kept for older consumers).
    pub mapper: String,
    /// The mappers.
    pub mappers: Vec<String>,
    /// The lighters.
    pub lighters: Vec<String>,
    /// The content rating.
    pub content_rating: String,
    /// The catalog key; absent when unknown.
    pub bsr_key: Option<String>,
    /// The cover image; absent when unknown.
    pub cover_image: Option<String>,
    /// The duration in seconds.
    pub duration: i64,
    /// The characteristic (Standard, 360, OneSaber, ...).
    pub map_type: String,
    /// The standard difficulty label.
    pub difficulty: String,
    /// The mapper's own difficulty label; absent if none.
    pub custom_difficulty_label: Option<String>,
    /// Beats per minute.
    pub bpm: i64,
    /// Note jump speed.
    pub njs: Number,
    /// The selected modifiers.
    pub modifiers: Modifiers,
    /// The score multiplier of the selected modifiers.
    pub modifiers_multiplier: Number,
    /// Whether the map is played in practice mode.
    pub practice_mode: bool,
    /// The practice-mode settings.
    pub practice_mode_modifiers: PracticeModeModifiers,
    /// Performance points (kept for older consumers); 0 if unknown.
    pub pp: Number,
    /// ScoreSaber stars (kept for older consumers); 0 if unknown.
    pub star: Number,
    /// Ranking on the leaderboards.
    pub ranked_state: RankedState,
    /// The catalog rating in percent; 0 if unknown.
    pub rating: Number,
    /// The colour scheme.
    pub color_scheme: ColorScheme,
    /// The game's version.
    pub game_version: String,
    /// The sending plugin's version.
    pub plugin_version: String,
    /// Whether the player is in a multiplayer lobby.
    pub is_multiplayer: bool,
    /// The player's previous best on this map and difficulty; 0 if none.
    pub previous_record: i64,
    /// The catalog key of the previous map; absent if none or unknown. The sender leaves it unchanged while the same map repeats.
    pub previous_bsr: Option<String>,
}

/// The hex code used when the wire leaves it out.
pub fn default_hex_code() -> (r: String)
    ensures
        r@ == "#000000"@,
{
    "#000000".to_owned()
}

/// A hex-code field: `#000000` when absent, else a string.
pub open spec fn field_hex(f: Option<Value>) -> Result<Seq<char>, DecodeError> {
    match f {
        None => Ok("#000000"@),
        Some(Value::Str(s)) => Ok(s@),
        Some(_) => Err(DecodeError::TypeMismatch),
    }
}

/// Reads a hex-code field.
pub fn read_hex(o: &Fields, key: &str) -> (r: Result<String, DecodeError>)
    ensures
        match r {
            Ok(h) => field_hex(lookup(o@, key@)) == Ok::<Seq<char>, DecodeError>(h@),
            Err(e) => field_hex(lookup(o@, key@)) == Err::<Seq<char>, DecodeError>(e),
        },
{
    match find_field(o, key) {
        None => Ok(default_hex_code()),
        Some(i) => match &o[i].1 {
            Value::Str(s) => Ok(s.clone()),
            _ => Err(DecodeError::TypeMismatch),
        },
    }
}

/// The decoding of a `Modifiers` object.
pub open spec fn modifiers_of(v: Value) -> Result<Modifiers, DecodeError> {
    match v {
        Value::Object(o) => {
            let no_fail_on_0_energy = field_bool(lookup(o@, "NoFailOn0Energy"@));
            let one_life = field_bool(lookup(o@, "OneLife"@));
            let four_lives = field_bool(lookup(o@, "FourLives"@));
            let no_bombs = field_bool(lookup(o@, "NoBombs"@));
            let no_walls = field_bool(lookup(o@, "NoWalls"@));
            let no_arrows = field_bool(lookup(o@, "NoArrows"@));
            let ghost_notes = field_bool(lookup(o@, "GhostNotes"@));
            let disappearing_arrows = field_bool(lookup(o@, "DisappearingArrows"@));
            let small_notes = field_bool(lookup(o@, "SmallNotes"@));
            let pro_mode = field_bool(lookup(o@, "ProMode"@));
            let strict_angles = field_bool(lookup(o@, "StrictAngles"@));
            let zen_mode = field_bool(lookup(o@, "ZenMode"@));
            let slower_song = field_bool(lookup(o@, "SlowerSong"@));
            let faster_song = field_bool(lookup(o@, "FasterSong"@));
            let super_fast_song = field_bool(lookup(o@, "SuperFastSong"@));
            if no_fail_on_0_energy is Err {
                Err(no_fail_on_0_energy->Err_0)
            } else if one_life is Err {
                Err(one_life->Err_0)
            } else if four_lives is Err {
                Err(four_lives->Err_0)
            } else if no_bombs is Err {
                Err(no_bombs->Err_0)
            } else if no_walls is Err {
                Err(no_walls->Err_0)
            } else if no_arrows is Err {
                Err(no_arrows->Err_0)
            } else if ghost_notes is Err {
                Err(ghost_notes->Err_0)
            } else if disappearing_arrows is Err {
                Err(disappearing_arrows->Err_0)
            } else if small_notes is Err {
                Err(small_notes->Err_0)
            } else if pro_mode is Err {
                Err(pro_mode->Err_0)
            } else if strict_angles is Err {
                Err(strict_angles->Err_0)
            } else if zen_mode is Err {
                Err(zen_mode->Err_0)
            } else if slower_song is Err {
                Err(slower_song->Err_0)
            } else if faster_song is Err {
                Err(faster_song->Err_0)
            } else if super_fast_song is Err {
                Err(super_fast_song->Err_0)
            } else {
                Ok(Modifiers {
                    no_fail_on_0_energy: no_fail_on_0_energy->Ok_0,
                    one_life: one_life->Ok_0,
                    four_lives: four_lives->Ok_0,
                    no_bombs: no_bombs->Ok_0,
                    no_walls: no_walls->Ok_0,
                    no_arrows: no_arrows->Ok_0,
                    ghost_notes: ghost_notes->Ok_0,
                    disappearing_arrows: disappearing_arrows->Ok_0,
                    small_notes: small_notes->Ok_0,
                    pro_mode: pro_mode->Ok_0,
                    strict_angles: strict_angles->Ok_0,
                    zen_mode: zen_mode->Ok_0,
                    slower_song: slower_song->Ok_0,
                    faster_song: faster_song->Ok_0,
                    super_fast_song: super_fast_song->Ok_0,
                })
            }
        },
        _ => Err(DecodeError::TypeMismatch),
    }
}

/// Decodes a `Modifiers` object. Every flag is required.
pub fn decode_modifiers(v: &Value) -> (r: Result<Modifiers, DecodeError>)
    ensures
        r == modifiers_of(*v),
{
    match v {
        Value::Object(o) => {
            let no_fail_on_0_energy = read_bool(o, "NoFailOn0Energy")?;
            let one_life = read_bool(o, "OneLife")?;
            let four_lives = read_bool(o, "FourLives")?;
            let no_bombs = read_bool(o, "NoBombs")?;
            let no_walls = read_bool(o, "NoWalls")?;
            let no_arrows = read_bool(o, "NoArrows")?;
            let ghost_notes = read_bool(o, "GhostNotes")?;
            let disappearing_arrows = read_bool(o, "DisappearingArrows")?;
            let small_notes = read_bool(o, "SmallNotes")?;
            let pro_mode = read_bool(o, "ProMode")?;
            let strict_angles = read_bool(o, "StrictAngles")?;
            let zen_mode = read_bool(o, "ZenMode")?;
            let slower_song = read_bool(o, "SlowerSong")?;
            let faster_song = read_bool(o, "FasterSong")?;
            let super_fast_song = read_bool(o, "SuperFastSong")?;
            Ok(Modifiers {
                no_fail_on_0_energy,
                one_life,
                four_lives,
                no_bombs,
                no_walls,
                no_arrows,
                ghost_notes,
                disappearing_arrows,
                small_notes,
                pro_mode,
                strict_angles,
                zen_mode,
                slower_song,
                faster_song,
                super_fast_song,
            })
        },
        _ => Err(DecodeError::TypeMismatch),
    }
}

/// The decoding of a `PracticeModeModifiers` object.
pub open spec fn practice_mode_modifiers_of(v: Value) -> Result<PracticeModeModifiers, DecodeError> {
    match v {
        Value::Object(o) => {
            let song_speed_mul = field_number(lookup(o@, "SongSpeedMul"@));
            let start_in_advance_and_clear_notes = field_bool(lookup(o@, "StartInAdvanceAndClearNotes"@));
            let song_start_time = field_number(lookup(o@, "SongStartTime"@));
            if song_speed_mul is Err {
                Err(song_speed_mul->Err_0)
            } else if start_in_advance_and_clear_notes is Err {
                Err(start_in_advance_and_clear_notes->Err_0)
            } else if song_start_time is Err {
                Err(song_start_time->Err_0)
            } else {
                Ok(PracticeModeModifiers {
                    song_speed_mul: song_speed_mul->Ok_0,
                    start_in_advance_and_clear_notes: start_in_advance_and_clear_notes->Ok_0,
                    song_start_time: song_start_time->Ok_0,
                })
            }
        },
        _ => Err(DecodeError::TypeMismatch),
    }
}

/// Decodes a `PracticeModeModifiers` object. Every field is required.
pub fn decode_practice_mode_modifiers(v: &Value) -> (r: Result<PracticeModeModifiers, DecodeError>)
    ensures
        r == practice_mode_modifiers_of(*v),
{
    match v {
        Value::Object(o) => {
            let song_speed_mul = read_number(o, "SongSpeedMul")?;
            let start_in_advance_and_clear_notes = read_bool(o, "StartInAdvanceAndClearNotes")?;
            let song_start_time = read_number(o, "SongStartTime")?;
            Ok(PracticeModeModifiers {
                song_speed_mul,
                start_in_advance_and_clear_notes,
                song_start_time,
            })
        },
        _ => Err(DecodeError::TypeMismatch),
    }
}

/// The decoding of a `RankedState` object.
pub open spec fn ranked_state_of(v: Value) -> Result<RankedState, DecodeError> {
    match v {
        Value::Object(o) => {
            let ranked = field_bool(lookup(o@, "Ranked"@));
            let qualified = field_bool(lookup(o@, "Qualified"@));
            let beatleader_qualified = field_bool(lookup(o@, "BeatleaderQualified"@));
            let scoresaber_qualified = field_bool(lookup(o@, "ScoresaberQualified"@));
            let beatleader_ranked = field_bool(lookup(o@, "BeatleaderRanked"@));
            let scoresaber_ranked = field_bool(lookup(o@, "ScoresaberRanked"@));
            let beatleader_stars = field_number(lookup(o@, "BeatleaderStars"@));
            let scoresaber_stars = field_number(lookup(o@, "ScoresaberStars"@));
            if ranked is Err {
                Err(ranked->Err_0)
            } else if qualified is Err {
                Err(qualified->Err_0)
            } else if beatleader_qualified is Err {
                Err(beatleader_qualified->Err_0)
            } else if scoresaber_qualified is Err {
                Err(scoresaber_qualified->Err_0)
            } else if beatleader_ranked is Err {
                Err(beatleader_ranked->Err_0)
            } else if scoresaber_ranked is Err {
                Err(scoresaber_ranked->Err_0)
            } else if beatleader_stars is Err {
                Err(beatleader_stars->Err_0)
            } else if scoresaber_stars is Err {
                Err(scoresaber_stars->Err_0)
            } else {
                Ok(RankedState {
                    ranked: ranked->Ok_0,
                    qualified: qualified->Ok_0,
                    beatleader_qualified: beatleader_qualified->Ok_0,
                    scoresaber_qualified: scoresaber_qualified->Ok_0,
                    beatleader_ranked: beatleader_ranked->Ok_0,
                    scoresaber_ranked: scoresaber_ranked->Ok_0,
                    beatleader_stars: beatleader_stars->Ok_0,
                    scoresaber_stars: scoresaber_stars->Ok_0,
                })
            }
        },
        _ => Err(DecodeError::TypeMismatch),
    }
}

/// Decodes a `RankedState` object. Every field is required.
pub fn decode_ranked_state(v: &Value) -> (r: Result<RankedState, DecodeError>)
    ensures
        r == ranked_state_of(*v),
{
    match v {
        Value::Object(o) => {
            let ranked = read_bool(o, "Ranked")?;
            let qualified = read_bool(o, "Qualified")?;
            let beatleader_qualified = read_bool(o, "BeatleaderQualified")?;
            let scoresaber_qualified = read_bool(o, "ScoresaberQualified")?;
            let beatleader_ranked = read_bool(o, "BeatleaderRanked")?;
            let scoresaber_ranked = read_bool(o, "ScoresaberRanked")?;
            let beatleader_stars = read_number(o, "BeatleaderStars")?;
            let scoresaber_stars = read_number(o, "ScoresaberStars")?;
            Ok(RankedState {
                ranked,
                qualified,
                beatleader_qualified,
                scoresaber_qualified,
                beatleader_ranked,
                scoresaber_ranked,
                beatleader_stars,
                scoresaber_stars,
            })
        },
        _ => Err(DecodeError::TypeMismatch),
    }
}

/// The first error in decoding a `RGBAColor` object, if any, fields taken in order.
pub open spec fn rgba_color_error(v: Value) -> Option<DecodeError> {
    match v {
        Value::Object(o) => {
            let hex_code = err_of(field_hex(lookup(o@, "HexCode"@)));
            let red = err_of(field_u8(lookup(o@, "Red"@)));
            let green = err_of(field_u8(lookup(o@, "Green"@)));
            let blue = err_of(field_u8(lookup(o@, "Blue"@)));
            let alpha = err_of(field_number(lookup(o@, "Alpha"@)));
            if hex_code is Some {
                hex_code
            } else if red is Some {
                red
            } else if green is Some {
                green
            } else if blue is Some {
                blue
            } else if alpha is Some {
                alpha
            } else {
                None
            }
        },
        _ => Some(DecodeError::TypeMismatch),
    }
}

/// Whether `c` holds what the fields of the `RGBAColor` object `v` say.
pub open spec fn rgba_color_decodes(v: Value, c: RGBAColor) -> bool {
    match v {
        Value::Object(o) => {
            &&& field_hex(lookup(o@, "HexCode"@)) == Ok::<Seq<char>, DecodeError>(c.hex_code@)
            &&& field_u8(lookup(o@, "Red"@)) == Ok::<u8, DecodeError>(c.red)
            &&& field_u8(lookup(o@, "Green"@)) == Ok::<u8, DecodeError>(c.green)
            &&& field_u8(lookup(o@, "Blue"@)) == Ok::<u8, DecodeError>(c.blue)
            &&& field_number(lookup(o@, "Alpha"@)) == Ok::<Number, DecodeError>(c.alpha)
        },
        _ => false,
    }
}

/// Decodes an `RGBAColor` object. The hex code defaults to `#000000`; the components are required.
pub fn decode_rgba_color(v: &Value) -> (r: Result<RGBAColor, DecodeError>)
    ensures
        match r {
            Ok(c) => rgba_color_error(*v) is None && rgba_color_decodes(*v, c),
            Err(e) => rgba_color_error(*v) == Some(e),
        },
{
    match v {
        Value::Object(o) => {
            let hex_code = read_hex(o, "HexCode")?;
            let red = read_u8(o, "Red")?;
            let green = read_u8(o, "Green")?;
            let blue = read_u8(o, "Blue")?;
            let alpha = read_number(o, "Alpha")?;
            Ok(RGBAColor {
                hex_code,
                red,
                green,
                blue,
                alpha,
            })
        },
        _ => Err(DecodeError::TypeMismatch),
    }
}

/// The first error in decoding an optional colour field: absent and null read
/// as no colour.
pub open spec fn opt_rgba_error(f: Option<Value>) -> Option<DecodeError> {
    match f {
        None => None,
        Some(Value::Null) => None,
        Some(v) => rgba_color_error(v),
    }
}

/// Whether `c` holds what an optional colour field says.
pub open spec fn opt_rgba_decodes(f: Option<Value>, c: Option<RGBAColor>) -> bool {
    match f {
        None => c is None,
        Some(Value::Null) => c is None,
        Some(v) => c matches Some(x) && rgba_color_decodes(v, x),
    }
}

/// Reads an optional colour field.
pub fn read_opt_rgba(o: &Fields, key: &str) -> (r: Result<Option<RGBAColor>, DecodeError>)
    ensures
        match r {
            Ok(c) => opt_rgba_error(lookup(o@, key@)) is None && opt_rgba_decodes(lookup(o@, key@), c),
            Err(e) => opt_rgba_error(lookup(o@, key@)) == Some(e),
        },
{
    match find_field(o, key) {
        None => Ok(None),
        Some(i) => match &o[i].1 {
            Value::Null => Ok(None),
            w => Ok(Some(decode_rgba_color(w)?)),
        },
    }
}

/// The first error in decoding a `ColorScheme` object, if any, fields taken in order.
pub open spec fn color_scheme_error(v: Value) -> Option<DecodeError> {
    match v {
        Value::Object(o) => {
            let saber_a_color = opt_rgba_error(lookup(o@, "SaberAColor"@));
            let saber_b_color = opt_rgba_error(lookup(o@, "SaberBColor"@));
            let obstacles_color = opt_rgba_error(lookup(o@, "ObstaclesColor"@));
            let environment_color0 = opt_rgba_error(lookup(o@, "EnvironmentColor0"@));
            let environment_color1 = opt_rgba_error(lookup(o@, "EnvironmentColor1"@));
            let environment_color0_boost = opt_rgba_error(lookup(o@, "EnvironmentColor0Boost"@));
            let environment_color1_boost = opt_rgba_error(lookup(o@, "EnvironmentColor1Boost"@));
            if saber_a_color is Some {
                saber_a_color
            } else if saber_b_color is Some {
                saber_b_color
            } else if obstacles_color is Some {
                obstacles_color
            } else if environment_color0 is Some {
                environment_color0
            } else if environment_color1 is Some {
                environment_color1
            } else if environment_color0_boost is Some {
                environment_color0_boost
            } else if environment_color1_boost is Some {
                environment_color1_boost
            } else {
                None
            }
        },
        _ => Some(DecodeError::TypeMismatch),
    }
}

/// Whether `c` holds what the fields of the `ColorScheme` object `v` say.
pub open spec fn color_scheme_decodes(v: Value, c: ColorScheme) -> bool {
    match v {
        Value::Object(o) => {
            &&& opt_rgba_decodes(lookup(o@, "SaberAColor"@), c.saber_a_color)
            &&& opt_rgba_decodes(lookup(o@, "SaberBColor"@), c.saber_b_color)
            &&& opt_rgba_decodes(lookup(o@, "ObstaclesColor"@), c.obstacles_color)
            &&& opt_rgba_decodes(lookup(o@, "EnvironmentColor0"@), c.environment_color0)
            &&& opt_rgba_decodes(lookup(o@, "EnvironmentColor1"@), c.environment_color1)
            &&& opt_rgba_decodes(lookup(o@, "EnvironmentColor0Boost"@), c.environment_color0_boost)
            &&& opt_rgba_decodes(lookup(o@, "EnvironmentColor1Boost"@), c.environment_color1_boost)
        },
        _ => false,
    }
}

/// Decodes a `ColorScheme` object. Every colour is optional.
pub fn decode_color_scheme(v: &Value) -> (r: Result<ColorScheme, DecodeError>)
    ensures
        match r {
            Ok(c) => color_scheme_error(*v) is None && color_scheme_decodes(*v, c),
            Err(e) => color_scheme_error(*v) == Some(e),
        },
{
    match v {
        Value::Object(o) => {
            let saber_a_color = read_opt_rgba(o, "SaberAColor")?;
            let saber_b_color = read_opt_rgba(o, "SaberBColor")?;
            let obstacles_color = read_opt_rgba(o, "ObstaclesColor")?;
            let environment_color0 = read_opt_rgba(o, "EnvironmentColor0")?;
            let environment_color1 = read_opt_rgba(o, "EnvironmentColor1")?;
            let environment_color0_boost = read_opt_rgba(o, "EnvironmentColor0Boost")?;
            let environment_color1_boost = read_opt_rgba(o, "EnvironmentColor1Boost")?;
            Ok(ColorScheme {
                saber_a_color,
                saber_b_color,
                obstacles_color,
                environment_color0,
                environment_color1,
                environment_color0_boost,
                environment_color1_boost,
            })
        },
        _ => Err(DecodeError::TypeMismatch),
    }
}

/// The first error in decoding a required colour-scheme field.
pub open spec fn color_scheme_field_error(f: Option<Value>) -> Option<DecodeError> {
    match f {
        None => Some(DecodeError::MissingRequiredField),
        Some(v) => color_scheme_error(v),
    }
}

/// The first error in decoding a `MapData` object, if any, fields taken in order.
pub open spec fn map_data_error(v: Value) -> Option<DecodeError> {
    match v {
        Value::Object(o) => {
            let level_paused = err_of(field_bool(lookup(o@, "LevelPaused"@)));
            let level_finished = err_of(field_bool(lookup(o@, "LevelFinished"@)));
            let level_failed = err_of(field_bool(lookup(o@, "LevelFailed"@)));
            let level_quit = err_of(field_bool(lookup(o@, "LevelQuit"@)));
            let hash = err_of(field_opt_str(lookup(o@, "Hash"@)));
            let level_id = err_of(field_opt_str(lookup(o@, "LevelId"@)));
            let song_name = err_of(field_str(lookup(o@, "SongName"@)));
            let song_sub_name = err_of(field_str(lookup(o@, "SongSubName"@)));
            let song_author = err_of(field_str(lookup(o@, "SongAuthor"@)));
            let mapper = err_of(field_str(lookup(o@, "Mapper"@)));
            let mappers = err_of(field_str_list(lookup(o@, "Mappers"@)));
            let lighters = err_of(field_str_list(lookup(o@, "Lighters"@)));
            let content_rating = err_of(field_str(lookup(o@, "ContentRating"@)));
            let bsr_key = err_of(field_opt_str(lookup(o@, "BsrKey"@)));
            let cover_image = err_of(field_opt_str(lookup(o@, "CoverImage"@)));
            let duration = err_of(field_i64(lookup(o@, "Duration"@)));
            let map_type = err_of(field_str(lookup(o@, "MapType"@)));
            let difficulty = err_of(field_str(lookup(o@, "Difficulty"@)));
            let custom_difficulty_label = err_of(field_opt_str(lookup(o@, "CustomDifficultyLabel"@)));
            let bpm = err_of(field_i64(lookup(o@, "Bpm"@)));
            let njs = err_of(field_number(lookup(o@, "Njs"@)));
            let modifiers = err_of(field_nested(lookup(o@, "Modifiers"@), |v: Value| modifiers_of(v)));
            let modifiers_multiplier = err_of(field_number(lookup(o@, "ModifiersMultiplier"@)));
            let practice_mode = err_of(field_bool(lookup(o@, "PracticeMode"@)));
            let practice_mode_modifiers = err_of(field_nested(lookup(o@, "PracticeModeModifiers"@), |v: Value| practice_mode_modifiers_of(v)));
            let pp = err_of(field_number(lookup(o@, "Pp"@)));
            let star = err_of(field_number(lookup(o@, "Star"@)));
            let ranked_state = err_of(field_nested(lookup(o@, "RankedState"@), |v: Value| ranked_state_of(v)));
            let rating = err_of(field_number(lookup(o@, "Rating"@)));
            let color_scheme = color_scheme_field_error(lookup(o@, "ColorScheme"@));
            let game_version = err_of(field_str(lookup(o@, "GameVersion"@)));
            let plugin_version = err_of(field_str(lookup(o@, "PluginVersion"@)));
            let is_multiplayer = err_of(field_bool(lookup(o@, "IsMultiplayer"@)));
            let previous_record = err_of(field_i64(lookup(o@, "PreviousRecord"@)));
            let previous_bsr = err_of(field_opt_str(lookup(o@, "PreviousBsr"@)));
            if level_paused is Some {
                level_paused
            } else if level_finished is Some {
                level_finished
            } else if level_failed is Some {
                level_failed
            } else if level_quit is Some {
                level_quit
            } else if hash is Some {
                hash
            } else if level_id is Some {
                level_id
            } else if song_name is Some {
                song_name
            } else if song_sub_name is Some {
                song_sub_name
            } else if song_author is Some {
                song_author
            } else if mapper is Some {
                mapper
            } else if mappers is Some {
                mappers
            } else if lighters is Some {
                lighters
            } else if content_rating is Some {
                content_rating
            } else if bsr_key is Some {
                bsr_key
            } else if cover_image is Some {
                cover_image
            } else if duration is Some {
                duration
            } else if map_type is Some {
                map_type
            } else if difficulty is Some {
                difficulty
            } else if custom_difficulty_label is Some {
                custom_difficulty_label
            } else if bpm is Some {
                bpm
            } else if njs is Some {
                njs
            } else if modifiers is Some {
                modifiers
            } else if modifiers_multiplier is Some {
                modifiers_multiplier
            } else if practice_mode is Some {
                practice_mode
            } else if practice_mode_modifiers is Some {
                practice_mode_modifiers
            } else if pp is Some {
                pp
            } else if star is Some {
                star
            } else if ranked_state is Some {
                ranked_state
            } else if rating is Some {
                rating
            } else if color_scheme is Some {
                color_scheme
            } else if game_version is Some {
                game_version
            } else if plugin_version is Some {
                plugin_version
            } else if is_multiplayer is Some {
                is_multiplayer
            } else if previous_record is Some {
                previous_record
            } else if previous_bsr is Some {
                previous_bsr
            } else {
                None
            }
        },
        _ => Some(DecodeError::TypeMismatch),
    }
}

/// Whether `m` holds what the fields of the `MapData` object `v` say.
pub open spec fn map_data_decodes(v: Value, m: MapData) -> bool {
    match v {
        Value::Object(o) => {
            &&& field_bool(lookup(o@, "LevelPaused"@)) == Ok::<bool, DecodeError>(m.level_paused)
            &&& field_bool(lookup(o@, "LevelFinished"@)) == Ok::<bool, DecodeError>(m.level_finished)
            &&& field_bool(lookup(o@, "LevelFailed"@)) == Ok::<bool, DecodeError>(m.level_failed)
            &&& field_bool(lookup(o@, "LevelQuit"@)) == Ok::<bool, DecodeError>(m.level_quit)
            &&& field_opt_str(lookup(o@, "Hash"@)) == Ok::<Option<String>, DecodeError>(m.hash)
            &&& field_opt_str(lookup(o@, "LevelId"@)) == Ok::<Option<String>, DecodeError>(m.level_id)
            &&& field_str(lookup(o@, "SongName"@)) == Ok::<String, DecodeError>(m.song_name)
            &&& field_str(lookup(o@, "SongSubName"@)) == Ok::<String, DecodeError>(m.song_sub_name)
            &&& field_str(lookup(o@, "SongAuthor"@)) == Ok::<String, DecodeError>(m.song_author)
            &&& field_str(lookup(o@, "Mapper"@)) == Ok::<String, DecodeError>(m.mapper)
            &&& field_str_list(lookup(o@, "Mappers"@)) == Ok::<Seq<String>, DecodeError>(m.mappers@)
            &&& field_str_list(lookup(o@, "Lighters"@)) == Ok::<Seq<String>, DecodeError>(m.lighters@)
            &&& field_str(lookup(o@, "ContentRating"@)) == Ok::<String, DecodeError>(m.content_rating)
            &&& field_opt_str(lookup(o@, "BsrKey"@)) == Ok::<Option<String>, DecodeError>(m.bsr_key)
            &&& field_opt_str(lookup(o@, "CoverImage"@)) == Ok::<Option<String>, DecodeError>(m.cover_image)
            &&& field_i64(lookup(o@, "Duration"@)) == Ok::<i64, DecodeError>(m.duration)
            &&& field_str(lookup(o@, "MapType"@)) == Ok::<String, DecodeError>(m.map_type)
            &&& field_str(lookup(o@, "Difficulty"@)) == Ok::<String, DecodeError>(m.difficulty)
            &&& field_opt_str(lookup(o@, "CustomDifficultyLabel"@)) == Ok::<Option<String>, DecodeError>(m.custom_difficulty_label)
            &&& field_i64(lookup(o@, "Bpm"@)) == Ok::<i64, DecodeError>(m.bpm)
            &&& field_number(lookup(o@, "Njs"@)) == Ok::<Number, DecodeError>(m.njs)
            &&& field_nested(lookup(o@, "Modifiers"@), |v: Value| modifiers_of(v)) == Ok::<Modifiers, DecodeError>(m.modifiers)
            &&& field_number(lookup(o@, "ModifiersMultiplier"@)) == Ok::<Number, DecodeError>(m.modifiers_multiplier)
            &&& field_bool(lookup(o@, "PracticeMode"@)) == Ok::<bool, DecodeError>(m.practice_mode)
            &&& field_nested(lookup(o@, "PracticeModeModifiers"@), |v: Value| practice_mode_modifiers_of(v)) == Ok::<PracticeModeModifiers, DecodeError>(m.practice_mode_modifiers)
            &&& field_number(lookup(o@, "Pp"@)) == Ok::<Number, DecodeError>(m.pp)
            &&& field_number(lookup(o@, "Star"@)) == Ok::<Number, DecodeError>(m.star)
            &&& field_nested(lookup(o@, "RankedState"@), |v: Value| ranked_state_of(v)) == Ok::<RankedState, DecodeError>(m.ranked_state)
            &&& field_number(lookup(o@, "Rating"@)) == Ok::<Number, DecodeError>(m.rating)
            &&& lookup(o@, "ColorScheme"@) matches Some(w) && color_scheme_decodes(w, m.color_scheme)
            &&& field_str(lookup(o@, "GameVersion"@)) == Ok::<String, DecodeError>(m.game_version)
            &&& field_str(lookup(o@, "PluginVersion"@)) == Ok::<String, DecodeError>(m.plugin_version)
            &&& field_bool(lookup(o@, "IsMultiplayer"@)) == Ok::<bool, DecodeError>(m.is_multiplayer)
            &&& field_i64(lookup(o@, "PreviousRecord"@)) == Ok::<i64, DecodeError>(m.previous_record)
            &&& field_opt_str(lookup(o@, "PreviousBsr"@)) == Ok::<Option<String>, DecodeError>(m.previous_bsr)
        },
        _ => false,
    }
}

/// Decodes a DataPuller map snapshot. The hash, level id, catalog key, cover, custom label and previous key are optional and read as absent when left out; every other field is required.
pub fn decode_map_data(v: &Value) -> (r: Result<MapData, DecodeError>)
    ensures
        match r {
            Ok(m) => map_data_error(*v) is None && map_data_decodes(*v, m),
            Err(e) => map_data_error(*v) == Some(e),
        },
{
    match v {
        Value::Object(o) => {
            let level_paused = read_bool(o, "LevelPaused")?;
            let level_finished = read_bool(o, "LevelFinished")?;
            let level_failed = read_bool(o, "LevelFailed")?;
            let level_quit = read_bool(o, "LevelQuit")?;
            let hash = read_opt_str(o, "Hash")?;
            let level_id = read_opt_str(o, "LevelId")?;
            let song_name = read_str(o, "SongName")?;
            let song_sub_name = read_str(o, "SongSubName")?;
            let song_author = read_str(o, "SongAuthor")?;
            let mapper = read_str(o, "Mapper")?;
            let mappers = read_str_list(o, "Mappers")?;
            let lighters = read_str_list(o, "Lighters")?;
            let content_rating = read_str(o, "ContentRating")?;
            let bsr_key = read_opt_str(o, "BsrKey")?;
            let cover_image = read_opt_str(o, "CoverImage")?;
            let duration = read_i64(o, "Duration")?;
            let map_type = read_str(o, "MapType")?;
            let difficulty = read_str(o, "Difficulty")?;
            let custom_difficulty_label = read_opt_str(o, "CustomDifficultyLabel")?;
            let bpm = read_i64(o, "Bpm")?;
            let njs = read_number(o, "Njs")?;
            let modifiers = match find_field(o, "Modifiers") {
                Some(i) => decode_modifiers(&o[i].1)?,
                None => return Err(DecodeError::MissingRequiredField),
            };
            let modifiers_multiplier = read_number(o, "ModifiersMultiplier")?;
            let practice_mode = read_bool(o, "PracticeMode")?;
            let practice_mode_modifiers = match find_field(o, "PracticeModeModifiers") {
                Some(i) => decode_practice_mode_modifiers(&o[i].1)?,
                None => return Err(DecodeError::MissingRequiredField),
            };
            let pp = read_number(o, "Pp")?;
            let star = read_number(o, "Star")?;
            let ranked_state = match find_field(o, "RankedState") {
                Some(i) => decode_ranked_state(&o[i].1)?,
                None => return Err(DecodeError::MissingRequiredField),
            };
            let rating = read_number(o, "Rating")?;
            let color_scheme = match find_field(o, "ColorScheme") {
                Some(i) => decode_color_scheme(&o[i].1)?,
                None => return Err(DecodeError::MissingRequiredField),
            };
            let game_version = read_str(o, "GameVersion")?;
            let plugin_version = read_str(o, "PluginVersion")?;
            let is_multiplayer = read_bool(o, "IsMultiplayer")?;
            let previous_record = read_i64(o, "PreviousRecord")?;
            let previous_bsr = read_opt_str(o, "PreviousBsr")?;
            Ok(MapData {
                level_paused,
                level_finished,
                level_failed,
                level_quit,
                hash,
                level_id,
                song_name,
                song_sub_name,
                song_author,
                mapper,
                mappers,
                lighters,
                content_rating,
                bsr_key,
                cover_image,
                duration,
                map_type,
                difficulty,
                custom_difficulty_label,
                bpm,
                njs,
                modifiers,
                modifiers_multiplier,
                practice_mode,
                practice_mode_modifiers,
                pp,
                star,
                ranked_state,
                rating,
                color_scheme,
                game_version,
                plugin_version,
                is_multiplayer,
                previous_record,
                previous_bsr,
            })
        },
        _ => Err(DecodeError::TypeMismatch),
    }
}

/// Whether component `key` of a colour is absent or decodes.
pub open spec fn component_absent_or_ok(o: Seq<(String, Value)>, key: Seq<char>) -> bool {
    lookup(o, key) is None || field_u8(lookup(o, key)) is Ok
}

/// A colour sent without a hex code has the hex code `#000000`, and decodes
/// whenever its components do.
pub proof fn lemma_missing_hex_code_defaults(v: Value, c: RGBAColor)
    requires
        v is Object,
        lookup(v->Object_0@, "HexCode"@) is None,
    ensures
        rgba_color_decodes(v, c) ==> c.hex_code@ == "#000000"@,
        ({
            let o = v->Object_0@;
            &&& field_u8(lookup(o, "Red"@)) is Ok
            &&& field_u8(lookup(o, "Green"@)) is Ok
            &&& field_u8(lookup(o, "Blue"@)) is Ok
            &&& field_number(lookup(o, "Alpha"@)) is Ok
        }) ==> rgba_color_error(v) is None,
{
}

/// A colour that leaves out any of its components is refused as
/// `MissingRequiredField`, when what it does send is sound.
pub proof fn lemma_missing_component_refused(v: Value)
    requires
        v is Object,
        field_hex(lookup(v->Object_0@, "HexCode"@)) is Ok,
        component_absent_or_ok(v->Object_0@, "Red"@),
        component_absent_or_ok(v->Object_0@, "Green"@),
        component_absent_or_ok(v->Object_0@, "Blue"@),
        lookup(v->Object_0@, "Alpha"@) is None || field_number(lookup(v->Object_0@, "Alpha"@)) is Ok,
        lookup(v->Object_0@, "Red"@) is None || lookup(v->Object_0@, "Green"@) is None || lookup(
            v->Object_0@,
            "Blue"@,
        ) is None || lookup(v->Object_0@, "Alpha"@) is None,
    ensures
        rgba_color_error(v) == Some(DecodeError::MissingRequiredField),
{
}

/// A snapshot without a previous key, decoded twice, reads the same song both
/// times and leaves the previous key absent both times: nothing is cleared or
/// carried over by decoding.
pub proof fn lemma_previous_key_stays_absent(v: Value, m1: MapData, m2: MapData)
    requires
        v is Object,
        lookup(v->Object_0@, "PreviousBsr"@) is None,
        map_data_decodes(v, m1),
        map_data_decodes(v, m2),
    ensures
        m1.previous_bsr is None,
        m2.previous_bsr is None,
        m1.song_name == m2.song_name,
{
}

/// The length of every key of the object, and the letters that tell keys of
/// equal length apart.
proof fn lemma_modifiers_keys()
    ensures
        "NoFailOn0Energy"@.len() == 15,
        "OneLife"@.len() == 7,
        "OneLife"@[0] == 'O',
        "FourLives"@.len() == 9,
        "NoBombs"@.len() == 7,
        "NoBombs"@[0] == 'N',
        "NoBombs"@[2] == 'B',
        "NoWalls"@.len() == 7,
        "NoWalls"@[0] == 'N',
        "NoWalls"@[2] == 'W',
        "NoArrows"@.len() == 8,
        "GhostNotes"@.len() == 10,
        "GhostNotes"@[0] == 'G',
        "DisappearingArrows"@.len() == 18,
        "SmallNotes"@.len() == 10,
        "SmallNotes"@[0] == 'S',
        "SmallNotes"@[1] == 'm',
        "ProMode"@.len() == 7,
        "ProMode"@[0] == 'P',
        "StrictAngles"@.len() == 12,
        "ZenMode"@.len() == 7,
        "ZenMode"@[0] == 'Z',
        "SlowerSong"@.len() == 10,
        "SlowerSong"@[0] == 'S',
        "SlowerSong"@[1] == 'l',
        "FasterSong"@.len() == 10,
        "FasterSong"@[0] == 'F',
        "SuperFastSong"@.len() == 13,
{
    reveal_strlit("NoFailOn0Energy");
    reveal_strlit("OneLife");
    reveal_strlit("FourLives");
    reveal_strlit("NoBombs");
    reveal_strlit("NoWalls");
    reveal_strlit("NoArrows");
    reveal_strlit("GhostNotes");
    reveal_strlit("DisappearingArrows");
    reveal_strlit("SmallNotes");
    reveal_strlit("ProMode");
    reveal_strlit("StrictAngles");
    reveal_strlit("ZenMode");
    reveal_strlit("SlowerSong");
    reveal_strlit("FasterSong");
    reveal_strlit("SuperFastSong");
}

/// Encodes `m` as a `Modifiers` object; decoding it gives `m` back.
pub fn encode_modifiers(m: &Modifiers) -> (r: Value)
    ensures
        modifiers_of(r) == Ok::<Modifiers, DecodeError>(*m),
{
    let o: Vec<(String, Value)> = vec![
        ("NoFailOn0Energy".to_owned(), Value::Bool(m.no_fail_on_0_energy)),
        ("OneLife".to_owned(), Value::Bool(m.one_life)),
        ("FourLives".to_owned(), Value::Bool(m.four_lives)),
        ("NoBombs".to_owned(), Value::Bool(m.no_bombs)),
        ("NoWalls".to_owned(), Value::Bool(m.no_walls)),
        ("NoArrows".to_owned(), Value::Bool(m.no_arrows)),
        ("GhostNotes".to_owned(), Value::Bool(m.ghost_notes)),
        ("DisappearingArrows".to_owned(), Value::Bool(m.disappearing_arrows)),
        ("SmallNotes".to_owned(), Value::Bool(m.small_notes)),
        ("ProMode".to_owned(), Value::Bool(m.pro_mode)),
        ("StrictAngles".to_owned(), Value::Bool(m.strict_angles)),
        ("ZenMode".to_owned(), Value::Bool(m.zen_mode)),
        ("SlowerSong".to_owned(), Value::Bool(m.slower_song)),
        ("FasterSong".to_owned(), Value::Bool(m.faster_song)),
        ("SuperFastSong".to_owned(), Value::Bool(m.super_fast_song)),
    ];
    proof {
        lemma_modifiers_keys();
        lemma_lookup_hit(o@, "NoFailOn0Energy"@, 0);
        lemma_lookup_skip(o@, "OneLife"@, 0);
        lemma_lookup_hit(o@, "OneLife"@, 1);
        lemma_lookup_skip(o@, "FourLives"@, 0);
        lemma_lookup_skip(o@, "FourLives"@, 1);
        lemma_lookup_hit(o@, "FourLives"@, 2);
        lemma_lookup_skip(o@, "NoBombs"@, 0);
        lemma_lookup_skip(o@, "NoBombs"@, 1);
        lemma_lookup_skip(o@, "NoBombs"@, 2);
        lemma_lookup_hit(o@, "NoBombs"@, 3);
        lemma_lookup_skip(o@, "NoWalls"@, 0);
        lemma_lookup_skip(o@, "NoWalls"@, 1);
        lemma_lookup_skip(o@, "NoWalls"@, 2);
        lemma_lookup_skip(o@, "NoWalls"@, 3);
        lemma_lookup_hit(o@, "NoWalls"@, 4);
        lemma_lookup_skip(o@, "NoArrows"@, 0);
        lemma_lookup_skip(o@, "NoArrows"@, 1);
        lemma_lookup_skip(o@, "NoArrows"@, 2);
        lemma_lookup_skip(o@, "NoArrows"@, 3);
        lemma_lookup_skip(o@, "NoArrows"@, 4);
        lemma_lookup_hit(o@, "NoArrows"@, 5);
        lemma_lookup_skip(o@, "GhostNotes"@, 0);
        lemma_lookup_skip(o@, "GhostNotes"@, 1);
        lemma_lookup_skip(o@, "GhostNotes"@, 2);
        lemma_lookup_skip(o@, "GhostNotes"@, 3);
        lemma_lookup_skip(o@, "GhostNotes"@, 4);
        lemma_lookup_skip(o@, "GhostNotes"@, 5);
        lemma_lookup_hit(o@, "GhostNotes"@, 6);
        lemma_lookup_skip(o@, "DisappearingArrows"@, 0);
        lemma_lookup_skip(o@, "DisappearingArrows"@, 1);
        lemma_lookup_skip(o@, "DisappearingArrows"@, 2);
        lemma_lookup_skip(o@, "DisappearingArrows"@, 3);
        lemma_lookup_skip(o@, "DisappearingArrows"@, 4);
        lemma_lookup_skip(o@, "DisappearingArrows"@, 5);
        lemma_lookup_skip(o@, "DisappearingArrows"@, 6);
        lemma_lookup_hit(o@, "DisappearingArrows"@, 7);
        lemma_lookup_skip(o@, "SmallNotes"@, 0);
        lemma_lookup_skip(o@, "SmallNotes"@, 1);
        lemma_lookup_skip(o@, "SmallNotes"@, 2);
        lemma_lookup_skip(o@, "SmallNotes"@, 3);
        lemma_lookup_skip(o@, "SmallNotes"@, 4);
        lemma_lookup_skip(o@, "SmallNotes"@, 5);
        lemma_lookup_skip(o@, "SmallNotes"@, 6);
        lemma_lookup_skip(o@, "SmallNotes"@, 7);
        lemma_lookup_hit(o@, "SmallNotes"@, 8);
        lemma_lookup_skip(o@, "ProMode"@, 0);
        lemma_lookup_skip(o@, "ProMode"@, 1);
        lemma_lookup_skip(o@, "ProMode"@, 2);
        lemma_lookup_skip(o@, "ProMode"@, 3);
        lemma_lookup_skip(o@, "ProMode"@, 4);
        lemma_lookup_skip(o@, "ProMode"@, 5);
        lemma_lookup_skip(o@, "ProMode"@, 6);
        lemma_lookup_skip(o@, "ProMode"@, 7);
        lemma_lookup_skip(o@, "ProMode"@, 8);
        lemma_lookup_hit(o@, "ProMode"@, 9);
        lemma_lookup_skip(o@, "StrictAngles"@, 0);
        lemma_lookup_skip(o@, "StrictAngles"@, 1);
        lemma_lookup_skip(o@, "StrictAngles"@, 2);
        lemma_lookup_skip(o@, "StrictAngles"@, 3);
        lemma_lookup_skip(o@, "StrictAngles"@, 4);
        lemma_lookup_skip(o@, "StrictAngles"@, 5);
        lemma_lookup_skip(o@, "StrictAngles"@, 6);
        lemma_lookup_skip(o@, "StrictAngles"@, 7);
        lemma_lookup_skip(o@, "StrictAngles"@, 8);
        lemma_lookup_skip(o@, "StrictAngles"@, 9);
        lemma_lookup_hit(o@, "StrictAngles"@, 10);
        lemma_lookup_skip(o@, "ZenMode"@, 0);
        lemma_lookup_skip(o@, "ZenMode"@, 1);
        lemma_lookup_skip(o@, "ZenMode"@, 2);
        lemma_lookup_skip(o@, "ZenMode"@, 3);
        lemma_lookup_skip(o@, "ZenMode"@, 4);
        lemma_lookup_skip(o@, "ZenMode"@, 5);
        lemma_lookup_skip(o@, "ZenMode"@, 6);
        lemma_lookup_skip(o@, "ZenMode"@, 7);
        lemma_lookup_skip(o@, "ZenMode"@, 8);
        lemma_lookup_skip(o@, "ZenMode"@, 9);
        lemma_lookup_skip(o@, "ZenMode"@, 10);
        lemma_lookup_hit(o@, "ZenMode"@, 11);
        lemma_lookup_skip(o@, "SlowerSong"@, 0);
        lemma_lookup_skip(o@, "SlowerSong"@, 1);
        lemma_lookup_skip(o@, "SlowerSong"@, 2);
        lemma_lookup_skip(o@, "SlowerSong"@, 3);
        lemma_lookup_skip(o@, "SlowerSong"@, 4);
        lemma_lookup_skip(o@, "SlowerSong"@, 5);
        lemma_lookup_skip(o@, "SlowerSong"@, 6);
        lemma_lookup_skip(o@, "SlowerSong"@, 7);
        lemma_lookup_skip(o@, "SlowerSong"@, 8);
        lemma_lookup_skip(o@, "SlowerSong"@, 9);
        lemma_lookup_skip(o@, "SlowerSong"@, 10);
        lemma_lookup_skip(o@, "SlowerSong"@, 11);
        lemma_lookup_hit(o@, "SlowerSong"@, 12);
        lemma_lookup_skip(o@, "FasterSong"@, 0);
        lemma_lookup_skip(o@, "FasterSong"@, 1);
        lemma_lookup_skip(o@, "FasterSong"@, 2);
        lemma_lookup_skip(o@, "FasterSong"@, 3);
        lemma_lookup_skip(o@, "FasterSong"@, 4);
        lemma_lookup_skip(o@, "FasterSong"@, 5);
        lemma_lookup_skip(o@, "FasterSong"@, 6);
        lemma_lookup_skip(o@, "FasterSong"@, 7);
        lemma_lookup_skip(o@, "FasterSong"@, 8);
        lemma_lookup_skip(o@, "FasterSong"@, 9);
        lemma_lookup_skip(o@, "FasterSong"@, 10);
        lemma_lookup_skip(o@, "FasterSong"@, 11);
        lemma_lookup_skip(o@, "FasterSong"@, 12);
        lemma_lookup_hit(o@, "FasterSong"@, 13);
        lemma_lookup_skip(o@, "SuperFastSong"@, 0);
        lemma_lookup_skip(o@, "SuperFastSong"@, 1);
        lemma_lookup_skip(o@, "SuperFastSong"@, 2);
        lemma_lookup_skip(o@, "SuperFastSong"@, 3);
        lemma_lookup_skip(o@, "SuperFastSong"@, 4);
        lemma_lookup_skip(o@, "SuperFastSong"@, 5);
        lemma_lookup_skip(o@, "SuperFastSong"@, 6);
        lemma_lookup_skip(o@, "SuperFastSong"@, 7);
        lemma_lookup_skip(o@, "SuperFastSong"@, 8);
        lemma_lookup_skip(o@, "SuperFastSong"@, 9);
        lemma_lookup_skip(o@, "SuperFastSong"@, 10);
        lemma_lookup_skip(o@, "SuperFastSong"@, 11);
        lemma_lookup_skip(o@, "SuperFastSong"@, 12);
        lemma_lookup_skip(o@, "SuperFastSong"@, 13);
        lemma_lookup_hit(o@, "SuperFastSong"@, 14);
    }
    Value::Object(o)
}

/// The length of every key of the object, and the letters that tell keys of
/// equal length apart.
proof fn lemma_practice_mode_modifiers_keys()
    ensures
        "SongSpeedMul"@.len() == 12,
        "StartInAdvanceAndClearNotes"@.len() == 27,
        "SongStartTime"@.len() == 13,
{
    reveal_strlit("SongSpeedMul");
    reveal_strlit("StartInAdvanceAndClearNotes");
    reveal_strlit("SongStartTime");
}

/// Encodes `m` as a `PracticeModeModifiers` object; decoding it gives `m` back.
pub fn encode_practice_mode_modifiers(m: &PracticeModeModifiers) -> (r: Value)
    ensures
        practice_mode_modifiers_of(r) == Ok::<PracticeModeModifiers, DecodeError>(*m),
{
    let o: Vec<(String, Value)> = vec![
        ("SongSpeedMul".to_owned(), Value::Number(m.song_speed_mul)),
        ("StartInAdvanceAndClearNotes".to_owned(), Value::Bool(m.start_in_advance_and_clear_notes)),
        ("SongStartTime".to_owned(), Value::Number(m.song_start_time)),
    ];
    proof {
        lemma_practice_mode_modifiers_keys();
        lemma_lookup_hit(o@, "SongSpeedMul"@, 0);
        lemma_lookup_skip(o@, "StartInAdvanceAndClearNotes"@, 0);
        lemma_lookup_hit(o@, "StartInAdvanceAndClearNotes"@, 1);
        lemma_lookup_skip(o@, "SongStartTime"@, 0);
        lemma_lookup_skip(o@, "SongStartTime"@, 1);
        lemma_lookup_hit(o@, "SongStartTime"@, 2);
    }
    Value::Object(o)
}

/// The length of every key of the object, and the letters that tell keys of
/// equal length apart.
proof fn lemma_ranked_state_keys()
    ensures
        "Ranked"@.len() == 6,
        "Qualified"@.len() == 9,
        "BeatleaderQualified"@.len() == 19,
        "BeatleaderQualified"@[0] == 'B',
        "ScoresaberQualified"@.len() == 19,
        "ScoresaberQualified"@[0] == 'S',
        "BeatleaderRanked"@.len() == 16,
        "BeatleaderRanked"@[0] == 'B',
        "ScoresaberRanked"@.len() == 16,
        "ScoresaberRanked"@[0] == 'S',
        "BeatleaderStars"@.len() == 15,
        "BeatleaderStars"@[0] == 'B',
        "ScoresaberStars"@.len() == 15,
        "ScoresaberStars"@[0] == 'S',
{
    reveal_strlit("Ranked");
    reveal_strlit("Qualified");
    reveal_strlit("BeatleaderQualified");
    reveal_strlit("ScoresaberQualified");
    reveal_strlit("BeatleaderRanked");
    reveal_strlit("ScoresaberRanked");
    reveal_strlit("BeatleaderStars");
    reveal_strlit("ScoresaberStars");
}

/// Encodes `m` as a `RankedState` object; decoding it gives `m` back.
pub fn encode_ranked_state(m: &RankedState) -> (r: Value)
    ensures
        ranked_state_of(r) == Ok::<RankedState, DecodeError>(*m),
{
    let o: Vec<(String, Value)> = vec![
        ("Ranked".to_owned(), Value::Bool(m.ranked)),
        ("Qualified".to_owned(), Value::Bool(m.qualified)),
        ("BeatleaderQualified".to_owned(), Value::Bool(m.beatleader_qualified)),
        ("ScoresaberQualified".to_owned(), Value::Bool(m.scoresaber_qualified)),
        ("BeatleaderRanked".to_owned(), Value::Bool(m.beatleader_ranked)),
        ("ScoresaberRanked".to_owned(), Value::Bool(m.scoresaber_ranked)),
        ("BeatleaderStars".to_owned(), Value::Number(m.beatleader_stars)),
        ("ScoresaberStars".to_owned(), Value::Number(m.scoresaber_stars)),
    ];
    proof {
        lemma_ranked_state_keys();
        lemma_lookup_hit(o@, "Ranked"@, 0);
        lemma_lookup_skip(o@, "Qualified"@, 0);
        lemma_lookup_hit(o@, "Qualified"@, 1);
        lemma_lookup_skip(o@, "BeatleaderQualified"@, 0);
        lemma_lookup_skip(o@, "BeatleaderQualified"@, 1);
        lemma_lookup_hit(o@, "BeatleaderQualified"@, 2);
        lemma_lookup_skip(o@, "ScoresaberQualified"@, 0);
        lemma_lookup_skip(o@, "ScoresaberQualified"@, 1);
        lemma_lookup_skip(o@, "ScoresaberQualified"@, 2);
        lemma_lookup_hit(o@, "ScoresaberQualified"@, 3);
        lemma_lookup_skip(o@, "BeatleaderRanked"@, 0);
        lemma_lookup_skip(o@, "BeatleaderRanked"@, 1);
        lemma_lookup_skip(o@, "BeatleaderRanked"@, 2);
        lemma_lookup_skip(o@, "BeatleaderRanked"@, 3);
        lemma_lookup_hit(o@, "BeatleaderRanked"@, 4);
        lemma_lookup_skip(o@, "ScoresaberRanked"@, 0);
        lemma_lookup_skip(o@, "ScoresaberRanked"@, 1);
        lemma_lookup_skip(o@, "ScoresaberRanked"@, 2);
        lemma_lookup_skip(o@, "ScoresaberRanked"@, 3);
        lemma_lookup_skip(o@, "ScoresaberRanked"@, 4);
        lemma_lookup_hit(o@, "ScoresaberRanked"@, 5);
        lemma_lookup_skip(o@, "BeatleaderStars"@, 0);
        lemma_lookup_skip(o@, "BeatleaderStars"@, 1);
        lemma_lookup_skip(o@, "BeatleaderStars"@, 2);
        lemma_lookup_skip(o@, "BeatleaderStars"@, 3);
        lemma_lookup_skip(o@, "BeatleaderStars"@, 4);
        lemma_lookup_skip(o@, "BeatleaderStars"@, 5);
        lemma_lookup_hit(o@, "BeatleaderStars"@, 6);
        lemma_lookup_skip(o@, "ScoresaberStars"@, 0);
        lemma_lookup_skip(o@, "ScoresaberStars"@, 1);
        lemma_lookup_skip(o@, "ScoresaberStars"@, 2);
        lemma_lookup_skip(o@, "ScoresaberStars"@, 3);
        lemma_lookup_skip(o@, "ScoresaberStars"@, 4);
        lemma_lookup_skip(o@, "ScoresaberStars"@, 5);
        lemma_lookup_skip(o@, "ScoresaberStars"@, 6);
        lemma_lookup_hit(o@, "ScoresaberStars"@, 7);
    }
    Value::Object(o)
}

/// The length of every key of the object, and the letters that tell keys of
/// equal length apart.
proof fn lemma_rgba_color_keys()
    ensures
        "HexCode"@.len() == 7,
        "Red"@.len() == 3,
        "Green"@.len() == 5,
        "Green"@[0] == 'G',
        "Blue"@.len() == 4,
        "Alpha"@.len() == 5,
        "Alpha"@[0] == 'A',
{
    reveal_strlit("HexCode");
    reveal_strlit("Red");
    reveal_strlit("Green");
    reveal_strlit("Blue");
    reveal_strlit("Alpha");
}

/// Encodes `m` as a `RGBAColor` object; decoding it gives `m` back.
pub fn encode_rgba_color(m: &RGBAColor) -> (r: Value)
    ensures
        rgba_color_error(r) is None && rgba_color_decodes(r, *m),
{
    let o: Vec<(String, Value)> = vec![
        ("HexCode".to_owned(), Value::Str(m.hex_code.clone())),
        ("Red".to_owned(), encode_u64(m.red as u64)),
        ("Green".to_owned(), encode_u64(m.green as u64)),
        ("Blue".to_owned(), encode_u64(m.blue as u64)),
        ("Alpha".to_owned(), Value::Number(m.alpha)),
    ];
    proof {
        lemma_rgba_color_keys();
        lemma_lookup_hit(o@, "HexCode"@, 0);
        lemma_lookup_skip(o@, "Red"@, 0);
        lemma_lookup_hit(o@, "Red"@, 1);
        lemma_lookup_skip(o@, "Green"@, 0);
        lemma_lookup_skip(o@, "Green"@, 1);
        lemma_lookup_hit(o@, "Green"@, 2);
        lemma_lookup_skip(o@, "Blue"@, 0);
        lemma_lookup_skip(o@, "Blue"@, 1);
        lemma_lookup_skip(o@, "Blue"@, 2);
        lemma_lookup_hit(o@, "Blue"@, 3);
        lemma_lookup_skip(o@, "Alpha"@, 0);
        lemma_lookup_skip(o@, "Alpha"@, 1);
        lemma_lookup_skip(o@, "Alpha"@, 2);
        lemma_lookup_skip(o@, "Alpha"@, 3);
        lemma_lookup_hit(o@, "Alpha"@, 4);
    }
    Value::Object(o)
}

/// Encodes an optional colour: null when absent.
pub fn encode_opt_rgba(c: &Option<RGBAColor>) -> (r: Value)
    ensures
        opt_rgba_error(Some(r)) is None,
        opt_rgba_decodes(Some(r), *c),
{
    match c {
        None => Value::Null,
        Some(x) => encode_rgba_color(x),
    }
}

/// The length of every key of the object, and the letters that tell keys of
/// equal length apart.
proof fn lemma_color_scheme_keys()
    ensures
        "SaberAColor"@.len() == 11,
        "SaberAColor"@[5] == 'A',
        "SaberBColor"@.len() == 11,
        "SaberBColor"@[5] == 'B',
        "ObstaclesColor"@.len() == 14,
        "EnvironmentColor0"@.len() == 17,
        "EnvironmentColor0"@[16] == '0',
        "EnvironmentColor1"@.len() == 17,
        "EnvironmentColor1"@[16] == '1',
        "EnvironmentColor0Boost"@.len() == 22,
        "EnvironmentColor0Boost"@[16] == '0',
        "EnvironmentColor1Boost"@.len() == 22,
        "EnvironmentColor1Boost"@[16] == '1',
{
    reveal_strlit("SaberAColor");
    reveal_strlit("SaberBColor");
    reveal_strlit("ObstaclesColor");
    reveal_strlit("EnvironmentColor0");
    reveal_strlit("EnvironmentColor1");
    reveal_strlit("EnvironmentColor0Boost");
    reveal_strlit("EnvironmentColor1Boost");
}

/// Encodes `m` as a `ColorScheme` object; decoding it gives `m` back.
pub fn encode_color_scheme(m: &ColorScheme) -> (r: Value)
    ensures
        color_scheme_error(r) is None && color_scheme_decodes(r, *m),
{
    let o: Vec<(String, Value)> = vec![
        ("SaberAColor".to_owned(), encode_opt_rgba(&m.saber_a_color)),
        ("SaberBColor".to_owned(), encode_opt_rgba(&m.saber_b_color)),
        ("ObstaclesColor".to_owned(), encode_opt_rgba(&m.obstacles_color)),
        ("EnvironmentColor0".to_owned(), encode_opt_rgba(&m.environment_color0)),
        ("EnvironmentColor1".to_owned(), encode_opt_rgba(&m.environment_color1)),
        ("EnvironmentColor0Boost".to_owned(), encode_opt_rgba(&m.environment_color0_boost)),
        ("EnvironmentColor1Boost".to_owned(), encode_opt_rgba(&m.environment_color1_boost)),
    ];
    proof {
        lemma_color_scheme_keys();
        lemma_lookup_hit(o@, "SaberAColor"@, 0);
        lemma_lookup_skip(o@, "SaberBColor"@, 0);
        lemma_lookup_hit(o@, "SaberBColor"@, 1);
        lemma_lookup_skip(o@, "ObstaclesColor"@, 0);
        lemma_lookup_skip(o@, "ObstaclesColor"@, 1);
        lemma_lookup_hit(o@, "ObstaclesColor"@, 2);
        lemma_lookup_skip(o@, "EnvironmentColor0"@, 0);
        lemma_lookup_skip(o@, "EnvironmentColor0"@, 1);
        lemma_lookup_skip(o@, "EnvironmentColor0"@, 2);
        lemma_lookup_hit(o@, "EnvironmentColor0"@, 3);
        lemma_lookup_skip(o@, "EnvironmentColor1"@, 0);
        lemma_lookup_skip(o@, "EnvironmentColor1"@, 1);
        lemma_lookup_skip(o@, "EnvironmentColor1"@, 2);
        lemma_lookup_skip(o@, "EnvironmentColor1"@, 3);
        lemma_lookup_hit(o@, "EnvironmentColor1"@, 4);
        lemma_lookup_skip(o@, "EnvironmentColor0Boost"@, 0);
        lemma_lookup_skip(o@, "EnvironmentColor0Boost"@, 1);
        lemma_lookup_skip(o@, "EnvironmentColor0Boost"@, 2);
        lemma_lookup_skip(o@, "EnvironmentColor0Boost"@, 3);
        lemma_lookup_skip(o@, "EnvironmentColor0Boost"@, 4);
        lemma_lookup_hit(o@, "EnvironmentColor0Boost"@, 5);
        lemma_lookup_skip(o@, "EnvironmentColor1Boost"@, 0);
        lemma_lookup_skip(o@, "EnvironmentColor1Boost"@, 1);
        lemma_lookup_skip(o@, "EnvironmentColor1Boost"@, 2);
        lemma_lookup_skip(o@, "EnvironmentColor1Boost"@, 3);
        lemma_lookup_skip(o@, "EnvironmentColor1Boost"@, 4);
        lemma_lookup_skip(o@, "EnvironmentColor1Boost"@, 5);
        lemma_lookup_hit(o@, "EnvironmentColor1Boost"@, 6);
    }
    Value::Object(o)
}

/// The length of every key of the object, and the letters that tell keys of
/// equal length apart.
proof fn lemma_map_data_keys()
    ensures
        "LevelPaused"@.len() == 11,
        "LevelPaused"@[0] == 'L',
        "LevelPaused"@[5] == 'P',
        "LevelFinished"@.len() == 13,
        "LevelFinished"@[0] == 'L',
        "LevelFailed"@.len() == 11,
        "LevelFailed"@[0] == 'L',
        "LevelFailed"@[5] == 'F',
        "LevelQuit"@.len() == 9,
        "LevelQuit"@[0] == 'L',
        "Hash"@.len() == 4,
        "Hash"@[0] == 'H',
        "LevelId"@.len() == 7,
        "LevelId"@[0] == 'L',
        "SongName"@.len() == 8,
        "SongName"@[0] == 'S',
        "SongSubName"@.len() == 11,
        "SongSubName"@[0] == 'S',
        "SongAuthor"@.len() == 10,
        "SongAuthor"@[0] == 'S',
        "Mapper"@.len() == 6,
        "Mapper"@[0] == 'M',
        "Mappers"@.len() == 7,
        "Mappers"@[0] == 'M',
        "Mappers"@[3] == 'p',
        "Lighters"@.len() == 8,
        "Lighters"@[0] == 'L',
        "ContentRating"@.len() == 13,
        "ContentRating"@[0] == 'C',
        "BsrKey"@.len() == 6,
        "BsrKey"@[0] == 'B',
        "CoverImage"@.len() == 10,
        "CoverImage"@[0] == 'C',
        "Duration"@.len() == 8,
        "Duration"@[0] == 'D',
        "MapType"@.len() == 7,
        "MapType"@[0] == 'M',
        "MapType"@[3] == 'T',
        "Difficulty"@.len() == 10,
        "Difficulty"@[0] == 'D',
        "CustomDifficultyLabel"@.len() == 21,
        "CustomDifficultyLabel"@[0] == 'C',
        "Bpm"@.len() == 3,
        "Bpm"@[0] == 'B',
        "Njs"@.len() == 3,
        "Njs"@[0] == 'N',
        "Modifiers"@.len() == 9,
        "Modifiers"@[0] == 'M',
        "ModifiersMultiplier"@.len() == 19,
        "PracticeMode"@.len() == 12,
        "PracticeModeModifiers"@.len() == 21,
        "PracticeModeModifiers"@[0] == 'P',
        "Pp"@.len() == 2,
        "Star"@.len() == 4,
        "Star"@[0] == 'S',
        "RankedState"@.len() == 11,
        "RankedState"@[0] == 'R',
        "Rating"@.len() == 6,
        "Rating"@[0] == 'R',
        "ColorScheme"@.len() == 11,
        "ColorScheme"@[0] == 'C',
        "GameVersion"@.len() == 11,
        "GameVersion"@[0] == 'G',
        "PluginVersion"@.len() == 13,
        "PluginVersion"@[0] == 'P',
        "IsMultiplayer"@.len() == 13,
        "IsMultiplayer"@[0] == 'I',
        "PreviousRecord"@.len() == 14,
        "PreviousBsr"@.len() == 11,
        "PreviousBsr"@[0] == 'P',
{
    reveal_strlit("LevelPaused");
    reveal_strlit("LevelFinished");
    reveal_strlit("LevelFailed");
    reveal_strlit("LevelQuit");
    reveal_strlit("Hash");
    reveal_strlit("LevelId");
    reveal_strlit("SongName");
    reveal_strlit("SongSubName");
    reveal_strlit("SongAuthor");
    reveal_strlit("Mapper");
    reveal_strlit("Mappers");
    reveal_strlit("Lighters");
    reveal_strlit("ContentRating");
    reveal_strlit("BsrKey");
    reveal_strlit("CoverImage");
    reveal_strlit("Duration");
    reveal_strlit("MapType");
    reveal_strlit("Difficulty");
    reveal_strlit("CustomDifficultyLabel");
    reveal_strlit("Bpm");
    reveal_strlit("Njs");
    reveal_strlit("Modifiers");
    reveal_strlit("ModifiersMultiplier");
    reveal_strlit("PracticeMode");
    reveal_strlit("PracticeModeModifiers");
    reveal_strlit("Pp");
    reveal_strlit("Star");
    reveal_strlit("RankedState");
    reveal_strlit("Rating");
    reveal_strlit("ColorScheme");
    reveal_strlit("GameVersion");
    reveal_strlit("PluginVersion");
    reveal_strlit("IsMultiplayer");
    reveal_strlit("PreviousRecord");
    reveal_strlit("PreviousBsr");
}

/// In an object laid out with the `MapData` keys in order, each key of one
/// group finds its own entry.
#[verifier::rlimit(100)]
#[verifier::spinoff_prover]
proof fn lemma_map_data_lookups_0(o: Seq<(String, Value)>)
    requires
        o.len() == 35,
        o[0].0@ == "LevelPaused"@,
        o[1].0@ == "LevelFinished"@,
        o[2].0@ == "LevelFailed"@,
        o[3].0@ == "LevelQuit"@,
        o[4].0@ == "Hash"@,
        o[5].0@ == "LevelId"@,
        o[6].0@ == "SongName"@,
        o[7].0@ == "SongSubName"@,
        o[8].0@ == "SongAuthor"@,
        o[9].0@ == "Mapper"@,
        o[10].0@ == "Mappers"@,
        o[11].0@ == "Lighters"@,
        o[12].0@ == "ContentRating"@,
        o[13].0@ == "BsrKey"@,
        o[14].0@ == "CoverImage"@,
        o[15].0@ == "Duration"@,
        o[16].0@ == "MapType"@,
        o[17].0@ == "Difficulty"@,
        o[18].0@ == "CustomDifficultyLabel"@,
        o[19].0@ == "Bpm"@,
        o[20].0@ == "Njs"@,
        o[21].0@ == "Modifiers"@,
        o[22].0@ == "ModifiersMultiplier"@,
        o[23].0@ == "PracticeMode"@,
        o[24].0@ == "PracticeModeModifiers"@,
        o[25].0@ == "Pp"@,
        o[26].0@ == "Star"@,
        o[27].0@ == "RankedState"@,
        o[28].0@ == "Rating"@,
        o[29].0@ == "ColorScheme"@,
        o[30].0@ == "GameVersion"@,
        o[31].0@ == "PluginVersion"@,
        o[32].0@ == "IsMultiplayer"@,
        o[33].0@ == "PreviousRecord"@,
        o[34].0@ == "PreviousBsr"@,
    ensures
        lookup(o, "LevelPaused"@) == Some(o[0].1),
        lookup(o, "LevelFinished"@) == Some(o[1].1),
        lookup(o, "LevelFailed"@) == Some(o[2].1),
        lookup(o, "LevelQuit"@) == Some(o[3].1),
        lookup(o, "Hash"@) == Some(o[4].1),
        lookup(o, "LevelId"@) == Some(o[5].1),
{
    lemma_map_data_keys();
    lemma_lookup_hit(o, "LevelPaused"@, 0);
    lemma_lookup_skip(o, "LevelFinished"@, 0);
    lemma_lookup_hit(o, "LevelFinished"@, 1);
    lemma_lookup_skip(o, "LevelFailed"@, 0);
    lemma_lookup_skip(o, "LevelFailed"@, 1);
    lemma_lookup_hit(o, "LevelFailed"@, 2);
    lemma_lookup_skip(o, "LevelQuit"@, 0);
    lemma_lookup_skip(o, "LevelQuit"@, 1);
    lemma_lookup_skip(o, "LevelQuit"@, 2);
    lemma_lookup_hit(o, "LevelQuit"@, 3);
    lemma_lookup_skip(o, "Hash"@, 0);
    lemma_lookup_skip(o, "Hash"@, 1);
    lemma_lookup_skip(o, "Hash"@, 2);
    lemma_lookup_skip(o, "Hash"@, 3);
    lemma_lookup_hit(o, "Hash"@, 4);
    lemma_lookup_skip(o, "LevelId"@, 0);
    lemma_lookup_skip(o, "LevelId"@, 1);
    lemma_lookup_skip(o, "LevelId"@, 2);
    lemma_lookup_skip(o, "LevelId"@, 3);
    lemma_lookup_skip(o, "LevelId"@, 4);
    lemma_lookup_hit(o, "LevelId"@, 5);
}

/// In an object laid out with the `MapData` keys in order, each key of one
/// group finds its own entry.
#[verifier::rlimit(100)]
#[verifier::spinoff_prover]
proof fn lemma_map_data_lookups_1(o: Seq<(String, Value)>)
    requires
        o.len() == 35,
        o[0].0@ == "LevelPaused"@,
        o[1].0@ == "LevelFinished"@,
        o[2].0@ == "LevelFailed"@,
        o[3].0@ == "LevelQuit"@,
        o[4].0@ == "Hash"@,
        o[5].0@ == "LevelId"@,
        o[6].0@ == "SongName"@,
        o[7].0@ == "SongSubName"@,
        o[8].0@ == "SongAuthor"@,
        o[9].0@ == "Mapper"@,
        o[10].0@ == "Mappers"@,
        o[11].0@ == "Lighters"@,
        o[12].0@ == "ContentRating"@,
        o[13].0@ == "BsrKey"@,
        o[14].0@ == "CoverImage"@,
        o[15].0@ == "Duration"@,
        o[16].0@ == "MapType"@,
        o[17].0@ == "Difficulty"@,
        o[18].0@ == "CustomDifficultyLabel"@,
        o[19].0@ == "Bpm"@,
        o[20].0@ == "Njs"@,
        o[21].0@ == "Modifiers"@,
        o[22].0@ == "ModifiersMultiplier"@,
        o[23].0@ == "PracticeMode"@,
        o[24].0@ == "PracticeModeModifiers"@,
        o[25].0@ == "Pp"@,
        o[26].0@ == "Star"@,
        o[27].0@ == "RankedState"@,
        o[28].0@ == "Rating"@,
        o[29].0@ == "ColorScheme"@,
        o[30].0@ == "GameVersion"@,
        o[31].0@ == "PluginVersion"@,
        o[32].0@ == "IsMultiplayer"@,
        o[33].0@ == "PreviousRecord"@,
        o[34].0@ == "PreviousBsr"@,
    ensures
        lookup(o, "SongName"@) == Some(o[6].1),
        lookup(o, "SongSubName"@) == Some(o[7].1),
        lookup(o, "SongAuthor"@) == Some(o[8].1),
        lookup(o, "Mapper"@) == Some(o[9].1),
        lookup(o, "Mappers"@) == Some(o[10].1),
        lookup(o, "Lighters"@) == Some(o[11].1),
{
    lemma_map_data_keys();
    lemma_lookup_skip(o, "SongName"@, 0);
    lemma_lookup_skip(o, "SongName"@, 1);
    lemma_lookup_skip(o, "SongName"@, 2);
    lemma_lookup_skip(o, "SongName"@, 3);
    lemma_lookup_skip(o, "SongName"@, 4);
    lemma_lookup_skip(o, "SongName"@, 5);
    lemma_lookup_hit(o, "SongName"@, 6);
    lemma_lookup_skip(o, "SongSubName"@, 0);
    lemma_lookup_skip(o, "SongSubName"@, 1);
    lemma_lookup_skip(o, "SongSubName"@, 2);
    lemma_lookup_skip(o, "SongSubName"@, 3);
    lemma_lookup_skip(o, "SongSubName"@, 4);
    lemma_lookup_skip(o, "SongSubName"@, 5);
    lemma_lookup_skip(o, "SongSubName"@, 6);
    lemma_lookup_hit(o, "SongSubName"@, 7);
    lemma_lookup_skip(o, "SongAuthor"@, 0);
    lemma_lookup_skip(o, "SongAuthor"@, 1);
    lemma_lookup_skip(o, "SongAuthor"@, 2);
    lemma_lookup_skip(o, "SongAuthor"@, 3);
    lemma_lookup_skip(o, "SongAuthor"@, 4);
    lemma_lookup_skip(o, "SongAuthor"@, 5);
    lemma_lookup_skip(o, "SongAuthor"@, 6);
    lemma_lookup_skip(o, "SongAuthor"@, 7);
    lemma_lookup_hit(o, "SongAuthor"@, 8);
    lemma_lookup_skip(o, "Mapper"@, 0);
    lemma_lookup_skip(o, "Mapper"@, 1);
    lemma_lookup_skip(o, "Mapper"@, 2);
    lemma_lookup_skip(o, "Mapper"@, 3);
    lemma_lookup_skip(o, "Mapper"@, 4);
    lemma_lookup_skip(o, "Mapper"@, 5);
    lemma_lookup_skip(o, "Mapper"@, 6);
    lemma_lookup_skip(o, "Mapper"@, 7);
    lemma_lookup_skip(o, "Mapper"@, 8);
    lemma_lookup_hit(o, "Mapper"@, 9);
    lemma_lookup_skip(o, "Mappers"@, 0);
    lemma_lookup_skip(o, "Mappers"@, 1);
    lemma_lookup_skip(o, "Mappers"@, 2);
    lemma_lookup_skip(o, "Mappers"@, 3);
    lemma_lookup_skip(o, "Mappers"@, 4);
    lemma_lookup_skip(o, "Mappers"@, 5);
    lemma_lookup_skip(o, "Mappers"@, 6);
    lemma_lookup_skip(o, "Mappers"@, 7);
    lemma_lookup_skip(o, "Mappers"@, 8);
    lemma_lookup_skip(o, "Mappers"@, 9);
    lemma_lookup_hit(o, "Mappers"@, 10);
    lemma_lookup_skip(o, "Lighters"@, 0);
    lemma_lookup_skip(o, "Lighters"@, 1);
    lemma_lookup_skip(o, "Lighters"@, 2);
    lemma_lookup_skip(o, "Lighters"@, 3);
    lemma_lookup_skip(o, "Lighters"@, 4);
    lemma_lookup_skip(o, "Lighters"@, 5);
    lemma_lookup_skip(o, "Lighters"@, 6);
    lemma_lookup_skip(o, "Lighters"@, 7);
    lemma_lookup_skip(o, "Lighters"@, 8);
    lemma_lookup_skip(o, "Lighters"@, 9);
    lemma_lookup_skip(o, "Lighters"@, 10);
    lemma_lookup_hit(o, "Lighters"@, 11);
}

/// In an object laid out with the `MapData` keys in order, each key of one
/// group finds its own entry.
#[verifier::rlimit(100)]
#[verifier::spinoff_prover]
proof fn lemma_map_data_lookups_2(o: Seq<(String, Value)>)
    requires
        o.len() == 35,
        o[0].0@ == "LevelPaused"@,
        o[1].0@ == "LevelFinished"@,
        o[2].0@ == "LevelFailed"@,
        o[3].0@ == "LevelQuit"@,
        o[4].0@ == "Hash"@,
        o[5].0@ == "LevelId"@,
        o[6].0@ == "SongName"@,
        o[7].0@ == "SongSubName"@,
        o[8].0@ == "SongAuthor"@,
        o[9].0@ == "Mapper"@,
        o[10].0@ == "Mappers"@,
        o[11].0@ == "Lighters"@,
        o[12].0@ == "ContentRating"@,
        o[13].0@ == "BsrKey"@,
        o[14].0@ == "CoverImage"@,
        o[15].0@ == "Duration"@,
        o[16].0@ == "MapType"@,
        o[17].0@ == "Difficulty"@,
        o[18].0@ == "CustomDifficultyLabel"@,
        o[19].0@ == "Bpm"@,
        o[20].0@ == "Njs"@,
        o[21].0@ == "Modifiers"@,
        o[22].0@ == "ModifiersMultiplier"@,
        o[23].0@ == "PracticeMode"@,
        o[24].0@ == "PracticeModeModifiers"@,
        o[25].0@ == "Pp"@,
        o[26].0@ == "Star"@,
        o[27].0@ == "RankedState"@,
        o[28].0@ == "Rating"@,
        o[29].0@ == "ColorScheme"@,
        o[30].0@ == "GameVersion"@,
        o[31].0@ == "PluginVersion"@,
        o[32].0@ == "IsMultiplayer"@,
        o[33].0@ == "PreviousRecord"@,
        o[34].0@ == "PreviousBsr"@,
    ensures
        lookup(o, "ContentRating"@) == Some(o[12].1),
        lookup(o, "BsrKey"@) == Some(o[13].1),
        lookup(o, "CoverImage"@) == Some(o[14].1),
        lookup(o, "Duration"@) == Some(o[15].1),
        lookup(o, "MapType"@) == Some(o[16].1),
        lookup(o, "Difficulty"@) == Some(o[17].1),
{
    lemma_map_data_keys();
    lemma_lookup_skip(o, "ContentRating"@, 0);
    lemma_lookup_skip(o, "ContentRating"@, 1);
    lemma_lookup_skip(o, "ContentRating"@, 2);
    lemma_lookup_skip(o, "ContentRating"@, 3);
    lemma_lookup_skip(o, "ContentRating"@, 4);
    lemma_lookup_skip(o, "ContentRating"@, 5);
    lemma_lookup_skip(o, "ContentRating"@, 6);
    lemma_lookup_skip(o, "ContentRating"@, 7);
    lemma_lookup_skip(o, "ContentRating"@, 8);
    lemma_lookup_skip(o, "ContentRating"@, 9);
    lemma_lookup_skip(o, "ContentRating"@, 10);
    lemma_lookup_skip(o, "ContentRating"@, 11);
    lemma_lookup_hit(o, "ContentRating"@, 12);
    lemma_lookup_skip(o, "BsrKey"@, 0);
    lemma_lookup_skip(o, "BsrKey"@, 1);
    lemma_lookup_skip(o, "BsrKey"@, 2);
    lemma_lookup_skip(o, "BsrKey"@, 3);
    lemma_lookup_skip(o, "BsrKey"@, 4);
    lemma_lookup_skip(o, "BsrKey"@, 5);
    lemma_lookup_skip(o, "BsrKey"@, 6);
    lemma_lookup_skip(o, "BsrKey"@, 7);
    lemma_lookup_skip(o, "BsrKey"@, 8);
    lemma_lookup_skip(o, "BsrKey"@, 9);
    lemma_lookup_skip(o, "BsrKey"@, 10);
    lemma_lookup_skip(o, "BsrKey"@, 11);
    lemma_lookup_skip(o, "BsrKey"@, 12);
    lemma_lookup_hit(o, "BsrKey"@, 13);
    lemma_lookup_skip(o, "CoverImage"@, 0);
    lemma_lookup_skip(o, "CoverImage"@, 1);
    lemma_lookup_skip(o, "CoverImage"@, 2);
    lemma_lookup_skip(o, "CoverImage"@, 3);
    lemma_lookup_skip(o, "CoverImage"@, 4);
    lemma_lookup_skip(o, "CoverImage"@, 5);
    lemma_lookup_skip(o, "CoverImage"@, 6);
    lemma_lookup_skip(o, "CoverImage"@, 7);
    lemma_lookup_skip(o, "CoverImage"@, 8);
    lemma_lookup_skip(o, "CoverImage"@, 9);
    lemma_lookup_skip(o, "CoverImage"@, 10);
    lemma_lookup_skip(o, "CoverImage"@, 11);
    lemma_lookup_skip(o, "CoverImage"@, 12);
    lemma_lookup_skip(o, "CoverImage"@, 13);
    lemma_lookup_hit(o, "CoverImage"@, 14);
    lemma_lookup_skip(o, "Duration"@, 0);
    lemma_lookup_skip(o, "Duration"@, 1);
    lemma_lookup_skip(o, "Duration"@, 2);
    lemma_lookup_skip(o, "Duration"@, 3);
    lemma_lookup_skip(o, "Duration"@, 4);
    lemma_lookup_skip(o, "Duration"@, 5);
    lemma_lookup_skip(o, "Duration"@, 6);
    lemma_lookup_skip(o, "Duration"@, 7);
    lemma_lookup_skip(o, "Duration"@, 8);
    lemma_lookup_skip(o, "Duration"@, 9);
    lemma_lookup_skip(o, "Duration"@, 10);
    lemma_lookup_skip(o, "Duration"@, 11);
    lemma_lookup_skip(o, "Duration"@, 12);
    lemma_lookup_skip(o, "Duration"@, 13);
    lemma_lookup_skip(o, "Duration"@, 14);
    lemma_lookup_hit(o, "Duration"@, 15);
    lemma_lookup_skip(o, "MapType"@, 0);
    lemma_lookup_skip(o, "MapType"@, 1);
    lemma_lookup_skip(o, "MapType"@, 2);
    lemma_lookup_skip(o, "MapType"@, 3);
    lemma_lookup_skip(o, "MapType"@, 4);
    lemma_lookup_skip(o, "MapType"@, 5);
    lemma_lookup_skip(o, "MapType"@, 6);
    lemma_lookup_skip(o, "MapType"@, 7);
    lemma_lookup_skip(o, "MapType"@, 8);
    lemma_lookup_skip(o, "MapType"@, 9);
    lemma_lookup_skip(o, "MapType"@, 10);
    lemma_lookup_skip(o, "MapType"@, 11);
    lemma_lookup_skip(o, "MapType"@, 12);
    lemma_lookup_skip(o, "MapType"@, 13);
    lemma_lookup_skip(o, "MapType"@, 14);
    lemma_lookup_skip(o, "MapType"@, 15);
    lemma_lookup_hit(o, "MapType"@, 16);
    lemma_lookup_skip(o, "Difficulty"@, 0);
    lemma_lookup_skip(o, "Difficulty"@, 1);
    lemma_lookup_skip(o, "Difficulty"@, 2);
    lemma_lookup_skip(o, "Difficulty"@, 3);
    lemma_lookup_skip(o, "Difficulty"@, 4);
    lemma_lookup_skip(o, "Difficulty"@, 5);
    lemma_lookup_skip(o, "Difficulty"@, 6);
    lemma_lookup_skip(o, "Difficulty"@, 7);
    lemma_lookup_skip(o, "Difficulty"@, 8);
    lemma_lookup_skip(o, "Difficulty"@, 9);
    lemma_lookup_skip(o, "Difficulty"@, 10);
    lemma_lookup_skip(o, "Difficulty"@, 11);
    lemma_lookup_skip(o, "Difficulty"@, 12);
    lemma_lookup_skip(o, "Difficulty"@, 13);
    lemma_lookup_skip(o, "Difficulty"@, 14);
    lemma_lookup_skip(o, "Difficulty"@, 15);
    lemma_lookup_skip(o, "Difficulty"@, 16);
    lemma_lookup_hit(o, "Difficulty"@, 17);
}

/// In an object laid out with the `MapData` keys in order, each key of one
/// group finds its own entry.
#[verifier::rlimit(100)]
#[verifier::spinoff_prover]
proof fn lemma_map_data_lookups_3(o: Seq<(String, Value)>)
    requires
        o.len() == 35,
        o[0].0@ == "LevelPaused"@,
        o[1].0@ == "LevelFinished"@,
        o[2].0@ == "LevelFailed"@,
        o[3].0@ == "LevelQuit"@,
        o[4].0@ == "Hash"@,
        o[5].0@ == "LevelId"@,
        o[6].0@ == "SongName"@,
        o[7].0@ == "SongSubName"@,
        o[8].0@ == "SongAuthor"@,
        o[9].0@ == "Mapper"@,
        o[10].0@ == "Mappers"@,
        o[11].0@ == "Lighters"@,
        o[12].0@ == "ContentRating"@,
        o[13].0@ == "BsrKey"@,
        o[14].0@ == "CoverImage"@,
        o[15].0@ == "Duration"@,
        o[16].0@ == "MapType"@,
        o[17].0@ == "Difficulty"@,
        o[18].0@ == "CustomDifficultyLabel"@,
        o[19].0@ == "Bpm"@,
        o[20].0@ == "Njs"@,
        o[21].0@ == "Modifiers"@,
        o[22].0@ == "ModifiersMultiplier"@,
        o[23].0@ == "PracticeMode"@,
        o[24].0@ == "PracticeModeModifiers"@,
        o[25].0@ == "Pp"@,
        o[26].0@ == "Star"@,
        o[27].0@ == "RankedState"@,
        o[28].0@ == "Rating"@,
        o[29].0@ == "ColorScheme"@,
        o[30].0@ == "GameVersion"@,
        o[31].0@ == "PluginVersion"@,
        o[32].0@ == "IsMultiplayer"@,
        o[33].0@ == "PreviousRecord"@,
        o[34].0@ == "PreviousBsr"@,
    ensures
        lookup(o, "CustomDifficultyLabel"@) == Some(o[18].1),
        lookup(o, "Bpm"@) == Some(o[19].1),
        lookup(o, "Njs"@) == Some(o[20].1),
        lookup(o, "Modifiers"@) == Some(o[21].1),
        lookup(o, "ModifiersMultiplier"@) == Some(o[22].1),
        lookup(o, "PracticeMode"@) == Some(o[23].1),
{
    lemma_map_data_keys();
    lemma_lookup_skip(o, "CustomDifficultyLabel"@, 0);
    lemma_lookup_skip(o, "CustomDifficultyLabel"@, 1);
    lemma_lookup_skip(o, "CustomDifficultyLabel"@, 2);
    lemma_lookup_skip(o, "CustomDifficultyLabel"@, 3);
    lemma_lookup_skip(o, "CustomDifficultyLabel"@, 4);
    lemma_lookup_skip(o, "CustomDifficultyLabel"@, 5);
    lemma_lookup_skip(o, "CustomDifficultyLabel"@, 6);
    lemma_lookup_skip(o, "CustomDifficultyLabel"@, 7);
    lemma_lookup_skip(o, "CustomDifficultyLabel"@, 8);
    lemma_lookup_skip(o, "CustomDifficultyLabel"@, 9);
    lemma_lookup_skip(o, "CustomDifficultyLabel"@, 10);
    lemma_lookup_skip(o, "CustomDifficultyLabel"@, 11);
    lemma_lookup_skip(o, "CustomDifficultyLabel"@, 12);
    lemma_lookup_skip(o, "CustomDifficultyLabel"@, 13);
    lemma_lookup_skip(o, "CustomDifficultyLabel"@, 14);
    lemma_lookup_skip(o, "CustomDifficultyLabel"@, 15);
    lemma_lookup_skip(o, "CustomDifficultyLabel"@, 16);
    lemma_lookup_skip(o, "CustomDifficultyLabel"@, 17);
    lemma_lookup_hit(o, "CustomDifficultyLabel"@, 18);
    lemma_lookup_skip(o, "Bpm"@, 0);
    lemma_lookup_skip(o, "Bpm"@, 1);
    lemma_lookup_skip(o, "Bpm"@, 2);
    lemma_lookup_skip(o, "Bpm"@, 3);
    lemma_lookup_skip(o, "Bpm"@, 4);
    lemma_lookup_skip(o, "Bpm"@, 5);
    lemma_lookup_skip(o, "Bpm"@, 6);
    lemma_lookup_skip(o, "Bpm"@, 7);
    lemma_lookup_skip(o, "Bpm"@, 8);
    lemma_lookup_skip(o, "Bpm"@, 9);
    lemma_lookup_skip(o, "Bpm"@, 10);
    lemma_lookup_skip(o, "Bpm"@, 11);
    lemma_lookup_skip(o, "Bpm"@, 12);
    lemma_lookup_skip(o, "Bpm"@, 13);
    lemma_lookup_skip(o, "Bpm"@, 14);
    lemma_lookup_skip(o, "Bpm"@, 15);
    lemma_lookup_skip(o, "Bpm"@, 16);
    lemma_lookup_skip(o, "Bpm"@, 17);
    lemma_lookup_skip(o, "Bpm"@, 18);
    lemma_lookup_hit(o, "Bpm"@, 19);
    lemma_lookup_skip(o, "Njs"@, 0);
    lemma_lookup_skip(o, "Njs"@, 1);
    lemma_lookup_skip(o, "Njs"@, 2);
    lemma_lookup_skip(o, "Njs"@, 3);
    lemma_lookup_skip(o, "Njs"@, 4);
    lemma_lookup_skip(o, "Njs"@, 5);
    lemma_lookup_skip(o, "Njs"@, 6);
    lemma_lookup_skip(o, "Njs"@, 7);
    lemma_lookup_skip(o, "Njs"@, 8);
    lemma_lookup_skip(o, "Njs"@, 9);
    lemma_lookup_skip(o, "Njs"@, 10);
    lemma_lookup_skip(o, "Njs"@, 11);
    lemma_lookup_skip(o, "Njs"@, 12);
    lemma_lookup_skip(o, "Njs"@, 13);
    lemma_lookup_skip(o, "Njs"@, 14);
    lemma_lookup_skip(o, "Njs"@, 15);
    lemma_lookup_skip(o, "Njs"@, 16);
    lemma_lookup_skip(o, "Njs"@, 17);
    lemma_lookup_skip(o, "Njs"@, 18);
    lemma_lookup_skip(o, "Njs"@, 19);
    lemma_lookup_hit(o, "Njs"@, 20);
    lemma_lookup_skip(o, "Modifiers"@, 0);
    lemma_lookup_skip(o, "Modifiers"@, 1);
    lemma_lookup_skip(o, "Modifiers"@, 2);
    lemma_lookup_skip(o, "Modifiers"@, 3);
    lemma_lookup_skip(o, "Modifiers"@, 4);
    lemma_lookup_skip(o, "Modifiers"@, 5);
    lemma_lookup_skip(o, "Modifiers"@, 6);
    lemma_lookup_skip(o, "Modifiers"@, 7);
    lemma_lookup_skip(o, "Modifiers"@, 8);
    lemma_lookup_skip(o, "Modifiers"@, 9);
    lemma_lookup_skip(o, "Modifiers"@, 10);
    lemma_lookup_skip(o, "Modifiers"@, 11);
    lemma_lookup_skip(o, "Modifiers"@, 12);
    lemma_lookup_skip(o, "Modifiers"@, 13);
    lemma_lookup_skip(o, "Modifiers"@, 14);
    lemma_lookup_skip(o, "Modifiers"@, 15);
    lemma_lookup_skip(o, "Modifiers"@, 16);
    lemma_lookup_skip(o, "Modifiers"@, 17);
    lemma_lookup_skip(o, "Modifiers"@, 18);
    lemma_lookup_skip(o, "Modifiers"@, 19);
    lemma_lookup_skip(o, "Modifiers"@, 20);
    lemma_lookup_hit(o, "Modifiers"@, 21);
    lemma_lookup_skip(o, "ModifiersMultiplier"@, 0);
    lemma_lookup_skip(o, "ModifiersMultiplier"@, 1);
    lemma_lookup_skip(o, "ModifiersMultiplier"@, 2);
    lemma_lookup_skip(o, "ModifiersMultiplier"@, 3);
    lemma_lookup_skip(o, "ModifiersMultiplier"@, 4);
    lemma_lookup_skip(o, "ModifiersMultiplier"@, 5);
    lemma_lookup_skip(o, "ModifiersMultiplier"@, 6);
    lemma_lookup_skip(o, "ModifiersMultiplier"@, 7);
    lemma_lookup_skip(o, "ModifiersMultiplier"@, 8);
    lemma_lookup_skip(o, "ModifiersMultiplier"@, 9);
    lemma_lookup_skip(o, "ModifiersMultiplier"@, 10);
    lemma_lookup_skip(o, "ModifiersMultiplier"@, 11);
    lemma_lookup_skip(o, "ModifiersMultiplier"@, 12);
    lemma_lookup_skip(o, "ModifiersMultiplier"@, 13);
    lemma_lookup_skip(o, "ModifiersMultiplier"@, 14);
    lemma_lookup_skip(o, "ModifiersMultiplier"@, 15);
    lemma_lookup_skip(o, "ModifiersMultiplier"@, 16);
    lemma_lookup_skip(o, "ModifiersMultiplier"@, 17);
    lemma_lookup_skip(o, "ModifiersMultiplier"@, 18);
    lemma_lookup_skip(o, "ModifiersMultiplier"@, 19);
    lemma_lookup_skip(o, "ModifiersMultiplier"@, 20);
    lemma_lookup_skip(o, "ModifiersMultiplier"@, 21);
    lemma_lookup_hit(o, "ModifiersMultiplier"@, 22);
    lemma_lookup_skip(o, "PracticeMode"@, 0);
    lemma_lookup_skip(o, "PracticeMode"@, 1);
    lemma_lookup_skip(o, "PracticeMode"@, 2);
    lemma_lookup_skip(o, "PracticeMode"@, 3);
    lemma_lookup_skip(o, "PracticeMode"@, 4);
    lemma_lookup_skip(o, "PracticeMode"@, 5);
    lemma_lookup_skip(o, "PracticeMode"@, 6);
    lemma_lookup_skip(o, "PracticeMode"@, 7);
    lemma_lookup_skip(o, "PracticeMode"@, 8);
    lemma_lookup_skip(o, "PracticeMode"@, 9);
    lemma_lookup_skip(o, "PracticeMode"@, 10);
    lemma_lookup_skip(o, "PracticeMode"@, 11);
    lemma_lookup_skip(o, "PracticeMode"@, 12);
    lemma_lookup_skip(o, "PracticeMode"@, 13);
    lemma_lookup_skip(o, "PracticeMode"@, 14);
    lemma_lookup_skip(o, "PracticeMode"@, 15);
    lemma_lookup_skip(o, "PracticeMode"@, 16);
    lemma_lookup_skip(o, "PracticeMode"@, 17);
    lemma_lookup_skip(o, "PracticeMode"@, 18);
    lemma_lookup_skip(o, "PracticeMode"@, 19);
    lemma_lookup_skip(o, "PracticeMode"@, 20);
    lemma_lookup_skip(o, "PracticeMode"@, 21);
    lemma_lookup_skip(o, "PracticeMode"@, 22);
    lemma_lookup_hit(o, "PracticeMode"@, 23);
}

/// In an object laid out with the `MapData` keys in order, each key of one
/// group finds its own entry.
#[verifier::rlimit(100)]
#[verifier::spinoff_prover]
proof fn lemma_map_data_lookups_4(o: Seq<(String, Value)>)
    requires
        o.len() == 35,
        o[0].0@ == "LevelPaused"@,
        o[1].0@ == "LevelFinished"@,
        o[2].0@ == "LevelFailed"@,
        o[3].0@ == "LevelQuit"@,
        o[4].0@ == "Hash"@,
        o[5].0@ == "LevelId"@,
        o[6].0@ == "SongName"@,
        o[7].0@ == "SongSubName"@,
        o[8].0@ == "SongAuthor"@,
        o[9].0@ == "Mapper"@,
        o[10].0@ == "Mappers"@,
        o[11].0@ == "Lighters"@,
        o[12].0@ == "ContentRating"@,
        o[13].0@ == "BsrKey"@,
        o[14].0@ == "CoverImage"@,
        o[15].0@ == "Duration"@,
        o[16].0@ == "MapType"@,
        o[17].0@ == "Difficulty"@,
        o[18].0@ == "CustomDifficultyLabel"@,
        o[19].0@ == "Bpm"@,
        o[20].0@ == "Njs"@,
        o[21].0@ == "Modifiers"@,
        o[22].0@ == "ModifiersMultiplier"@,
        o[23].0@ == "PracticeMode"@,
        o[24].0@ == "PracticeModeModifiers"@,
        o[25].0@ == "Pp"@,
        o[26].0@ == "Star"@,
        o[27].0@ == "RankedState"@,
        o[28].0@ == "Rating"@,
        o[29].0@ == "ColorScheme"@,
        o[30].0@ == "GameVersion"@,
        o[31].0@ == "PluginVersion"@,
        o[32].0@ == "IsMultiplayer"@,
        o[33].0@ == "PreviousRecord"@,
        o[34].0@ == "PreviousBsr"@,
    ensures
        lookup(o, "PracticeModeModifiers"@) == Some(o[24].1),
        lookup(o, "Pp"@) == Some(o[25].1),
        lookup(o, "Star"@) == Some(o[26].1),
        lookup(o, "RankedState"@) == Some(o[27].1),
        lookup(o, "Rating"@) == Some(o[28].1),
        lookup(o, "ColorScheme"@) == Some(o[29].1),
{
    lemma_map_data_keys();
    lemma_lookup_skip(o, "PracticeModeModifiers"@, 0);
    lemma_lookup_skip(o, "PracticeModeModifiers"@, 1);
    lemma_lookup_skip(o, "PracticeModeModifiers"@, 2);
    lemma_lookup_skip(o, "PracticeModeModifiers"@, 3);
    lemma_lookup_skip(o, "PracticeModeModifiers"@, 4);
    lemma_lookup_skip(o, "PracticeModeModifiers"@, 5);
    lemma_lookup_skip(o, "PracticeModeModifiers"@, 6);
    lemma_lookup_skip(o, "PracticeModeModifiers"@, 7);
    lemma_lookup_skip(o, "PracticeModeModifiers"@, 8);
    lemma_lookup_skip(o, "PracticeModeModifiers"@, 9);
    lemma_lookup_skip(o, "PracticeModeModifiers"@, 10);
    lemma_lookup_skip(o, "PracticeModeModifiers"@, 11);
    lemma_lookup_skip(o, "PracticeModeModifiers"@, 12);
    lemma_lookup_skip(o, "PracticeModeModifiers"@, 13);
    lemma_lookup_skip(o, "PracticeModeModifiers"@, 14);
    lemma_lookup_skip(o, "PracticeModeModifiers"@, 15);
    lemma_lookup_skip(o, "PracticeModeModifiers"@, 16);
    lemma_lookup_skip(o, "PracticeModeModifiers"@, 17);
    lemma_lookup_skip(o, "PracticeModeModifiers"@, 18);
    lemma_lookup_skip(o, "PracticeModeModifiers"@, 19);
    lemma_lookup_skip(o, "PracticeModeModifiers"@, 20);
    lemma_lookup_skip(o, "PracticeModeModifiers"@, 21);
    lemma_lookup_skip(o, "PracticeModeModifiers"@, 22);
    lemma_lookup_skip(o, "PracticeModeModifiers"@, 23);
    lemma_lookup_hit(o, "PracticeModeModifiers"@, 24);
    lemma_lookup_skip(o, "Pp"@, 0);
    lemma_lookup_skip(o, "Pp"@, 1);
    lemma_lookup_skip(o, "Pp"@, 2);
    lemma_lookup_skip(o, "Pp"@, 3);
    lemma_lookup_skip(o, "Pp"@, 4);
    lemma_lookup_skip(o, "Pp"@, 5);
    lemma_lookup_skip(o, "Pp"@, 6);
    lemma_lookup_skip(o, "Pp"@, 7);
    lemma_lookup_skip(o, "Pp"@, 8);
    lemma_lookup_skip(o, "Pp"@, 9);
    lemma_lookup_skip(o, "Pp"@, 10);
    lemma_lookup_skip(o, "Pp"@, 11);
    lemma_lookup_skip(o, "Pp"@, 12);
    lemma_lookup_skip(o, "Pp"@, 13);
    lemma_lookup_skip(o, "Pp"@, 14);
    lemma_lookup_skip(o, "Pp"@, 15);
    lemma_lookup_skip(o, "Pp"@, 16);
    lemma_lookup_skip(o, "Pp"@, 17);
    lemma_lookup_skip(o, "Pp"@, 18);
    lemma_lookup_skip(o, "Pp"@, 19);
    lemma_lookup_skip(o, "Pp"@, 20);
    lemma_lookup_skip(o, "Pp"@, 21);
    lemma_lookup_skip(o, "Pp"@, 22);
    lemma_lookup_skip(o, "Pp"@, 23);
    lemma_lookup_skip(o, "Pp"@, 24);
    lemma_lookup_hit(o, "Pp"@, 25);
    lemma_lookup_skip(o, "Star"@, 0);
    lemma_lookup_skip(o, "Star"@, 1);
    lemma_lookup_skip(o, "Star"@, 2);
    lemma_lookup_skip(o, "Star"@, 3);
    lemma_lookup_skip(o, "Star"@, 4);
    lemma_lookup_skip(o, "Star"@, 5);
    lemma_lookup_skip(o, "Star"@, 6);
    lemma_lookup_skip(o, "Star"@, 7);
    lemma_lookup_skip(o, "Star"@, 8);
    lemma_lookup_skip(o, "Star"@, 9);
    lemma_lookup_skip(o, "Star"@, 10);
    lemma_lookup_skip(o, "Star"@, 11);
    lemma_lookup_skip(o, "Star"@, 12);
    lemma_lookup_skip(o, "Star"@, 13);
    lemma_lookup_skip(o, "Star"@, 14);
    lemma_lookup_skip(o, "Star"@, 15);
    lemma_lookup_skip(o, "Star"@, 16);
    lemma_lookup_skip(o, "Star"@, 17);
    lemma_lookup_skip(o, "Star"@, 18);
    lemma_lookup_skip(o, "Star"@, 19);
    lemma_lookup_skip(o, "Star"@, 20);
    lemma_lookup_skip(o, "Star"@, 21);
    lemma_lookup_skip(o, "Star"@, 22);
    lemma_lookup_skip(o, "Star"@, 23);
    lemma_lookup_skip(o, "Star"@, 24);
    lemma_lookup_skip(o, "Star"@, 25);
    lemma_lookup_hit(o, "Star"@, 26);
    lemma_lookup_skip(o, "RankedState"@, 0);
    lemma_lookup_skip(o, "RankedState"@, 1);
    lemma_lookup_skip(o, "RankedState"@, 2);
    lemma_lookup_skip(o, "RankedState"@, 3);
    lemma_lookup_skip(o, "RankedState"@, 4);
    lemma_lookup_skip(o, "RankedState"@, 5);
    lemma_lookup_skip(o, "RankedState"@, 6);
    lemma_lookup_skip(o, "RankedState"@, 7);
    lemma_lookup_skip(o, "RankedState"@, 8);
    lemma_lookup_skip(o, "RankedState"@, 9);
    lemma_lookup_skip(o, "RankedState"@, 10);
    lemma_lookup_skip(o, "RankedState"@, 11);
    lemma_lookup_skip(o, "RankedState"@, 12);
    lemma_lookup_skip(o, "RankedState"@, 13);
    lemma_lookup_skip(o, "RankedState"@, 14);
    lemma_lookup_skip(o, "RankedState"@, 15);
    lemma_lookup_skip(o, "RankedState"@, 16);
    lemma_lookup_skip(o, "RankedState"@, 17);
    lemma_lookup_skip(o, "RankedState"@, 18);
    lemma_lookup_skip(o, "RankedState"@, 19);
    lemma_lookup_skip(o, "RankedState"@, 20);
    lemma_lookup_skip(o, "RankedState"@, 21);
    lemma_lookup_skip(o, "RankedState"@, 22);
    lemma_lookup_skip(o, "RankedState"@, 23);
    lemma_lookup_skip(o, "RankedState"@, 24);
    lemma_lookup_skip(o, "RankedState"@, 25);
    lemma_lookup_skip(o, "RankedState"@, 26);
    lemma_lookup_hit(o, "RankedState"@, 27);
    lemma_lookup_skip(o, "Rating"@, 0);
    lemma_lookup_skip(o, "Rating"@, 1);
    lemma_lookup_skip(o, "Rating"@, 2);
    lemma_lookup_skip(o, "Rating"@, 3);
    lemma_lookup_skip(o, "Rating"@, 4);
    lemma_lookup_skip(o, "Rating"@, 5);
    lemma_lookup_skip(o, "Rating"@, 6);
    lemma_lookup_skip(o, "Rating"@, 7);
    lemma_lookup_skip(o, "Rating"@, 8);
    lemma_lookup_skip(o, "Rating"@, 9);
    lemma_lookup_skip(o, "Rating"@, 10);
    lemma_lookup_skip(o, "Rating"@, 11);
    lemma_lookup_skip(o, "Rating"@, 12);
    lemma_lookup_skip(o, "Rating"@, 13);
    lemma_lookup_skip(o, "Rating"@, 14);
    lemma_lookup_skip(o, "Rating"@, 15);
    lemma_lookup_skip(o, "Rating"@, 16);
    lemma_lookup_skip(o, "Rating"@, 17);
    lemma_lookup_skip(o, "Rating"@, 18);
    lemma_lookup_skip(o, "Rating"@, 19);
    lemma_lookup_skip(o, "Rating"@, 20);
    lemma_lookup_skip(o, "Rating"@, 21);
    lemma_lookup_skip(o, "Rating"@, 22);
    lemma_lookup_skip(o, "Rating"@, 23);
    lemma_lookup_skip(o, "Rating"@, 24);
    lemma_lookup_skip(o, "Rating"@, 25);
    lemma_lookup_skip(o, "Rating"@, 26);
    lemma_lookup_skip(o, "Rating"@, 27);
    lemma_lookup_hit(o, "Rating"@, 28);
    lemma_lookup_skip(o, "ColorScheme"@, 0);
    lemma_lookup_skip(o, "ColorScheme"@, 1);
    lemma_lookup_skip(o, "ColorScheme"@, 2);
    lemma_lookup_skip(o, "ColorScheme"@, 3);
    lemma_lookup_skip(o, "ColorScheme"@, 4);
    lemma_lookup_skip(o, "ColorScheme"@, 5);
    lemma_lookup_skip(o, "ColorScheme"@, 6);
    lemma_lookup_skip(o, "ColorScheme"@, 7);
    lemma_lookup_skip(o, "ColorScheme"@, 8);
    lemma_lookup_skip(o, "ColorScheme"@, 9);
    lemma_lookup_skip(o, "ColorScheme"@, 10);
    lemma_lookup_skip(o, "ColorScheme"@, 11);
    lemma_lookup_skip(o, "ColorScheme"@, 12);
    lemma_lookup_skip(o, "ColorScheme"@, 13);
    lemma_lookup_skip(o, "ColorScheme"@, 14);
    lemma_lookup_skip(o, "ColorScheme"@, 15);
    lemma_lookup_skip(o, "ColorScheme"@, 16);
    lemma_lookup_skip(o, "ColorScheme"@, 17);
    lemma_lookup_skip(o, "ColorScheme"@, 18);
    lemma_lookup_skip(o, "ColorScheme"@, 19);
    lemma_lookup_skip(o, "ColorScheme"@, 20);
    lemma_lookup_skip(o, "ColorScheme"@, 21);
    lemma_lookup_skip(o, "ColorScheme"@, 22);
    lemma_lookup_skip(o, "ColorScheme"@, 23);
    lemma_lookup_skip(o, "ColorScheme"@, 24);
    lemma_lookup_skip(o, "ColorScheme"@, 25);
    lemma_lookup_skip(o, "ColorScheme"@, 26);
    lemma_lookup_skip(o, "ColorScheme"@, 27);
    lemma_lookup_skip(o, "ColorScheme"@, 28);
    lemma_lookup_hit(o, "ColorScheme"@, 29);
}

/// In an object laid out with the `MapData` keys in order, each key of one
/// group finds its own entry.
#[verifier::rlimit(100)]
#[verifier::spinoff_prover]
proof fn lemma_map_data_lookups_5(o: Seq<(String, Value)>)
    requires
        o.len() == 35,
        o[0].0@ == "LevelPaused"@,
        o[1].0@ == "LevelFinished"@,
        o[2].0@ == "LevelFailed"@,
        o[3].0@ == "LevelQuit"@,
        o[4].0@ == "Hash"@,
        o[5].0@ == "LevelId"@,
        o[6].0@ == "SongName"@,
        o[7].0@ == "SongSubName"@,
        o[8].0@ == "SongAuthor"@,
        o[9].0@ == "Mapper"@,
        o[10].0@ == "Mappers"@,
        o[11].0@ == "Lighters"@,
        o[12].0@ == "ContentRating"@,
        o[13].0@ == "BsrKey"@,
        o[14].0@ == "CoverImage"@,
        o[15].0@ == "Duration"@,
        o[16].0@ == "MapType"@,
        o[17].0@ == "Difficulty"@,
        o[18].0@ == "CustomDifficultyLabel"@,
        o[19].0@ == "Bpm"@,
        o[20].0@ == "Njs"@,
        o[21].0@ == "Modifiers"@,
        o[22].0@ == "ModifiersMultiplier"@,
        o[23].0@ == "PracticeMode"@,
        o[24].0@ == "PracticeModeModifiers"@,
        o[25].0@ == "Pp"@,
        o[26].0@ == "Star"@,
        o[27].0@ == "RankedState"@,
        o[28].0@ == "Rating"@,
        o[29].0@ == "ColorScheme"@,
        o[30].0@ == "GameVersion"@,
        o[31].0@ == "PluginVersion"@,
        o[32].0@ == "IsMultiplayer"@,
        o[33].0@ == "PreviousRecord"@,
        o[34].0@ == "PreviousBsr"@,
    ensures
        lookup(o, "GameVersion"@) == Some(o[30].1),
        lookup(o, "PluginVersion"@) == Some(o[31].1),
        lookup(o, "IsMultiplayer"@) == Some(o[32].1),
        lookup(o, "PreviousRecord"@) == Some(o[33].1),
        lookup(o, "PreviousBsr"@) == Some(o[34].1),
{
    lemma_map_data_keys();
    lemma_lookup_skip(o, "GameVersion"@, 0);
    lemma_lookup_skip(o, "GameVersion"@, 1);
    lemma_lookup_skip(o, "GameVersion"@, 2);
    lemma_lookup_skip(o, "GameVersion"@, 3);
    lemma_lookup_skip(o, "GameVersion"@, 4);
    lemma_lookup_skip(o, "GameVersion"@, 5);
    lemma_lookup_skip(o, "GameVersion"@, 6);
    lemma_lookup_skip(o, "GameVersion"@, 7);
    lemma_lookup_skip(o, "GameVersion"@, 8);
    lemma_lookup_skip(o, "GameVersion"@, 9);
    lemma_lookup_skip(o, "GameVersion"@, 10);
    lemma_lookup_skip(o, "GameVersion"@, 11);
    lemma_lookup_skip(o, "GameVersion"@, 12);
    lemma_lookup_skip(o, "GameVersion"@, 13);
    lemma_lookup_skip(o, "GameVersion"@, 14);
    lemma_lookup_skip(o, "GameVersion"@, 15);
    lemma_lookup_skip(o, "GameVersion"@, 16);
    lemma_lookup_skip(o, "GameVersion"@, 17);
    lemma_lookup_skip(o, "GameVersion"@, 18);
    lemma_lookup_skip(o, "GameVersion"@, 19);
    lemma_lookup_skip(o, "GameVersion"@, 20);
    lemma_lookup_skip(o, "GameVersion"@, 21);
    lemma_lookup_skip(o, "GameVersion"@, 22);
    lemma_lookup_skip(o, "GameVersion"@, 23);
    lemma_lookup_skip(o, "GameVersion"@, 24);
    lemma_lookup_skip(o, "GameVersion"@, 25);
    lemma_lookup_skip(o, "GameVersion"@, 26);
    lemma_lookup_skip(o, "GameVersion"@, 27);
    lemma_lookup_skip(o, "GameVersion"@, 28);
    lemma_lookup_skip(o, "GameVersion"@, 29);
    lemma_lookup_hit(o, "GameVersion"@, 30);
    lemma_lookup_skip(o, "PluginVersion"@, 0);
    lemma_lookup_skip(o, "PluginVersion"@, 1);
    lemma_lookup_skip(o, "PluginVersion"@, 2);
    lemma_lookup_skip(o, "PluginVersion"@, 3);
    lemma_lookup_skip(o, "PluginVersion"@, 4);
    lemma_lookup_skip(o, "PluginVersion"@, 5);
    lemma_lookup_skip(o, "PluginVersion"@, 6);
    lemma_lookup_skip(o, "PluginVersion"@, 7);
    lemma_lookup_skip(o, "PluginVersion"@, 8);
    lemma_lookup_skip(o, "PluginVersion"@, 9);
    lemma_lookup_skip(o, "PluginVersion"@, 10);
    lemma_lookup_skip(o, "PluginVersion"@, 11);
    lemma_lookup_skip(o, "PluginVersion"@, 12);
    lemma_lookup_skip(o, "PluginVersion"@, 13);
    lemma_lookup_skip(o, "PluginVersion"@, 14);
    lemma_lookup_skip(o, "PluginVersion"@, 15);
    lemma_lookup_skip(o, "PluginVersion"@, 16);
    lemma_lookup_skip(o, "PluginVersion"@, 17);
    lemma_lookup_skip(o, "PluginVersion"@, 18);
    lemma_lookup_skip(o, "PluginVersion"@, 19);
    lemma_lookup_skip(o, "PluginVersion"@, 20);
    lemma_lookup_skip(o, "PluginVersion"@, 21);
    lemma_lookup_skip(o, "PluginVersion"@, 22);
    lemma_lookup_skip(o, "PluginVersion"@, 23);
    lemma_lookup_skip(o, "PluginVersion"@, 24);
    lemma_lookup_skip(o, "PluginVersion"@, 25);
    lemma_lookup_skip(o, "PluginVersion"@, 26);
    lemma_lookup_skip(o, "PluginVersion"@, 27);
    lemma_lookup_skip(o, "PluginVersion"@, 28);
    lemma_lookup_skip(o, "PluginVersion"@, 29);
    lemma_lookup_skip(o, "PluginVersion"@, 30);
    lemma_lookup_hit(o, "PluginVersion"@, 31);
    lemma_lookup_skip(o, "IsMultiplayer"@, 0);
    lemma_lookup_skip(o, "IsMultiplayer"@, 1);
    lemma_lookup_skip(o, "IsMultiplayer"@, 2);
    lemma_lookup_skip(o, "IsMultiplayer"@, 3);
    lemma_lookup_skip(o, "IsMultiplayer"@, 4);
    lemma_lookup_skip(o, "IsMultiplayer"@, 5);
    lemma_lookup_skip(o, "IsMultiplayer"@, 6);
    lemma_lookup_skip(o, "IsMultiplayer"@, 7);
    lemma_lookup_skip(o, "IsMultiplayer"@, 8);
    lemma_lookup_skip(o, "IsMultiplayer"@, 9);
    lemma_lookup_skip(o, "IsMultiplayer"@, 10);
    lemma_lookup_skip(o, "IsMultiplayer"@, 11);
    lemma_lookup_skip(o, "IsMultiplayer"@, 12);
    lemma_lookup_skip(o, "IsMultiplayer"@, 13);
    lemma_lookup_skip(o, "IsMultiplayer"@, 14);
    lemma_lookup_skip(o, "IsMultiplayer"@, 15);
    lemma_lookup_skip(o, "IsMultiplayer"@, 16);
    lemma_lookup_skip(o, "IsMultiplayer"@, 17);
    lemma_lookup_skip(o, "IsMultiplayer"@, 18);
    lemma_lookup_skip(o, "IsMultiplayer"@, 19);
    lemma_lookup_skip(o, "IsMultiplayer"@, 20);
    lemma_lookup_skip(o, "IsMultiplayer"@, 21);
    lemma_lookup_skip(o, "IsMultiplayer"@, 22);
    lemma_lookup_skip(o, "IsMultiplayer"@, 23);
    lemma_lookup_skip(o, "IsMultiplayer"@, 24);
    lemma_lookup_skip(o, "IsMultiplayer"@, 25);
    lemma_lookup_skip(o, "IsMultiplayer"@, 26);
    lemma_lookup_skip(o, "IsMultiplayer"@, 27);
    lemma_lookup_skip(o, "IsMultiplayer"@, 28);
    lemma_lookup_skip(o, "IsMultiplayer"@, 29);
    lemma_lookup_skip(o, "IsMultiplayer"@, 30);
    lemma_lookup_skip(o, "IsMultiplayer"@, 31);
    lemma_lookup_hit(o, "IsMultiplayer"@, 32);
    lemma_lookup_skip(o, "PreviousRecord"@, 0);
    lemma_lookup_skip(o, "PreviousRecord"@, 1);
    lemma_lookup_skip(o, "PreviousRecord"@, 2);
    lemma_lookup_skip(o, "PreviousRecord"@, 3);
    lemma_lookup_skip(o, "PreviousRecord"@, 4);
    lemma_lookup_skip(o, "PreviousRecord"@, 5);
    lemma_lookup_skip(o, "PreviousRecord"@, 6);
    lemma_lookup_skip(o, "PreviousRecord"@, 7);
    lemma_lookup_skip(o, "PreviousRecord"@, 8);
    lemma_lookup_skip(o, "PreviousRecord"@, 9);
    lemma_lookup_skip(o, "PreviousRecord"@, 10);
    lemma_lookup_skip(o, "PreviousRecord"@, 11);
    lemma_lookup_skip(o, "PreviousRecord"@, 12);
    lemma_lookup_skip(o, "PreviousRecord"@, 13);
    lemma_lookup_skip(o, "PreviousRecord"@, 14);
    lemma_lookup_skip(o, "PreviousRecord"@, 15);
    lemma_lookup_skip(o, "PreviousRecord"@, 16);
    lemma_lookup_skip(o, "PreviousRecord"@, 17);
    lemma_lookup_skip(o, "PreviousRecord"@, 18);
    lemma_lookup_skip(o, "PreviousRecord"@, 19);
    lemma_lookup_skip(o, "PreviousRecord"@, 20);
    lemma_lookup_skip(o, "PreviousRecord"@, 21);
    lemma_lookup_skip(o, "PreviousRecord"@, 22);
    lemma_lookup_skip(o, "PreviousRecord"@, 23);
    lemma_lookup_skip(o, "PreviousRecord"@, 24);
    lemma_lookup_skip(o, "PreviousRecord"@, 25);
    lemma_lookup_skip(o, "PreviousRecord"@, 26);
    lemma_lookup_skip(o, "PreviousRecord"@, 27);
    lemma_lookup_skip(o, "PreviousRecord"@, 28);
    lemma_lookup_skip(o, "PreviousRecord"@, 29);
    lemma_lookup_skip(o, "PreviousRecord"@, 30);
    lemma_lookup_skip(o, "PreviousRecord"@, 31);
    lemma_lookup_skip(o, "PreviousRecord"@, 32);
    lemma_lookup_hit(o, "PreviousRecord"@, 33);
    lemma_lookup_skip(o, "PreviousBsr"@, 0);
    lemma_lookup_skip(o, "PreviousBsr"@, 1);
    lemma_lookup_skip(o, "PreviousBsr"@, 2);
    lemma_lookup_skip(o, "PreviousBsr"@, 3);
    lemma_lookup_skip(o, "PreviousBsr"@, 4);
    lemma_lookup_skip(o, "PreviousBsr"@, 5);
    lemma_lookup_skip(o, "PreviousBsr"@, 6);
    lemma_lookup_skip(o, "PreviousBsr"@, 7);
    lemma_lookup_skip(o, "PreviousBsr"@, 8);
    lemma_lookup_skip(o, "PreviousBsr"@, 9);
    lemma_lookup_skip(o, "PreviousBsr"@, 10);
    lemma_lookup_skip(o, "PreviousBsr"@, 11);
    lemma_lookup_skip(o, "PreviousBsr"@, 12);
    lemma_lookup_skip(o, "PreviousBsr"@, 13);
    lemma_lookup_skip(o, "PreviousBsr"@, 14);
    lemma_lookup_skip(o, "PreviousBsr"@, 15);
    lemma_lookup_skip(o, "PreviousBsr"@, 16);
    lemma_lookup_skip(o, "PreviousBsr"@, 17);
    lemma_lookup_skip(o, "PreviousBsr"@, 18);
    lemma_lookup_skip(o, "PreviousBsr"@, 19);
    lemma_lookup_skip(o, "PreviousBsr"@, 20);
    lemma_lookup_skip(o, "PreviousBsr"@, 21);
    lemma_lookup_skip(o, "PreviousBsr"@, 22);
    lemma_lookup_skip(o, "PreviousBsr"@, 23);
    lemma_lookup_skip(o, "PreviousBsr"@, 24);
    lemma_lookup_skip(o, "PreviousBsr"@, 25);
    lemma_lookup_skip(o, "PreviousBsr"@, 26);
    lemma_lookup_skip(o, "PreviousBsr"@, 27);
    lemma_lookup_skip(o, "PreviousBsr"@, 28);
    lemma_lookup_skip(o, "PreviousBsr"@, 29);
    lemma_lookup_skip(o, "PreviousBsr"@, 30);
    lemma_lookup_skip(o, "PreviousBsr"@, 31);
    lemma_lookup_skip(o, "PreviousBsr"@, 32);
    lemma_lookup_skip(o, "PreviousBsr"@, 33);
    lemma_lookup_hit(o, "PreviousBsr"@, 34);
}

/// Encodes `m` as a `MapData` object; decoding it gives `m` back.
#[verifier::rlimit(100)]
pub fn encode_map_data(m: &MapData) -> (r: Value)
    ensures
        map_data_error(r) is None && map_data_decodes(r, *m),
{
    let o: Vec<(String, Value)> = vec![
        ("LevelPaused".to_owned(), Value::Bool(m.level_paused)),
        ("LevelFinished".to_owned(), Value::Bool(m.level_finished)),
        ("LevelFailed".to_owned(), Value::Bool(m.level_failed)),
        ("LevelQuit".to_owned(), Value::Bool(m.level_quit)),
        ("Hash".to_owned(), encode_opt_str(&m.hash)),
        ("LevelId".to_owned(), encode_opt_str(&m.level_id)),
        ("SongName".to_owned(), Value::Str(m.song_name.clone())),
        ("SongSubName".to_owned(), Value::Str(m.song_sub_name.clone())),
        ("SongAuthor".to_owned(), Value::Str(m.song_author.clone())),
        ("Mapper".to_owned(), Value::Str(m.mapper.clone())),
        ("Mappers".to_owned(), encode_str_list(&m.mappers)),
        ("Lighters".to_owned(), encode_str_list(&m.lighters)),
        ("ContentRating".to_owned(), Value::Str(m.content_rating.clone())),
        ("BsrKey".to_owned(), encode_opt_str(&m.bsr_key)),
        ("CoverImage".to_owned(), encode_opt_str(&m.cover_image)),
        ("Duration".to_owned(), encode_i64(m.duration)),
        ("MapType".to_owned(), Value::Str(m.map_type.clone())),
        ("Difficulty".to_owned(), Value::Str(m.difficulty.clone())),
        ("CustomDifficultyLabel".to_owned(), encode_opt_str(&m.custom_difficulty_label)),
        ("Bpm".to_owned(), encode_i64(m.bpm)),
        ("Njs".to_owned(), Value::Number(m.njs)),
        ("Modifiers".to_owned(), encode_modifiers(&m.modifiers)),
        ("ModifiersMultiplier".to_owned(), Value::Number(m.modifiers_multiplier)),
        ("PracticeMode".to_owned(), Value::Bool(m.practice_mode)),
        ("PracticeModeModifiers".to_owned(), encode_practice_mode_modifiers(&m.practice_mode_modifiers)),
        ("Pp".to_owned(), Value::Number(m.pp)),
        ("Star".to_owned(), Value::Number(m.star)),
        ("RankedState".to_owned(), encode_ranked_state(&m.ranked_state)),
        ("Rating".to_owned(), Value::Number(m.rating)),
        ("ColorScheme".to_owned(), encode_color_scheme(&m.color_scheme)),
        ("GameVersion".to_owned(), Value::Str(m.game_version.clone())),
        ("PluginVersion".to_owned(), Value::Str(m.plugin_version.clone())),
        ("IsMultiplayer".to_owned(), Value::Bool(m.is_multiplayer)),
        ("PreviousRecord".to_owned(), encode_i64(m.previous_record)),
        ("PreviousBsr".to_owned(), encode_opt_str(&m.previous_bsr)),
    ];
    proof {
        lemma_map_data_lookups_0(o@);
        lemma_map_data_lookups_1(o@);
        lemma_map_data_lookups_2(o@);
        lemma_map_data_lookups_3(o@);
        lemma_map_data_lookups_4(o@);
        lemma_map_data_lookups_5(o@);
    }
    Value::Object(o)
}

impl Default for RGBAColor {
    /// Black, opaque components zero, with the hex code `#000000`.
    fn default() -> (r: RGBAColor)
        ensures
            r.hex_code@ == "#000000"@,
            r.red == 0 && r.green == 0 && r.blue == 0,
            r.alpha == Number::PosInt(0),
    {
        RGBAColor { hex_code: default_hex_code(), red: 0, green: 0, blue: 0, alpha: Number::default() }
    }
}

} // verus!
