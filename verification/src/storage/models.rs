//! The rows that the game store reads and writes.
use crate::domain::modes::{mode_from_name, GameModeKind};
use crate::domain::state::{game_status_from_name, team_side_from_name, GameStatus, TeamSide};
use crate::text::{append, str_eq};
use vstd::prelude::*;

verus! {

/// The tag line stored for players who joined before registering a Riot ID.
pub const PENDING_RIOT_TAG_LINE: &'static str = "__PENDING__";

pub open spec fn pending_name_spec(discord_user_id: Seq<char>) -> Seq<char> {
    "__pending_"@ + discord_user_id
}

/// The placeholder game name stored for a player who has not registered a Riot ID.
pub fn pending_riot_game_name(discord_user_id: &str) -> (r: String)
    ensures
        r@ == pending_name_spec(discord_user_id@),
{
    let mut s = String::new();
    append(&mut s, "__pending_");
    append(&mut s, discord_user_id);
    s
}

pub open spec fn is_pending_spec(
    discord_user_id: Seq<char>,
    riot_game_name: Seq<char>,
    riot_tag_line: Seq<char>,
) -> bool {
    riot_tag_line == "__PENDING__"@ && riot_game_name == pending_name_spec(discord_user_id)
}

/// Whether a stored Riot ID is the placeholder of an unregistered player.
pub fn is_pending_riot_id(discord_user_id: &str, riot_game_name: &str, riot_tag_line: &str) -> (r:
    bool)
    ensures
        r == is_pending_spec(discord_user_id@, riot_game_name@, riot_tag_line@),
{
    if !str_eq(riot_tag_line, PENDING_RIOT_TAG_LINE) {
        return false;
    }
    let expected = pending_riot_game_name(discord_user_id);
    str_eq(riot_game_name, expected.as_str())
}

#[derive(Debug, Clone)]
pub struct NewPlayer {
    pub guild_id: String,
    pub discord_user_id: String,
    pub riot_puuid: Option<String>,
    pub riot_game_name: String,
    pub riot_tag_line: String,
    pub now: i64,
}

#[derive(Debug, Clone)]
pub struct PlayerRow {
    pub guild_id: String,
    pub discord_user_id: String,
    pub riot_puuid: Option<String>,
    pub riot_game_name: String,
    pub riot_tag_line: String,
    pub rating: i32,
    pub wins: i32,
    pub losses: i32,
}

#[derive(Debug, Clone)]
pub struct NewGame {
    pub game_id: String,
    pub guild_id: String,
    pub channel_id: String,
    pub creator_discord_id: String,
    pub mode: GameModeKind,
    pub now: i64,
}

#[derive(Debug, Clone)]
pub struct GameRow {
    pub game_id: String,
    pub guild_id: String,
    pub channel_id: String,
    pub creator_discord_id: String,
    pub status: String,
    pub mode: String,
    pub winning_side: Option<String>,
    pub version: i64,
    pub riot_match_id: Option<String>,
    pub consecutive_404: i64,
}

pub open spec fn invalid_status_message(status: Seq<char>) -> Seq<char> {
    "invalid game status `"@ + status + "`"@
}

pub open spec fn invalid_mode_message(mode: Seq<char>) -> Seq<char> {
    "unknown game mode `"@ + mode + "`"@
}

impl GameRow {
    /// The stored status, or the reason it cannot be read.
    pub fn status(&self) -> (r: Result<GameStatus, String>)
        ensures
            match game_status_from_name(self.status@) {
                Some(s) => r == Ok::<GameStatus, String>(s),
                None => r matches Err(m) && m@ == invalid_status_message(self.status@),
            },
    {
        match GameStatus::from_str(self.status.as_str()) {
            Ok(s) => Ok(s),
            Err(e) => Err(e.message()),
        }
    }

    /// The stored mode, or the reason it cannot be read.
    pub fn mode(&self) -> (r: Result<GameModeKind, String>)
        ensures
            match mode_from_name(self.mode@) {
                Some(m) => r == Ok::<GameModeKind, String>(m),
                None => r matches Err(m) && m@ == invalid_mode_message(self.mode@),
            },
    {
        match GameModeKind::from_str(self.mode.as_str()) {
            Ok(m) => Ok(m),
            Err(e) => Err(e.message()),
        }
    }
}

#[derive(Debug, Clone)]
pub struct LiveGameUpdate {
    pub riot_match_id: Option<String>,
    pub queue_id: Option<i64>,
    pub map_id: Option<i64>,
    pub riot_game_mode: Option<String>,
    pub riot_game_type: Option<String>,
}

impl Default for LiveGameUpdate {
    fn default() -> (r: Self)
        ensures
            r.riot_match_id is None && r.queue_id is None && r.map_id is None
                && r.riot_game_mode is None && r.riot_game_type is None,
    {
        LiveGameUpdate {
            riot_match_id: None,
            queue_id: None,
            map_id: None,
            riot_game_mode: None,
            riot_game_type: None,
        }
    }
}

#[derive(Debug, Clone)]
pub struct RosterPlayer {
    pub discord_user_id: String,
    pub riot_puuid: Option<String>,
    pub team: Option<String>,
    pub rating: i32,
}

/// The side stored for a roster player, when it names one.
pub open spec fn roster_team_spec(p: RosterPlayer) -> Option<TeamSide> {
    match p.team {
        Some(t) => team_side_from_name(t@),
        None => None,
    }
}

impl RosterPlayer {
    pub fn team_side(&self) -> (r: Option<TeamSide>)
        ensures
            r == roster_team_spec(*self),
    {
        match &self.team {
            Some(t) => match TeamSide::from_str(t.as_str()) {
                Ok(side) => Some(side),
                Err(_) => None,
            },
            None => None,
        }
    }
}

#[derive(Debug)]
pub struct TeammateStatsRow {
    pub discord_user_id: String,
    pub riot_game_name: String,
    pub riot_tag_line: String,
    pub games: i64,
    pub wins: i64,
    pub losses: i64,
}

impl Clone for TeammateStatsRow {
    fn clone(&self) -> (r: Self)
        ensures
            r == *self,
    {
        TeammateStatsRow {
            discord_user_id: self.discord_user_id.clone(),
            riot_game_name: self.riot_game_name.clone(),
            riot_tag_line: self.riot_tag_line.clone(),
            games: self.games,
            wins: self.wins,
            losses: self.losses,
        }
    }
}

#[derive(Debug, Clone)]
pub struct MatchRecord {
    pub riot_match_id: String,
    pub guild_id: String,
    pub mode: GameModeKind,
    pub queue_id: Option<i64>,
    pub map_id: Option<i64>,
    pub riot_game_mode: Option<String>,
    pub riot_game_type: Option<String>,
    pub data_source: String,
    pub payload_json: Option<String>,
    pub participants: Vec<ParticipantRecord>,
}

#[derive(Debug, Clone)]
pub struct MatchLinkRow {
    pub riot_match_id: String,
    pub data_source: String,
    pub queue_id: Option<i64>,
    pub map_id: Option<i64>,
    pub riot_game_mode: Option<String>,
    pub riot_game_type: Option<String>,
    pub finalized_at: i64,
    pub participant_count: i64,
}

/// A linked match still lacks Riot stats when it did not come from Match-V5 or has no
/// participant rows.
pub open spec fn needs_hydration_spec(link: MatchLinkRow) -> bool {
    link.data_source@ != "match_v5"@ || link.participant_count == 0
}

impl MatchLinkRow {
    pub fn needs_hydration(&self) -> (r: bool)
        ensures
            r == needs_hydration_spec(*self),
    {
        !str_eq(self.data_source.as_str(), "match_v5") || self.participant_count == 0
    }
}

#[derive(Debug, Clone)]
pub struct ParticipantRecord {
    pub puuid: String,
    pub discord_user_id: Option<String>,
    pub team: Option<TeamSide>,
    pub champion_id: Option<i64>,
    pub champion_name: Option<String>,
    pub win: Option<bool>,
    pub kills: Option<i64>,
    pub deaths: Option<i64>,
    pub assists: Option<i64>,
    pub total_damage: Option<i64>,
    pub gold_earned: Option<i64>,
    pub total_minions: Option<i64>,
    pub vision_score: Option<i64>,
    pub raw_json: Option<String>,
}

#[derive(Debug)]
pub enum StorageError {
    Backend(String),
    NotFound,
    ActiveGameExists,
    Conflict,
    InvalidRow(String),
    RiotPuuidAlreadyRegistered { discord_user_id: String },
    RiotIdAlreadyRegistered { discord_user_id: String },
}

impl StorageError {
    pub open spec fn message_spec(&self) -> Seq<char> {
        match self {
            StorageError::Backend(m) => "storage backend error: "@ + m@,
            StorageError::NotFound => "not found"@,
            StorageError::ActiveGameExists => "an active game already exists for this guild"@,
            StorageError::Conflict => "game transition conflicted with another writer"@,
            StorageError::InvalidRow(m) => "invalid storage row: "@ + m@,
            StorageError::RiotPuuidAlreadyRegistered { discord_user_id } =>
                "that Riot account is already registered to <@"@ + discord_user_id@ + ">"@,
            StorageError::RiotIdAlreadyRegistered { discord_user_id } =>
                "that Riot ID is already registered to <@"@ + discord_user_id@ + ">"@,
        }
    }

    /// The text shown to users for this error.
    pub fn message(&self) -> (r: String)
        ensures
            r@ == self.message_spec(),
    {
        let mut s = String::new();
        match self {
            StorageError::Backend(m) => {
                append(&mut s, "storage backend error: ");
                append(&mut s, m.as_str());
            },
            StorageError::NotFound => {
                append(&mut s, "not found");
            },
            StorageError::ActiveGameExists => {
                append(&mut s, "an active game already exists for this guild");
            },
            StorageError::Conflict => {
                append(&mut s, "game transition conflicted with another writer");
            },
            StorageError::InvalidRow(m) => {
                append(&mut s, "invalid storage row: ");
                append(&mut s, m.as_str());
            },
            StorageError::RiotPuuidAlreadyRegistered { discord_user_id } => {
                append(&mut s, "that Riot account is already registered to <@");
                append(&mut s, discord_user_id.as_str());
                append(&mut s, ">");
            },
            StorageError::RiotIdAlreadyRegistered { discord_user_id } => {
                append(&mut s, "that Riot ID is already registered to <@");
                append(&mut s, discord_user_id.as_str());
                append(&mut s, ">");
            },
        }
        s
    }
}

/// A backend failure whose text names the one-open-game-per-guild index is the refusal of a
/// second open game.
pub fn map_active_game_error(error: StorageError) -> (r: StorageError)
    ensures
        match error {
            StorageError::Backend(m) => if crate::text::contains_seq(m@, "uniq_one_open_per_guild"@) {
                r is ActiveGameExists
            } else {
                r matches StorageError::Backend(n) && n@ == m@
            },
            _ => r == error,
        },
{
    match error {
        StorageError::Backend(message) => {
            if crate::text::str_contains(message.as_str(), "uniq_one_open_per_guild") {
                StorageError::ActiveGameExists
            } else {
                StorageError::Backend(message)
            }
        },
        other => other,
    }
}

} // verus!
