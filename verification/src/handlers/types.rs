//! Command context, responses, cards and the shapes of resolved Riot data.
use crate::domain::ids::{DiscordUserId, GameId};
use crate::domain::modes::GameModeKind;
use crate::storage::models::StorageError;
use crate::text::append;
use vstd::prelude::*;

verus! {

#[derive(Debug, Clone)]
pub struct CommandContext {
    pub guild_id: String,
    pub channel_id: String,
    pub actor_id: String,
    pub now: i64,
}

#[derive(Debug)]
pub enum HandlerError {
    UserFacing(String),
    Storage(StorageError),
}

impl HandlerError {
    pub open spec fn message_spec(&self) -> Seq<char> {
        match self {
            HandlerError::UserFacing(m) => m@,
            HandlerError::Storage(e) => e.message_spec(),
        }
    }

    /// The text shown to users for this error.
    pub fn message(&self) -> (r: String)
        ensures
            r@ == self.message_spec(),
    {
        match self {
            HandlerError::UserFacing(m) => {
                let mut s = String::new();
                append(&mut s, m.as_str());
                s
            },
            HandlerError::Storage(e) => e.message(),
        }
    }
}

/// A user-facing error with the given text.
pub fn user_facing(message: &str) -> (r: HandlerError)
    ensures
        r matches HandlerError::UserFacing(m) && m@ == message@,
{
    HandlerError::UserFacing(message.to_owned())
}

#[derive(Debug, Clone, Copy, PartialEq, Eq, Structural)]
pub enum CommandAudience {
    Ephemeral,
    Public,
}

#[derive(Debug, Clone)]
pub struct TeamCard {
    pub game_id: GameId,
    pub mode: GameModeKind,
    pub red: Vec<DiscordUserId>,
    pub blue: Vec<DiscordUserId>,
}

#[derive(Debug, Clone)]
pub struct StatsCard {
    pub discord_user_id: DiscordUserId,
    pub riot_id: String,
    pub mode_label: String,
    pub rating: i32,
    pub wins: i32,
    pub losses: i32,
    pub games_total: i32,
    pub win_rate: String,
    pub kda: Option<String>,
    pub average_damage: Option<String>,
    pub most_won_with: Vec<String>,
    pub most_lost_with: Vec<String>,
}

#[derive(Debug, Clone)]
pub struct StatsOverviewCard {
    pub mode_label: String,
    pub rows: Vec<StatsOverviewRow>,
}

#[derive(Debug, Clone)]
pub struct StatsOverviewRow {
    pub rank: usize,
    pub discord_user_id: DiscordUserId,
    pub riot_id: String,
    pub rating: i32,
    pub wins: i32,
    pub losses: i32,
    pub games_total: i32,
    pub win_rate: String,
    pub kda: Option<String>,
    pub average_damage: Option<String>,
}

#[derive(Debug)]
pub struct CommandResponse {
    pub content: String,
    pub audience: CommandAudience,
    pub team_card: Option<TeamCard>,
    pub stats_card: Option<StatsCard>,
    pub stats_overview_card: Option<StatsOverviewCard>,
}

impl CommandResponse {
    /// A reply only the invoking user sees, with no card.
    pub fn ephemeral(content: String) -> (r: Self)
        ensures
            r.content == content,
            r.audience == CommandAudience::Ephemeral,
            r.team_card is None && r.stats_card is None && r.stats_overview_card is None,
    {
        CommandResponse {
            content,
            audience: CommandAudience::Ephemeral,
            team_card: None,
            stats_card: None,
            stats_overview_card: None,
        }
    }

    /// A reply the whole channel sees, with no card.
    pub fn public(content: String) -> (r: Self)
        ensures
            r.content == content,
            r.audience == CommandAudience::Public,
            r.team_card is None && r.stats_card is None && r.stats_overview_card is None,
    {
        CommandResponse {
            content,
            audience: CommandAudience::Public,
            team_card: None,
            stats_card: None,
            stats_overview_card: None,
        }
    }

    pub fn with_team_card(self, team_card: TeamCard) -> (r: Self)
        ensures
            r.content == self.content && r.audience == self.audience,
            r.team_card == Some(team_card),
            r.stats_card == self.stats_card && r.stats_overview_card == self.stats_overview_card,
    {
        let mut s = self;
        s.team_card = Some(team_card);
        s
    }

    pub fn with_stats_card(self, stats_card: StatsCard) -> (r: Self)
        ensures
            r.content == self.content && r.audience == self.audience,
            r.stats_card == Some(stats_card),
            r.team_card == self.team_card && r.stats_overview_card == self.stats_overview_card,
    {
        let mut s = self;
        s.stats_card = Some(stats_card);
        s
    }

    pub fn with_stats_overview_card(self, stats_overview_card: StatsOverviewCard) -> (r: Self)
        ensures
            r.content == self.content && r.audience == self.audience,
            r.stats_overview_card == Some(stats_overview_card),
            r.team_card == self.team_card && r.stats_card == self.stats_card,
    {
        let mut s = self;
        s.stats_overview_card = Some(stats_overview_card);
        s
    }
}

#[derive(Debug, Clone)]
pub struct ResolvedRiotAccount {
    pub puuid: String,
    pub game_name: String,
    pub tag_line: String,
}

#[derive(Debug, Clone)]
pub struct ResolvedRiotMatch {
    pub riot_match_id: String,
    pub queue_id: Option<u16>,
    pub map_id: Option<u16>,
    pub game_mode: Option<String>,
    pub game_type: Option<String>,
    pub payload_json: Option<String>,
    pub participants: Vec<ResolvedRiotParticipant>,
}

#[derive(Debug, Clone)]
pub struct ResolvedRiotParticipant {
    pub puuid: String,
    pub team_id: Option<u16>,
    pub champion_id: Option<u16>,
    pub champion_name: Option<String>,
    pub win: Option<bool>,
    pub kills: Option<u16>,
    pub deaths: Option<u16>,
    pub assists: Option<u16>,
    pub total_damage: Option<u32>,
    pub gold_earned: Option<u32>,
    pub total_minions: Option<u32>,
    pub vision_score: Option<u32>,
    pub raw_json: Option<String>,
}

/// The resolver that never finds anything: every Riot lookup reports "not found".
#[derive(Debug, Clone, Copy)]
pub struct NoopRiotAccountResolver;

} // verus!
