//! The store's own checks: how a player is looked up by Riot name, and whether a player may
//! join a game.
use crate::domain::state::{game_status_from_name, GameStatus};
use crate::storage::models::{invalid_status_message, GameRow, StorageError};
use crate::text::{split_once, split_once_seq, str_eq, trim, trim_seq};
use vstd::prelude::*;

verus! {

/// How a Riot name is looked up.
#[derive(Debug)]
pub enum RiotNameQuery {
    /// Nothing but whitespace: no player.
    Empty,
    /// `Name#TAG`: both parts, trimmed, compared without case.
    NameAndTag(String, String),
    /// A bare game name, trimmed, compared without case.
    Name(String),
}

/// The lookup of a Riot name: trimmed; split at its first `#` into a trimmed name and tag.
pub fn riot_name_query(riot_name: &str) -> (r: RiotNameQuery)
    ensures
        trim_seq(riot_name@).len() == 0 ==> r is Empty,
        trim_seq(riot_name@).len() > 0 ==> match split_once_seq(trim_seq(riot_name@), '#') {
            Some((name, tag)) => r matches RiotNameQuery::NameAndTag(n, t) && n@ == trim_seq(name)
                && t@ == trim_seq(tag),
            None => r matches RiotNameQuery::Name(n) && n@ == trim_seq(riot_name@),
        },
{
    let name = trim(riot_name);
    if crate::text::chars_of(name.as_str()).len() == 0 {
        return RiotNameQuery::Empty;
    }
    match split_once(name.as_str(), '#') {
        Some((game_name, tag_line)) => RiotNameQuery::NameAndTag(
            trim(game_name.as_str()),
            trim(tag_line.as_str()),
        ),
        None => RiotNameQuery::Name(name),
    }
}

/// A player may join a game of the same guild while its lobby is open or teams are drawn; the
/// result says whether drawn teams must be cleared.
pub fn add_player_check(game: &GameRow, guild_id: &str) -> (r: Result<bool, StorageError>)
    ensures
        game.guild_id@ != guild_id@ ==> r matches Err(StorageError::NotFound),
        game.guild_id@ == guild_id@ ==> match game_status_from_name(game.status@) {
            None => r matches Err(StorageError::InvalidRow(m)) && m@ == invalid_status_message(
                game.status@,
            ),
            Some(GameStatus::Lobby) => r matches Ok(reset) && !reset,
            Some(GameStatus::Randomized) => r matches Ok(reset) && reset,
            Some(_) => r matches Err(StorageError::Conflict),
        },
{
    if !str_eq(game.guild_id.as_str(), guild_id) {
        return Err(StorageError::NotFound);
    }
    match game.status() {
        Err(m) => Err(StorageError::InvalidRow(m)),
        Ok(GameStatus::Lobby) => Ok(false),
        Ok(GameStatus::Randomized) => Ok(true),
        Ok(_) => Err(StorageError::Conflict),
    }
}

} // verus!
