//! Who may claim a Riot account or Riot ID in a guild: a claim held by another player is
//! refused, naming that player.
use crate::storage::models::{NewPlayer, StorageError};
use crate::text::{contains_seq, str_contains, str_eq};
use vstd::prelude::*;

verus! {

/// A registration is refused when another player of the guild already holds the Riot account
/// (checked first, when the registration has one) or the Riot ID.
pub fn claim_check(
    player: &NewPlayer,
    puuid_owner: Option<String>,
    riot_id_owner: Option<String>,
) -> (r: Result<(), StorageError>)
    ensures
        match (player.riot_puuid, puuid_owner) {
            (Some(_), Some(o)) if o@ != player.discord_user_id@ => r matches Err(
                StorageError::RiotPuuidAlreadyRegistered { discord_user_id },
            ) && discord_user_id == o,
            _ => match riot_id_owner {
                Some(o) if o@ != player.discord_user_id@ => r matches Err(
                    StorageError::RiotIdAlreadyRegistered { discord_user_id },
                ) && discord_user_id == o,
                _ => r is Ok,
            },
        },
{
    if player.riot_puuid.is_some() {
        match puuid_owner {
            Some(o) => {
                if !str_eq(o.as_str(), player.discord_user_id.as_str()) {
                    return Err(StorageError::RiotPuuidAlreadyRegistered { discord_user_id: o });
                }
            },
            None => {},
        }
    }
    match riot_id_owner {
        Some(o) => {
            if !str_eq(o.as_str(), player.discord_user_id.as_str()) {
                return Err(StorageError::RiotIdAlreadyRegistered { discord_user_id: o });
            }
        },
        None => {},
    }
    Ok(())
}

/// Whether a store refusal names the unique index of Riot accounts, and whether it names the
/// unique index of Riot IDs.
pub fn claim_indexes(message: &str) -> (r: (bool, bool))
    ensures
        r.0 == contains_seq(message@, "players.guild_id, players.riot_puuid"@),
        r.1 == contains_seq(
            message@,
            "players.guild_id, players.riot_game_name, players.riot_tag_line"@,
        ),
{
    (
        str_contains(message, "players.guild_id, players.riot_puuid"),
        str_contains(message, "players.guild_id, players.riot_game_name, players.riot_tag_line"),
    )
}

/// A store refusal of a registration, given the holders found under the indexes it names: the
/// Riot account's holder first, then the Riot ID's, else the refusal as it came.
pub fn claim_conflict_error(
    message: String,
    puuid_owner: Option<String>,
    riot_id_owner: Option<String>,
) -> (r: StorageError)
    ensures
        match (puuid_owner, riot_id_owner) {
            (Some(o), _) => r matches StorageError::RiotPuuidAlreadyRegistered { discord_user_id }
                && discord_user_id == o,
            (None, Some(o)) => r matches StorageError::RiotIdAlreadyRegistered { discord_user_id }
                && discord_user_id == o,
            (None, None) => r matches StorageError::Backend(m) && m == message,
        },
{
    match (puuid_owner, riot_id_owner) {
        (Some(o), _) => StorageError::RiotPuuidAlreadyRegistered { discord_user_id: o },
        (None, Some(o)) => StorageError::RiotIdAlreadyRegistered { discord_user_id: o },
        (None, None) => StorageError::Backend(message),
    }
}

} // verus!
