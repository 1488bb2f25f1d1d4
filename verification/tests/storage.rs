use rsso::storage::lookup::{add_player_check, riot_name_query, RiotNameQuery};
use rsso::storage::claims::{claim_check, claim_conflict_error, claim_indexes};
use rsso::storage::models::NewPlayer;
use rsso::domain::state::TeamSide;
use rsso::storage::models::{
    is_pending_riot_id, map_active_game_error, pending_riot_game_name, GameRow, MatchLinkRow,
    RosterPlayer, StorageError, PENDING_RIOT_TAG_LINE,
};
use rsso::storage::rating::{finalize_updates, rating_updates, team_totals};

fn player(id: &str, team: Option<&str>, rating: i32) -> RosterPlayer {
    RosterPlayer {
        discord_user_id: id.to_owned(),
        riot_puuid: None,
        team: team.map(str::to_owned),
        rating,
    }
}

#[test]
fn pending_riot_ids_are_recognised() {
    assert_eq!(pending_riot_game_name("42"), "__pending_42");
    assert!(is_pending_riot_id("42", "__pending_42", PENDING_RIOT_TAG_LINE));
    assert!(!is_pending_riot_id("42", "__pending_43", PENDING_RIOT_TAG_LINE));
    assert!(!is_pending_riot_id("42", "__pending_42", "NA1"));
}

#[test]
fn maps_the_open_game_index_error() {
    assert!(matches!(
        map_active_game_error(StorageError::Backend(
            "UNIQUE constraint failed: index 'uniq_one_open_per_guild'".to_owned()
        )),
        StorageError::ActiveGameExists
    ));
    assert!(matches!(
        map_active_game_error(StorageError::Backend("disk full".to_owned())),
        StorageError::Backend(ref m) if m == "disk full"
    ));
    assert_eq!(StorageError::NotFound.message(), "not found");
}

#[test]
fn reads_stored_rows() {
    let row = GameRow {
        game_id: "g_1".to_owned(),
        guild_id: "g".to_owned(),
        channel_id: "c".to_owned(),
        creator_discord_id: "1".to_owned(),
        status: "reported".to_owned(),
        mode: "aram-mayhem".to_owned(),
        winning_side: None,
        version: 3,
        riot_match_id: None,
        consecutive_404: 0,
    };
    assert_eq!(row.status().expect("status").as_str(), "reported");
    assert_eq!(row.mode().expect("mode").as_str(), "aram_mayhem");
    let link = MatchLinkRow {
        riot_match_id: "NA1_1".to_owned(),
        data_source: "match_v5".to_owned(),
        queue_id: None,
        map_id: None,
        riot_game_mode: None,
        riot_game_type: None,
        finalized_at: 0,
        participant_count: 0,
    };
    assert!(link.needs_hydration());
    assert_eq!(player("1", Some("red"), 1500).team_side(), Some(TeamSide::Red));
    assert_eq!(player("1", Some("purple"), 1500).team_side(), None);
}

#[test]
fn totals_teams_for_the_rating_change() {
    let roster = vec![
        player("1", Some("blue"), 1500),
        player("2", Some("blue"), 1520),
        player("3", Some("red"), 1480),
        player("4", None, 1600),
    ];
    let totals = team_totals(&roster);
    assert_eq!(totals.blue_sum, 3020);
    assert_eq!(totals.blue_count, 2);
    assert_eq!(totals.red_sum, 1480);
    assert_eq!(totals.red_count, 1);
    let empty = team_totals(&[]);
    assert_eq!(empty.blue_count, 1);
    assert_eq!(empty.red_sum, 0);
}

#[test]
fn winners_gain_what_losers_lose() {
    let roster = vec![
        player("1", Some("blue"), 1500),
        player("2", Some("red"), 1500),
        player("3", None, 1500),
        player("4", Some("red"), 1500),
    ];
    let updates = rating_updates(&roster, TeamSide::Red, 12);
    let summary: Vec<(&str, i32, bool)> = updates
        .iter()
        .map(|u| (u.discord_user_id.as_str(), u.signed_delta, u.won))
        .collect();
    assert_eq!(
        summary,
        vec![("1", -12, false), ("2", 12, true), ("4", 12, true)]
    );
    assert_eq!(updates.iter().map(|u| u.signed_delta).sum::<i32>(), 12);
}

#[test]
fn refuses_claims_held_by_others() {
    let player = NewPlayer {
        guild_id: "g".to_owned(),
        discord_user_id: "1".to_owned(),
        riot_puuid: Some("p".to_owned()),
        riot_game_name: "Vu".to_owned(),
        riot_tag_line: "NA1".to_owned(),
        now: 0,
    };
    assert!(claim_check(&player, Some("1".to_owned()), None).is_ok());
    assert!(matches!(
        claim_check(&player, Some("2".to_owned()), Some("3".to_owned())),
        Err(StorageError::RiotPuuidAlreadyRegistered { ref discord_user_id }) if discord_user_id == "2"
    ));
    assert!(matches!(
        claim_check(&player, None, Some("3".to_owned())),
        Err(StorageError::RiotIdAlreadyRegistered { ref discord_user_id }) if discord_user_id == "3"
    ));
    assert_eq!(
        claim_indexes("UNIQUE constraint failed: players.guild_id, players.riot_puuid"),
        (true, false)
    );
    assert!(matches!(
        claim_conflict_error("boom".to_owned(), None, None),
        StorageError::Backend(ref m) if m == "boom"
    ));
    assert_eq!(
        claim_conflict_error("x".to_owned(), None, Some("9".to_owned())).message(),
        "that Riot ID is already registered to <@9>"
    );
}

#[test]
fn looks_up_riot_names_and_checks_joins() {
    let q = riot_name_query("  Cyracen # NA1 ");
    assert!(matches!(q, RiotNameQuery::NameAndTag(ref n, ref t) if n == "Cyracen" && t == "NA1"));
    assert!(matches!(riot_name_query(" Vu "), RiotNameQuery::Name(ref n) if n == "Vu"));
    assert!(matches!(riot_name_query("   "), RiotNameQuery::Empty));
    let mut game = GameRow {
        game_id: "g_1".to_owned(),
        guild_id: "g".to_owned(),
        channel_id: "c".to_owned(),
        creator_discord_id: "1".to_owned(),
        status: "randomized".to_owned(),
        mode: "aram".to_owned(),
        winning_side: None,
        version: 1,
        riot_match_id: None,
        consecutive_404: 0,
    };
    assert!(add_player_check(&game, "g").expect("open"));
    assert!(matches!(add_player_check(&game, "other"), Err(StorageError::NotFound)));
    game.status = "lobby".to_owned();
    assert!(!add_player_check(&game, "g").expect("open"));
    game.status = "finalized".to_owned();
    assert!(matches!(add_player_check(&game, "g"), Err(StorageError::Conflict)));
}

#[test]
fn closed_games_get_no_rating_updates() {
    let roster = vec![player("1", Some("blue"), 1500), player("2", Some("red"), 1500)];
    for status in ["finalized", "cancelled"] {
        assert!(finalize_updates(status, &roster, TeamSide::Blue, 12).is_none());
    }
    for status in ["reported", "ingame", "mystery"] {
        let updates = finalize_updates(status, &roster, TeamSide::Blue, 12).expect("open game");
        assert_eq!(updates.len(), 2);
        assert_eq!(updates[0].signed_delta, 12);
        assert!(updates[0].won);
        assert_eq!(updates[1].signed_delta, -12);
    }
}
