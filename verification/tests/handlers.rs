use rsso::domain::ids::{DiscordUserId, GameId};
use rsso::domain::modes::GameModeKind;
use rsso::domain::shuffle::TeamAssignment;
use rsso::domain::state::TeamSide;
use rsso::handlers::format::{
    ensure_game_in_guild, ensure_match_linkable, ensure_unique_users, format_assignments,
    mode_label, team_card,
};
use rsso::handlers::matches::{
    build_match_record, derive_winner, manual_match_record, side_from_team_id,
    validate_match_mode,
};
use rsso::handlers::report::{
    display_riot_id, format_limited_ids, format_match_sync_outcomes, format_stats_overview,
    format_status_match_links, format_teammate_card_row, format_teammate_row,
    most_lost_teammate, most_won_teammate, top_teammates_by_losses, top_teammates_by_wins,
    MatchSyncOutcome,
};
use rsso::handlers::rotation::{index_combinations, next_rotation_assignments};
use rsso::handlers::types::{
    HandlerError, ResolvedRiotMatch, ResolvedRiotParticipant, StatsOverviewCard,
    StatsOverviewRow,
};
use rsso::storage::models::{
    pending_riot_game_name, GameRow, MatchLinkRow, RosterPlayer, TeammateStatsRow,
    PENDING_RIOT_TAG_LINE,
};

fn roster_player(discord_user_id: &str, team: &str) -> RosterPlayer {
    RosterPlayer {
        discord_user_id: discord_user_id.to_owned(),
        riot_puuid: None,
        team: Some(team.to_owned()),
        rating: 1500,
    }
}

fn game(status: &str, mode: &str) -> GameRow {
    GameRow {
        game_id: "g_1".to_owned(),
        guild_id: "guild".to_owned(),
        channel_id: "chan".to_owned(),
        creator_discord_id: "1".to_owned(),
        status: status.to_owned(),
        mode: mode.to_owned(),
        winning_side: None,
        version: 1,
        riot_match_id: None,
        consecutive_404: 0,
    }
}

fn participant(puuid: &str, team_id: Option<u16>, win: Option<bool>) -> ResolvedRiotParticipant {
    ResolvedRiotParticipant {
        puuid: puuid.to_owned(),
        team_id,
        champion_id: Some(1),
        champion_name: Some("Annie".to_owned()),
        win,
        kills: Some(3),
        deaths: Some(1),
        assists: Some(7),
        total_damage: Some(12000),
        gold_earned: Some(9000),
        total_minions: Some(40),
        vision_score: Some(5),
        raw_json: None,
    }
}

fn riot_match(queue_id: Option<u16>, participants: Vec<ResolvedRiotParticipant>) -> ResolvedRiotMatch {
    ResolvedRiotMatch {
        riot_match_id: "NA1_9".to_owned(),
        queue_id,
        map_id: Some(12),
        game_mode: Some("ARAM".to_owned()),
        game_type: Some("CUSTOM_GAME".to_owned()),
        payload_json: None,
        participants,
    }
}

fn teammate(id: &str, name: &str, games: i64, wins: i64, losses: i64) -> TeammateStatsRow {
    TeammateStatsRow {
        discord_user_id: id.to_owned(),
        riot_game_name: name.to_owned(),
        riot_tag_line: "NA1".to_owned(),
        games,
        wins,
        losses,
    }
}

fn user_error(err: HandlerError) -> String {
    match err {
        HandlerError::UserFacing(m) => m,
        HandlerError::Storage(e) => panic!("unexpected storage error {e:?}"),
    }
}

#[test]
fn formats_batch_hydrate_outcomes() {
    let game_id = GameId::new("g_session");
    let message = format_match_sync_outcomes(
        &game_id,
        &[
            MatchSyncOutcome::Hydrated {
                riot_match_id: "NA1_1".to_owned(),
                participant_count: 10,
            },
            MatchSyncOutcome::Unavailable {
                riot_match_id: "NA1_2".to_owned(),
            },
        ],
    );
    assert!(message.contains("hydrated 1 match(es)"));
    assert!(message.contains("1 linked match(es) still unavailable"));
    assert_eq!(
        message,
        "g_session: hydrated 1 match(es) (NA1_1) with 10 participant row(s); 1 linked match(es) still unavailable from Riot (NA1_2)."
    );
}

#[test]
fn formats_single_sync_outcome() {
    let game_id = GameId::new("g_1");
    assert_eq!(
        format_match_sync_outcomes(
            &game_id,
            &[MatchSyncOutcome::LinkedManual {
                riot_match_id: "NA1_5".to_owned()
            }]
        ),
        "g_1 linked to NA1_5. Riot still does not return Match-V5 data; run `/hydrate game_id:g_1` later."
    );
}

#[test]
fn limits_listed_ids_to_three() {
    let ids: Vec<String> = (1..=5).map(|i| format!("NA1_{i}")).collect();
    assert_eq!(format_limited_ids(&ids), "NA1_1, NA1_2, NA1_3, +2 more");
    assert_eq!(format_limited_ids(&ids[..2]), "NA1_1, NA1_2");
    assert_eq!(format_limited_ids(&[]), "");
}

#[test]
fn status_reports_multiple_matches_and_missing_stats() {
    let message = format_status_match_links(
        &[
            MatchLinkRow {
                riot_match_id: "NA1_2".to_owned(),
                data_source: "manual".to_owned(),
                queue_id: None,
                map_id: None,
                riot_game_mode: None,
                riot_game_type: None,
                finalized_at: 20,
                participant_count: 0,
            },
            MatchLinkRow {
                riot_match_id: "NA1_1".to_owned(),
                data_source: "match_v5".to_owned(),
                queue_id: Some(450),
                map_id: Some(12),
                riot_game_mode: Some("ARAM".to_owned()),
                riot_game_type: Some("CUSTOM_GAME".to_owned()),
                finalized_at: 10,
                participant_count: 10,
            },
        ],
        None,
    );
    assert!(message.contains("2 linked"));
    assert!(message.contains("1 missing stats"));
}

#[test]
fn status_without_links_uses_the_game_match() {
    assert_eq!(
        format_status_match_links(&[], None),
        "Riot matches: pending until Spectator sees the live game"
    );
    assert_eq!(
        format_status_match_links(&[], Some("NA1_7")),
        "Riot matches: 1 linked (NA1_7, missing stats)"
    );
}

#[test]
fn next_rotation_advances_balanced_split() {
    let roster = vec![
        roster_player("1", "blue"),
        roster_player("2", "blue"),
        roster_player("3", "red"),
        roster_player("4", "red"),
    ];
    let assignments = next_rotation_assignments(&roster).expect("next rotation");
    let blue = assignments
        .iter()
        .filter(|assignment| assignment.team == TeamSide::Blue)
        .map(|assignment| assignment.discord_user_id.as_str())
        .collect::<Vec<_>>();
    assert_eq!(blue, vec!["1", "3"]);
}

#[test]
fn next_rotation_wraps_and_refuses_odd_rosters() {
    let roster = vec![
        roster_player("1", "red"),
        roster_player("2", "red"),
        roster_player("3", "blue"),
        roster_player("4", "blue"),
    ];
    let assignments = next_rotation_assignments(&roster).expect("next rotation");
    let blue: Vec<&str> = assignments
        .iter()
        .filter(|a| a.team == TeamSide::Blue)
        .map(|a| a.discord_user_id.as_str())
        .collect();
    assert_eq!(blue, vec!["1", "2"]);
    let odd = next_rotation_assignments(&roster[..3]).unwrap_err();
    assert_eq!(
        user_error(odd),
        "`/next` needs an even previous roster. Use `/create` for the new roster."
    );
    assert_eq!(index_combinations(4, 2).len(), 6);
    assert_eq!(index_combinations(4, 2)[1], vec![0, 2]);
    assert!(index_combinations(3, 0).is_empty());
}

#[test]
fn formats_team_lists() {
    let assignments = vec![
        TeamAssignment {
            discord_user_id: DiscordUserId::new("1"),
            team: TeamSide::Blue,
            slot: 0,
        },
        TeamAssignment {
            discord_user_id: DiscordUserId::new("2"),
            team: TeamSide::Red,
            slot: 0,
        },
        TeamAssignment {
            discord_user_id: DiscordUserId::new("3"),
            team: TeamSide::Red,
            slot: 1,
        },
    ];
    assert_eq!(
        format_assignments(&assignments),
        "Red team: <@2>, <@3>\nBlue team: <@1>"
    );
    let card = team_card(&GameId::new("g_1"), GameModeKind::Aram, &assignments);
    assert_eq!(card.red.len(), 2);
    assert_eq!(card.blue[0].as_str(), "1");
    assert_eq!(mode_label(None), "all modes");
    assert_eq!(mode_label(Some(GameModeKind::AramMayhem)), "aram_mayhem");
}

#[test]
fn refuses_repeated_users() {
    let users = vec![
        DiscordUserId::new("1"),
        DiscordUserId::new("2"),
        DiscordUserId::new("1"),
    ];
    assert_eq!(
        user_error(ensure_unique_users(&users).unwrap_err()),
        "<@1> was provided more than once."
    );
    assert!(ensure_unique_users(&users[..2]).is_ok());
}

#[test]
fn guards_guild_and_link_status() {
    let g = game("lobby", "aram");
    assert!(ensure_game_in_guild(&g, "guild").is_ok());
    assert_eq!(
        user_error(ensure_game_in_guild(&g, "other").unwrap_err()),
        "That game belongs to a different guild."
    );
    assert_eq!(
        user_error(ensure_match_linkable(&g).unwrap_err()),
        "Randomize teams before linking Riot matches."
    );
    assert!(ensure_match_linkable(&game("finalized", "aram")).is_ok());
    assert_eq!(
        user_error(ensure_match_linkable(&game("cancelled", "aram")).unwrap_err()),
        "Cannot link Riot matches to a cancelled game."
    );
    assert_eq!(
        user_error(ensure_match_linkable(&game("weird", "aram")).unwrap_err()),
        "Invalid stored status: invalid game status `weird`"
    );
}

#[test]
fn derives_winner_from_first_winning_team() {
    let m = riot_match(
        Some(450),
        vec![
            participant("a", Some(100), Some(false)),
            participant("b", Some(300), Some(true)),
            participant("c", Some(200), Some(true)),
        ],
    );
    assert_eq!(derive_winner(&m), Some(TeamSide::Red));
    assert_eq!(derive_winner(&riot_match(None, vec![])), None);
    assert_eq!(side_from_team_id(Some(100)), Some(TeamSide::Blue));
    assert_eq!(side_from_team_id(None), None);
}

#[test]
fn checks_the_match_queue() {
    let m = riot_match(Some(420), vec![]);
    assert_eq!(
        user_error(validate_match_mode(GameModeKind::Aram, &m).unwrap_err()),
        "Riot match queue Some(420) does not match expected mode aram."
    );
    assert!(validate_match_mode(GameModeKind::Rift, &m).is_ok());
    assert_eq!(
        user_error(validate_match_mode(GameModeKind::AramMayhem, &riot_match(None, vec![])).unwrap_err()),
        "Riot match queue None does not match expected mode aram_mayhem."
    );
}

#[test]
fn builds_records_from_riot_data() {
    let mut roster = vec![roster_player("1", "blue"), roster_player("2", "red")];
    roster[0].riot_puuid = Some("a".to_owned());
    roster[1].riot_puuid = Some("b".to_owned());
    let m = riot_match(
        Some(450),
        vec![participant("a", None, Some(true)), participant("x", Some(200), Some(false))],
    );
    let err = build_match_record(&game("randomized", "aram"), &roster, m.clone()).unwrap_err();
    assert_eq!(
        user_error(err),
        "Riot match is missing 1 registered roster player(s)."
    );
    roster[1].riot_puuid = Some("x".to_owned());
    let record = build_match_record(&game("randomized", "aram"), &roster, m).expect("record");
    assert_eq!(record.data_source, "match_v5");
    assert_eq!(record.guild_id, "guild");
    assert_eq!(record.queue_id, Some(450));
    assert_eq!(record.participants.len(), 2);
    assert_eq!(record.participants[0].discord_user_id.as_deref(), Some("1"));
    assert_eq!(record.participants[0].team, Some(TeamSide::Blue));
    assert_eq!(record.participants[1].team, Some(TeamSide::Red));
    assert_eq!(record.participants[1].kills, Some(3));
    let manual = manual_match_record("guild", GameModeKind::Rift, "NA1_3");
    assert_eq!(manual.data_source, "manual");
    assert!(manual.participants.is_empty());
}

#[test]
fn shows_teammates_and_hides_pending_riot_ids() {
    let vu = teammate("2", "Vu", 5, 4, 1);
    let chongly = teammate("3", "Chongly", 6, 1, 5);
    assert_eq!(format_teammate_card_row(&vu), "<@2> - Vu#NA1 - 4W/1L, 5 games");
    assert_eq!(
        format_teammate_card_row(&chongly),
        "<@3> - Chongly#NA1 - 1W/5L, 6 games"
    );
    assert_eq!(format_teammate_row(Some(&vu)), "Vu#NA1 (4W/1L, 5 games)");
    assert_eq!(format_teammate_row(None), "none yet");
    assert_eq!(
        display_riot_id("2", &pending_riot_game_name("2"), PENDING_RIOT_TAG_LINE),
        "unregistered"
    );
    assert_eq!(display_riot_id("1", "Cyracen", "NA1"), "Cyracen#NA1");
}

#[test]
fn ranks_teammates_by_wins_and_losses() {
    let rows = vec![
        teammate("2", "Vu", 5, 4, 1),
        teammate("3", "Chongly", 6, 1, 5),
        teammate("4", "Zed", 0, 0, 0),
    ];
    let by_wins: Vec<String> = top_teammates_by_wins(&rows)
        .iter()
        .map(format_teammate_card_row)
        .collect();
    assert_eq!(
        by_wins,
        vec![
            "<@2> - Vu#NA1 - 4W/1L, 5 games".to_owned(),
            "<@3> - Chongly#NA1 - 1W/5L, 6 games".to_owned(),
        ]
    );
    let by_losses: Vec<String> = top_teammates_by_losses(&rows)
        .iter()
        .map(format_teammate_card_row)
        .collect();
    assert_eq!(
        by_losses,
        vec![
            "<@3> - Chongly#NA1 - 1W/5L, 6 games".to_owned(),
            "<@2> - Vu#NA1 - 4W/1L, 5 games".to_owned(),
        ]
    );
    assert_eq!(most_won_teammate(&rows).expect("some").riot_game_name, "Vu");
    assert_eq!(most_lost_teammate(&rows).expect("some").riot_game_name, "Chongly");
}

#[test]
fn ranking_breaks_ties_and_keeps_three() {
    let rows = vec![
        teammate("1", "Bee", 4, 2, 2),
        teammate("2", "Ant", 4, 2, 2),
        teammate("3", "Cat", 5, 2, 3),
        teammate("4", "Dog", 2, 2, 0),
        teammate("5", "Eel", 9, 3, 6),
    ];
    let names: Vec<String> = top_teammates_by_wins(&rows)
        .into_iter()
        .map(|r| r.riot_game_name)
        .collect();
    assert_eq!(names, vec!["Eel", "Cat", "Ant"]);
}

#[test]
fn formats_the_everyone_overview() {
    let card = StatsOverviewCard {
        mode_label: "all modes".to_owned(),
        rows: vec![
            StatsOverviewRow {
                rank: 1,
                discord_user_id: DiscordUserId::new("1"),
                riot_id: "Cyracen#NA1".to_owned(),
                rating: 1520,
                wins: 12,
                losses: 8,
                games_total: 20,
                win_rate: "60.0%".to_owned(),
                kda: None,
                average_damage: None,
            },
            StatsOverviewRow {
                rank: 2,
                discord_user_id: DiscordUserId::new("2"),
                riot_id: "unregistered".to_owned(),
                rating: 1500,
                wins: 0,
                losses: 0,
                games_total: 0,
                win_rate: "0.0%".to_owned(),
                kda: None,
                average_damage: None,
            },
        ],
    };
    assert_eq!(
        format_stats_overview(&card),
        "Stats for everyone (all modes)\n1. Cyracen#NA1 12W/8L 60.0% WR rating 1520\n2. unregistered 0W/0L 0.0% WR rating 1500"
    );
}

#[test]
fn repeated_next_visits_every_split() {
    let mut roster = vec![
        roster_player("1", "blue"),
        roster_player("2", "blue"),
        roster_player("3", "red"),
        roster_player("4", "red"),
    ];
    let mut seen = Vec::new();
    for _ in 0..6 {
        let assignments = next_rotation_assignments(&roster).expect("next rotation");
        let blue: Vec<String> = assignments
            .iter()
            .filter(|a| a.team == TeamSide::Blue)
            .map(|a| a.discord_user_id.as_str().to_owned())
            .collect();
        assert_eq!(blue.len(), 2);
        seen.push(blue.join(","));
        roster = assignments
            .iter()
            .map(|a| roster_player(a.discord_user_id.as_str(), a.team.as_str()))
            .collect();
    }
    assert_eq!(seen, vec!["1,3", "1,4", "2,3", "2,4", "3,4", "1,2"]);
}
