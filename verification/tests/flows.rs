use rsso::discord::command::{ResultsCommand, StatsCommand};
use rsso::domain::ids::{DiscordUserId, GameId};
use rsso::domain::modes::GameModeKind;
use rsso::domain::shuffle::{ShuffleError, TeamAssignment};
use rsso::domain::state::{GameStatus, TeamSide};
use rsso::handlers::flow::{
    add_status_check, added_odd_reply, added_response, analysis_reply, cannot_randomize,
    create_game_error, created_response, end_check, ensure_not_in_roster, game_created_reply,
    add_step, game_for_guild, game_id_from_draw, game_plan, mentions_text, new_game_id, next_previous, next_response,
    no_player_named, parse_registration, randomize_check, randomness_check, randomized_reply, registration,
    reported_reply, roster_user_ids, roster_users, stats_target, status_reply, stored_mode,
    winner_check, winner_reply, AddStep, StatsTarget,
};
use rsso::handlers::report::MatchSyncOutcome;
use rsso::handlers::sync::{
    finish_needs_winner, finish_winner, linked_elsewhere_check, linked_match,
    missing_match_ids, no_game_linked_to, nothing_to_hydrate_reply, results_game_check,
    results_request_check, results_step, stored_winner, sync_decision, ResultsStep,
};
use rsso::handlers::types::{
    CommandAudience, CommandContext, HandlerError, ResolvedRiotAccount, ResolvedRiotMatch,
    ResolvedRiotParticipant,
};
use rsso::storage::models::{GameRow, MatchLinkRow, RosterPlayer, StorageError};

fn game(status: &str, mode: &str) -> GameRow {
    GameRow {
        game_id: "g_1".to_owned(),
        guild_id: "guild".to_owned(),
        channel_id: "chan".to_owned(),
        creator_discord_id: "1".to_owned(),
        status: status.to_owned(),
        mode: mode.to_owned(),
        winning_side: None,
        version: 1,
        riot_match_id: None,
        consecutive_404: 0,
    }
}

fn context() -> CommandContext {
    CommandContext {
        guild_id: "guild".to_owned(),
        channel_id: "chan".to_owned(),
        actor_id: "1".to_owned(),
        now: 42,
    }
}

fn player(id: &str, puuid: Option<&str>, team: Option<&str>) -> RosterPlayer {
    RosterPlayer {
        discord_user_id: id.to_owned(),
        riot_puuid: puuid.map(str::to_owned),
        team: team.map(str::to_owned),
        rating: 1500,
    }
}

fn participant(puuid: &str, team_id: u16, win: bool) -> ResolvedRiotParticipant {
    ResolvedRiotParticipant {
        puuid: puuid.to_owned(),
        team_id: Some(team_id),
        champion_id: None,
        champion_name: None,
        win: Some(win),
        kills: None,
        deaths: None,
        assists: None,
        total_damage: None,
        gold_earned: None,
        total_minions: None,
        vision_score: None,
        raw_json: None,
    }
}

fn riot_match(queue_id: u16, participants: Vec<ResolvedRiotParticipant>) -> ResolvedRiotMatch {
    ResolvedRiotMatch {
        riot_match_id: "NA1_9".to_owned(),
        queue_id: Some(queue_id),
        map_id: None,
        game_mode: None,
        game_type: None,
        payload_json: Some("{}".to_owned()),
        participants,
    }
}

fn link(id: &str, source: &str, count: i64) -> MatchLinkRow {
    MatchLinkRow {
        riot_match_id: id.to_owned(),
        data_source: source.to_owned(),
        queue_id: None,
        map_id: None,
        riot_game_mode: None,
        riot_game_type: None,
        finalized_at: 0,
        participant_count: count,
    }
}

fn user_error(err: HandlerError) -> String {
    match err {
        HandlerError::UserFacing(m) => m,
        HandlerError::Storage(e) => panic!("unexpected storage error {e:?}"),
    }
}

fn assignments() -> Vec<TeamAssignment> {
    vec![
        TeamAssignment {
            discord_user_id: DiscordUserId::new("1"),
            team: TeamSide::Blue,
            slot: 0,
        },
        TeamAssignment {
            discord_user_id: DiscordUserId::new("2"),
            team: TeamSide::Red,
            slot: 0,
        },
    ]
}

#[test]
fn game_ids_have_the_local_shape() {
    let id = new_game_id().expect("the system has randomness");
    let text = id.as_str();
    assert_eq!(text.len(), 12);
    assert!(text.starts_with("g_"));
    assert!(text[2..]
        .chars()
        .all(|c| c == '_' || c == '-' || c.is_ascii_alphanumeric()));
    let a = new_game_id().expect("first id");
    let b = new_game_id().expect("second id");
    assert_ne!(a.as_str(), b.as_str());
}

#[test]
fn picks_the_game_of_the_guild() {
    let (id, row) = game_for_guild(None, Some(game("lobby", "aram")), "guild", "No open game.")
        .expect("open game");
    assert_eq!(id.as_str(), "g_1");
    assert_eq!(row.status, "lobby");
    let (id, _) = game_for_guild(
        Some(GameId::new("g_asked")),
        Some(game("lobby", "aram")),
        "guild",
        "No open game.",
    )
    .expect("asked game");
    assert_eq!(id.as_str(), "g_asked");
    assert_eq!(
        user_error(game_for_guild(None, None, "guild", "No open game.").unwrap_err()),
        "No open game."
    );
    assert_eq!(
        user_error(game_for_guild(None, Some(game("lobby", "aram")), "x", "n").unwrap_err()),
        "That game belongs to a different guild."
    );
    assert_eq!(
        user_error(stored_mode(&game("lobby", "urf")).unwrap_err()),
        "Invalid stored mode: unknown game mode `urf`"
    );
}

#[test]
fn plans_and_announces_a_created_game() {
    let users = vec![DiscordUserId::new("1"), DiscordUserId::new("2")];
    let plan = game_plan(GameId::new("g_new"), &context(), GameModeKind::Aram, &users);
    assert_eq!(plan.new_game.game_id, "g_new");
    assert_eq!(plan.new_game.creator_discord_id, "1");
    assert_eq!(plan.new_game.now, 42);
    assert_eq!(plan.user_ids, vec!["1".to_owned(), "2".to_owned()]);
    let response = created_response(&GameId::new("g_new"), GameModeKind::Aram, &assignments());
    assert_eq!(response.content, "Created game `g_new` (aram)");
    assert_eq!(response.audience, CommandAudience::Public);
    assert_eq!(response.team_card.expect("card").blue[0].as_str(), "1");
    assert_eq!(
        user_error(cannot_randomize(ShuffleError::OddPlayerCount)),
        "Cannot randomize: player count must be even to randomize"
    );
    assert_eq!(
        user_error(create_game_error(StorageError::ActiveGameExists, "An open game already exists.")),
        "An open game already exists."
    );
    assert!(matches!(
        create_game_error(StorageError::Conflict, "x"),
        HandlerError::Storage(StorageError::Conflict)
    ));
    assert_eq!(
        game_created_reply(&GameId::new("g_2"), GameModeKind::Rift, 3, None),
        "Created g_2 in rift with 3 players. Add one more player before randomizing. Riot match id is pending until Spectator sees the live game."
    );
    assert_eq!(
        game_created_reply(&GameId::new("g_2"), GameModeKind::Rift, 2, Some(&assignments())),
        "Created g_2 in rift with 2 players.\nRed team: <@2>\nBlue team: <@1>"
    );
}

#[test]
fn adds_players_to_an_open_lobby() {
    assert_eq!(add_status_check(&game("randomized", "aram")).expect("open"), GameStatus::Randomized);
    assert_eq!(
        user_error(add_status_check(&game("ingame", "aram")).unwrap_err()),
        "Cannot add players after the lobby is locked."
    );
    let roster = vec![player("1", None, None), player("2", None, None)];
    let users = vec![DiscordUserId::new("3"), DiscordUserId::new("2")];
    assert_eq!(
        user_error(ensure_not_in_roster(&roster, &users, &GameId::new("g_1")).unwrap_err()),
        "<@2> is already in g_1."
    );
    assert!(ensure_not_in_roster(&roster, &users[..1], &GameId::new("g_1")).is_ok());
    let mentions = mentions_text(&users);
    assert_eq!(mentions, "<@3>, <@2>");
    assert_eq!(
        added_odd_reply(&mentions, &GameId::new("g_1"), 3),
        "Added <@3>, <@2> to g_1. Roster has 3 players; add one more before teams are assigned."
    );
    let response = added_response(
        &game("randomized", "aram"),
        GameStatus::Randomized,
        "<@3>",
        &GameId::new("g_1"),
        &assignments(),
    )
    .expect("response");
    assert_eq!(response.content, "Added <@3> to `g_1`. Teams were re-randomized.");
    assert_eq!(response.team_card.expect("card").mode, GameModeKind::Aram);
    assert_eq!(roster_users(&roster)[1].as_str(), "2");
    assert_eq!(roster_user_ids(&roster), vec!["1".to_owned(), "2".to_owned()]);
}

#[test]
fn next_needs_a_closed_previous_game() {
    assert_eq!(
        user_error(next_previous(true, None).unwrap_err()),
        "Close the current open game with `/winner` before starting `/next`."
    );
    assert_eq!(
        user_error(next_previous(false, None).unwrap_err()),
        "No previous game found for `/next`."
    );
    let (id, mode) = next_previous(false, Some(game("finalized", "aram_mayhem"))).expect("prev");
    assert_eq!(id.as_str(), "g_1");
    assert_eq!(mode, GameModeKind::AramMayhem);
    let response = next_response(&GameId::new("g_2"), &id, mode, &assignments());
    assert_eq!(response.content, "Created next game `g_2` from `g_1` (aram_mayhem)");
}

#[test]
fn winner_randomize_and_end_checks() {
    assert!(winner_check(&game("randomized", "aram"), "guild").is_ok());
    assert_eq!(
        user_error(winner_check(&game("lobby", "aram"), "guild").unwrap_err()),
        "Randomize teams before marking a winner."
    );
    assert_eq!(
        user_error(winner_check(&game("finalized", "aram"), "guild").unwrap_err()),
        "That game is already finalized."
    );
    assert_eq!(
        user_error(winner_check(&game("cancelled", "aram"), "guild").unwrap_err()),
        "That game is cancelled."
    );
    assert_eq!(
        winner_reply(&GameId::new("g_1"), TeamSide::Red),
        "Marked game g_1 won by red."
    );
    assert!(randomize_check(&game("lobby", "aram"), "guild").is_ok());
    assert_eq!(
        user_error(randomize_check(&game("reported", "aram"), "guild").unwrap_err()),
        "Cannot randomize after the lobby is locked."
    );
    assert_eq!(
        randomized_reply(&GameId::new("g_1"), &assignments()),
        "g_1 randomized.\nRed team: <@2>\nBlue team: <@1>"
    );
    let mut reported = game("reported", "aram");
    assert_eq!(
        user_error(end_check(&reported, "guild", "1").unwrap_err()),
        "Report a winner before ending."
    );
    assert_eq!(
        user_error(end_check(&reported, "guild", "2").unwrap_err()),
        "Only the game creator can end this game for now."
    );
    reported.winning_side = Some("blue".to_owned());
    assert_eq!(end_check(&reported, "guild", "1").expect("winner"), TeamSide::Blue);
    reported.winning_side = Some("green".to_owned());
    assert_eq!(
        user_error(end_check(&reported, "guild", "1").unwrap_err()),
        "invalid team side `green`"
    );
    assert_eq!(
        reported_reply(&GameId::new("g_1"), TeamSide::Blue),
        "g_1 reported as blue win. Use `/end g_1` to finalize."
    );
}

#[test]
fn registration_prefers_the_resolved_account() {
    let parsed = parse_registration("Cyracen#NA1").expect("riot id");
    let (row, reply) = registration(&context(), &parsed, None);
    assert_eq!(row.riot_puuid, None);
    assert_eq!(reply, "Registered Cyracen#NA1 as a trusted claim.");
    let (row, reply) = registration(
        &context(),
        &parsed,
        Some(ResolvedRiotAccount {
            puuid: "p".to_owned(),
            game_name: "Cyra".to_owned(),
            tag_line: "EUW".to_owned(),
        }),
    );
    assert_eq!(row.riot_puuid.as_deref(), Some("p"));
    assert_eq!(row.riot_game_name, "Cyra");
    assert_eq!(reply, "Registered Cyra#EUW with Riot API PUUID.");
    assert_eq!(
        user_error(parse_registration("nope").unwrap_err()),
        "Invalid Riot ID: riot id must look like GameName#TAG"
    );
}

#[test]
fn stats_target_and_small_replies() {
    let everyone = StatsCommand {
        user: None,
        name: None,
        mode: None,
    };
    assert!(matches!(stats_target(&everyone), Ok(StatsTarget::Everyone)));
    let both = StatsCommand {
        user: Some(DiscordUserId::new("1")),
        name: Some("Vu".to_owned()),
        mode: None,
    };
    assert_eq!(
        user_error(stats_target(&both).unwrap_err()),
        "Use either `name` or `user`, not both."
    );
    assert_eq!(
        user_error(no_player_named("Vu")),
        "No registered player found for `Vu`."
    );
    assert_eq!(
        analysis_reply(Some(GameModeKind::Aram)),
        "Analysis for aram is wired as a v1 stub. Need more rows first."
    );
    assert_eq!(
        analysis_reply(None),
        "Analysis is wired as a v1 stub. Need more rows first."
    );
    assert_eq!(
        status_reply(&GameId::new("g_1"), &game("lobby", "aram"), "Riot matches: x"),
        "g_1: mode aram, status lobby, Riot matches: x"
    );
}

#[test]
fn results_decisions() {
    let empty = ResultsCommand {
        game_id: None,
        winner: None,
        riot_match_id: None,
    };
    assert_eq!(
        user_error(results_request_check(&empty).unwrap_err()),
        "`/results` needs `winner`, `riot_match_id`, or both."
    );
    assert_eq!(
        user_error(results_game_check(&game("lobby", "aram")).unwrap_err()),
        "Randomize teams before reporting results."
    );
    assert_eq!(
        user_error(results_game_check(&game("cancelled", "aram")).unwrap_err()),
        "That game is already closed."
    );
    assert_eq!(results_game_check(&game("ingame", "aram")).expect("mode"), GameModeKind::Aram);
    let id = GameId::new("g_1");
    match results_step(&id, None, Some(TeamSide::Red), Some("NA1_9".to_owned())).expect("step") {
        ResultsStep::Finalize {
            winner,
            match_id,
            reply,
        } => {
            assert_eq!(winner, TeamSide::Red);
            assert_eq!(match_id, "NA1_9");
            assert_eq!(reply, "g_1 finalized from NA1_9 as red win.");
        }
        _ => panic!("expected finalize"),
    }
    match results_step(&id, Some(TeamSide::Blue), None, None).expect("step") {
        ResultsStep::Report { winner, reply } => {
            assert_eq!(winner, TeamSide::Blue);
            assert_eq!(reply, "g_1 reported as blue win. Use `/end g_1` to finalize.");
        }
        _ => panic!("expected report"),
    }
    match results_step(&id, None, None, Some("NA1_9".to_owned())).expect("step") {
        ResultsStep::LinkedWithoutWinner { reply } => assert!(reply.starts_with(
            "g_1 linked to NA1_9. Riot did not return a winner yet"
        )),
        _ => panic!("expected linked"),
    }
    assert_eq!(
        user_error(results_step(&id, None, None, None).unwrap_err()),
        "`/results` needs a winner to report."
    );
}

#[test]
fn links_matches_by_hand_or_from_riot() {
    let roster = vec![player("1", Some("a"), Some("blue")), player("2", Some("b"), Some("red"))];
    let g = game("ingame", "aram");
    let (record, winner) =
        linked_match(&g, &roster, "guild", GameModeKind::Aram, "NA1_9", None).expect("manual");
    assert_eq!(record.data_source, "manual");
    assert_eq!(winner, None);
    let m = riot_match(450, vec![participant("a", 100, true), participant("b", 200, false)]);
    let (record, winner) =
        linked_match(&g, &roster, "guild", GameModeKind::Aram, "NA1_9", Some(m)).expect("riot");
    assert_eq!(record.data_source, "match_v5");
    assert_eq!(record.payload_json.as_deref(), Some("{}"));
    assert_eq!(winner, Some(TeamSide::Blue));
    let wrong = riot_match(420, vec![]);
    assert_eq!(
        user_error(linked_match(&g, &roster, "guild", GameModeKind::Aram, "NA1_9", Some(wrong)).unwrap_err()),
        "Riot match queue Some(420) does not match expected mode aram."
    );
}

#[test]
fn finish_winner_choices() {
    let m = riot_match(450, vec![participant("a", 200, true)]);
    assert_eq!(finish_winner(Some(TeamSide::Blue), Some(&m), None).expect("given"), Some(TeamSide::Blue));
    assert_eq!(finish_winner(None, Some(&m), None).expect("riot"), Some(TeamSide::Red));
    let silent = riot_match(450, vec![participant("a", 200, false)]);
    assert_eq!(
        user_error(finish_winner(None, Some(&silent), Some(TeamSide::Blue)).unwrap_err()),
        "Could not derive winner from Riot match data; pass `winner` explicitly."
    );
    assert_eq!(finish_winner(None, None, Some(TeamSide::Red)).expect("stored"), Some(TeamSide::Red));
    assert_eq!(finish_winner(None, None, None).expect("none"), None);
    assert_eq!(
        user_error(finish_needs_winner(&GameId::new("g_1"), "NA1_9")),
        "g_1 linked to NA1_9. Riot did not return match data, so `/finish` needs `winner:Blue` or `winner:Red`."
    );
    let mut g = game("reported", "aram");
    assert_eq!(stored_winner(&g).expect("none"), None);
    g.winning_side = Some("red".to_owned());
    assert_eq!(stored_winner(&g).expect("red"), Some(TeamSide::Red));
}

#[test]
fn hydrate_targets_and_sync() {
    let mut g = game("finalized", "aram");
    let links = vec![link("NA1_1", "manual", 0), link("NA1_2", "match_v5", 10)];
    assert_eq!(
        missing_match_ids(&GameId::new("g_1"), &g, &links).expect("ids"),
        vec!["NA1_1".to_owned()]
    );
    g.riot_match_id = Some("NA1_3".to_owned());
    assert_eq!(
        missing_match_ids(&GameId::new("g_1"), &g, &links).expect("ids"),
        vec!["NA1_1".to_owned(), "NA1_3".to_owned()]
    );
    g.riot_match_id = None;
    assert_eq!(
        user_error(missing_match_ids(&GameId::new("g_1"), &g, &[]).unwrap_err()),
        "g_1 has no Riot match id yet."
    );
    assert!(missing_match_ids(&GameId::new("g_1"), &g, &links[1..]).expect("ids").is_empty());
    let mut other = game("finalized", "aram");
    other.game_id = "g_other".to_owned();
    assert_eq!(
        user_error(linked_elsewhere_check(Some(other), &GameId::new("g_1"), "NA1_1").unwrap_err()),
        "NA1_1 is already linked to g_other."
    );
    assert!(linked_elsewhere_check(Some(game("x", "y")), &GameId::new("g_1"), "NA1_1").is_ok());
    assert_eq!(
        user_error(no_game_linked_to("NA1_4")),
        "No local game is linked to NA1_4; pass `game_id` too."
    );
    assert_eq!(
        nothing_to_hydrate_reply(&GameId::new("g_1")),
        "g_1 has no linked matches missing Riot stats."
    );

    let roster = vec![player("1", Some("a"), Some("blue"))];
    let id = GameId::new("g_1");
    let plan = sync_decision(&g, &id, &roster, GameModeKind::Aram, "NA1_5", false, None).expect("plan");
    assert!(plan.record.is_none());
    assert!(matches!(plan.outcome, MatchSyncOutcome::Unavailable { .. }));
    let plan = sync_decision(&g, &id, &roster, GameModeKind::Aram, "NA1_5", true, None).expect("plan");
    assert_eq!(plan.record.expect("manual").data_source, "manual");
    let m = riot_match(450, vec![participant("a", 100, true), participant("z", 200, false)]);
    let plan = sync_decision(&g, &id, &roster, GameModeKind::Aram, "NA1_9", false, Some(m.clone()))
        .expect("plan");
    assert!(matches!(
        plan.outcome,
        MatchSyncOutcome::Hydrated { participant_count: 2, .. }
    ));
    g.winning_side = Some("red".to_owned());
    assert_eq!(
        user_error(sync_decision(&g, &id, &roster, GameModeKind::Aram, "NA1_9", false, Some(m)).unwrap_err()),
        "Riot winner blue conflicts with stored winner red for g_1."
    );
}

#[test]
fn closed_games_are_refused_where_the_commands_check_them() {
    for status in ["finalized", "cancelled"] {
        let mut closed = game(status, "aram");
        closed.winning_side = Some("blue".to_owned());
        assert!(results_game_check(&closed).is_err());
        assert!(winner_check(&closed, "guild").is_err());
        assert_eq!(end_check(&closed, "guild", "1").expect("end reads no status"), TeamSide::Blue);
    }
    let mut unread = game("mystery", "aram");
    unread.winning_side = Some("red".to_owned());
    assert_eq!(end_check(&unread, "guild", "1").expect("unread status"), TeamSide::Red);
}

#[test]
fn game_ids_are_made_of_their_draw() {
    assert_eq!(game_id_from_draw("AbC_-12345").as_str(), "g_AbC_-12345");
    assert!(randomness_check(&Some(vec![1, 2, 3, 4])).is_ok());
    assert_eq!(
        user_error(randomness_check(&None).unwrap_err()),
        "Could not draw a game id: the system has no source of randomness."
    );
}

#[test]
fn add_waits_for_an_even_roster() {
    let three = vec![
        player("1", None, None),
        player("2", None, None),
        player("3", None, None),
    ];
    match add_step("<@3>", &GameId::new("g_1"), &three) {
        AddStep::Waiting { reply } => assert_eq!(
            reply,
            "Added <@3> to g_1. Roster has 3 players; add one more before teams are assigned."
        ),
        AddStep::Randomize { .. } => panic!("odd roster randomized"),
    }
    match add_step("<@3>", &GameId::new("g_1"), &three[..2]) {
        AddStep::Randomize { users } => {
            let ids: Vec<&str> = users.iter().map(|u| u.as_str()).collect();
            assert_eq!(ids, vec!["1", "2"]);
        }
        AddStep::Waiting { .. } => panic!("even roster waited"),
    }
}
