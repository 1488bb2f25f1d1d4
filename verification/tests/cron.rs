use rsso::cron::{
    build_match_record, finalize_decision, first_puuid, live_match_counts, poll_decision,
    poll_status, roster_matches_live_game, validate_match_mode, CronError, CronSummary,
    FinalizeStep, FinishedMatch, FinishedParticipant, LiveGame, LiveGameStatus, PollAction,
};
use rsso::domain::modes::GameModeKind;
use rsso::domain::state::{GameStatus, TeamSide};
use rsso::storage::models::{GameRow, RosterPlayer};

fn game(status: &str, mode: &str, misses: i64) -> GameRow {
    GameRow {
        game_id: "g_1".to_owned(),
        guild_id: "guild".to_owned(),
        channel_id: "chan".to_owned(),
        creator_discord_id: "1".to_owned(),
        status: status.to_owned(),
        mode: mode.to_owned(),
        winning_side: None,
        version: 1,
        riot_match_id: Some("NA1_9".to_owned()),
        consecutive_404: misses,
    }
}

fn player(id: &str, puuid: Option<&str>) -> RosterPlayer {
    RosterPlayer {
        discord_user_id: id.to_owned(),
        riot_puuid: puuid.map(str::to_owned),
        team: Some("blue".to_owned()),
        rating: 1500,
    }
}

fn live(puuids: &[&str], queue_id: Option<u16>) -> LiveGame {
    LiveGame {
        riot_match_id: Some("NA1_9".to_owned()),
        queue_id,
        map_id: Some(12),
        game_mode: Some("ARAM".to_owned()),
        game_type: None,
        participant_puuids: puuids.iter().map(|p| p.to_string()).collect(),
    }
}

fn finished(queue_id: u16, parts: Vec<(&str, u16, bool)>) -> FinishedMatch {
    FinishedMatch {
        riot_match_id: "NA1_9".to_owned(),
        queue_id: Some(queue_id),
        map_id: None,
        game_mode: None,
        game_type: None,
        payload_json: None,
        participants: parts
            .into_iter()
            .map(|(p, team, win)| FinishedParticipant {
                puuid: p.to_owned(),
                team_id: Some(team),
                champion_id: None,
                champion_name: None,
                win: Some(win),
                kills: None,
                deaths: None,
                assists: None,
                total_damage: None,
                gold_earned: None,
                total_minions: None,
                vision_score: None,
                raw_json: None,
            })
            .collect(),
    }
}

#[test]
fn polls_only_drawn_or_live_games() {
    assert_eq!(poll_status(&game("ingame", "aram", 0)).expect("ok"), Some(GameStatus::Ingame));
    assert_eq!(poll_status(&game("lobby", "aram", 0)).expect("ok"), None);
    assert!(matches!(
        poll_status(&game("odd", "aram", 0)),
        Err(CronError::InvalidRow(_))
    ));
    let roster = vec![player("1", None), player("2", Some("b")), player("3", Some("c"))];
    assert_eq!(first_puuid(&roster).as_deref(), Some("b"));
    assert_eq!(first_puuid(&roster[..1]), None);
}

#[test]
fn live_game_must_hold_every_known_account() {
    let roster = vec![player("1", Some("a")), player("2", None), player("3", Some("c"))];
    assert!(roster_matches_live_game(&roster, &live(&["a", "c", "x"], Some(450))));
    assert!(!roster_matches_live_game(&roster, &live(&["a"], Some(450))));
    assert_eq!(live_match_counts(&roster, &live(&["a"], Some(450))), (2, 1));
    assert!(roster_matches_live_game(&roster[1..2], &live(&[], None)));
}

#[test]
fn decides_after_a_probe() {
    let roster = vec![player("1", Some("a"))];
    let g = game("randomized", "aram", 0);
    match poll_decision(&g, GameStatus::Randomized, &roster, Ok(LiveGameStatus::Live(live(&["a"], Some(450))))).expect("ok") {
        PollAction::MarkIngame(update) => {
            assert_eq!(update.riot_match_id.as_deref(), Some("NA1_9"));
            assert_eq!(update.queue_id, Some(450));
            assert_eq!(update.map_id, Some(12));
        }
        other => panic!("unexpected {other:?}"),
    }
    assert!(matches!(
        poll_decision(&g, GameStatus::Randomized, &roster, Ok(LiveGameStatus::Live(live(&["a"], Some(420))))),
        Ok(PollAction::ModeMismatch)
    ));
    assert!(matches!(
        poll_decision(&g, GameStatus::Randomized, &roster, Ok(LiveGameStatus::Live(live(&["z"], Some(450))))),
        Ok(PollAction::RosterMismatch { known: 1, matched: 0 })
    ));
    assert!(matches!(
        poll_decision(&g, GameStatus::Randomized, &roster, Ok(LiveGameStatus::NotFound)),
        Ok(PollAction::Bump)
    ));
    let gone = game("ingame", "aram", 1);
    assert!(matches!(
        poll_decision(&gone, GameStatus::Ingame, &roster, Ok(LiveGameStatus::NotFound)),
        Ok(PollAction::TryFinalize)
    ));
    let first_miss = game("ingame", "aram", 0);
    assert!(matches!(
        poll_decision(&first_miss, GameStatus::Ingame, &roster, Ok(LiveGameStatus::NotFound)),
        Ok(PollAction::Bump)
    ));
    assert!(matches!(
        poll_decision(&g, GameStatus::Randomized, &roster, Err("boom".to_owned())),
        Ok(PollAction::SpectatorError(ref e)) if e == "boom"
    ));
}

#[test]
fn finalizes_from_a_finished_match() {
    let roster = vec![player("1", Some("a"))];
    let g = game("ingame", "aram", 2);
    match finalize_decision(&g, &roster, Ok(Some(finished(450, vec![("a", 200, true)])))).expect("ok") {
        FinalizeStep::Finalize { record, winner } => {
            assert_eq!(winner, TeamSide::Red);
            assert_eq!(record.participants.len(), 1);
            assert_eq!(record.data_source, "match_v5");
        }
        other => panic!("unexpected {other:?}"),
    }
    assert!(matches!(finalize_decision(&g, &roster, Ok(None)), Ok(FinalizeStep::NotYet)));
    assert!(matches!(
        finalize_decision(&g, &roster, Ok(Some(finished(450, vec![("a", 200, false)])))),
        Ok(FinalizeStep::MissingWinner)
    ));
    match finalize_decision(&g, &roster, Ok(Some(finished(450, vec![("q", 100, true)])))).expect("ok") {
        FinalizeStep::ValidationError(e) => {
            assert_eq!(e, "match is missing 1 registered roster player(s)")
        }
        other => panic!("unexpected {other:?}"),
    }
    assert!(matches!(
        finalize_decision(&g, &roster, Err("down".to_owned())),
        Ok(FinalizeStep::FetchError(ref e)) if e == "down"
    ));
    let err = validate_match_mode(GameModeKind::Aram, &finished(420, vec![])).unwrap_err();
    assert_eq!(
        err.message(),
        "invalid finished match: Riot match queue Some(420) does not match expected mode aram"
    );
    assert!(matches!(
        build_match_record(&game("ingame", "urf", 0), &roster, finished(450, vec![])),
        Err(CronError::InvalidRow(_))
    ));
}

#[test]
fn tallies_each_game_once() {
    let mut summary = CronSummary::start(4);
    summary.count_missing_puuid();
    summary.count_action(&PollAction::TryFinalize, true);
    summary.count_action(&PollAction::TryFinalize, false);
    summary.count_action(&PollAction::ModeMismatch, false);
    assert_eq!(
        summary,
        CronSummary {
            inspected: 4,
            marked_live: 0,
            bumped_not_found: 1,
            finalized: 1,
            missing_puuid: 1,
            probe_errors: 1,
        }
    );
}
