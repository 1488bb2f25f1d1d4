use rsso::domain::ids::DiscordUserId;
use rsso::domain::match_id::{normalize_riot_match_id, parse_riot_match_id};
use rsso::domain::modes::{GameModeKind, QueueId};
use rsso::domain::shuffle::{fisher_yates, split_even_teams, Rng, ShuffleError};
use rsso::domain::state::{ensure_transition, GameStatus, TeamSide};
use rsso::domain::stats::PlayerRecord;
use std::collections::HashSet;

struct SeqRng {
    values: Vec<u32>,
    idx: usize,
}

impl Rng for SeqRng {
    fn next_u32(&mut self) -> u32 {
        let value = self.values[self.idx % self.values.len()];
        self.idx += 1;
        value
    }
}

fn players(n: usize) -> Vec<DiscordUserId> {
    (1..=n).map(|i| DiscordUserId::new(&i.to_string())).collect()
}

#[test]
fn accepts_platform_numeric_shape() {
    let parsed = parse_riot_match_id("NA1_4901234567").expect("valid match id");
    assert_eq!(parsed.platform, "NA1");
    assert_eq!(parsed.numeric_id, "4901234567");
}

#[test]
fn rejects_slop() {
    assert!(parse_riot_match_id("NA1-nope").is_err());
    assert!(parse_riot_match_id("NA1_abc").is_err());
}

#[test]
fn normalizes_numeric_game_id_with_default_na_region() {
    let normalized = normalize_riot_match_id("5561312307", None).expect("valid game id");
    assert_eq!(normalized, "NA1_5561312307");
}

#[test]
fn normalizes_numeric_game_id_with_region_alias() {
    let normalized = normalize_riot_match_id("5561312307", Some("EUW")).expect("valid game id");
    assert_eq!(normalized, "EUW1_5561312307");
}

#[test]
fn rejects_region_mismatch_for_full_match_id() {
    assert!(normalize_riot_match_id("NA1_5561312307", Some("EUW")).is_err());
}

#[test]
fn normalizing_twice_changes_nothing() {
    let once = normalize_riot_match_id("5561312307", Some("euw")).expect("valid game id");
    let twice = normalize_riot_match_id(&once, None).expect("still valid");
    assert_eq!(once, twice);
}

#[test]
fn knows_aram_queues() {
    assert!(GameModeKind::Aram.accepts_queue(Some(QueueId(450))));
    assert!(GameModeKind::AramMayhem.accepts_queue(Some(QueueId(2400))));
    assert!(GameModeKind::Aram.accepts_queue(Some(QueueId(0))));
    assert!(!GameModeKind::Aram.accepts_queue(Some(QueueId(2400))));
}

#[test]
fn mode_names_read_back() {
    for mode in [
        GameModeKind::Rift,
        GameModeKind::Aram,
        GameModeKind::AramMayhem,
        GameModeKind::Other,
    ] {
        assert_eq!(GameModeKind::from_str(mode.as_str()).expect("own name"), mode);
    }
    assert_eq!(
        GameModeKind::from_str("mayhem").expect("alias"),
        GameModeKind::AramMayhem
    );
    assert!(GameModeKind::from_str("urf").is_err());
    assert!(GameModeKind::Rift.accepts_queue(None));
    assert!(!GameModeKind::AramMayhem.accepts_queue(None));
}

#[test]
fn splits_even_teams_without_duplication() {
    let players = players(10);
    let mut rng = SeqRng {
        values: vec![4, 3, 2, 1, 0],
        idx: 0,
    };
    let assignments = split_even_teams(&players, &mut rng).expect("even players");
    assert_eq!(assignments.len(), 10);
    assert_eq!(
        assignments
            .iter()
            .filter(|assignment| assignment.team == TeamSide::Blue)
            .count(),
        5
    );
    assert_eq!(
        assignments
            .iter()
            .map(|assignment| assignment.discord_user_id.as_str())
            .collect::<HashSet<_>>()
            .len(),
        10
    );
}

#[test]
fn rejects_odd_player_counts() {
    let players = players(3);
    let mut rng = SeqRng {
        values: vec![0],
        idx: 0,
    };
    assert!(split_even_teams(&players, &mut rng).is_err());
}

#[test]
fn split_refuses_a_single_player() {
    let mut rng = SeqRng {
        values: vec![7],
        idx: 0,
    };
    assert!(matches!(
        split_even_teams(&players(1), &mut rng),
        Err(ShuffleError::TooFewPlayers)
    ));
    assert!(matches!(
        split_even_teams(&players(5), &mut rng),
        Err(ShuffleError::OddPlayerCount)
    ));
}

#[test]
fn split_numbers_slots_within_each_side() {
    let mut rng = SeqRng {
        values: vec![1, 0, 2],
        idx: 0,
    };
    let assignments = split_even_teams(&players(4), &mut rng).expect("even players");
    let sides: Vec<(TeamSide, u8)> = assignments.iter().map(|a| (a.team, a.slot)).collect();
    assert_eq!(
        sides,
        vec![
            (TeamSide::Blue, 0),
            (TeamSide::Blue, 1),
            (TeamSide::Red, 0),
            (TeamSide::Red, 1)
        ]
    );
    let mut ids: Vec<&str> = assignments.iter().map(|a| a.discord_user_id.as_str()).collect();
    ids.sort();
    assert_eq!(ids, vec!["1", "2", "3", "4"]);
}

#[test]
fn permits_planned_transitions() {
    ensure_transition(GameStatus::Lobby, GameStatus::Randomized).expect("lobby randomizes");
    ensure_transition(GameStatus::Randomized, GameStatus::Finalized)
        .expect("finish can short-circuit");
}

#[test]
fn rejects_reopening_finalized_games() {
    assert!(ensure_transition(GameStatus::Finalized, GameStatus::Lobby).is_err());
}

#[test]
fn closed_games_stay_closed() {
    for to in [
        GameStatus::Lobby,
        GameStatus::Randomized,
        GameStatus::Ingame,
        GameStatus::Reported,
        GameStatus::Ambiguous,
        GameStatus::Finalized,
        GameStatus::Cancelled,
    ] {
        assert!(!GameStatus::Cancelled.can_transition_to(to));
        assert!(!GameStatus::Finalized.can_transition_to(to));
    }
    let err = ensure_transition(GameStatus::Finalized, GameStatus::Lobby).unwrap_err();
    assert_eq!(err.message(), "cannot move game from Finalized to Lobby");
}

#[test]
fn side_and_status_names_read_back() {
    assert_eq!(TeamSide::from_str("blue").expect("blue"), TeamSide::Blue);
    assert_eq!(TeamSide::Red.opponent().opponent(), TeamSide::Red);
    assert!(TeamSide::from_str("Blue").is_err());
    assert_eq!(
        GameStatus::from_str(GameStatus::Ingame.as_str()).expect("ingame"),
        GameStatus::Ingame
    );
    assert!(GameStatus::Reported.is_open());
    assert!(!GameStatus::Cancelled.is_open());
}

#[test]
fn player_record_counts_wins_and_losses() {
    let mut record = PlayerRecord::empty();
    record.record_game(TeamSide::Blue, TeamSide::Blue);
    record.record_game(TeamSide::Red, TeamSide::Blue);
    record.record_game(TeamSide::Red, TeamSide::Red);
    assert_eq!(record.wins, 2);
    assert_eq!(record.losses, 1);
}

#[test]
fn shuffle_rejects_high_words_and_swaps_downward() {
    let mut items = vec![1, 2, 3];
    let mut rng = SeqRng {
        values: vec![u32::MAX, 4, 6],
        idx: 0,
    };
    fisher_yates(&mut items, &mut rng);
    assert_eq!(items, vec![3, 1, 2]);
    assert_eq!(rng.idx, 3);
}

#[test]
fn normalized_ids_normalize_to_themselves() {
    for (value, region) in [("5561312307", Some("euw")), (" na1_42 ", None), ("KR_7", Some("kr"))] {
        let id = normalize_riot_match_id(value, region).expect("valid id");
        assert_eq!(normalize_riot_match_id(&id, None).expect("again"), id);
        assert_eq!(normalize_riot_match_id(&id, region).expect("again with region"), id);
    }
}

#[test]
fn split_leaves_the_rng_alone_on_errors() {
    let mut rng = SeqRng {
        values: vec![0],
        idx: 0,
    };
    assert!(matches!(
        split_even_teams(&players(3), &mut rng),
        Err(ShuffleError::OddPlayerCount)
    ));
    assert!(matches!(
        split_even_teams(&players(1), &mut rng),
        Err(ShuffleError::TooFewPlayers)
    ));
    assert_eq!(rng.idx, 0);
    let mut one = vec![7];
    fisher_yates(&mut one, &mut rng);
    assert_eq!(rng.idx, 0);
}
