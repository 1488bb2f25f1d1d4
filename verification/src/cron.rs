//! The scheduled poll of open games: what each live-game probe and finished-match lookup leads
//! to, and the tally of a run.
use crate::domain::modes::{mode_accepts_queue, mode_from_name, mode_name, GameModeKind};
use crate::domain::state::{game_status_from_name, GameStatus, TeamSide};
use crate::handlers::matches::{
    debug_queue, debug_queue_text, derive_winner, match_record_from, match_record_ok,
    missing_count, missing_roster_puuids, participant_puuids, queue_of, winner_of, widen16,
};
use crate::handlers::types::{ResolvedRiotMatch, ResolvedRiotParticipant};
use crate::storage::models::{
    invalid_mode_message, invalid_status_message, GameRow, LiveGameUpdate, MatchRecord,
    RosterPlayer, StorageError,
};
use crate::text::{append, decimal, str_eq, u64_to_decimal};
use vstd::prelude::*;

verus! {

/// A finished match as Match-V5 returns it; the same shape as a resolved match.
pub type FinishedMatch = ResolvedRiotMatch;

/// One participant of a finished match.
pub type FinishedParticipant = ResolvedRiotParticipant;

#[derive(Debug, Clone, Copy, PartialEq, Eq, Structural)]
pub struct CronSummary {
    pub inspected: usize,
    pub marked_live: usize,
    pub bumped_not_found: usize,
    pub finalized: usize,
    pub missing_puuid: usize,
    pub probe_errors: usize,
}

#[derive(Debug, Clone)]
pub enum LiveGameStatus {
    Live(LiveGame),
    NotFound,
}

#[derive(Debug, Clone)]
pub struct LiveGame {
    pub riot_match_id: Option<String>,
    pub queue_id: Option<u16>,
    pub map_id: Option<u16>,
    pub game_mode: Option<String>,
    pub game_type: Option<String>,
    pub participant_puuids: Vec<String>,
}

/// The probe that never finds a live game or a finished match.
#[derive(Debug, Clone, Copy)]
pub struct NoopLiveGameProbe;

#[derive(Debug)]
pub enum CronError {
    Storage(StorageError),
    InvalidRow(String),
    InvalidMatch(String),
}

impl CronError {
    pub open spec fn message_spec(&self) -> Seq<char> {
        match self {
            CronError::Storage(e) => e.message_spec(),
            CronError::InvalidRow(m) => "invalid game row: "@ + m@,
            CronError::InvalidMatch(m) => "invalid finished match: "@ + m@,
        }
    }

    pub fn message(&self) -> (r: String)
        ensures
            r@ == self.message_spec(),
    {
        match self {
            CronError::Storage(e) => e.message(),
            CronError::InvalidRow(m) => {
                let mut s = String::new();
                append(&mut s, "invalid game row: ");
                append(&mut s, m.as_str());
                s
            },
            CronError::InvalidMatch(m) => {
                let mut s = String::new();
                append(&mut s, "invalid finished match: ");
                append(&mut s, m.as_str());
                s
            },
        }
    }
}

// ---------------------------------------------------------------------------
// Live games
// ---------------------------------------------------------------------------

pub open spec fn known_puuid(p: RosterPlayer) -> bool {
    p.riot_puuid is Some
}

pub open spec fn in_live_game(live: Seq<String>, puuid: Seq<char>) -> bool {
    exists|i: int| 0 <= i < live.len() && (#[trigger] live[i])@ == puuid
}

/// Whether the roster player's registered account is in the live game.
pub open spec fn matched_in_live(p: RosterPlayer, live: Seq<String>) -> bool {
    match p.riot_puuid {
        Some(x) => in_live_game(live, x@),
        None => false,
    }
}

/// How many roster players have a registered account.
pub open spec fn known_count(roster: Seq<RosterPlayer>) -> nat
    decreases roster.len(),
{
    if roster.len() == 0 {
        0
    } else {
        known_count(roster.drop_last()) + if known_puuid(roster.last()) {
            1nat
        } else {
            0nat
        }
    }
}

/// How many roster players have a registered account that is in the live game.
pub open spec fn matched_count(roster: Seq<RosterPlayer>, live: Seq<String>) -> nat
    decreases roster.len(),
{
    if roster.len() == 0 {
        0
    } else {
        matched_count(roster.drop_last(), live) + if matched_in_live(roster.last(), live) {
            1nat
        } else {
            0nat
        }
    }
}

proof fn lemma_matched_le_known(roster: Seq<RosterPlayer>, live: Seq<String>)
    ensures
        matched_count(roster, live) <= known_count(roster),
        matched_count(roster, live) == known_count(roster) <==> forall|i: int|
            0 <= i < roster.len() && known_puuid(#[trigger] roster[i]) ==> matched_in_live(
                roster[i],
                live,
            ),
    decreases roster.len(),
{
    if roster.len() > 0 {
        let pre = roster.drop_last();
        let last = roster.last();
        lemma_matched_le_known(pre, live);
        assert(matched_in_live(last, live) ==> known_puuid(last));
        if matched_count(roster, live) == known_count(roster) {
            assert forall|i: int|
                0 <= i < roster.len() && known_puuid(#[trigger] roster[i]) implies matched_in_live(
                roster[i],
                live,
            ) by {
                if i < pre.len() {
                    assert(pre[i] == roster[i]);
                }
            }
        }
        if forall|i: int|
            0 <= i < roster.len() && known_puuid(#[trigger] roster[i]) ==> matched_in_live(
                roster[i],
                live,
            ) {
            assert forall|i: int|
                0 <= i < pre.len() && known_puuid(#[trigger] pre[i]) implies matched_in_live(
                pre[i],
                live,
            ) by {
                assert(pre[i] == roster[i]);
            }
            assert(known_puuid(last) ==> matched_in_live(roster[roster.len() - 1], live));
        }
    }
}

fn live_contains(live: &Vec<String>, puuid: &str) -> (r: bool)
    ensures
        r == in_live_game(live@, puuid@),
{
    let mut i: usize = 0;
    while i < live.len()
        invariant
            i <= live@.len(),
            forall|k: int| 0 <= k < i ==> live@[k]@ != puuid@,
        decreases live@.len() - i,
    {
        if str_eq(live[i].as_str(), puuid) {
            return true;
        }
        i += 1;
    }
    false
}

/// The number of roster players with a registered account, and how many of those accounts are
/// in the live game.
pub fn live_match_counts(roster: &[RosterPlayer], live_game: &LiveGame) -> (r: (usize, usize))
    ensures
        r.0 == known_count(roster@),
        r.1 == matched_count(roster@, live_game.participant_puuids@),
{
    let ghost live = live_game.participant_puuids@;
    let mut known: usize = 0;
    let mut matched: usize = 0;
    let mut i: usize = 0;
    while i < roster.len()
        invariant
            i <= roster@.len(),
            live == live_game.participant_puuids@,
            known == known_count(roster@.take(i as int)),
            matched == matched_count(roster@.take(i as int), live),
            known <= i,
            matched <= i,
        decreases roster@.len() - i,
    {
        proof {
            assert(roster@.take(i + 1).drop_last() =~= roster@.take(i as int));
        }
        match &roster[i].riot_puuid {
            Some(p) => {
                known = known + 1;
                if live_contains(&live_game.participant_puuids, p.as_str()) {
                    matched = matched + 1;
                }
            },
            None => {},
        }
        i += 1;
    }
    assert(roster@.take(roster@.len() as int) =~= roster@);
    (known, matched)
}

/// Every registered account of the roster is in the live game.
pub fn roster_matches_live_game(roster: &[RosterPlayer], live_game: &LiveGame) -> (r: bool)
    ensures
        r == forall|i: int|
            0 <= i < roster@.len() && known_puuid(#[trigger] roster@[i]) ==> matched_in_live(
                roster@[i],
                live_game.participant_puuids@,
            ),
{
    let (known, matched) = live_match_counts(roster, live_game);
    proof {
        lemma_matched_le_known(roster@, live_game.participant_puuids@);
    }
    matched == known
}

// ---------------------------------------------------------------------------
// Finished matches
// ---------------------------------------------------------------------------

pub open spec fn cron_queue_mismatch(expected: GameModeKind, q: Option<u16>) -> Seq<char> {
    "Riot match queue "@ + debug_queue(q) + " does not match expected mode "@ + mode_name(expected)
}

/// The finished match must come from a queue that the game's mode accepts.
pub fn validate_match_mode(expected: GameModeKind, finished_match: &FinishedMatch) -> (r: Result<
    (),
    CronError,
>)
    ensures
        mode_accepts_queue(expected, queue_of(finished_match.queue_id)) ==> r is Ok,
        !mode_accepts_queue(expected, queue_of(finished_match.queue_id)) ==> (r matches Err(
            CronError::InvalidMatch(m),
        ) && m@ == cron_queue_mismatch(expected, finished_match.queue_id)),
{
    let queue_id = match finished_match.queue_id {
        Some(v) => Some(crate::domain::modes::QueueId(v)),
        None => None,
    };
    if expected.accepts_queue(queue_id) {
        Ok(())
    } else {
        let mut m = String::new();
        append(&mut m, "Riot match queue ");
        let q = debug_queue_text(finished_match.queue_id);
        append(&mut m, q.as_str());
        append(&mut m, " does not match expected mode ");
        append(&mut m, expected.as_str());
        Err(CronError::InvalidMatch(m))
    }
}

pub open spec fn cron_missing_message(n: nat) -> Seq<char> {
    "match is missing "@ + decimal(n) + " registered roster player(s)"@
}

/// The record of a finished match: refused when the stored mode does not parse (a bad row),
/// when the queue does not fit the mode, or when a registered roster account is absent.
pub fn build_match_record(game: &GameRow, roster: &[RosterPlayer], finished_match: FinishedMatch) -> (r:
    Result<MatchRecord, CronError>)
    ensures
        match mode_from_name(game.mode@) {
            None => r matches Err(CronError::InvalidRow(m)) && m@ == invalid_mode_message(game.mode@),
            Some(mode) => if !mode_accepts_queue(mode, queue_of(finished_match.queue_id)) {
                r matches Err(CronError::InvalidMatch(m)) && m@ == cron_queue_mismatch(
                    mode,
                    finished_match.queue_id,
                )
            } else {
                let missing = missing_count(roster@, participant_puuids(finished_match.participants@));
                if missing > 0 {
                    r matches Err(CronError::InvalidMatch(m)) && m@ == cron_missing_message(missing)
                } else {
                    r matches Ok(rec) && match_record_ok(
                        rec,
                        game.guild_id,
                        mode,
                        finished_match,
                        roster@,
                    )
                }
            },
        },
{
    let mode = match game.mode() {
        Ok(m) => m,
        Err(e) => return Err(CronError::InvalidRow(e)),
    };
    validate_match_mode(mode, &finished_match)?;
    let missing = missing_roster_puuids(roster, &finished_match.participants);
    if missing > 0 {
        let mut m = String::new();
        append(&mut m, "match is missing ");
        let n = u64_to_decimal(missing as u64);
        append(&mut m, n.as_str());
        append(&mut m, " registered roster player(s)");
        return Err(CronError::InvalidMatch(m));
    }
    Ok(match_record_from(&game.guild_id, mode, roster, &finished_match))
}

// ---------------------------------------------------------------------------
// One game of a poll
// ---------------------------------------------------------------------------

/// The poll looks at games whose teams are drawn or that are in game; `None` skips the game. A
/// status that does not parse stops the poll.
pub fn poll_status(game: &GameRow) -> (r: Result<Option<GameStatus>, CronError>)
    ensures
        match game_status_from_name(game.status@) {
            None => r matches Err(CronError::InvalidRow(m)) && m@ == invalid_status_message(
                game.status@,
            ),
            Some(s) => r matches Ok(x) && x == if s == GameStatus::Randomized || s
                == GameStatus::Ingame {
                Some(s)
            } else {
                None
            },
        },
{
    let status = match game.status() {
        Ok(s) => s,
        Err(e) => return Err(CronError::InvalidRow(e)),
    };
    if status == GameStatus::Randomized || status == GameStatus::Ingame {
        Ok(Some(status))
    } else {
        Ok(None)
    }
}

/// The first registered account on the roster.
pub open spec fn first_puuid_spec(roster: Seq<RosterPlayer>) -> Option<Seq<char>>
    decreases roster.len(),
{
    if roster.len() == 0 {
        None
    } else {
        match roster[0].riot_puuid {
            Some(p) => Some(p@),
            None => first_puuid_spec(roster.drop_first()),
        }
    }
}

/// The account the poll probes for a game: the first registered one on its roster.
pub fn first_puuid(roster: &[RosterPlayer]) -> (r: Option<String>)
    ensures
        match first_puuid_spec(roster@) {
            Some(p) => r matches Some(s) && s@ == p,
            None => r is None,
        },
{
    let mut i: usize = 0;
    assert(roster@.subrange(0, roster@.len() as int) =~= roster@);
    while i < roster.len()
        invariant
            i <= roster@.len(),
            first_puuid_spec(roster@) == first_puuid_spec(
                roster@.subrange(i as int, roster@.len() as int),
            ),
        decreases roster@.len() - i,
    {
        let ghost rest = roster@.subrange(i as int, roster@.len() as int);
        assert(rest.drop_first() =~= roster@.subrange(i + 1, roster@.len() as int));
        assert(rest[0] == roster@[i as int]);
        match &roster[i].riot_puuid {
            Some(p) => return Some(p.clone()),
            None => {},
        }
        i += 1;
    }
    None
}

/// What the poll does for a game after probing its live state.
#[derive(Debug)]
pub enum PollAction {
    /// Some registered account is not in the live game: report it and count a probe error.
    RosterMismatch { known: usize, matched: usize },
    /// The live game's queue does not fit the game's mode: report it and count a probe error.
    ModeMismatch,
    /// Mark the game in game with the live game's data.
    MarkIngame(LiveGameUpdate),
    /// The game was in game and is gone a second time: try to finalize it from Riot's data.
    TryFinalize,
    /// Count one more probe that found no live game.
    Bump,
    /// The probe failed: report the error and count a probe error.
    SpectatorError(String),
}

pub open spec fn all_known_matched(roster: Seq<RosterPlayer>, live: Seq<String>) -> bool {
    forall|i: int|
        0 <= i < roster.len() && known_puuid(#[trigger] roster[i]) ==> matched_in_live(
            roster[i],
            live,
        )
}

/// The decision after a probe: a live game must hold the whole registered roster and fit the
/// mode before the game is marked in game; a game in game that has been gone before is tried
/// for finalization; otherwise the miss is counted.
pub fn poll_decision(
    game: &GameRow,
    status: GameStatus,
    roster: &[RosterPlayer],
    outcome: Result<LiveGameStatus, String>,
) -> (r: Result<PollAction, CronError>)
    ensures
        match outcome {
            Err(e) => r matches Ok(PollAction::SpectatorError(x)) && x == e,
            Ok(LiveGameStatus::NotFound) => r matches Ok(a) && if status == GameStatus::Ingame
                && game.consecutive_404 + 1 >= 2 {
                a is TryFinalize
            } else {
                a is Bump
            },
            Ok(LiveGameStatus::Live(live)) => if !all_known_matched(roster@, live.participant_puuids@) {
                r matches Ok(PollAction::RosterMismatch { known, matched }) && known
                    == known_count(roster@) && matched == matched_count(
                    roster@,
                    live.participant_puuids@,
                )
            } else {
                match mode_from_name(game.mode@) {
                    None => r matches Err(CronError::InvalidRow(m)) && m@ == invalid_mode_message(
                        game.mode@,
                    ),
                    Some(mode) => if !mode_accepts_queue(mode, queue_of(live.queue_id)) {
                        r matches Ok(PollAction::ModeMismatch)
                    } else {
                        r matches Ok(PollAction::MarkIngame(u)) && u.riot_match_id
                            == live.riot_match_id && u.queue_id == widen16(live.queue_id)
                            && u.map_id == widen16(live.map_id) && u.riot_game_mode
                            == live.game_mode && u.riot_game_type == live.game_type
                    },
                }
            },
        },
{
    match outcome {
        Err(e) => Ok(PollAction::SpectatorError(e)),
        Ok(LiveGameStatus::NotFound) => {
            if status == GameStatus::Ingame && game.consecutive_404 >= 1 {
                Ok(PollAction::TryFinalize)
            } else {
                Ok(PollAction::Bump)
            }
        },
        Ok(LiveGameStatus::Live(live)) => {
            if !roster_matches_live_game(roster, &live) {
                let (known, matched) = live_match_counts(roster, &live);
                return Ok(PollAction::RosterMismatch { known, matched });
            }
            let mode = match game.mode() {
                Ok(m) => m,
                Err(e) => return Err(CronError::InvalidRow(e)),
            };
            let queue_id = match live.queue_id {
                Some(v) => Some(crate::domain::modes::QueueId(v)),
                None => None,
            };
            if !mode.accepts_queue(queue_id) {
                return Ok(PollAction::ModeMismatch);
            }
            let queue = match live.queue_id {
                Some(v) => Some(v as i64),
                None => None,
            };
            let map = match live.map_id {
                Some(v) => Some(v as i64),
                None => None,
            };
            Ok(
                PollAction::MarkIngame(
                    LiveGameUpdate {
                        riot_match_id: live.riot_match_id,
                        queue_id: queue,
                        map_id: map,
                        riot_game_mode: live.game_mode,
                        riot_game_type: live.game_type,
                    },
                ),
            )
        },
    }
}

/// What finalizing a game from its finished match comes to.
#[derive(Debug)]
pub enum FinalizeStep {
    /// Riot has no finished match yet.
    NotYet,
    /// The lookup failed: report the error.
    FetchError(String),
    /// The match shows no winner: report it.
    MissingWinner,
    /// The match does not fit the game: report why.
    ValidationError(String),
    /// Store the record, finalize with the winner and report the automatic finalization.
    Finalize { record: MatchRecord, winner: TeamSide },
}

/// Decides what the finished-match lookup of a game leads to. A stored mode that does not
/// parse stops the poll.
pub fn finalize_decision(
    game: &GameRow,
    roster: &[RosterPlayer],
    fetched: Result<Option<FinishedMatch>, String>,
) -> (r: Result<FinalizeStep, CronError>)
    ensures
        match fetched {
            Err(e) => r matches Ok(FinalizeStep::FetchError(x)) && x == e,
            Ok(None) => r matches Ok(FinalizeStep::NotYet),
            Ok(Some(m)) => match winner_of(m.participants@) {
                None => r matches Ok(FinalizeStep::MissingWinner),
                Some(w) => match mode_from_name(game.mode@) {
                    None => r matches Err(CronError::InvalidRow(x)) && x@ == invalid_mode_message(
                        game.mode@,
                    ),
                    Some(mode) => if !mode_accepts_queue(mode, queue_of(m.queue_id)) {
                        r matches Ok(FinalizeStep::ValidationError(x)) && x@ == cron_queue_mismatch(
                            mode,
                            m.queue_id,
                        )
                    } else {
                        let missing = missing_count(roster@, participant_puuids(m.participants@));
                        if missing > 0 {
                            r matches Ok(FinalizeStep::ValidationError(x)) && x@
                                == cron_missing_message(missing)
                        } else {
                            r matches Ok(FinalizeStep::Finalize { record, winner }) && winner == w
                                && match_record_ok(record, game.guild_id, mode, m, roster@)
                        }
                    },
                },
            },
        },
{
    let finished = match fetched {
        Err(e) => return Ok(FinalizeStep::FetchError(e)),
        Ok(None) => return Ok(FinalizeStep::NotYet),
        Ok(Some(m)) => m,
    };
    let winner = match derive_winner(&finished) {
        None => return Ok(FinalizeStep::MissingWinner),
        Some(w) => w,
    };
    match build_match_record(game, roster, finished) {
        Ok(record) => Ok(FinalizeStep::Finalize { record, winner }),
        Err(CronError::InvalidMatch(e)) => Ok(FinalizeStep::ValidationError(e)),
        Err(e) => Err(e),
    }
}

// ---------------------------------------------------------------------------
// The tally
// ---------------------------------------------------------------------------

impl CronSummary {
    /// The games counted so far, each in exactly one field.
    pub open spec fn tally(self) -> int {
        self.marked_live + self.bumped_not_found + self.finalized + self.missing_puuid
            + self.probe_errors
    }

    /// A run that inspects this many games, none counted yet.
    pub fn start(inspected: usize) -> (r: Self)
        ensures
            r.inspected == inspected,
            r.tally() == 0,
            r.marked_live == 0 && r.bumped_not_found == 0 && r.finalized == 0
                && r.missing_puuid == 0 && r.probe_errors == 0,
    {
        CronSummary {
            inspected,
            marked_live: 0,
            bumped_not_found: 0,
            finalized: 0,
            missing_puuid: 0,
            probe_errors: 0,
        }
    }

    /// Counts a game whose roster has no registered account.
    pub fn count_missing_puuid(&mut self)
        requires
            old(self).tally() < old(self).inspected,
        ensures
            *final(self) == (CronSummary { missing_puuid: (old(self).missing_puuid + 1) as usize, ..*old(self) }),
    {
        self.missing_puuid = self.missing_puuid + 1;
    }

    /// Counts a game by what its probe led to; a tried finalization counts as finalized when it
    /// succeeded and as a miss otherwise.
    pub fn count_action(&mut self, action: &PollAction, finalized: bool)
        requires
            old(self).tally() < old(self).inspected,
        ensures
            final(self).inspected == old(self).inspected,
            final(self).tally() == old(self).tally() + 1,
            match action {
                PollAction::MarkIngame(_) => *final(self) == (CronSummary {
                    marked_live: (old(self).marked_live + 1) as usize,
                    ..*old(self)
                }),
                PollAction::Bump => *final(self) == (CronSummary {
                    bumped_not_found: (old(self).bumped_not_found + 1) as usize,
                    ..*old(self)
                }),
                PollAction::TryFinalize => if finalized {
                    *final(self) == (CronSummary {
                        finalized: (old(self).finalized + 1) as usize,
                        ..*old(self)
                    })
                } else {
                    *final(self) == (CronSummary {
                        bumped_not_found: (old(self).bumped_not_found + 1) as usize,
                        ..*old(self)
                    })
                },
                _ => *final(self) == (CronSummary {
                    probe_errors: (old(self).probe_errors + 1) as usize,
                    ..*old(self)
                }),
            },
    {
        match action {
            PollAction::MarkIngame(_) => {
                self.marked_live = self.marked_live + 1;
            },
            PollAction::Bump => {
                self.bumped_not_found = self.bumped_not_found + 1;
            },
            PollAction::TryFinalize => {
                if finalized {
                    self.finalized = self.finalized + 1;
                } else {
                    self.bumped_not_found = self.bumped_not_found + 1;
                }
            },
            _ => {
                self.probe_errors = self.probe_errors + 1;
            },
        }
    }
}

} // verus!
