//! What `/results`, `/finish`, `/hydrate` and `/link-match` decide about a Riot match: the
//! record to store, the winner to report or finalize, and what syncing a linked match came to.
use crate::discord::command::ResultsCommand;
use crate::domain::ids::GameId;
use crate::domain::modes::{mode_accepts_queue, mode_from_name, GameModeKind};
use crate::domain::state::{
    game_status_from_name, is_closed_status, team_side_from_name,
    team_side_name, GameStatus, TeamSide,
};
use crate::handlers::flow::{refused_with, stored_mode, stored_status};
use crate::handlers::format::invalid_stored_status_message;
use crate::handlers::matches::{
    build_match_record, derive_winner, manual_match_record, match_record_ok, missing_count,
    missing_players_message, participant_puuids, queue_mismatch_message, queue_of,
    validate_match_mode, winner_of,
};
use crate::handlers::report::MatchSyncOutcome;
use crate::handlers::types::{user_facing, HandlerError, ResolvedRiotMatch};
use crate::storage::models::{
    invalid_mode_message, needs_hydration_spec, GameRow, MatchLinkRow, MatchRecord, RosterPlayer,
};
use crate::text::{append, str_eq, text_views};
use vstd::prelude::*;

verus! {

// ---------------------------------------------------------------------------
// `/results`
// ---------------------------------------------------------------------------

/// `/results` needs a winner, a Riot match id, or both.
pub fn results_request_check(command: &ResultsCommand) -> (r: Result<(), HandlerError>)
    ensures
        command.winner is None && command.riot_match_id is None ==> refused_with(
            r,
            "`/results` needs `winner`, `riot_match_id`, or both."@,
        ),
        command.winner is Some || command.riot_match_id is Some ==> r is Ok,
{
    if command.winner.is_none() && command.riot_match_id.is_none() {
        Err(user_facing("`/results` needs `winner`, `riot_match_id`, or both."))
    } else {
        Ok(())
    }
}

/// Results are taken once teams are drawn and while the game is open; the game's mode is
/// returned.
pub fn results_game_check(game: &GameRow) -> (r: Result<GameModeKind, HandlerError>)
    ensures
        match game_status_from_name(game.status@) {
            None => refused_with(r, invalid_stored_status_message(game.status@)),
            Some(GameStatus::Lobby) => refused_with(r, "Randomize teams before reporting results."@),
            Some(GameStatus::Finalized) | Some(GameStatus::Cancelled) => refused_with(
                r,
                "That game is already closed."@,
            ),
            Some(_) => match mode_from_name(game.mode@) {
                None => refused_with(r, "Invalid stored mode: "@ + invalid_mode_message(game.mode@)),
                Some(m) => r matches Ok(t) && t == m,
            },
        },
        r is Ok ==> !is_closed_status(game.status@),
{
    let status = stored_status(game)?;
    if status == GameStatus::Lobby {
        return Err(user_facing("Randomize teams before reporting results."));
    }
    if status == GameStatus::Finalized || status == GameStatus::Cancelled {
        return Err(user_facing("That game is already closed."));
    }
    stored_mode(game)
}

/// The record of the Riot match named for a game, with the winner it shows: from Riot's data
/// when Riot returned the match (refused when its queue does not fit the mode or the roster is
/// incomplete in it), else a record linked by hand without a winner.
pub fn linked_match(
    game: &GameRow,
    roster: &[RosterPlayer],
    guild_id: &str,
    mode: GameModeKind,
    riot_match_id: &str,
    resolved: Option<ResolvedRiotMatch>,
) -> (r: Result<(MatchRecord, Option<TeamSide>), HandlerError>)
    ensures
        match resolved {
            None => r matches Ok((rec, w)) && w is None && rec.riot_match_id@ == riot_match_id@
                && rec.guild_id@ == guild_id@ && rec.mode == mode && rec.data_source@ == "manual"@
                && rec.participants@.len() == 0 && rec.queue_id is None && rec.map_id is None
                && rec.riot_game_mode is None && rec.riot_game_type is None
                && rec.payload_json is None,
            Some(m) => if !mode_accepts_queue(mode, queue_of(m.queue_id)) {
                refused_with(r, queue_mismatch_message(mode, m.queue_id))
            } else {
                match mode_from_name(game.mode@) {
                    None => refused_with(
                        r,
                        "Invalid stored mode: "@ + invalid_mode_message(game.mode@),
                    ),
                    Some(stored) => {
                        let missing = missing_count(roster@, participant_puuids(m.participants@));
                        if missing > 0 {
                            refused_with(r, missing_players_message(missing))
                        } else {
                            r matches Ok((rec, w)) && w == winner_of(m.participants@)
                                && match_record_ok(rec, game.guild_id, stored, m, roster@)
                        }
                    },
                }
            },
        },
{
    match resolved {
        Some(detail) => {
            validate_match_mode(mode, &detail)?;
            let derived = derive_winner(&detail);
            let record = build_match_record(game, roster, detail)?;
            Ok((record, derived))
        },
        None => Ok((manual_match_record(guild_id, mode, riot_match_id), None)),
    }
}

/// What `/results` does once any named match is recorded.
#[derive(Debug)]
pub enum ResultsStep {
    /// A match is linked but no winner is known: reply without reporting.
    LinkedWithoutWinner { reply: String },
    /// Vote for the winner and finalize with the linked match.
    Finalize { winner: TeamSide, match_id: String, reply: String },
    /// Vote for the winner and mark the game reported.
    Report { winner: TeamSide, reply: String },
}

pub open spec fn finalized_from_text(game_id: Seq<char>, match_id: Seq<char>, winner: TeamSide) -> Seq<
    char,
> {
    game_id + " finalized from "@ + match_id + " as "@ + team_side_name(winner) + " win."@
}

/// `<id> finalized from <match> as <side> win.`
pub fn finalized_from_reply(game_id: &GameId, match_id: &str, winner: TeamSide) -> (r: String)
    ensures
        r@ == finalized_from_text(game_id@, match_id@, winner),
{
    let mut s = String::new();
    append(&mut s, game_id.as_str());
    append(&mut s, " finalized from ");
    append(&mut s, match_id);
    append(&mut s, " as ");
    append(&mut s, winner.as_str());
    append(&mut s, " win.");
    s
}

pub open spec fn linked_without_winner_text(game_id: Seq<char>, match_id: Seq<char>) -> Seq<char> {
    game_id + " linked to "@ + match_id
        + ". Riot did not return a winner yet, so the game is not reported. Run `/results game_id:"@
        + game_id + " winner:Blue` or `/results game_id:"@ + game_id
        + " winner:Red` once the winner is known."@
}

/// The winner given, else the one Riot's data shows; with it the game is finalized when a
/// match is linked and reported otherwise.
pub fn results_step(
    game_id: &GameId,
    winner: Option<TeamSide>,
    derived: Option<TeamSide>,
    linked: Option<String>,
) -> (r: Result<ResultsStep, HandlerError>)
    ensures
        match (if winner is Some { winner } else { derived }) {
            None => match linked {
                None => refused_with(r, "`/results` needs a winner to report."@),
                Some(id) => r matches Ok(ResultsStep::LinkedWithoutWinner { reply })
                    && reply@ == linked_without_winner_text(game_id@, id@),
            },
            Some(w) => match linked {
                Some(id) => r matches Ok(ResultsStep::Finalize { winner, match_id, reply })
                    && winner == w && match_id == id && reply@ == finalized_from_text(
                    game_id@,
                    id@,
                    w,
                ),
                None => r matches Ok(ResultsStep::Report { winner, reply }) && winner == w
                    && reply@ == crate::handlers::flow::reported_text(game_id@, w),
            },
        },
{
    let chosen = match winner {
        Some(w) => Some(w),
        None => derived,
    };
    match chosen {
        None => match linked {
            None => Err(user_facing("`/results` needs a winner to report.")),
            Some(id) => {
                let mut s = String::new();
                append(&mut s, game_id.as_str());
                append(&mut s, " linked to ");
                append(&mut s, id.as_str());
                append(
                    &mut s,
                    ". Riot did not return a winner yet, so the game is not reported. Run `/results game_id:",
                );
                append(&mut s, game_id.as_str());
                append(&mut s, " winner:Blue` or `/results game_id:");
                append(&mut s, game_id.as_str());
                append(&mut s, " winner:Red` once the winner is known.");
                Ok(ResultsStep::LinkedWithoutWinner { reply: s })
            },
        },
        Some(w) => match linked {
            Some(id) => {
                let reply = finalized_from_reply(game_id, id.as_str(), w);
                Ok(ResultsStep::Finalize { winner: w, match_id: id, reply })
            },
            None => Ok(
                ResultsStep::Report {
                    winner: w,
                    reply: crate::handlers::flow::reported_reply(game_id, w),
                },
            ),
        },
    }
}

// ---------------------------------------------------------------------------
// `/finish`
// ---------------------------------------------------------------------------

/// The winner stored on the game, if any; a stored side that does not parse is refused with
/// its text.
pub fn stored_winner(game: &GameRow) -> (r: Result<Option<TeamSide>, HandlerError>)
    ensures
        match game.winning_side {
            None => r matches Ok(w) && w is None,
            Some(w) => match team_side_from_name(w@) {
                Some(side) => r matches Ok(x) && x == Some(side),
                None => refused_with(r, "invalid team side `"@ + w@ + "`"@),
            },
        },
{
    match &game.winning_side {
        None => Ok(None),
        Some(w) => match TeamSide::from_str(w.as_str()) {
            Ok(s) => Ok(Some(s)),
            Err(e) => Err(HandlerError::UserFacing(e.message())),
        },
    }
}

/// The winner `/finish` finalizes with: the one given, else the one Riot's data shows (refused
/// when it shows none), else the stored one. `None` when there is none of them: the match is
/// then only linked by hand and the command refused (see `finish_needs_winner`).
pub fn finish_winner(
    winner: Option<TeamSide>,
    resolved: Option<&ResolvedRiotMatch>,
    stored: Option<TeamSide>,
) -> (r: Result<Option<TeamSide>, HandlerError>)
    ensures
        match (winner, resolved, stored) {
            (Some(w), _, _) => r matches Ok(x) && x == Some(w),
            (None, Some(m), _) => match winner_of(m.participants@) {
                Some(w) => r matches Ok(x) && x == Some(w),
                None => refused_with(
                    r,
                    "Could not derive winner from Riot match data; pass `winner` explicitly."@,
                ),
            },
            (None, None, Some(w)) => r matches Ok(x) && x == Some(w),
            (None, None, None) => r matches Ok(x) && x is None,
        },
{
    match (winner, resolved, stored) {
        (Some(w), _, _) => Ok(Some(w)),
        (None, Some(m), _) => match derive_winner(m) {
            Some(w) => Ok(Some(w)),
            None => Err(
                user_facing(
                    "Could not derive winner from Riot match data; pass `winner` explicitly.",
                ),
            ),
        },
        (None, None, Some(w)) => Ok(Some(w)),
        (None, None, None) => Ok(None),
    }
}

/// The refusal of `/finish` without any winner, after the match was linked by hand.
pub fn finish_needs_winner(game_id: &GameId, riot_match_id: &str) -> (r: HandlerError)
    ensures
        r matches HandlerError::UserFacing(m) && m@ == game_id@ + " linked to "@ + riot_match_id@
            + ". Riot did not return match data, so `/finish` needs `winner:Blue` or `winner:Red`."@,
{
    let mut m = String::new();
    append(&mut m, game_id.as_str());
    append(&mut m, " linked to ");
    append(&mut m, riot_match_id);
    append(
        &mut m,
        ". Riot did not return match data, so `/finish` needs `winner:Blue` or `winner:Red`.",
    );
    HandlerError::UserFacing(m)
}

// ---------------------------------------------------------------------------
// `/hydrate` and `/link-match`
// ---------------------------------------------------------------------------

/// The ids of linked matches that still lack Riot stats, in link order.
pub open spec fn hydration_ids(links: Seq<MatchLinkRow>) -> Seq<Seq<char>>
    decreases links.len(),
{
    if links.len() == 0 {
        seq![]
    } else if needs_hydration_spec(links.last()) {
        hydration_ids(links.drop_last()).push(links.last().riot_match_id@)
    } else {
        hydration_ids(links.drop_last())
    }
}

pub open spec fn links_name(links: Seq<MatchLinkRow>, id: Seq<char>) -> bool {
    exists|i: int| 0 <= i < links.len() && (#[trigger] links[i]).riot_match_id@ == id
}

/// The matches to hydrate: the links missing stats, then the game's own match id when no link
/// has it. Refused when the game has neither links nor a match id.
pub open spec fn missing_ids_spec(links: Seq<MatchLinkRow>, game: GameRow) -> Option<Seq<Seq<char>>> {
    let base = hydration_ids(links);
    let all = match game.riot_match_id {
        Some(id) => if !links_name(links, id@) {
            base.push(id@)
        } else {
            base
        },
        None => base,
    };
    if links.len() == 0 && all.len() == 0 {
        None
    } else {
        Some(all)
    }
}

pub fn missing_match_ids(game_id: &GameId, game: &GameRow, links: &[MatchLinkRow]) -> (r: Result<
    Vec<String>,
    HandlerError,
>)
    ensures
        match missing_ids_spec(links@, *game) {
            None => refused_with(r, game_id@ + " has no Riot match id yet."@),
            Some(ids) => r matches Ok(v) && text_views(v@) == ids,
        },
{
    let mut missing: Vec<String> = Vec::new();
    let mut named = false;
    let mut i: usize = 0;
    while i < links.len()
        invariant
            i <= links@.len(),
            text_views(missing@) == hydration_ids(links@.take(i as int)),
            match game.riot_match_id {
                Some(id) => named == links_name(links@.take(i as int), id@),
                None => !named,
            },
        decreases links@.len() - i,
    {
        proof {
            assert(links@.take(i + 1).drop_last() =~= links@.take(i as int));
        }
        if links[i].needs_hydration() {
            let ghost before = missing@;
            missing.push(links[i].riot_match_id.clone());
            assert(text_views(missing@) =~= text_views(before).push(links@[i as int].riot_match_id@));
        }
        match &game.riot_match_id {
            Some(id) => {
                let hit = str_eq(links[i].riot_match_id.as_str(), id.as_str());
                proof {
                    let pre = links@.take(i as int);
                    let post = links@.take(i + 1);
                    if hit {
                        assert(post[i as int] == links@[i as int]);
                    }
                    if links_name(pre, id@) {
                        let k = choose|k: int| 0 <= k < pre.len() && (#[trigger] pre[k]).riot_match_id@
                            == id@;
                        assert(post[k] == pre[k]);
                    }
                    if links_name(post, id@) && !hit {
                        let k = choose|k: int| 0 <= k < post.len() && (#[trigger] post[k]).riot_match_id@
                            == id@;
                        assert(k != i);
                        assert(pre[k] == post[k]);
                    }
                }
                if hit {
                    named = true;
                }
            },
            None => {},
        }
        i += 1;
    }
    assert(links@.take(links@.len() as int) =~= links@);
    match &game.riot_match_id {
        Some(id) => {
            if !named {
                let ghost before = missing@;
                missing.push(id.clone());
                assert(text_views(missing@) =~= text_views(before).push(id@));
            }
        },
        None => {},
    }
    if links.len() == 0 && missing.len() == 0 {
        let mut m = String::new();
        append(&mut m, game_id.as_str());
        append(&mut m, " has no Riot match id yet.");
        return Err(HandlerError::UserFacing(m));
    }
    Ok(missing)
}

/// A Riot match may be linked to one game only: refused when another game has it.
pub fn linked_elsewhere_check(existing: Option<GameRow>, game_id: &GameId, riot_match_id: &str) -> (r:
    Result<(), HandlerError>)
    ensures
        match existing {
            None => r is Ok,
            Some(g) => if g.game_id@ == game_id@ {
                r is Ok
            } else {
                refused_with(r, riot_match_id@ + " is already linked to "@ + g.game_id@ + "."@)
            },
        },
{
    match existing {
        None => Ok(()),
        Some(g) => {
            if str_eq(g.game_id.as_str(), game_id.as_str()) {
                Ok(())
            } else {
                let mut m = String::new();
                append(&mut m, riot_match_id);
                append(&mut m, " is already linked to ");
                append(&mut m, g.game_id.as_str());
                append(&mut m, ".");
                Err(HandlerError::UserFacing(m))
            }
        },
    }
}

/// The refusal of a Riot match id that no local game has.
pub fn no_game_linked_to(riot_match_id: &str) -> (r: HandlerError)
    ensures
        r matches HandlerError::UserFacing(m) && m@ == "No local game is linked to "@
            + riot_match_id@ + "; pass `game_id` too."@,
{
    let mut m = String::new();
    append(&mut m, "No local game is linked to ");
    append(&mut m, riot_match_id);
    append(&mut m, "; pass `game_id` too.");
    HandlerError::UserFacing(m)
}

/// The reply when nothing is left to hydrate.
pub fn nothing_to_hydrate_reply(game_id: &GameId) -> (r: String)
    ensures
        r@ == game_id@ + " has no linked matches missing Riot stats."@,
{
    let mut s = String::new();
    append(&mut s, game_id.as_str());
    append(&mut s, " has no linked matches missing Riot stats.");
    s
}

/// What syncing one Riot match stores and reports.
#[derive(Debug)]
pub struct SyncPlan {
    pub record: Option<MatchRecord>,
    pub outcome: MatchSyncOutcome,
}

/// A match linked by hand: its manual record, reported as linked.
pub open spec fn manual_plan_ok(
    p: SyncPlan,
    riot_match_id: Seq<char>,
    guild_id: String,
    mode: GameModeKind,
) -> bool {
    &&& match p.record {
        Some(rec) => rec.riot_match_id@ == riot_match_id && rec.guild_id@ == guild_id@ && rec.mode
            == mode && rec.data_source@ == "manual"@ && rec.participants@.len() == 0,
        None => false,
    }
    &&& match p.outcome {
        MatchSyncOutcome::LinkedManual { riot_match_id: id } => id@ == riot_match_id,
        _ => false,
    }
}

/// Nothing stored; reported unavailable.
pub open spec fn unavailable_plan_ok(p: SyncPlan, riot_match_id: Seq<char>) -> bool {
    &&& p.record is None
    &&& match p.outcome {
        MatchSyncOutcome::Unavailable { riot_match_id: id } => id@ == riot_match_id,
        _ => false,
    }
}

/// The full record from Riot's data, reported hydrated with its participant count.
pub open spec fn hydrated_plan_ok(
    p: SyncPlan,
    guild_id: String,
    mode: GameModeKind,
    m: ResolvedRiotMatch,
    roster: Seq<RosterPlayer>,
) -> bool {
    &&& match p.record {
        Some(rec) => match_record_ok(rec, guild_id, mode, m, roster),
        None => false,
    }
    &&& match p.outcome {
        MatchSyncOutcome::Hydrated { riot_match_id: id, participant_count: n } => id
            == m.riot_match_id && n == m.participants@.len(),
        _ => false,
    }
}

pub open spec fn conflict_text(derived: TeamSide, stored: TeamSide, game_id: Seq<char>) -> Seq<char> {
    "Riot winner "@ + team_side_name(derived) + " conflicts with stored winner "@
        + team_side_name(stored) + " for "@ + game_id + "."@
}

/// Syncing a linked match: without Riot data it is linked by hand (when asked) or reported
/// unavailable; with Riot data it is checked against the game's mode and stored winner and
/// stored in full.
pub fn sync_decision(
    game: &GameRow,
    game_id: &GameId,
    roster: &[RosterPlayer],
    mode: GameModeKind,
    riot_match_id: &str,
    link_when_unavailable: bool,
    resolved: Option<ResolvedRiotMatch>,
) -> (r: Result<SyncPlan, HandlerError>)
    ensures
        match resolved {
            None => if link_when_unavailable {
                r matches Ok(p) && manual_plan_ok(p, riot_match_id@, game.guild_id, mode)
            } else {
                r matches Ok(p) && unavailable_plan_ok(p, riot_match_id@)
            },
            Some(m) => if !mode_accepts_queue(mode, queue_of(m.queue_id)) {
                refused_with(r, queue_mismatch_message(mode, m.queue_id))
            } else {
                match game.winning_side {
                    Some(w) if team_side_from_name(w@) is None => refused_with(
                        r,
                        "invalid team side `"@ + w@ + "`"@,
                    ),
                    _ => {
                        let stored = match game.winning_side {
                            Some(w) => team_side_from_name(w@),
                            None => None,
                        };
                        let derived = winner_of(m.participants@);
                        if stored is Some && derived is Some && stored != derived {
                            refused_with(
                                r,
                                conflict_text(derived.unwrap(), stored.unwrap(), game_id@),
                            )
                        } else {
                            match mode_from_name(game.mode@) {
                                None => refused_with(
                                    r,
                                    "Invalid stored mode: "@ + invalid_mode_message(game.mode@),
                                ),
                                Some(sm) => {
                                    let missing = missing_count(
                                        roster@,
                                        participant_puuids(m.participants@),
                                    );
                                    if missing > 0 {
                                        refused_with(r, missing_players_message(missing))
                                    } else {
                                        r matches Ok(p) && hydrated_plan_ok(
                                            p,
                                            game.guild_id,
                                            sm,
                                            m,
                                            roster@,
                                        )
                                    }
                                },
                            }
                        }
                    },
                }
            },
        },
{
    let detail = match resolved {
        None => {
            if link_when_unavailable {
                let record = manual_match_record(game.guild_id.as_str(), mode, riot_match_id);
                return Ok(
                    SyncPlan {
                        record: Some(record),
                        outcome: MatchSyncOutcome::LinkedManual {
                            riot_match_id: riot_match_id.to_owned(),
                        },
                    },
                );
            }
            return Ok(
                SyncPlan {
                    record: None,
                    outcome: MatchSyncOutcome::Unavailable {
                        riot_match_id: riot_match_id.to_owned(),
                    },
                },
            );
        },
        Some(d) => d,
    };
    validate_match_mode(mode, &detail)?;
    let stored = stored_winner(game)?;
    let derived = derive_winner(&detail);
    match (stored, derived) {
        (Some(s), Some(d)) => {
            if s != d {
                let mut m = String::new();
                append(&mut m, "Riot winner ");
                append(&mut m, d.as_str());
                append(&mut m, " conflicts with stored winner ");
                append(&mut m, s.as_str());
                append(&mut m, " for ");
                append(&mut m, game_id.as_str());
                append(&mut m, ".");
                return Err(HandlerError::UserFacing(m));
            }
        },
        _ => {},
    }
    let record = build_match_record(game, roster, detail)?;
    let id = record.riot_match_id.clone();
    let count = record.participants.len();
    Ok(
        SyncPlan {
            record: Some(record),
            outcome: MatchSyncOutcome::Hydrated { riot_match_id: id, participant_count: count },
        },
    )
}

} // verus!
