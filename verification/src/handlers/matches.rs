//! Riot match data checked against a game and turned into the record that is stored.
use crate::domain::modes::{mode_accepts_queue, mode_from_name, mode_name, GameModeKind, QueueId};
use crate::domain::state::TeamSide;
use crate::handlers::format::invalid_stored_mode;
use crate::handlers::types::{HandlerError, ResolvedRiotMatch, ResolvedRiotParticipant};
use crate::storage::models::{
    invalid_mode_message, roster_team_spec, GameRow, MatchRecord, ParticipantRecord, RosterPlayer,
};
use crate::text::{append, decimal, str_eq, u64_to_decimal};
use vstd::prelude::*;

verus! {

/// Team 100 is blue and team 200 red.
pub open spec fn side_of_team(team_id: Option<u16>) -> Option<TeamSide> {
    match team_id {
        Some(100) => Some(TeamSide::Blue),
        Some(200) => Some(TeamSide::Red),
        _ => None,
    }
}

pub fn side_from_team_id(team_id: Option<u16>) -> (r: Option<TeamSide>)
    ensures
        r == side_of_team(team_id),
{
    match team_id {
        Some(100) => Some(TeamSide::Blue),
        Some(200) => Some(TeamSide::Red),
        _ => None,
    }
}

// ---------------------------------------------------------------------------
// Winner
// ---------------------------------------------------------------------------

/// The side of the first participant that won and stands on a known team.
pub open spec fn winner_of(parts: Seq<ResolvedRiotParticipant>) -> Option<TeamSide>
    decreases parts.len(),
{
    if parts.len() == 0 {
        None
    } else if parts[0].win == Some(true) && side_of_team(parts[0].team_id) is Some {
        side_of_team(parts[0].team_id)
    } else {
        winner_of(parts.drop_first())
    }
}

pub fn derive_winner(match_detail: &ResolvedRiotMatch) -> (r: Option<TeamSide>)
    ensures
        r == winner_of(match_detail.participants@),
{
    let parts = &match_detail.participants;
    assert(parts@.subrange(0, parts@.len() as int) =~= parts@);
    let mut i: usize = 0;
    while i < parts.len()
        invariant
            i <= parts@.len(),
            parts@ == match_detail.participants@,
            winner_of(parts@) == winner_of(parts@.subrange(i as int, parts@.len() as int)),
        decreases parts@.len() - i,
    {
        let ghost rest = parts@.subrange(i as int, parts@.len() as int);
        assert(rest.drop_first() =~= parts@.subrange(i + 1, parts@.len() as int));
        assert(rest[0] == parts@[i as int]);
        let won = match parts[i].win {
            Some(w) => w,
            None => false,
        };
        if won {
            let side = side_from_team_id(parts[i].team_id);
            if side.is_some() {
                assert(winner_of(rest) == side);
                return side;
            }
        }
        i += 1;
    }
    None
}

// ---------------------------------------------------------------------------
// Mode
// ---------------------------------------------------------------------------

/// `{:?}` of an optional queue id: `Some(450)` or `None`.
pub open spec fn debug_queue(q: Option<u16>) -> Seq<char> {
    match q {
        Some(v) => "Some("@ + decimal(v as nat) + ")"@,
        None => "None"@,
    }
}

pub fn debug_queue_text(q: Option<u16>) -> (r: String)
    ensures
        r@ == debug_queue(q),
{
    match q {
        Some(v) => {
            let mut s = String::new();
            append(&mut s, "Some(");
            let d = u64_to_decimal(v as u64);
            append(&mut s, d.as_str());
            append(&mut s, ")");
            s
        },
        None => "None".to_owned(),
    }
}

pub open spec fn queue_of(q: Option<u16>) -> Option<QueueId> {
    match q {
        Some(v) => Some(QueueId(v)),
        None => None,
    }
}

pub open spec fn queue_mismatch_message(expected: GameModeKind, q: Option<u16>) -> Seq<char> {
    "Riot match queue "@ + debug_queue(q) + " does not match expected mode "@ + mode_name(expected)
        + "."@
}

/// The match must come from a queue that the game's mode accepts.
pub fn validate_match_mode(expected: GameModeKind, match_detail: &ResolvedRiotMatch) -> (r: Result<
    (),
    HandlerError,
>)
    ensures
        mode_accepts_queue(expected, queue_of(match_detail.queue_id)) ==> r is Ok,
        !mode_accepts_queue(expected, queue_of(match_detail.queue_id)) ==> (r matches Err(
            HandlerError::UserFacing(m),
        ) && m@ == queue_mismatch_message(expected, match_detail.queue_id)),
{
    let queue_id = match match_detail.queue_id {
        Some(v) => Some(QueueId(v)),
        None => None,
    };
    if expected.accepts_queue(queue_id) {
        Ok(())
    } else {
        let mut m = String::new();
        append(&mut m, "Riot match queue ");
        let q = debug_queue_text(match_detail.queue_id);
        append(&mut m, q.as_str());
        append(&mut m, " does not match expected mode ");
        append(&mut m, expected.as_str());
        append(&mut m, ".");
        Err(HandlerError::UserFacing(m))
    }
}

// ---------------------------------------------------------------------------
// Roster against participants
// ---------------------------------------------------------------------------

pub open spec fn has_puuid(p: RosterPlayer, puuid: Seq<char>) -> bool {
    p.riot_puuid matches Some(x) && x@ == puuid
}

/// The roster player that a Riot account belongs to; the last one when several claim it.
pub open spec fn roster_owner(roster: Seq<RosterPlayer>, puuid: Seq<char>) -> Option<RosterPlayer>
    decreases roster.len(),
{
    if roster.len() == 0 {
        None
    } else if has_puuid(roster.last(), puuid) {
        Some(roster.last())
    } else {
        roster_owner(roster.drop_last(), puuid)
    }
}

pub open spec fn participant_puuids(parts: Seq<ResolvedRiotParticipant>) -> Seq<Seq<char>> {
    parts.map_values(|p: ResolvedRiotParticipant| p.puuid@)
}

/// Whether some earlier roster player has the same Riot account.
pub open spec fn puuid_seen(roster: Seq<RosterPlayer>, puuid: Seq<char>) -> bool {
    exists|i: int| 0 <= i < roster.len() && has_puuid(#[trigger] roster[i], puuid)
}

/// How many distinct Riot accounts of the roster are not among the match's participants.
pub open spec fn missing_count(roster: Seq<RosterPlayer>, puuids: Seq<Seq<char>>) -> nat
    decreases roster.len(),
{
    if roster.len() == 0 {
        0
    } else {
        missing_count(roster.drop_last(), puuids) + match roster.last().riot_puuid {
            Some(p) => if !puuids.contains(p@) && !puuid_seen(roster.drop_last(), p@) {
                1nat
            } else {
                0nat
            },
            None => 0nat,
        }
    }
}

fn participants_contain(parts: &Vec<ResolvedRiotParticipant>, puuid: &str) -> (r: bool)
    ensures
        r == participant_puuids(parts@).contains(puuid@),
{
    let ghost ps = participant_puuids(parts@);
    let mut i: usize = 0;
    while i < parts.len()
        invariant
            i <= parts@.len(),
            ps == participant_puuids(parts@),
            forall|k: int| 0 <= k < i ==> ps[k] != puuid@,
        decreases parts@.len() - i,
    {
        if str_eq(parts[i].puuid.as_str(), puuid) {
            assert(ps[i as int] == puuid@);
            return true;
        }
        i += 1;
    }
    false
}

fn roster_has_puuid_before(roster: &[RosterPlayer], n: usize, puuid: &str) -> (r: bool)
    requires
        n <= roster@.len(),
    ensures
        r == puuid_seen(roster@.take(n as int), puuid@),
{
    let mut i: usize = 0;
    while i < n
        invariant
            i <= n <= roster@.len(),
            forall|k: int| 0 <= k < i ==> !has_puuid(roster@[k], puuid@),
        decreases n - i,
    {
        match &roster[i].riot_puuid {
            Some(p) => {
                if str_eq(p.as_str(), puuid) {
                    assert(roster@.take(n as int)[i as int] == roster@[i as int]);
                    return true;
                }
            },
            None => {},
        }
        i += 1;
    }
    assert forall|k: int| 0 <= k < n implies !has_puuid(#[trigger] roster@.take(n as int)[k], puuid@) by {
        assert(roster@.take(n as int)[k] == roster@[k]);
    }
    false
}

/// How many distinct Riot accounts of the roster the match does not include.
pub fn missing_roster_puuids(roster: &[RosterPlayer], parts: &Vec<ResolvedRiotParticipant>) -> (r:
    usize)
    ensures
        r == missing_count(roster@, participant_puuids(parts@)),
{
    let ghost ps = participant_puuids(parts@);
    let mut count: usize = 0;
    let mut i: usize = 0;
    while i < roster.len()
        invariant
            i <= roster@.len(),
            ps == participant_puuids(parts@),
            count == missing_count(roster@.take(i as int), ps),
            count <= i,
        decreases roster@.len() - i,
    {
        proof {
            assert(roster@.take(i + 1).drop_last() =~= roster@.take(i as int));
        }
        match &roster[i].riot_puuid {
            Some(p) => {
                if !participants_contain(parts, p.as_str()) && !roster_has_puuid_before(
                    roster,
                    i,
                    p.as_str(),
                ) {
                    count = count + 1;
                }
            },
            None => {},
        }
        i += 1;
    }
    assert(roster@.take(roster@.len() as int) =~= roster@);
    count
}

fn find_owner(roster: &[RosterPlayer], puuid: &str) -> (r: Option<usize>)
    ensures
        match r {
            Some(k) => k < roster@.len() && roster_owner(roster@, puuid@) == Some(roster@[k as int]),
            None => roster_owner(roster@, puuid@) is None,
        },
{
    let mut i: usize = roster.len();
    assert(roster@.take(roster@.len() as int) =~= roster@);
    while i > 0
        invariant
            i <= roster@.len(),
            roster_owner(roster@, puuid@) == roster_owner(roster@.take(i as int), puuid@),
        decreases i,
    {
        let ghost pre = roster@.take(i as int);
        assert(pre.drop_last() =~= roster@.take(i - 1));
        assert(pre.last() == roster@[i - 1]);
        i -= 1;
        match &roster[i].riot_puuid {
            Some(p) => {
                if str_eq(p.as_str(), puuid) {
                    return Some(i);
                }
            },
            None => {},
        }
    }
    None
}

// ---------------------------------------------------------------------------
// Records
// ---------------------------------------------------------------------------

pub open spec fn widen16(v: Option<u16>) -> Option<i64> {
    match v {
        Some(x) => Some(x as i64),
        None => None,
    }
}

pub open spec fn widen32(v: Option<u32>) -> Option<i64> {
    match v {
        Some(x) => Some(x as i64),
        None => None,
    }
}

fn widen16_exec(v: Option<u16>) -> (r: Option<i64>)
    ensures
        r == widen16(v),
{
    match v {
        Some(x) => Some(x as i64),
        None => None,
    }
}

fn widen32_exec(v: Option<u32>) -> (r: Option<i64>)
    ensures
        r == widen32(v),
{
    match v {
        Some(x) => Some(x as i64),
        None => None,
    }
}

pub fn clone_opt_string(v: &Option<String>) -> (r: Option<String>)
    ensures
        r == *v,
{
    match v {
        Some(s) => Some(s.clone()),
        None => None,
    }
}

/// The stored row of one participant: its Riot fields, the roster player it belongs to, and
/// its side from the team id, else from that roster player.
pub open spec fn participant_record_ok(
    r: ParticipantRecord,
    p: ResolvedRiotParticipant,
    roster: Seq<RosterPlayer>,
) -> bool {
    let owner = roster_owner(roster, p.puuid@);
    &&& r.puuid == p.puuid
    &&& r.discord_user_id == match owner {
        Some(o) => Some(o.discord_user_id),
        None => None,
    }
    &&& r.team == match side_of_team(p.team_id) {
        Some(s) => Some(s),
        None => match owner {
            Some(o) => roster_team_spec(o),
            None => None,
        },
    }
    &&& r.champion_id == widen16(p.champion_id)
    &&& r.champion_name == p.champion_name
    &&& r.win == p.win
    &&& r.kills == widen16(p.kills)
    &&& r.deaths == widen16(p.deaths)
    &&& r.assists == widen16(p.assists)
    &&& r.total_damage == widen32(p.total_damage)
    &&& r.gold_earned == widen32(p.gold_earned)
    &&& r.total_minions == widen32(p.total_minions)
    &&& r.vision_score == widen32(p.vision_score)
    &&& r.raw_json == p.raw_json
}

pub fn participant_record(p: &ResolvedRiotParticipant, roster: &[RosterPlayer]) -> (r:
    ParticipantRecord)
    ensures
        participant_record_ok(r, *p, roster@),
{
    let owner = find_owner(roster, p.puuid.as_str());
    let discord_user_id = match owner {
        Some(k) => Some(roster[k].discord_user_id.clone()),
        None => None,
    };
    let team = match side_from_team_id(p.team_id) {
        Some(s) => Some(s),
        None => match owner {
            Some(k) => roster[k].team_side(),
            None => None,
        },
    };
    ParticipantRecord {
        puuid: p.puuid.clone(),
        discord_user_id,
        team,
        champion_id: widen16_exec(p.champion_id),
        champion_name: clone_opt_string(&p.champion_name),
        win: p.win,
        kills: widen16_exec(p.kills),
        deaths: widen16_exec(p.deaths),
        assists: widen16_exec(p.assists),
        total_damage: widen32_exec(p.total_damage),
        gold_earned: widen32_exec(p.gold_earned),
        total_minions: widen32_exec(p.total_minions),
        vision_score: widen32_exec(p.vision_score),
        raw_json: clone_opt_string(&p.raw_json),
    }
}

/// The stored record of a Riot match for a game in a guild and mode.
pub open spec fn match_record_ok(
    r: MatchRecord,
    guild_id: String,
    mode: GameModeKind,
    m: ResolvedRiotMatch,
    roster: Seq<RosterPlayer>,
) -> bool {
    &&& r.riot_match_id == m.riot_match_id
    &&& r.guild_id == guild_id
    &&& r.mode == mode
    &&& r.queue_id == widen16(m.queue_id)
    &&& r.map_id == widen16(m.map_id)
    &&& r.riot_game_mode == m.game_mode
    &&& r.riot_game_type == m.game_type
    &&& r.data_source@ == "match_v5"@
    &&& r.payload_json == m.payload_json
    &&& r.participants@.len() == m.participants@.len()
    &&& forall|i: int|
        0 <= i < m.participants@.len() ==> participant_record_ok(
            #[trigger] r.participants@[i],
            m.participants@[i],
            roster,
        )
}

/// Builds the stored record from Riot data, once the roster is known to be complete in it.
pub fn match_record_from(
    guild_id: &String,
    mode: GameModeKind,
    roster: &[RosterPlayer],
    match_detail: &ResolvedRiotMatch,
) -> (r: MatchRecord)
    ensures
        match_record_ok(r, *guild_id, mode, *match_detail, roster@),
{
    let mut participants: Vec<ParticipantRecord> = Vec::new();
    let mut i: usize = 0;
    while i < match_detail.participants.len()
        invariant
            i <= match_detail.participants@.len(),
            participants@.len() == i,
            forall|k: int|
                0 <= k < i ==> participant_record_ok(
                    #[trigger] participants@[k],
                    match_detail.participants@[k],
                    roster@,
                ),
        decreases match_detail.participants@.len() - i,
    {
        let rec = participant_record(&match_detail.participants[i], roster);
        participants.push(rec);
        i += 1;
    }
    MatchRecord {
        riot_match_id: match_detail.riot_match_id.clone(),
        guild_id: guild_id.clone(),
        mode,
        queue_id: widen16_exec(match_detail.queue_id),
        map_id: widen16_exec(match_detail.map_id),
        riot_game_mode: clone_opt_string(&match_detail.game_mode),
        riot_game_type: clone_opt_string(&match_detail.game_type),
        data_source: "match_v5".to_owned(),
        payload_json: clone_opt_string(&match_detail.payload_json),
        participants,
    }
}

pub open spec fn missing_players_message(n: nat) -> Seq<char> {
    "Riot match is missing "@ + decimal(n) + " registered roster player(s)."@
}

/// The record of a Riot match for a game: refused when the stored mode does not parse, or when
/// a registered roster account is absent from the match.
pub fn build_match_record(
    game: &GameRow,
    roster: &[RosterPlayer],
    match_detail: ResolvedRiotMatch,
) -> (r: Result<MatchRecord, HandlerError>)
    ensures
        match mode_from_name(game.mode@) {
            None => r matches Err(HandlerError::UserFacing(m)) && m@ == "Invalid stored mode: "@
                + invalid_mode_message(game.mode@),
            Some(mode) => {
                let missing = missing_count(roster@, participant_puuids(match_detail.participants@));
                if missing > 0 {
                    r matches Err(HandlerError::UserFacing(m)) && m@ == missing_players_message(
                        missing,
                    )
                } else {
                    r matches Ok(rec) && match_record_ok(
                        rec,
                        game.guild_id,
                        mode,
                        match_detail,
                        roster@,
                    )
                }
            },
        },
{
    let mode = match game.mode() {
        Ok(m) => m,
        Err(e) => return Err(invalid_stored_mode(e)),
    };
    let missing = missing_roster_puuids(roster, &match_detail.participants);
    if missing > 0 {
        let mut m = String::new();
        append(&mut m, "Riot match is missing ");
        let n = u64_to_decimal(missing as u64);
        append(&mut m, n.as_str());
        append(&mut m, " registered roster player(s).");
        return Err(HandlerError::UserFacing(m));
    }
    Ok(match_record_from(&game.guild_id, mode, roster, &match_detail))
}

/// The record of a match linked by hand, without Riot data.
pub fn manual_match_record(guild_id: &str, mode: GameModeKind, riot_match_id: &str) -> (r:
    MatchRecord)
    ensures
        r.riot_match_id@ == riot_match_id@,
        r.guild_id@ == guild_id@,
        r.mode == mode,
        r.queue_id is None && r.map_id is None,
        r.riot_game_mode is None && r.riot_game_type is None,
        r.data_source@ == "manual"@,
        r.payload_json is None,
        r.participants@.len() == 0,
{
    MatchRecord {
        riot_match_id: riot_match_id.to_owned(),
        guild_id: guild_id.to_owned(),
        mode,
        queue_id: None,
        map_id: None,
        riot_game_mode: None,
        riot_game_type: None,
        data_source: "manual".to_owned(),
        payload_json: None,
        participants: Vec::new(),
    }
}

} // verus!
