//! What each game command decides between its reads and writes of the store: which game it
//! acts on, whether the game's state allows the command, what is written, and the reply.
use crate::discord::command::StatsCommand;
use crate::domain::ids::{DiscordUserId, GameId};
use crate::domain::modes::{mode_from_name, mode_name, GameModeKind};
use crate::domain::shuffle::{ShuffleError, TeamAssignment};
use crate::domain::state::{
    game_status_from_name, is_closed_status, team_side_from_name,
    team_side_name, GameStatus, TeamSide,
};
use crate::handlers::format::{
    assignments_text, format_assignments, invalid_stored_mode, invalid_stored_status,
    invalid_stored_status_message, mention, mention_spec, side_members, team_card,
    wrong_guild_error, wrong_guild_message,
};
use crate::handlers::types::{
    user_facing, CommandAudience, CommandContext, CommandResponse, HandlerError,
    ResolvedRiotAccount, TeamCard,
};
use crate::riot::account::{parse_riot_id, riot_id_spec, RiotIdParts};
use crate::storage::models::{
    invalid_mode_message, GameRow, NewGame, NewPlayer, RosterPlayer, StorageError,
};
use crate::worker::{random_bytes, xorshift};
use crate::text::{append, decimal, is_ascii_alphanumeric, join_texts, join_with, str_eq, text_views, u64_to_decimal};
use vstd::prelude::*;

verus! {

/// The card shows the game, its mode and both teams in assignment order.
pub open spec fn team_card_ok(
    card: Option<TeamCard>,
    game_id: GameId,
    mode: GameModeKind,
    assignments: Seq<TeamAssignment>,
) -> bool {
    card matches Some(c) && c.game_id == game_id && c.mode == mode && c.red@ == side_members(
        assignments,
        TeamSide::Red,
    ) && c.blue@ == side_members(assignments, TeamSide::Blue)
}

/// The reply of a user-facing refusal with this text.
pub open spec fn refused_with<T>(r: Result<T, HandlerError>, text: Seq<char>) -> bool {
    r matches Err(HandlerError::UserFacing(m)) && m@ == text
}

// ---------------------------------------------------------------------------
// Game ids
// ---------------------------------------------------------------------------

/// A character of nanoid's URL-safe alphabet: `_`, `-`, a digit or an ASCII letter.
pub open spec fn is_safe_char(c: char) -> bool {
    c == '_' || c == '-' || is_ascii_alphanumeric(c)
}

/// Where the stand-in sequence for game-id bytes starts before any system bytes are mixed in.
pub const GAME_ID_FALLBACK_SEED: u64 = 0x9e37_79b9_7f4a_7c15;

/// `size` random bytes for a game id, from the system's source of randomness four at a time.
/// Each word that comes is mixed into an xorshift state; should the system fail partway, that
/// state stands in for the missing words, so that the bytes always come. Which bytes come is
/// chance; that there are `size` of them is what is claimed.
fn game_id_bytes(size: usize) -> (r: Vec<u8>)
    ensures
        r@.len() == size,
{
    let mut out: Vec<u8> = Vec::new();
    let mut state: u64 = GAME_ID_FALLBACK_SEED;
    while out.len() < size
        invariant
            out@.len() <= size,
        decreases size - out@.len(),
    {
        let chunk: Vec<u8> = match random_bytes() {
            Some(b) => {
                let word: u64 = (b[0] as u64) | ((b[1] as u64) << 8u64) | ((b[2] as u64) << 16u64)
                    | ((b[3] as u64) << 24u64);
                state = xorshift(state ^ word);
                b
            },
            None => {
                state = xorshift(state);
                let mut v: Vec<u8> = Vec::new();
                v.push((state % 256) as u8);
                v.push(((state >> 8u64) % 256) as u8);
                v.push(((state >> 16u64) % 256) as u8);
                v.push(((state >> 24u64) % 256) as u8);
                v
            },
        };
        let mut k: usize = 0;
        let ghost start = out@.len();
        while k < chunk.len() && out.len() < size
            invariant
                chunk@.len() == 4,
                k <= chunk@.len(),
                out@.len() <= size,
                out@.len() == start + k,
                start < size,
            decreases chunk@.len() - k,
        {
            out.push(chunk[k]);
            k += 1;
        }
    }
    out
}

/// Draws ten characters with `nanoid::format(game_id_bytes, &nanoid::alphabet::SAFE, 10)`.
/// The crate's source asserts that the alphabet has at most 255 characters (`SAFE` has 64),
/// asks the byte source for 16 bytes at a time and pushes `SAFE[byte & 63]` for each until the
/// string holds ten characters. With 64 characters every byte gives one, and `game_id_bytes`
/// always returns as many bytes as asked, so the call returns after the first ten. Which
/// characters come depends on the random bytes, so only their number and alphabet are claimed.
#[verifier::external_body]
fn nanoid_safe_10() -> (r: String)
    ensures
        r@.len() == 10,
        forall|i: int| 0 <= i < 10 ==> is_safe_char(#[trigger] r@[i]),
{
    nanoid::format(game_id_bytes, &nanoid::alphabet::SAFE, 10)
}

/// The refusal when no game id can be drawn.
pub open spec fn no_randomness_message() -> Seq<char> {
    "Could not draw a game id: the system has no source of randomness."@
}

/// Whether a game id can be drawn, given what the system's source of randomness gave when it
/// was tried: refused when it gave nothing.
pub fn randomness_check(probe: &Option<Vec<u8>>) -> (r: Result<(), HandlerError>)
    ensures
        probe is None ==> refused_with(r, no_randomness_message()),
        probe is Some ==> r is Ok,
{
    match probe {
        Some(_) => Ok(()),
        None => Err(user_facing("Could not draw a game id: the system has no source of randomness.")),
    }
}

/// The game id made of a drawn tail: `g_` followed by it.
pub fn game_id_from_draw(tail: &str) -> (r: GameId)
    ensures
        r@ == "g_"@ + tail@,
{
    let mut s = String::new();
    append(&mut s, "g_");
    append(&mut s, tail);
    GameId::from_string(s)
}

/// A fresh game id: `g_` and ten random URL-safe characters. The system's source of randomness
/// is tried first; when it has none, no id is drawn and the command is refused.
pub fn new_game_id() -> (r: Result<GameId, HandlerError>)
    ensures
        r matches Err(_) ==> refused_with(r, no_randomness_message()),
        r matches Ok(id) ==> {
            &&& id@.len() == 12
            &&& id@.take(2) == "g_"@
            &&& forall|i: int| 2 <= i < 12 ==> is_safe_char(#[trigger] id@[i])
        },
{
    let probe = random_bytes();
    randomness_check(&probe)?;
    let tail = nanoid_safe_10();
    let id = game_id_from_draw(tail.as_str());
    proof {
        reveal_strlit("g_");
        assert(id@.take(2) =~= "g_"@);
        assert forall|i: int| 2 <= i < 12 implies is_safe_char(#[trigger] id@[i]) by {
            assert(id@[i] == tail@[i - 2]);
        }
    }
    Ok(id)
}

// ---------------------------------------------------------------------------
// Loading games
// ---------------------------------------------------------------------------

/// Picks the game a command acts on: the one asked for by id, else the guild's open game, which
/// the store found or not. A game of another guild is refused.
pub fn game_for_guild(
    requested: Option<GameId>,
    found: Option<GameRow>,
    guild_id: &str,
    no_open_message: &str,
) -> (r: Result<(GameId, GameRow), HandlerError>)
    ensures
        match found {
            None => refused_with(r, no_open_message@),
            Some(g) => if g.guild_id@ != guild_id@ {
                refused_with(r, wrong_guild_message())
            } else {
                r matches Ok((id, game)) && game == g && id@ == match requested {
                    Some(q) => q@,
                    None => g.game_id@,
                }
            },
        },
{
    let game = match found {
        None => return Err(user_facing(no_open_message)),
        Some(g) => g,
    };
    if !str_eq(game.guild_id.as_str(), guild_id) {
        return Err(wrong_guild_error());
    }
    let id = match requested {
        Some(q) => q,
        None => GameId::new(game.game_id.as_str()),
    };
    Ok((id, game))
}

/// The stored status of a game, or the refusal naming what is stored.
pub fn stored_status(game: &GameRow) -> (r: Result<GameStatus, HandlerError>)
    ensures
        match game_status_from_name(game.status@) {
            Some(s) => r matches Ok(t) && t == s,
            None => refused_with(r, invalid_stored_status_message(game.status@)),
        },
{
    match game.status() {
        Ok(s) => Ok(s),
        Err(e) => Err(invalid_stored_status(e)),
    }
}

/// The stored mode of a game, or the refusal naming what is stored.
pub fn stored_mode(game: &GameRow) -> (r: Result<GameModeKind, HandlerError>)
    ensures
        match mode_from_name(game.mode@) {
            Some(m) => r matches Ok(t) && t == m,
            None => refused_with(r, "Invalid stored mode: "@ + invalid_mode_message(game.mode@)),
        },
{
    match game.mode() {
        Ok(m) => Ok(m),
        Err(e) => Err(invalid_stored_mode(e)),
    }
}

// ---------------------------------------------------------------------------
// Creating games
// ---------------------------------------------------------------------------

/// A new game to store, with the ids of its players.
#[derive(Debug)]
pub struct GamePlan {
    pub game_id: GameId,
    pub new_game: NewGame,
    pub user_ids: Vec<String>,
}

pub open spec fn user_ids_of(users: Seq<DiscordUserId>) -> Seq<Seq<char>> {
    users.map_values(|u: DiscordUserId| u@)
}

/// The game row and player list that creating a game stores.
pub fn game_plan(
    game_id: GameId,
    context: &CommandContext,
    mode: GameModeKind,
    users: &[DiscordUserId],
) -> (r: GamePlan)
    ensures
        r.game_id == game_id,
        r.new_game.game_id@ == game_id@,
        r.new_game.guild_id == context.guild_id,
        r.new_game.channel_id == context.channel_id,
        r.new_game.creator_discord_id == context.actor_id,
        r.new_game.mode == mode,
        r.new_game.now == context.now,
        text_views(r.user_ids@) == user_ids_of(users@),
{
    let mut user_ids: Vec<String> = Vec::new();
    let mut i: usize = 0;
    while i < users.len()
        invariant
            i <= users@.len(),
            text_views(user_ids@) == user_ids_of(users@.take(i as int)),
        decreases users@.len() - i,
    {
        let ghost before = user_ids@;
        user_ids.push(users[i].as_str().to_owned());
        proof {
            assert(text_views(user_ids@) =~= text_views(before).push(users@[i as int]@));
            assert(user_ids_of(users@.take(i + 1)) =~= user_ids_of(users@.take(i as int)).push(
                users@[i as int]@,
            ));
        }
        i += 1;
    }
    assert(users@.take(users@.len() as int) =~= users@);
    let new_game = NewGame {
        game_id: game_id.as_str().to_owned(),
        guild_id: context.guild_id.clone(),
        channel_id: context.channel_id.clone(),
        creator_discord_id: context.actor_id.clone(),
        mode,
        now: context.now,
    };
    GamePlan { game_id, new_game, user_ids }
}

/// `Cannot randomize: ...` for a roster that cannot be split.
pub fn cannot_randomize(err: ShuffleError) -> (r: HandlerError)
    ensures
        r matches HandlerError::UserFacing(m) && m@ == "Cannot randomize: "@ + err.message_spec(),
{
    let mut m = String::new();
    append(&mut m, "Cannot randomize: ");
    append(&mut m, err.message());
    HandlerError::UserFacing(m)
}

/// A store refusal of a second open game becomes the given user-facing text; any other store
/// error stays a store error.
pub fn create_game_error(err: StorageError, open_game_message: &str) -> (r: HandlerError)
    ensures
        err is ActiveGameExists ==> (r matches HandlerError::UserFacing(m) && m@
            == open_game_message@),
        !(err is ActiveGameExists) ==> r == HandlerError::Storage(err),
{
    match err {
        StorageError::ActiveGameExists => user_facing(open_game_message),
        other => HandlerError::Storage(other),
    }
}

pub open spec fn created_text(game_id: Seq<char>, mode: GameModeKind) -> Seq<char> {
    "Created game `"@ + game_id + "` ("@ + mode_name(mode) + ")"@
}

/// The public reply to `/create`, with the team card.
pub fn created_response(game_id: &GameId, mode: GameModeKind, assignments: &[TeamAssignment]) -> (r:
    CommandResponse)
    ensures
        r.content@ == created_text(game_id@, mode),
        r.audience == CommandAudience::Public,
        r.team_card matches Some(c) && c.game_id == *game_id && c.mode == mode && c.red@
            == side_members(assignments@, TeamSide::Red) && c.blue@ == side_members(
            assignments@,
            TeamSide::Blue,
        ),
        r.stats_card is None && r.stats_overview_card is None,
{
    let mut s = String::new();
    append(&mut s, "Created game `");
    append(&mut s, game_id.as_str());
    append(&mut s, "` (");
    append(&mut s, mode.as_str());
    append(&mut s, ")");
    CommandResponse::public(s).with_team_card(team_card(game_id, mode, assignments))
}

pub open spec fn game_created_text(
    game_id: Seq<char>,
    mode: GameModeKind,
    count: nat,
    assignments: Option<Seq<TeamAssignment>>,
) -> Seq<char> {
    let head = "Created "@ + game_id + " in "@ + mode_name(mode) + " with "@ + decimal(count)
        + " players."@;
    match assignments {
        Some(a) => head + "\n"@ + assignments_text(a),
        None => head
            + " Add one more player before randomizing. Riot match id is pending until Spectator sees the live game."@,
    }
}

/// The reply to `/game`: with the teams when the roster was even and split, else a note that
/// one more player is needed.
pub fn game_created_reply(
    game_id: &GameId,
    mode: GameModeKind,
    count: usize,
    assignments: Option<&[TeamAssignment]>,
) -> (r: String)
    ensures
        r@ == game_created_text(
            game_id@,
            mode,
            count as nat,
            match assignments {
                Some(a) => Some(a@),
                None => None,
            },
        ),
{
    let mut s = String::new();
    append(&mut s, "Created ");
    append(&mut s, game_id.as_str());
    append(&mut s, " in ");
    append(&mut s, mode.as_str());
    append(&mut s, " with ");
    let n = u64_to_decimal(count as u64);
    append(&mut s, n.as_str());
    append(&mut s, " players.");
    match assignments {
        Some(a) => {
            append(&mut s, "\n");
            let t = format_assignments(a);
            append(&mut s, t.as_str());
        },
        None => {
            append(
                &mut s,
                " Add one more player before randomizing. Riot match id is pending until Spectator sees the live game.",
            );
        },
    }
    s
}

// ---------------------------------------------------------------------------
// Rosters
// ---------------------------------------------------------------------------

pub open spec fn roster_ids_of(roster: Seq<RosterPlayer>) -> Seq<Seq<char>> {
    roster.map_values(|p: RosterPlayer| p.discord_user_id@)
}

/// The users of a roster, in roster order.
pub fn roster_users(roster: &[RosterPlayer]) -> (r: Vec<DiscordUserId>)
    ensures
        user_ids_of(r@) == roster_ids_of(roster@),
{
    let mut r: Vec<DiscordUserId> = Vec::new();
    let mut i: usize = 0;
    while i < roster.len()
        invariant
            i <= roster@.len(),
            user_ids_of(r@) == roster_ids_of(roster@.take(i as int)),
        decreases roster@.len() - i,
    {
        let ghost before = r@;
        r.push(DiscordUserId::new(roster[i].discord_user_id.as_str()));
        proof {
            assert(user_ids_of(r@) =~= user_ids_of(before).push(roster@[i as int].discord_user_id@));
            assert(roster_ids_of(roster@.take(i + 1)) =~= roster_ids_of(roster@.take(i as int)).push(
                roster@[i as int].discord_user_id@,
            ));
        }
        i += 1;
    }
    assert(roster@.take(roster@.len() as int) =~= roster@);
    r
}

/// The user ids of a roster, in roster order.
pub fn roster_user_ids(roster: &[RosterPlayer]) -> (r: Vec<String>)
    ensures
        text_views(r@) == roster_ids_of(roster@),
{
    let mut r: Vec<String> = Vec::new();
    let mut i: usize = 0;
    while i < roster.len()
        invariant
            i <= roster@.len(),
            text_views(r@) == roster_ids_of(roster@.take(i as int)),
        decreases roster@.len() - i,
    {
        let ghost before = r@;
        r.push(roster[i].discord_user_id.clone());
        proof {
            assert(text_views(r@) =~= text_views(before).push(roster@[i as int].discord_user_id@));
            assert(roster_ids_of(roster@.take(i + 1)) =~= roster_ids_of(roster@.take(i as int)).push(
                roster@[i as int].discord_user_id@,
            ));
        }
        i += 1;
    }
    assert(roster@.take(roster@.len() as int) =~= roster@);
    r
}

// ---------------------------------------------------------------------------
// Adding players
// ---------------------------------------------------------------------------

/// Players can be added while the lobby is open or teams are drawn.
pub fn add_status_check(game: &GameRow) -> (r: Result<GameStatus, HandlerError>)
    ensures
        match game_status_from_name(game.status@) {
            None => refused_with(r, invalid_stored_status_message(game.status@)),
            Some(s) => if s == GameStatus::Lobby || s == GameStatus::Randomized {
                r matches Ok(t) && t == s
            } else {
                refused_with(r, "Cannot add players after the lobby is locked."@)
            },
        },
{
    let status = stored_status(game)?;
    match status {
        GameStatus::Lobby | GameStatus::Randomized => Ok(status),
        _ => Err(user_facing("Cannot add players after the lobby is locked.")),
    }
}

/// The first of the users, in order, who is already on the roster.
pub open spec fn first_on_roster(users: Seq<DiscordUserId>, roster: Seq<RosterPlayer>) -> Option<
    int,
>
    decreases users.len(),
{
    if users.len() == 0 {
        None
    } else {
        match first_on_roster(users.drop_last(), roster) {
            Some(i) => Some(i),
            None => if roster_ids_of(roster).contains(users.last()@) {
                Some(users.len() - 1)
            } else {
                None
            },
        }
    }
}

pub open spec fn already_in_message(user: Seq<char>, game_id: Seq<char>) -> Seq<char> {
    mention_spec(user) + " is already in "@ + game_id + "."@
}

fn roster_contains(roster: &[RosterPlayer], id: &str) -> (r: bool)
    ensures
        r == roster_ids_of(roster@).contains(id@),
{
    let ghost ids = roster_ids_of(roster@);
    let mut i: usize = 0;
    while i < roster.len()
        invariant
            i <= roster@.len(),
            ids == roster_ids_of(roster@),
            forall|k: int| 0 <= k < i ==> ids[k] != id@,
        decreases roster@.len() - i,
    {
        if str_eq(roster[i].discord_user_id.as_str(), id) {
            assert(ids[i as int] == id@);
            return true;
        }
        i += 1;
    }
    false
}

proof fn lemma_first_on_roster_prefix(users: Seq<DiscordUserId>, roster: Seq<RosterPlayer>, n: int)
    requires
        0 <= n <= users.len(),
        first_on_roster(users.take(n), roster) is Some,
    ensures
        first_on_roster(users, roster) == first_on_roster(users.take(n), roster),
    decreases users.len(),
{
    if n < users.len() {
        assert(users.drop_last().take(n) =~= users.take(n));
        lemma_first_on_roster_prefix(users.drop_last(), roster, n);
    } else {
        assert(users.take(n) =~= users);
    }
}

/// Refuses adding a user who is already on the roster, naming the first such user.
pub fn ensure_not_in_roster(roster: &[RosterPlayer], users: &[DiscordUserId], game_id: &GameId) -> (r:
    Result<(), HandlerError>)
    ensures
        match first_on_roster(users@, roster@) {
            None => r is Ok,
            Some(i) => refused_with(r, already_in_message(users@[i]@, game_id@)),
        },
{
    let mut i: usize = 0;
    while i < users.len()
        invariant
            i <= users@.len(),
            first_on_roster(users@.take(i as int), roster@) is None,
        decreases users@.len() - i,
    {
        proof {
            assert(users@.take(i + 1).drop_last() =~= users@.take(i as int));
        }
        if roster_contains(roster, users[i].as_str()) {
            proof {
                lemma_first_on_roster_prefix(users@, roster@, i + 1);
            }
            let mut m = mention(users[i].as_str());
            append(&mut m, " is already in ");
            append(&mut m, game_id.as_str());
            append(&mut m, ".");
            return Err(HandlerError::UserFacing(m));
        }
        i += 1;
    }
    assert(users@.take(users@.len() as int) =~= users@);
    Ok(())
}

pub open spec fn mentions_spec(users: Seq<DiscordUserId>) -> Seq<char> {
    join_with(users.map_values(|u: DiscordUserId| mention_spec(u@)), ", "@)
}

/// The users' mentions joined by `, `.
pub fn mentions_text(users: &[DiscordUserId]) -> (r: String)
    ensures
        r@ == mentions_spec(users@),
{
    let mut parts: Vec<String> = Vec::new();
    let mut i: usize = 0;
    while i < users.len()
        invariant
            i <= users@.len(),
            text_views(parts@) == users@.take(i as int).map_values(
                |u: DiscordUserId| mention_spec(u@),
            ),
        decreases users@.len() - i,
    {
        let ghost before = parts@;
        let m = mention(users[i].as_str());
        parts.push(m);
        proof {
            assert(text_views(parts@) =~= text_views(before).push(m@));
            assert(users@.take(i + 1).map_values(|u: DiscordUserId| mention_spec(u@))
                =~= users@.take(i as int).map_values(|u: DiscordUserId| mention_spec(u@)).push(
                mention_spec(users@[i as int]@),
            ));
        }
        i += 1;
    }
    assert(users@.take(users@.len() as int) =~= users@);
    join_texts(&parts, ", ")
}

pub open spec fn added_odd_text(mentions: Seq<char>, game_id: Seq<char>, count: nat) -> Seq<char> {
    "Added "@ + mentions + " to "@ + game_id + ". Roster has "@ + decimal(count)
        + " players; add one more before teams are assigned."@
}

/// The reply when the roster is odd after adding players.
pub fn added_odd_reply(mentions: &str, game_id: &GameId, count: usize) -> (r: String)
    ensures
        r@ == added_odd_text(mentions@, game_id@, count as nat),
{
    let mut s = String::new();
    append(&mut s, "Added ");
    append(&mut s, mentions);
    append(&mut s, " to ");
    append(&mut s, game_id.as_str());
    append(&mut s, ". Roster has ");
    let n = u64_to_decimal(count as u64);
    append(&mut s, n.as_str());
    append(&mut s, " players; add one more before teams are assigned.");
    s
}

/// What `/add` does once the players are in: with an odd roster it waits for one more player and
/// says so; with an even one it randomizes the whole roster, in roster order.
pub enum AddStep {
    Waiting { reply: String },
    Randomize { users: Vec<DiscordUserId> },
}

/// The step after `/add` stored its players, given the roster as it now stands.
pub fn add_step(mentions: &str, game_id: &GameId, roster: &[RosterPlayer]) -> (r: AddStep)
    ensures
        roster@.len() % 2 != 0 ==> (r matches AddStep::Waiting { reply } && reply@
            == added_odd_text(mentions@, game_id@, roster@.len())),
        roster@.len() % 2 == 0 ==> (r matches AddStep::Randomize { users } && user_ids_of(users@)
            == roster_ids_of(roster@)),
{
    let count = roster.len();
    if count % 2 != 0 {
        AddStep::Waiting { reply: added_odd_reply(mentions, game_id, count) }
    } else {
        AddStep::Randomize { users: roster_users(roster) }
    }
}

pub open spec fn added_text(mentions: Seq<char>, game_id: Seq<char>, status: GameStatus) -> Seq<char> {
    "Added "@ + mentions + " to `"@ + game_id + "`. "@ + if status == GameStatus::Randomized {
        "Teams were re-randomized."@
    } else {
        "Teams were randomized."@
    }
}

/// The reply once the new even roster is split: re-randomized when teams existed before, with
/// the team card in the game's mode.
pub fn added_response(
    game: &GameRow,
    status: GameStatus,
    mentions: &str,
    game_id: &GameId,
    assignments: &[TeamAssignment],
) -> (r: Result<CommandResponse, HandlerError>)
    ensures
        match mode_from_name(game.mode@) {
            None => refused_with(r, "Invalid stored mode: "@ + invalid_mode_message(game.mode@)),
            Some(mode) => r matches Ok(resp) && resp.content@ == added_text(
                mentions@,
                game_id@,
                status,
            ) && resp.audience == CommandAudience::Public && team_card_ok(
                resp.team_card,
                *game_id,
                mode,
                assignments@,
            ),
        },
{
    let mode = stored_mode(game)?;
    let mut s = String::new();
    append(&mut s, "Added ");
    append(&mut s, mentions);
    append(&mut s, " to `");
    append(&mut s, game_id.as_str());
    append(&mut s, "`. ");
    if status == GameStatus::Randomized {
        append(&mut s, "Teams were re-randomized.");
    } else {
        append(&mut s, "Teams were randomized.");
    }
    Ok(CommandResponse::public(s).with_team_card(team_card(game_id, mode, assignments)))
}

// ---------------------------------------------------------------------------
// `/next`
// ---------------------------------------------------------------------------

/// `/next` starts from the guild's latest game, and only when no game is open.
pub fn next_previous(open_game_exists: bool, previous: Option<GameRow>) -> (r: Result<
    (GameId, GameModeKind),
    HandlerError,
>)
    ensures
        open_game_exists ==> refused_with(
            r,
            "Close the current open game with `/winner` before starting `/next`."@,
        ),
        !open_game_exists ==> match previous {
            None => refused_with(r, "No previous game found for `/next`."@),
            Some(g) => match mode_from_name(g.mode@) {
                None => refused_with(r, "Invalid stored mode: "@ + invalid_mode_message(g.mode@)),
                Some(m) => r matches Ok((id, mode)) && id@ == g.game_id@ && mode == m,
            },
        },
{
    if open_game_exists {
        return Err(user_facing("Close the current open game with `/winner` before starting `/next`."));
    }
    let previous = match previous {
        None => return Err(user_facing("No previous game found for `/next`.")),
        Some(g) => g,
    };
    let id = GameId::new(previous.game_id.as_str());
    let mode = stored_mode(&previous)?;
    Ok((id, mode))
}

pub open spec fn next_text(game_id: Seq<char>, previous_id: Seq<char>, mode: GameModeKind) -> Seq<
    char,
> {
    "Created next game `"@ + game_id + "` from `"@ + previous_id + "` ("@ + mode_name(mode) + ")"@
}

/// The public reply to `/next`, with the team card.
pub fn next_response(
    game_id: &GameId,
    previous_id: &GameId,
    mode: GameModeKind,
    assignments: &[TeamAssignment],
) -> (r: CommandResponse)
    ensures
        r.content@ == next_text(game_id@, previous_id@, mode),
        r.audience == CommandAudience::Public,
        r.team_card matches Some(c) && c.game_id == *game_id && c.mode == mode && c.red@
            == side_members(assignments@, TeamSide::Red) && c.blue@ == side_members(
            assignments@,
            TeamSide::Blue,
        ),
{
    let mut s = String::new();
    append(&mut s, "Created next game `");
    append(&mut s, game_id.as_str());
    append(&mut s, "` from `");
    append(&mut s, previous_id.as_str());
    append(&mut s, "` (");
    append(&mut s, mode.as_str());
    append(&mut s, ")");
    CommandResponse::public(s).with_team_card(team_card(game_id, mode, assignments))
}

// ---------------------------------------------------------------------------
// `/randomize`, `/winner`, `/result`, `/end`
// ---------------------------------------------------------------------------

/// Teams can be drawn again while the lobby is open or teams are drawn, in the game's guild.
pub fn randomize_check(game: &GameRow, guild_id: &str) -> (r: Result<(), HandlerError>)
    ensures
        game.guild_id@ != guild_id@ ==> refused_with(r, wrong_guild_message()),
        game.guild_id@ == guild_id@ ==> match game_status_from_name(game.status@) {
            None => refused_with(r, invalid_stored_status_message(game.status@)),
            Some(s) => if s == GameStatus::Lobby || s == GameStatus::Randomized {
                r is Ok
            } else {
                refused_with(r, "Cannot randomize after the lobby is locked."@)
            },
        },
{
    if !str_eq(game.guild_id.as_str(), guild_id) {
        return Err(wrong_guild_error());
    }
    let status = stored_status(game)?;
    match status {
        GameStatus::Lobby | GameStatus::Randomized => Ok(()),
        _ => Err(user_facing("Cannot randomize after the lobby is locked.")),
    }
}

/// `<game> randomized.` and the teams.
pub fn randomized_reply(game_id: &GameId, assignments: &[TeamAssignment]) -> (r: String)
    ensures
        r@ == game_id@ + " randomized.\n"@ + assignments_text(assignments@),
{
    let mut s = String::new();
    append(&mut s, game_id.as_str());
    append(&mut s, " randomized.\n");
    let t = format_assignments(assignments);
    append(&mut s, t.as_str());
    s
}

/// A winner can be marked once teams are drawn, and not on a closed game.
pub fn winner_check(game: &GameRow, guild_id: &str) -> (r: Result<(), HandlerError>)
    ensures
        game.guild_id@ != guild_id@ ==> refused_with(r, wrong_guild_message()),
        game.guild_id@ == guild_id@ ==> match game_status_from_name(game.status@) {
            None => refused_with(r, invalid_stored_status_message(game.status@)),
            Some(GameStatus::Lobby) => refused_with(r, "Randomize teams before marking a winner."@),
            Some(GameStatus::Finalized) => refused_with(r, "That game is already finalized."@),
            Some(GameStatus::Cancelled) => refused_with(r, "That game is cancelled."@),
            Some(_) => r is Ok,
        },
        r is Ok ==> !is_closed_status(game.status@),
{
    if !str_eq(game.guild_id.as_str(), guild_id) {
        return Err(wrong_guild_error());
    }
    let status = stored_status(game)?;
    match status {
        GameStatus::Lobby => Err(user_facing("Randomize teams before marking a winner.")),
        GameStatus::Finalized => Err(user_facing("That game is already finalized.")),
        GameStatus::Cancelled => Err(user_facing("That game is cancelled.")),
        _ => Ok(()),
    }
}

/// `Marked game <id> won by <side>.`
pub fn winner_reply(game_id: &GameId, winner: TeamSide) -> (r: String)
    ensures
        r@ == "Marked game "@ + game_id@ + " won by "@ + team_side_name(winner) + "."@,
{
    let mut s = String::new();
    append(&mut s, "Marked game ");
    append(&mut s, game_id.as_str());
    append(&mut s, " won by ");
    append(&mut s, winner.as_str());
    append(&mut s, ".");
    s
}

pub open spec fn reported_text(game_id: Seq<char>, winner: TeamSide) -> Seq<char> {
    game_id + " reported as "@ + team_side_name(winner) + " win. Use `/end "@ + game_id
        + "` to finalize."@
}

/// The reply once a winner is reported but not final.
pub fn reported_reply(game_id: &GameId, winner: TeamSide) -> (r: String)
    ensures
        r@ == reported_text(game_id@, winner),
{
    let mut s = String::new();
    append(&mut s, game_id.as_str());
    append(&mut s, " reported as ");
    append(&mut s, winner.as_str());
    append(&mut s, " win. Use `/end ");
    append(&mut s, game_id.as_str());
    append(&mut s, "` to finalize.");
    s
}

/// `/end` is for the game's creator, in its guild, once a winner is reported; it finalizes
/// with the reported winner.
pub fn end_check(game: &GameRow, guild_id: &str, actor_id: &str) -> (r: Result<TeamSide, HandlerError>)
    ensures
        game.guild_id@ != guild_id@ ==> refused_with(r, wrong_guild_message()),
        game.guild_id@ == guild_id@ && game.creator_discord_id@ != actor_id@ ==> refused_with(
            r,
            "Only the game creator can end this game for now."@,
        ),
        game.guild_id@ == guild_id@ && game.creator_discord_id@ == actor_id@ ==> match game.winning_side {
            None => refused_with(r, "Report a winner before ending."@),
            Some(w) => match team_side_from_name(w@) {
                Some(side) => r matches Ok(s) && s == side,
                None => refused_with(r, "invalid team side `"@ + w@ + "`"@),
            },
        },
{
    if !str_eq(game.guild_id.as_str(), guild_id) {
        return Err(wrong_guild_error());
    }
    if !str_eq(game.creator_discord_id.as_str(), actor_id) {
        return Err(user_facing("Only the game creator can end this game for now."));
    }
    let side = match &game.winning_side {
        None => return Err(user_facing("Report a winner before ending.")),
        Some(w) => w,
    };
    match TeamSide::from_str(side.as_str()) {
        Ok(s) => Ok(s),
        Err(e) => Err(HandlerError::UserFacing(e.message())),
    }
}

/// `<id> finalized as <side> win.`
pub fn ended_reply(game_id: &GameId, winner: TeamSide) -> (r: String)
    ensures
        r@ == game_id@ + " finalized as "@ + team_side_name(winner) + " win."@,
{
    let mut s = String::new();
    append(&mut s, game_id.as_str());
    append(&mut s, " finalized as ");
    append(&mut s, winner.as_str());
    append(&mut s, " win.");
    s
}

// ---------------------------------------------------------------------------
// Registration, stats and analysis
// ---------------------------------------------------------------------------

/// A Riot ID to register, or `Invalid Riot ID: ...`.
pub fn parse_registration(riot_id: &str) -> (r: Result<RiotIdParts, HandlerError>)
    ensures
        match riot_id_spec(riot_id@) {
            Ok((name, tag)) => r matches Ok(p) && p.game_name@ == name && p.tag_line@ == tag,
            Err(e) => refused_with(r, "Invalid Riot ID: "@ + e.message_spec()),
        },
{
    match parse_riot_id(riot_id) {
        Ok(p) => Ok(p),
        Err(e) => {
            let mut m = String::new();
            append(&mut m, "Invalid Riot ID: ");
            append(&mut m, e.message());
            Err(HandlerError::UserFacing(m))
        },
    }
}

/// The player row to store for a registration and the reply: the account Riot resolved, when it
/// did, else the typed Riot ID as a trusted claim.
pub fn registration(
    context: &CommandContext,
    parsed: &RiotIdParts,
    resolved: Option<ResolvedRiotAccount>,
) -> (r: (NewPlayer, String))
    ensures
        r.0.guild_id == context.guild_id,
        r.0.discord_user_id == context.actor_id,
        r.0.now == context.now,
        match resolved {
            Some(a) => r.0.riot_puuid == Some(a.puuid) && r.0.riot_game_name == a.game_name
                && r.0.riot_tag_line == a.tag_line && r.1@ == "Registered "@ + a.game_name@ + "#"@
                + a.tag_line@ + " with Riot API PUUID."@,
            None => r.0.riot_puuid is None && r.0.riot_game_name == parsed.game_name
                && r.0.riot_tag_line == parsed.tag_line && r.1@ == "Registered "@
                + parsed.game_name@ + "#"@ + parsed.tag_line@ + " as a trusted claim."@,
        },
{
    let has_account = resolved.is_some();
    let (puuid, name, tag) = match resolved {
        Some(a) => (Some(a.puuid), a.game_name, a.tag_line),
        None => (None, parsed.game_name.clone(), parsed.tag_line.clone()),
    };
    let mut reply = String::new();
    append(&mut reply, "Registered ");
    append(&mut reply, name.as_str());
    append(&mut reply, "#");
    append(&mut reply, tag.as_str());
    if has_account {
        append(&mut reply, " with Riot API PUUID.");
    } else {
        append(&mut reply, " as a trusted claim.");
    }
    let player = NewPlayer {
        guild_id: context.guild_id.clone(),
        discord_user_id: context.actor_id.clone(),
        riot_puuid: puuid,
        riot_game_name: name,
        riot_tag_line: tag,
        now: context.now,
    };
    (player, reply)
}

/// Whose stats `/stats` shows.
#[derive(Debug)]
pub enum StatsTarget {
    Everyone,
    User(DiscordUserId),
    Name(String),
}

/// Everyone without a user or a name, the user, or the player registered under the name; not
/// both.
pub fn stats_target(command: &StatsCommand) -> (r: Result<StatsTarget, HandlerError>)
    ensures
        match (command.user, command.name) {
            (None, None) => r matches Ok(StatsTarget::Everyone),
            (Some(u), None) => r matches Ok(StatsTarget::User(v)) && v == u,
            (None, Some(n)) => r matches Ok(StatsTarget::Name(m)) && m == n,
            (Some(_), Some(_)) => refused_with(r, "Use either `name` or `user`, not both."@),
        },
{
    match (&command.user, &command.name) {
        (None, None) => Ok(StatsTarget::Everyone),
        (Some(u), None) => Ok(StatsTarget::User(u.clone())),
        (None, Some(n)) => Ok(StatsTarget::Name(n.clone())),
        (Some(_), Some(_)) => Err(user_facing("Use either `name` or `user`, not both.")),
    }
}

/// The refusal of a name that no registered player has.
pub fn no_player_named(name: &str) -> (r: HandlerError)
    ensures
        r matches HandlerError::UserFacing(m) && m@ == "No registered player found for `"@ + name@
            + "`."@,
{
    let mut m = String::new();
    append(&mut m, "No registered player found for `");
    append(&mut m, name);
    append(&mut m, "`.");
    HandlerError::UserFacing(m)
}

/// The reply to `/analysis`.
pub fn analysis_reply(mode: Option<GameModeKind>) -> (r: String)
    ensures
        r@ == match mode {
            Some(m) => "Analysis"@ + " for "@ + mode_name(m),
            None => "Analysis"@,
        } + " is wired as a v1 stub. Need more rows first."@,
{
    let mut s = String::new();
    append(&mut s, "Analysis");
    match mode {
        Some(m) => {
            append(&mut s, " for ");
            append(&mut s, m.as_str());
        },
        None => {},
    }
    append(&mut s, " is wired as a v1 stub. Need more rows first.");
    s
}

/// The reply to `/status`: mode, status and the Riot-match line, as stored.
pub fn status_reply(game_id: &GameId, game: &GameRow, riot_link: &str) -> (r: String)
    ensures
        r@ == game_id@ + ": mode "@ + game.mode@ + ", status "@ + game.status@ + ", "@ + riot_link@,
{
    let mut s = String::new();
    append(&mut s, game_id.as_str());
    append(&mut s, ": mode ");
    append(&mut s, game.mode.as_str());
    append(&mut s, ", status ");
    append(&mut s, game.status.as_str());
    append(&mut s, ", ");
    append(&mut s, riot_link);
    s
}

} // verus!
