//! The texts that commands answer with, and the checks that come before them.
use crate::domain::ids::{DiscordUserId, GameId};
use crate::domain::modes::{mode_name, GameModeKind};
use crate::domain::shuffle::TeamAssignment;
use crate::domain::state::{game_status_from_name, GameStatus, TeamSide};
use crate::handlers::types::{user_facing, HandlerError, TeamCard};
use crate::storage::models::{invalid_status_message, GameRow};
use crate::text::{append, join_texts, join_with, str_eq, text_views};
use vstd::prelude::*;

verus! {

/// A Discord mention of a user: `<@id>`.
pub open spec fn mention_spec(id: Seq<char>) -> Seq<char> {
    "<@"@ + id + ">"@
}

pub fn mention(id: &str) -> (r: String)
    ensures
        r@ == mention_spec(id@),
{
    let mut s = String::new();
    append(&mut s, "<@");
    append(&mut s, id);
    append(&mut s, ">");
    s
}

// ---------------------------------------------------------------------------
// Teams
// ---------------------------------------------------------------------------

/// The users assigned to `side`, in assignment order.
pub open spec fn side_members(a: Seq<TeamAssignment>, side: TeamSide) -> Seq<DiscordUserId>
    decreases a.len(),
{
    if a.len() == 0 {
        seq![]
    } else if a.last().team == side {
        side_members(a.drop_last(), side).push(a.last().discord_user_id)
    } else {
        side_members(a.drop_last(), side)
    }
}

/// The mentions of the users assigned to `side`, in assignment order.
pub open spec fn side_mentions(a: Seq<TeamAssignment>, side: TeamSide) -> Seq<Seq<char>>
    decreases a.len(),
{
    if a.len() == 0 {
        seq![]
    } else if a.last().team == side {
        side_mentions(a.drop_last(), side).push(mention_spec(a.last().discord_user_id@))
    } else {
        side_mentions(a.drop_last(), side)
    }
}

/// The users on one side, in assignment order.
pub fn team_members(assignments: &[TeamAssignment], side: TeamSide) -> (r: Vec<DiscordUserId>)
    ensures
        r@ == side_members(assignments@, side),
{
    let mut r: Vec<DiscordUserId> = Vec::new();
    let mut i: usize = 0;
    while i < assignments.len()
        invariant
            i <= assignments@.len(),
            r@ == side_members(assignments@.subrange(0, i as int), side),
        decreases assignments@.len() - i,
    {
        proof {
            assert(assignments@.subrange(0, i + 1).drop_last() =~= assignments@.subrange(
                0,
                i as int,
            ));
        }
        if assignments[i].team == side {
            r.push(assignments[i].discord_user_id.clone());
        }
        i += 1;
    }
    assert(assignments@.subrange(0, assignments@.len() as int) =~= assignments@);
    r
}

fn side_mention_texts(assignments: &[TeamAssignment], side: TeamSide) -> (r: Vec<String>)
    ensures
        text_views(r@) == side_mentions(assignments@, side),
{
    let mut r: Vec<String> = Vec::new();
    let mut i: usize = 0;
    while i < assignments.len()
        invariant
            i <= assignments@.len(),
            text_views(r@) == side_mentions(assignments@.subrange(0, i as int), side),
        decreases assignments@.len() - i,
    {
        proof {
            assert(assignments@.subrange(0, i + 1).drop_last() =~= assignments@.subrange(
                0,
                i as int,
            ));
        }
        if assignments[i].team == side {
            let m = mention(assignments[i].discord_user_id.as_str());
            let ghost before = r@;
            r.push(m);
            proof {
                assert(text_views(r@) =~= text_views(before).push(m@));
            }
        }
        i += 1;
    }
    assert(assignments@.subrange(0, assignments@.len() as int) =~= assignments@);
    r
}

pub open spec fn assignments_text(a: Seq<TeamAssignment>) -> Seq<char> {
    "Red team: "@ + join_with(side_mentions(a, TeamSide::Red), ", "@) + "\nBlue team: "@
        + join_with(side_mentions(a, TeamSide::Blue), ", "@)
}

/// `Red team: <@..>, ..` and `Blue team: ..` on two lines, each in assignment order.
pub fn format_assignments(assignments: &[TeamAssignment]) -> (r: String)
    ensures
        r@ == assignments_text(assignments@),
{
    let red = join_texts(&side_mention_texts(assignments, TeamSide::Red), ", ");
    let blue = join_texts(&side_mention_texts(assignments, TeamSide::Blue), ", ");
    let mut s = String::new();
    append(&mut s, "Red team: ");
    append(&mut s, red.as_str());
    append(&mut s, "\nBlue team: ");
    append(&mut s, blue.as_str());
    s
}

/// The card that shows both teams of a game.
pub fn team_card(game_id: &GameId, mode: GameModeKind, assignments: &[TeamAssignment]) -> (r:
    TeamCard)
    ensures
        r.game_id == *game_id,
        r.mode == mode,
        r.red@ == side_members(assignments@, TeamSide::Red),
        r.blue@ == side_members(assignments@, TeamSide::Blue),
{
    TeamCard {
        game_id: game_id.clone(),
        mode,
        red: team_members(assignments, TeamSide::Red),
        blue: team_members(assignments, TeamSide::Blue),
    }
}

// ---------------------------------------------------------------------------
// Checks
// ---------------------------------------------------------------------------

/// The first position whose id already occurred before it.
pub open spec fn first_repeat(ids: Seq<Seq<char>>) -> Option<int>
    decreases ids.len(),
{
    if ids.len() == 0 {
        None
    } else {
        match first_repeat(ids.drop_last()) {
            Some(j) => Some(j),
            None => if ids.drop_last().contains(ids.last()) {
                Some(ids.len() - 1)
            } else {
                None
            },
        }
    }
}

proof fn lemma_first_repeat_prefix(s: Seq<Seq<char>>, n: int)
    requires
        0 <= n <= s.len(),
        first_repeat(s.subrange(0, n)) is Some,
    ensures
        first_repeat(s) == first_repeat(s.subrange(0, n)),
    decreases s.len(),
{
    if n < s.len() {
        assert(s.drop_last().subrange(0, n) =~= s.subrange(0, n));
        lemma_first_repeat_prefix(s.drop_last(), n);
    } else {
        assert(s.subrange(0, n) =~= s);
    }
}

/// A list has no repeated position exactly when no two of its entries are equal.
pub proof fn lemma_no_repeat_iff_distinct(ids: Seq<Seq<char>>)
    ensures
        first_repeat(ids) is None <==> forall|i: int, j: int|
            0 <= i < j < ids.len() ==> ids[i] != ids[j],
    decreases ids.len(),
{
    if ids.len() > 0 {
        let d = ids.drop_last();
        lemma_no_repeat_iff_distinct(d);
        if first_repeat(ids) is None {
            assert forall|i: int, j: int| 0 <= i < j < ids.len() implies ids[i] != ids[j] by {
                if j < ids.len() - 1 {
                    assert(d[i] == ids[i] && d[j] == ids[j]);
                } else {
                    assert(d[i] == ids[i]);
                    if ids[i] == ids[j] {
                        assert(d.contains(ids.last()));
                    }
                }
            }
        } else {
            match first_repeat(d) {
                Some(k) => {
                    assert(!(forall|i: int, j: int| 0 <= i < j < d.len() ==> d[i] != d[j]));
                    let (i, j) = choose|i: int, j: int| 0 <= i < j < d.len() && d[i] == d[j];
                    assert(ids[i] == d[i] && ids[j] == d[j]);
                },
                None => {
                    let i = choose|i: int| 0 <= i < d.len() && d[i] == ids.last();
                    assert(ids[i] == d[i]);
                    assert(ids[ids.len() - 1] == ids.last());
                },
            }
        }
    }
}

pub open spec fn user_views(users: Seq<DiscordUserId>) -> Seq<Seq<char>> {
    users.map_values(|u: DiscordUserId| u@)
}

pub open spec fn repeated_user_message(id: Seq<char>) -> Seq<char> {
    mention_spec(id) + " was provided more than once."@
}

/// Refuses a user list in which someone occurs twice, naming the first repeated user.
pub fn ensure_unique_users(users: &[DiscordUserId]) -> (r: Result<(), HandlerError>)
    ensures
        match first_repeat(user_views(users@)) {
            None => r is Ok,
            Some(j) => r matches Err(HandlerError::UserFacing(m)) && m@ == repeated_user_message(
                users@[j]@,
            ),
        },
{
    let ghost ids = user_views(users@);
    let mut j: usize = 0;
    while j < users.len()
        invariant
            j <= users@.len(),
            ids == user_views(users@),
            first_repeat(ids.subrange(0, j as int)) is None,
        decreases users@.len() - j,
    {
        let mut i: usize = 0;
        while i < j
            invariant
                i <= j < users@.len(),
                ids == user_views(users@),
                first_repeat(ids.subrange(0, j as int)) is None,
                forall|k: int| 0 <= k < i ==> ids[k] != ids[j as int],
            decreases j - i,
        {
            if str_eq(users[i].as_str(), users[j].as_str()) {
                proof {
                    let pre = ids.subrange(0, j + 1);
                    assert(ids[i as int] == users@[i as int]@);
                    assert(ids[j as int] == users@[j as int]@);
                    assert(pre.drop_last() =~= ids.subrange(0, j as int));
                    assert(pre.drop_last()[i as int] == pre.last());
                    assert(first_repeat(pre) == Some(j as int));
                    lemma_first_repeat_prefix(ids, j + 1);
                }
                let mut m = mention(users[j].as_str());
                append(&mut m, " was provided more than once.");
                return Err(HandlerError::UserFacing(m));
            }
            i += 1;
        }
        proof {
            let pre = ids.subrange(0, j + 1);
            assert(pre.drop_last() =~= ids.subrange(0, j as int));
            if pre.drop_last().contains(pre.last()) {
                let k = choose|k: int| 0 <= k < pre.drop_last().len() && pre.drop_last()[k]
                    == pre.last();
                assert(ids[k] == ids[j as int]);
            }
        }
        j += 1;
    }
    assert(ids.subrange(0, users@.len() as int) =~= ids);
    Ok(())
}

pub open spec fn wrong_guild_message() -> Seq<char> {
    "That game belongs to a different guild."@
}

/// The refusal of a game from another guild.
pub fn wrong_guild_error() -> (r: HandlerError)
    ensures
        r matches HandlerError::UserFacing(m) && m@ == wrong_guild_message(),
{
    user_facing("That game belongs to a different guild.")
}

/// A game may only be used from the guild it belongs to.
pub fn ensure_game_in_guild(game: &GameRow, guild_id: &str) -> (r: Result<(), HandlerError>)
    ensures
        game.guild_id@ == guild_id@ ==> r is Ok,
        game.guild_id@ != guild_id@ ==> (r matches Err(HandlerError::UserFacing(m)) && m@
            == wrong_guild_message()),
{
    if str_eq(game.guild_id.as_str(), guild_id) {
        Ok(())
    } else {
        Err(wrong_guild_error())
    }
}

pub open spec fn invalid_stored_status_message(status: Seq<char>) -> Seq<char> {
    "Invalid stored status: "@ + invalid_status_message(status)
}

/// The refusal of a stored status that does not parse.
pub fn invalid_stored_status(err: String) -> (r: HandlerError)
    ensures
        r matches HandlerError::UserFacing(m) && m@ == "Invalid stored status: "@ + err@,
{
    let mut m = String::new();
    append(&mut m, "Invalid stored status: ");
    append(&mut m, err.as_str());
    HandlerError::UserFacing(m)
}

/// The refusal of a stored mode that does not parse.
pub fn invalid_stored_mode(err: String) -> (r: HandlerError)
    ensures
        r matches HandlerError::UserFacing(m) && m@ == "Invalid stored mode: "@ + err@,
{
    let mut m = String::new();
    append(&mut m, "Invalid stored mode: ");
    append(&mut m, err.as_str());
    HandlerError::UserFacing(m)
}

/// What linking a Riot match to a game with this stored status comes to.
pub open spec fn linkable_spec(status: Seq<char>) -> Result<(), Seq<char>> {
    match game_status_from_name(status) {
        None => Err(invalid_stored_status_message(status)),
        Some(GameStatus::Lobby) => Err("Randomize teams before linking Riot matches."@),
        Some(GameStatus::Cancelled) => Err("Cannot link Riot matches to a cancelled game."@),
        Some(_) => Ok(()),
    }
}

/// Riot matches can be linked once teams exist, and never to a cancelled game.
pub fn ensure_match_linkable(game: &GameRow) -> (r: Result<(), HandlerError>)
    ensures
        match linkable_spec(game.status@) {
            Ok(()) => r is Ok,
            Err(t) => r matches Err(HandlerError::UserFacing(m)) && m@ == t,
        },
{
    let status = match game.status() {
        Ok(s) => s,
        Err(e) => return Err(invalid_stored_status(e)),
    };
    match status {
        GameStatus::Lobby => Err(user_facing("Randomize teams before linking Riot matches.")),
        GameStatus::Cancelled => Err(user_facing("Cannot link Riot matches to a cancelled game.")),
        _ => Ok(()),
    }
}

/// `all modes` without a mode, else the mode's name.
pub fn mode_label(mode: Option<GameModeKind>) -> (r: String)
    ensures
        r@ == match mode {
            None => "all modes"@,
            Some(m) => mode_name(m),
        },
{
    match mode {
        None => "all modes".to_owned(),
        Some(m) => m.as_str().to_owned(),
    }
}

} // verus!
