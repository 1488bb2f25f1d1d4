//! The rating bookkeeping of finalizing a game: each team's rating total and size, and the
//! update each player on a side gets from the rating change the winner earned.
use crate::domain::state::{is_closed_status, status_is_closed, TeamSide};
use crate::storage::models::{roster_team_spec, RosterPlayer};
use crate::text::str_eq;
use vstd::prelude::*;

verus! {

/// Whether the roster player's stored team is exactly this text.
pub open spec fn on_team(p: RosterPlayer, team: Seq<char>) -> bool {
    p.team matches Some(t) && t@ == team
}

/// The rating total of the players whose stored team is `team`.
pub open spec fn team_sum(roster: Seq<RosterPlayer>, team: Seq<char>) -> int
    decreases roster.len(),
{
    if roster.len() == 0 {
        0
    } else {
        team_sum(roster.drop_last(), team) + if on_team(roster.last(), team) {
            roster.last().rating as int
        } else {
            0
        }
    }
}

/// How many players have `team` as their stored team.
pub open spec fn team_size(roster: Seq<RosterPlayer>, team: Seq<char>) -> nat
    decreases roster.len(),
{
    if roster.len() == 0 {
        0
    } else {
        team_size(roster.drop_last(), team) + if on_team(roster.last(), team) {
            1nat
        } else {
            0nat
        }
    }
}

/// Each running total of a team's ratings, in roster order, fits in an `i32`.
pub open spec fn team_sums_fit(roster: Seq<RosterPlayer>, team: Seq<char>) -> bool {
    forall|k: int|
        0 <= k <= roster.len() ==> i32::MIN <= #[trigger] team_sum(roster.take(k), team)
            <= i32::MAX
}

/// The rating totals of blue and red, and their sizes (at least 1 each, to average by).
#[derive(Debug, Clone, Copy, PartialEq, Eq, Structural)]
pub struct TeamTotals {
    pub blue_sum: i32,
    pub red_sum: i32,
    pub blue_count: usize,
    pub red_count: usize,
}

fn sum_team(roster: &[RosterPlayer], team: &str) -> (r: (i32, usize))
    requires
        team_sums_fit(roster@, team@),
    ensures
        r.0 == team_sum(roster@, team@),
        r.1 == team_size(roster@, team@),
{
    let mut sum: i32 = 0;
    let mut count: usize = 0;
    let mut i: usize = 0;
    while i < roster.len()
        invariant
            i <= roster@.len(),
            team_sums_fit(roster@, team@),
            sum == team_sum(roster@.take(i as int), team@),
            count == team_size(roster@.take(i as int), team@),
            count <= i,
        decreases roster@.len() - i,
    {
        proof {
            assert(roster@.take(i + 1).drop_last() =~= roster@.take(i as int));
            assert(i32::MIN <= team_sum(roster@.take(i + 1), team@) <= i32::MAX);
        }
        let hit = match &roster[i].team {
            Some(t) => str_eq(t.as_str(), team),
            None => false,
        };
        if hit {
            sum = sum + roster[i].rating;
            count = count + 1;
        }
        i += 1;
    }
    assert(roster@.take(roster@.len() as int) =~= roster@);
    (sum, count)
}

/// The totals of the `blue` and `red` players of a roster; a team without players counts as
/// one player, so that its average is defined.
pub fn team_totals(roster: &[RosterPlayer]) -> (r: TeamTotals)
    requires
        team_sums_fit(roster@, "blue"@),
        team_sums_fit(roster@, "red"@),
    ensures
        r.blue_sum == team_sum(roster@, "blue"@),
        r.red_sum == team_sum(roster@, "red"@),
        r.blue_count == if team_size(roster@, "blue"@) == 0 {
            1
        } else {
            team_size(roster@, "blue"@)
        },
        r.red_count == if team_size(roster@, "red"@) == 0 {
            1
        } else {
            team_size(roster@, "red"@)
        },
{
    let (blue_sum, blue_count) = sum_team(roster, "blue");
    let (red_sum, red_count) = sum_team(roster, "red");
    TeamTotals {
        blue_sum,
        red_sum,
        blue_count: if blue_count == 0 {
            1
        } else {
            blue_count
        },
        red_count: if red_count == 0 {
            1
        } else {
            red_count
        },
    }
}

/// The change finalizing makes to one player.
#[derive(Debug, Clone)]
pub struct RatingUpdate {
    pub discord_user_id: String,
    pub signed_delta: i32,
    pub won: bool,
}

/// One update per player on a side, in roster order: the winners gain `delta`, the losers lose
/// it; players without a side are left alone.
pub open spec fn updates_spec(roster: Seq<RosterPlayer>, winner: TeamSide, delta: i32) -> Seq<
    (Seq<char>, int, bool),
>
    decreases roster.len(),
{
    if roster.len() == 0 {
        seq![]
    } else {
        let prev = updates_spec(roster.drop_last(), winner, delta);
        match roster_team_spec(roster.last()) {
            Some(side) => prev.push(
                (
                    roster.last().discord_user_id@,
                    if side == winner {
                        delta as int
                    } else {
                        -delta
                    },
                    side == winner,
                ),
            ),
            None => prev,
        }
    }
}

pub open spec fn update_views(u: Seq<RatingUpdate>) -> Seq<(Seq<char>, int, bool)> {
    u.map_values(|x: RatingUpdate| (x.discord_user_id@, x.signed_delta as int, x.won))
}

pub fn rating_updates(roster: &[RosterPlayer], winner: TeamSide, delta: i32) -> (r: Vec<
    RatingUpdate,
>)
    requires
        delta != i32::MIN,
    ensures
        update_views(r@) == updates_spec(roster@, winner, delta),
{
    let mut out: Vec<RatingUpdate> = Vec::new();
    let mut i: usize = 0;
    while i < roster.len()
        invariant
            i <= roster@.len(),
            delta != i32::MIN,
            update_views(out@) == updates_spec(roster@.take(i as int), winner, delta),
        decreases roster@.len() - i,
    {
        proof {
            assert(roster@.take(i + 1).drop_last() =~= roster@.take(i as int));
        }
        match roster[i].team_side() {
            Some(side) => {
                let won = side == winner;
                let signed_delta = if won {
                    delta
                } else {
                    -delta
                };
                let ghost before = out@;
                out.push(
                    RatingUpdate {
                        discord_user_id: roster[i].discord_user_id.clone(),
                        signed_delta,
                        won,
                    },
                );
                assert(update_views(out@) =~= update_views(before).push(
                    (roster@[i as int].discord_user_id@, signed_delta as int, won),
                ));
            },
            None => {},
        }
        i += 1;
    }
    assert(roster@.take(roster@.len() as int) =~= roster@);
    out
}

/// What finalizing a game with this stored status does to ratings: nothing at all when the game
/// is already closed (finalized or cancelled), whose ratings and win/loss counts are settled;
/// otherwise the updates of `rating_updates`.
pub fn finalize_updates(status: &str, roster: &[RosterPlayer], winner: TeamSide, delta: i32) -> (r:
    Option<Vec<RatingUpdate>>)
    requires
        delta != i32::MIN,
    ensures
        is_closed_status(status@) ==> r is None,
        !is_closed_status(status@) ==> (r matches Some(u) && update_views(u@) == updates_spec(
            roster@,
            winner,
            delta,
        )),
{
    if status_is_closed(status) {
        None
    } else {
        Some(rating_updates(roster, winner, delta))
    }
}

/// How many roster players are on `side`.
pub open spec fn side_size(roster: Seq<RosterPlayer>, side: TeamSide) -> int
    decreases roster.len(),
{
    if roster.len() == 0 {
        0
    } else {
        side_size(roster.drop_last(), side) + if roster_team_spec(roster.last()) == Some(side) {
            1int
        } else {
            0int
        }
    }
}

/// The rating change of all updates together.
pub open spec fn delta_total(u: Seq<(Seq<char>, int, bool)>) -> int
    decreases u.len(),
{
    if u.len() == 0 {
        0
    } else {
        delta_total(u.drop_last()) + u.last().1
    }
}

/// Finalizing moves ratings by `delta` times the difference of the team sizes: what the winners
/// gain the losers lose, so equal teams keep the guild's rating total.
pub proof fn lemma_rating_updates_balance(roster: Seq<RosterPlayer>, winner: TeamSide, delta: i32)
    ensures
        delta_total(updates_spec(roster, winner, delta)) == delta * (side_size(roster, winner)
            - side_size(roster, crate::domain::state::opponent_of(winner))),
    decreases roster.len(),
{
    if roster.len() > 0 {
        let d = roster.drop_last();
        lemma_rating_updates_balance(d, winner, delta);
        let w = side_size(d, winner);
        let l = side_size(d, crate::domain::state::opponent_of(winner));
        assert(delta * (w + 1 - l) == delta * (w - l) + delta) by (nonlinear_arith);
        assert(delta * (w - (l + 1)) == delta * (w - l) - delta) by (nonlinear_arith);
        let opp = crate::domain::state::opponent_of(winner);
        let u = updates_spec(roster, winner, delta);
        let ud = updates_spec(d, winner, delta);
        match roster_team_spec(roster.last()) {
            Some(side) => {
                assert(u.drop_last() =~= ud);
                assert(delta_total(u) == delta_total(ud) + u.last().1);
                if side == winner {
                    assert(u.last().1 == delta as int);
                    assert(side_size(roster, winner) == w + 1);
                    assert(side_size(roster, opp) == l);
                } else {
                    assert(side == opp);
                    assert(u.last().1 == -delta);
                    assert(side_size(roster, winner) == w);
                    assert(side_size(roster, opp) == l + 1);
                }
            },
            None => {
                assert(u == ud);
                assert(side_size(roster, winner) == w);
                assert(side_size(roster, opp) == l);
            },
        }
    } else {
        assert(delta * (0int - 0int) == 0) by (nonlinear_arith);
    }
}

} // verus!
