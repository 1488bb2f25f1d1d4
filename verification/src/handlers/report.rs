//! Reports on linked Riot matches, and the player and teammate lines of the stats views.
use crate::domain::ids::GameId;
use crate::handlers::format::mention_spec;
use crate::handlers::types::StatsOverviewCard;
use crate::storage::models::{
    is_pending_riot_id, is_pending_spec, needs_hydration_spec, MatchLinkRow, TeammateStatsRow,
};
use crate::text::{
    append, decimal, i64_to_decimal, join_texts, join_with, lemma_seq_lt_asymmetric,
    lemma_seq_lt_irreflexive, lemma_seq_lt_total, lemma_seq_lt_transitive, seq_lt,
    signed_decimal, text_less, text_views, u64_to_decimal,
};
use vstd::prelude::*;

verus! {

/// What syncing one linked Riot match came to.
#[derive(Debug, Clone)]
pub enum MatchSyncOutcome {
    Hydrated { riot_match_id: String, participant_count: usize },
    LinkedManual { riot_match_id: String },
    Unavailable { riot_match_id: String },
}

// ---------------------------------------------------------------------------
// Id lists
// ---------------------------------------------------------------------------

/// At most three ids joined by `, `, then `, +N more` for the rest.
pub open spec fn limited_ids_text(ids: Seq<Seq<char>>) -> Seq<char> {
    if ids.len() > 3 {
        join_with(ids.take(3), ", "@) + ", +"@ + decimal((ids.len() - 3) as nat) + " more"@
    } else {
        join_with(ids, ", "@)
    }
}

pub fn format_limited_ids(ids: &[String]) -> (r: String)
    ensures
        r@ == limited_ids_text(text_views(ids@)),
{
    let mut shown: Vec<String> = Vec::new();
    let mut i: usize = 0;
    while i < ids.len() && i < 3
        invariant
            i <= ids@.len(),
            i <= 3,
            shown@ == ids@.take(i as int),
        decreases ids@.len() - i,
    {
        shown.push(ids[i].clone());
        assert(shown@ =~= ids@.take(i + 1));
        i += 1;
    }
    let mut s = join_texts(&shown, ", ");
    proof {
        if ids@.len() > 3 {
            assert(text_views(shown@) =~= text_views(ids@).take(3));
        } else {
            assert(shown@ =~= ids@);
        }
    }
    if ids.len() > 3 {
        append(&mut s, ", +");
        let more = u64_to_decimal((ids.len() - 3) as u64);
        append(&mut s, more.as_str());
        append(&mut s, " more");
    }
    s
}

// ---------------------------------------------------------------------------
// Sync outcomes
// ---------------------------------------------------------------------------

pub open spec fn outcome_text(game_id: Seq<char>, o: MatchSyncOutcome) -> Seq<char> {
    match o {
        MatchSyncOutcome::Hydrated { riot_match_id, participant_count } => game_id
            + " hydrated from "@ + riot_match_id@ + " with "@ + decimal(participant_count as nat)
            + " participant row(s)."@,
        MatchSyncOutcome::LinkedManual { riot_match_id } => game_id + " linked to "@
            + riot_match_id@
            + ". Riot still does not return Match-V5 data; run `/hydrate game_id:"@ + game_id
            + "` later."@,
        MatchSyncOutcome::Unavailable { riot_match_id } => game_id + " is linked to "@
            + riot_match_id@ + ", but Riot still does not return Match-V5 data for it."@,
    }
}

/// The ids of one kind of outcome (0 hydrated, 1 linked by hand, 2 unavailable), in order.
pub open spec fn outcome_ids(o: Seq<MatchSyncOutcome>, kind: int) -> Seq<Seq<char>>
    decreases o.len(),
{
    if o.len() == 0 {
        seq![]
    } else {
        let prev = outcome_ids(o.drop_last(), kind);
        match o.last() {
            MatchSyncOutcome::Hydrated { riot_match_id, .. } => if kind == 0 {
                prev.push(riot_match_id@)
            } else {
                prev
            },
            MatchSyncOutcome::LinkedManual { riot_match_id } => if kind == 1 {
                prev.push(riot_match_id@)
            } else {
                prev
            },
            MatchSyncOutcome::Unavailable { riot_match_id } => if kind == 2 {
                prev.push(riot_match_id@)
            } else {
                prev
            },
        }
    }
}

/// The participant rows of all hydrated outcomes.
pub open spec fn hydrated_rows(o: Seq<MatchSyncOutcome>) -> nat
    decreases o.len(),
{
    if o.len() == 0 {
        0
    } else {
        match o.last() {
            MatchSyncOutcome::Hydrated { participant_count, .. } => hydrated_rows(o.drop_last())
                + participant_count as nat,
            _ => hydrated_rows(o.drop_last()),
        }
    }
}

pub open spec fn part_if(ids: Seq<Seq<char>>, text: Seq<char>) -> Seq<Seq<char>> {
    if ids.len() > 0 {
        seq![text]
    } else {
        seq![]
    }
}

/// The parts of a report on several outcomes: hydrated, linked by hand, unavailable.
pub open spec fn outcome_parts(o: Seq<MatchSyncOutcome>) -> Seq<Seq<char>> {
    let h = outcome_ids(o, 0);
    let l = outcome_ids(o, 1);
    let u = outcome_ids(o, 2);
    part_if(
        h,
        "hydrated "@ + decimal(h.len()) + " match(es) ("@ + limited_ids_text(h) + ") with "@
            + decimal(hydrated_rows(o)) + " participant row(s)"@,
    ) + part_if(
        l,
        "linked "@ + decimal(l.len()) + " match(es) still unavailable from Riot ("@
            + limited_ids_text(l) + ")"@,
    ) + part_if(
        u,
        decimal(u.len()) + " linked match(es) still unavailable from Riot ("@ + limited_ids_text(
            u,
        ) + ")"@,
    )
}

pub open spec fn sync_outcomes_text(game_id: Seq<char>, o: Seq<MatchSyncOutcome>) -> Seq<char> {
    if o.len() == 1 {
        outcome_text(game_id, o[0])
    } else {
        game_id + ": "@ + join_with(outcome_parts(o), "; "@) + "."@
    }
}

fn single_outcome_text(game_id: &GameId, outcome: &MatchSyncOutcome) -> (r: String)
    ensures
        r@ == outcome_text(game_id@, *outcome),
{
    let mut s = String::new();
    append(&mut s, game_id.as_str());
    match outcome {
        MatchSyncOutcome::Hydrated { riot_match_id, participant_count } => {
            append(&mut s, " hydrated from ");
            append(&mut s, riot_match_id.as_str());
            append(&mut s, " with ");
            let n = u64_to_decimal(*participant_count as u64);
            append(&mut s, n.as_str());
            append(&mut s, " participant row(s).");
        },
        MatchSyncOutcome::LinkedManual { riot_match_id } => {
            append(&mut s, " linked to ");
            append(&mut s, riot_match_id.as_str());
            append(&mut s, ". Riot still does not return Match-V5 data; run `/hydrate game_id:");
            append(&mut s, game_id.as_str());
            append(&mut s, "` later.");
        },
        MatchSyncOutcome::Unavailable { riot_match_id } => {
            append(&mut s, " is linked to ");
            append(&mut s, riot_match_id.as_str());
            append(&mut s, ", but Riot still does not return Match-V5 data for it.");
        },
    }
    s
}

/// One outcome is reported in full; several are summed up by kind.
pub fn format_match_sync_outcomes(game_id: &GameId, outcomes: &[MatchSyncOutcome]) -> (r: String)
    requires
        hydrated_rows(outcomes@) <= usize::MAX,
    ensures
        r@ == sync_outcomes_text(game_id@, outcomes@),
{
    if outcomes.len() == 1 {
        return single_outcome_text(game_id, &outcomes[0]);
    }
    let mut hydrated: Vec<String> = Vec::new();
    let mut linked: Vec<String> = Vec::new();
    let mut unavailable: Vec<String> = Vec::new();
    let mut rows: usize = 0;
    let mut i: usize = 0;
    while i < outcomes.len()
        invariant
            i <= outcomes@.len(),
            hydrated_rows(outcomes@) <= usize::MAX,
            text_views(hydrated@) == outcome_ids(outcomes@.take(i as int), 0),
            text_views(linked@) == outcome_ids(outcomes@.take(i as int), 1),
            text_views(unavailable@) == outcome_ids(outcomes@.take(i as int), 2),
            rows == hydrated_rows(outcomes@.take(i as int)),
        decreases outcomes@.len() - i,
    {
        proof {
            assert(outcomes@.take(i + 1).drop_last() =~= outcomes@.take(i as int));
            lemma_hydrated_rows_prefix(outcomes@, i + 1);
        }
        match &outcomes[i] {
            MatchSyncOutcome::Hydrated { riot_match_id, participant_count } => {
                let ghost before = hydrated@;
                hydrated.push(riot_match_id.clone());
                assert(text_views(hydrated@) =~= text_views(before).push(riot_match_id@));
                rows = rows + *participant_count;
            },
            MatchSyncOutcome::LinkedManual { riot_match_id } => {
                let ghost before = linked@;
                linked.push(riot_match_id.clone());
                assert(text_views(linked@) =~= text_views(before).push(riot_match_id@));
            },
            MatchSyncOutcome::Unavailable { riot_match_id } => {
                let ghost before = unavailable@;
                unavailable.push(riot_match_id.clone());
                assert(text_views(unavailable@) =~= text_views(before).push(riot_match_id@));
            },
        }
        i += 1;
    }
    assert(outcomes@.take(outcomes@.len() as int) =~= outcomes@);
    let ghost h = outcome_ids(outcomes@, 0);
    let ghost l = outcome_ids(outcomes@, 1);
    let ghost u = outcome_ids(outcomes@, 2);
    let mut parts: Vec<String> = Vec::new();
    if hydrated.len() > 0 {
        let mut p = String::new();
        append(&mut p, "hydrated ");
        let n = u64_to_decimal(hydrated.len() as u64);
        append(&mut p, n.as_str());
        append(&mut p, " match(es) (");
        let ids = format_limited_ids(hydrated.as_slice());
        append(&mut p, ids.as_str());
        append(&mut p, ") with ");
        let c = u64_to_decimal(rows as u64);
        append(&mut p, c.as_str());
        append(&mut p, " participant row(s)");
        parts.push(p);
    }
    let ghost after_h = text_views(parts@);
    if linked.len() > 0 {
        let mut p = String::new();
        append(&mut p, "linked ");
        let n = u64_to_decimal(linked.len() as u64);
        append(&mut p, n.as_str());
        append(&mut p, " match(es) still unavailable from Riot (");
        let ids = format_limited_ids(linked.as_slice());
        append(&mut p, ids.as_str());
        append(&mut p, ")");
        parts.push(p);
    }
    let ghost after_l = text_views(parts@);
    if unavailable.len() > 0 {
        let mut p = String::new();
        let n = u64_to_decimal(unavailable.len() as u64);
        append(&mut p, n.as_str());
        append(&mut p, " linked match(es) still unavailable from Riot (");
        let ids = format_limited_ids(unavailable.as_slice());
        append(&mut p, ids.as_str());
        append(&mut p, ")");
        parts.push(p);
    }
    proof {
        let hp = part_if(
            h,
            "hydrated "@ + decimal(h.len()) + " match(es) ("@ + limited_ids_text(h) + ") with "@
                + decimal(hydrated_rows(outcomes@)) + " participant row(s)"@,
        );
        let lp = part_if(
            l,
            "linked "@ + decimal(l.len()) + " match(es) still unavailable from Riot ("@
                + limited_ids_text(l) + ")"@,
        );
        assert(after_h =~= hp);
        assert(after_l =~= hp + lp);
        assert(text_views(parts@) =~= outcome_parts(outcomes@));
    }
    let joined = join_texts(&parts, "; ");
    let mut s = String::new();
    append(&mut s, game_id.as_str());
    append(&mut s, ": ");
    append(&mut s, joined.as_str());
    append(&mut s, ".");
    s
}

proof fn lemma_hydrated_rows_prefix(o: Seq<MatchSyncOutcome>, n: int)
    requires
        0 <= n <= o.len(),
    ensures
        hydrated_rows(o.take(n)) <= hydrated_rows(o),
    decreases o.len(),
{
    if n < o.len() {
        assert(o.drop_last().take(n) =~= o.take(n));
        lemma_hydrated_rows_prefix(o.drop_last(), n);
    } else {
        assert(o.take(n) =~= o);
    }
}

// ---------------------------------------------------------------------------
// Status of linked matches
// ---------------------------------------------------------------------------

pub open spec fn link_ids(links: Seq<MatchLinkRow>) -> Seq<Seq<char>> {
    links.map_values(|l: MatchLinkRow| l.riot_match_id@)
}

/// How many links still lack Riot stats.
pub open spec fn missing_stats(links: Seq<MatchLinkRow>) -> nat
    decreases links.len(),
{
    if links.len() == 0 {
        0
    } else {
        missing_stats(links.drop_last()) + if needs_hydration_spec(links.last()) {
            1nat
        } else {
            0nat
        }
    }
}

pub open spec fn status_links_text(links: Seq<MatchLinkRow>, fallback: Option<Seq<char>>) -> Seq<
    char,
> {
    if links.len() == 0 {
        match fallback {
            None => "Riot matches: pending until Spectator sees the live game"@,
            Some(id) => "Riot matches: 1 linked ("@ + id + ", missing stats)"@,
        }
    } else {
        "Riot matches: "@ + decimal(links.len()) + " linked ("@ + limited_ids_text(link_ids(links))
            + if missing_stats(links) > 0 {
            ", "@ + decimal(missing_stats(links)) + " missing stats"@
        } else {
            ", stats hydrated"@
        } + ")"@
    }
}

/// The Riot-match line of `/status`: how many are linked, the first ids, and whether stats are
/// missing; without links, the game's own match id if it has one.
pub fn format_status_match_links(links: &[MatchLinkRow], fallback: Option<&str>) -> (r: String)
    ensures
        r@ == status_links_text(
            links@,
            match fallback {
                Some(f) => Some(f@),
                None => None,
            },
        ),
{
    if links.len() == 0 {
        return match fallback {
            None => "Riot matches: pending until Spectator sees the live game".to_owned(),
            Some(id) => {
                let mut s = String::new();
                append(&mut s, "Riot matches: 1 linked (");
                append(&mut s, id);
                append(&mut s, ", missing stats)");
                s
            },
        };
    }
    let mut ids: Vec<String> = Vec::new();
    let mut missing: usize = 0;
    let mut i: usize = 0;
    while i < links.len()
        invariant
            i <= links@.len(),
            text_views(ids@) == link_ids(links@.take(i as int)),
            missing == missing_stats(links@.take(i as int)),
            missing <= i,
        decreases links@.len() - i,
    {
        proof {
            assert(links@.take(i + 1).drop_last() =~= links@.take(i as int));
        }
        let ghost before = ids@;
        ids.push(links[i].riot_match_id.clone());
        proof {
            assert(text_views(ids@) =~= text_views(before).push(links@[i as int].riot_match_id@));
            assert(link_ids(links@.take(i + 1)) =~= link_ids(links@.take(i as int)).push(
                links@[i as int].riot_match_id@,
            ));
        }
        if links[i].needs_hydration() {
            missing = missing + 1;
        }
        i += 1;
    }
    assert(links@.take(links@.len() as int) =~= links@);
    let mut s = String::new();
    append(&mut s, "Riot matches: ");
    let n = u64_to_decimal(links.len() as u64);
    append(&mut s, n.as_str());
    append(&mut s, " linked (");
    let shown = format_limited_ids(ids.as_slice());
    append(&mut s, shown.as_str());
    if missing > 0 {
        append(&mut s, ", ");
        let m = u64_to_decimal(missing as u64);
        append(&mut s, m.as_str());
        append(&mut s, " missing stats");
    } else {
        append(&mut s, ", stats hydrated");
    }
    append(&mut s, ")");
    s
}

// ---------------------------------------------------------------------------
// Players and teammates
// ---------------------------------------------------------------------------

pub open spec fn riot_id_text(discord_user_id: Seq<char>, name: Seq<char>, tag: Seq<char>) -> Seq<
    char,
> {
    if is_pending_spec(discord_user_id, name, tag) {
        "unregistered"@
    } else {
        name + "#"@ + tag
    }
}

/// `Name#TAG`, or `unregistered` for the placeholder of a player without a Riot ID.
pub fn display_riot_id(discord_user_id: &str, riot_game_name: &str, riot_tag_line: &str) -> (r:
    String)
    ensures
        r@ == riot_id_text(discord_user_id@, riot_game_name@, riot_tag_line@),
{
    if is_pending_riot_id(discord_user_id, riot_game_name, riot_tag_line) {
        "unregistered".to_owned()
    } else {
        let mut s = String::new();
        append(&mut s, riot_game_name);
        append(&mut s, "#");
        append(&mut s, riot_tag_line);
        s
    }
}

pub open spec fn row_riot_id(row: TeammateStatsRow) -> Seq<char> {
    riot_id_text(row.discord_user_id@, row.riot_game_name@, row.riot_tag_line@)
}

pub open spec fn record_text(row: TeammateStatsRow) -> Seq<char> {
    signed_decimal(row.wins as int) + "W/"@ + signed_decimal(row.losses as int) + "L, "@
        + signed_decimal(row.games as int) + " games"@
}

fn push_record(s: &mut String, row: &TeammateStatsRow)
    ensures
        final(s)@ == old(s)@ + record_text(*row),
{
    let w = i64_to_decimal(row.wins);
    append(s, w.as_str());
    append(s, "W/");
    let l = i64_to_decimal(row.losses);
    append(s, l.as_str());
    append(s, "L, ");
    let g = i64_to_decimal(row.games);
    append(s, g.as_str());
    append(s, " games");
}

/// `<@id> - Name#TAG - 4W/1L, 5 games`.
pub fn format_teammate_card_row(row: &TeammateStatsRow) -> (r: String)
    ensures
        r@ == mention_spec(row.discord_user_id@) + " - "@ + row_riot_id(*row) + " - "@
            + record_text(*row),
{
    let mut s = String::new();
    append(&mut s, "<@");
    append(&mut s, row.discord_user_id.as_str());
    append(&mut s, ">");
    append(&mut s, " - ");
    let id = display_riot_id(
        row.discord_user_id.as_str(),
        row.riot_game_name.as_str(),
        row.riot_tag_line.as_str(),
    );
    append(&mut s, id.as_str());
    append(&mut s, " - ");
    push_record(&mut s, row);
    s
}

/// `Name#TAG (4W/1L, 5 games)`, or `none yet`.
pub fn format_teammate_row(row: Option<&TeammateStatsRow>) -> (r: String)
    ensures
        r@ == match row {
            None => "none yet"@,
            Some(t) => row_riot_id(*t) + " ("@ + record_text(*t) + ")"@,
        },
{
    match row {
        None => "none yet".to_owned(),
        Some(t) => {
            let mut s = display_riot_id(
                t.discord_user_id.as_str(),
                t.riot_game_name.as_str(),
                t.riot_tag_line.as_str(),
            );
            append(&mut s, " (");
            push_record(&mut s, t);
            append(&mut s, ")");
            s
        },
    }
}

// ---------------------------------------------------------------------------
// The overview of everyone's stats
// ---------------------------------------------------------------------------

pub open spec fn overview_line(row: crate::handlers::types::StatsOverviewRow) -> Seq<char> {
    decimal(row.rank as nat) + ". "@ + row.riot_id@ + " "@ + signed_decimal(row.wins as int)
        + "W/"@ + signed_decimal(row.losses as int) + "L "@ + row.win_rate@ + " WR rating "@
        + signed_decimal(row.rating as int)
}

pub open spec fn overview_text(card: StatsOverviewCard) -> Seq<char> {
    "Stats for everyone ("@ + card.mode_label@ + ")\n"@ + join_with(
        card.rows@.map_values(|row: crate::handlers::types::StatsOverviewRow| overview_line(row)),
        "\n"@,
    )
}

/// One line per ranked row under a heading with the mode.
pub fn format_stats_overview(card: &StatsOverviewCard) -> (r: String)
    ensures
        r@ == overview_text(*card),
{
    let mut lines: Vec<String> = Vec::new();
    let mut i: usize = 0;
    while i < card.rows.len()
        invariant
            i <= card.rows@.len(),
            text_views(lines@) == card.rows@.take(i as int).map_values(
                |row: crate::handlers::types::StatsOverviewRow| overview_line(row),
            ),
        decreases card.rows@.len() - i,
    {
        let row = &card.rows[i];
        let mut s = u64_to_decimal(row.rank as u64);
        append(&mut s, ". ");
        append(&mut s, row.riot_id.as_str());
        append(&mut s, " ");
        let w = i64_to_decimal(row.wins as i64);
        append(&mut s, w.as_str());
        append(&mut s, "W/");
        let l = i64_to_decimal(row.losses as i64);
        append(&mut s, l.as_str());
        append(&mut s, "L ");
        append(&mut s, row.win_rate.as_str());
        append(&mut s, " WR rating ");
        let g = i64_to_decimal(row.rating as i64);
        append(&mut s, g.as_str());
        let ghost before = lines@;
        lines.push(s);
        proof {
            assert(text_views(lines@) =~= text_views(before).push(s@));
            assert(card.rows@.take(i + 1).map_values(
                |row: crate::handlers::types::StatsOverviewRow| overview_line(row),
            ) =~= card.rows@.take(i as int).map_values(
                |row: crate::handlers::types::StatsOverviewRow| overview_line(row),
            ).push(overview_line(card.rows@[i as int])));
        }
        i += 1;
    }
    assert(card.rows@.take(card.rows@.len() as int) =~= card.rows@);
    let joined = join_texts(&lines, "\n");
    let mut s = String::new();
    append(&mut s, "Stats for everyone (");
    append(&mut s, card.mode_label.as_str());
    append(&mut s, ")\n");
    append(&mut s, joined.as_str());
    s
}

// ---------------------------------------------------------------------------
// Ranking teammates
// ---------------------------------------------------------------------------

/// Whether `a` ranks ahead of `b`. By wins: more wins, then more games, then fewer losses,
/// then the smaller game name. By losses: more losses, then more games, then fewer wins, then
/// the smaller game name.
pub open spec fn ranks_ahead(a: TeammateStatsRow, b: TeammateStatsRow, by_wins: bool) -> bool {
    let (ka, kb, ta, tb) = if by_wins {
        (a.wins, b.wins, a.losses, b.losses)
    } else {
        (a.losses, b.losses, a.wins, b.wins)
    };
    ||| ka > kb
    ||| ka == kb && a.games > b.games
    ||| ka == kb && a.games == b.games && ta < tb
    ||| ka == kb && a.games == b.games && ta == tb && seq_lt(a.riot_game_name@, b.riot_game_name@)
}

/// The rows that take part in a ranking: those with a win (by wins) or a loss (by losses).
pub open spec fn ranked_rows(s: Seq<TeammateStatsRow>, by_wins: bool) -> Seq<TeammateStatsRow>
    decreases s.len(),
{
    if s.len() == 0 {
        seq![]
    } else if (if by_wins {
        s.last().wins > 0
    } else {
        s.last().losses > 0
    }) {
        ranked_rows(s.drop_last(), by_wins).push(s.last())
    } else {
        ranked_rows(s.drop_last(), by_wins)
    }
}

/// The position of the best row: the first row that no later row ranks ahead of when read in
/// order, so that of equal rows the earlier one wins.
pub open spec fn best_index(s: Seq<TeammateStatsRow>, by_wins: bool) -> int
    decreases s.len(),
{
    if s.len() <= 1 {
        0
    } else {
        let b = best_index(s.drop_last(), by_wins);
        if ranks_ahead(s.last(), s[b], by_wins) {
            s.len() - 1
        } else {
            b
        }
    }
}

/// The best `k` rows in rank order: the best row, then the best of the rest, and so on.
pub open spec fn top_rows(s: Seq<TeammateStatsRow>, k: nat, by_wins: bool) -> Seq<TeammateStatsRow>
    decreases k,
{
    if k == 0 || s.len() == 0 {
        seq![]
    } else {
        let b = best_index(s, by_wins);
        seq![s[b]] + top_rows(s.remove(b), (k - 1) as nat, by_wins)
    }
}

proof fn lemma_best_index_bounds(s: Seq<TeammateStatsRow>, by_wins: bool)
    requires
        s.len() > 0,
    ensures
        0 <= best_index(s, by_wins) < s.len(),
    decreases s.len(),
{
    if s.len() > 1 {
        lemma_best_index_bounds(s.drop_last(), by_wins);
    }
}

fn rank_ahead(a: &TeammateStatsRow, b: &TeammateStatsRow, by_wins: bool) -> (r: bool)
    ensures
        r == ranks_ahead(*a, *b, by_wins),
{
    let (ka, kb, ta, tb) = if by_wins {
        (a.wins, b.wins, a.losses, b.losses)
    } else {
        (a.losses, b.losses, a.wins, b.wins)
    };
    if ka != kb {
        return ka > kb;
    }
    if a.games != b.games {
        return a.games > b.games;
    }
    if ta != tb {
        return ta < tb;
    }
    text_less(a.riot_game_name.as_str(), b.riot_game_name.as_str())
}

fn find_best(rows: &Vec<TeammateStatsRow>, by_wins: bool) -> (r: usize)
    requires
        rows.len() > 0,
    ensures
        r == best_index(rows@, by_wins),
        r < rows.len(),
{
    let mut best: usize = 0;
    let mut i: usize = 1;
    while i < rows.len()
        invariant
            1 <= i <= rows@.len(),
            best < i,
            best == best_index(rows@.take(i as int), by_wins),
        decreases rows@.len() - i,
    {
        proof {
            assert(rows@.take(i + 1).drop_last() =~= rows@.take(i as int));
        }
        if rank_ahead(&rows[i], &rows[best], by_wins) {
            best = i;
        }
        i += 1;
    }
    assert(rows@.take(rows@.len() as int) =~= rows@);
    best
}

fn top_teammates(teammates: &[TeammateStatsRow], by_wins: bool) -> (r: Vec<TeammateStatsRow>)
    ensures
        r@ == top_rows(ranked_rows(teammates@, by_wins), 3, by_wins),
{
    let mut rows: Vec<TeammateStatsRow> = Vec::new();
    let mut i: usize = 0;
    while i < teammates.len()
        invariant
            i <= teammates@.len(),
            rows@ == ranked_rows(teammates@.take(i as int), by_wins),
        decreases teammates@.len() - i,
    {
        proof {
            assert(teammates@.take(i + 1).drop_last() =~= teammates@.take(i as int));
        }
        let keep = if by_wins {
            teammates[i].wins > 0
        } else {
            teammates[i].losses > 0
        };
        if keep {
            rows.push(teammates[i].clone());
        }
        i += 1;
    }
    assert(teammates@.take(teammates@.len() as int) =~= teammates@);
    let ghost all = rows@;
    let mut top: Vec<TeammateStatsRow> = Vec::new();
    while top.len() < 3 && rows.len() > 0
        invariant
            top.len() <= 3,
            top@ + top_rows(rows@, (3 - top.len()) as nat, by_wins) == top_rows(all, 3, by_wins),
        decreases rows@.len(),
    {
        let b = find_best(&rows, by_wins);
        proof {
            lemma_best_index_bounds(rows@, by_wins);
        }
        let ghost k = (3 - top.len()) as nat;
        let ghost before_top = top@;
        let ghost before_rows = rows@;
        let chosen = rows.remove(b);
        top.push(chosen);
        proof {
            assert(top_rows(before_rows, k, by_wins) == seq![before_rows[b as int]] + top_rows(
                before_rows.remove(b as int),
                (k - 1) as nat,
                by_wins,
            ));
            assert(top@ + top_rows(rows@, (3 - top.len()) as nat, by_wins) =~= before_top
                + top_rows(before_rows, k, by_wins));
        }
    }
    proof {
        if rows@.len() == 0 || top.len() == 3 {
            assert(top_rows(rows@, (3 - top.len()) as nat, by_wins) =~= seq![]);
        }
        assert(top@ =~= top@ + top_rows(rows@, (3 - top.len()) as nat, by_wins));
    }
    top
}

/// Up to three teammates with a shared win, most wins first (then more games, fewer losses,
/// and game name).
pub fn top_teammates_by_wins(teammates: &[TeammateStatsRow]) -> (r: Vec<TeammateStatsRow>)
    ensures
        r@ == top_rows(ranked_rows(teammates@, true), 3, true),
{
    top_teammates(teammates, true)
}

/// Up to three teammates with a shared loss, most losses first (then more games, fewer wins,
/// and game name).
pub fn top_teammates_by_losses(teammates: &[TeammateStatsRow]) -> (r: Vec<TeammateStatsRow>)
    ensures
        r@ == top_rows(ranked_rows(teammates@, false), 3, false),
{
    top_teammates(teammates, false)
}

/// Whether `a` has a key no smaller than `b`: (wins, games) or (losses, games), compared in
/// that order.
pub open spec fn key_at_least(a: TeammateStatsRow, b: TeammateStatsRow, by_wins: bool) -> bool {
    let (ka, kb) = if by_wins {
        (a.wins, b.wins)
    } else {
        (a.losses, b.losses)
    };
    ka > kb || (ka == kb && a.games >= b.games)
}

/// The position of the last row with the greatest key.
pub open spec fn last_max_index(s: Seq<TeammateStatsRow>, by_wins: bool) -> int
    decreases s.len(),
{
    if s.len() <= 1 {
        0
    } else {
        let b = last_max_index(s.drop_last(), by_wins);
        if key_at_least(s.last(), s[b], by_wins) {
            s.len() - 1
        } else {
            b
        }
    }
}

pub open spec fn most_shared(s: Seq<TeammateStatsRow>, by_wins: bool) -> Option<TeammateStatsRow> {
    let rows = ranked_rows(s, by_wins);
    if rows.len() == 0 {
        None
    } else {
        Some(rows[last_max_index(rows, by_wins)])
    }
}

fn most_shared_teammate(teammates: &[TeammateStatsRow], by_wins: bool) -> (r: Option<
    TeammateStatsRow,
>)
    ensures
        r == most_shared(teammates@, by_wins),
{
    let mut rows: Vec<TeammateStatsRow> = Vec::new();
    let mut i: usize = 0;
    while i < teammates.len()
        invariant
            i <= teammates@.len(),
            rows@ == ranked_rows(teammates@.take(i as int), by_wins),
        decreases teammates@.len() - i,
    {
        proof {
            assert(teammates@.take(i + 1).drop_last() =~= teammates@.take(i as int));
        }
        let keep = if by_wins {
            teammates[i].wins > 0
        } else {
            teammates[i].losses > 0
        };
        if keep {
            rows.push(teammates[i].clone());
        }
        i += 1;
    }
    assert(teammates@.take(teammates@.len() as int) =~= teammates@);
    if rows.len() == 0 {
        return None;
    }
    let mut best: usize = 0;
    let mut j: usize = 1;
    while j < rows.len()
        invariant
            1 <= j <= rows@.len(),
            best < j,
            best == last_max_index(rows@.take(j as int), by_wins),
        decreases rows@.len() - j,
    {
        proof {
            assert(rows@.take(j + 1).drop_last() =~= rows@.take(j as int));
        }
        let (ka, kb) = if by_wins {
            (rows[j].wins, rows[best].wins)
        } else {
            (rows[j].losses, rows[best].losses)
        };
        if ka > kb || (ka == kb && rows[j].games >= rows[best].games) {
            best = j;
        }
        j += 1;
    }
    assert(rows@.take(rows@.len() as int) =~= rows@);
    Some(rows[best].clone())
}

/// The teammate of the detailed stats line "most won with": among rows with a shared win, the
/// last with the most wins, then the most games.
pub fn most_won_teammate(teammates: &[TeammateStatsRow]) -> (r: Option<TeammateStatsRow>)
    ensures
        r == most_shared(teammates@, true),
{
    most_shared_teammate(teammates, true)
}

/// The teammate of the detailed stats line "most lost with": among rows with a shared loss, the
/// last with the most losses, then the most games.
pub fn most_lost_teammate(teammates: &[TeammateStatsRow]) -> (r: Option<TeammateStatsRow>)
    ensures
        r == most_shared(teammates@, false),
{
    most_shared_teammate(teammates, false)
}

/// A ranking shows `k` rows, or all of them when there are fewer.
pub proof fn lemma_top_rows_len(s: Seq<TeammateStatsRow>, k: nat, by_wins: bool)
    ensures
        top_rows(s, k, by_wins).len() == if k < s.len() {
            k as int
        } else {
            s.len() as int
        },
    decreases k,
{
    if k > 0 && s.len() > 0 {
        lemma_best_index_bounds(s, by_wins);
        lemma_top_rows_len(s.remove(best_index(s, by_wins)), (k - 1) as nat, by_wins);
    }
}

/// Every row a ranking shows is one of the ranked rows.
pub proof fn lemma_top_rows_from(s: Seq<TeammateStatsRow>, k: nat, by_wins: bool)
    ensures
        forall|i: int|
            0 <= i < top_rows(s, k, by_wins).len() ==> s.contains(
                #[trigger] top_rows(s, k, by_wins)[i],
            ),
    decreases k,
{
    if k > 0 && s.len() > 0 {
        let b = best_index(s, by_wins);
        lemma_best_index_bounds(s, by_wins);
        let rest = s.remove(b);
        lemma_top_rows_from(rest, (k - 1) as nat, by_wins);
        assert forall|i: int| 0 <= i < top_rows(s, k, by_wins).len() implies s.contains(
            #[trigger] top_rows(s, k, by_wins)[i],
        ) by {
            if i == 0 {
                assert(top_rows(s, k, by_wins)[0] == s[b]);
            } else {
                let x = top_rows(rest, (k - 1) as nat, by_wins)[i - 1];
                assert(top_rows(s, k, by_wins)[i] == x);
                let j = choose|j: int| 0 <= j < rest.len() && rest[j] == x;
                if j < b {
                    assert(s[j] == x);
                } else {
                    assert(s[j + 1] == x);
                }
            }
        }
    }
}

/// Two rows that rank level: the same keys and the same game name.
pub open spec fn ranks_level(a: TeammateStatsRow, b: TeammateStatsRow, by_wins: bool) -> bool {
    let (ka, kb, ta, tb) = if by_wins {
        (a.wins, b.wins, a.losses, b.losses)
    } else {
        (a.losses, b.losses, a.wins, b.wins)
    };
    ka == kb && a.games == b.games && ta == tb && a.riot_game_name@ == b.riot_game_name@
}

proof fn lemma_rank_order(a: TeammateStatsRow, b: TeammateStatsRow, c: TeammateStatsRow, by_wins: bool)
    ensures
        !ranks_ahead(a, a, by_wins),
        ranks_ahead(a, b, by_wins) ==> !ranks_ahead(b, a, by_wins),
        ranks_ahead(a, b, by_wins) || ranks_ahead(b, a, by_wins) || ranks_level(a, b, by_wins),
        ranks_ahead(a, b, by_wins) && ranks_ahead(b, c, by_wins) ==> ranks_ahead(a, c, by_wins),
        ranks_ahead(a, b, by_wins) && ranks_level(b, c, by_wins) ==> ranks_ahead(a, c, by_wins),
        ranks_level(a, b, by_wins) && ranks_ahead(b, c, by_wins) ==> ranks_ahead(a, c, by_wins),
        ranks_level(a, b, by_wins) ==> !ranks_ahead(a, b, by_wins) && !ranks_ahead(b, a, by_wins),
{
    let (na, nb, nc) = (a.riot_game_name@, b.riot_game_name@, c.riot_game_name@);
    lemma_seq_lt_irreflexive(na);
    lemma_seq_lt_irreflexive(nb);
    lemma_seq_lt_total(na, nb);
    if seq_lt(na, nb) {
        lemma_seq_lt_asymmetric(na, nb);
    }
    if seq_lt(na, nb) && seq_lt(nb, nc) {
        lemma_seq_lt_transitive(na, nb, nc);
    }
}

/// The best row of a ranking: no row ranks ahead of it, and it ranks ahead of every row before
/// it, so that of rows ranking level the first is shown first.
pub proof fn lemma_best_index_is_first_best(s: Seq<TeammateStatsRow>, by_wins: bool)
    requires
        s.len() > 0,
    ensures
        forall|j: int| 0 <= j < s.len() ==> !ranks_ahead(s[j], #[trigger] s[best_index(s, by_wins)], by_wins),
        forall|j: int| 0 <= j < best_index(s, by_wins) ==> ranks_ahead(s[best_index(s, by_wins)], #[trigger] s[j], by_wins),
    decreases s.len(),
{
    lemma_best_index_bounds(s, by_wins);
    let best = best_index(s, by_wins);
    if s.len() == 1 {
        lemma_rank_order(s[0], s[0], s[0], by_wins);
    } else {
        let d = s.drop_last();
        let b = best_index(d, by_wins);
        lemma_best_index_is_first_best(d, by_wins);
        lemma_best_index_bounds(d, by_wins);
        let last = s.last();
        assert(d[b] == s[b]);
        if ranks_ahead(last, s[b], by_wins) {
            assert(best == s.len() - 1);
            assert forall|j: int| 0 <= j < s.len() implies !ranks_ahead(s[j], #[trigger] s[best], by_wins) by {
                lemma_rank_order(s[j], last, s[b], by_wins);
                if j < s.len() - 1 {
                    assert(d[j] == s[j]);
                    assert(!ranks_ahead(d[j], d[b], by_wins));
                }
            }
            assert forall|j: int| 0 <= j < best implies ranks_ahead(s[best], #[trigger] s[j], by_wins) by {
                assert(d[j] == s[j]);
                assert(!ranks_ahead(d[j], d[b], by_wins));
                lemma_rank_order(last, s[b], s[j], by_wins);
                lemma_rank_order(s[b], s[j], s[j], by_wins);
            }
        } else {
            assert(best == b);
            assert forall|j: int| 0 <= j < s.len() implies !ranks_ahead(s[j], #[trigger] s[best], by_wins) by {
                if j < s.len() - 1 {
                    assert(d[j] == s[j]);
                }
            }
            assert forall|j: int| 0 <= j < best implies ranks_ahead(s[best], #[trigger] s[j], by_wins) by {
                assert(d[j] == s[j]);
            }
        }
    }
}

} // verus!
