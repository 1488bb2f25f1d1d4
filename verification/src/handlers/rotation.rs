//! The `/next` rotation: the roster in id order, and the next balanced blue team after the
//! current one among all index sets of half the roster, taken in lexicographic order.
use crate::domain::ids::DiscordUserId;
use crate::domain::shuffle::{lemma_swap_keeps_multiset, slice_swap, TeamAssignment};
use crate::domain::state::TeamSide;
use crate::handlers::types::{user_facing, HandlerError};
use crate::storage::models::{roster_team_spec, RosterPlayer};
use crate::text::{lemma_position_of_scan, position_of, lemma_seq_le_transitive, lemma_seq_lt_total, seq_le, seq_lt, str_eq, text_less, text_views};
use vstd::prelude::*;

verus! {

// ---------------------------------------------------------------------------
// Index combinations
// ---------------------------------------------------------------------------

/// The `k`-element index sets below `n` that extend `cur` with elements from `i` on, each as an
/// increasing sequence, in lexicographic order: first those that take `i`, then those that skip
/// it.
pub open spec fn combos_from(i: int, n: int, k: int, cur: Seq<usize>) -> Seq<Seq<usize>>
    decreases (if k > cur.len() { k - cur.len() } else { 0 }), (if n > i { n - i } else { 0 }),
{
    if cur.len() >= k {
        seq![cur]
    } else if i > n - (k - cur.len()) || i < 0 {
        Seq::empty()
    } else {
        combos_from(i + 1, n, k, cur.push(i as usize)) + combos_from(i + 1, n, k, cur)
    }
}

/// All `k`-element index sets below `n`, in lexicographic order (none when `k` is 0 or above
/// `n`).
pub open spec fn lex_combinations(n: int, k: int) -> Seq<Seq<usize>> {
    if k == 0 || k > n {
        Seq::empty()
    } else {
        combos_from(0, n, k, Seq::empty())
    }
}

fn copy_indices(v: &Vec<usize>) -> (r: Vec<usize>)
    ensures
        r@ == v@,
{
    let mut r: Vec<usize> = Vec::new();
    let mut i: usize = 0;
    while i < v.len()
        invariant
            i <= v.len(),
            r@ == v@.subrange(0, i as int),
        decreases v.len() - i,
    {
        r.push(v[i]);
        i += 1;
        assert(r@ =~= v@.subrange(0, i as int));
    }
    assert(r@ =~= v@);
    r
}

fn push_index_combinations(
    start: usize,
    size: usize,
    selected: usize,
    current: &mut Vec<usize>,
    combinations: &mut Vec<Vec<usize>>,
)
    requires
        old(current)@.len() <= selected <= size,
        start <= size + 1,
    ensures
        final(current)@ == old(current)@,
        final(combinations).deep_view() == old(combinations).deep_view() + combos_from(
            start as int,
            size as int,
            selected as int,
            old(current)@,
        ),
    decreases selected - old(current)@.len(), size + 1 - start,
{
    let ghost cur = current@;
    if current.len() == selected {
        let copy = copy_indices(current);
        let ghost before = combinations.deep_view();
        assert(copy.deep_view() =~= copy@);
        combinations.push(copy);
        assert(combinations.deep_view() =~= before + seq![cur]);
        return;
    }
    let remaining = selected - current.len();
    if size < start || size - start < remaining {
        assert(combos_from(start as int, size as int, selected as int, cur) =~= Seq::empty());
        assert(combinations.deep_view() =~= combinations.deep_view() + Seq::<Seq<usize>>::empty());
        return;
    }
    let last_start = size - remaining;
    let ghost base = combinations.deep_view();
    let mut index: usize = start;
    while index <= last_start
        invariant
            current@ == cur,
            cur == old(current)@,
            cur.len() < selected <= size,
            remaining == selected - cur.len(),
            last_start == size - remaining,
            start <= index <= last_start + 1,
            combinations.deep_view() + combos_from(index as int, size as int, selected as int, cur)
                == base + combos_from(start as int, size as int, selected as int, cur),
        decreases last_start + 1 - index,
    {
        let ghost before = combinations.deep_view();
        current.push(index);
        push_index_combinations(index + 1, size, selected, current, combinations);
        current.pop();
        assert(current@ =~= cur);
        proof {
            let with_i = combos_from(index + 1, size as int, selected as int, cur.push(index));
            let without_i = combos_from(index + 1, size as int, selected as int, cur);
            assert(combos_from(index as int, size as int, selected as int, cur) == with_i
                + without_i);
            assert(combinations.deep_view() == before + with_i);
            assert(before + (with_i + without_i) =~= (before + with_i) + without_i);
        }
        index += 1;
    }
    assert(combos_from(index as int, size as int, selected as int, cur) =~= Seq::empty());
    assert(combinations.deep_view() + Seq::<Seq<usize>>::empty() =~= combinations.deep_view());
}

/// All `selected`-element index sets below `size`, in lexicographic order.
pub fn index_combinations(size: usize, selected: usize) -> (r: Vec<Vec<usize>>)
    ensures
        r.deep_view() == lex_combinations(size as int, selected as int),
{
    if selected == 0 || selected > size {
        let r: Vec<Vec<usize>> = Vec::new();
        assert(r.deep_view() =~= Seq::<Seq<usize>>::empty());
        return r;
    }
    let mut combinations: Vec<Vec<usize>> = Vec::new();
    let mut current: Vec<usize> = Vec::new();
    assert(combinations.deep_view() =~= Seq::<Seq<usize>>::empty());
    assert(current@ =~= Seq::<usize>::empty());
    push_index_combinations(0, size, selected, &mut current, &mut combinations);
    assert(combinations.deep_view() =~= lex_combinations(size as int, selected as int));
    combinations
}

/// Each index set generated from a strictly increasing prefix is strictly increasing, has `k`
/// elements, starts with the prefix, and stays below `n`.
proof fn lemma_combos_shape(i: int, n: int, k: int, cur: Seq<usize>)
    requires
        0 <= i,
        n <= usize::MAX,
        cur.len() <= k,
        forall|a: int, b: int| 0 <= a < b < cur.len() ==> cur[a] < cur[b],
        forall|a: int| 0 <= a < cur.len() ==> cur[a] < i && cur[a] < n,
    ensures
        forall|c: int| 0 <= c < combos_from(i, n, k, cur).len() ==> {
            let x = #[trigger] combos_from(i, n, k, cur)[c];
            &&& x.len() == k
            &&& x.subrange(0, cur.len() as int) == cur
            &&& forall|a: int, b: int| 0 <= a < b < x.len() ==> x[a] < x[b]
            &&& forall|a: int| 0 <= a < x.len() ==> x[a] < n
        },
    decreases (if k > cur.len() { k - cur.len() } else { 0 }), (if n > i { n - i } else { 0 }),
{
    if cur.len() >= k {
        assert(cur.subrange(0, cur.len() as int) =~= cur);
    } else if i > n - (k - cur.len()) {
    } else {
        let pushed = cur.push(i as usize);
        assert forall|a: int, b: int| 0 <= a < b < pushed.len() implies pushed[a] < pushed[b] by {
            if b == cur.len() {
                assert(pushed[b] == i);
            }
        }
        lemma_combos_shape(i + 1, n, k, pushed);
        lemma_combos_shape(i + 1, n, k, cur);
        let left = combos_from(i + 1, n, k, pushed);
        let right = combos_from(i + 1, n, k, cur);
        assert forall|c: int| 0 <= c < combos_from(i, n, k, cur).len() implies {
            let x = #[trigger] combos_from(i, n, k, cur)[c];
            &&& x.len() == k
            &&& x.subrange(0, cur.len() as int) == cur
            &&& forall|a: int, b: int| 0 <= a < b < x.len() ==> x[a] < x[b]
            &&& forall|a: int| 0 <= a < x.len() ==> x[a] < n
        } by {
            if c < left.len() {
                let x = left[c];
                assert(combos_from(i, n, k, cur)[c] == x);
                assert(x.subrange(0, cur.len() as int) =~= x.subrange(0, pushed.len() as int).subrange(
                    0,
                    cur.len() as int,
                ));
                assert(pushed.subrange(0, cur.len() as int) =~= cur);
            } else {
                assert(combos_from(i, n, k, cur)[c] == right[c - left.len()]);
            }
        }
    }
}

/// There is at least one index set whenever enough indices remain.
proof fn lemma_combos_nonempty(i: int, n: int, k: int, cur: Seq<usize>)
    requires
        0 <= i,
        cur.len() <= k,
        n - i >= k - cur.len(),
    ensures
        combos_from(i, n, k, cur).len() > 0,
    decreases k - cur.len(),
{
    if cur.len() < k {
        lemma_combos_nonempty(i + 1, n, k, cur.push(i as usize));
    }
}

/// Every entry of `lex_combinations(n, k)` holds `k` increasing indices below `n`, and there is
/// at least one entry whenever `1 <= k <= n`.
pub proof fn lemma_lex_combinations_shape(n: int, k: int)
    requires
        0 <= k,
        n <= usize::MAX,
    ensures
        1 <= k <= n ==> lex_combinations(n, k).len() > 0,
        forall|c: int| 0 <= c < lex_combinations(n, k).len() ==> {
            let x = #[trigger] lex_combinations(n, k)[c];
            &&& x.len() == k
            &&& forall|a: int, b: int| 0 <= a < b < x.len() ==> x[a] < x[b]
            &&& forall|a: int| 0 <= a < x.len() ==> x[a] < n
        },
{
    if 1 <= k <= n {
        lemma_combos_shape(0, n, k, Seq::empty());
        lemma_combos_nonempty(0, n, k, Seq::empty());
        assert forall|c: int| 0 <= c < lex_combinations(n, k).len() implies {
            let x = #[trigger] lex_combinations(n, k)[c];
            &&& x.len() == k
            &&& forall|a: int, b: int| 0 <= a < b < x.len() ==> x[a] < x[b]
            &&& forall|a: int| 0 <= a < x.len() ==> x[a] < n
        } by {
            assert(lex_combinations(n, k)[c] == combos_from(0, n, k, Seq::empty())[c]);
        }
    }
}

// ---------------------------------------------------------------------------
// Sorting ids
// ---------------------------------------------------------------------------

pub open spec fn sorted_between(s: Seq<Seq<char>>, lo: int, hi: int) -> bool {
    forall|a: int, b: int| lo <= a < b < hi ==> seq_le(#[trigger] s[a], #[trigger] s[b])
}

/// Sorts texts into the order of `str` comparison, keeping the same texts.
fn sort_texts(v: &mut Vec<String>)
    ensures
        final(v)@.len() == old(v)@.len(),
        sorted_between(text_views(final(v)@), 0, final(v)@.len() as int),
        text_views(final(v)@).to_multiset() == text_views(old(v)@).to_multiset(),
{
    let n = v.len();
    if n == 0 {
        return;
    }
    let mut i: usize = 1;
    while i < n
        invariant
            1 <= i <= n,
            v@.len() == n,
            n == old(v)@.len(),
            sorted_between(text_views(v@), 0, i as int),
            text_views(v@).to_multiset() == text_views(old(v)@).to_multiset(),
        decreases n - i,
    {
        let mut j: usize = i;
        while j > 0 && text_less(v[j].as_str(), v[j - 1].as_str())
            invariant
                1 <= i < n,
                j <= i,
                v@.len() == n,
                n == old(v)@.len(),
                sorted_between(text_views(v@), 0, j as int),
                sorted_between(text_views(v@), j + 1, i + 1),
                forall|b: int| j < b <= i ==> seq_lt(text_views(v@)[j as int], #[trigger] text_views(v@)[b]),
                forall|a: int, b: int|
                    0 <= a < j < b <= i ==> seq_le(#[trigger] text_views(v@)[a], #[trigger] text_views(v@)[b]),
                text_views(v@).to_multiset() == text_views(old(v)@).to_multiset(),
            decreases j,
        {
            let ghost sv = text_views(v@);
            proof {
                lemma_swap_keeps_multiset(sv, j - 1, j as int);
            }
            slice_swap(v.as_mut_slice(), j - 1, j);
            let ghost nv = text_views(v@);
            assert(nv =~= sv.update(j - 1, sv[j as int]).update(j as int, sv[j - 1]));
            proof {
                let x = sv[j as int];
                let y = sv[j - 1];
                assert forall|a: int, b: int| 0 <= a < b < j - 1 implies seq_le(#[trigger] nv[a], #[trigger] nv[b]) by {
                    assert(nv[a] == sv[a] && nv[b] == sv[b]);
                }
                assert forall|a: int, b: int| j <= a < b < i + 1 implies seq_le(#[trigger] nv[a], #[trigger] nv[b]) by {
                    if a == j {
                        assert(nv[a] == y && nv[b] == sv[b]);
                    } else {
                        assert(nv[a] == sv[a] && nv[b] == sv[b]);
                    }
                }
                assert forall|b: int| j - 1 < b <= i implies seq_lt(nv[j - 1], #[trigger] nv[b]) by {
                    assert(nv[j - 1] == x);
                    if b == j {
                        assert(nv[b] == y);
                    } else {
                        assert(nv[b] == sv[b]);
                    }
                }
                assert forall|a: int, b: int| 0 <= a < j - 1 < b <= i implies seq_le(#[trigger] nv[a], #[trigger] nv[b]) by {
                    assert(nv[a] == sv[a]);
                    if b == j {
                        assert(nv[b] == y);
                    } else {
                        assert(nv[b] == sv[b]);
                    }
                }
            }
            j -= 1;
        }
        proof {
            let sv = text_views(v@);
            assert forall|a: int, b: int| 0 <= a < b < i + 1 implies seq_le(#[trigger] sv[a], #[trigger] sv[b]) by {
                if b == j && a < j {
                    lemma_seq_lt_total(sv[j as int], sv[j - 1]);
                    if a < j - 1 {
                        lemma_seq_le_transitive(sv[a], sv[j - 1], sv[j as int]);
                    }
                } else if a == j && b > j {
                } else if a < j && b > j {
                } else if b < j {
                } else {
                    assert(a > j);
                }
            }
        }
        i += 1;
    }
}

// ---------------------------------------------------------------------------
// The next rotation
// ---------------------------------------------------------------------------

pub open spec fn roster_ids(roster: Seq<RosterPlayer>) -> Seq<Seq<char>> {
    roster.map_values(|p: RosterPlayer| p.discord_user_id@)
}

/// The id belongs to a roster player who played on blue.
pub open spec fn is_blue_id(roster: Seq<RosterPlayer>, id: Seq<char>) -> bool {
    blue_among(roster, roster.len() as int, id)
}

/// The id belongs to one of the first `k` roster players and that player played on blue.
pub open spec fn blue_among(roster: Seq<RosterPlayer>, k: int, id: Seq<char>) -> bool {
    exists|m: int|
        0 <= m < k && (#[trigger] roster[m]).discord_user_id@ == id && roster_team_spec(roster[m])
            == Some(TeamSide::Blue)
}

pub open spec fn texts_have(texts: Seq<String>, x: Seq<char>) -> bool {
    exists|m: int| 0 <= m < texts.len() && (#[trigger] texts[m])@ == x
}

/// The positions among the first `m` sorted ids whose players played on blue, ascending.
pub open spec fn blue_positions(ids: Seq<Seq<char>>, roster: Seq<RosterPlayer>, m: int) -> Seq<
    usize,
>
    decreases m,
{
    if m <= 0 {
        Seq::empty()
    } else if is_blue_id(roster, ids[m - 1]) {
        blue_positions(ids, roster, m - 1).push((m - 1) as usize)
    } else {
        blue_positions(ids, roster, m - 1)
    }
}

/// The set after `current` in `combos`, wrapping around; the first set when `current` is not
/// one of them.
pub open spec fn rotation_next(combos: Seq<Seq<usize>>, current: Seq<usize>) -> Seq<usize> {
    match position_of(combos, current) {
        Some(p) => combos[(p + 1) % (combos.len() as int)],
        None => combos[0],
    }
}

/// How many of the first `i` positions are on the blue side (`blue`) or the red side.
pub open spec fn side_count(blue_set: Seq<usize>, i: int, blue: bool) -> nat
    decreases i,
{
    if i <= 0 {
        0
    } else {
        side_count(blue_set, i - 1, blue) + if blue_set.contains((i - 1) as usize) == blue {
            1nat
        } else {
            0nat
        }
    }
}

pub open spec fn capped_slot(count: nat) -> u8 {
    if count < 255 {
        count as u8
    } else {
        255
    }
}

/// The assignments for sorted ids `ids` and blue index set `blue_set`: blue players are those at
/// the positions in the set, and each side numbers its players from 0 in id order, with slots
/// kept in a byte that stops at 255.
pub open spec fn rotation_assignment_ok(a: Seq<TeamAssignment>, blue_set: Seq<usize>) -> bool {
    forall|i: int|
        0 <= i < a.len() ==> {
            let in_blue = blue_set.contains(i as usize);
            &&& (#[trigger] a[i]).team == (if in_blue {
                TeamSide::Blue
            } else {
                TeamSide::Red
            })
            &&& a[i].slot == capped_slot(side_count(blue_set, i, in_blue))
        }
}

pub open spec fn assignment_ids(a: Seq<TeamAssignment>) -> Seq<Seq<char>> {
    a.map_values(|x: TeamAssignment| x.discord_user_id@)
}

pub open spec fn next_rotation_ok(roster: Seq<RosterPlayer>, a: Seq<TeamAssignment>) -> bool {
    let n = roster.len() as int;
    let ids = assignment_ids(a);
    &&& a.len() == n
    &&& sorted_between(ids, 0, n)
    &&& ids.to_multiset() == roster_ids(roster).to_multiset()
    &&& rotation_assignment_ok(
        a,
        rotation_next(lex_combinations(n, n / 2), blue_positions(ids, roster, n)),
    )
}

fn texts_contain(texts: &Vec<String>, x: &str) -> (r: bool)
    ensures
        r == texts_have(texts@, x@),
{
    let mut k: usize = 0;
    while k < texts.len()
        invariant
            k <= texts.len(),
            forall|m: int| 0 <= m < k ==> (#[trigger] texts@[m])@ != x@,
        decreases texts.len() - k,
    {
        if str_eq(texts[k].as_str(), x) {
            return true;
        }
        k += 1;
    }
    false
}

fn indices_equal(a: &Vec<usize>, b: &Vec<usize>) -> (r: bool)
    ensures
        r == (a@ == b@),
{
    if a.len() != b.len() {
        return false;
    }
    let mut k: usize = 0;
    while k < a.len()
        invariant
            a.len() == b.len(),
            k <= a.len(),
            forall|m: int| 0 <= m < k ==> a@[m] == b@[m],
        decreases a.len() - k,
    {
        if a[k] != b[k] {
            return false;
        }
        k += 1;
    }
    assert(a@ =~= b@);
    true
}

fn indices_contain(a: &Vec<usize>, x: usize) -> (r: bool)
    ensures
        r == a@.contains(x),
{
    let mut k: usize = 0;
    while k < a.len()
        invariant
            k <= a.len(),
            forall|m: int| 0 <= m < k ==> a@[m] != x,
        decreases a.len() - k,
    {
        if a[k] == x {
            assert(a@[k as int] == x);
            return true;
        }
        k += 1;
    }
    false
}

/// Builds the next game's teams from the previous roster: the players in id order, with the
/// blue team moved on to the next index set of half the roster (see `next_rotation_ok`).
pub fn next_rotation_assignments(roster: &[RosterPlayer]) -> (r: Result<
    Vec<TeamAssignment>,
    HandlerError,
>)
    ensures
        roster@.len() < 2 ==> (r matches Err(HandlerError::UserFacing(m)) && m@
            == "`/next` needs at least two players in the previous game."@),
        roster@.len() >= 2 && roster@.len() % 2 != 0 ==> (r matches Err(
            HandlerError::UserFacing(m),
        ) && m@ == "`/next` needs an even previous roster. Use `/create` for the new roster."@),
        roster@.len() >= 2 && roster@.len() % 2 == 0 ==> (r matches Ok(a) && next_rotation_ok(
            roster@,
            a@,
        )),
{
    let n = roster.len();
    if n < 2 {
        return Err(user_facing("`/next` needs at least two players in the previous game."));
    }
    if n % 2 != 0 {
        return Err(
            user_facing("`/next` needs an even previous roster. Use `/create` for the new roster."),
        );
    }
    // the roster ids, sorted
    let mut players: Vec<String> = Vec::new();
    let mut k: usize = 0;
    while k < n
        invariant
            n == roster@.len(),
            k <= n,
            text_views(players@) == roster_ids(roster@).subrange(0, k as int),
        decreases n - k,
    {
        let id = roster[k].discord_user_id.clone();
        assert(id@ == roster@[k as int].discord_user_id@);
        let ghost before = players@;
        players.push(id);
        assert(players@ == before.push(id));
        assert(text_views(players@) =~= text_views(before).push(id@));
        k += 1;
        assert(text_views(players@) =~= roster_ids(roster@).subrange(0, k as int));
    }
    assert(roster_ids(roster@).subrange(0, n as int) =~= roster_ids(roster@));
    sort_texts(&mut players);
    let ghost ids = text_views(players@);
    let team_size = n / 2;
    let combinations = index_combinations(n, team_size);
    proof {
        lemma_lex_combinations_shape(n as int, team_size as int);
    }
    // the ids that played blue
    let mut blue_ids: Vec<String> = Vec::new();
    let mut k: usize = 0;
    while k < n
        invariant
            n == roster@.len(),
            k <= n,
            forall|x: Seq<char>| #[trigger] texts_have(blue_ids@, x) <==> blue_among(roster@, k as int, x),
        decreases n - k,
    {
        let ghost before = blue_ids@;
        let is_blue = roster[k].team_side() == Some(TeamSide::Blue);
        if is_blue {
            blue_ids.push(roster[k].discord_user_id.clone());
        }
        proof {
            assert forall|x: Seq<char>| #[trigger] texts_have(blue_ids@, x) <==> blue_among(roster@, k + 1, x) by {
                if texts_have(blue_ids@, x) {
                    let m = choose|m: int| 0 <= m < blue_ids@.len() && (#[trigger] blue_ids@[m])@ == x;
                    if m < before.len() {
                        assert(before[m] == blue_ids@[m]);
                        assert(texts_have(before, x));
                    }
                }
                if blue_among(roster@, k + 1, x) {
                    let m = choose|m: int|
                        0 <= m < k + 1 && (#[trigger] roster@[m]).discord_user_id@ == x
                            && roster_team_spec(roster@[m]) == Some(TeamSide::Blue);
                    if m < k {
                        assert(blue_among(roster@, k as int, x));
                        assert(texts_have(before, x));
                        let q = choose|q: int| 0 <= q < before.len() && (#[trigger] before[q])@ == x;
                        assert(blue_ids@[q] == before[q]);
                    } else {
                        assert(blue_ids@[before.len() as int]@ == x);
                    }
                }
                if blue_among(roster@, k as int, x) {
                    let m = choose|m: int|
                        0 <= m < k && (#[trigger] roster@[m]).discord_user_id@ == x
                            && roster_team_spec(roster@[m]) == Some(TeamSide::Blue);
                    assert(blue_among(roster@, k + 1, x));
                }
            }
        }
        k += 1;
    }
    // the current blue positions in sorted order
    let mut current: Vec<usize> = Vec::new();
    let mut k: usize = 0;
    while k < n
        invariant
            n == players@.len(),
            ids == text_views(players@),
            k <= n,
            current@ == blue_positions(ids, roster@, k as int),
            forall|x: Seq<char>| #[trigger] texts_have(blue_ids@, x) <==> is_blue_id(roster@, x),
        decreases n - k,
    {
        if texts_contain(&blue_ids, players[k].as_str()) {
            current.push(k);
        }
        k += 1;
    }
    // the position of the current split among all splits
    let mut p: usize = 0;
    while p < combinations.len() && !indices_equal(&combinations[p], &current)
        invariant
            p <= combinations@.len(),
            forall|m: int| 0 <= m < p ==> combinations.deep_view()[m] != current@,
        decreases combinations.len() - p,
    {
        assert(combinations.deep_view()[p as int] == combinations@[p as int]@);
        p += 1;
    }
    let ghost combos = combinations.deep_view();
    if combinations.len() == 0 {
        return Err(user_facing("Could not build the next rotation."));
    }
    let next = if p < combinations.len() {
        proof {
            assert(combos[p as int] == combinations@[p as int]@);
            lemma_position_of_scan(combos, current@, p as int);
        }
        let q = (p + 1) % combinations.len();
        assert(combos[q as int] == combinations@[q as int]@);
        copy_indices(&combinations[q])
    } else {
        proof {
            lemma_position_of_scan(combos, current@, p as int);
        }
        assert(combos[0] == combinations@[0]@);
        copy_indices(&combinations[0])
    };
    assert(next@ == rotation_next(lex_combinations(n as int, (n / 2) as int), current@));
    let mut blue_slot: u8 = 0;
    let mut red_slot: u8 = 0;
    let mut assignments: Vec<TeamAssignment> = Vec::new();
    let mut i: usize = 0;
    while i < n
        invariant
            n == players@.len(),
            ids == text_views(players@),
            i <= n,
            assignments@.len() == i,
            blue_slot == capped_slot(side_count(next@, i as int, true)),
            red_slot == capped_slot(side_count(next@, i as int, false)),
            forall|m: int| 0 <= m < i ==> (#[trigger] assignments@[m]).discord_user_id@ == ids[m],
            rotation_assignment_ok(assignments@, next@),
        decreases n - i,
    {
        let in_blue = indices_contain(&next, i);
        let (team, slot) = if in_blue {
            let slot = blue_slot;
            blue_slot = if blue_slot < 255 {
                blue_slot + 1
            } else {
                255
            };
            (TeamSide::Blue, slot)
        } else {
            let slot = red_slot;
            red_slot = if red_slot < 255 {
                red_slot + 1
            } else {
                255
            };
            (TeamSide::Red, slot)
        };
        let id = DiscordUserId::from_string(players[i].clone());
        assignments.push(TeamAssignment { discord_user_id: id, team, slot });
        i += 1;
    }
    assert(assignment_ids(assignments@) =~= ids);
    Ok(assignments)
}

// ---------------------------------------------------------------------------
// Balance
// ---------------------------------------------------------------------------

/// How many elements of `x` are below `i`.
spec fn below(x: Seq<usize>, i: int) -> nat
    decreases x.len(),
{
    if x.len() == 0 {
        0
    } else {
        below(x.drop_last(), i) + if x.last() < i {
            1nat
        } else {
            0nat
        }
    }
}

spec fn increasing(x: Seq<usize>) -> bool {
    forall|a: int, b: int| 0 <= a < b < x.len() ==> x[a] < x[b]
}

proof fn lemma_below_step(x: Seq<usize>, i: int)
    requires
        increasing(x),
        1 <= i <= usize::MAX,
    ensures
        below(x, i) == below(x, i - 1) + if x.contains((i - 1) as usize) {
            1nat
        } else {
            0nat
        },
    decreases x.len(),
{
    if x.len() > 0 {
        let d = x.drop_last();
        assert(increasing(d)) by {
            assert forall|a: int, b: int| 0 <= a < b < d.len() implies d[a] < d[b] by {
                assert(d[a] == x[a] && d[b] == x[b]);
            }
        }
        lemma_below_step(d, i);
        if x.last() == (i - 1) as usize {
            assert(!d.contains((i - 1) as usize)) by {
                if d.contains((i - 1) as usize) {
                    let k = choose|k: int| 0 <= k < d.len() && d[k] == (i - 1) as usize;
                    assert(x[k] < x[x.len() - 1]);
                }
            }
            assert(x.contains((i - 1) as usize)) by {
                assert(x[x.len() - 1] == (i - 1) as usize);
            }
        } else {
            if x.contains((i - 1) as usize) {
                let k = choose|k: int| 0 <= k < x.len() && x[k] == (i - 1) as usize;
                assert(k < x.len() - 1);
                assert(d[k] == x[k]);
            }
            if d.contains((i - 1) as usize) {
                let k = choose|k: int| 0 <= k < d.len() && d[k] == (i - 1) as usize;
                assert(x[k] == d[k]);
            }
        }
    }
}

proof fn lemma_side_count_is_below(x: Seq<usize>, i: int)
    requires
        increasing(x),
        0 <= i <= usize::MAX,
    ensures
        side_count(x, i, true) == below(x, i),
    decreases i,
{
    if i > 0 {
        lemma_side_count_is_below(x, i - 1);
        lemma_below_step(x, i);
    } else {
        lemma_below_zero(x, i);
    }
}

proof fn lemma_below_zero(x: Seq<usize>, i: int)
    requires
        i <= 0,
    ensures
        below(x, i) == 0,
    decreases x.len(),
{
    if x.len() > 0 {
        lemma_below_zero(x.drop_last(), i);
    }
}

proof fn lemma_below_all(x: Seq<usize>, n: int)
    requires
        forall|a: int| 0 <= a < x.len() ==> x[a] < n,
    ensures
        below(x, n) == x.len(),
    decreases x.len(),
{
    if x.len() > 0 {
        let d = x.drop_last();
        assert forall|a: int| 0 <= a < d.len() implies d[a] < n by {
            assert(d[a] == x[a]);
        }
        lemma_below_all(d, n);
    }
}

proof fn lemma_rotation_prefix(a: Seq<TeamAssignment>, blue_set: Seq<usize>, k: int)
    requires
        rotation_assignment_ok(a, blue_set),
        0 <= k <= a.len(),
    ensures
        crate::domain::shuffle::team_size_of(a.take(k), TeamSide::Blue) == side_count(
            blue_set,
            k,
            true,
        ),
    decreases k,
{
    if k > 0 {
        lemma_rotation_prefix(a, blue_set, k - 1);
        assert(a.take(k).drop_last() =~= a.take(k - 1));
        assert(a.take(k).last() == a[k - 1]);
    }
}

/// `/next` puts exactly half of the previous roster on blue.
pub proof fn lemma_next_rotation_is_balanced(roster: Seq<RosterPlayer>, a: Seq<TeamAssignment>)
    requires
        roster.len() >= 2,
        roster.len() % 2 == 0,
        roster.len() <= usize::MAX,
        next_rotation_ok(roster, a),
    ensures
        crate::domain::shuffle::team_size_of(a, TeamSide::Blue) == roster.len() / 2,
{
    let n = roster.len() as int;
    let combos = lex_combinations(n, n / 2);
    let cur = blue_positions(assignment_ids(a), roster, n);
    let x = rotation_next(combos, cur);
    lemma_lex_combinations_shape(n, n / 2);
    let c = match position_of(combos, cur) {
        Some(p) => (p + 1) % (combos.len() as int),
        None => 0,
    };
    assert(0 <= c < combos.len()) by {
        if let Some(p) = position_of(combos, cur) {
            assert(combos.len() > 0);
        }
    }
    assert(x == combos[c]);
    assert(x.len() == n / 2);
    lemma_rotation_prefix(a, x, n);
    assert(a.take(n) =~= a);
    lemma_side_count_is_below(x, n);
    lemma_below_all(x, n);
}

// ---------------------------------------------------------------------------
// Cycling through the splits
// ---------------------------------------------------------------------------

/// Every index set generated from `cur` continues it with elements from `i` on.
proof fn lemma_combos_tail_from(i: int, n: int, k: int, cur: Seq<usize>)
    requires
        0 <= i,
        n <= usize::MAX,
    ensures
        forall|c: int, a: int|
            0 <= c < combos_from(i, n, k, cur).len() && cur.len() <= a < combos_from(
                i,
                n,
                k,
                cur,
            )[c].len() ==> combos_from(i, n, k, cur)[c][a] >= i,
    decreases (if k > cur.len() { k - cur.len() } else { 0 }), (if n > i { n - i } else { 0 }),
{
    if cur.len() >= k {
    } else if i > n - (k - cur.len()) {
    } else {
        let pushed = cur.push(i as usize);
        lemma_combos_tail_from(i + 1, n, k, pushed);
        lemma_combos_tail_from(i + 1, n, k, cur);
        let left = combos_from(i + 1, n, k, pushed);
        let right = combos_from(i + 1, n, k, cur);
        lemma_combos_shape_prefix(i + 1, n, k, pushed);
        assert forall|c: int, a: int|
            0 <= c < combos_from(i, n, k, cur).len() && cur.len() <= a < combos_from(
                i,
                n,
                k,
                cur,
            )[c].len() implies combos_from(i, n, k, cur)[c][a] >= i by {
            if c < left.len() {
                assert(combos_from(i, n, k, cur)[c] == left[c]);
                if a == cur.len() {
                    assert(left[c].subrange(0, pushed.len() as int)[a] == pushed[a]);
                }
            } else {
                assert(combos_from(i, n, k, cur)[c] == right[c - left.len()]);
            }
        }
    }
}

/// Every index set generated from `cur` starts with `cur`.
proof fn lemma_combos_shape_prefix(i: int, n: int, k: int, cur: Seq<usize>)
    requires
        0 <= i,
    ensures
        forall|c: int|
            0 <= c < combos_from(i, n, k, cur).len() ==> (#[trigger] combos_from(i, n, k, cur)[c]).len()
                >= cur.len() && combos_from(i, n, k, cur)[c].subrange(0, cur.len() as int) == cur,
    decreases (if k > cur.len() { k - cur.len() } else { 0 }), (if n > i { n - i } else { 0 }),
{
    if cur.len() >= k {
        assert(cur.subrange(0, cur.len() as int) =~= cur);
    } else if i > n - (k - cur.len()) {
    } else {
        let pushed = cur.push(i as usize);
        lemma_combos_shape_prefix(i + 1, n, k, pushed);
        lemma_combos_shape_prefix(i + 1, n, k, cur);
        let left = combos_from(i + 1, n, k, pushed);
        let right = combos_from(i + 1, n, k, cur);
        assert forall|c: int| 0 <= c < combos_from(i, n, k, cur).len() implies (
        #[trigger] combos_from(i, n, k, cur)[c]).len() >= cur.len() && combos_from(
            i,
            n,
            k,
            cur,
        )[c].subrange(0, cur.len() as int) == cur by {
            if c < left.len() {
                let x = left[c];
                assert(combos_from(i, n, k, cur)[c] == x);
                assert(x.subrange(0, cur.len() as int) =~= x.subrange(0, pushed.len() as int).subrange(
                    0,
                    cur.len() as int,
                ));
                assert(pushed.subrange(0, cur.len() as int) =~= cur);
            } else {
                assert(combos_from(i, n, k, cur)[c] == right[c - left.len()]);
            }
        }
    }
}

/// Every index set generated from a shorter prefix has `k` elements.
proof fn lemma_combos_len(i: int, n: int, k: int, cur: Seq<usize>)
    requires
        0 <= i,
        cur.len() < k,
    ensures
        forall|c: int|
            0 <= c < combos_from(i, n, k, cur).len() ==> (#[trigger] combos_from(i, n, k, cur)[c]).len()
                == k,
    decreases k - cur.len(), (if n > i { n - i } else { 0 }),
{
    if i > n - (k - cur.len()) {
    } else {
        let pushed = cur.push(i as usize);
        if pushed.len() < k {
            lemma_combos_len(i + 1, n, k, pushed);
        }
        lemma_combos_len(i + 1, n, k, cur);
        let left = combos_from(i + 1, n, k, pushed);
        let right = combos_from(i + 1, n, k, cur);
        assert forall|c: int| 0 <= c < combos_from(i, n, k, cur).len() implies (
        #[trigger] combos_from(i, n, k, cur)[c]).len() == k by {
            if c < left.len() {
                assert(combos_from(i, n, k, cur)[c] == left[c]);
            } else {
                assert(combos_from(i, n, k, cur)[c] == right[c - left.len()]);
            }
        }
    }
}

pub open spec fn no_repeats(s: Seq<Seq<usize>>) -> bool {
    forall|a: int, b: int| 0 <= a < b < s.len() ==> s[a] != s[b]
}

/// No index set is generated twice.
proof fn lemma_combos_distinct(i: int, n: int, k: int, cur: Seq<usize>)
    requires
        0 <= i,
        n <= usize::MAX,
    ensures
        no_repeats(combos_from(i, n, k, cur)),
    decreases (if k > cur.len() { k - cur.len() } else { 0 }), (if n > i { n - i } else { 0 }),
{
    if cur.len() >= k {
    } else if i > n - (k - cur.len()) {
    } else {
        let pushed = cur.push(i as usize);
        lemma_combos_distinct(i + 1, n, k, pushed);
        lemma_combos_distinct(i + 1, n, k, cur);
        lemma_combos_shape_prefix(i + 1, n, k, pushed);
        lemma_combos_shape_prefix(i + 1, n, k, cur);
        lemma_combos_tail_from(i + 1, n, k, cur);
        let left = combos_from(i + 1, n, k, pushed);
        let right = combos_from(i + 1, n, k, cur);
        let all = combos_from(i, n, k, cur);
        lemma_combos_len(i + 1, n, k, cur);
        assert forall|a: int, b: int| 0 <= a < b < all.len() implies all[a] != all[b] by {
            if b < left.len() {
                assert(all[a] == left[a] && all[b] == left[b]);
            } else if a >= left.len() {
                assert(all[a] == right[a - left.len()] && all[b] == right[b - left.len()]);
            } else {
                let x = left[a];
                let y = right[b - left.len()];
                assert(all[a] == x && all[b] == y);
                let j = cur.len() as int;
                assert(x.subrange(0, pushed.len() as int)[j] == pushed[j]);
                assert(x[j] == i);
                assert(y.len() == k);
                assert(y[j] >= i + 1);
            }
        }
    }
}

/// Repeated `/next` walks through every balanced split in turn: the split after the `p`-th in
/// lexicographic order is the next one, and after the last comes the first.
pub proof fn lemma_next_rotation_cycles(n: int, k: int, p: int)
    requires
        1 <= k <= n <= usize::MAX,
        0 <= p < lex_combinations(n, k).len(),
    ensures
        rotation_next(lex_combinations(n, k), lex_combinations(n, k)[p]) == lex_combinations(
            n,
            k,
        )[(p + 1) % (lex_combinations(n, k).len() as int)],
{
    let combos = lex_combinations(n, k);
    lemma_combos_distinct(0, n, k, Seq::empty());
    assert(no_repeats(combos));
    lemma_position_of_scan(combos, combos[p], p);
}

} // verus!
