//! Fisher-Yates shuffling and even team splits.
use crate::domain::ids::DiscordUserId;
use crate::domain::state::TeamSide;
use vstd::prelude::*;

verus! {

broadcast use vstd::seq_lib::group_to_multiset_ensures;

/// A source of random 32-bit words. A source that keeps a record of the words it hands out
/// says so with `records_draws`; `drawn` is then that record, oldest first, and each draw
/// appends the word it returns. A source that keeps none promises nothing about its words.
pub trait Rng {
    open spec fn records_draws() -> bool {
        false
    }

    open spec fn drawn(&self) -> Seq<u32> {
        Seq::empty()
    }

    fn next_u32(&mut self) -> (r: u32)
        ensures
            Self::records_draws() ==> final(self).drawn() == old(self).drawn().push(r),
    ;
}

#[derive(Debug, PartialEq, Eq)]
pub struct TeamAssignment {
    pub discord_user_id: DiscordUserId,
    pub team: TeamSide,
    pub slot: u8,
}

impl Clone for TeamAssignment {
    fn clone(&self) -> (r: Self)
        ensures
            r == *self,
    {
        TeamAssignment {
            discord_user_id: self.discord_user_id.clone(),
            team: self.team,
            slot: self.slot,
        }
    }
}

#[derive(Debug, Clone, Copy, PartialEq, Eq, Structural)]
pub enum ShuffleError {
    TooFewPlayers,
    OddPlayerCount,
}

impl ShuffleError {
    pub open spec fn message_spec(self) -> Seq<char> {
        match self {
            ShuffleError::TooFewPlayers => "at least two players are required"@,
            ShuffleError::OddPlayerCount => "player count must be even to randomize"@,
        }
    }

    pub fn message(self) -> (r: &'static str)
        ensures
            r@ == self.message_spec(),
    {
        match self {
            ShuffleError::TooFewPlayers => "at least two players are required",
            ShuffleError::OddPlayerCount => "player count must be even to randomize",
        }
    }
}

/// Exchanges two elements of a slice (`<[T]>::swap`).
#[verifier::external_body]
pub(crate) fn slice_swap<T>(items: &mut [T], i: usize, j: usize)
    requires
        i < old(items)@.len(),
        j < old(items)@.len(),
    ensures
        final(items)@ == old(items)@.update(i as int, old(items)@[j as int]).update(
            j as int,
            old(items)@[i as int],
        ),
{
    items.swap(i, j);
}

proof fn lemma_update_multiset<T>(s: Seq<T>, i: int, x: T)
    requires
        0 <= i < s.len(),
    ensures
        s.update(i, x).to_multiset() == s.to_multiset().remove(s[i]).insert(x),
{
    let u = s.update(i, x);
    assert(u.remove(i) =~= s.remove(i));
    assert(u.remove(i).to_multiset() == u.to_multiset().remove(x));
    assert(s.remove(i).to_multiset() == s.to_multiset().remove(s[i]));
    assert(u.to_multiset().count(x) > 0) by {
        assert(u.contains(x)) by {
            assert(u[i] == x);
        }
    }
    assert(u.to_multiset() =~= u.to_multiset().remove(x).insert(x));
}

/// Exchanging two elements keeps the multiset of elements.
pub proof fn lemma_swap_keeps_multiset<T>(s: Seq<T>, i: int, j: int)
    requires
        0 <= i < s.len(),
        0 <= j < s.len(),
    ensures
        s.update(i, s[j]).update(j, s[i]).to_multiset() == s.to_multiset(),
{
    let a = s[i];
    let b = s[j];
    let u = s.update(i, b);
    lemma_update_multiset(s, i, b);
    lemma_update_multiset(u, j, a);
    let m = s.to_multiset();
    if i == j {
        assert(s.update(i, s[j]).update(j, s[i]) =~= s);
    } else {
        assert(u[j] == b);
        assert(m.count(a) > 0) by {
            assert(s.contains(a)) by {
                assert(s[i] == a);
            }
        }
        assert(m.remove(a).insert(b).remove(b).insert(a) =~= m);
    }
}

/// The words below which a draw for `upper` is kept: the largest multiple of `upper` that
/// fits below `u32::MAX`.
pub open spec fn zone_of(upper: nat) -> u32 {
    (u32::MAX as nat - (u32::MAX as nat) % upper) as u32
}

/// How many words one rejection-sampled draw takes from the front of `w`: words are taken
/// until one lies below `zone`, or until `budget` further rejections are used up; `None` when
/// `w` ends before that.
pub open spec fn block_len(w: Seq<u32>, zone: u32, budget: nat) -> Option<nat>
    decreases w.len(),
{
    if w.len() == 0 {
        None
    } else if w[0] < zone || budget == 0 {
        Some(1)
    } else {
        match block_len(w.drop_first(), zone, (budget - 1) as nat) {
            Some(c) => Some(c + 1),
            None => None,
        }
    }
}

/// The words an rng drew after it had drawn `before`.
pub open spec fn drawn_after(before: Seq<u32>, after: Seq<u32>) -> Seq<u32> {
    after.skip(before.len() as int)
}

/// `after` extends the record `before`.
pub open spec fn extends(before: Seq<u32>, after: Seq<u32>) -> bool {
    before.len() <= after.len() && after.take(before.len() as int) == before
}

proof fn lemma_block_len_bounded(w: Seq<u32>, zone: u32, budget: nat)
    ensures
        block_len(w, zone, budget) matches Some(c) ==> 1 <= c <= w.len(),
    decreases w.len(),
{
    if w.len() > 0 && !(w[0] < zone || budget == 0) {
        lemma_block_len_bounded(w.drop_first(), zone, (budget - 1) as nat);
    }
}

proof fn lemma_block_len_extend(w: Seq<u32>, d: Seq<u32>, zone: u32, budget: nat)
    requires
        block_len(w, zone, budget) is Some,
    ensures
        block_len(w + d, zone, budget) == block_len(w, zone, budget),
    decreases w.len(),
{
    assert((w + d)[0] == w[0]);
    if !(w[0] < zone || budget == 0) {
        assert((w + d).drop_first() =~= w.drop_first() + d);
        lemma_block_len_extend(w.drop_first(), d, zone, (budget - 1) as nat);
    }
}

/// A block of rejected words followed by one more word is one complete draw.
proof fn lemma_block_closes(d: Seq<u32>, v: u32, zone: u32, budget: nat)
    requires
        forall|p: int| 0 <= p < d.len() ==> #[trigger] d[p] >= zone,
        v < zone || budget == 0,
    ensures
        block_len(d.push(v), zone, budget + d.len()) == Some(d.len() + 1),
    decreases d.len(),
{
    if d.len() > 0 {
        let rest = d.drop_first();
        assert(d.push(v).drop_first() =~= rest.push(v));
        assert forall|p: int| 0 <= p < rest.len() implies #[trigger] rest[p] >= zone by {
            assert(rest[p] == d[p + 1]);
        }
        lemma_block_closes(rest, v, zone, budget);
        assert(d.push(v)[0] == d[0]);
        assert(d[0] >= zone);
    } else {
        assert(d.push(v) =~= seq![v]);
        assert(seq![v].drop_first().len() == 0);
    }
}

/// An index below `upper`, drawn by rejection sampling so that every index is equally likely
/// when the words are; after `u64::MAX` rejected draws the last word is reduced as it is.
/// The words drawn form one complete draw, and the index is the last of them modulo `upper`.
fn unbiased_index<R: Rng>(rng: &mut R, upper: usize) -> (r: usize)
    requires
        1 <= upper <= u32::MAX,
    ensures
        r < upper,
        R::records_draws() ==> {
            &&& extends(old(rng).drawn(), final(rng).drawn())
            &&& block_len(
                drawn_after(old(rng).drawn(), final(rng).drawn()),
                zone_of(upper as nat),
                u64::MAX as nat,
            ) == Some(drawn_after(old(rng).drawn(), final(rng).drawn()).len())
            &&& r as int == drawn_after(old(rng).drawn(), final(rng).drawn()).last() as int
                % upper as int
        },
{
    let upper32: u32 = upper as u32;
    let zone: u32 = u32::MAX - (u32::MAX % upper32);
    assert(zone == zone_of(upper as nat));
    let mut budget: u64 = u64::MAX;
    let ghost h0: Seq<u32> = rng.drawn();
    proof {
        assert(rng.drawn().take(h0.len() as int) =~= h0);
    }
    loop
        invariant
            upper32 == upper,
            1 <= upper <= u32::MAX,
            zone == zone_of(upper as nat),
            h0 == old(rng).drawn(),
            R::records_draws() ==> {
                &&& extends(h0, rng.drawn())
                &&& drawn_after(h0, rng.drawn()).len() + budget == u64::MAX
                &&& forall|p: int|
                    0 <= p < drawn_after(h0, rng.drawn()).len() ==> #[trigger] drawn_after(
                        h0,
                        rng.drawn(),
                    )[p] >= zone
            },
        decreases budget,
    {
        let ghost before: Seq<u32> = rng.drawn();
        let value = rng.next_u32();
        proof {
            if R::records_draws() {
                let d = drawn_after(h0, before);
                assert(drawn_after(h0, rng.drawn()) =~= d.push(value));
                assert(rng.drawn().take(h0.len() as int) =~= before.take(h0.len() as int));
            }
        }
        if value < zone || budget == 0 {
            proof {
                if R::records_draws() {
                    let d = drawn_after(h0, before);
                    lemma_block_closes(d, value, zone, budget as nat);
                }
            }
            return (value % upper32) as usize;
        }
        budget -= 1;
    }
}

/// Exchanges the elements at `i` and `j`.
pub open spec fn swap_spec<T>(s: Seq<T>, i: int, j: int) -> Seq<T> {
    s.update(i, s[j]).update(j, s[i])
}

/// The first `k` steps of a Fisher-Yates shuffle of `items` fed by the words `w`: step `k`
/// draws an index `j` at most `i = |items| - k` with one complete draw from the unused words,
/// and exchanges the elements at `i` and `j`. The result is the sequence and how many words
/// were used, or `None` when `w` runs out first.
pub open spec fn fy_steps<T>(items: Seq<T>, w: Seq<u32>, k: nat) -> Option<(Seq<T>, nat)>
    decreases k,
{
    if k == 0 {
        Some((items, 0nat))
    } else {
        match fy_steps(items, w, (k - 1) as nat) {
            None => None,
            Some((prev, used)) => {
                let i = items.len() - k;
                let upper = (i + 1) as nat;
                match block_len(w.skip(used as int), zone_of(upper), u64::MAX as nat) {
                    None => None,
                    Some(c) => Some(
                        (swap_spec(prev, i, w[used + c - 1] as int % upper as int), used + c),
                    ),
                }
            },
        }
    }
}

/// How many steps a shuffle of `n` elements takes: one for each index from `n - 1` down to 1.
pub open spec fn fy_step_count(n: nat) -> nat {
    if n == 0 {
        0
    } else {
        (n - 1) as nat
    }
}

proof fn lemma_fy_steps_extend<T>(items: Seq<T>, w: Seq<u32>, d: Seq<u32>, k: nat)
    requires
        fy_steps(items, w, k) is Some,
    ensures
        fy_steps(items, w + d, k) == fy_steps(items, w, k),
        fy_steps(items, w, k) matches Some((_, used)) && used <= w.len(),
    decreases k,
{
    if k > 0 {
        lemma_fy_steps_extend(items, w, d, (k - 1) as nat);
        let (prev, used) = fy_steps(items, w, (k - 1) as nat)->0;
        let upper = (items.len() - k + 1) as nat;
        assert((w + d).skip(used as int) =~= w.skip(used as int) + d);
        lemma_block_len_extend(w.skip(used as int), d, zone_of(upper), u64::MAX as nat);
        lemma_block_len_bounded(w.skip(used as int), zone_of(upper), u64::MAX as nat);
        let c = block_len(w.skip(used as int), zone_of(upper), u64::MAX as nat)->0;
        assert((w + d)[used + c - 1] == w[used + c - 1]);
    }
}

/// Shuffles `items` in place; the result is a rearrangement of the same elements. Going from
/// the last index down to 1, each index `i` is exchanged with an index `j <= i` drawn from
/// `rng`, so that the shuffle is the one `fy_steps` describes on the words drawn.
pub fn fisher_yates<T, R: Rng>(items: &mut [T], rng: &mut R)
    requires
        old(items)@.len() <= u32::MAX,
    ensures
        final(items)@.len() == old(items)@.len(),
        final(items)@.to_multiset() == old(items)@.to_multiset(),
        old(items)@.len() < 2 ==> *final(rng) == *old(rng),
        R::records_draws() ==> {
            &&& extends(old(rng).drawn(), final(rng).drawn())
            &&& fy_steps(
                old(items)@,
                drawn_after(old(rng).drawn(), final(rng).drawn()),
                fy_step_count(old(items)@.len()),
            ) == Some((final(items)@, drawn_after(old(rng).drawn(), final(rng).drawn()).len()))
        },
{
    let n = items.len();
    if n < 2 {
        proof {
            assert(drawn_after(rng.drawn(), rng.drawn()).len() == 0);
            assert(rng.drawn().take(rng.drawn().len() as int) =~= rng.drawn());
            assert(fy_step_count(n as nat) == 0);
        }
        return;
    }
    let ghost h0: Seq<u32> = rng.drawn();
    let ghost start: Seq<T> = items@;
    proof {
        assert(rng.drawn().take(h0.len() as int) =~= h0);
        assert(drawn_after(h0, rng.drawn()).len() == 0);
    }
    let mut i: usize = n - 1;
    while i >= 1
        invariant
            n == old(items)@.len(),
            start == old(items)@,
            h0 == old(rng).drawn(),
            items@.len() == n,
            n <= u32::MAX,
            i < n,
            items@.to_multiset() == old(items)@.to_multiset(),
            R::records_draws() ==> {
                &&& extends(h0, rng.drawn())
                &&& fy_steps(start, drawn_after(h0, rng.drawn()), (n - 1 - i) as nat) == Some(
                    (items@, drawn_after(h0, rng.drawn()).len()),
                )
            },
        decreases i,
    {
        let ghost before: Seq<u32> = rng.drawn();
        let ghost prev: Seq<T> = items@;
        let upper = i + 1;
        let j = unbiased_index(rng, upper);
        proof {
            if R::records_draws() {
                let w = drawn_after(h0, before);
                let d = drawn_after(before, rng.drawn());
                let k = (n - 1 - i) as nat;
                assert(drawn_after(h0, rng.drawn()) =~= w + d) by {
                    assert(rng.drawn().take(before.len() as int) == before);
                }
                assert(rng.drawn().take(h0.len() as int) =~= before.take(h0.len() as int));
                lemma_fy_steps_extend(start, w, d, k);
                assert((w + d).skip(w.len() as int) =~= d);
                assert((w + d)[w.len() + d.len() - 1] == d.last());
                assert(start.len() - (k + 1) == i);
            }
            lemma_swap_keeps_multiset(items@, i as int, j as int);
        }
        slice_swap(items, i, j);
        i -= 1;
    }
}

/// The side and slot of the player at `index` after a shuffle of `count` players: the first
/// half is blue, the second half red, slots counting from 0 within each side (kept in a byte).
pub open spec fn split_position(index: int, count: int) -> (TeamSide, u8) {
    if index < count / 2 {
        (TeamSide::Blue, (index % 256) as u8)
    } else {
        (TeamSide::Red, ((index - count / 2) % 256) as u8)
    }
}

pub open spec fn assignment_users(assignments: Seq<TeamAssignment>) -> Seq<DiscordUserId> {
    assignments.map_values(|a: TeamAssignment| a.discord_user_id)
}

/// Splits an even roster of at least two players into two equal teams, in shuffled order.
pub fn split_even_teams<R: Rng>(players: &[DiscordUserId], rng: &mut R) -> (r: Result<
    Vec<TeamAssignment>,
    ShuffleError,
>)
    requires
        players@.len() <= u32::MAX,
    ensures
        players@.len() < 2 ==> r == Err::<Vec<TeamAssignment>, ShuffleError>(
            ShuffleError::TooFewPlayers,
        ),
        players@.len() >= 2 && players@.len() % 2 != 0 ==> r == Err::<
            Vec<TeamAssignment>,
            ShuffleError,
        >(ShuffleError::OddPlayerCount),
        players@.len() >= 2 && players@.len() % 2 == 0 ==> r is Ok,
        r is Err ==> *final(rng) == *old(rng),
        R::records_draws() ==> {
            &&& extends(old(rng).drawn(), final(rng).drawn())
            &&& r matches Ok(a) ==> fy_steps(
                players@,
                drawn_after(old(rng).drawn(), final(rng).drawn()),
                fy_step_count(players@.len()),
            ) == Some(
                (assignment_users(a@), drawn_after(old(rng).drawn(), final(rng).drawn()).len()),
            )
        },
        r matches Ok(a) ==> {
            &&& a@.len() == players@.len()
            &&& assignment_users(a@).to_multiset() == players@.to_multiset()
            &&& forall|i: int|
                0 <= i < a@.len() ==> (#[trigger] a@[i].team, a@[i].slot) == split_position(
                    i,
                    a@.len() as int,
                )
        },
{
    let n = players.len();
    proof {
        assert(rng.drawn().take(rng.drawn().len() as int) =~= rng.drawn());
    }
    if n < 2 {
        return Err(ShuffleError::TooFewPlayers);
    }
    if n % 2 != 0 {
        return Err(ShuffleError::OddPlayerCount);
    }
    let mut shuffled: Vec<DiscordUserId> = Vec::new();
    let mut k: usize = 0;
    while k < n
        invariant
            n == players@.len(),
            k <= n,
            shuffled@ == players@.subrange(0, k as int),
        decreases n - k,
    {
        shuffled.push(players[k].clone());
        k += 1;
        assert(shuffled@ =~= players@.subrange(0, k as int));
    }
    assert(shuffled@ =~= players@);
    fisher_yates(shuffled.as_mut_slice(), rng);
    let midpoint = n / 2;
    let mut assignments: Vec<TeamAssignment> = Vec::new();
    let mut idx: usize = 0;
    while idx < n
        invariant
            n == shuffled@.len(),
            midpoint == n / 2,
            idx <= n,
            assignments@.len() == idx,
            forall|i: int| 0 <= i < idx ==> (#[trigger] assignments@[i]).discord_user_id == shuffled@[i],
            forall|i: int|
                0 <= i < idx ==> (#[trigger] assignments@[i].team, assignments@[i].slot)
                    == split_position(i, n as int),
        decreases n - idx,
    {
        let (team, slot) = if idx < midpoint {
            (TeamSide::Blue, idx)
        } else {
            (TeamSide::Red, idx - midpoint)
        };
        let slot_byte: u8 = (slot % 256) as u8;
        assignments.push(
            TeamAssignment { discord_user_id: shuffled[idx].clone(), team, slot: slot_byte },
        );
        idx += 1;
    }
    assert(assignment_users(assignments@) =~= shuffled@);
    Ok(assignments)
}

/// How many assignments put a player on `side`.
pub open spec fn team_size_of(a: Seq<TeamAssignment>, side: TeamSide) -> nat
    decreases a.len(),
{
    if a.len() == 0 {
        0
    } else {
        team_size_of(a.drop_last(), side) + if a.last().team == side {
            1nat
        } else {
            0nat
        }
    }
}

proof fn lemma_split_prefix_sizes(a: Seq<TeamAssignment>, k: int)
    requires
        0 <= k <= a.len(),
        forall|i: int|
            0 <= i < a.len() ==> (#[trigger] a[i].team, a[i].slot) == split_position(
                i,
                a.len() as int,
            ),
    ensures
        team_size_of(a.take(k), TeamSide::Blue) == if k < a.len() / 2 {
            k
        } else {
            (a.len() / 2) as int
        },
        team_size_of(a.take(k), TeamSide::Red) == if k < a.len() / 2 {
            0
        } else {
            k - a.len() / 2
        },
    decreases k,
{
    if k > 0 {
        lemma_split_prefix_sizes(a, k - 1);
        assert(a.take(k).drop_last() =~= a.take(k - 1));
        assert(a.take(k).last() == a[k - 1]);
        assert((a[k - 1].team, a[k - 1].slot) == split_position(k - 1, a.len() as int));
    }
}

/// An even split puts half of the players on each side.
pub proof fn lemma_split_is_balanced(a: Seq<TeamAssignment>)
    requires
        forall|i: int|
            0 <= i < a.len() ==> (#[trigger] a[i].team, a[i].slot) == split_position(
                i,
                a.len() as int,
            ),
        a.len() % 2 == 0,
    ensures
        team_size_of(a, TeamSide::Blue) == a.len() / 2,
        team_size_of(a, TeamSide::Red) == a.len() / 2,
{
    lemma_split_prefix_sizes(a, a.len() as int);
    assert(a.take(a.len() as int) =~= a);
}

/// In an even split the first half of the shuffled players is blue and the second half red,
/// each side's slots counting 0, 1, 2, ... in order (while a slot fits in its byte, that is for
/// up to 512 players).
pub proof fn lemma_split_sides(a: Seq<TeamAssignment>)
    requires
        forall|i: int|
            0 <= i < a.len() ==> (#[trigger] a[i].team, a[i].slot) == split_position(
                i,
                a.len() as int,
            ),
        a.len() <= 512,
    ensures
        forall|i: int|
            0 <= i < a.len() ==> {
                &&& (#[trigger] a[i].team == TeamSide::Blue <==> i < a.len() / 2)
                &&& a[i].team == TeamSide::Red <==> i >= a.len() / 2
                &&& a[i].slot == if i < a.len() / 2 {
                    i
                } else {
                    i - a.len() / 2
                }
            },
{
    assert forall|i: int| 0 <= i < a.len() implies {
        &&& (#[trigger] a[i].team == TeamSide::Blue <==> i < a.len() / 2)
        &&& a[i].team == TeamSide::Red <==> i >= a.len() / 2
        &&& a[i].slot == if i < a.len() / 2 {
            i
        } else {
            i - a.len() / 2
        }
    } by {
        assert((a[i].team, a[i].slot) == split_position(i, a.len() as int));
    }
}

} // verus!
