//! The first round of a single-elimination bracket.
//!
//! A roster of `n` players is seated by position, without shuffling: with
//! `slots` the largest power of two below `n`, match `i` seats roster entry `i`
//! on side one and roster entry `slots + i` on side two. Where the roster has
//! no such entry, side two stays empty and side one has a bye.

use vstd::prelude::*;
use vstd::arithmetic::power2::*;
use crate::game_match::{
    fresh_match, lemma_match_id_injective, match_id_spec, Match, MatchView, PlayerNumber,
    PlayerType,
};
use crate::tournament::{roster_ids, Player};

verus! {

/// The number of rounds that a bracket of `n` players takes: the logarithm of
/// `n` to base two, rounded up.
pub open spec fn ceil_log2(n: nat) -> nat
    decreases n,
{
    if n <= 1 {
        0
    } else {
        1 + ceil_log2((n + 1) / 2)
    }
}

/// The number of matches in the first round of a bracket of `n` players: two
/// to the power of the number of rounds less one.
pub open spec fn first_round_slots(n: nat) -> nat {
    pow2((ceil_log2(n) - 1) as nat)
}

/// `ceil_log2(n)` is the least exponent `r` with `n <= 2^r`.
pub proof fn lemma_ceil_log2_bounds(n: nat)
    requires
        n >= 1,
    ensures
        n <= pow2(ceil_log2(n)),
        ceil_log2(n) >= 1 ==> pow2((ceil_log2(n) - 1) as nat) < n,
        n >= 2 ==> ceil_log2(n) >= 1,
    decreases n,
{
    lemma2_to64();
    if n > 1 {
        let h = (n + 1) / 2;
        lemma_ceil_log2_bounds(h);
        lemma_pow2_unfold(ceil_log2(n));
        if ceil_log2(h) >= 1 {
            lemma_pow2_unfold(ceil_log2(h));
        }
    }
}

/// An exponent `r` with `2^(r-1) < n <= 2^r` is `ceil_log2(n)`.
pub proof fn lemma_ceil_log2_unique(n: nat, r: nat)
    requires
        n >= 1,
        n <= pow2(r),
        r >= 1 ==> pow2((r - 1) as nat) < n,
    ensures
        r == ceil_log2(n),
{
    let c = ceil_log2(n);
    lemma_ceil_log2_bounds(n);
    if r < c {
        if r < c - 1 {
            lemma_pow2_strictly_increases(r, (c - 1) as nat);
        }
    } else if c < r {
        if c < r - 1 {
            lemma_pow2_strictly_increases(c, (r - 1) as nat);
        }
    }
}

/// The first round of `n >= 2` players has fewer matches than players, and
/// at most two players for each match.
pub proof fn lemma_first_round_slots_bounds(n: nat)
    requires
        n >= 2,
    ensures
        1 <= first_round_slots(n) < n <= 2 * first_round_slots(n),
{
    lemma_ceil_log2_bounds(n);
    lemma_pow2_unfold(ceil_log2(n));
    lemma_pow2_pos((ceil_log2(n) - 1) as nat);
}

/// The number of rounds and the number of first-round matches for `n`
/// players.
fn bracket_dimensions(n: usize) -> (dims: (u32, usize))
    requires
        n >= 2,
    ensures
        dims.0 == ceil_log2(n as nat),
        dims.1 == first_round_slots(n as nat),
        1 <= dims.0 <= usize::BITS,
        1 <= dims.1 < n <= 2 * dims.1,
{
    let mut rounds: u32 = 1;
    let mut slots: usize = 1;
    proof {
        lemma2_to64();
    }
    while slots < n - slots
        invariant
            1 <= rounds,
            1 <= slots < n,
            slots == pow2((rounds - 1) as nat),
        decreases n - slots,
    {
        proof {
            lemma_pow2_unfold(rounds as nat);
            if rounds >= 64 {
                lemma2_to64();
                if rounds > 64 {
                    lemma_pow2_strictly_increases(64, rounds as nat);
                }
            }
        }
        slots = slots * 2;
        rounds = rounds + 1;
    }
    proof {
        lemma_pow2_unfold(rounds as nat);
        lemma_ceil_log2_unique(n as nat, rounds as nat);
        lemma2_to64();
        if rounds > usize::BITS {
            lemma_pow2_strictly_increases(usize::BITS as nat, (rounds - 1) as nat);
        }
    }
    (rounds, slots)
}

/// The number of rounds that a bracket of `n` players takes: the least
/// number of halvings that leave one player.
pub fn rounds_count(n: usize) -> (rounds: u32)
    ensures
        rounds == ceil_log2(n as nat),
        rounds <= usize::BITS,
        n >= 1 ==> n <= pow2(rounds as nat),
        rounds >= 1 ==> pow2((rounds - 1) as nat) < n,
{
    proof {
        if n >= 1 {
            lemma_ceil_log2_bounds(n as nat);
        }
    }
    if n < 2 {
        0
    } else {
        bracket_dimensions(n).0
    }
}

/// The number of matches in the first round of a bracket of `n` players.
pub fn matches_count(n: usize) -> (slots: usize)
    requires
        n >= 2,
    ensures
        slots == first_round_slots(n as nat),
        1 <= slots < n <= 2 * slots,
{
    bracket_dimensions(n).1
}

/// The largest roster that can be seated: with more players, the position of a
/// match in its round would not fit its field.
pub const MAX_ROSTER: usize = 0x8000_0000;

/// Why no bracket was drawn.
#[derive(Clone, Copy, Debug, PartialEq, Eq, Structural)]
pub enum BracketError {
    /// The roster holds more than [`MAX_ROSTER`] players.
    RosterTooLarge,
}

/// The roster index seated on `side` of match `i`, in a roster of `n`: entry
/// `i` on side one; on side two the entry `slots` places further on, if the
/// roster has one.
pub open spec fn seat(n: nat, i: int, side: PlayerNumber) -> Option<int> {
    match side {
        PlayerNumber::Player1 => Some(i),
        PlayerNumber::Player2 => if first_round_slots(n) + i < n {
            Some(first_round_slots(n) + i)
        } else {
            None
        },
    }
}

/// The identity seated on `side` of match `i`, if the side is not empty.
pub open spec fn seated_id(ids: Seq<Seq<char>>, i: int, side: PlayerNumber) -> Option<Seq<char>> {
    match seat(ids.len(), i, side) {
        Some(k) => Some(ids[k]),
        None => None,
    }
}

/// Match `i` of the first round: a fresh match of round one at position
/// `i + 1`, with its identifier derived from these and its sides seated from
/// the roster.
pub open spec fn first_round_match(ids: Seq<Seq<char>>, tournament_id: int, i: int) -> MatchView {
    fresh_match(
        match_id_spec(tournament_id, 1, i + 1),
        tournament_id,
        1,
        i + 1,
        seated_id(ids, i, PlayerNumber::Player1),
        seated_id(ids, i, PlayerNumber::Player2),
    )
}

/// The first round drawn from the identities `ids`, in roster order.
pub open spec fn first_round(ids: Seq<Seq<char>>, tournament_id: int) -> Seq<MatchView> {
    Seq::new(first_round_slots(ids.len()), |i: int| first_round_match(ids, tournament_id, i))
}

/// The mathematical content of a list of matches.
pub open spec fn match_views(matches: Seq<Match>) -> Seq<MatchView> {
    matches.map_values(|m: Match| m@)
}

/// Draws the first round for a roster of at least two players. Seating goes
/// by the order of the roster. A roster of more than [`MAX_ROSTER`] players is
/// refused.
pub fn generate_matches_new_tournament(tournament_players: Vec<Player>, tournament_id: i32) -> (r:
    Result<Vec<Match>, BracketError>)
    requires
        tournament_players.len() >= 2,
    ensures
        r is Ok <==> tournament_players.len() <= MAX_ROSTER,
        r matches Ok(matches) ==> {
            &&& match_views(matches@) == first_round(
                roster_ids(tournament_players@),
                tournament_id as int,
            )
            &&& forall|i: int| 0 <= i < matches.len() ==> (#[trigger] matches[i]).wf()
        },
        r matches Err(e) ==> e == BracketError::RosterTooLarge,
{
    let n: usize = tournament_players.len();
    if n > MAX_ROSTER {
        return Err(BracketError::RosterTooLarge);
    }
    let slots: usize = matches_count(n);
    let ghost ids = roster_ids(tournament_players@);
    let mut matches: Vec<Match> = Vec::new();
    let mut i: usize = 0;
    while i < slots
        invariant
            i <= slots,
            n == tournament_players.len(),
            n <= MAX_ROSTER,
            slots == first_round_slots(n as nat),
            1 <= slots < n <= 2 * slots,
            ids == roster_ids(tournament_players@),
            matches.len() == i,
            forall|j: int| 0 <= j < i ==> (#[trigger] matches[j])@ == first_round_match(
                ids,
                tournament_id as int,
                j,
            ),
            forall|j: int| 0 <= j < i ==> (#[trigger] matches[j]).wf(),
        decreases slots - i,
    {
        let sequence_in_round: i32 = (i + 1) as i32;
        let player_1: String = tournament_players[i].discord_id.clone();
        let player_2: Option<String> = if slots + i < n {
            Some(tournament_players[slots + i].discord_id.clone())
        } else {
            None
        };
        let game_match = Match::new(
            Match::generate_id(tournament_id, 1, sequence_in_round),
            tournament_id,
            1,
            sequence_in_round,
            Some(player_1),
            player_2,
        );
        assert(game_match@ == first_round_match(ids, tournament_id as int, i as int));
        matches.push(game_match);
        i += 1;
    }
    assert(match_views(matches@) =~= first_round(ids, tournament_id as int));
    Ok(matches)
}

/// The number of byes among `matches`.
pub open spec fn bye_count(matches: Seq<MatchView>) -> nat
    decreases matches.len(),
{
    if matches.len() == 0 {
        0
    } else {
        bye_count(matches.drop_last()) + if matches.last().is_bye() {
            1nat
        } else {
            0nat
        }
    }
}

/// The number of matches among `matches` with a player on both sides.
pub open spec fn paired_count(matches: Seq<MatchView>) -> nat
    decreases matches.len(),
{
    if matches.len() == 0 {
        0
    } else {
        paired_count(matches.drop_last()) + if matches.last().player_1_type == PlayerType::Player
            && matches.last().player_2_type == PlayerType::Player {
            1nat
        } else {
            0nat
        }
    }
}

/// The identifiers of `matches`, in their order.
pub open spec fn match_ids(matches: Seq<MatchView>) -> Seq<Seq<char>> {
    matches.map_values(|m: MatchView| m.match_id)
}

/// Among the first `k` matches of a first round, those up to the number of
/// players beyond `slots` are paired and the rest are byes.
proof fn lemma_counts_of_prefix(ids: Seq<Seq<char>>, tournament_id: int, k: nat)
    requires
        ids.len() >= 2,
        k <= first_round_slots(ids.len()),
    ensures
        bye_count(first_round(ids, tournament_id).take(k as int)) == if k <= ids.len()
            - first_round_slots(ids.len()) {
            0
        } else {
            k - (ids.len() - first_round_slots(ids.len()))
        },
        paired_count(first_round(ids, tournament_id).take(k as int)) == if k <= ids.len()
            - first_round_slots(ids.len()) {
            k as int
        } else {
            ids.len() - first_round_slots(ids.len())
        },
    decreases k,
{
    lemma_first_round_slots_bounds(ids.len());
    let round = first_round(ids, tournament_id);
    if k > 0 {
        lemma_counts_of_prefix(ids, tournament_id, (k - 1) as nat);
        assert(round.take(k as int).drop_last() =~= round.take(k - 1));
        assert(round.take(k as int).last() == first_round_match(ids, tournament_id, k - 1));
    }
}

/// The first round of `n >= 2` players has `2^(ceil_log2(n) - 1)` matches,
/// each a well-formed fresh match of round one with a player on side one. Of
/// these, `n - slots` have a player on both sides and `2 * slots - n` are
/// byes. The number of byes equals `n - slots` exactly for the rosters with
/// `2 * n == 3 * slots`.
pub proof fn lemma_first_round_counts(ids: Seq<Seq<char>>, tournament_id: int)
    requires
        ids.len() >= 2,
    ensures
        first_round(ids, tournament_id).len() == pow2((ceil_log2(ids.len()) - 1) as nat),
        forall|i: int|
            0 <= i < first_round(ids, tournament_id).len() ==> {
                let m = #[trigger] first_round(ids, tournament_id)[i];
                &&& m.wf()
                &&& m.round == 1
                &&& m.sequence_in_round == i + 1
                &&& m.tournament_id == tournament_id
                &&& m.player_1_type == PlayerType::Player
                &&& m.player_2_type != PlayerType::Pending
                &&& m.winner is None
            },
        paired_count(first_round(ids, tournament_id)) == ids.len() - first_round_slots(ids.len()),
        bye_count(first_round(ids, tournament_id)) == 2 * first_round_slots(ids.len()) - ids.len(),
        bye_count(first_round(ids, tournament_id)) == ids.len() - first_round_slots(ids.len())
            <==> 2 * ids.len() == 3 * first_round_slots(ids.len()),
{
    let slots = first_round_slots(ids.len());
    let round = first_round(ids, tournament_id);
    lemma_first_round_slots_bounds(ids.len());
    lemma_counts_of_prefix(ids, tournament_id, slots);
    assert(round.take(slots as int) =~= round);
}

/// Every roster index is seated in exactly one match of the first round, on
/// exactly one side: index `k` below `slots` on side one of match `k`, any
/// other on side two of match `k - slots`. No seat holds an index outside the
/// roster.
pub proof fn lemma_every_player_seated_once(n: nat, k: int)
    requires
        n >= 2,
        0 <= k < n,
    ensures
        ({
            let slots = first_round_slots(n);
            let i0 = if k < slots {
                k
            } else {
                k - slots
            };
            let side0 = if k < slots {
                PlayerNumber::Player1
            } else {
                PlayerNumber::Player2
            };
            &&& 0 <= i0 < slots
            &&& seat(n, i0, side0) == Some(k)
            &&& forall|i: int, side: PlayerNumber|
                0 <= i < slots && #[trigger] seat(n, i, side) == Some(k) ==> i == i0 && side
                    == side0
        }),
        forall|i: int, side: PlayerNumber|
            0 <= i < first_round_slots(n) ==> (#[trigger] seat(n, i, side) matches Some(j) ==> 0
                <= j < n),
{
    lemma_first_round_slots_bounds(n);
}

/// Drawing the first round twice for the same tournament and as many players
/// gives the same identifiers in the same order, whoever the players are. And
/// within one first round no identifier occurs twice, so a second drawing
/// collides with the first on every match.
pub proof fn lemma_match_ids_repeat(
    first: Seq<MatchView>,
    second: Seq<MatchView>,
    a: Seq<Seq<char>>,
    b: Seq<Seq<char>>,
    tournament_id: int,
)
    requires
        a.len() == b.len(),
        first == first_round(a, tournament_id),
        second == first_round(b, tournament_id),
    ensures
        match_ids(first) == match_ids(second),
        match_ids(first).to_set() == match_ids(second).to_set(),
        match_ids(first).no_duplicates(),
{
    assert(match_ids(first) =~= match_ids(second));
    assert forall|i: int, j: int|
        0 <= i < match_ids(first).len() && 0 <= j < match_ids(first).len() && i != j implies match_ids(
        first,
    )[i] != match_ids(first)[j] by {
        if match_ids(first)[i] == match_ids(first)[j] {
            lemma_match_id_injective(tournament_id, 1, i + 1, tournament_id, 1, j + 1);
        }
    }
}

} // verus!
