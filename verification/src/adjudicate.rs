//! The decision of a match from its evidence.
//!
//! The records are read oldest first, from the point of view of the side that
//! submits them. The side that first collects the required number of wins
//! takes the match.

use vstd::prelude::*;
use crate::models::{BattleLogItem, BattleResult};
use crate::tournament::Tournament;

verus! {

/// What the evidence says of a match.
#[derive(Clone, Copy, Debug, PartialEq, Eq, Structural)]
pub enum Verdict {
    /// The side that submitted the evidence takes the match.
    SubmitterWins,
    /// The other side takes the match.
    OpponentWins,
    /// Neither side has collected the required wins.
    Inconclusive,
}

/// The results of a list of records, in their order.
pub open spec fn results_of(battles: Seq<BattleLogItem>) -> Seq<BattleResult> {
    battles.map_values(|b: BattleLogItem| b.battle.result)
}

/// How often `what` occurs in `results`.
pub open spec fn count_of(results: Seq<BattleResult>, what: BattleResult) -> nat
    decreases results.len(),
{
    if results.len() == 0 {
        0
    } else {
        count_of(results.drop_last(), what) + if results.last() == what {
            1nat
        } else {
            0nat
        }
    }
}

/// The submitter's victories among the first `k` results.
pub open spec fn victories(results: Seq<BattleResult>, k: int) -> nat {
    count_of(results.take(k), BattleResult::Victory)
}

/// The submitter's defeats among the first `k` results.
pub open spec fn defeats(results: Seq<BattleResult>, k: int) -> nat {
    count_of(results.take(k), BattleResult::Defeat)
}

/// After `k` results the submitter has the required wins and the opponent
/// has not.
pub open spec fn submitter_clinches(
    results: Seq<BattleResult>,
    wins_required: int,
    k: int,
) -> bool {
    &&& 0 <= k <= results.len()
    &&& victories(results, k) >= wins_required
    &&& defeats(results, k) < wins_required
}

/// After `k` results the opponent has the required wins and the submitter
/// has not.
pub open spec fn opponent_clinches(
    results: Seq<BattleResult>,
    wins_required: int,
    k: int,
) -> bool {
    &&& 0 <= k <= results.len()
    &&& defeats(results, k) >= wins_required
    &&& victories(results, k) < wins_required
}

/// The verdict on a list of results: the side that is first to have the
/// required wins takes the match; with no such side, there is no decision.
pub open spec fn verdict_of(results: Seq<BattleResult>, wins_required: int) -> Verdict {
    if exists|k: int| submitter_clinches(results, wins_required, k) {
        Verdict::SubmitterWins
    } else if exists|k: int| opponent_clinches(results, wins_required, k) {
        Verdict::OpponentWins
    } else {
        Verdict::Inconclusive
    }
}

/// One more result adds at most one to a count, and only where it is the
/// result counted.
pub proof fn lemma_count_step(results: Seq<BattleResult>, what: BattleResult, k: int)
    requires
        0 <= k < results.len(),
    ensures
        count_of(results.take(k + 1), what) == count_of(results.take(k), what) + if results[k]
            == what {
            1nat
        } else {
            0nat
        },
{
    assert(results.take(k + 1).drop_last() =~= results.take(k));
    assert(results.take(k + 1).last() == results[k]);
}

/// A count over a longer prefix is no smaller.
pub proof fn lemma_count_monotone(results: Seq<BattleResult>, what: BattleResult, j: int, k: int)
    requires
        0 <= j <= k <= results.len(),
    ensures
        count_of(results.take(j), what) <= count_of(results.take(k), what),
    decreases k - j,
{
    if j < k {
        lemma_count_monotone(results, what, j, k - 1);
        lemma_count_step(results, what, k - 1);
    }
}

/// Decides a match from its evidence `battles`, oldest first, as seen by the
/// side that submits it: that side takes the match if it is first to have
/// `wins_required` victories, the other side if the submitter is first to
/// have as many defeats.
pub fn analyse(tournament: &Tournament, battles: &Vec<BattleLogItem>) -> (verdict: Verdict)
    requires
        tournament.wf(),
    ensures
        verdict == verdict_of(results_of(battles@), tournament.wins_required as int),
{
    let wins_required: i32 = tournament.wins_required;
    let ghost results = results_of(battles@);
    let mut victory: i32 = 0;
    let mut defeat: i32 = 0;
    let mut i: usize = 0;
    proof {
        assert(results.take(0) =~= Seq::<BattleResult>::empty());
    }
    while i < battles.len()
        invariant
            i <= battles.len(),
            wins_required >= 1,
            wins_required == tournament.wins_required,
            results == results_of(battles@),
            victory == victories(results, i as int),
            defeat == defeats(results, i as int),
            victory < wins_required,
            defeat < wins_required,
        decreases battles.len() - i,
    {
        proof {
            lemma_count_step(results, BattleResult::Victory, i as int);
            lemma_count_step(results, BattleResult::Defeat, i as int);
        }
        match battles[i].battle.result {
            BattleResult::Victory => {
                victory += 1;
            },
            BattleResult::Defeat => {
                defeat += 1;
            },
            _ => {},
        }
        i += 1;
        if defeat == wins_required && victory < wins_required {
            proof {
                assert(opponent_clinches(results, wins_required as int, i as int));
                assert forall|k: int| !submitter_clinches(results, wins_required as int, k) by {
                    if 0 <= k <= results.len() {
                        if k <= i {
                            lemma_count_monotone(results, BattleResult::Victory, k, i as int);
                        } else {
                            lemma_count_monotone(results, BattleResult::Defeat, i as int, k);
                        }
                    }
                }
            }
            return Verdict::OpponentWins;
        } else if victory >= wins_required {
            proof {
                assert(submitter_clinches(results, wins_required as int, i as int));
            }
            return Verdict::SubmitterWins;
        }
    }
    proof {
        assert forall|k: int|
            !submitter_clinches(results, wins_required as int, k) && !opponent_clinches(
                results,
                wins_required as int,
                k,
            ) by {
            if 0 <= k <= results.len() {
                lemma_count_monotone(results, BattleResult::Victory, k, results.len() as int);
                lemma_count_monotone(results, BattleResult::Defeat, k, results.len() as int);
            }
        }
    }
    Verdict::Inconclusive
}

/// Where a side has the required wins after `k` results, some side is the
/// first to have had them, at `k` or before.
proof fn lemma_first_clinch(results: Seq<BattleResult>, wins_required: int, k: int)
    requires
        wins_required >= 1,
        0 <= k <= results.len(),
        victories(results, k) >= wins_required || defeats(results, k) >= wins_required,
    ensures
        exists|j: int|
            submitter_clinches(results, wins_required, j) || opponent_clinches(
                results,
                wins_required,
                j,
            ),
    decreases k,
{
    if k == 0 {
        assert(results.take(0) =~= Seq::<BattleResult>::empty());
    } else if victories(results, k - 1) >= wins_required || defeats(results, k - 1)
        >= wins_required {
        lemma_first_clinch(results, wins_required, k - 1);
    } else {
        lemma_count_step(results, BattleResult::Victory, k - 1);
        lemma_count_step(results, BattleResult::Defeat, k - 1);
        assert(submitter_clinches(results, wins_required, k) || opponent_clinches(
            results,
            wins_required,
            k,
        ));
    }
}

/// The verdict goes to the submitter exactly when the submitter is first to
/// have the required wins, to the opponent exactly when the opponent is, and
/// the two never both are. There is no decision exactly when, over all the
/// results, the submitter has fewer victories and fewer defeats than
/// required.
pub proof fn lemma_verdict_characterised(results: Seq<BattleResult>, wins_required: int)
    requires
        wins_required >= 1,
    ensures
        verdict_of(results, wins_required) == Verdict::SubmitterWins <==> exists|k: int|
            submitter_clinches(results, wins_required, k),
        verdict_of(results, wins_required) == Verdict::OpponentWins <==> exists|k: int|
            opponent_clinches(results, wins_required, k),
        !((exists|k: int| submitter_clinches(results, wins_required, k)) && (exists|k: int|
            opponent_clinches(results, wins_required, k))),
        verdict_of(results, wins_required) == Verdict::Inconclusive <==> victories(
            results,
            results.len() as int,
        ) < wins_required && defeats(results, results.len() as int) < wins_required,
{
    let n = results.len() as int;
    if (exists|k: int| submitter_clinches(results, wins_required, k)) && (exists|k: int|
        opponent_clinches(results, wins_required, k)) {
        let a = choose|k: int| submitter_clinches(results, wins_required, k);
        let b = choose|k: int| opponent_clinches(results, wins_required, k);
        if a <= b {
            lemma_count_monotone(results, BattleResult::Victory, a, b);
        } else {
            lemma_count_monotone(results, BattleResult::Defeat, b, a);
        }
    }
    if victories(results, n) >= wins_required || defeats(results, n) >= wins_required {
        lemma_first_clinch(results, wins_required, n);
    } else {
        assert forall|k: int|
            !submitter_clinches(results, wins_required, k) && !opponent_clinches(
                results,
                wins_required,
                k,
            ) by {
            if 0 <= k <= n {
                lemma_count_monotone(results, BattleResult::Victory, k, n);
                lemma_count_monotone(results, BattleResult::Defeat, k, n);
            }
        }
    }
}

/// The verdict as far as the totals tell it: with the required victories
/// and fewer defeats over all the results the submitter takes the match, with
/// the required defeats and fewer victories the opponent does, and with
/// fewer decisive results than required wins there is no decision.
pub proof fn lemma_verdict_by_totals(results: Seq<BattleResult>, wins_required: int)
    requires
        wins_required >= 1,
    ensures
        victories(results, results.len() as int) >= wins_required && defeats(
            results,
            results.len() as int,
        ) < wins_required ==> verdict_of(results, wins_required) == Verdict::SubmitterWins,
        defeats(results, results.len() as int) >= wins_required && victories(
            results,
            results.len() as int,
        ) < wins_required ==> verdict_of(results, wins_required) == Verdict::OpponentWins,
        victories(results, results.len() as int) + defeats(results, results.len() as int)
            < wins_required ==> verdict_of(results, wins_required) == Verdict::Inconclusive,
{
    let n = results.len() as int;
    lemma_verdict_characterised(results, wins_required);
    if victories(results, n) >= wins_required && defeats(results, n) < wins_required {
        assert(submitter_clinches(results, wins_required, n));
    }
    if defeats(results, n) >= wins_required && victories(results, n) < wins_required {
        assert(opponent_clinches(results, wins_required, n));
    }
}

} // verus!
