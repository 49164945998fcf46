//! Selection of the battle records that count as evidence for a match.
//!
//! A record counts when it was fought after the tournament was created, in
//! the tournament's mode, not as a friendly battle, and between the two
//! players of the match.

use vstd::prelude::*;
use vstd::string::*;
use crate::models::BattleLogItem;
use crate::text::str_eq;
use crate::tournament::Tournament;

verus! {

/// Two glyphs agree when they are the same character, or when one is the
/// letter `O` and the other the digit `0`.
pub open spec fn glyph_match(c1: char, c2: char) -> bool {
    c1 == c2 || (c1 == 'O' && c2 == '0') || (c1 == '0' && c2 == 'O')
}

/// Two tags agree when they have the same length and agree glyph by glyph.
pub open spec fn tags_match(a: Seq<char>, b: Seq<char>) -> bool {
    &&& a.len() == b.len()
    &&& forall|i: int| 0 <= i < a.len() ==> glyph_match(#[trigger] a[i], b[i])
}

/// Whether two tags name the same game account. The comparison is sensitive
/// to case, and takes the letter `O` and the digit `0` for one another.
pub fn compare_tag(s1: &str, s2: &str) -> (same: bool)
    ensures
        same == tags_match(s1@, s2@),
{
    let n: usize = s1.unicode_len();
    if n != s2.unicode_len() {
        return false;
    }
    let mut i: usize = 0;
    while i < n
        invariant
            i <= n,
            n == s1@.len(),
            n == s2@.len(),
            forall|j: int| 0 <= j < i ==> glyph_match(#[trigger] s1@[j], s2@[j]),
        decreases n - i,
    {
        let c1: char = s1.get_char(i);
        let c2: char = s2.get_char(i);
        if !(c1 == c2 || (c1 == 'O' && c2 == '0') || (c1 == '0' && c2 == 'O')) {
            return false;
        }
        i += 1;
    }
    true
}

/// Whether `c` is the letter given in its lower or its upper case.
pub open spec fn is_letter(c: char, lower: char, upper: char) -> bool {
    c == lower || c == upper
}

/// Whether a battle type names the friendly category: the word `friendly`,
/// each letter in either case.
pub open spec fn is_friendly(battle_type: Seq<char>) -> bool {
    &&& battle_type.len() == 8
    &&& is_letter(battle_type[0], 'f', 'F')
    &&& is_letter(battle_type[1], 'r', 'R')
    &&& is_letter(battle_type[2], 'i', 'I')
    &&& is_letter(battle_type[3], 'e', 'E')
    &&& is_letter(battle_type[4], 'n', 'N')
    &&& is_letter(battle_type[5], 'd', 'D')
    &&& is_letter(battle_type[6], 'l', 'L')
    &&& is_letter(battle_type[7], 'y', 'Y')
}

/// Whether the character at `i` is the letter given, in either case.
fn letter_at(s: &str, i: usize, lower: char, upper: char) -> (hit: bool)
    requires
        i < s@.len(),
    ensures
        hit == is_letter(s@[i as int], lower, upper),
{
    let c: char = s.get_char(i);
    c == lower || c == upper
}

/// Whether a battle type names the friendly category.
pub fn is_friendly_type(battle_type: &str) -> (friendly: bool)
    ensures
        friendly == is_friendly(battle_type@),
{
    battle_type.unicode_len() == 8 && letter_at(battle_type, 0, 'f', 'F') && letter_at(
        battle_type,
        1,
        'r',
        'R',
    ) && letter_at(battle_type, 2, 'i', 'I') && letter_at(battle_type, 3, 'e', 'E') && letter_at(
        battle_type,
        4,
        'n',
        'N',
    ) && letter_at(battle_type, 5, 'd', 'D') && letter_at(battle_type, 6, 'l', 'L') && letter_at(
        battle_type,
        7,
        'y',
        'Y',
    )
}

/// The record was fought no earlier than the tournament was created.
pub open spec fn fought_since(entry: BattleLogItem, created_at: int) -> bool {
    entry.battle_time >= created_at
}

/// Both the event and the battle of the record are of the mode given.
pub open spec fn mode_matches(entry: BattleLogItem, mode: Seq<char>) -> bool {
    entry.battle.mode@ == mode && entry.event.mode@ == mode
}

/// The record is not of the friendly category.
pub open spec fn is_competitive(entry: BattleLogItem) -> bool {
    !is_friendly(entry.battle.battle_type@)
}

/// The tags in the first slots of the first two teams of the record, where it
/// has them.
pub open spec fn leading_tags(entry: BattleLogItem) -> Option<(Seq<char>, Seq<char>)> {
    let teams = entry.battle.teams@;
    if teams.len() >= 2 && teams[0]@.len() >= 1 && teams[1]@.len() >= 1 {
        Some((teams[0]@[0].tag@, teams[1]@[0].tag@))
    } else {
        None
    }
}

/// The first slots of the two opposing teams hold the two tags given, in
/// either order.
pub open spec fn opponents_match(entry: BattleLogItem, tag_1: Seq<char>, tag_2: Seq<char>) -> bool {
    match leading_tags(entry) {
        Some((a, b)) => (tags_match(a, tag_1) && tags_match(b, tag_2)) || (tags_match(a, tag_2)
            && tags_match(b, tag_1)),
        None => false,
    }
}

/// Whether a record counts as evidence for the match between the accounts
/// `tag_1` and `tag_2`, in a tournament created at `created_at` and played in
/// `mode`.
pub open spec fn admissible(
    entry: BattleLogItem,
    tag_1: Seq<char>,
    tag_2: Seq<char>,
    created_at: int,
    mode: Seq<char>,
) -> bool {
    &&& fought_since(entry, created_at)
    &&& mode_matches(entry, mode)
    &&& is_competitive(entry)
    &&& opponents_match(entry, tag_1, tag_2)
}

/// The test that [`filter`] applies to each record.
pub open spec fn admissible_for(
    tag_1: Seq<char>,
    tag_2: Seq<char>,
    created_at: int,
    mode: Seq<char>,
) -> spec_fn(BattleLogItem) -> bool {
    |entry: BattleLogItem| admissible(entry, tag_1, tag_2, created_at, mode)
}

/// Whether a record counts as evidence for the match between the accounts
/// `tag_1` and `tag_2` of `tournament`.
pub fn is_admissible(
    entry: &BattleLogItem,
    tournament: &Tournament,
    tag_1: &str,
    tag_2: &str,
) -> (ok: bool)
    ensures
        ok == admissible(*entry, tag_1@, tag_2@, tournament.created_at as int, tournament.mode@),
{
    if entry.battle_time < tournament.created_at {
        return false;
    }
    if !str_eq(entry.battle.mode.as_str(), tournament.mode.as_str()) || !str_eq(
        entry.event.mode.as_str(),
        tournament.mode.as_str(),
    ) {
        return false;
    }
    if is_friendly_type(entry.battle.battle_type.as_str()) {
        return false;
    }
    let teams = &entry.battle.teams;
    if teams.len() < 2 || teams[0].len() < 1 || teams[1].len() < 1 {
        return false;
    }
    let a: &str = teams[0][0].tag.as_str();
    let b: &str = teams[1][0].tag.as_str();
    (compare_tag(a, tag_1) && compare_tag(b, tag_2)) || (compare_tag(a, tag_2) && compare_tag(
        b,
        tag_1,
    ))
}

/// Keeps the records of `logs` that count as evidence for the match between
/// the accounts `tag_1` and `tag_2` of `tournament`, in their order. No record
/// is changed.
pub fn filter(logs: Vec<BattleLogItem>, tournament: &Tournament, tag_1: &str, tag_2: &str) -> (kept:
    Vec<BattleLogItem>)
    ensures
        kept@ == logs@.filter(
            admissible_for(tag_1@, tag_2@, tournament.created_at as int, tournament.mode@),
        ),
{
    let ghost test = admissible_for(tag_1@, tag_2@, tournament.created_at as int, tournament.mode@);
    let mut kept: Vec<BattleLogItem> = Vec::new();
    proof {
        reveal(Seq::filter);
        assert(logs@.take(0) =~= Seq::<BattleLogItem>::empty());
    }
    for entry in it: logs
        invariant
            test == admissible_for(tag_1@, tag_2@, tournament.created_at as int, tournament.mode@),
            it.seq() == logs@,
            kept@ == logs@.take(it.index()).filter(test),
    {
        let ghost k = it.index();
        proof {
            reveal(Seq::filter);
            assert(logs@.take(k + 1).drop_last() =~= logs@.take(k));
            assert(logs@.take(k + 1).last() == entry);
        }
        if is_admissible(&entry, tournament, tag_1, tag_2) {
            kept.push(entry);
        }
    }
    assert(logs@.take(logs@.len() as int) =~= logs@);
    kept
}

/// What the filter keeps of `logs` is exactly what counts: a record is kept
/// if and only if it is among `logs` and admissible. So a record that was
/// fought before the tournament was created, or in another mode, or as a
/// friendly battle, or between other players, is never kept; and nothing is
/// kept that was not there.
pub proof fn lemma_filter_keeps_the_admissible(
    logs: Seq<BattleLogItem>,
    entry: BattleLogItem,
    tag_1: Seq<char>,
    tag_2: Seq<char>,
    created_at: int,
    mode: Seq<char>,
)
    ensures
        ({
            let kept = logs.filter(admissible_for(tag_1, tag_2, created_at, mode));
            &&& kept.contains(entry) <==> logs.contains(entry) && admissible(
                entry,
                tag_1,
                tag_2,
                created_at,
                mode,
            )
            &&& entry.battle_time < created_at ==> !kept.contains(entry)
            &&& entry.battle.mode@ != mode || entry.event.mode@ != mode ==> !kept.contains(entry)
            &&& is_friendly(entry.battle.battle_type@) ==> !kept.contains(entry)
            &&& !opponents_match(entry, tag_1, tag_2) ==> !kept.contains(entry)
            &&& kept.len() <= logs.len()
        }),
{
    let test = admissible_for(tag_1, tag_2, created_at, mode);
    let kept = logs.filter(test);
    logs.lemma_filter_len(test);
    if kept.contains(entry) {
        let i = choose|i: int| 0 <= i < kept.len() && kept[i] == entry;
        logs.lemma_filter_pred(test, i);
        logs.lemma_filter_contains_rev(test, entry);
    }
    if logs.contains(entry) && admissible(entry, tag_1, tag_2, created_at, mode) {
        let i = choose|i: int| 0 <= i < logs.len() && logs[i] == entry;
        logs.lemma_filter_contains(test, i);
    }
}

} // verus!
