use dbcbot::evidence::{compare_tag, filter, is_admissible, is_friendly_type};
use dbcbot::models::{Battle, BattleLogItem, BattleResult, Event, TeamPlayer};
use dbcbot::tournament::Tournament;

const CREATED_AT: i64 = 1_700_000_000;

fn tournament() -> Tournament {
    Tournament::new(
        1,
        "guild".to_string(),
        "cup".to_string(),
        CREATED_AT,
        Some(3),
        "brawlBall".to_string(),
        "role".to_string(),
        "announce".to_string(),
        "notify".to_string(),
    )
}

fn member(tag: &str) -> TeamPlayer {
    TeamPlayer { tag: tag.to_string(), name: format!("player {}", tag) }
}

fn entry(time: i64, left: &str, right: &str, result: BattleResult) -> BattleLogItem {
    BattleLogItem {
        battle_time: time,
        event: Event { id: 15, mode: "brawlBall".to_string(), map: "Super Beach".to_string() },
        battle: Battle {
            mode: "brawlBall".to_string(),
            battle_type: "ranked".to_string(),
            result,
            duration: 120,
            teams: vec![vec![member(left)], vec![member(right)]],
        },
    }
}

fn control() -> BattleLogItem {
    entry(CREATED_AT + 60, "#AAA0", "#BBB1", BattleResult::Victory)
}

fn times(items: &[BattleLogItem]) -> Vec<i64> {
    items.iter().map(|item| item.battle_time).collect()
}

#[test]
fn tags_compare_with_letter_o_and_digit_zero_interchanged() {
    assert!(compare_tag("ABC", "ABC"));
    assert!(compare_tag("", ""));
    assert!(compare_tag("PO0L", "P0OL"));
    assert!(compare_tag("OOO", "000"));
    assert!(compare_tag("000", "OOO"));
    assert!(!compare_tag("ABC", "abc"));
    assert!(!compare_tag("o", "0"));
    assert!(!compare_tag("ABC", "ABCD"));
    assert!(!compare_tag("ABCD", "ABC"));
    assert!(!compare_tag("ABC", "ABD"));
    assert!(!compare_tag("I", "1"));
    assert!(!compare_tag("B", "8"));
    assert!(!compare_tag("", "0"));
    assert!(compare_tag("\u{e9}O", "\u{e9}0"));
    assert!(!compare_tag("\u{e9}", "e"));
    assert!(!compare_tag("\u{e9}", "ab"));
}

#[test]
fn friendly_is_recognised_in_any_case() {
    assert!(is_friendly_type("friendly"));
    assert!(is_friendly_type("FRIENDLY"));
    assert!(is_friendly_type("Friendly"));
    assert!(is_friendly_type("fRiEnDlY"));
    assert!(!is_friendly_type("ranked"));
    assert!(!is_friendly_type("soloRanked"));
    assert!(!is_friendly_type(""));
    assert!(!is_friendly_type("friendl"));
    assert!(!is_friendly_type("friendly "));
    assert!(!is_friendly_type("friend1y"));
}

#[test]
fn a_matching_entry_is_kept() {
    let t = tournament();
    assert!(is_admissible(&control(), &t, "#AAA0", "#BBB1"));
    let kept = filter(vec![control()], &t, "#AAA0", "#BBB1");
    assert_eq!(times(&kept), vec![CREATED_AT + 60]);
}

#[test]
fn an_entry_from_before_the_tournament_is_dropped() {
    let t = tournament();
    let early = entry(CREATED_AT - 1, "#AAA0", "#BBB1", BattleResult::Victory);
    assert!(!is_admissible(&early, &t, "#AAA0", "#BBB1"));
    let kept = filter(vec![early, control()], &t, "#AAA0", "#BBB1");
    assert_eq!(times(&kept), vec![CREATED_AT + 60]);
}

#[test]
fn an_entry_at_the_moment_of_creation_is_kept() {
    let t = tournament();
    let at = entry(CREATED_AT, "#AAA0", "#BBB1", BattleResult::Draw);
    assert!(is_admissible(&at, &t, "#AAA0", "#BBB1"));
}

#[test]
fn an_entry_of_another_mode_is_dropped() {
    let t = tournament();
    let mut other_battle = control();
    other_battle.battle.mode = "gemGrab".to_string();
    let mut other_event = control();
    other_event.event.mode = "gemGrab".to_string();
    let mut other_case = control();
    other_case.battle.mode = "BrawlBall".to_string();
    assert!(!is_admissible(&other_battle, &t, "#AAA0", "#BBB1"));
    assert!(!is_admissible(&other_event, &t, "#AAA0", "#BBB1"));
    assert!(!is_admissible(&other_case, &t, "#AAA0", "#BBB1"));
    let kept = filter(vec![other_battle, control(), other_event], &t, "#AAA0", "#BBB1");
    assert_eq!(times(&kept), vec![CREATED_AT + 60]);
}

#[test]
fn a_friendly_entry_is_dropped() {
    let t = tournament();
    let mut friendly = control();
    friendly.battle.battle_type = "friendly".to_string();
    let mut shouted = control();
    shouted.battle.battle_type = "FRIENDLY".to_string();
    assert!(!is_admissible(&friendly, &t, "#AAA0", "#BBB1"));
    assert!(!is_admissible(&shouted, &t, "#AAA0", "#BBB1"));
    let kept = filter(vec![control(), friendly, shouted], &t, "#AAA0", "#BBB1");
    assert_eq!(times(&kept), vec![CREATED_AT + 60]);
}

#[test]
fn an_entry_between_other_players_is_dropped() {
    let t = tournament();
    let stranger = entry(CREATED_AT + 5, "#AAA0", "#CCC2", BattleResult::Victory);
    let strangers = entry(CREATED_AT + 6, "#DDD3", "#CCC2", BattleResult::Victory);
    let same_twice = entry(CREATED_AT + 7, "#AAA0", "#AAA0", BattleResult::Victory);
    assert!(!is_admissible(&stranger, &t, "#AAA0", "#BBB1"));
    assert!(!is_admissible(&strangers, &t, "#AAA0", "#BBB1"));
    assert!(!is_admissible(&same_twice, &t, "#AAA0", "#BBB1"));
    let kept = filter(vec![stranger, strangers, control(), same_twice], &t, "#AAA0", "#BBB1");
    assert_eq!(times(&kept), vec![CREATED_AT + 60]);
}

#[test]
fn the_two_players_may_stand_on_either_team() {
    let t = tournament();
    let swapped = entry(CREATED_AT + 9, "#BBB1", "#AAA0", BattleResult::Defeat);
    assert!(is_admissible(&swapped, &t, "#AAA0", "#BBB1"));
    assert!(is_admissible(&control(), &t, "#BBB1", "#AAA0"));
}

#[test]
fn tags_in_an_entry_match_with_o_for_zero() {
    let t = tournament();
    let glyphs = entry(CREATED_AT + 9, "#AAAO", "#BBB1", BattleResult::Victory);
    assert!(is_admissible(&glyphs, &t, "#AAA0", "#BBB1"));
    assert!(is_admissible(&control(), &t, "#AAAO", "#BBB1"));
    let lower = entry(CREATED_AT + 9, "#aaa0", "#BBB1", BattleResult::Victory);
    assert!(!is_admissible(&lower, &t, "#AAA0", "#BBB1"));
}

#[test]
fn only_the_first_slot_of_each_team_counts() {
    let t = tournament();
    let mut crowded = control();
    crowded.battle.teams = vec![
        vec![member("#ZZZ9"), member("#AAA0")],
        vec![member("#BBB1"), member("#YYY8")],
    ];
    assert!(!is_admissible(&crowded, &t, "#AAA0", "#BBB1"));
    let mut led = control();
    led.battle.teams = vec![
        vec![member("#AAA0"), member("#ZZZ9")],
        vec![member("#BBB1"), member("#YYY8")],
        vec![member("#XXX7")],
    ];
    assert!(is_admissible(&led, &t, "#AAA0", "#BBB1"));
}

#[test]
fn an_entry_without_two_manned_teams_is_dropped() {
    let t = tournament();
    let mut none = control();
    none.battle.teams = vec![];
    let mut one = control();
    one.battle.teams = vec![vec![member("#AAA0")]];
    let mut unmanned = control();
    unmanned.battle.teams = vec![vec![member("#AAA0")], vec![]];
    let mut unmanned_first = control();
    unmanned_first.battle.teams = vec![vec![], vec![member("#BBB1")]];
    for item in [&none, &one, &unmanned, &unmanned_first] {
        assert!(!is_admissible(item, &t, "#AAA0", "#BBB1"));
    }
    let kept = filter(vec![none, one, unmanned, unmanned_first], &t, "#AAA0", "#BBB1");
    assert!(kept.is_empty());
}

#[test]
fn the_order_of_the_feed_is_kept() {
    let t = tournament();
    let feed = vec![
        entry(CREATED_AT + 50, "#AAA0", "#BBB1", BattleResult::Victory),
        entry(CREATED_AT + 10, "#BBB1", "#AAA0", BattleResult::Defeat),
        entry(CREATED_AT - 10, "#AAA0", "#BBB1", BattleResult::Victory),
        entry(CREATED_AT + 30, "#AAA0", "#CCC2", BattleResult::Victory),
        entry(CREATED_AT + 30, "#AAA0", "#BBB1", BattleResult::Draw),
        entry(CREATED_AT + 20, "#AAA0", "#BBB1", BattleResult::Unknown),
    ];
    let kept = filter(feed, &t, "#AAA0", "#BBB1");
    assert_eq!(
        times(&kept),
        vec![CREATED_AT + 50, CREATED_AT + 10, CREATED_AT + 30, CREATED_AT + 20]
    );
    assert_eq!(
        kept.iter().map(|item| item.battle.result).collect::<Vec<BattleResult>>(),
        vec![BattleResult::Victory, BattleResult::Defeat, BattleResult::Draw, BattleResult::Unknown]
    );
    assert_eq!(kept[1].battle.teams[0][0].tag, "#BBB1");
    assert_eq!(kept[1].battle.teams[0][0].name, "player #BBB1");
    assert_eq!(kept[1].event.map, "Super Beach");
}

#[test]
fn an_empty_feed_gives_no_evidence() {
    let t = tournament();
    assert!(filter(Vec::new(), &t, "#AAA0", "#BBB1").is_empty());
}
