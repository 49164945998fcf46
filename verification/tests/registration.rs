use dbcbot::models::{ApiResult, Brawler, Icon, PlayerProfile};
use dbcbot::registration::{normalize_tag, register, strip_hash, with_hash, Registration};
use dbcbot::tournament::normalize_wins;

fn profile() -> PlayerProfile {
    PlayerProfile {
        tag: "#2PP".to_string(),
        name: "Colt".to_string(),
        club: None,
        icon: Icon { id: 7 },
        trophies: 900,
        three_vs_three_victories: 1,
        solo_victories: 2,
        duo_victories: 3,
        exp_level: 4,
        exp_points: 5,
        highest_trophies: 950,
        brawlers: vec![Brawler { id: 1, name: "COLT".to_string() }],
    }
}

#[test]
fn a_leading_hash_sign_is_removed_once() {
    assert_eq!(strip_hash("#ABC".to_string()), "ABC");
    assert_eq!(strip_hash("ABC".to_string()), "ABC");
    assert_eq!(strip_hash("##ABC".to_string()), "#ABC");
    assert_eq!(strip_hash("A#BC".to_string()), "A#BC");
    assert_eq!(strip_hash("#".to_string()), "");
    assert_eq!(strip_hash(String::new()), "");
    assert_eq!(strip_hash("#\u{e9}t\u{e9}".to_string()), "\u{e9}t\u{e9}");
}

#[test]
fn a_tag_is_stored_in_upper_case_without_its_hash_sign() {
    assert_eq!(normalize_tag("#2pp0qy"), "2PP0QY");
    assert_eq!(normalize_tag("2pp0qy"), "2PP0QY");
    assert_eq!(normalize_tag("2PP0QY"), "2PP0QY");
    assert_eq!(normalize_tag(""), "");
    assert_eq!(normalize_tag("#"), "");
    assert_eq!(normalize_tag("stra\u{df}e"), "STRASSE");
}

#[test]
fn a_taken_tag_is_refused_whatever_the_game_answers() {
    for answer in [ApiResult::Found(profile()), ApiResult::NotFound, ApiResult::Maintenance] {
        let r = register("1".to_string(), "n".to_string(), "2PP".to_string(), true, answer);
        assert!(matches!(r, Registration::TagTaken));
    }
}

#[test]
fn a_free_tag_follows_the_games_answer() {
    let r = register(
        "1".to_string(),
        "nick".to_string(),
        "2PP".to_string(),
        false,
        ApiResult::Found(profile()),
    );
    match r {
        Registration::Confirm(u) => {
            assert_eq!(u.discord_id, "1");
            assert_eq!(u.discord_name, "nick");
            assert_eq!(u.player_tag, "2PP");
            assert_eq!(u.player_name, "Colt");
            assert_eq!(u.icon, 7);
            assert_eq!(u.trophies, 900);
            assert_eq!(u.brawlers.len(), 1);
        }
        other => panic!("unexpected {:?}", other),
    }
    let r = register("1".to_string(), "n".to_string(), "2PP".to_string(), false, ApiResult::NotFound);
    assert!(matches!(r, Registration::NotFound));
    let r =
        register("1".to_string(), "n".to_string(), "2PP".to_string(), false, ApiResult::Maintenance);
    assert!(matches!(r, Registration::ServiceUnavailable));
}

#[test]
fn the_wins_of_a_new_tournament_are_at_least_one() {
    assert_eq!(normalize_wins(None), 3);
    assert_eq!(normalize_wins(Some(3)), 3);
    assert_eq!(normalize_wins(Some(7)), 7);
    assert_eq!(normalize_wins(Some(1)), 1);
    assert_eq!(normalize_wins(Some(0)), 1);
    assert_eq!(normalize_wins(Some(-9)), 1);
    assert_eq!(normalize_wins(Some(i32::MAX)), i32::MAX);
}

#[test]
fn a_stored_tag_gets_its_hash_sign_back() {
    assert_eq!(with_hash("2PP0QY"), "#2PP0QY");
    assert_eq!(with_hash(""), "#");
    assert_eq!(with_hash("#A"), "##A");
    assert_eq!(strip_hash(with_hash("2PP0QY")), "2PP0QY");
}
