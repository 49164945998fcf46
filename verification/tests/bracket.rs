use dbcbot::bracket::{
    generate_matches_new_tournament, matches_count, rounds_count, BracketError, MAX_ROSTER,
};
use dbcbot::game_match::{Match, MatchState, PlayerType};
use dbcbot::tournament::{Player, User};

fn create_dummy(sample: usize) -> Vec<User> {
    let mut users: Vec<User> = Vec::new();
    for index in 0..sample {
        let mut user = User::default();
        user.discord_id = index.to_string();
        user.player_tag = index.to_string();
        users.push(user);
    }
    users
}

fn roster(sample: usize) -> Vec<Player> {
    create_dummy(sample).iter().map(|user| user.to_player()).collect::<Vec<Player>>()
}

#[test]
fn creates_two_matches() {
    const SAMPLE: usize = 4;
    let users: Vec<User> = create_dummy(SAMPLE);
    println!("{:?}", users);
    let players = users.iter().map(|user| user.to_player()).collect::<Vec<Player>>();

    let matches = generate_matches_new_tournament(players, -1).unwrap();

    println!("{:?}", matches);

    assert_eq!(matches.len(), 2);
    matches.iter().take(2).for_each(|game_match| {
        assert_eq!(game_match.player_1_type, PlayerType::Player);
        assert_eq!(game_match.player_2_type, PlayerType::Player);
    });
}

#[test]
fn creates_two_matches_with_one_bye() {
    const SAMPLE: usize = 3;
    let users = create_dummy(SAMPLE);
    let players = users.iter().map(|user| user.to_player()).collect::<Vec<Player>>();
    let matches = generate_matches_new_tournament(players, -2).unwrap();

    println!("{:?}", matches);

    assert_eq!(matches.len(), 2);
    assert!(matches[0].player_1_type == PlayerType::Player);
    assert!(matches[0].player_2_type == PlayerType::Player);
    assert!(matches[1].player_1_type == PlayerType::Player);
    assert!(matches[1].player_2_type == PlayerType::Dummy);
}

#[test]
fn creates_four_matches_with_two_byes() {
    const SAMPLE: usize = 6;
    let users = create_dummy(SAMPLE);
    let players = users.iter().map(|user| user.to_player()).collect::<Vec<Player>>();
    let matches = generate_matches_new_tournament(players, -3).unwrap();

    println!("{:?}", matches);

    assert_eq!(matches.len(), 4);
    assert!(matches[0].player_1_type == PlayerType::Player);
    assert!(matches[0].player_2_type == PlayerType::Player);
    assert!(matches[1].player_1_type == PlayerType::Player);
    assert!(matches[1].player_2_type == PlayerType::Player);
    assert!(matches[2].player_1_type == PlayerType::Player);
    assert!(matches[2].player_2_type == PlayerType::Dummy);
    assert!(matches[3].player_1_type == PlayerType::Player);
    assert!(matches[3].player_2_type == PlayerType::Dummy);
}

#[test]
fn rounds_are_the_logarithm_rounded_up() {
    let expected: Vec<(usize, u32)> = vec![
        (0, 0),
        (1, 0),
        (2, 1),
        (3, 2),
        (4, 2),
        (5, 3),
        (6, 3),
        (7, 3),
        (8, 3),
        (9, 4),
        (16, 4),
        (17, 5),
        (1000, 10),
        (1024, 10),
        (1025, 11),
    ];
    for (n, rounds) in expected {
        assert_eq!(rounds_count(n), rounds, "rounds for {}", n);
    }
    assert_eq!(rounds_count(usize::MAX), usize::BITS);
}

#[test]
fn first_round_size_is_a_power_of_two_below_the_roster() {
    let expected: Vec<(usize, usize)> = vec![
        (2, 1),
        (3, 2),
        (4, 2),
        (5, 4),
        (6, 4),
        (7, 4),
        (8, 4),
        (9, 8),
        (16, 8),
        (17, 16),
        (1024, 512),
        (1025, 1024),
    ];
    for (n, slots) in expected {
        assert_eq!(matches_count(n), slots, "slots for {}", n);
    }
    assert_eq!(matches_count(usize::MAX), 1usize << (usize::BITS - 1));
}

#[test]
fn match_count_and_bye_count_hold_for_every_small_roster() {
    for n in 2..=130usize {
        let matches = generate_matches_new_tournament(roster(n), 9).unwrap();
        let rounds = rounds_count(n);
        let slots = 1usize << (rounds - 1);
        assert_eq!(matches.len(), slots);
        assert!(slots < n && n <= 2 * slots);
        let byes = matches.iter().filter(|m| m.player_2_type == PlayerType::Dummy).count();
        let paired = matches.iter().filter(|m| m.player_2_type == PlayerType::Player).count();
        assert_eq!(byes, 2 * slots - n);
        assert_eq!(paired, n - slots);
        assert_eq!(byes == n - slots, 2 * n == 3 * slots);
    }
}

#[test]
fn five_players_have_three_byes_and_one_pairing() {
    let matches = generate_matches_new_tournament(roster(5), 1).unwrap();
    assert_eq!(matches.len(), 4);
    assert_eq!(matches.iter().filter(|m| m.is_bye()).count(), 3);
    assert_eq!(matches[0].discord_id_2, Some("4".to_string()));
    assert_eq!(matches[1].discord_id_2, None);
}

#[test]
fn every_roster_entry_is_seated_exactly_once() {
    for n in 2..=70usize {
        let matches = generate_matches_new_tournament(roster(n), 3).unwrap();
        let mut seen = vec![0usize; n];
        for m in &matches {
            for id in [&m.discord_id_1, &m.discord_id_2] {
                if let Some(id) = id {
                    let index: usize = id.parse().unwrap();
                    seen[index] += 1;
                }
            }
        }
        assert!(seen.iter().all(|count| *count == 1), "roster of {}", n);
    }
}

#[test]
fn seating_is_positional() {
    let matches = generate_matches_new_tournament(roster(7), 12).unwrap();
    assert_eq!(matches.len(), 4);
    for (i, m) in matches.iter().enumerate() {
        assert_eq!(m.tournament_id, 12);
        assert_eq!(m.round, 1);
        assert_eq!(m.sequence_in_round, i as i32 + 1);
        assert_eq!(m.discord_id_1, Some(i.to_string()));
        assert_eq!(m.player_1_type, PlayerType::Player);
        assert!(!m.player_1_ready);
        assert!(!m.player_2_ready);
        assert_eq!(m.winner, None);
        assert_eq!(m.state(), MatchState::Active);
        assert!(m.is_well_formed());
    }
    assert_eq!(matches[0].discord_id_2, Some("4".to_string()));
    assert_eq!(matches[1].discord_id_2, Some("5".to_string()));
    assert_eq!(matches[2].discord_id_2, Some("6".to_string()));
    assert_eq!(matches[3].discord_id_2, None);
    assert_eq!(matches[3].player_2_type, PlayerType::Dummy);
}

#[test]
fn two_players_make_one_match() {
    let matches = generate_matches_new_tournament(roster(2), 0).unwrap();
    assert_eq!(matches.len(), 1);
    assert_eq!(matches[0].discord_id_1, Some("0".to_string()));
    assert_eq!(matches[0].discord_id_2, Some("1".to_string()));
    assert_eq!(matches[0].match_id, "0.1.1");
}

#[test]
fn identifiers_are_derived_from_tournament_round_and_position() {
    assert_eq!(Match::generate_id(7, 1, 3), "7.1.3");
    assert_eq!(Match::generate_id(-1, 1, 1), "-1.1.1");
    assert_eq!(Match::generate_id(0, 0, 0), "0.0.0");
    assert_eq!(Match::generate_id(120, 10, 1024), "120.10.1024");
    assert_eq!(Match::generate_id(i32::MIN, i32::MAX, -10), "-2147483648.2147483647.-10");
    let matches = generate_matches_new_tournament(roster(6), 41).unwrap();
    let ids: Vec<String> = matches.iter().map(|m| m.match_id.clone()).collect();
    assert_eq!(ids, vec!["41.1.1", "41.1.2", "41.1.3", "41.1.4"]);
}

#[test]
fn drawing_twice_gives_the_same_identifiers() {
    for n in [2usize, 3, 6, 11, 32] {
        let first = generate_matches_new_tournament(roster(n), -3).unwrap();
        let second = generate_matches_new_tournament(roster(n), -3).unwrap();
        let first_ids: Vec<&String> = first.iter().map(|m| &m.match_id).collect();
        let second_ids: Vec<&String> = second.iter().map(|m| &m.match_id).collect();
        assert_eq!(first_ids, second_ids);
        assert_eq!(first, second);
        let mut unique = first_ids.clone();
        unique.sort();
        unique.dedup();
        assert_eq!(unique.len(), first_ids.len());
    }
}

#[test]
fn the_largest_roster_bound_is_two_to_the_thirty_first() {
    assert_eq!(MAX_ROSTER, 2147483648usize);
    assert_eq!(BracketError::RosterTooLarge, BracketError::RosterTooLarge);
}
