use dbcbot::listing::{is_plain_cell, open_tournaments, tournament_table};
use dbcbot::tournament::{Tournament, TournamentStatus};

fn tournament(id: i32, name: &str, status: TournamentStatus) -> Tournament {
    let mut t = Tournament::new(
        id,
        "guild".to_string(),
        name.to_string(),
        0,
        None,
        "brawlBall".to_string(),
        "role".to_string(),
        "announce".to_string(),
        "notify".to_string(),
    );
    t.status = status;
    t
}

#[test]
fn statuses_have_their_names_as_labels() {
    assert_eq!(TournamentStatus::Pending.label(), "Pending");
    assert_eq!(TournamentStatus::Started.label(), "Started");
    assert_eq!(TournamentStatus::Paused.label(), "Paused");
    assert_eq!(TournamentStatus::Ended.label(), "Ended");
}

#[test]
fn a_cell_text_has_one_line_and_no_escape() {
    assert!(is_plain_cell(""));
    assert!(is_plain_cell("Spring Cup"));
    assert!(is_plain_cell("caf\u{e9} \u{1f3c6}"));
    assert!(is_plain_cell("tab\there"));
    assert!(!is_plain_cell("two\nlines"));
    assert!(!is_plain_cell("\n"));
    assert!(!is_plain_cell("red\u{1b}[31m"));
}

#[test]
fn the_table_numbers_names_and_labels_the_tournaments() {
    let tournaments = vec![
        tournament(10, "Spring Cup", TournamentStatus::Pending),
        tournament(11, "Duel", TournamentStatus::Started),
        tournament(12, "", TournamentStatus::Ended),
    ];
    let text = tournament_table(&tournaments).unwrap();
    let expected = "\
+-----+------------+---------+
| No. | Name       | Status  |
+=====+============+=========+
| 1   | Spring Cup | Pending |
+-----+------------+---------+
| 2   | Duel       | Started |
+-----+------------+---------+
| 3   |            | Ended   |
+-----+------------+---------+
";
    assert_eq!(text.replace("\r\n", "\n"), expected);
}

#[test]
fn the_table_of_no_tournaments_has_only_its_title_line() {
    let text = tournament_table(&Vec::new()).unwrap();
    let expected = "\
+-----+------+--------+
| No. | Name | Status |
+=====+======+========+
+-----+------+--------+
";
    assert_eq!(text.replace("\r\n", "\n"), expected);
}

#[test]
fn the_numbers_run_past_nine() {
    let tournaments: Vec<Tournament> =
        (0..12).map(|i| tournament(i, "t", TournamentStatus::Paused)).collect();
    let text = tournament_table(&tournaments).unwrap();
    assert!(text.contains("| 9   | t    | Paused |"));
    assert!(text.contains("| 10  | t    | Paused |"));
    assert!(text.contains("| 12  | t    | Paused |"));
    assert!(!text.contains("| 13 "));
}

#[test]
fn there_is_no_table_for_a_name_that_cannot_stand_in_a_cell() {
    let tournaments = vec![
        tournament(1, "fine", TournamentStatus::Pending),
        tournament(2, "two\nlines", TournamentStatus::Pending),
    ];
    assert_eq!(tournament_table(&tournaments), None);
    let tournaments = vec![tournament(1, "\u{1b}[1mbold", TournamentStatus::Pending)];
    assert_eq!(tournament_table(&tournaments), None);
}

#[test]
fn only_pending_tournaments_are_open() {
    let tournaments = vec![
        tournament(1, "a", TournamentStatus::Started),
        tournament(2, "b", TournamentStatus::Pending),
        tournament(3, "c", TournamentStatus::Ended),
        tournament(4, "d", TournamentStatus::Pending),
        tournament(5, "e", TournamentStatus::Paused),
    ];
    let open = open_tournaments(tournaments);
    let ids: Vec<i32> = open.iter().map(|t| t.tournament_id).collect();
    assert_eq!(ids, vec![2, 4]);
    assert_eq!(open[0].name, "b");
    assert!(open_tournaments(Vec::new()).is_empty());
}
