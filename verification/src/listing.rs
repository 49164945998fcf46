//! The table of tournaments that a member may join.

use vstd::prelude::*;
use vstd::string::*;
use crate::decimal::{is_digit, lemma_digits_value_of_nat_digits, nat_digits, push_nat_digits};
use crate::tournament::{status_label, Tournament, TournamentStatus};

verus! {

/// A printable table of the `prettytable` crate.
#[verifier::external_type_specification]
#[verifier::external_body]
pub struct ExTable(prettytable::Table);

/// The texts of the cells of a table's title line, where the table has one.
/// The text of a cell is what its `get_content` gives.
pub uninterp spec fn table_titles(table: prettytable::Table) -> Option<Seq<Seq<char>>>;

/// The texts of the cells of a table's rows, row by row.
pub uninterp spec fn table_rows(table: prettytable::Table) -> Seq<Seq<Seq<char>>>;

/// Whether a table is laid out in the default format and every one of its
/// cells is left-aligned, unstyled and one column wide.
pub uninterp spec fn table_is_plain(table: prettytable::Table) -> bool;

/// The text of a plain table with the title line and the rows given.
pub uninterp spec fn table_text(titles: Option<Seq<Seq<char>>>, rows: Seq<Seq<Seq<char>>>) -> Seq<
    char,
>;

/// Whether a text can stand in a cell as it is: on one line, and without
/// the escape character that starts a terminal colour code.
pub open spec fn is_cell_text(text: Seq<char>) -> bool {
    forall|i: int| 0 <= i < text.len() ==> text[i] != '\n' && text[i] != '\u{1b}'
}

/// The texts of a list of strings.
pub open spec fn texts(cells: Seq<String>) -> Seq<Seq<char>> {
    cells.map_values(|c: String| c@)
}

/// Calls `Table::new`, which makes a table in the default format without a
/// title line and without rows.
#[verifier::external_body]
fn table_new() -> (table: prettytable::Table)
    ensures
        table_titles(table) is None,
        table_rows(table).len() == 0,
        table_is_plain(table),
{
    prettytable::Table::new()
}

/// Calls `Table::set_titles` with a `Row::new` of one `Cell::new` for each
/// text. The title line then holds these texts, the rows are as before, and
/// a plain table stays plain: `Cell::new` makes a left-aligned, unstyled cell
/// of one column. The texts must be cell texts, because `Cell::new` breaks a
/// text into its lines, and measures its width with an assertion that is
/// only known to hold of a text without escape characters.
#[verifier::external_body]
fn table_set_titles(table: &mut prettytable::Table, titles: &Vec<String>)
    requires
        forall|i: int| 0 <= i < titles.len() ==> is_cell_text(#[trigger] titles[i]@),
    ensures
        table_titles(*final(table)) == Some(texts(titles@)),
        table_rows(*final(table)) == table_rows(*old(table)),
        table_is_plain(*old(table)) ==> table_is_plain(*final(table)),
{
    let cells = titles.iter().map(|text| prettytable::Cell::new(text)).collect();
    table.set_titles(prettytable::Row::new(cells));
}

/// Calls `Table::add_row` with a `Row::new` of one `Cell::new` for each text.
/// The row is appended to the rows, the title line is as before, and a plain
/// table stays plain. The texts must be cell texts, as for the title line.
#[verifier::external_body]
fn table_add_row(table: &mut prettytable::Table, row: &Vec<String>)
    requires
        forall|i: int| 0 <= i < row.len() ==> is_cell_text(#[trigger] row[i]@),
    ensures
        table_rows(*final(table)) == table_rows(*old(table)).push(texts(row@)),
        table_titles(*final(table)) == table_titles(*old(table)),
        table_is_plain(*old(table)) ==> table_is_plain(*final(table)),
{
    let cells = row.iter().map(|text| prettytable::Cell::new(text)).collect();
    table.add_row(prettytable::Row::new(cells));
}

/// Calls `to_string` on a table, which prints it through its `Display`. The
/// text of a plain table depends on nothing but the texts of its cells; the
/// contract gives it a name and states no more of it. The cells must hold
/// cell texts, because printing measures their widths as `Cell::new` does.
#[verifier::external_body]
fn table_render(table: &prettytable::Table) -> (text: String)
    requires
        table_is_plain(*table),
        table_titles(*table) matches Some(titles) ==> forall|i: int|
            0 <= i < titles.len() ==> is_cell_text(#[trigger] titles[i]),
        forall|i: int, j: int|
            0 <= i < table_rows(*table).len() && 0 <= j < table_rows(*table)[i].len()
                ==> is_cell_text(#[trigger] table_rows(*table)[i][j]),
    ensures
        text@ == table_text(table_titles(*table), table_rows(*table)),
{
    table.to_string()
}

/// Whether a text is a cell text.
pub fn is_plain_cell(text: &str) -> (ok: bool)
    ensures
        ok == is_cell_text(text@),
{
    let n: usize = text.unicode_len();
    let mut i: usize = 0;
    while i < n
        invariant
            i <= n,
            n == text@.len(),
            forall|j: int| 0 <= j < i ==> text@[j] != '\n' && text@[j] != '\u{1b}',
        decreases n - i,
    {
        let c: char = text.get_char(i);
        if c == '\n' || c == '\u{1b}' {
            return false;
        }
        i += 1;
    }
    true
}

/// The title line of the table of tournaments.
pub open spec fn listing_titles() -> Seq<Seq<char>> {
    seq!["No."@, "Name"@, "Status"@]
}

/// The row of the tournament at index `i`: its number, counted from one, its
/// name and its status.
pub open spec fn listing_row(tournaments: Seq<Tournament>, i: int) -> Seq<Seq<char>> {
    seq![
        nat_digits((i + 1) as nat),
        tournaments[i].name@,
        status_label(tournaments[i].status),
    ]
}

/// The rows of the table of tournaments, one for each tournament, in their
/// order.
pub open spec fn listing_rows(tournaments: Seq<Tournament>) -> Seq<Seq<Seq<char>>> {
    Seq::new(tournaments.len(), |i: int| listing_row(tournaments, i))
}

/// Whether every tournament has a name that can stand in a cell.
pub open spec fn listable(tournaments: Seq<Tournament>) -> bool {
    forall|i: int| 0 <= i < tournaments.len() ==> is_cell_text(#[trigger] tournaments[i].name@)
}

/// The names of the statuses and the digits of a number are cell texts.
proof fn lemma_row_texts_are_plain(tournaments: Seq<Tournament>, i: int)
    requires
        0 <= i < tournaments.len(),
        is_cell_text(tournaments[i].name@),
    ensures
        forall|j: int|
            0 <= j < listing_row(tournaments, i).len() ==> is_cell_text(
                #[trigger] listing_row(tournaments, i)[j],
            ),
{
    reveal_strlit("Pending");
    reveal_strlit("Started");
    reveal_strlit("Paused");
    reveal_strlit("Ended");
    lemma_digits_value_of_nat_digits((i + 1) as nat);
    let digits = nat_digits((i + 1) as nat);
    assert forall|k: int| 0 <= k < digits.len() implies digits[k] != '\n' && digits[k]
        != '\u{1b}' by {
        assert(is_digit(digits[k]));
    }
}

/// The table of `tournaments` as text: a title line, then one row for each
/// tournament with its number, its name and its status. There is no table
/// where a name runs over several lines or holds an escape character.
pub fn tournament_table(tournaments: &Vec<Tournament>) -> (r: Option<String>)
    ensures
        r is Some <==> listable(tournaments@),
        r matches Some(text) ==> text@ == table_text(
            Some(listing_titles()),
            listing_rows(tournaments@),
        ),
{
    let mut table = table_new();
    let titles: Vec<String> = vec!["No.".to_owned(), "Name".to_owned(), "Status".to_owned()];
    proof {
        reveal_strlit("No.");
        reveal_strlit("Name");
        reveal_strlit("Status");
        assert(texts(titles@) =~= listing_titles());
    }
    table_set_titles(&mut table, &titles);
    let mut i: usize = 0;
    while i < tournaments.len()
        invariant
            i <= tournaments.len(),
            table_is_plain(table),
            table_titles(table) == Some(listing_titles()),
            table_rows(table) == listing_rows(tournaments@).take(i as int),
            forall|j: int| 0 <= j < i ==> is_cell_text(#[trigger] tournaments[j].name@),
        decreases tournaments.len() - i,
    {
        if !is_plain_cell(tournaments[i].name.as_str()) {
            return None;
        }
        let mut number = String::new();
        push_nat_digits(&mut number, i as u64 + 1);
        let row: Vec<String> = vec![
            number,
            tournaments[i].name.clone(),
            tournaments[i].status.label(),
        ];
        proof {
            lemma_row_texts_are_plain(tournaments@, i as int);
            assert(number@ =~= nat_digits((i + 1) as nat));
            assert(texts(row@) =~= listing_row(tournaments@, i as int));
            assert(listing_rows(tournaments@).take(i as int).push(
                listing_row(tournaments@, i as int),
            ) =~= listing_rows(tournaments@).take(i + 1));
        }
        table_add_row(&mut table, &row);
        i += 1;
    }
    proof {
        assert(listing_rows(tournaments@).take(i as int) =~= listing_rows(tournaments@));
        reveal_strlit("No.");
        reveal_strlit("Name");
        reveal_strlit("Status");
        assert forall|a: int, b: int|
            0 <= a < table_rows(table).len() && 0 <= b < table_rows(table)[a].len()
                implies is_cell_text(#[trigger] table_rows(table)[a][b]) by {
            lemma_row_texts_are_plain(tournaments@, a);
        }
    }
    Some(table_render(&table))
}

/// The test that [`open_tournaments`] applies: the tournament awaits its
/// players.
pub open spec fn is_open() -> spec_fn(Tournament) -> bool {
    |t: Tournament| t.status == TournamentStatus::Pending
}

/// The tournaments of `tournaments` that a member may still join, in their
/// order: those that are pending.
pub fn open_tournaments(tournaments: Vec<Tournament>) -> (open: Vec<Tournament>)
    ensures
        open@ == tournaments@.filter(is_open()),
{
    let mut open: Vec<Tournament> = Vec::new();
    proof {
        reveal(Seq::filter);
        assert(tournaments@.take(0) =~= Seq::<Tournament>::empty());
    }
    for tournament in it: tournaments
        invariant
            it.seq() == tournaments@,
            open@ == tournaments@.take(it.index()).filter(is_open()),
    {
        let ghost k = it.index();
        proof {
            reveal(Seq::filter);
            assert(tournaments@.take(k + 1).drop_last() =~= tournaments@.take(k));
            assert(tournaments@.take(k + 1).last() == tournament);
        }
        match tournament.status {
            TournamentStatus::Pending => {
                open.push(tournament);
            },
            _ => {},
        }
    }
    assert(tournaments@.take(tournaments@.len() as int) =~= tournaments@);
    open
}

} // verus!
