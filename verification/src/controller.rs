//! The decisions of a tournament's controller.
//!
//! The controller itself talks to a store and to the game's service. What it
//! decides between those calls stands here: whether a tournament may start
//! and with which bracket, what a submission has to fetch, and what becomes of
//! a match once the evidence has arrived.

use vstd::prelude::*;
use crate::adjudicate::{analyse, results_of, verdict_of, Verdict};
use crate::bracket::{
    ceil_log2, first_round, generate_matches_new_tournament, match_views, rounds_count,
    MAX_ROSTER,
};
use crate::evidence::{admissible_for, filter};
use crate::game_match::{
    Match, MatchError, MatchState, MatchView, PlayerNumber, PlayerType, ReadyEvent, WinnerEvent,
};
use crate::models::{ApiResult, BattleLog, BattleLogItem};
use crate::tournament::{roster_ids, Player, Tournament, TournamentStatus};

verus! {

/// The number of wins that takes a match where a start names none.
pub const DEFAULT_WINS_REQUIRED: i32 = 2;

/// Why a request was turned down before anything was changed.
#[derive(Clone, Copy, Debug, PartialEq, Eq, Structural)]
pub enum ValidationError {
    /// The number of wins that takes a match is less than one.
    NonPositiveWinThreshold,
    /// The tournament has started or ended before.
    TournamentNotPending,
    /// Matches of the tournament are stored already; drawing the bracket again
    /// would give them the same identifiers.
    BracketAlreadyDrawn,
    /// Fewer than two players are enrolled.
    RosterTooSmall,
    /// More players are enrolled than a bracket can seat.
    RosterTooLarge,
    /// The tournament is not being played.
    TournamentNotStarted,
    /// A side of the match holds a player without an identity, or an
    /// identity without a player.
    MalformedMatch,
    /// The caller stands on neither side of the match.
    NotInMatch,
    /// The match has a winner.
    MatchCompleted,
    /// The opponent is not determined yet.
    AwaitingOpponent,
}

/// What a started tournament has to persist besides its own new state.
#[derive(Debug)]
pub struct StartReport {
    /// The matches of the first round, in their order.
    pub matches: Vec<Match>,
    /// The number of rounds of the tournament.
    pub rounds: i32,
    /// The number of wins that takes a match.
    pub wins_required: i32,
}

/// The number of wins that a start asks for: the number named, or the default.
pub open spec fn requested_wins(wins_required: Option<i32>) -> int {
    match wins_required {
        Some(w) => w as int,
        None => DEFAULT_WINS_REQUIRED as int,
    }
}

/// Why a start is turned down, if it is: the first of these that holds.
pub open spec fn start_refusal(
    status: TournamentStatus,
    existing_matches: nat,
    roster_len: nat,
    wins_required: Option<i32>,
) -> Option<ValidationError> {
    if requested_wins(wins_required) < 1 {
        Some(ValidationError::NonPositiveWinThreshold)
    } else if status != TournamentStatus::Pending {
        Some(ValidationError::TournamentNotPending)
    } else if existing_matches > 0 {
        Some(ValidationError::BracketAlreadyDrawn)
    } else if roster_len < 2 {
        Some(ValidationError::RosterTooSmall)
    } else if roster_len > MAX_ROSTER {
        Some(ValidationError::RosterTooLarge)
    } else {
        None
    }
}

/// Starts a pending tournament with at least two enrolled players: draws the
/// first round from the roster, sets the number of rounds and the map, and
/// marks the tournament as started. `existing_matches` is the number of
/// matches stored for the tournament; a start that was interrupted may be
/// repeated once there are none. A request that is turned down leaves the
/// tournament as it is.
pub fn start_tournament(
    tournament: &mut Tournament,
    existing_matches: usize,
    tournament_players: Vec<Player>,
    map: String,
    wins_required: Option<i32>,
) -> (r: Result<StartReport, ValidationError>)
    ensures
        match r {
            Ok(report) => {
                &&& start_refusal(
                    old(tournament).status,
                    existing_matches as nat,
                    tournament_players@.len(),
                    wins_required,
                ) is None
                &&& match_views(report.matches@) == first_round(
                    roster_ids(tournament_players@),
                    old(tournament).tournament_id as int,
                )
                &&& forall|i: int|
                    0 <= i < report.matches.len() ==> (#[trigger] report.matches[i]).wf()
                &&& report.rounds == ceil_log2(tournament_players@.len())
                &&& report.wins_required == requested_wins(wins_required)
                &&& *final(tournament) == (Tournament {
                    status: TournamentStatus::Started,
                    rounds: report.rounds,
                    map: map,
                    ..*old(tournament)
                })
            },
            Err(e) => {
                &&& start_refusal(
                    old(tournament).status,
                    existing_matches as nat,
                    tournament_players@.len(),
                    wins_required,
                ) == Some(e)
                &&& *final(tournament) == *old(tournament)
            },
        },
{
    let wins: i32 = match wins_required {
        Some(w) => w,
        None => DEFAULT_WINS_REQUIRED,
    };
    if wins < 1 {
        return Err(ValidationError::NonPositiveWinThreshold);
    }
    match tournament.status {
        TournamentStatus::Pending => {},
        _ => {
            return Err(ValidationError::TournamentNotPending);
        },
    }
    if existing_matches > 0 {
        return Err(ValidationError::BracketAlreadyDrawn);
    }
    let n: usize = tournament_players.len();
    if n < 2 {
        return Err(ValidationError::RosterTooSmall);
    }
    let rounds: i32 = rounds_count(n) as i32;
    match generate_matches_new_tournament(tournament_players, tournament.tournament_id) {
        Ok(matches) => {
            tournament.status = TournamentStatus::Started;
            tournament.rounds = rounds;
            tournament.map = map;
            Ok(StartReport { matches, rounds, wins_required: wins })
        },
        Err(_) => Err(ValidationError::RosterTooLarge),
    }
}

/// What a submission has to do next.
#[derive(Clone, Copy, Debug, PartialEq, Eq, Structural)]
pub enum SubmissionStep {
    /// Fetch the battle history of the caller, who stands on `side`, and
    /// conclude with it.
    FetchEvidence { side: PlayerNumber },
    /// The match was a bye and is completed; there is nothing to fetch.
    ByeResolved(WinnerEvent),
    /// The submission was turned down; nothing was changed.
    Rejected(ValidationError),
}

/// Why a submission is turned down before any evidence is fetched, if it is:
/// the first of these that holds.
pub open spec fn submission_refusal(
    m: MatchView,
    status: TournamentStatus,
    caller: Seq<char>,
) -> Option<ValidationError> {
    if status != TournamentStatus::Started {
        Some(ValidationError::TournamentNotStarted)
    } else if !m.wf() {
        Some(ValidationError::MalformedMatch)
    } else if m.player_number(caller) is None {
        Some(ValidationError::NotInMatch)
    } else if m.state() == MatchState::Completed {
        Some(ValidationError::MatchCompleted)
    } else if m.state() == MatchState::AwaitingPlayers {
        Some(ValidationError::AwaitingOpponent)
    } else {
        None
    }
}

/// The step that a submission by `caller` takes on the match `m`.
pub open spec fn submission_step(
    m: MatchView,
    status: TournamentStatus,
    caller: Seq<char>,
) -> SubmissionStep {
    match submission_refusal(m, status, caller) {
        Some(e) => SubmissionStep::Rejected(e),
        None => if m.is_bye() {
            SubmissionStep::ByeResolved(
                WinnerEvent { winner: m.player_number(caller)->0, bye: true },
            )
        } else {
            SubmissionStep::FetchEvidence { side: m.player_number(caller)->0 }
        },
    }
}

/// Opens a submission by `caller` on a match of a tournament that is being
/// played. A bye is completed on the spot, with the caller credited and no
/// evidence asked for; any other active match asks for the caller's battle
/// history. Only the completion of a bye changes the match.
pub fn begin_submission(game_match: &mut Match, tournament: &Tournament, caller: &str) -> (step:
    SubmissionStep)
    ensures
        step == submission_step(old(game_match)@, tournament.status, caller@),
        match step {
            SubmissionStep::ByeResolved(event) => *final(game_match) == (Match {
                winner: Some(event.winner),
                ..*old(game_match)
            }) && old(game_match)@.side_type(event.winner.other()) == PlayerType::Dummy,
            _ => *final(game_match) == *old(game_match),
        },
        old(game_match).wf() ==> final(game_match).wf(),
{
    match tournament.status {
        TournamentStatus::Started => {},
        _ => {
            return SubmissionStep::Rejected(ValidationError::TournamentNotStarted);
        },
    }
    if !game_match.is_well_formed() {
        return SubmissionStep::Rejected(ValidationError::MalformedMatch);
    }
    let side = match game_match.get_player_number(caller) {
        Some(side) => side,
        None => {
            return SubmissionStep::Rejected(ValidationError::NotInMatch);
        },
    };
    match game_match.state() {
        MatchState::Completed => {
            return SubmissionStep::Rejected(ValidationError::MatchCompleted);
        },
        MatchState::AwaitingPlayers => {
            return SubmissionStep::Rejected(ValidationError::AwaitingOpponent);
        },
        MatchState::Active => {},
    }
    if game_match.is_bye() {
        match game_match.resolve_bye() {
            Ok(event) => SubmissionStep::ByeResolved(event),
            Err(_) => SubmissionStep::Rejected(ValidationError::MalformedMatch),
        }
    } else {
        SubmissionStep::FetchEvidence { side }
    }
}

/// How a submission ended.
#[derive(Clone, Copy, Debug, PartialEq, Eq, Structural)]
pub enum SubmissionOutcome {
    /// The evidence decided the match and the winner is recorded.
    Decided(WinnerEvent),
    /// There are fewer admissible records than wins are required.
    EvidenceInsufficient,
    /// The evidence gives neither side the required wins.
    AdjudicationInconclusive,
    /// The service is under maintenance.
    ServiceUnavailable,
    /// The service does not know the account.
    NotFound,
    /// The tournament's required number of wins is less than one.
    Rejected(ValidationError),
    /// The evidence decided the match, but the match refused the winner.
    Refused(MatchError),
}

/// The records of `items` that count as evidence for the match between the
/// accounts `tag_1` and `tag_2` of `tournament`, in their order.
pub open spec fn evidence_of(
    items: Seq<BattleLogItem>,
    tournament: Tournament,
    tag_1: Seq<char>,
    tag_2: Seq<char>,
) -> Seq<BattleLogItem> {
    items.filter(admissible_for(tag_1, tag_2, tournament.created_at as int, tournament.mode@))
}

/// What becomes of recording `side` as the winner of `m`.
pub open spec fn credit(m: MatchView, side: PlayerNumber) -> SubmissionOutcome {
    match m.set_winner(side) {
        Ok((_, event)) => SubmissionOutcome::Decided(event),
        Err(e) => SubmissionOutcome::Refused(e),
    }
}

/// How the submission of `side` on the match `m` ends, given what the service
/// answered: a failure of the service is passed on; too little evidence and
/// evidence without a decision are told apart; a decision credits the
/// submitter or the other side.
pub open spec fn submission_outcome(
    m: MatchView,
    tournament: Tournament,
    side: PlayerNumber,
    tag_1: Seq<char>,
    tag_2: Seq<char>,
    feed: ApiResult<BattleLog>,
) -> SubmissionOutcome {
    if !tournament.wf() {
        SubmissionOutcome::Rejected(ValidationError::NonPositiveWinThreshold)
    } else {
        match feed {
            ApiResult::NotFound => SubmissionOutcome::NotFound,
            ApiResult::Maintenance => SubmissionOutcome::ServiceUnavailable,
            ApiResult::Found(log) => {
                let evidence = evidence_of(log.items@, tournament, tag_1, tag_2);
                if evidence.len() < tournament.wins_required {
                    SubmissionOutcome::EvidenceInsufficient
                } else {
                    match verdict_of(results_of(evidence), tournament.wins_required as int) {
                        Verdict::SubmitterWins => credit(m, side),
                        Verdict::OpponentWins => credit(m, side.other()),
                        Verdict::Inconclusive => SubmissionOutcome::AdjudicationInconclusive,
                    }
                }
            },
        }
    }
}

/// Concludes the submission of the player on `side` with the battle history
/// `feed` of that player's account. `tag_1` and `tag_2` are the game accounts
/// of the two sides of the match. The match is changed only where the evidence
/// decides it and the winner is accepted: it then holds the winner, and
/// nothing else is different.
pub fn conclude_submission(
    game_match: &mut Match,
    tournament: &Tournament,
    side: PlayerNumber,
    tag_1: &str,
    tag_2: &str,
    feed: ApiResult<BattleLog>,
) -> (outcome: SubmissionOutcome)
    ensures
        outcome == submission_outcome(old(game_match)@, *tournament, side, tag_1@, tag_2@, feed),
        match outcome {
            SubmissionOutcome::Decided(event) => *final(game_match) == (Match {
                winner: Some(event.winner),
                ..*old(game_match)
            }),
            _ => *final(game_match) == *old(game_match),
        },
        old(game_match).wf() ==> final(game_match).wf(),
{
    if !tournament.is_well_formed() {
        return SubmissionOutcome::Rejected(ValidationError::NonPositiveWinThreshold);
    }
    let log = match feed {
        ApiResult::Found(log) => log,
        ApiResult::NotFound => {
            return SubmissionOutcome::NotFound;
        },
        ApiResult::Maintenance => {
            return SubmissionOutcome::ServiceUnavailable;
        },
    };
    let battles = filter(log.items, tournament, tag_1, tag_2);
    if battles.len() < tournament.wins_required as usize {
        return SubmissionOutcome::EvidenceInsufficient;
    }
    let winner = match analyse(tournament, &battles) {
        Verdict::Inconclusive => {
            return SubmissionOutcome::AdjudicationInconclusive;
        },
        Verdict::SubmitterWins => side,
        Verdict::OpponentWins => side.opponent(),
    };
    match game_match.set_winner(winner) {
        Ok(event) => SubmissionOutcome::Decided(event),
        Err(e) => SubmissionOutcome::Refused(e),
    }
}

/// What a player is shown of their match.
#[derive(Clone, Copy, Debug, PartialEq, Eq, Structural)]
pub enum MatchScreen {
    /// The match was a bye and has just been completed in the player's favour.
    Bye(WinnerEvent),
    /// The opponent is not determined yet.
    AwaitingOpponent,
    /// The match is being played; `may_ready` tells whether the player on
    /// `side` can still signal readiness.
    Versus { side: PlayerNumber, may_ready: bool },
    /// The match is over.
    Completed { winner: PlayerNumber },
    /// The request was turned down.
    Rejected(ValidationError),
}

/// What `caller` is shown of the match `m`.
pub open spec fn match_screen(m: MatchView, caller: Seq<char>) -> MatchScreen {
    if !m.wf() {
        MatchScreen::Rejected(ValidationError::MalformedMatch)
    } else if m.player_number(caller) is None {
        MatchScreen::Rejected(ValidationError::NotInMatch)
    } else if m.winner is Some {
        MatchScreen::Completed { winner: m.winner->0 }
    } else if m.state() == MatchState::AwaitingPlayers {
        MatchScreen::AwaitingOpponent
    } else if m.is_bye() {
        MatchScreen::Bye(WinnerEvent { winner: m.player_number(caller)->0, bye: true })
    } else {
        MatchScreen::Versus {
            side: m.player_number(caller)->0,
            may_ready: !m.side_ready(m.player_number(caller)->0),
        }
    }
}

/// Shows `caller` their match. A bye is completed at this first look, with
/// the caller credited; nothing else changes the match.
pub fn view_match(game_match: &mut Match, caller: &str) -> (screen: MatchScreen)
    ensures
        screen == match_screen(old(game_match)@, caller@),
        match screen {
            MatchScreen::Bye(event) => *final(game_match) == (Match {
                winner: Some(event.winner),
                ..*old(game_match)
            }),
            _ => *final(game_match) == *old(game_match),
        },
        old(game_match).wf() ==> final(game_match).wf(),
{
    if !game_match.is_well_formed() {
        return MatchScreen::Rejected(ValidationError::MalformedMatch);
    }
    let side = match game_match.get_player_number(caller) {
        Some(side) => side,
        None => {
            return MatchScreen::Rejected(ValidationError::NotInMatch);
        },
    };
    if let Some(winner) = game_match.winner {
        return MatchScreen::Completed { winner };
    }
    match game_match.state() {
        MatchState::AwaitingPlayers => {
            return MatchScreen::AwaitingOpponent;
        },
        _ => {},
    }
    if game_match.is_bye() {
        match game_match.resolve_bye() {
            Ok(event) => MatchScreen::Bye(event),
            Err(_) => MatchScreen::Rejected(ValidationError::MalformedMatch),
        }
    } else {
        MatchScreen::Versus { side, may_ready: !game_match.side_ready(side) }
    }
}

/// How a readiness signal ended.
#[derive(Clone, Copy, Debug, PartialEq, Eq, Structural)]
pub enum ReadyOutcome {
    /// The side is marked ready; the event tells whom to notify of what.
    Ready(ReadyEvent),
    /// The caller stands on neither side of the match.
    Rejected(ValidationError),
    /// The match refused the signal.
    Refused(MatchError),
}

/// How a readiness signal of `caller` on the match `m` ends.
pub open spec fn ready_outcome(m: MatchView, caller: Seq<char>) -> ReadyOutcome {
    match m.player_number(caller) {
        None => ReadyOutcome::Rejected(ValidationError::NotInMatch),
        Some(side) => match m.set_ready(side) {
            Ok((_, event)) => ReadyOutcome::Ready(event),
            Err(e) => ReadyOutcome::Refused(e),
        },
    }
}

/// Records that `caller` is ready for their match. The match changes only
/// where the signal is accepted, and then only in the caller's readiness.
pub fn signal_ready(game_match: &mut Match, caller: &str) -> (outcome: ReadyOutcome)
    ensures
        outcome == ready_outcome(old(game_match)@, caller@),
        match outcome {
            ReadyOutcome::Ready(event) => *final(game_match) == old(game_match).marked_ready(
                event.side,
            ),
            _ => *final(game_match) == *old(game_match),
        },
        old(game_match).wf() ==> final(game_match).wf(),
{
    let side = match game_match.get_player_number(caller) {
        Some(side) => side,
        None => {
            return ReadyOutcome::Rejected(ValidationError::NotInMatch);
        },
    };
    match game_match.set_ready(side) {
        Ok(event) => ReadyOutcome::Ready(event),
        Err(e) => ReadyOutcome::Refused(e),
    }
}

} // verus!
