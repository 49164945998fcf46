//! A match between two sides of a bracket, and the transitions it accepts.

use vstd::prelude::*;
use vstd::string::*;
use crate::decimal::{
    int_decimal, lemma_int_decimal_dot_free, lemma_int_decimal_injective, lemma_split_at_dot,
    push_i32_decimal,
};
use crate::text::holds_id;

verus! {

/// What occupies one side of a match.
#[derive(Clone, Copy, Debug, PartialEq, Eq, Structural)]
pub enum PlayerType {
    /// An enrolled player.
    Player,
    /// Nobody: the other side has a bye.
    Dummy,
    /// A player who is not determined yet.
    Pending,
}

/// One of the two sides of a match.
#[derive(Clone, Copy, Debug, PartialEq, Eq, Structural)]
pub enum PlayerNumber {
    Player1,
    Player2,
}

impl PlayerNumber {
    /// The other side.
    pub open spec fn other(self) -> PlayerNumber {
        match self {
            PlayerNumber::Player1 => PlayerNumber::Player2,
            PlayerNumber::Player2 => PlayerNumber::Player1,
        }
    }

    /// The other side.
    #[verifier::when_used_as_spec(other)]
    pub fn opponent(self) -> (side: PlayerNumber)
        ensures
            side == self.other(),
    {
        match self {
            PlayerNumber::Player1 => PlayerNumber::Player2,
            PlayerNumber::Player2 => PlayerNumber::Player1,
        }
    }
}

/// Where a match stands in its life.
#[derive(Clone, Copy, Debug, PartialEq, Eq, Structural)]
pub enum MatchState {
    /// At least one side is still pending.
    AwaitingPlayers,
    /// Both sides are settled and no winner is recorded.
    Active,
    /// A winner is recorded; the match accepts no further change.
    Completed,
}

/// Why a match refused a transition.
#[derive(Clone, Copy, Debug, PartialEq, Eq, Structural)]
pub enum MatchError {
    /// A winner was to be recorded on a match that already has one.
    ConcurrentMutationConflict,
    /// The match is completed and accepts no further change.
    MatchCompleted,
    /// A side of the match is still pending.
    NotActive,
    /// The match is a bye, which has no readiness.
    ByeMatch,
    /// The match is no bye, so it is not resolved without evidence.
    NotABye,
    /// The side named holds no player.
    NotAPlayer,
    /// The side has signalled readiness before.
    AlreadyReady,
}

/// A side has signalled readiness; the other side is to be told.
#[derive(Clone, Copy, Debug, PartialEq, Eq, Structural)]
pub struct ReadyEvent {
    /// The side that became ready.
    pub side: PlayerNumber,
    /// Whether the other side had signalled readiness before.
    pub both_ready: bool,
}

/// A winner has been recorded; the other side is to be told.
#[derive(Clone, Copy, Debug, PartialEq, Eq, Structural)]
pub struct WinnerEvent {
    /// The side credited with the win.
    pub winner: PlayerNumber,
    /// Whether the win came from a bye.
    pub bye: bool,
}

/// One pairing of a round.
#[derive(Clone, Debug, PartialEq, Eq)]
pub struct Match {
    pub match_id: String,
    pub tournament_id: i32,
    pub round: i32,
    pub sequence_in_round: i32,
    pub player_1_type: PlayerType,
    pub player_2_type: PlayerType,
    pub discord_id_1: Option<String>,
    pub discord_id_2: Option<String>,
    pub player_1_ready: bool,
    pub player_2_ready: bool,
    pub winner: Option<PlayerNumber>,
}

/// The mathematical content of a [`Match`].
pub struct MatchView {
    pub match_id: Seq<char>,
    pub tournament_id: int,
    pub round: int,
    pub sequence_in_round: int,
    pub player_1_type: PlayerType,
    pub player_2_type: PlayerType,
    pub discord_id_1: Option<Seq<char>>,
    pub discord_id_2: Option<Seq<char>>,
    pub player_1_ready: bool,
    pub player_2_ready: bool,
    pub winner: Option<PlayerNumber>,
}

/// The characters of an optional string.
pub open spec fn opt_str_view(o: Option<String>) -> Option<Seq<char>> {
    match o {
        Some(s) => Some(s@),
        None => None,
    }
}

/// The side type that goes with an optional identity: a player where one is
/// given, a bye otherwise.
pub open spec fn type_of_slot(id: Option<Seq<char>>) -> PlayerType {
    if id is Some {
        PlayerType::Player
    } else {
        PlayerType::Dummy
    }
}

/// The identifier derived from a tournament, a round and a position in the
/// round: their decimal renderings, joined by dots.
pub open spec fn match_id_spec(tournament_id: int, round: int, sequence_in_round: int) -> Seq<
    char,
> {
    int_decimal(tournament_id) + seq!['.'] + int_decimal(round) + seq!['.'] + int_decimal(
        sequence_in_round,
    )
}

/// A match as it is created: both sides typed by the identities given, nobody
/// ready, no winner.
pub open spec fn fresh_match(
    match_id: Seq<char>,
    tournament_id: int,
    round: int,
    sequence_in_round: int,
    discord_id_1: Option<Seq<char>>,
    discord_id_2: Option<Seq<char>>,
) -> MatchView {
    MatchView {
        match_id,
        tournament_id,
        round,
        sequence_in_round,
        player_1_type: type_of_slot(discord_id_1),
        player_2_type: type_of_slot(discord_id_2),
        discord_id_1,
        discord_id_2,
        player_1_ready: false,
        player_2_ready: false,
        winner: None,
    }
}

impl View for Match {
    type V = MatchView;

    open spec fn view(&self) -> MatchView {
        MatchView {
            match_id: self.match_id@,
            tournament_id: self.tournament_id as int,
            round: self.round as int,
            sequence_in_round: self.sequence_in_round as int,
            player_1_type: self.player_1_type,
            player_2_type: self.player_2_type,
            discord_id_1: opt_str_view(self.discord_id_1),
            discord_id_2: opt_str_view(self.discord_id_2),
            player_1_ready: self.player_1_ready,
            player_2_ready: self.player_2_ready,
            winner: self.winner,
        }
    }
}

impl MatchView {
    /// A side holds a player exactly when it holds an identity.
    pub open spec fn wf(self) -> bool {
        &&& (self.player_1_type == PlayerType::Player) == (self.discord_id_1 is Some)
        &&& (self.player_2_type == PlayerType::Player) == (self.discord_id_2 is Some)
    }

    /// What occupies a side.
    pub open spec fn side_type(self, side: PlayerNumber) -> PlayerType {
        match side {
            PlayerNumber::Player1 => self.player_1_type,
            PlayerNumber::Player2 => self.player_2_type,
        }
    }

    /// Whether a side has signalled readiness.
    pub open spec fn side_ready(self, side: PlayerNumber) -> bool {
        match side {
            PlayerNumber::Player1 => self.player_1_ready,
            PlayerNumber::Player2 => self.player_2_ready,
        }
    }

    /// A match with nobody on one side is a bye.
    pub open spec fn is_bye(self) -> bool {
        self.player_1_type == PlayerType::Dummy || self.player_2_type == PlayerType::Dummy
    }

    /// Where the match stands in its life.
    pub open spec fn state(self) -> MatchState {
        if self.winner is Some {
            MatchState::Completed
        } else if self.player_1_type == PlayerType::Pending || self.player_2_type
            == PlayerType::Pending {
            MatchState::AwaitingPlayers
        } else {
            MatchState::Active
        }
    }

    /// The side on which `id` stands, side one first.
    pub open spec fn player_number(self, id: Seq<char>) -> Option<PlayerNumber> {
        if self.discord_id_1 == Some(id) {
            Some(PlayerNumber::Player1)
        } else if self.discord_id_2 == Some(id) {
            Some(PlayerNumber::Player2)
        } else {
            None
        }
    }

    /// The side that a bye credits: the side opposite the empty one, side two
    /// where side one is empty.
    pub open spec fn bye_side(self) -> PlayerNumber {
        if self.player_1_type == PlayerType::Dummy {
            PlayerNumber::Player2
        } else {
            PlayerNumber::Player1
        }
    }

    /// Why recording `side` as the winner is refused, if it is.
    pub open spec fn winner_refusal(self, side: PlayerNumber) -> Option<MatchError> {
        if self.winner is Some {
            Some(MatchError::ConcurrentMutationConflict)
        } else if self.state() == MatchState::AwaitingPlayers {
            Some(MatchError::NotActive)
        } else if self.side_type(side) != PlayerType::Player {
            Some(MatchError::NotAPlayer)
        } else {
            None
        }
    }

    /// The match with `side` recorded as the winner.
    pub open spec fn with_winner(self, side: PlayerNumber) -> MatchView {
        MatchView { winner: Some(side), ..self }
    }

    /// What recording `side` as the winner gives: the completed match and the
    /// event to deliver, or the refusal.
    pub open spec fn set_winner(self, side: PlayerNumber) -> Result<
        (MatchView, WinnerEvent),
        MatchError,
    > {
        match self.winner_refusal(side) {
            Some(e) => Err(e),
            None => Ok((self.with_winner(side), WinnerEvent { winner: side, bye: self.is_bye() })),
        }
    }

    /// What resolving the match as a bye gives.
    pub open spec fn resolve_bye(self) -> Result<(MatchView, WinnerEvent), MatchError> {
        if !self.is_bye() {
            Err(MatchError::NotABye)
        } else {
            self.set_winner(self.bye_side())
        }
    }

    /// Why a readiness signal from `side` is refused, if it is.
    pub open spec fn ready_refusal(self, side: PlayerNumber) -> Option<MatchError> {
        if self.winner is Some {
            Some(MatchError::MatchCompleted)
        } else if self.state() == MatchState::AwaitingPlayers {
            Some(MatchError::NotActive)
        } else if self.is_bye() {
            Some(MatchError::ByeMatch)
        } else if self.side_ready(side) {
            Some(MatchError::AlreadyReady)
        } else {
            None
        }
    }

    /// The match with `side` marked ready.
    pub open spec fn with_ready(self, side: PlayerNumber) -> MatchView {
        match side {
            PlayerNumber::Player1 => MatchView { player_1_ready: true, ..self },
            PlayerNumber::Player2 => MatchView { player_2_ready: true, ..self },
        }
    }

    /// What a readiness signal from `side` gives: the match with the side marked
    /// ready and the event to deliver, or the refusal.
    pub open spec fn set_ready(self, side: PlayerNumber) -> Result<
        (MatchView, ReadyEvent),
        MatchError,
    > {
        match self.ready_refusal(side) {
            Some(e) => Err(e),
            None => Ok(
                (
                    self.with_ready(side),
                    ReadyEvent { side, both_ready: self.side_ready(side.other()) },
                ),
            ),
        }
    }
}

impl Match {
    /// A side holds a player exactly when it holds an identity.
    pub open spec fn wf(&self) -> bool {
        self@.wf()
    }

    /// The match with `side` marked ready and nothing else different.
    pub open spec fn marked_ready(&self, side: PlayerNumber) -> Match {
        match side {
            PlayerNumber::Player1 => Match { player_1_ready: true, ..*self },
            PlayerNumber::Player2 => Match { player_2_ready: true, ..*self },
        }
    }

    /// Derives the identifier of the match at position `sequence_in_round` of
    /// round `round` in tournament `tournament_id`.
    pub fn generate_id(tournament_id: i32, round: i32, sequence_in_round: i32) -> (id: String)
        ensures
            id@ == match_id_spec(tournament_id as int, round as int, sequence_in_round as int),
    {
        proof {
            reveal_strlit(".");
        }
        let mut id = String::new();
        push_i32_decimal(&mut id, tournament_id);
        id.append(".");
        push_i32_decimal(&mut id, round);
        id.append(".");
        push_i32_decimal(&mut id, sequence_in_round);
        assert(id@ =~= match_id_spec(
            tournament_id as int,
            round as int,
            sequence_in_round as int,
        ));
        id
    }

    /// Creates a match. A side with an identity holds a player; a side without
    /// one is empty, which makes the match a bye.
    pub fn new(
        match_id: String,
        tournament_id: i32,
        round: i32,
        sequence_in_round: i32,
        discord_id_1: Option<String>,
        discord_id_2: Option<String>,
    ) -> (m: Match)
        ensures
            m@ == fresh_match(
                match_id@,
                tournament_id as int,
                round as int,
                sequence_in_round as int,
                opt_str_view(discord_id_1),
                opt_str_view(discord_id_2),
            ),
            m.wf(),
    {
        let player_1_type = match &discord_id_1 {
            Some(_) => PlayerType::Player,
            None => PlayerType::Dummy,
        };
        let player_2_type = match &discord_id_2 {
            Some(_) => PlayerType::Player,
            None => PlayerType::Dummy,
        };
        Match {
            match_id,
            tournament_id,
            round,
            sequence_in_round,
            player_1_type,
            player_2_type,
            discord_id_1,
            discord_id_2,
            player_1_ready: false,
            player_2_ready: false,
            winner: None,
        }
    }

    /// Whether each side holds a player exactly when it holds an identity.
    pub fn is_well_formed(&self) -> (ok: bool)
        ensures
            ok == self.wf(),
    {
        let one = match self.player_1_type {
            PlayerType::Player => self.discord_id_1.is_some(),
            _ => self.discord_id_1.is_none(),
        };
        let two = match self.player_2_type {
            PlayerType::Player => self.discord_id_2.is_some(),
            _ => self.discord_id_2.is_none(),
        };
        one && two
    }

    /// What occupies a side.
    pub fn side_type(&self, side: PlayerNumber) -> (t: PlayerType)
        ensures
            t == self@.side_type(side),
    {
        match side {
            PlayerNumber::Player1 => self.player_1_type,
            PlayerNumber::Player2 => self.player_2_type,
        }
    }

    /// Whether a side has signalled readiness.
    pub fn side_ready(&self, side: PlayerNumber) -> (ready: bool)
        ensures
            ready == self@.side_ready(side),
    {
        match side {
            PlayerNumber::Player1 => self.player_1_ready,
            PlayerNumber::Player2 => self.player_2_ready,
        }
    }

    /// Whether one side of the match is empty.
    pub fn is_bye(&self) -> (bye: bool)
        ensures
            bye == self@.is_bye(),
    {
        self.player_1_type == PlayerType::Dummy || self.player_2_type == PlayerType::Dummy
    }

    /// Where the match stands in its life.
    pub fn state(&self) -> (s: MatchState)
        ensures
            s == self@.state(),
    {
        if self.winner.is_some() {
            MatchState::Completed
        } else if self.player_1_type == PlayerType::Pending || self.player_2_type
            == PlayerType::Pending {
            MatchState::AwaitingPlayers
        } else {
            MatchState::Active
        }
    }

    /// The side on which the identity `discord_id` stands, if it stands on one.
    pub fn get_player_number(&self, discord_id: &str) -> (side: Option<PlayerNumber>)
        ensures
            side == self@.player_number(discord_id@),
    {
        if holds_id(&self.discord_id_1, discord_id) {
            Some(PlayerNumber::Player1)
        } else if holds_id(&self.discord_id_2, discord_id) {
            Some(PlayerNumber::Player2)
        } else {
            None
        }
    }

    /// Records `side` as the winner. The match must be active, without a winner,
    /// and `side` must hold a player; otherwise the match is left as it is and
    /// the refusal says why. A second winner is never written over the first.
    pub fn set_winner(&mut self, side: PlayerNumber) -> (r: Result<WinnerEvent, MatchError>)
        ensures
            match old(self)@.set_winner(side) {
                Ok((after, event)) => r == Ok::<WinnerEvent, MatchError>(event) && final(self)@
                    == after && *final(self) == (Match { winner: Some(side), ..*old(self) }),
                Err(e) => r == Err::<WinnerEvent, MatchError>(e) && *final(self) == *old(self),
            },
            old(self).wf() ==> final(self).wf(),
    {
        if self.winner.is_some() {
            return Err(MatchError::ConcurrentMutationConflict);
        }
        if self.player_1_type == PlayerType::Pending || self.player_2_type == PlayerType::Pending {
            return Err(MatchError::NotActive);
        }
        if self.side_type(side) != PlayerType::Player {
            return Err(MatchError::NotAPlayer);
        }
        let bye = self.is_bye();
        self.winner = Some(side);
        Ok(WinnerEvent { winner: side, bye })
    }

    /// Completes a bye: the side opposite the empty one is credited with the
    /// win, and no evidence is asked for. A match that is no bye is refused.
    pub fn resolve_bye(&mut self) -> (r: Result<WinnerEvent, MatchError>)
        ensures
            match old(self)@.resolve_bye() {
                Ok((after, event)) => r == Ok::<WinnerEvent, MatchError>(event) && final(self)@
                    == after && *final(self) == (Match {
                    winner: Some(old(self)@.bye_side()),
                    ..*old(self)
                }),
                Err(e) => r == Err::<WinnerEvent, MatchError>(e) && *final(self) == *old(self),
            },
            old(self).wf() ==> final(self).wf(),
    {
        if !self.is_bye() {
            return Err(MatchError::NotABye);
        }
        let side = if self.player_1_type == PlayerType::Dummy {
            PlayerNumber::Player2
        } else {
            PlayerNumber::Player1
        };
        self.set_winner(side)
    }

    /// Records that `side` is ready. The match must be active with a player on
    /// both sides, and the side must not have been ready before; otherwise the
    /// match is left as it is and the refusal says why.
    pub fn set_ready(&mut self, side: PlayerNumber) -> (r: Result<ReadyEvent, MatchError>)
        ensures
            match old(self)@.set_ready(side) {
                Ok((after, event)) => r == Ok::<ReadyEvent, MatchError>(event) && final(self)@
                    == after && *final(self) == old(self).marked_ready(side),
                Err(e) => r == Err::<ReadyEvent, MatchError>(e) && *final(self) == *old(self),
            },
            old(self).wf() ==> final(self).wf(),
    {
        if self.winner.is_some() {
            return Err(MatchError::MatchCompleted);
        }
        if self.player_1_type == PlayerType::Pending || self.player_2_type == PlayerType::Pending {
            return Err(MatchError::NotActive);
        }
        if self.is_bye() {
            return Err(MatchError::ByeMatch);
        }
        if self.side_ready(side) {
            return Err(MatchError::AlreadyReady);
        }
        let both_ready = self.side_ready(side.opponent());
        match side {
            PlayerNumber::Player1 => {
                self.player_1_ready = true;
            },
            PlayerNumber::Player2 => {
                self.player_2_ready = true;
            },
        }
        Ok(ReadyEvent { side, both_ready })
    }
}

/// Two derived identifiers are the same only where the tournament, the round
/// and the position are the same.
pub proof fn lemma_match_id_injective(t1: int, r1: int, s1: int, t2: int, r2: int, s2: int)
    requires
        match_id_spec(t1, r1, s1) == match_id_spec(t2, r2, s2),
    ensures
        t1 == t2,
        r1 == r2,
        s1 == s2,
{
    lemma_int_decimal_dot_free(t1);
    lemma_int_decimal_dot_free(t2);
    lemma_int_decimal_dot_free(r1);
    lemma_int_decimal_dot_free(r2);
    let x1 = int_decimal(r1) + seq!['.'] + int_decimal(s1);
    let x2 = int_decimal(r2) + seq!['.'] + int_decimal(s2);
    assert(match_id_spec(t1, r1, s1) =~= int_decimal(t1) + seq!['.'] + x1);
    assert(match_id_spec(t2, r2, s2) =~= int_decimal(t2) + seq!['.'] + x2);
    lemma_split_at_dot(int_decimal(t1), x1, int_decimal(t2), x2);
    lemma_split_at_dot(int_decimal(r1), int_decimal(s1), int_decimal(r2), int_decimal(s2));
    lemma_int_decimal_injective(t1, t2);
    lemma_int_decimal_injective(r1, r2);
    lemma_int_decimal_injective(s1, s2);
}

/// A winner is written once: after `first` has been recorded, recording any
/// `second` is refused as a conflict, whichever side it names, and the match
/// stays completed with `first` as its winner.
pub proof fn lemma_winner_written_once(m: MatchView, first: PlayerNumber, second: PlayerNumber)
    requires
        m.set_winner(first) is Ok,
    ensures
        ({
            let after = m.set_winner(first)->Ok_0.0;
            &&& after.winner == Some(first)
            &&& after.state() == MatchState::Completed
            &&& after.set_winner(second) == Err::<(MatchView, WinnerEvent), MatchError>(
                MatchError::ConcurrentMutationConflict,
            )
        }),
{
}

/// Of two attempts to record a winner on the same match, each of which would
/// be accepted alone, exactly one is accepted and the other meets a conflict,
/// in whichever order they are served.
pub proof fn lemma_winner_race(m: MatchView, a: PlayerNumber, b: PlayerNumber)
    requires
        m.set_winner(a) is Ok,
        m.set_winner(b) is Ok,
    ensures
        m.set_winner(a)->Ok_0.0.set_winner(b) == Err::<(MatchView, WinnerEvent), MatchError>(
            MatchError::ConcurrentMutationConflict,
        ),
        m.set_winner(b)->Ok_0.0.set_winner(a) == Err::<(MatchView, WinnerEvent), MatchError>(
            MatchError::ConcurrentMutationConflict,
        ),
{
}

/// A completed match refuses every transition.
pub proof fn lemma_completed_is_terminal(m: MatchView, side: PlayerNumber)
    requires
        m.state() == MatchState::Completed,
    ensures
        m.set_winner(side) is Err,
        m.set_ready(side) is Err,
        m.resolve_bye() is Err,
{
}

/// An active bye with a player on one side is completed without evidence, and
/// the win goes to the side that holds the player.
pub proof fn lemma_bye_credits_the_player(m: MatchView)
    requires
        m.is_bye(),
        m.state() == MatchState::Active,
        m.player_1_type == PlayerType::Player || m.player_2_type == PlayerType::Player,
    ensures
        m.resolve_bye() is Ok,
        ({
            let (after, event) = m.resolve_bye()->Ok_0;
            &&& after.state() == MatchState::Completed
            &&& after.winner == Some(event.winner)
            &&& event.bye
            &&& m.side_type(event.winner) == PlayerType::Player
            &&& m.side_type(event.winner.other()) == PlayerType::Dummy
            &&& after == m.with_winner(event.winner)
        }),
{
}

/// Readiness is kept: once a side is ready it stays ready through every
/// accepted transition, and a second signal from it is refused.
pub proof fn lemma_ready_is_kept(m: MatchView, side: PlayerNumber, next: PlayerNumber)
    requires
        m.set_ready(side) is Ok,
    ensures
        ({
            let after = m.set_ready(side)->Ok_0.0;
            &&& after.side_ready(side)
            &&& after.side_ready(side.other()) == m.side_ready(side.other())
            &&& after.set_ready(side) == Err::<(MatchView, ReadyEvent), MatchError>(
                MatchError::AlreadyReady,
            )
            &&& after.set_ready(next) matches Ok(later) ==> later.0.side_ready(side)
            &&& after.set_winner(next) matches Ok(later) ==> later.0.side_ready(side)
        }),
{
}

} // verus!
