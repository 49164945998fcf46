//! Records of the game's public interface: profiles and battle histories.
//!
//! These are plain data. A battle record is read by the evidence filter and by
//! the adjudicator and is never changed by them.

use vstd::prelude::*;
use vstd::string::*;
use crate::text::str_eq;

verus! {

/// What the game's service answered to a request.
#[derive(Debug)]
pub enum ApiResult<T> {
    /// The service answered with the record asked for.
    Found(T),
    /// The service knows no such record.
    NotFound,
    /// The service is under maintenance.
    Maintenance,
}

/// A player's profile as the game reports it.
#[derive(Clone, Debug)]
pub struct PlayerProfile {
    pub tag: String,
    pub name: String,
    pub club: Option<Club>,
    pub icon: Icon,
    pub trophies: u32,
    pub three_vs_three_victories: u32,
    pub solo_victories: u32,
    pub duo_victories: u32,
    pub exp_level: u32,
    pub exp_points: u32,
    pub highest_trophies: u32,
    pub brawlers: Vec<Brawler>,
}

/// The picture shown beside a profile.
#[derive(Clone, Copy, Debug, PartialEq, Eq, Structural)]
pub struct Icon {
    pub id: u32,
}

/// The club a player belongs to.
#[derive(Clone, Debug, Default)]
pub struct Club {
    pub tag: String,
    pub name: String,
}

/// A player's recent battles, oldest first.
#[derive(Clone, Debug)]
pub struct BattleLog {
    pub items: Vec<BattleLogItem>,
}

/// One battle of a history: when it was fought, the event it belonged to and
/// how it went.
#[derive(Clone, Debug)]
pub struct BattleLogItem {
    /// Seconds since the Unix epoch.
    pub battle_time: i64,
    pub event: Event,
    pub battle: Battle,
}

/// The event in which a battle was fought.
#[derive(Clone, Debug)]
pub struct Event {
    pub id: i32,
    pub mode: String,
    pub map: String,
}

/// How a battle went, from the point of view of the player whose history
/// holds it.
#[derive(Clone, Copy, Debug, PartialEq, Eq, Structural)]
pub enum BattleResult {
    Victory,
    Defeat,
    Draw,
    Unknown,
}

/// The result that the game reports under a name: `victory`, `defeat` and
/// `draw` for themselves, anything else as unknown.
pub open spec fn result_of_text(text: Seq<char>) -> BattleResult {
    if text == "victory"@ {
        BattleResult::Victory
    } else if text == "defeat"@ {
        BattleResult::Defeat
    } else if text == "draw"@ {
        BattleResult::Draw
    } else {
        BattleResult::Unknown
    }
}

/// The name under which the game reports a result.
pub open spec fn result_text(result: BattleResult) -> Seq<char> {
    match result {
        BattleResult::Victory => "victory"@,
        BattleResult::Defeat => "defeat"@,
        BattleResult::Draw => "draw"@,
        BattleResult::Unknown => "unknown"@,
    }
}

impl BattleResult {
    /// Reads a result as the game names it.
    pub fn from_text(text: &str) -> (result: BattleResult)
        ensures
            result == result_of_text(text@),
    {
        if str_eq(text, "victory") {
            BattleResult::Victory
        } else if str_eq(text, "defeat") {
            BattleResult::Defeat
        } else if str_eq(text, "draw") {
            BattleResult::Draw
        } else {
            BattleResult::Unknown
        }
    }

    /// The name under which the game reports the result. Reading the name
    /// back gives the result.
    pub fn as_text(&self) -> (text: &'static str)
        ensures
            text@ == result_text(*self),
            result_of_text(text@) == *self,
    {
        proof {
            reveal_strlit("victory");
            reveal_strlit("defeat");
            reveal_strlit("draw");
            reveal_strlit("unknown");
            assert("defeat"@[0] != "victory"@[0]);
            assert("draw"@.len() != "victory"@.len());
            assert("draw"@.len() != "defeat"@.len());
            assert("unknown"@[0] != "victory"@[0]);
            assert("unknown"@.len() != "defeat"@.len());
            assert("unknown"@.len() != "draw"@.len());
        }
        match self {
            BattleResult::Victory => "victory",
            BattleResult::Defeat => "defeat",
            BattleResult::Draw => "draw",
            BattleResult::Unknown => "unknown",
        }
    }
}

/// The battle itself.
#[derive(Clone, Debug)]
pub struct Battle {
    pub mode: String,
    /// The category of the battle, such as ranked or friendly.
    pub battle_type: String,
    pub result: BattleResult,
    pub duration: u32,
    /// The opposing teams, each a list of participants.
    pub teams: Vec<Vec<TeamPlayer>>,
}

/// A participant of a battle.
#[derive(Clone, Debug)]
pub struct TeamPlayer {
    pub tag: String,
    pub name: String,
}

/// The brawlers the game knows.
#[derive(Debug)]
pub struct BrawlerList {
    pub list: Vec<Brawler>,
    pub paging: (),
}

/// A playable character.
#[derive(Clone, Debug)]
pub struct Brawler {
    pub id: i32,
    pub name: String,
}

/// A passive ability of a brawler.
#[derive(Clone, Debug)]
pub struct StarPower {
    pub id: i32,
    pub name: String,
}

/// An active ability of a brawler.
#[derive(Clone, Debug)]
pub struct Gadget {
    pub id: i32,
    pub name: String,
}

} // verus!
