//! Tournaments and the players enrolled in them.

use vstd::prelude::*;
use vstd::string::*;
use crate::models::{Brawler, PlayerProfile};

verus! {

/// Where a tournament stands in its life.
#[derive(Clone, Copy, Debug, PartialEq, Eq, Structural)]
pub enum TournamentStatus {
    /// Created; players may enrol.
    Pending,
    /// The bracket is drawn and matches are played.
    Started,
    /// Play is suspended.
    Paused,
    /// All rounds are over.
    Ended,
}

/// The name under which a status is shown.
pub open spec fn status_label(status: TournamentStatus) -> Seq<char> {
    match status {
        TournamentStatus::Pending => "Pending"@,
        TournamentStatus::Started => "Started"@,
        TournamentStatus::Paused => "Paused"@,
        TournamentStatus::Ended => "Ended"@,
    }
}

impl TournamentStatus {
    /// The name under which the status is shown.
    pub fn label(&self) -> (text: String)
        ensures
            text@ == status_label(*self),
    {
        match self {
            TournamentStatus::Pending => "Pending".to_owned(),
            TournamentStatus::Started => "Started".to_owned(),
            TournamentStatus::Paused => "Paused".to_owned(),
            TournamentStatus::Ended => "Ended".to_owned(),
        }
    }
}

/// A single-elimination tournament.
#[derive(Clone, Debug)]
pub struct Tournament {
    pub tournament_id: i32,
    pub guild_id: String,
    pub name: String,
    pub status: TournamentStatus,
    /// The number of rounds, set when the tournament starts.
    pub rounds: i32,
    pub current_round: i32,
    /// Seconds since the Unix epoch.
    pub created_at: i64,
    /// The number of won games that takes a match.
    pub wins_required: i32,
    /// The game mode in which matches are played.
    pub mode: String,
    /// The map on which matches are played; empty for any.
    pub map: String,
    pub tournament_role_id: String,
    pub announcement_channel_id: String,
    pub notification_channel_id: String,
}

impl Tournament {
    /// A match is taken by at least one win.
    pub open spec fn wf(&self) -> bool {
        self.wins_required >= 1
    }

    /// Whether the number of wins that takes a match is at least one.
    pub fn is_well_formed(&self) -> (ok: bool)
        ensures
            ok == self.wf(),
    {
        self.wins_required >= 1
    }
}

/// An entry of a roster: an enrolled player.
#[derive(Clone, Debug)]
pub struct Player {
    /// The player's identity in the community.
    pub discord_id: String,
    /// The tag of the player's game account.
    pub player_tag: String,
    pub player_name: String,
    pub trophies: u32,
}

/// The identities of a roster, in its order.
pub open spec fn roster_ids(roster: Seq<Player>) -> Seq<Seq<char>> {
    roster.map_values(|p: Player| p.discord_id@)
}

/// The number of wins that takes a match where a new tournament names none.
pub const DEFAULT_CREATION_WINS: i32 = 3;

/// The number of wins that a new tournament requires: the number named, but
/// at least one; the default where none is named.
pub open spec fn creation_wins(wins_required: Option<i32>) -> int {
    match wins_required {
        Some(w) => if w < 1 {
            1
        } else {
            w as int
        },
        None => DEFAULT_CREATION_WINS as int,
    }
}

/// The number of wins that a new tournament requires where `wins_required`
/// is asked for: that number, but at least one; the default where none is
/// named.
pub fn normalize_wins(wins_required: Option<i32>) -> (wins: i32)
    ensures
        wins == creation_wins(wins_required),
        wins >= 1,
{
    match wins_required {
        Some(w) => if w < 1 {
            1
        } else {
            w
        },
        None => DEFAULT_CREATION_WINS,
    }
}

impl Tournament {
    /// Creates a tournament that awaits its players: pending, with no rounds
    /// yet, any map, and a number of required wins that is at least one.
    pub fn new(
        tournament_id: i32,
        guild_id: String,
        name: String,
        created_at: i64,
        wins_required: Option<i32>,
        mode: String,
        tournament_role_id: String,
        announcement_channel_id: String,
        notification_channel_id: String,
    ) -> (t: Tournament)
        ensures
            t.wf(),
            t.status == TournamentStatus::Pending,
            t.wins_required == creation_wins(wins_required),
            t.rounds == 0,
            t.current_round == 0,
            t.map@.len() == 0,
            t.tournament_id == tournament_id,
            t.guild_id == guild_id,
            t.name == name,
            t.created_at == created_at,
            t.mode == mode,
            t.tournament_role_id == tournament_role_id,
            t.announcement_channel_id == announcement_channel_id,
            t.notification_channel_id == notification_channel_id,
    {
        Tournament {
            tournament_id,
            guild_id,
            name,
            status: TournamentStatus::Pending,
            rounds: 0,
            current_round: 0,
            created_at,
            wins_required: normalize_wins(wins_required),
            mode,
            map: String::new(),
            tournament_role_id,
            announcement_channel_id,
            notification_channel_id,
        }
    }
}

/// A registered member of the community with their game account.
#[derive(Clone, Debug)]
pub struct User {
    pub discord_id: String,
    pub discord_name: String,
    pub player_tag: String,
    pub player_name: String,
    pub icon: u32,
    pub trophies: u32,
    pub brawlers: Vec<Brawler>,
}

impl Default for User {
    /// A user with empty names and no statistics.
    fn default() -> (u: User)
        ensures
            u.discord_id@.len() == 0,
            u.discord_name@.len() == 0,
            u.player_tag@.len() == 0,
            u.player_name@.len() == 0,
            u.icon == 0,
            u.trophies == 0,
            u.brawlers@.len() == 0,
    {
        User {
            discord_id: String::new(),
            discord_name: String::new(),
            player_tag: String::new(),
            player_name: String::new(),
            icon: 0,
            trophies: 0,
            brawlers: Vec::new(),
        }
    }
}

impl User {
    /// Registers the game account of `profile` under the tag `player_tag` for
    /// the member `discord_id`, with the profile's statistics as they stand.
    pub fn from_profile(
        discord_id: String,
        discord_name: String,
        player_tag: String,
        profile: PlayerProfile,
    ) -> (u: User)
        ensures
            u.discord_id == discord_id,
            u.discord_name == discord_name,
            u.player_tag == player_tag,
            u.player_name == profile.name,
            u.icon == profile.icon.id,
            u.trophies == profile.trophies,
            u.brawlers == profile.brawlers,
    {
        User {
            discord_id,
            discord_name,
            player_tag,
            player_name: profile.name,
            icon: profile.icon.id,
            trophies: profile.trophies,
            brawlers: profile.brawlers,
        }
    }

    /// The roster entry of this user.
    pub fn to_player(&self) -> (p: Player)
        ensures
            p.discord_id@ == self.discord_id@,
            p.player_tag@ == self.player_tag@,
            p.player_name@ == self.player_name@,
            p.trophies == self.trophies,
    {
        Player {
            discord_id: self.discord_id.clone(),
            player_tag: self.player_tag.clone(),
            player_name: self.player_name.clone(),
            trophies: self.trophies,
        }
    }
}

} // verus!
