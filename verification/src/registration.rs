//! Registration of a member's game account.
//!
//! A member names the account by its tag. The tag is brought to the form in
//! which the game reports tags, the account must not be registered to anyone
//! yet, and the game must know it.

use vstd::prelude::*;
use vstd::string::*;
use crate::models::{ApiResult, PlayerProfile};
use crate::tournament::User;

verus! {

/// What `str::to_uppercase` makes of a text: its upper case as Unicode
/// defines it.
pub uninterp spec fn uppercase_of(text: Seq<char>) -> Seq<char>;

/// Calls `str::to_uppercase`. The result depends on the text alone; the
/// contract gives it a name and states no more of it.
#[verifier::external_body]
fn to_uppercase(text: &str) -> (upper: String)
    ensures
        upper@ == uppercase_of(text@),
{
    text.to_uppercase()
}

/// A tag without the hash sign that may lead it.
pub open spec fn without_hash(tag: Seq<char>) -> Seq<char> {
    if tag.len() > 0 && tag[0] == '#' {
        tag.subrange(1, tag.len() as int)
    } else {
        tag
    }
}

/// Removes the hash sign that leads a tag, if one does.
pub fn strip_hash(tag: String) -> (bare: String)
    ensures
        bare@ == without_hash(tag@),
{
    let n: usize = tag.as_str().unicode_len();
    if n > 0 && tag.as_str().get_char(0) == '#' {
        tag.as_str().substring_char(1, n).to_owned()
    } else {
        tag
    }
}

/// Puts the hash sign before a stored tag, which gives the tag as the game
/// writes it. Removing the sign again gives the stored tag.
pub fn with_hash(tag: &str) -> (full: String)
    ensures
        full@ == seq!['#'] + tag@,
        without_hash(full@) == tag@,
{
    proof {
        reveal_strlit("#");
    }
    let mut full = "#".to_owned();
    full.append(tag);
    assert(full@ =~= seq!['#'] + tag@);
    assert(without_hash(full@) =~= tag@);
    full
}

/// Brings a tag as a member typed it to the form in which it is stored: in
/// upper case, without a leading hash sign.
pub fn normalize_tag(raw: &str) -> (tag: String)
    ensures
        tag@ == without_hash(uppercase_of(raw@)),
{
    strip_hash(to_uppercase(raw))
}

/// How an attempt to register a game account ended.
#[derive(Debug)]
pub enum Registration {
    /// The game knows the account: the member is to confirm it, and the user
    /// is then stored.
    Confirm(User),
    /// The account is registered to another member.
    TagTaken,
    /// The game knows no account of that tag.
    NotFound,
    /// The game's service is under maintenance.
    ServiceUnavailable,
}

/// Decides a registration of the account `player_tag` for the member
/// `discord_id`. `taken` tells whether the tag is registered to someone
/// already, and `profile` is what the game answered for the tag. An account
/// that is taken is refused whatever the game answered.
pub fn register(
    discord_id: String,
    discord_name: String,
    player_tag: String,
    taken: bool,
    profile: ApiResult<PlayerProfile>,
) -> (r: Registration)
    ensures
        taken ==> r is TagTaken,
        !taken ==> match profile {
            ApiResult::Found(p) => r matches Registration::Confirm(u) && u.discord_id
                == discord_id && u.discord_name == discord_name && u.player_tag == player_tag
                && u.player_name == p.name && u.icon == p.icon.id && u.trophies == p.trophies
                && u.brawlers == p.brawlers,
            ApiResult::NotFound => r is NotFound,
            ApiResult::Maintenance => r is ServiceUnavailable,
        },
{
    if taken {
        return Registration::TagTaken;
    }
    match profile {
        ApiResult::Found(p) => Registration::Confirm(
            User::from_profile(discord_id, discord_name, player_tag, p),
        ),
        ApiResult::NotFound => Registration::NotFound,
        ApiResult::Maintenance => Registration::ServiceUnavailable,
    }
}

} // verus!
