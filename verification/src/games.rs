//! Game lookups: the request URLs and the record that comes back.

use crate::platforms::Platform;
use crate::text::{decimal, usize_to_string};
use vstd::prelude::*;

verus! {

/// Get the URL to get info about a game
pub fn get_gameinfo_by_game_id_url(base_url: &str, game_id: usize) -> (url: String)
    ensures
        url@ == base_url@ + "/games/id/"@ + decimal(game_id as nat),
{
    let mut url = base_url.to_owned();
    url.append("/games/id/");
    url.append(usize_to_string(game_id).as_str());
    url
}

/// Get the URL to get info about a game, given a steam app id
pub fn get_game_by_steam_app_id_url(base_url: &str, steam_app_id: usize) -> (url: String)
    ensures
        url@ == base_url@ + "/games/steam/"@ + decimal(steam_app_id as nat),
{
    let mut url = base_url.to_owned();
    url.append("/games/steam/");
    url.append(usize_to_string(steam_app_id).as_str());
    url
}

/// Information about a game
#[derive(Debug, Clone, PartialEq, Eq)]
pub struct GameInfo {
    /// The steamgriddb id for the game
    pub id: usize,
    /// The name of the game
    pub name: String,
    /// The platforms known for this game
    pub types: Vec<Platform>,
    /// The release date for this game
    pub release_date: Option<usize>,
    /// If this game has been verified
    pub verified: bool,
}

} // verus!
