//! The addresses of the official Steam store images of a game.

use vstd::prelude::*;

verus! {

/// Urls for steam static files
#[derive(Debug, Clone)]
pub struct SteamStaticUrls {
    /// Steam header url
    pub header: String,
    /// Steam capsule url
    pub capsule: String,
    /// Steam hero url
    pub hero: String,
    /// Steam logo url
    pub logo: String,
}

/// The address of one store image: the store's directory of the game, then
/// the name of the image file.
pub open spec fn steam_static_url(steam_id: Seq<char>, file: Seq<char>) -> Seq<char> {
    "https://cdn.cloudflare.steamstatic.com/steam/apps/"@ + steam_id + "/"@ + file
}

/// Writes the address of one store image.
fn static_url(steam_id: &str, file: &str) -> (url: String)
    ensures
        url@ == steam_static_url(steam_id@, file@),
{
    let mut url = "https://cdn.cloudflare.steamstatic.com/steam/apps/".to_owned();
    url.append(steam_id);
    url.append("/");
    url.append(file);
    url
}

impl SteamStaticUrls {
    /// Create a new instance of SteamStaticUrls
    pub fn new(steam_id: &str) -> (urls: Self)
        ensures
            urls.header@ == steam_static_url(steam_id@, "header.jpg"@),
            urls.capsule@ == steam_static_url(steam_id@, "library_600x900_2x.jpg"@),
            urls.hero@ == steam_static_url(steam_id@, "library_hero.jpg"@),
            urls.logo@ == steam_static_url(steam_id@, "logo.png"@),
    {
        SteamStaticUrls {
            header: static_url(steam_id, "header.jpg"),
            capsule: static_url(steam_id, "library_600x900_2x.jpg"),
            hero: static_url(steam_id, "library_hero.jpg"),
            logo: static_url(steam_id, "logo.png"),
        }
    }
}

} // verus!
