//! Image requests: the request URLs and the record of an image.

pub use crate::author::Author;
use crate::platforms::Platform;
use crate::queries::ToQuerys;
use crate::query_parameters::QueryType;
use crate::shared_settings::MimeType;
use crate::styles::Style;
use crate::text::{decimals, join, join_numbers, join_strs};
use vstd::prelude::*;

verus! {

/// An image of a game
#[derive(Debug, Clone, PartialEq, Eq)]
pub struct Image {
    /// The id of the image
    pub id: u32,
    /// The score of the image
    pub score: u32,
    /// The style of the image
    pub style: Style,
    /// The width of the image in pixels
    pub width: u32,
    /// The height of the image in pixels
    pub height: u32,
    /// Is the image Not Safe For Work?
    pub nsfw: bool,
    /// Is the image humorous?
    pub humor: bool,
    /// The notes of the uploader, if any
    pub notes: Option<String>,
    /// The mime type of the image
    pub mime: MimeType,
    /// The language of the image
    pub language: String,
    /// The address of the image
    pub url: String,
    /// The address of a thumbnail of the image
    pub thumb: String,
    /// Is the image locked?
    pub lock: bool,
    /// May the image trigger epilepsy?
    pub epilepsy: bool,
    /// The number of votes for the image
    pub upvotes: u32,
    /// The number of votes against the image
    pub downvotes: u32,
    /// The user that uploaded the image
    pub author: Author,
}

/// The path segment of a kind of image.
pub open spec fn kind_path(config: QueryType) -> Seq<char> {
    match config {
        QueryType::Grid(_) => "grids"@,
        QueryType::Hero(_) => "heroes"@,
        QueryType::Logo(_) => "logos"@,
        QueryType::Icon(_) => "icons"@,
    }
}

/// An address with its query string: the address alone where the query
/// string is empty, else the address, `?` and the query string.
pub open spec fn with_query(url: Seq<char>, query: Seq<char>) -> Seq<char> {
    if query.len() == 0 {
        url
    } else {
        url + "?"@ + query
    }
}

/// The address of the images of games that are named by their ids.
pub open spec fn images_by_game_ids_url(
    base_url: Seq<char>,
    game_ids: Seq<usize>,
    config: QueryType,
) -> Seq<char> {
    with_query(
        base_url + "/"@ + kind_path(config) + "/game/"@ + join(decimals(game_ids), ","@),
        config.querys(),
    )
}

/// The address of the images of games that are named by the ids that a
/// platform gives them.
pub open spec fn images_by_platform_ids_url(
    base_url: Seq<char>,
    platform: Platform,
    game_ids: Seq<Seq<char>>,
    config: QueryType,
) -> Seq<char> {
    with_query(
        base_url + "/"@ + kind_path(config) + "/"@ + platform.wire_name() + "/"@ + join(
            game_ids,
            ","@,
        ),
        config.querys(),
    )
}

/// Writes the path segment of a kind of image.
fn kind_path_str(config: &QueryType) -> (s: &'static str)
    ensures
        s@ == kind_path(*config),
{
    match config {
        QueryType::Grid(_) => "grids",
        QueryType::Hero(_) => "heroes",
        QueryType::Logo(_) => "logos",
        QueryType::Icon(_) => "icons",
    }
}

/// Adds the query string of the filters to an address.
fn append_query(url_without_query: String, config: &QueryType) -> (url: String)
    ensures
        url@ == with_query(url_without_query@, config.querys()),
{
    let query_string = config.to_querys();
    if query_string.as_str().is_empty() {
        url_without_query
    } else {
        let mut url = url_without_query;
        url.append("?");
        url.append(query_string.as_str());
        url
    }
}

/// Get the URL to get the images of one game
pub fn get_images_by_game_id_url(base_url: &str, game_id: usize, config: &QueryType) -> (url:
    String)
    ensures
        url@ == images_by_game_ids_url(base_url@, seq![game_id], *config),
{
    let game_ids = [game_id];
    assert(game_ids@ =~= seq![game_id]);
    get_images_by_game_ids_url(base_url, &game_ids, config)
}

/// Get the URL to get the images of several games
pub fn get_images_by_game_ids_url(base_url: &str, game_ids: &[usize], config: &QueryType) -> (url:
    String)
    ensures
        url@ == images_by_game_ids_url(base_url@, game_ids@, *config),
{
    let game_ids_str = join_numbers(game_ids, ",");
    let mut url_without_query = base_url.to_owned();
    url_without_query.append("/");
    url_without_query.append(kind_path_str(config));
    url_without_query.append("/game/");
    url_without_query.append(game_ids_str.as_str());
    append_query(url_without_query, config)
}

/// Get the URL to get the images of one game of a platform
pub fn get_images_by_platform_id_url(
    base_url: &str,
    platform: &Platform,
    game_id: &str,
    grid_config: &QueryType,
) -> (url: String)
    ensures
        url@ == images_by_platform_ids_url(base_url@, *platform, seq![game_id@], *grid_config),
{
    let game_ids = [game_id];
    assert(game_ids.deep_view() =~= seq![game_id@]);
    get_images_by_platform_ids_url(base_url, platform, &game_ids, grid_config)
}

/// Get the URL to get the images of several games of a platform
pub fn get_images_by_platform_ids_url(
    base_url: &str,
    platform: &Platform,
    game_ids: &[&str],
    config: &QueryType,
) -> (url: String)
    ensures
        url@ == images_by_platform_ids_url(base_url@, *platform, game_ids.deep_view(), *config),
{
    let game_ids_str = join_strs(game_ids, ",");
    let mut url_without_query = base_url.to_owned();
    url_without_query.append("/");
    url_without_query.append(kind_path_str(config));
    url_without_query.append("/");
    url_without_query.append(platform.to_string().as_str());
    url_without_query.append("/");
    url_without_query.append(game_ids_str.as_str());
    append_query(url_without_query, config)
}

} // verus!
