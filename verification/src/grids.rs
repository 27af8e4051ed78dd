//! Grid requests by the ids that a game carries as text.
//!
//! This is the grid-only interface: it names games by text ids, takes its
//! filters as an optional `GridConfig`, and keeps every grid of each game
//! when it converts the answer to a request for several games.

pub use crate::dimensions::GridDimentions;
use crate::images::Image;
use crate::platforms::Platform;
use crate::queries::ToQuerys;
use crate::query_parameters::GridQueryParameters;
use crate::response::{
    no_data_error, normalize_flat, ErrorView, ResponseView,
};
use crate::result::SteamGridDbResult;
use crate::styles::Style;
use crate::text::{join, join_strs};
use vstd::prelude::*;

verus! {

/// The style of a grid.
pub type GridStyle = Style;

/// The filters of a grid request.
pub type GridConfig<'a> = GridQueryParameters<'a>;

/// A grid image.
pub type Grid = Image;

/// The answer to a request for the grids of several games.
#[derive(Debug)]
pub struct InnerGridsResponse {
    /// Was the request a success?
    pub success: bool,
    /// The answer for each game, in the order of the request
    pub data: Option<Vec<InnerGridResponse>>,
    /// Any errors that occurred
    pub errors: Option<Vec<String>>,
}

/// The answer for one game of a request for the grids of several games.
#[derive(Debug)]
pub struct InnerGridResponse {
    /// Was the lookup of this game a success?
    pub success: bool,
    /// The status code of the lookup
    pub status: u32,
    /// The grids of the game
    pub data: Option<Vec<Grid>>,
    /// Any errors that occurred
    pub errors: Option<Vec<String>>,
}

/// The query part of a grid address: nothing without a configuration, else
/// `?` and the query string of the configuration, which may be empty.
pub open spec fn grid_query(grid_config: Option<&GridConfig>) -> Seq<char> {
    match grid_config {
        Some(grid_config) => "?"@ + grid_config.querys(),
        None => Seq::empty(),
    }
}

/// The address of the grids of games that are named by their ids.
pub open spec fn grids_by_game_ids_url(
    base_url: Seq<char>,
    game_ids: Seq<Seq<char>>,
    grid_config: Option<&GridConfig>,
) -> Seq<char> {
    base_url + "/grids/game/"@ + join(game_ids, ","@) + grid_query(grid_config)
}

/// The address of the grids of games that are named by the ids that a
/// platform gives them.
pub open spec fn grids_by_platform_ids_url(
    base_url: Seq<char>,
    platform: Platform,
    game_ids: Seq<Seq<char>>,
    grid_config: Option<&GridConfig>,
) -> Seq<char> {
    base_url + "/grids/"@ + platform.wire_name() + "/"@ + join(game_ids, ","@) + grid_query(
        grid_config,
    )
}

/// Adds the query part of a configuration to an address.
fn append_grid_query(url_without_query: String, grid_config: Option<&GridConfig>) -> (url: String)
    ensures
        url@ == url_without_query@ + grid_query(grid_config),
{
    match grid_config {
        Some(grid_config) => {
            let mut url = url_without_query;
            let ghost before = url@;
            url.append("?");
            url.append(grid_config.to_querys().as_str());
            assert(url@ =~= before + ("?"@ + grid_config.querys()));
            url
        },
        None => {
            assert(url_without_query@ + Seq::<char>::empty() =~= url_without_query@);
            url_without_query
        },
    }
}

/// Get the URL to get the grids of one game
pub fn get_grids_by_game_id_url(base_url: &str, game_id: &str, config: Option<&GridConfig>) -> (url:
    String)
    ensures
        url@ == grids_by_game_ids_url(base_url@, seq![game_id@], config),
{
    let game_ids = [game_id];
    assert(game_ids.deep_view() =~= seq![game_id@]);
    get_grids_by_game_ids_url(base_url, &game_ids, config)
}

/// Get the URL to get the grids of several games
pub fn get_grids_by_game_ids_url(
    base_url: &str,
    game_ids: &[&str],
    grid_config: Option<&GridConfig>,
) -> (url: String)
    ensures
        url@ == grids_by_game_ids_url(base_url@, game_ids.deep_view(), grid_config),
{
    let game_ids_str = join_strs(game_ids, ",");
    let mut url_without_query = base_url.to_owned();
    url_without_query.append("/grids/game/");
    url_without_query.append(game_ids_str.as_str());
    append_grid_query(url_without_query, grid_config)
}

/// Get the URL to get the grids of one game of a platform
pub fn get_grids_by_platform_id_url(
    base_url: &str,
    platform: &Platform,
    game_ids: &str,
    grid_config: Option<&GridConfig>,
) -> (url: String)
    ensures
        url@ == grids_by_platform_ids_url(base_url@, *platform, seq![game_ids@], grid_config),
{
    let ids = [game_ids];
    assert(ids.deep_view() =~= seq![game_ids@]);
    get_grids_by_platform_ids_url(base_url, platform, &ids, grid_config)
}

/// Get the URL to get the grids of several games of a platform
pub fn get_grids_by_platform_ids_url(
    base_url: &str,
    platform: &Platform,
    game_ids: &[&str],
    grid_config: Option<&GridConfig>,
) -> (url: String)
    ensures
        url@ == grids_by_platform_ids_url(
            base_url@,
            *platform,
            game_ids.deep_view(),
            grid_config,
        ),
{
    let game_ids_str = join_strs(game_ids, ",");
    let mut url_without_query = base_url.to_owned();
    url_without_query.append("/grids/");
    url_without_query.append(platform.to_string().as_str());
    url_without_query.append("/");
    url_without_query.append(game_ids_str.as_str());
    append_grid_query(url_without_query, grid_config)
}

/// The contents of the answer for one game. Its status code is always
/// there.
pub open spec fn grid_item_view(item: InnerGridResponse) -> ResponseView<Seq<Grid>> {
    ResponseView {
        success: item.success,
        data: match item.data {
            Some(d) => Some(d@),
            None => None,
        },
        status: Some(item.status),
        errors: item.errors.deep_view(),
    }
}

/// The contents of the answer to a request for several games. It has no
/// status code of its own.
pub open spec fn grids_view(inner: InnerGridsResponse) -> ResponseView<
    Seq<ResponseView<Seq<Grid>>>,
> {
    ResponseView {
        success: inner.success,
        data: match inner.data {
            Some(d) => Some(d@.map_values(|i: InnerGridResponse| grid_item_view(i))),
            None => None,
        },
        status: None,
        errors: inner.errors.deep_view(),
    }
}

/// The contents of the outcome for several games.
pub open spec fn grids_outcome(
    result: SteamGridDbResult<Vec<SteamGridDbResult<Vec<Grid>>>>,
) -> Result<Seq<Result<Seq<Grid>, ErrorView>>, ErrorView> {
    match result.outcome() {
        Ok(items) => Ok(items@.map_values(|i: SteamGridDbResult<Vec<Grid>>| grid_outcome(i))),
        Err(e) => Err(e),
    }
}

/// The contents of the outcome for one game.
pub open spec fn grid_outcome(result: SteamGridDbResult<Vec<Grid>>) -> Result<
    Seq<Grid>,
    ErrorView,
> {
    match result.outcome() {
        Ok(grids) => Ok(grids@),
        Err(e) => Err(e),
    }
}

/// The outcome that an answer for several games stands for, when every
/// grid of every game is kept.
///
/// The answer as a whole is read as a flat envelope, and so is the answer
/// for each game: see `normalize_flat`. The outcomes of the games keep the
/// order of the answer.
pub open spec fn normalize_nested<T>(r: ResponseView<Seq<ResponseView<Seq<T>>>>) -> Result<
    Seq<Result<Seq<T>, ErrorView>>,
    ErrorView,
> {
    match normalize_flat(r) {
        Ok(items) => Ok(items.map_values(|i: ResponseView<Seq<T>>| normalize_flat(i))),
        Err(e) => Err(e),
    }
}

/// Builds the outcome for an answer that reports success without data.
fn missing_data<T>() -> (result: SteamGridDbResult<T>)
    ensures
        result.outcome() == Err::<T, ErrorView>(no_data_error()),
{
    let mut errors: Vec<String> = Vec::new();
    errors.push("success reported but no data found".to_owned());
    let result = SteamGridDbResult::Error { status: None, errors: Some(errors) };
    assert(result.outcome()->Err_0.errors->0 =~= no_data_error().errors->0);
    result
}

/// Converts the answer for one game into the outcome for that game.
fn grid_item_to_outcome(item: InnerGridResponse) -> (result: SteamGridDbResult<Vec<Grid>>)
    ensures
        grid_outcome(result) == normalize_flat(grid_item_view(item)),
{
    if !item.success {
        SteamGridDbResult::Error { errors: item.errors, status: Some(item.status) }
    } else {
        match item.data {
            Some(data) => SteamGridDbResult::Success(data),
            None => missing_data(),
        }
    }
}

/// Converts the answer to a request for several games into an outcome per
/// game, each with every grid of its game.
pub fn inner_response_to_publid(inner: InnerGridsResponse) -> (result: SteamGridDbResult<
    Vec<SteamGridDbResult<Vec<Grid>>>,
>)
    ensures
        grids_outcome(result) == normalize_nested(grids_view(inner)),
{
    if !inner.success {
        SteamGridDbResult::Error { errors: inner.errors, status: None }
    } else {
        match inner.data {
            Some(data) => {
                let ghost items = data@;
                let mut outcomes: Vec<SteamGridDbResult<Vec<Grid>>> = Vec::new();
                for item in it: data
                    invariant
                        it.seq() == items,
                        outcomes@.len() == it.index(),
                        forall|i: int|
                            0 <= i < outcomes@.len() ==> grid_outcome(#[trigger] outcomes@[i])
                                == normalize_flat(grid_item_view(items[i])),
                {
                    let outcome = grid_item_to_outcome(item);
                    outcomes.push(outcome);
                }
                assert(outcomes@.map_values(|i: SteamGridDbResult<Vec<Grid>>| grid_outcome(i))
                    =~= items.map_values(|i: InnerGridResponse| grid_item_view(i)).map_values(
                    |i: ResponseView<Seq<Grid>>| normalize_flat(i),
                ));
                SteamGridDbResult::Success(outcomes)
            },
            None => missing_data(),
        }
    }
}

} // verus!
