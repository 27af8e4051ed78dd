//! The settings of a client of the service, and the decisions of a lookup
//! that may take more than one request.
//!
//! Nothing here talks to the network. A caller sends the requests that
//! these functions name, and hands the answers back.

use crate::images::{
    get_images_by_game_id_url, get_images_by_game_ids_url, images_by_game_ids_url, Image,
};
use crate::query_parameters::QueryType;
use crate::response::{
    batch_result_view, batch_view, flat_view, normalize_batch, normalize_flat,
    response_to_result, response_to_result_flat, ErrorView, Response, SteamGridDbError,
    SteamGridDbResult,
};
use crate::steam_static::{steam_static_url, SteamStaticUrls};
use vstd::prelude::*;

verus! {

/// The settings of a client: the key that authorizes its requests and the
/// address that every request starts with.
pub struct Client {
    auth_key: String,
    base_url: String,
}

/// What a client holds.
pub struct ClientView {
    pub auth_key: Seq<char>,
    pub base_url: Seq<char>,
}

/// The address of the service that a new client starts with.
pub open spec fn default_base_url() -> Seq<char> {
    "https://www.steamgriddb.com/api/v2"@
}

impl View for Client {
    type V = ClientView;

    closed spec fn view(&self) -> ClientView {
        ClientView { auth_key: self.auth_key@, base_url: self.base_url@ }
    }
}

/// The next move in a lookup of one image for each of several games.
pub enum ImagesForIds {
    /// Ask for the images of the only game, at this address.
    AskSingle(String),
    /// Ask for the images of all the games in one request, at this address.
    AskBatch(String),
    /// The lookup is over: one result for each game, in the order of the games.
    Done(Vec<SteamGridDbResult<Image>>),
    /// The lookup is over: the service reported this error.
    Failed(SteamGridDbError),
}

/// What a move holds.
pub enum ImagesForIdsView {
    AskSingle(Seq<char>),
    AskBatch(Seq<char>),
    Done(Seq<Result<Image, ErrorView>>),
    Failed(ErrorView),
}

impl View for ImagesForIds {
    type V = ImagesForIdsView;

    open spec fn view(&self) -> ImagesForIdsView {
        match self {
            ImagesForIds::AskSingle(url) => ImagesForIdsView::AskSingle(url@),
            ImagesForIds::AskBatch(url) => ImagesForIdsView::AskBatch(url@),
            ImagesForIds::Done(results) => ImagesForIdsView::Done(
                batch_result_view(Ok(*results))->Ok_0,
            ),
            ImagesForIds::Failed(error) => ImagesForIdsView::Failed(error@),
        }
    }
}

/// The first move of a lookup: nothing to ask for no game, the images of
/// the game for one game, and one request for all the games otherwise.
pub open spec fn images_for_ids_first(
    base_url: Seq<char>,
    game_ids: Seq<usize>,
    query: QueryType,
) -> ImagesForIdsView {
    if game_ids.len() == 0 {
        ImagesForIdsView::Done(Seq::empty())
    } else if game_ids.len() == 1 {
        ImagesForIdsView::AskSingle(images_by_game_ids_url(base_url, game_ids, query))
    } else {
        ImagesForIdsView::AskBatch(images_by_game_ids_url(base_url, game_ids, query))
    }
}

/// The move after the answer for the only game: a failure ends the lookup,
/// a first image is the result, and without an image the lookup goes on
/// with one request for all the games.
pub open spec fn images_for_ids_second(
    base_url: Seq<char>,
    game_ids: Seq<usize>,
    query: QueryType,
    answer: Result<Seq<Image>, ErrorView>,
) -> ImagesForIdsView {
    match answer {
        Err(error) => ImagesForIdsView::Failed(error),
        Ok(images) => if images.len() > 0 {
            ImagesForIdsView::Done(seq![Ok(images[0])])
        } else {
            ImagesForIdsView::AskBatch(images_by_game_ids_url(base_url, game_ids, query))
        },
    }
}

/// The move after the answer for all the games: the lookup is over, with
/// the results of the answer or with its error.
pub open spec fn images_for_ids_last(
    answer: Result<Seq<Result<Image, ErrorView>>, ErrorView>,
) -> ImagesForIdsView {
    match answer {
        Err(error) => ImagesForIdsView::Failed(error),
        Ok(results) => ImagesForIdsView::Done(results),
    }
}

impl Client {
    /// Creates a new client with the given auth key.
    pub fn new(auth_key: &str) -> (client: Self)
        ensures
            client@ == (ClientView { auth_key: auth_key@, base_url: default_base_url() }),
    {
        Client {
            auth_key: auth_key.to_owned(),
            base_url: "https://www.steamgriddb.com/api/v2".to_owned(),
        }
    }

    /// Sets the base url for the client.
    ///
    /// The default url is <https://www.steamgriddb.com/api/v2>
    pub fn set_base_url(&mut self, base_url: &str)
        ensures
            final(self)@ == (ClientView { auth_key: old(self)@.auth_key, base_url: base_url@ }),
    {
        self.base_url = base_url.to_owned();
    }

    /// Gets the base url for the client.
    ///
    /// The default url is <https://www.steamgriddb.com/api/v2>
    pub fn base_url(&self) -> (base_url: &str)
        ensures
            base_url@ == self@.base_url,
    {
        self.base_url.as_str()
    }

    /// Gets the auth key for the client.
    pub fn get_auth_key(&self) -> (auth_key: &str)
        ensures
            auth_key@ == self@.auth_key,
    {
        self.auth_key.as_str()
    }

    /// Sets the auth key for the client.
    pub fn set_auth_key(&mut self, auth_key: &str)
        ensures
            final(self)@ == (ClientView { auth_key: auth_key@, base_url: old(self)@.base_url }),
    {
        self.auth_key = auth_key.to_owned();
    }

    /// Starts a lookup of one image for each of several games.
    pub fn images_for_ids_start(&self, game_ids: &[usize], query: &QueryType) -> (next:
        ImagesForIds)
        ensures
            next@ == images_for_ids_first(self@.base_url, game_ids@, *query),
    {
        if game_ids.len() == 0 {
            let results: Vec<SteamGridDbResult<Image>> = Vec::new();
            assert(batch_result_view(Ok(results))->Ok_0 =~= Seq::empty());
            ImagesForIds::Done(results)
        } else if game_ids.len() == 1 {
            assert(game_ids@ =~= seq![game_ids@[0]]);
            ImagesForIds::AskSingle(
                get_images_by_game_id_url(self.base_url.as_str(), game_ids[0], query),
            )
        } else {
            ImagesForIds::AskBatch(
                get_images_by_game_ids_url(self.base_url.as_str(), game_ids, query),
            )
        }
    }

    /// Goes on with a lookup after the answer to the request for the only
    /// game.
    pub fn images_for_ids_after_single(
        &self,
        game_ids: &[usize],
        query: &QueryType,
        response: Response<Vec<Image>>,
    ) -> (next: ImagesForIds)
        ensures
            next@ == images_for_ids_second(
                self@.base_url,
                game_ids@,
                *query,
                normalize_flat(flat_view(response)),
            ),
    {
        match response_to_result(response) {
            Err(error) => ImagesForIds::Failed(error),
            Ok(mut images) => {
                if images.len() > 0 {
                    let ghost first = images@[0];
                    let mut results: Vec<SteamGridDbResult<Image>> = Vec::new();
                    results.push(Ok(images.swap_remove(0)));
                    assert(batch_result_view(Ok(results))->Ok_0 =~= seq![
                        Ok::<Image, ErrorView>(first),
                    ]);
                    ImagesForIds::Done(results)
                } else {
                    ImagesForIds::AskBatch(
                        get_images_by_game_ids_url(self.base_url.as_str(), game_ids, query),
                    )
                }
            },
        }
    }

    /// Ends a lookup with the answer to the request for all the games.
    pub fn images_for_ids_after_batch(response: Response<Vec<Response<Vec<Image>>>>) -> (next:
        ImagesForIds)
        ensures
            next@ == images_for_ids_last(normalize_batch(batch_view(response))),
    {
        match response_to_result_flat(response) {
            Err(error) => ImagesForIds::Failed(error),
            Ok(results) => ImagesForIds::Done(results),
        }
    }

    /// Get a SteamStaticUrls that contains the expected urls for the official Steam store images.
    pub fn get_official_steam_images_static(steam_app_id: &str) -> (urls: SteamStaticUrls)
        ensures
            urls.header@ == steam_static_url(steam_app_id@, "header.jpg"@),
            urls.capsule@ == steam_static_url(steam_app_id@, "library_600x900_2x.jpg"@),
            urls.hero@ == steam_static_url(steam_app_id@, "library_hero.jpg"@),
            urls.logo@ == steam_static_url(steam_app_id@, "logo.png"@),
    {
        SteamStaticUrls::new(steam_app_id)
    }

    /// Get a SteamStaticUrls that contains the expected urls for the official Steam store images.
    pub fn get_official_steam_images(&self, steam_app_id: &str) -> (urls: SteamStaticUrls)
        ensures
            urls.header@ == steam_static_url(steam_app_id@, "header.jpg"@),
            urls.capsule@ == steam_static_url(steam_app_id@, "library_600x900_2x.jpg"@),
            urls.hero@ == steam_static_url(steam_app_id@, "library_hero.jpg"@),
            urls.logo@ == steam_static_url(steam_app_id@, "logo.png"@),
    {
        Self::get_official_steam_images_static(steam_app_id)
    }
}

} // verus!
