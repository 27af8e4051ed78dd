use steamgriddb_api::games::{get_game_by_steam_app_id_url, get_gameinfo_by_game_id_url};

#[test]
fn get_game_by_game_id_url_test() {
    let base_url = "https://www.steamgriddb.com/api/v2";
    let url = get_gameinfo_by_game_id_url(base_url, 13136);
    assert_eq!("https://www.steamgriddb.com/api/v2/games/id/13136", url);
}

#[test]
fn get_game_by_steam_app_id_url_test() {
    let base_url = "https://www.steamgriddb.com/api/v2";
    let url = get_game_by_steam_app_id_url(base_url, 361420);
    assert_eq!("https://www.steamgriddb.com/api/v2/games/steam/361420", url);
}

#[test]
fn game_urls_write_zero_as_one_digit() {
    assert_eq!("base/games/id/0", get_gameinfo_by_game_id_url("base", 0));
    assert_eq!("base/games/steam/0", get_game_by_steam_app_id_url("base", 0));
}

#[test]
fn game_urls_write_every_digit() {
    assert_eq!(
        "/games/id/1234567890",
        get_gameinfo_by_game_id_url("", 1234567890)
    );
    assert_eq!(
        "/games/steam/9081726354",
        get_game_by_steam_app_id_url("", 9081726354)
    );
}

#[test]
fn game_urls_write_the_largest_id() {
    let url = get_gameinfo_by_game_id_url("u", usize::MAX);
    assert_eq!(format!("u/games/id/{}", usize::MAX), url);
}
