use steamgriddb_api::images::{
    get_images_by_game_id_url, get_images_by_game_ids_url, get_images_by_platform_id_url,
    get_images_by_platform_ids_url,
};
use steamgriddb_api::query_parameters::QueryType::{Grid, Hero, Icon, Logo};
use steamgriddb_api::query_parameters::{
    AnimtionType, GridDimentions, GridQueryParameters, HeroDimentions, HeroQueryParameters, Humor,
    IconQueryParameters, LogoQueryParameters, MimeType, MimeTypeIcon, MimeTypeLogo, Nsfw,
    Platform, Style,
};

#[test]
fn images_get_grids_by_game_ids_url_test_single_no_config() {
    let base_url = "https://www.steamgriddb.com/api/v2";
    let url = get_images_by_game_ids_url(base_url, &[13136], &Grid(None));
    assert_eq!("https://www.steamgriddb.com/api/v2/grids/game/13136", url);
}

#[test]
fn images_get_grids_by_game_ids_url_test_multiple_no_config() {
    let base_url = "https://www.steamgriddb.com/api/v2";
    let url = get_images_by_game_ids_url(base_url, &[13136, 14065], &Grid(None));
    assert_eq!(
        "https://www.steamgriddb.com/api/v2/grids/game/13136,14065",
        url
    );
}

#[test]
fn images_get_grids_by_game_ids_url_test_multiple_styles_config() {
    let base_url = "https://www.steamgriddb.com/api/v2";
    let mut config = GridQueryParameters::default();
    config.styles = Some(&[Style::Alternate, Style::Blurred]);
    let url = get_images_by_game_ids_url(base_url, &[13136, 14065], &Grid(Some(config)));
    assert_eq!(
        "https://www.steamgriddb.com/api/v2/grids/game/13136,14065?styles=alternate,blurred",
        url
    );
}

#[test]
fn images_get_grids_by_game_id_url_test_multiple_styles_config() {
    let base_url = "https://www.steamgriddb.com/api/v2";
    let mut config = GridQueryParameters::default();
    config.styles = Some(&[Style::Alternate, Style::Blurred]);
    let grid_config = Grid(Some(config));
    let actual = get_images_by_game_id_url(base_url, 13136, &grid_config);
    let expected = get_images_by_game_ids_url(base_url, &[13136], &grid_config);
    assert_eq!(actual, expected);
}

#[test]
fn images_get_grids_by_game_ids_url_test_multiple_styles_multiple_config() {
    let base_url = "https://www.steamgriddb.com/api/v2";
    let mut config = GridQueryParameters::default();
    config.styles = Some(&[Style::Alternate, Style::Blurred]);
    config.types = Some(&[AnimtionType::Animated, AnimtionType::Static]);
    let url = get_images_by_game_ids_url(base_url, &[13136, 14065], &Grid(Some(config)));
    assert_eq!(
        "https://www.steamgriddb.com/api/v2/grids/game/13136,14065?styles=alternate,blurred&types=animated,static",
        url
    );
}

#[test]
fn images_get_grids_by_game_ids_url_test_multiple_styles_full_config() {
    let base_url = "https://www.steamgriddb.com/api/v2";
    let mut config = GridQueryParameters::default();
    config.styles = Some(&[Style::Alternate, Style::Blurred]);
    config.types = Some(&[AnimtionType::Animated, AnimtionType::Static]);
    config.humor = Some(&Humor::Any);
    config.nsfw = Some(&Nsfw::False);
    config.mimes = Some(&[MimeType::Jpeg, MimeType::Png]);
    config.dimentions = Some(&[GridDimentions::D1024x1024, GridDimentions::D920x430]);
    let url = get_images_by_game_ids_url(base_url, &[13136, 14065], &Grid(Some(config)));
    assert_eq!(
        "https://www.steamgriddb.com/api/v2/grids/game/13136,14065?styles=alternate,blurred&dimensions=1024x1024,920x430&mimes=image/jpeg,image/png&types=animated,static&nsfw=false&humor=any",
        url
    );
}

#[test]
fn get_heroes_by_game_ids_url_test_multiple_styles_full_config() {
    let base_url = "https://www.steamgriddb.com/api/v2";
    let mut config = HeroQueryParameters::default();
    config.styles = Some(&[Style::Alternate, Style::Blurred]);
    config.types = Some(&[AnimtionType::Animated, AnimtionType::Static]);
    config.humor = Some(&Humor::Any);
    config.nsfw = Some(&Nsfw::False);
    config.mimes = Some(&[MimeType::Jpeg, MimeType::Png]);
    config.dimentions = Some(&[HeroDimentions::D1600x650, HeroDimentions::D3840x1240]);
    let url = get_images_by_game_ids_url(base_url, &[13136, 14065], &Hero(Some(config)));
    assert_eq!(
        "https://www.steamgriddb.com/api/v2/heroes/game/13136,14065?styles=alternate,blurred&dimensions=1600x650,3840x1240&mimes=image/jpeg,image/png&types=animated,static&nsfw=false&humor=any",
        url
    );
}

#[test]
fn images_get_grids_by_platform_ids_url_test() {
    let base_url = "https://www.steamgriddb.com/api/v2";
    let mut config = GridQueryParameters::default();
    config.styles = Some(&[Style::Alternate, Style::Blurred]);
    config.types = Some(&[AnimtionType::Animated, AnimtionType::Static]);
    config.humor = Some(&Humor::Any);
    config.nsfw = Some(&Nsfw::False);
    config.mimes = Some(&[MimeType::Jpeg, MimeType::Png]);
    config.dimentions = Some(&[GridDimentions::D1024x1024, GridDimentions::D920x430]);
    let url = get_images_by_platform_ids_url(
        base_url,
        &Platform::EpicGameStore,
        &["13136", "14065"],
        &Grid(Some(config)),
    );
    assert_eq!(
        "https://www.steamgriddb.com/api/v2/grids/egs/13136,14065?styles=alternate,blurred&dimensions=1024x1024,920x430&mimes=image/jpeg,image/png&types=animated,static&nsfw=false&humor=any",
        url
    );
}

#[test]
fn get_heroes_by_platform_ids_url_test() {
    let base_url = "https://www.steamgriddb.com/api/v2";
    let mut config = HeroQueryParameters::default();
    config.styles = Some(&[Style::Alternate, Style::Blurred]);
    config.types = Some(&[AnimtionType::Animated, AnimtionType::Static]);
    config.humor = Some(&Humor::Any);
    config.nsfw = Some(&Nsfw::False);
    config.mimes = Some(&[MimeType::Jpeg, MimeType::Png]);
    config.dimentions = Some(&[HeroDimentions::D3840x1240]);
    let url = get_images_by_platform_ids_url(
        base_url,
        &Platform::BattleNet,
        &["13136", "14065"],
        &Hero(Some(config)),
    );
    assert_eq!(
        "https://www.steamgriddb.com/api/v2/heroes/bnet/13136,14065?styles=alternate,blurred&dimensions=3840x1240&mimes=image/jpeg,image/png&types=animated,static&nsfw=false&humor=any",
        url
    );
}

#[test]
fn image_urls_name_each_kind_of_image() {
    assert_eq!("b/grids/game/1", get_images_by_game_id_url("b", 1, &Grid(None)));
    assert_eq!("b/heroes/game/1", get_images_by_game_id_url("b", 1, &Hero(None)));
    assert_eq!("b/logos/game/1", get_images_by_game_id_url("b", 1, &Logo(None)));
    assert_eq!("b/icons/game/1", get_images_by_game_id_url("b", 1, &Icon(None)));
}

#[test]
fn image_urls_name_each_platform() {
    let url = |platform: &Platform| get_images_by_platform_id_url("b", platform, "x", &Grid(None));
    assert_eq!("b/grids/steam/x", url(&Platform::Steam));
    assert_eq!("b/grids/origin/x", url(&Platform::Origin));
    assert_eq!("b/grids/egs/x", url(&Platform::EpicGameStore));
    assert_eq!("b/grids/bnet/x", url(&Platform::BattleNet));
    assert_eq!("b/grids/uplay/x", url(&Platform::Uplay));
    assert_eq!("b/grids/flashpoint/x", url(&Platform::Flashpoint));
    assert_eq!("b/grids/gog/x", url(&Platform::GoG));
}

#[test]
fn image_urls_have_no_question_mark_without_filters() {
    let config = GridQueryParameters::default();
    let url = get_images_by_game_ids_url("b", &[7], &Grid(Some(config)));
    assert_eq!("b/grids/game/7", url);
    let mut config = HeroQueryParameters::default();
    config.styles = Some(&[]);
    let url = get_images_by_platform_ids_url("b", &Platform::Steam, &["7"], &Hero(Some(config)));
    assert_eq!("b/heroes/steam/7", url);
}

#[test]
fn image_urls_take_an_empty_list_of_ids() {
    assert_eq!("b/grids/game/", get_images_by_game_ids_url("b", &[], &Grid(None)));
    assert_eq!(
        "b/icons/gog/",
        get_images_by_platform_ids_url("b", &Platform::GoG, &[], &Icon(None))
    );
}

#[test]
fn logo_and_icon_urls_carry_their_own_mime_types() {
    let mut logo = LogoQueryParameters::default();
    logo.mimes = Some(&[MimeTypeLogo::Webp, MimeTypeLogo::Png]);
    assert_eq!(
        "b/logos/game/5?mimes=image/webp,image/png",
        get_images_by_game_id_url("b", 5, &Logo(Some(logo)))
    );
    let mut icon = IconQueryParameters::default();
    icon.mimes = Some(&[MimeTypeIcon::Icon, MimeTypeIcon::Png]);
    icon.humor = Some(&Humor::True);
    assert_eq!(
        "b/icons/game/5?mimes=image/vnd.microsoft.icon,image/png&humor=true",
        get_images_by_game_id_url("b", 5, &Icon(Some(icon)))
    );
}
