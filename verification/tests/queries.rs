use steamgriddb_api::queries::{
    parameters_to_qeury, to_qeury_string, to_qeury_string_single, ToQueryValue, ToQuerys,
};
use steamgriddb_api::query_parameters::{
    AnimtionType, GridDimentions, GridQueryParameters, HeroDimentions, HeroQueryParameters, Humor,
    IconQueryParameters, LogoQueryParameters, MimeType, MimeTypeIcon, MimeTypeLogo, Nsfw,
    QueryType, Style,
};

fn some(s: &str) -> Option<String> {
    Some(s.to_string())
}

#[test]
fn render_value_gives_key_and_wire_value() {
    let q = Style::WhiteLogo.to_query_value();
    assert_eq!(q.name, "styles");
    assert_eq!(q.value, "white_logo");
    let q = GridDimentions::D600x900.to_query_value();
    assert_eq!(q.name, "dimensions");
    assert_eq!(q.value, "600x900");
}

#[test]
fn render_list_preserves_input_order() {
    let rendered = to_qeury_string(Some(&[Style::Blurred, Style::Alternate][..]));
    assert_eq!(rendered, some("styles=blurred,alternate"));
    let rendered = to_qeury_string(Some(&[Style::Alternate, Style::Blurred][..]));
    assert_eq!(rendered, some("styles=alternate,blurred"));
}

#[test]
fn render_list_keeps_repeated_values() {
    let rendered = to_qeury_string(Some(&[Nsfw::Any, Nsfw::Any, Nsfw::True][..]));
    assert_eq!(rendered, some("nsfw=any,any,true"));
}

#[test]
fn render_list_of_nothing_is_absent() {
    let empty: &[Style] = &[];
    assert_eq!(to_qeury_string(Some(empty)), None);
    assert_eq!(to_qeury_string::<Style>(None), None);
}

#[test]
fn render_list_of_one_is_the_single_value() {
    let list = to_qeury_string(Some(&[Humor::False][..]));
    let single = to_qeury_string_single(Some(&Humor::False));
    assert_eq!(list, some("humor=false"));
    assert_eq!(list, single);
}

#[test]
fn render_single_is_key_and_value_or_absent() {
    assert_eq!(to_qeury_string_single(Some(&Nsfw::True)), some("nsfw=true"));
    assert_eq!(to_qeury_string_single(Some(&Humor::Any)), some("humor=any"));
    assert_eq!(to_qeury_string_single::<Nsfw>(None), None);
}

#[test]
fn parameters_join_what_is_present() {
    assert_eq!(parameters_to_qeury(&[]), "");
    assert_eq!(parameters_to_qeury(&[None, None]), "");
    assert_eq!(parameters_to_qeury(&[some("a=1")]), "a=1");
    assert_eq!(
        parameters_to_qeury(&[None, some("a=1"), None, some("b=2"), None]),
        "a=1&b=2"
    );
    assert_eq!(
        parameters_to_qeury(&[some("a=1"), some("b=2"), some("c=3")]),
        "a=1&b=2&c=3"
    );
}

#[test]
fn parameters_keep_a_present_empty_fragment() {
    assert_eq!(parameters_to_qeury(&[some(""), some("b=2")]), "&b=2");
    assert_eq!(parameters_to_qeury(&[some("a=1"), some("")]), "a=1&");
}

#[test]
fn filter_set_without_filters_renders_empty() {
    assert_eq!(GridQueryParameters::default().to_querys(), "");
    assert_eq!(HeroQueryParameters::default().to_querys(), "");
    assert_eq!(LogoQueryParameters::default().to_querys(), "");
    assert_eq!(IconQueryParameters::default().to_querys(), "");
    assert_eq!(QueryType::Grid(None).to_querys(), "");
    assert_eq!(QueryType::Hero(None).to_querys(), "");
    assert_eq!(QueryType::Logo(None).to_querys(), "");
    assert_eq!(QueryType::Icon(None).to_querys(), "");
    assert_eq!(
        QueryType::Grid(Some(GridQueryParameters::default())).to_querys(),
        ""
    );
}

#[test]
fn filter_set_with_empty_lists_renders_empty() {
    let mut config = GridQueryParameters::default();
    config.styles = Some(&[]);
    config.dimentions = Some(&[]);
    config.mimes = Some(&[]);
    config.types = Some(&[]);
    assert_eq!(config.to_querys(), "");
}

#[test]
fn filter_set_renders_styles_before_nsfw() {
    let mut config = GridQueryParameters::default();
    config.nsfw = Some(&Nsfw::True);
    config.styles = Some(&[Style::Material, Style::NoLogo]);
    assert_eq!(config.to_querys(), "styles=material,no_logo&nsfw=true");
    let other = GridQueryParameters {
        humor: None,
        nsfw: Some(&Nsfw::True),
        types: None,
        mimes: None,
        dimentions: None,
        styles: Some(&[Style::Material, Style::NoLogo]),
    };
    assert_eq!(other.to_querys(), "styles=material,no_logo&nsfw=true");
    let mut between = HeroQueryParameters::default();
    between.nsfw = Some(&Nsfw::Any);
    between.mimes = Some(&[MimeType::Webp]);
    between.styles = Some(&[Style::Alternate]);
    between.humor = Some(&Humor::True);
    assert_eq!(
        between.to_querys(),
        "styles=alternate&mimes=image/webp&nsfw=any&humor=true"
    );
}

#[test]
fn filter_set_with_every_filter() {
    let mut config = GridQueryParameters::default();
    config.styles = Some(&[Style::Alternate, Style::Blurred]);
    config.dimentions = Some(&[GridDimentions::D1024x1024, GridDimentions::D920x430]);
    config.mimes = Some(&[MimeType::Jpeg, MimeType::Png]);
    config.types = Some(&[AnimtionType::Animated, AnimtionType::Static]);
    config.nsfw = Some(&Nsfw::False);
    config.humor = Some(&Humor::Any);
    assert_eq!(
        config.to_querys(),
        "styles=alternate,blurred&dimensions=1024x1024,920x430&mimes=image/jpeg,image/png&types=animated,static&nsfw=false&humor=any"
    );
    assert_eq!(
        QueryType::Grid(Some(config)).to_querys(),
        "styles=alternate,blurred&dimensions=1024x1024,920x430&mimes=image/jpeg,image/png&types=animated,static&nsfw=false&humor=any"
    );
}

#[test]
fn filter_set_renders_the_same_twice() {
    let mut config = HeroQueryParameters::default();
    config.styles = Some(&[Style::Blurred]);
    config.dimentions = Some(&[HeroDimentions::D1920x620]);
    config.humor = Some(&Humor::False);
    let first = config.to_querys();
    let second = config.to_querys();
    assert_eq!(first, second);
    assert_eq!(first, "styles=blurred&dimensions=1920x620&humor=false");
    let styles = vec![Style::Blurred];
    let dimentions = vec![HeroDimentions::D1920x620];
    let humor = Humor::False;
    let mut equal = HeroQueryParameters::default();
    equal.styles = Some(&styles);
    equal.dimentions = Some(&dimentions);
    equal.humor = Some(&humor);
    assert_eq!(equal.to_querys(), first);
}

#[test]
fn logo_and_icon_filter_sets_have_no_dimensions() {
    let mut logo = LogoQueryParameters::default();
    logo.styles = Some(&[Style::Alternate]);
    logo.mimes = Some(&[MimeTypeLogo::Png]);
    logo.types = Some(&[AnimtionType::Static]);
    logo.nsfw = Some(&Nsfw::False);
    logo.humor = Some(&Humor::False);
    assert_eq!(
        QueryType::Logo(Some(logo)).to_querys(),
        "styles=alternate&mimes=image/png&types=static&nsfw=false&humor=false"
    );
    let mut icon = IconQueryParameters::default();
    icon.styles = Some(&[Style::NoLogo]);
    icon.mimes = Some(&[MimeTypeIcon::Icon]);
    icon.types = Some(&[AnimtionType::Animated]);
    icon.nsfw = Some(&Nsfw::Any);
    icon.humor = Some(&Humor::True);
    assert_eq!(
        QueryType::Icon(Some(icon)).to_querys(),
        "styles=no_logo&mimes=image/vnd.microsoft.icon&types=animated&nsfw=any&humor=true"
    );
}
