use steamgriddb_api::search::get_search_url;

#[test]
fn get_search_url_test() {
    let base_url = "https://www.steamgriddb.com/api/v2";
    let url = get_search_url(base_url, "Assassin's Creed III");
    assert_eq!(
        "https://www.steamgriddb.com/api/v2/search/autocomplete/Assassin%27s%20Creed%20III",
        url
    );
}

#[test]
fn search_url_keeps_unreserved_characters() {
    let url = get_search_url("b", "AZaz09-._~");
    assert_eq!("b/search/autocomplete/AZaz09-._~", url);
}

#[test]
fn search_url_encodes_reserved_characters_in_upper_case() {
    let url = get_search_url("b", "a/b?c=d&e+f%g");
    assert_eq!("b/search/autocomplete/a%2Fb%3Fc%3Dd%26e%2Bf%25g", url);
}

#[test]
fn search_url_encodes_each_byte_of_a_character() {
    let url = get_search_url("b", "Pok\u{e9}mon \u{1f47e}");
    assert_eq!("b/search/autocomplete/Pok%C3%A9mon%20%F0%9F%91%BE", url);
}

#[test]
fn search_url_of_an_empty_query() {
    assert_eq!("b/search/autocomplete/", get_search_url("b", ""));
}
