use game_similarity::query::search_url;

#[test]
fn search_url_holds_key_name_and_page_size() {
    assert_eq!(
        search_url("abc123", "Celeste"),
        "https://api.rawg.io/api/games?key=abc123&search=Celeste&page_size=1"
    );
}

#[test]
fn search_url_takes_the_name_as_it_is() {
    assert_eq!(
        search_url("k", "The Witcher 3"),
        "https://api.rawg.io/api/games?key=k&search=The Witcher 3&page_size=1"
    );
}

#[test]
fn search_url_of_empty_parts() {
    assert_eq!(search_url("", ""), "https://api.rawg.io/api/games?key=&search=&page_size=1");
}

#[test]
fn search_url_is_what_formatting_gives() {
    let api_key = "0123456789abcdef";
    let name = "Pok\u{e9}mon Sword";
    assert_eq!(
        search_url(api_key, name),
        format!("https://api.rawg.io/api/games?key={}&search={}&page_size=1", api_key, name)
    );
}
