use game_similarity::game::{Game, GamesResponse, Genre, Platform, PlatformWrapper, Tag};
use game_similarity::session::{compare_games, step, Event, Outcome, Session};
use game_similarity::similarity::{Fraction, Jaccard};

const KEY: &str = "secret";

fn game(name: &str, genres: &[&str], tags: &[&str], platforms: &[&str]) -> Game {
    Game {
        name: name.to_string(),
        released: None,
        rating_bits: 4.0f32.to_bits(),
        description: Some("A game.".to_string()),
        genres: genres.iter().map(|name| Genre { name: name.to_string() }).collect(),
        tags: tags.iter().map(|name| Tag { name: name.to_string() }).collect(),
        platforms: Some(
            platforms
                .iter()
                .map(|name| PlatformWrapper { platform: Platform { name: name.to_string() } })
                .collect(),
        ),
    }
}

fn witcher() -> Game {
    game("The Witcher 3", &["RPG", "Adventure"], &["RPG", "Open World"], &["PC", "PlayStation 4"])
}

fn skyrim() -> Game {
    game("Skyrim", &["RPG", "Adventure"], &["RPG", "Action"], &["PC", "PlayStation 4"])
}

fn line(text: &str) -> Event {
    Event::Line(text.to_string())
}

fn answer(games: Vec<Game>) -> Event {
    Event::Response(GamesResponse { results: games })
}

fn url(name: &str) -> String {
    format!("https://api.rawg.io/api/games?key=secret&search={}&page_size=1", name)
}

#[test]
fn session_starts_at_the_first_name() {
    assert_eq!(Session::new(), Session::AwaitingFirstName);
    assert!(!Session::new().is_terminated());
    assert_eq!(Session::new().first_game(), None);
}

#[test]
fn exit_at_the_first_prompt_ends_the_session_without_a_lookup() {
    let (next, outcome) = step(KEY, Session::new(), line("exit\n"));
    assert_eq!(next, Session::Terminated);
    assert_eq!(outcome, Outcome::Terminated);
    assert!(next.is_terminated());
}

#[test]
fn exit_is_known_in_any_case_and_among_white_space() {
    for text in ["EXIT\n", "  Exit  \r\n", "\teXiT", "exit"] {
        let (next, outcome) = step(KEY, Session::new(), line(text));
        assert_eq!(next, Session::Terminated);
        assert_eq!(outcome, Outcome::Terminated);
    }
}

#[test]
fn exit_at_the_second_prompt_ends_the_session_without_a_lookup() {
    let session = Session::AwaitingSecondName { first: witcher() };
    let (next, outcome) = step(KEY, session, line(" Exit \n"));
    assert_eq!(next, Session::Terminated);
    assert_eq!(outcome, Outcome::Terminated);
}

#[test]
fn a_name_at_the_first_prompt_is_looked_up() {
    let (next, outcome) = step(KEY, Session::new(), line("  The Witcher 3 \n"));
    assert_eq!(next, Session::FetchingFirst { name: "The Witcher 3".to_string() });
    assert_eq!(outcome, Outcome::Fetch { url: url("The Witcher 3") });
    assert_eq!(next.first_game(), None);
}

#[test]
fn a_name_that_holds_the_exit_word_is_looked_up() {
    let (next, outcome) = step(KEY, Session::new(), line("Exit Strategy\n"));
    assert_eq!(next, Session::FetchingFirst { name: "Exit Strategy".to_string() });
    assert_eq!(outcome, Outcome::Fetch { url: url("Exit Strategy") });
}

#[test]
fn an_empty_line_is_looked_up_as_an_empty_name() {
    let (next, outcome) = step(KEY, Session::new(), line("\n"));
    assert_eq!(next, Session::FetchingFirst { name: String::new() });
    assert_eq!(outcome, Outcome::Fetch { url: url("") });
}

#[test]
fn a_name_at_the_second_prompt_is_looked_up() {
    let session = Session::AwaitingSecondName { first: witcher() };
    let (next, outcome) = step(KEY, session, line("Skyrim\n"));
    assert_eq!(next, Session::FetchingSecond { first: witcher(), name: "Skyrim".to_string() });
    assert_eq!(outcome, Outcome::Fetch { url: url("Skyrim") });
    assert_eq!(next.first_game(), Some(&witcher()));
}

#[test]
fn the_first_game_found_is_kept() {
    let session = Session::FetchingFirst { name: "witcher".to_string() };
    let (next, outcome) = step(KEY, session, answer(vec![witcher(), skyrim()]));
    assert_eq!(next, Session::AwaitingSecondName { first: witcher() });
    assert_eq!(outcome, Outcome::Found);
    assert_eq!(next.first_game(), Some(&witcher()));
}

#[test]
fn a_search_without_results_is_reported_and_nothing_is_compared() {
    let session = Session::FetchingFirst { name: "no such game".to_string() };
    let (next, outcome) = step(KEY, session, answer(Vec::new()));
    assert_eq!(next, Session::AwaitingFirstName);
    assert_eq!(outcome, Outcome::NotFound { name: "no such game".to_string() });
}

#[test]
fn a_second_search_without_results_is_reported_and_nothing_is_compared() {
    let session = Session::FetchingSecond { first: witcher(), name: "nothing".to_string() };
    let (next, outcome) = step(KEY, session, answer(Vec::new()));
    assert_eq!(next, Session::AwaitingFirstName);
    assert_eq!(outcome, Outcome::NotFound { name: "nothing".to_string() });
}

#[test]
fn a_failed_lookup_starts_again_with_the_first_name() {
    let first = Session::FetchingFirst { name: "witcher".to_string() };
    assert_eq!(step(KEY, first, Event::Failure), (Session::AwaitingFirstName, Outcome::FetchFailed));
    let second = Session::FetchingSecond { first: witcher(), name: "skyrim".to_string() };
    assert_eq!(
        step(KEY, second, Event::Failure),
        (Session::AwaitingFirstName, Outcome::FetchFailed)
    );
}

#[test]
fn the_second_game_found_is_compared_with_the_first() {
    let session = Session::FetchingSecond { first: witcher(), name: "skyrim".to_string() };
    let (next, outcome) = step(KEY, session, answer(vec![skyrim()]));
    assert_eq!(next, Session::AwaitingFirstName);
    match outcome {
        Outcome::Compared { first, second, similarity } => {
            assert_eq!(first, witcher());
            assert_eq!(second, skyrim());
            assert_eq!(similarity.tags, Jaccard { intersection: 1, union: 3 });
            assert_eq!(similarity.genres, Jaccard { intersection: 2, union: 2 });
            assert_eq!(similarity.platforms, Jaccard { intersection: 2, union: 2 });
            assert_eq!(similarity.score(), Some(Fraction { numerator: 720, denominator: 12 }));
        }
        other => panic!("not compared: {:?}", other),
    }
}

#[test]
fn events_that_are_not_awaited_are_ignored() {
    let cases = [
        (Session::AwaitingFirstName, answer(vec![witcher()])),
        (Session::AwaitingFirstName, Event::Failure),
        (Session::FetchingFirst { name: "a".to_string() }, line("b\n")),
        (Session::FetchingFirst { name: "a".to_string() }, line("exit\n")),
        (Session::AwaitingSecondName { first: witcher() }, answer(Vec::new())),
        (Session::AwaitingSecondName { first: witcher() }, Event::Failure),
        (Session::FetchingSecond { first: witcher(), name: "a".to_string() }, line("exit\n")),
        (Session::Terminated, line("Celeste\n")),
        (Session::Terminated, answer(vec![witcher()])),
        (Session::Terminated, Event::Failure),
    ];
    for (session, event) in cases {
        let (next, outcome) = step(KEY, session.clone(), event);
        assert_eq!(next, session);
        assert_eq!(outcome, Outcome::Ignored);
    }
}

#[test]
fn a_whole_round_of_the_session() {
    let (session, outcome) = step(KEY, Session::new(), line("witcher\n"));
    assert_eq!(outcome, Outcome::Fetch { url: url("witcher") });
    let (session, outcome) = step(KEY, session, answer(vec![witcher()]));
    assert_eq!(outcome, Outcome::Found);
    let (session, outcome) = step(KEY, session, line("skyrim\n"));
    assert_eq!(outcome, Outcome::Fetch { url: url("skyrim") });
    let (session, outcome) = step(KEY, session, answer(vec![skyrim()]));
    assert!(matches!(outcome, Outcome::Compared { .. }));
    assert_eq!(session, Session::AwaitingFirstName);
    let (session, outcome) = step(KEY, session, line("exit\n"));
    assert_eq!(outcome, Outcome::Terminated);
    assert!(session.is_terminated());
}

#[test]
fn games_are_compared_by_their_tags_genres_and_platforms() {
    let first = game("A", &["Puzzle"], &["Indie", "2D", "Indie"], &[]);
    let second = game("B", &["Puzzle", "Casual"], &["2D"], &[]);
    let similarity = compare_games(&first, &second);
    assert_eq!(similarity.tags, Jaccard { intersection: 1, union: 2 });
    assert_eq!(similarity.genres, Jaccard { intersection: 1, union: 2 });
    assert_eq!(similarity.platforms, Jaccard { intersection: 0, union: 0 });
    assert_eq!(similarity, compare_games(&second, &first));
    // 60 * 1/2 + 35 * 1/2 + 5 * 0
    assert_eq!(similarity.score(), Some(Fraction { numerator: 120 + 70, denominator: 4 }));
}
