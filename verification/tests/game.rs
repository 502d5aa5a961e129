use game_similarity::game::{Game, GamesResponse, Genre, Platform, PlatformWrapper, Tag};

fn game(name: &str, genres: &[&str], tags: &[&str], platforms: Option<&[&str]>) -> Game {
    Game {
        name: name.to_string(),
        released: Some("2015-05-18".to_string()),
        rating_bits: 4.5f32.to_bits(),
        description: None,
        genres: genres.iter().map(|name| Genre { name: name.to_string() }).collect(),
        tags: tags.iter().map(|name| Tag { name: name.to_string() }).collect(),
        platforms: platforms.map(|platforms| {
            platforms
                .iter()
                .map(|name| PlatformWrapper { platform: Platform { name: name.to_string() } })
                .collect()
        }),
    }
}

#[test]
fn genre_names_come_in_their_order() {
    let game = game("The Witcher 3", &["Action", "RPG", "Action"], &[], None);
    assert_eq!(game.genre_names(), vec!["Action", "RPG", "Action"]);
}

#[test]
fn tag_names_come_in_their_order() {
    let game = game("The Witcher 3", &[], &["Open World", "Story Rich"], None);
    assert_eq!(game.tag_names(), vec!["Open World", "Story Rich"]);
    assert!(game.genre_names().is_empty());
}

#[test]
fn platform_names_come_in_their_order() {
    let game = game("The Witcher 3", &[], &[], Some(&["PC", "PlayStation 4"]));
    assert_eq!(game.platform_names(), vec!["PC", "PlayStation 4"]);
}

#[test]
fn missing_platforms_give_no_names() {
    let without = game("Tetris", &["Puzzle"], &[], None);
    assert!(without.platform_names().is_empty());
    let with_none = game("Tetris", &["Puzzle"], &[], Some(&[]));
    assert!(with_none.platform_names().is_empty());
}

#[test]
fn names_leave_the_game_as_it_was() {
    let before = game("Hades", &["Roguelike"], &["Indie"], Some(&["PC"]));
    let after = before.clone();
    let _ = (after.genre_names(), after.tag_names(), after.platform_names());
    assert_eq!(before, after);
    assert_eq!(f32::from_bits(after.rating_bits), 4.5);
}

#[test]
fn first_of_an_answer_is_its_first_game() {
    let response = GamesResponse {
        results: vec![game("Celeste", &[], &[], None), game("Celeste 2", &[], &[], None)],
    };
    assert_eq!(response.first(), Some(game("Celeste", &[], &[], None)));
}

#[test]
fn first_of_an_empty_answer_is_none() {
    let response = GamesResponse { results: Vec::new() };
    assert_eq!(response.first(), None);
}
