//! What the catalogue answers to a search.
//!
//! The types follow the shape of the catalogue's answer. Their views give the
//! record that the rest of the crate works on: a game's name, its release
//! date, rating and description, and the names of its genres, tags and
//! platforms.

use vstd::prelude::*;
use crate::similarity::names_of;

verus! {

/// A game as the crate sees it.
pub struct GameRecord {
    pub name: Seq<char>,
    /// The release date, where the catalogue knows one.
    pub released: Option<Seq<char>>,
    /// The rating, as the bits of a single-precision number.
    pub rating_bits: u32,
    /// The description, where the catalogue has one.
    pub description: Option<Seq<char>>,
    pub genres: Seq<Seq<char>>,
    pub tags: Seq<Seq<char>>,
    /// The platforms' names; empty where the catalogue lists no platforms.
    pub platforms: Seq<Seq<char>>,
}

/// A genre of a game.
#[derive(Clone, Debug, PartialEq, Eq)]
pub struct Genre {
    pub name: String,
}

/// A tag of a game.
#[derive(Clone, Debug, PartialEq, Eq)]
pub struct Tag {
    pub name: String,
}

/// A platform that a game runs on.
#[derive(Clone, Debug, PartialEq, Eq)]
pub struct Platform {
    pub name: String,
}

/// An entry of a game's list of platforms.
#[derive(Clone, Debug, PartialEq, Eq)]
pub struct PlatformWrapper {
    pub platform: Platform,
}

/// A game in the catalogue's answer.
///
/// The rating is a single-precision number. It is kept as its bits, since
/// the crate hands it on and never computes with it.
#[derive(Clone, Debug, PartialEq, Eq)]
pub struct Game {
    pub name: String,
    pub released: Option<String>,
    pub rating_bits: u32,
    pub description: Option<String>,
    pub genres: Vec<Genre>,
    pub tags: Vec<Tag>,
    pub platforms: Option<Vec<PlatformWrapper>>,
}

/// The catalogue's answer to a search: the games found, best match first.
#[derive(Clone, Debug, PartialEq, Eq)]
pub struct GamesResponse {
    pub results: Vec<Game>,
}

/// The characters of `text`, where there is one.
pub open spec fn optional_text(text: Option<String>) -> Option<Seq<char>> {
    match text {
        Some(text) => Some(text@),
        None => None,
    }
}

/// The names of `genres`, in their order.
pub open spec fn genre_names_of(genres: Seq<Genre>) -> Seq<Seq<char>> {
    Seq::new(genres.len(), |i: int| genres[i].name@)
}

/// The names of `tags`, in their order.
pub open spec fn tag_names_of(tags: Seq<Tag>) -> Seq<Seq<char>> {
    Seq::new(tags.len(), |i: int| tags[i].name@)
}

/// The names of `platforms`, in their order; none where the list is missing.
pub open spec fn platform_names_of(platforms: Option<Vec<PlatformWrapper>>) -> Seq<Seq<char>> {
    match platforms {
        Some(platforms) => Seq::new(platforms@.len(), |i: int| platforms@[i].platform.name@),
        None => Seq::empty(),
    }
}

impl View for Game {
    type V = GameRecord;

    open spec fn view(&self) -> GameRecord {
        GameRecord {
            name: self.name@,
            released: optional_text(self.released),
            rating_bits: self.rating_bits,
            description: optional_text(self.description),
            genres: genre_names_of(self.genres@),
            tags: tag_names_of(self.tags@),
            platforms: platform_names_of(self.platforms),
        }
    }
}

impl View for GamesResponse {
    type V = Seq<GameRecord>;

    open spec fn view(&self) -> Seq<GameRecord> {
        Seq::new(self.results@.len(), |i: int| self.results@[i]@)
    }
}

impl Game {
    /// The names of the game's genres, in their order.
    pub fn genre_names(&self) -> (names: Vec<String>)
        ensures
            names_of(names@) == self@.genres,
    {
        let mut names: Vec<String> = Vec::new();
        let mut i: usize = 0;
        while i < self.genres.len()
            invariant
                i <= self.genres.len(),
                names@.len() == i,
                forall|k: int| 0 <= k < i ==> (#[trigger] names@[k])@ == self.genres@[k].name@,
            decreases self.genres.len() - i,
        {
            names.push(self.genres[i].name.clone());
            i += 1;
        }
        names
    }

    /// The names of the game's tags, in their order.
    pub fn tag_names(&self) -> (names: Vec<String>)
        ensures
            names_of(names@) == self@.tags,
    {
        let mut names: Vec<String> = Vec::new();
        let mut i: usize = 0;
        while i < self.tags.len()
            invariant
                i <= self.tags.len(),
                names@.len() == i,
                forall|k: int| 0 <= k < i ==> (#[trigger] names@[k])@ == self.tags@[k].name@,
            decreases self.tags.len() - i,
        {
            names.push(self.tags[i].name.clone());
            i += 1;
        }
        names
    }

    /// The names of the platforms that the game runs on, in their order; none
    /// where the catalogue lists no platforms for it.
    pub fn platform_names(&self) -> (names: Vec<String>)
        ensures
            names_of(names@) == self@.platforms,
    {
        let mut names: Vec<String> = Vec::new();
        if let Some(platforms) = &self.platforms {
            let mut i: usize = 0;
            while i < platforms.len()
                invariant
                    i <= platforms.len(),
                    names@.len() == i,
                    forall|k: int|
                        0 <= k < i ==> (#[trigger] names@[k])@ == platforms@[k].platform.name@,
                decreases platforms.len() - i,
            {
                names.push(platforms[i].platform.name.clone());
                i += 1;
            }
        }
        names
    }
}

impl GamesResponse {
    /// The first game of the answer, which is the only one consulted; `None`
    /// where the search found nothing.
    pub fn first(self) -> (game: Option<Game>)
        ensures
            match game {
                Some(game) => self@.len() > 0 && game@ == self@[0] && game == self.results@[0],
                None => self@.len() == 0,
            },
    {
        let mut results = self.results;
        if results.len() > 0 {
            Some(results.remove(0))
        } else {
            None
        }
    }
}

} // verus!
