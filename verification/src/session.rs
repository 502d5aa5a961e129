//! The lookup-and-compare session.
//!
//! A session asks for the name of a game, looks it up, asks for the name of
//! a second game, looks that up too, reports how similar the two are, and
//! starts again. The word that ends the session is accepted wherever a name
//! is asked for. A lookup that fails or finds nothing is reported, and the
//! session starts again with the first name.
//!
//! The session itself reads and sends nothing. [`step`] takes what happened
//! last, a typed line or the end of a lookup, and says what the session's
//! new state is and what is to be done or shown. The state tells what the
//! session waits for next.

use vstd::prelude::*;
use vstd::string::*;
use crate::game::{Game, GameRecord, GamesResponse};
use crate::query::{search_url, search_url_of};
use crate::similarity::{
    enhanced_similarity, lemma_similarity_symmetric, Similarity, SimilarityScore,
};
use crate::text::{is_exit_command, is_exit_line, trim, trimmed};

verus! {

/// The state of a session, as a value of mathematics.
pub enum SessionView {
    AwaitingFirstName,
    FetchingFirst { name: Seq<char> },
    AwaitingSecondName { first: GameRecord },
    FetchingSecond { first: GameRecord, name: Seq<char> },
    Terminated,
}

/// What happened last, as a value of mathematics.
pub enum EventView {
    Line(Seq<char>),
    Response(Seq<GameRecord>),
    Failure,
}

/// What a step asks for or reports, as a value of mathematics.
pub enum OutcomeView {
    Fetch { url: Seq<char> },
    FetchFailed,
    NotFound { name: Seq<char> },
    Found,
    Compared { first: GameRecord, second: GameRecord, similarity: SimilarityScore },
    Terminated,
    Ignored,
}

/// The state of a session.
#[derive(Clone, Debug, PartialEq, Eq)]
pub enum Session {
    /// The session waits for the line that names the first game.
    AwaitingFirstName,
    /// The session waits for the end of the lookup of the first game, which
    /// was asked for as `name`.
    FetchingFirst { name: String },
    /// The first game is found, and the session waits for the line that names
    /// the second.
    AwaitingSecondName { first: Game },
    /// The session waits for the end of the lookup of the second game, which
    /// was asked for as `name`.
    FetchingSecond { first: Game, name: String },
    /// The session is over.
    Terminated,
}

/// What happened last.
#[derive(Clone, Debug, PartialEq, Eq)]
pub enum Event {
    /// The user typed this line.
    Line(String),
    /// The lookup ended with this answer.
    Response(GamesResponse),
    /// The lookup failed: the request could not be made, or its answer could
    /// not be read.
    Failure,
}

/// What a step asks for or reports.
#[derive(Clone, Debug, PartialEq, Eq)]
pub enum Outcome {
    /// A name was entered: the game is to be looked up at `url`.
    Fetch { url: String },
    /// The lookup failed; the user may try again.
    FetchFailed,
    /// The catalogue holds no game for `name`.
    NotFound { name: String },
    /// The first game is found; the session's new state holds it.
    Found,
    /// The second game is found too: the two games and their similarity.
    Compared { first: Game, second: Game, similarity: Similarity },
    /// The user ended the session.
    Terminated,
    /// The session did not wait for this event, and its state is unchanged.
    Ignored,
}

impl View for Session {
    type V = SessionView;

    open spec fn view(&self) -> SessionView {
        match *self {
            Session::AwaitingFirstName => SessionView::AwaitingFirstName,
            Session::FetchingFirst { name } => SessionView::FetchingFirst { name: name@ },
            Session::AwaitingSecondName { first } => SessionView::AwaitingSecondName {
                first: first@,
            },
            Session::FetchingSecond { first, name } => SessionView::FetchingSecond {
                first: first@,
                name: name@,
            },
            Session::Terminated => SessionView::Terminated,
        }
    }
}

impl View for Event {
    type V = EventView;

    open spec fn view(&self) -> EventView {
        match *self {
            Event::Line(line) => EventView::Line(line@),
            Event::Response(response) => EventView::Response(response@),
            Event::Failure => EventView::Failure,
        }
    }
}

impl View for Outcome {
    type V = OutcomeView;

    open spec fn view(&self) -> OutcomeView {
        match *self {
            Outcome::Fetch { url } => OutcomeView::Fetch { url: url@ },
            Outcome::FetchFailed => OutcomeView::FetchFailed,
            Outcome::NotFound { name } => OutcomeView::NotFound { name: name@ },
            Outcome::Found => OutcomeView::Found,
            Outcome::Compared { first, second, similarity } => OutcomeView::Compared {
                first: first@,
                second: second@,
                similarity: similarity@,
            },
            Outcome::Terminated => OutcomeView::Terminated,
            Outcome::Ignored => OutcomeView::Ignored,
        }
    }
}

/// The similarity of the games `first` and `second`.
pub open spec fn similarity_of(first: GameRecord, second: GameRecord) -> SimilarityScore {
    SimilarityScore::of(
        first.tags.to_set(),
        second.tags.to_set(),
        first.genres.to_set(),
        second.genres.to_set(),
        first.platforms.to_set(),
        second.platforms.to_set(),
    )
}

/// What a session does with a line where it waits for a name: it ends on the
/// word that ends the session, and else asks for a lookup of the trimmed
/// line. `fetching` is the state in which the session waits for that lookup.
pub open spec fn step_on_line(
    api_key: Seq<char>,
    line: Seq<char>,
    fetching: SessionView,
) -> (SessionView, OutcomeView) {
    if is_exit_line(line) {
        (SessionView::Terminated, OutcomeView::Terminated)
    } else {
        (fetching, OutcomeView::Fetch { url: search_url_of(api_key, trimmed(line)) })
    }
}

/// The session's new state and what it asks for or reports, when `event`
/// happens in the state `session`. `api_key` is the credential that lookups
/// are made with.
pub open spec fn step_of(api_key: Seq<char>, session: SessionView, event: EventView) -> (
    SessionView,
    OutcomeView,
) {
    match session {
        SessionView::AwaitingFirstName => match event {
            EventView::Line(line) => step_on_line(
                api_key,
                line,
                SessionView::FetchingFirst { name: trimmed(line) },
            ),
            _ => (session, OutcomeView::Ignored),
        },
        SessionView::FetchingFirst { name } => match event {
            EventView::Response(results) => if results.len() == 0 {
                (SessionView::AwaitingFirstName, OutcomeView::NotFound { name })
            } else {
                (SessionView::AwaitingSecondName { first: results[0] }, OutcomeView::Found)
            },
            EventView::Failure => (SessionView::AwaitingFirstName, OutcomeView::FetchFailed),
            EventView::Line(_) => (session, OutcomeView::Ignored),
        },
        SessionView::AwaitingSecondName { first } => match event {
            EventView::Line(line) => step_on_line(
                api_key,
                line,
                SessionView::FetchingSecond { first, name: trimmed(line) },
            ),
            _ => (session, OutcomeView::Ignored),
        },
        SessionView::FetchingSecond { first, name } => match event {
            EventView::Response(results) => if results.len() == 0 {
                (SessionView::AwaitingFirstName, OutcomeView::NotFound { name })
            } else {
                (
                    SessionView::AwaitingFirstName,
                    OutcomeView::Compared {
                        first,
                        second: results[0],
                        similarity: similarity_of(first, results[0]),
                    },
                )
            },
            EventView::Failure => (SessionView::AwaitingFirstName, OutcomeView::FetchFailed),
            EventView::Line(_) => (session, OutcomeView::Ignored),
        },
        SessionView::Terminated => (session, OutcomeView::Ignored),
    }
}

/// Swapping the two games leaves their similarity unchanged.
pub proof fn lemma_similarity_of_symmetric(first: GameRecord, second: GameRecord)
    ensures
        similarity_of(first, second) == similarity_of(second, first),
{
    lemma_similarity_symmetric(
        first.tags.to_set(),
        second.tags.to_set(),
        first.genres.to_set(),
        second.genres.to_set(),
        first.platforms.to_set(),
        second.platforms.to_set(),
    );
}

/// Whether the session waits for a line that names a game.
pub open spec fn awaits_name(session: SessionView) -> bool {
    session is AwaitingFirstName || session is AwaitingSecondName
}

/// Whether the session waits for the end of a lookup.
pub open spec fn awaits_lookup(session: SessionView) -> bool {
    session is FetchingFirst || session is FetchingSecond
}

/// The name that the session waits for the lookup of.
pub open spec fn looked_up_name(session: SessionView) -> Seq<char>
    recommends
        awaits_lookup(session),
{
    match session {
        SessionView::FetchingFirst { name } => name,
        SessionView::FetchingSecond { name, .. } => name,
        _ => Seq::empty(),
    }
}

/// The word that ends the session, typed where a name is asked for, ends the
/// session at once: no lookup is asked for.
pub proof fn lemma_exit_line_ends_session(
    api_key: Seq<char>,
    session: SessionView,
    line: Seq<char>,
)
    requires
        awaits_name(session),
        is_exit_line(line),
    ensures
        step_of(api_key, session, EventView::Line(line)) == (
            SessionView::Terminated,
            OutcomeView::Terminated,
        ),
{
}

/// A lookup is asked for only when a line is typed where a name is asked
/// for and the line is not the word that ends the session; it is then the
/// lookup of the trimmed line.
pub proof fn lemma_fetch_follows_name(api_key: Seq<char>, session: SessionView, event: EventView)
    requires
        step_of(api_key, session, event).1 is Fetch,
    ensures
        awaits_name(session),
        awaits_lookup(step_of(api_key, session, event).0),
        event is Line,
        !is_exit_line(event->Line_0),
        step_of(api_key, session, event).1 == (OutcomeView::Fetch {
            url: search_url_of(api_key, trimmed(event->Line_0)),
        }),
{
}

/// A lookup that finds no game is reported as such, under the name that was
/// looked up, and the session starts again with the first name: nothing is
/// compared.
pub proof fn lemma_empty_answer_is_not_found(api_key: Seq<char>, session: SessionView)
    requires
        awaits_lookup(session),
    ensures
        step_of(api_key, session, EventView::Response(Seq::empty())) == (
            SessionView::AwaitingFirstName,
            OutcomeView::NotFound { name: looked_up_name(session) },
        ),
{
}

/// A lookup that fails is reported, and the session starts again with the
/// first name.
pub proof fn lemma_failure_restarts(api_key: Seq<char>, session: SessionView)
    requires
        awaits_lookup(session),
    ensures
        step_of(api_key, session, EventView::Failure) == (
            SessionView::AwaitingFirstName,
            OutcomeView::FetchFailed,
        ),
{
}

/// Two games are compared only when the lookup of the second game finds
/// one; the games are then the first game that the session holds and the
/// first game of the answer.
pub proof fn lemma_compared_follows_second_game(
    api_key: Seq<char>,
    session: SessionView,
    event: EventView,
)
    requires
        step_of(api_key, session, event).1 is Compared,
    ensures
        session is FetchingSecond,
        event is Response,
        event->Response_0.len() > 0,
        step_of(api_key, session, event) == (
            SessionView::AwaitingFirstName,
            OutcomeView::Compared {
                first: session->FetchingSecond_first,
                second: event->Response_0[0],
                similarity: similarity_of(session->FetchingSecond_first, event->Response_0[0]),
            },
        ),
{
}

/// A session that is over stays over, whatever happens.
pub proof fn lemma_terminated_is_final(api_key: Seq<char>, event: EventView)
    ensures
        step_of(api_key, SessionView::Terminated, event) == (
            SessionView::Terminated,
            OutcomeView::Ignored,
        ),
{
}

/// The similarity of two games.
pub fn compare_games(first: &Game, second: &Game) -> (similarity: Similarity)
    ensures
        similarity@ == similarity_of(first@, second@),
        similarity@.wf(),
{
    let tags1 = first.tag_names();
    let tags2 = second.tag_names();
    let genres1 = first.genre_names();
    let genres2 = second.genre_names();
    let platforms1 = first.platform_names();
    let platforms2 = second.platform_names();
    enhanced_similarity(&tags1, &tags2, &genres1, &genres2, &platforms1, &platforms2)
}

impl Session {
    /// A session at its start: it waits for the name of the first game.
    pub fn new() -> (session: Session)
        ensures
            session@ == SessionView::AwaitingFirstName,
    {
        Session::AwaitingFirstName
    }

    /// Tells whether the session is over.
    pub fn is_terminated(&self) -> (over: bool)
        ensures
            over == (self@ == SessionView::Terminated),
    {
        match self {
            Session::Terminated => true,
            _ => false,
        }
    }

    /// The first game, once it is found and until the comparison is made.
    pub fn first_game(&self) -> (game: Option<&Game>)
        ensures
            match *self {
                Session::AwaitingSecondName { first } => game == Some(&first),
                Session::FetchingSecond { first, .. } => game == Some(&first),
                _ => game.is_none(),
            },
    {
        match self {
            Session::AwaitingSecondName { first } => Some(first),
            Session::FetchingSecond { first, .. } => Some(first),
            _ => None,
        }
    }
}

/// Takes a line that was typed where the session waits for a name: the
/// trimmed line and the address of its lookup, or `None` where the line is
/// the word that ends the session.
fn read_name(api_key: &str, line: &str) -> (lookup: Option<(String, String)>)
    ensures
        match lookup {
            Some((name, url)) => {
                &&& !is_exit_line(line@)
                &&& name@ == trimmed(line@)
                &&& url@ == search_url_of(api_key@, trimmed(line@))
            },
            None => is_exit_line(line@),
        },
{
    let name = trim(line);
    if is_exit_command(name) {
        None
    } else {
        Some((String::from_str(name), search_url(api_key, name)))
    }
}

/// Advances the session by one event.
///
/// `api_key` is the credential that lookups are made with. The result is the
/// session's new state, and what is to be done or shown before the session
/// goes on.
pub fn step(api_key: &str, session: Session, event: Event) -> (next: (Session, Outcome))
    ensures
        (next.0@, next.1@) == step_of(api_key@, session@, event@),
{
    match session {
        Session::AwaitingFirstName => match event {
            Event::Line(line) => match read_name(api_key, line.as_str()) {
                Some((name, url)) => (Session::FetchingFirst { name }, Outcome::Fetch { url }),
                None => (Session::Terminated, Outcome::Terminated),
            },
            _ => (Session::AwaitingFirstName, Outcome::Ignored),
        },
        Session::FetchingFirst { name } => match event {
            Event::Response(response) => match response.first() {
                Some(first) => (Session::AwaitingSecondName { first }, Outcome::Found),
                None => (Session::AwaitingFirstName, Outcome::NotFound { name }),
            },
            Event::Failure => (Session::AwaitingFirstName, Outcome::FetchFailed),
            Event::Line(_) => (Session::FetchingFirst { name }, Outcome::Ignored),
        },
        Session::AwaitingSecondName { first } => match event {
            Event::Line(line) => match read_name(api_key, line.as_str()) {
                Some((name, url)) => (
                    Session::FetchingSecond { first, name },
                    Outcome::Fetch { url },
                ),
                None => (Session::Terminated, Outcome::Terminated),
            },
            _ => (Session::AwaitingSecondName { first }, Outcome::Ignored),
        },
        Session::FetchingSecond { first, name } => match event {
            Event::Response(response) => match response.first() {
                Some(second) => {
                    let similarity = compare_games(&first, &second);
                    (Session::AwaitingFirstName, Outcome::Compared { first, second, similarity })
                },
                None => (Session::AwaitingFirstName, Outcome::NotFound { name }),
            },
            Event::Failure => (Session::AwaitingFirstName, Outcome::FetchFailed),
            Event::Line(_) => (Session::FetchingSecond { first, name }, Outcome::Ignored),
        },
        Session::Terminated => (Session::Terminated, Outcome::Ignored),
    }
}

} // verus!
