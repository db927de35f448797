//! The games a server is running, by id: a new game is stored when it is
//! opened, and a guess is graded against the game stored under its id.
use std::collections::HashMap;

use vstd::prelude::*;

use crate::api::{GameView, GuessRequest, GuessResponse};
use crate::game::{
    a_fetch_failed, can_grade, game_view_for, grade_guess, graded, shows, start_session, started_from,
    valid_options, GameSession,
};
use crate::types::{easy_languages, GameMode, Language};
use crate::wikipedia::FetchError;

verus! {

broadcast use vstd::std_specs::hash::group_hash_axioms;

/// The games a server is running.
pub struct GameStore {
    games: HashMap<u128, GameSession>,
}

impl View for GameStore {
    type V = Map<u128, GameSession>;

    /// Each game under its id.
    closed spec fn view(&self) -> Map<u128, GameSession> {
        self.games@
    }
}

impl GameStore {
    /// A store without games.
    pub fn new() -> (s: GameStore)
        ensures
            s@ == Map::<u128, GameSession>::empty(),
    {
        GameStore { games: HashMap::new() }
    }

    /// Stores `session` under its id, in place of any game stored there.
    pub fn insert(&mut self, session: GameSession)
        ensures
            final(self)@ == old(self)@.insert(session.game_id, session),
    {
        let id = session.game_id;
        self.games.insert(id, session);
    }

    /// The game stored under `game_id`, if any.
    pub fn get(&self, game_id: u128) -> (r: Option<&GameSession>)
        ensures
            match r {
                Some(s) => self@.contains_key(game_id) && *s == self@[game_id],
                None => !self@.contains_key(game_id),
            },
    {
        self.games.get(&game_id)
    }
}

/// What is read under an id is what was last stored under it; storing a
/// game leaves the games under other ids as they were.
pub proof fn law_read_after_write(before: GameStore, after: GameStore, session: GameSession, id: u128)
    requires
        after@ == before@.insert(session.game_id, session),
    ensures
        after@.contains_key(session.game_id),
        after@[session.game_id] == session,
        id != session.game_id ==> (after@.contains_key(id) <==> before@.contains_key(id)),
        id != session.game_id && before@.contains_key(id) ==> after@[id] == before@[id],
{
}

/// Opens the game of the chosen `languages` and the texts `fetched` for them
/// in a game of `mode`: when every fetch succeeded, the game is stored under
/// a fresh id and its view returned; otherwise nothing is stored.
pub fn open_game(
    store: &mut GameStore,
    languages: &Vec<Language>,
    fetched: &Vec<Result<String, FetchError>>,
    mode: &GameMode,
) -> (r: Option<GameView>)
    ensures
        match r {
            Some(view) => {
                let session = final(store)@[view.game_id];
                &&& final(store)@ == old(store)@.insert(view.game_id, session)
                &&& session.game_id == view.game_id
                &&& session.mode == *mode
                &&& started_from(session, languages@, fetched@)
                &&& shows(view, session)
                &&& forall|i: int| 0 <= i < view.rounds@.len() ==> if *mode == GameMode::Easy {
                    &&& valid_options((#[trigger] view.rounds@[i]).options@, session.rounds@[i].language, easy_languages())
                    &&& view.rounds@[i].options@.no_duplicates()
                } else {
                    view.rounds@[i].options@.len() == 0
                }
            },
            None => a_fetch_failed(languages@, fetched@) && final(store)@ == old(store)@,
        },
{
    match start_session(languages, fetched, *mode) {
        None => None,
        Some(session) => {
            let view = game_view_for(&session, mode);
            proof {
                assert(view.game_id == session.game_id);
            }
            store.insert(session);
            Some(view)
        },
    }
}

/// The answer to `request` about the game `game_id`: none when no game is
/// stored under that id; otherwise the grading of the request in that game.
pub fn answer_guess(store: &GameStore, game_id: u128, request: &GuessRequest, data: &crate::scoring::ScoringData) -> (r: Option<GuessResponse>)
    requires
        store@.contains_key(game_id) ==> can_grade(store@[game_id], *request, *data),
    ensures
        if store@.contains_key(game_id) {
            graded(store@[game_id], *request, *data, r)
        } else {
            r is None
        },
{
    match store.get(game_id) {
        None => None,
        Some(session) => grade_guess(session, request, data),
    }
}

} // verus!
