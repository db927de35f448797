//! A game on the server: its languages, drawn from the pool of its mode, its
//! rounds, the view of it that the player gets, and the grading of a guess.
use vstd::prelude::*;

use crate::api::{GameView, GuessRequest, GuessResponse, RoundView};
use crate::random::{random_id, seeded_order, shuffle_languages, shuffle_seeded, thread_rng};
use crate::seed::{fnv1a, seed_number};
use crate::scoring::{binary_score, easy_score, partial_score, score_labels, ScoringData};
use crate::types::{all_languages, easy_languages, medium_languages, GameMode, Language};
use crate::wikipedia::FetchError;

verus! {

/// How many rounds a game has.
pub const ROUNDS: usize = 5;

/// How many wrong languages an Easy round offers beside the right one.
pub const DISTRACTORS: usize = 3;

/// A round as the server keeps it: with its answer.
#[derive(Debug, Clone, PartialEq, Eq)]
pub struct Round {
    pub round_id: u128,
    pub text: String,
    pub language: Language,
}

/// A game as the server keeps it.
#[derive(Debug, Clone, PartialEq, Eq)]
pub struct GameSession {
    pub game_id: u128,
    pub rounds: Vec<Round>,
    /// The mode the game is played in, which decides how a guess is scored.
    pub mode: GameMode,
}

/// The parameters of a request for a new game.
#[derive(Debug, Clone, Copy, PartialEq, Eq, Structural)]
pub struct GameParams {
    pub mode: Option<GameMode>,
}

impl GameParams {
    /// The mode asked for, Medium when none is.
    pub fn mode_or_default(&self) -> (m: GameMode)
        ensures
            m == match self.mode {
                Some(m) => m,
                None => GameMode::Medium,
            },
    {
        match self.mode {
            Some(m) => m,
            None => GameMode::Medium,
        }
    }
}

/// The languages a game of `mode` draws from.
pub open spec fn spec_language_pool(mode: GameMode) -> Seq<Language> {
    match mode {
        GameMode::Easy => easy_languages(),
        GameMode::Medium => medium_languages(),
        GameMode::Hard | GameMode::Daily => all_languages(),
    }
}

/// The languages a game of `mode` draws from.
pub fn language_pool(mode: &GameMode) -> (r: &'static [Language])
    ensures
        r@ == spec_language_pool(*mode),
{
    match mode {
        GameMode::Easy => Language::easy_pool(),
        GameMode::Medium => Language::medium_pool(),
        GameMode::Hard | GameMode::Daily => Language::all(),
    }
}

/// Every pool names each of its languages once.
pub proof fn law_pools_have_no_duplicates(mode: GameMode)
    ensures
        spec_language_pool(mode).no_duplicates(),
        spec_language_pool(mode).len() >= 10,
{
    crate::types::lemma_all_languages_positions();
    let e = easy_languages();
    assert forall|i: int, j: int| 0 <= i < e.len() && 0 <= j < e.len() && i != j implies e[i] != e[j] by {
        assert(e[0].index() == 0);
        assert(e[1].index() == 6);
        assert(e[2].index() == 7);
        assert(e[3].index() == 5);
        assert(e[4].index() == 1);
        assert(e[5].index() == 3);
        assert(e[6].index() == 8);
        assert(e[7].index() == 9);
        assert(e[8].index() == 4);
        assert(e[9].index() == 11);
    }
    let a = all_languages();
    assert forall|i: int, j: int| 0 <= i < a.len() && 0 <= j < a.len() && i != j implies a[i] != a[j] by {
        assert(a[i].index() == i);
        assert(a[j].index() == j);
    }
}

/// A copy of a slice of languages.
fn languages_of(s: &[Language]) -> (v: Vec<Language>)
    ensures
        v@ == s@,
{
    let mut v: Vec<Language> = Vec::new();
    for i in 0..s.len()
        invariant
            v@ == s@.take(i as int),
    {
        v.push(s[i]);
        assert(s@.take(i + 1) == s@.take(i as int).push(s@[i as int]));
    }
    assert(s@.take(s@.len() as int) =~= s@);
    v
}

/// Keeps the first `n` values: they are among the values that were there.
proof fn lemma_take_sub_multiset(s: Seq<Language>, n: int)
    requires
        0 <= n <= s.len(),
    ensures
        s.take(n).to_multiset().subset_of(s.to_multiset()),
{
    assert(s =~= s.take(n) + s.skip(n));
    vstd::seq_lib::lemma_multiset_commutative(s.take(n), s.skip(n));
    broadcast use vstd::multiset::group_multiset_axioms;
}

/// A sequence whose multiset is below that of a sequence without duplicates
/// has no duplicates.
proof fn lemma_sub_multiset_no_duplicates(s: Seq<Language>, t: Seq<Language>)
    requires
        t.no_duplicates(),
        s.to_multiset().subset_of(t.to_multiset()),
    ensures
        s.no_duplicates(),
{
    t.lemma_multiset_has_no_duplicates();
    broadcast use vstd::seq_lib::to_multiset_contains;
    assert forall|x: Language| s.to_multiset().contains(x) implies s.to_multiset().count(x) == 1 by {
        assert(s.to_multiset().count(x) <= t.to_multiset().count(x));
        assert(t.to_multiset().contains(x));
    }
    s.lemma_multiset_has_no_duplicates_conv();
}

/// A fresh random seed: the low 64 bits of a random version-4 UUID.
fn random_seed() -> (seed: u64) {
    (random_id() % 0x1_0000_0000_0000_0000u128) as u64
}

/// The languages of a new game of `mode`: five different languages of its
/// pool, the first five of the order into which a freshly drawn random seed
/// shuffles the pool.
pub fn choose_languages(mode: &GameMode) -> (r: Vec<Language>)
    ensures
        r@.len() == ROUNDS,
        r@.no_duplicates(),
        r@.to_multiset().subset_of(spec_language_pool(*mode).to_multiset()),
        forall|i: int| 0 <= i < r@.len() ==> spec_language_pool(*mode).contains(#[trigger] r@[i]),
        exists|order: Seq<Language>|
            #[trigger] order.to_multiset() == spec_language_pool(*mode).to_multiset() && r@ == order.take(ROUNDS as int),
        exists|seed: u64| r@ == #[trigger] spec_seeded_languages(*mode, seed),
{
    let seed = random_seed();
    let languages = languages_from_seed(mode, seed);
    proof {
        let shuffled = seeded_order(spec_language_pool(*mode), seed);
        law_pools_have_no_duplicates(*mode);
        vstd::seq_lib::to_multiset_len(shuffled);
        vstd::seq_lib::to_multiset_len(spec_language_pool(*mode));
        assert(shuffled.to_multiset() == spec_language_pool(*mode).to_multiset() && languages@ == shuffled.take(ROUNDS as int));
        lemma_take_sub_multiset(shuffled, ROUNDS as int);
    }
    languages
}

/// The test of being another language than `correct`.
pub open spec fn other_than(correct: Language) -> spec_fn(Language) -> bool {
    |l: Language| l != correct
}

/// Whether `opts` are the options of an Easy round whose answer is `correct`:
/// the answer once, and up to three other languages of `pool`, as many as
/// it has.
pub open spec fn valid_options(opts: Seq<Language>, correct: Language, pool: Seq<Language>) -> bool {
    let others = pool.filter(other_than(correct));
    &&& opts.len() == (if others.len() < DISTRACTORS { others.len() } else { DISTRACTORS as nat }) + 1
    &&& opts.to_multiset().count(correct) == 1
    &&& opts.to_multiset().remove(correct).subset_of(others.to_multiset())
}

/// The languages of `pool` other than `correct`, in the pool's order.
pub fn distractors_of(correct: &Language, pool: &[Language]) -> (r: Vec<Language>)
    ensures
        r@ == pool@.filter(other_than(*correct)),
        pool@.no_duplicates() ==> r@.no_duplicates(),
{
    let ghost pred = other_than(*correct);
    let mut distractors: Vec<Language> = Vec::new();
    proof {
        reveal(Seq::filter);
        assert(pool@.take(0).filter(pred) =~= Seq::<Language>::empty());
    }
    for k in 0..pool.len()
        invariant
            pred == other_than(*correct),
            distractors@ == pool@.take(k as int).filter(pred),
            forall|i: int| 0 <= i < distractors@.len() ==> exists|j: int| 0 <= j < k && pool@[j] == #[trigger] distractors@[i],
            pool@.no_duplicates() ==> distractors@.no_duplicates(),
    {
        let l = pool[k];
        proof {
            pool@.lemma_take_succ_push(k as int);
            pool@.take(k as int).lemma_filter_push(l, pred);
        }
        if l != *correct {
            proof {
                if pool@.no_duplicates() {
                    assert forall|i: int| 0 <= i < distractors@.len() implies distractors@[i] != l by {
                        let j = choose|j: int| 0 <= j < k && pool@[j] == #[trigger] distractors@[i];
                        assert(pool@[j] != pool@[k as int]);
                    }
                }
            }
            distractors.push(l);
            proof {
                assert forall|i: int| 0 <= i < distractors@.len() implies exists|j: int| 0 <= j < k + 1 && pool@[j] == #[trigger] distractors@[i] by {
                    if i == distractors@.len() - 1 {
                        assert(pool@[k as int] == distractors@[i]);
                    } else {
                        let j = choose|j: int| 0 <= j < k && pool@[j] == #[trigger] distractors@[i];
                        assert(pool@[j] == distractors@[i]);
                    }
                }
            }
        }
    }
    assert(pool@.take(pool.len() as int) =~= pool@);
    distractors
}

/// The options of an Easy round before their order is drawn: the first
/// three of the other languages, in the order they were shuffled into (all
/// of them when there are fewer), then the answer.
pub fn options_before_shuffle(shuffled_others: Vec<Language>, correct: Language) -> (r: Vec<Language>)
    ensures
        r@ == shuffled_others@.take(
            if shuffled_others@.len() < DISTRACTORS { shuffled_others@.len() as int } else { DISTRACTORS as int },
        ).push(correct),
{
    let mut options = shuffled_others;
    options.truncate(DISTRACTORS);
    options.push(correct);
    options
}

/// The languages of a game, from its pool in the order it was shuffled
/// into: the first five (all of them when there are fewer).
pub fn first_rounds(shuffled: Vec<Language>) -> (r: Vec<Language>)
    ensures
        r@ == shuffled@.take(if shuffled@.len() < ROUNDS { shuffled@.len() as int } else { ROUNDS as int }),
{
    let mut languages = shuffled;
    languages.truncate(ROUNDS);
    languages
}

/// The options of an Easy round whose answer is `correct`: the answer and up to
/// three other languages of `pool`, chosen and ordered at random.
pub fn make_options(correct: &Language, pool: &[Language]) -> (r: Vec<Language>)
    ensures
        valid_options(r@, *correct, pool@),
        pool@.no_duplicates() ==> r@.no_duplicates(),
        exists|with_answer: Seq<Language>, seed: u64|
            #![trigger seeded_order(with_answer, seed)]
            with_answer.len() >= 1 && with_answer.last() == *correct && r@ == seeded_order(with_answer, seed),
{
    let ghost pred = other_than(*correct);
    let mut distractors = distractors_of(correct, pool);
    let ghost others = distractors@;
    proof {
        broadcast use vstd::seq_lib::group_filter_ensures;
    }
    let mut rng = thread_rng();
    shuffle_languages(&mut distractors, &mut rng);
    let ghost shuffled = distractors@;
    proof {
        vstd::seq_lib::to_multiset_len(shuffled);
        vstd::seq_lib::to_multiset_len(others);
        if pool@.no_duplicates() {
            lemma_sub_multiset_no_duplicates(shuffled, others);
        }
    }
    let ghost kept = shuffled.take(if shuffled.len() < DISTRACTORS { shuffled.len() as int } else { DISTRACTORS as int });
    proof {
        lemma_take_sub_multiset(shuffled, kept.len() as int);
        broadcast use vstd::seq_lib::to_multiset_contains;
        // no kept language is the answer
        assert(!others.contains(*correct)) by {
            if others.contains(*correct) {
                let i = choose|i: int| 0 <= i < others.len() && others[i] == *correct;
                assert(pred(others[i]));
            }
        }
        assert(kept.to_multiset().count(*correct) <= others.to_multiset().count(*correct));
        assert(!kept.contains(*correct));
        if pool@.no_duplicates() {
            assert(kept.no_duplicates());
        }
    }
    let mut distractors = options_before_shuffle(distractors, *correct);
    let ghost with_answer = distractors@;
    proof {
        vstd::seq_lib::to_multiset_build(kept, *correct);
        broadcast use vstd::multiset::group_multiset_axioms;
        assert(with_answer.to_multiset().remove(*correct) =~= kept.to_multiset());
        if pool@.no_duplicates() {
            assert(with_answer.no_duplicates());
        }
    }
    let seed = random_seed();
    shuffle_seeded(&mut distractors, seed);
    proof {
        assert(with_answer.last() == *correct);
        vstd::seq_lib::to_multiset_len(distractors@);
        vstd::seq_lib::to_multiset_len(with_answer);
        if pool@.no_duplicates() {
            lemma_sub_multiset_no_duplicates(distractors@, with_answer);
        }
    }
    distractors
}

/// Whether `session` is the game of the chosen `languages` and the texts
/// fetched for them: one round per language, in order, as far as both go,
/// each with its language and its text.
pub open spec fn started_from(session: GameSession, languages: Seq<Language>, fetched: Seq<Result<String, FetchError>>) -> bool {
    let n = if languages.len() < fetched.len() { languages.len() } else { fetched.len() };
    &&& session.rounds@.len() == n
    &&& forall|i: int| 0 <= i < n ==> {
        &&& (#[trigger] session.rounds@[i]).language == languages[i]
        &&& fetched[i] matches Ok(t) && session.rounds@[i].text@ == t@
    }
}

/// Whether the fetch of the text of one of the chosen languages failed.
pub open spec fn a_fetch_failed(languages: Seq<Language>, fetched: Seq<Result<String, FetchError>>) -> bool {
    exists|i: int| 0 <= i < languages.len() && 0 <= i < fetched.len() && (#[trigger] fetched[i]) is Err
}

/// The game of the chosen `languages` and the texts fetched for them, in
/// order (as far as both go), played in `mode`, with fresh random ids; none
/// when a fetch failed.
pub fn start_session(
    languages: &Vec<Language>,
    fetched: &Vec<Result<String, FetchError>>,
    mode: GameMode,
) -> (r: Option<GameSession>)
    ensures
        match r {
            Some(session) => started_from(session, languages@, fetched@) && session.mode == mode,
            None => a_fetch_failed(languages@, fetched@),
        },
{
    let n = if languages.len() < fetched.len() { languages.len() } else { fetched.len() };
    let mut rounds: Vec<Round> = Vec::new();
    for i in 0..n
        invariant
            n <= languages@.len(),
            n <= fetched@.len(),
            rounds@.len() == i,
            forall|k: int| 0 <= k < i ==> {
                &&& (#[trigger] rounds@[k]).language == languages@[k]
                &&& fetched@[k] matches Ok(t) && rounds@[k].text@ == t@
            },
    {
        match &fetched[i] {
            Ok(text) => {
                let round_id = random_id();
                rounds.push(Round { round_id, text: text.clone(), language: languages[i] });
            },
            Err(_) => {
                return None;
            },
        }
    }
    let game_id = random_id();
    Some(GameSession { game_id, rounds, mode })
}

/// Whether `view` shows `session` to the player: the same ids and texts in
/// the same order, without the answers.
pub open spec fn shows(view: GameView, session: GameSession) -> bool {
    &&& view.game_id == session.game_id
    &&& view.rounds@.len() == session.rounds@.len()
    &&& forall|i: int| 0 <= i < view.rounds@.len() ==> {
        &&& (#[trigger] view.rounds@[i]).round_id == session.rounds@[i].round_id
        &&& view.rounds@[i].text@ == session.rounds@[i].text@
    }
}

/// The view of `session` that the player gets: ids and texts, no options.
pub fn session_to_view(session: &GameSession) -> (view: GameView)
    ensures
        shows(view, *session),
        forall|i: int| 0 <= i < view.rounds@.len() ==> (#[trigger] view.rounds@[i]).options@.len() == 0,
{
    let mut rounds: Vec<RoundView> = Vec::new();
    for i in 0..session.rounds.len()
        invariant
            rounds@.len() == i,
            forall|k: int| 0 <= k < i ==> {
                &&& (#[trigger] rounds@[k]).round_id == session.rounds@[k].round_id
                &&& rounds@[k].text@ == session.rounds@[k].text@
                &&& rounds@[k].options@.len() == 0
            },
    {
        let r = &session.rounds[i];
        rounds.push(RoundView { round_id: r.round_id, text: r.text.clone(), options: Vec::new() });
    }
    GameView { game_id: session.game_id, rounds }
}

/// The view of a new game of `mode`: in Easy games each round offers its
/// answer among other languages of the Easy pool; otherwise rounds offer none.
pub fn game_view_for(session: &GameSession, mode: &GameMode) -> (view: GameView)
    ensures
        shows(view, *session),
        forall|i: int| 0 <= i < view.rounds@.len() ==> if *mode == GameMode::Easy {
            &&& valid_options((#[trigger] view.rounds@[i]).options@, session.rounds@[i].language, easy_languages())
            &&& view.rounds@[i].options@.no_duplicates()
        } else {
            view.rounds@[i].options@.len() == 0
        },
{
    let mut view = session_to_view(session);
    if *mode == GameMode::Easy {
        let pool = Language::easy_pool();
        proof {
            law_pools_have_no_duplicates(GameMode::Easy);
        }
        let mut rounds: Vec<RoundView> = Vec::new();
        for i in 0..view.rounds.len()
            invariant
                pool@ == easy_languages(),
                easy_languages().no_duplicates(),
                shows(view, *session),
                rounds@.len() == i,
                forall|k: int| 0 <= k < i ==> {
                    &&& (#[trigger] rounds@[k]).round_id == session.rounds@[k].round_id
                    &&& rounds@[k].text@ == session.rounds@[k].text@
                    &&& valid_options(rounds@[k].options@, session.rounds@[k].language, easy_languages())
                    &&& rounds@[k].options@.no_duplicates()
                },
        {
            let options = make_options(&session.rounds[i].language, pool);
            let r = &view.rounds[i];
            rounds.push(RoundView { round_id: r.round_id, text: r.text.clone(), options });
        }
        view = GameView { game_id: session.game_id, rounds };
    }
    view
}

/// Whether `i` is the first round of `rounds` with the id `id`.
pub open spec fn first_round_with(rounds: Seq<Round>, id: u128, i: int) -> bool {
    &&& 0 <= i < rounds.len()
    &&& rounds[i].round_id == id
    &&& forall|j: int| 0 <= j < i ==> (#[trigger] rounds[j]).round_id != id
}

/// Whether the scoring table can grade a guess of `guess` for `answer`.
pub open spec fn gradable(data: ScoringData, guess: Language, answer: Language) -> bool {
    &&& data.has_entry(guess)
    &&& data.has_entry(answer)
    &&& (guess == answer || data.config().script_max + data.config().family_max <= u32::MAX)
}

/// Whether every round of `session` that `request` may be about can be graded.
pub open spec fn can_grade(session: GameSession, request: GuessRequest, data: ScoringData) -> bool {
    forall|i: int| 0 <= i < session.rounds@.len() && (#[trigger] session.rounds@[i]).round_id == request.round_id
        ==> gradable(data, request.language, session.rounds@[i].language)
}

/// Whether `r` answers `request` in `session`: none when no round has the
/// request's id; otherwise, for the first round with that id, whether the
/// guess is its language, that language, the guess's score (in an Easy game
/// all or nothing, otherwise by script and family) and its labels.
pub open spec fn graded(session: GameSession, request: GuessRequest, data: ScoringData, r: Option<GuessResponse>) -> bool {
    match r {
        None => forall|i: int| 0 <= i < session.rounds@.len() ==> (#[trigger] session.rounds@[i]).round_id != request.round_id,
        Some(resp) => exists|i: int| {
            &&& #[trigger] first_round_with(session.rounds@, request.round_id, i)
            &&& resp.correct == (session.rounds@[i].language == request.language)
            &&& resp.correct_language == session.rounds@[i].language
            &&& if session.mode == GameMode::Easy {
                resp.score == easy_score(resp.correct)
            } else {
                &&& resp.score.script == data.script_score(request.language, session.rounds@[i].language)
                &&& resp.score.family == data.family_score(request.language, session.rounds@[i].language)
                &&& resp.score.total == resp.score.script + resp.score.family
            }
            &&& resp.labels.script@ == data.script_label(request.language, session.rounds@[i].language)
            &&& resp.labels.family@ == data.family_label(request.language, session.rounds@[i].language)
        },
    }
}

/// The answer to `request` in `session`: none when no round has the request's
/// id; otherwise, for the first round with that id, whether the guess is its
/// language, that language, the guess's score (all or nothing in an Easy
/// game) and its labels.
pub fn grade_guess(session: &GameSession, request: &GuessRequest, data: &ScoringData) -> (r: Option<GuessResponse>)
    requires
        can_grade(*session, *request, *data),
    ensures
        graded(*session, *request, *data, r),
{
    for i in 0..session.rounds.len()
        invariant
            forall|j: int| 0 <= j < i ==> (#[trigger] session.rounds@[j]).round_id != request.round_id,
            forall|j: int| 0 <= j < session.rounds@.len() && (#[trigger] session.rounds@[j]).round_id == request.round_id
                ==> gradable(*data, request.language, session.rounds@[j].language),
    {
        let round = &session.rounds[i];
        if round.round_id == request.round_id {
            let correct = round.language == request.language;
            let score = if session.mode == GameMode::Easy {
                binary_score(correct)
            } else {
                partial_score(&request.language, &round.language, data)
            };
            let labels = score_labels(&request.language, &round.language, data);
            assert(first_round_with(session.rounds@, request.round_id, i as int));
            return Some(GuessResponse {
                correct,
                correct_language: round.language,
                score,
                labels,
            });
        }
    }
    None
}

/// An Easy round is all or nothing: the right language earns 1000 points, any
/// other earns none, however close it is.
pub proof fn law_easy_is_all_or_nothing(session: GameSession, request: GuessRequest, data: ScoringData, resp: GuessResponse)
    requires
        session.mode == GameMode::Easy,
        graded(session, request, data, Some(resp)),
    ensures
        resp.score.total == if resp.correct { 1000u32 } else { 0u32 },
        !resp.correct ==> resp.score.script == 0 && resp.score.family == 0,
{
}

/// The first five of a shuffled pool are five different languages of it.
proof fn lemma_first_rounds_of_shuffled(shuffled: Seq<Language>, mode: GameMode)
    requires
        shuffled.to_multiset() == spec_language_pool(mode).to_multiset(),
    ensures
        shuffled.len() >= ROUNDS,
        shuffled.take(ROUNDS as int).len() == ROUNDS,
        shuffled.take(ROUNDS as int).no_duplicates(),
        forall|i: int| 0 <= i < ROUNDS ==> spec_language_pool(mode).contains(#[trigger] shuffled.take(ROUNDS as int)[i]),
{
    law_pools_have_no_duplicates(mode);
    vstd::seq_lib::to_multiset_len(shuffled);
    vstd::seq_lib::to_multiset_len(spec_language_pool(mode));
    let first = shuffled.take(ROUNDS as int);
    lemma_take_sub_multiset(shuffled, ROUNDS as int);
    lemma_sub_multiset_no_duplicates(first, spec_language_pool(mode));
    assert forall|i: int| 0 <= i < ROUNDS implies spec_language_pool(mode).contains(#[trigger] first[i]) by {
        broadcast use vstd::seq_lib::to_multiset_contains;
        assert(first.contains(first[i]));
        assert(first.to_multiset().count(first[i]) <= spec_language_pool(mode).to_multiset().count(first[i]));
    }
}

/// The languages of a game of `mode` drawn from `seed`: the first five of its
/// pool in the order the seed shuffles it into.
pub open spec fn spec_seeded_languages(mode: GameMode, seed: u64) -> Seq<Language> {
    seeded_order(spec_language_pool(mode), seed).take(ROUNDS as int)
}

/// The languages of a game of `mode` drawn from the number `seed`: five
/// different languages of the pool, the same for every call with that seed.
pub fn languages_from_seed(mode: &GameMode, seed: u64) -> (r: Vec<Language>)
    ensures
        r@ == spec_seeded_languages(*mode, seed),
        seeded_order(spec_language_pool(*mode), seed).to_multiset() == spec_language_pool(*mode).to_multiset(),
        r@.len() == ROUNDS,
        r@.no_duplicates(),
        forall|i: int| 0 <= i < r@.len() ==> spec_language_pool(*mode).contains(#[trigger] r@[i]),
{
    let mut languages = languages_of(language_pool(mode));
    shuffle_seeded(&mut languages, seed);
    proof {
        lemma_first_rounds_of_shuffled(languages@, *mode);
    }
    first_rounds(languages)
}

/// The day a Daily game belongs to, counted as `chrono` counts days from the
/// common era (1 January of year 1 is day 1), from seconds since the Unix
/// epoch (1 January 1970, day 719163).
pub fn day_number(unix_seconds: u64) -> (d: u64)
    ensures
        d == unix_seconds / 86400 + 719163,
{
    unix_seconds / 86400 + 719163
}

/// The languages of a new game of `mode`: a Daily game takes the languages
/// of its day, the same for everyone; a shared game takes those its seed
/// draws from the mode's pool, the same for everyone with the link; any
/// other game draws five at random.
pub fn languages_for(mode: &GameMode, seed: Option<&str>, day: u64) -> (r: Vec<Language>)
    ensures
        *mode == GameMode::Daily ==> r@ == spec_seeded_languages(GameMode::Daily, day),
        *mode != GameMode::Daily && seed.is_some() ==> r@ == spec_seeded_languages(*mode, fnv1a(seed.unwrap()@)),
        r@.len() == ROUNDS,
        r@.no_duplicates(),
        forall|i: int| 0 <= i < r@.len() ==> spec_language_pool(*mode).contains(#[trigger] r@[i]),
{
    if *mode == GameMode::Daily {
        languages_from_seed(mode, day)
    } else {
        match seed {
            Some(s) => languages_from_seed(mode, seed_number(s)),
            None => choose_languages(mode),
        }
    }
}

/// Everyone who asks for the Daily game on one day gets the same languages,
/// and everyone who opens one shared link (seed and mode) gets the same
/// languages as its sender.
pub proof fn law_same_day_same_languages(day1: u64, day2: u64, seed1: Seq<char>, seed2: Seq<char>, mode: GameMode)
    requires
        day1 == day2,
        seed1 == seed2,
    ensures
        spec_seeded_languages(GameMode::Daily, day1) == spec_seeded_languages(GameMode::Daily, day2),
        spec_seeded_languages(mode, fnv1a(seed1)) == spec_seeded_languages(mode, fnv1a(seed2)),
{
}

} // verus!
