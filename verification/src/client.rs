//! The player's side of the game: where it asks the server for games and seed
//! scores, what a round's result and context are, the feedback a player sends,
//! and the texts of a round's feedback.
use vstd::prelude::*;

use crate::api::GuessResponse;
use crate::mode::{mode_str, spec_mode_str};
use crate::text::{chars_of, owned, push_str};
use crate::types::{GameMode, Language};

verus! {

/// The scores that players of one seed posted.
#[derive(Debug, Clone, PartialEq, Eq)]
pub struct SeedScores {
    pub scores: Vec<u32>,
}

/// A round as the player played it: the guess and the server's answer.
#[derive(Debug, Clone, PartialEq, Eq)]
pub struct RoundResult {
    pub guessed: Language,
    pub response: GuessResponse,
}

/// The round a player is looking at, for feedback about it.
#[derive(Debug, Clone, PartialEq, Eq)]
pub struct RoundContext {
    pub game_id: u128,
    pub round_id: u128,
    pub language: Option<String>,
}

/// The feedback a player sends.
#[derive(Debug, Clone, PartialEq, Eq)]
pub struct FeedbackPayload {
    pub message: String,
    pub email: Option<String>,
    pub game_id: Option<u128>,
    pub round_id: Option<u128>,
    pub language: Option<String>,
    pub article_url: Option<String>,
}

/// Where the scores of `seed` are posted and read, on the server at `backend`.
pub fn seed_scores_url(backend: &str, seed: &str) -> (r: String)
    ensures
        r@ == backend@ + "/api/seeds/"@ + seed@ + "/scores"@,
{
    let mut url = owned(backend);
    push_str(&mut url, "/api/seeds/");
    push_str(&mut url, seed);
    push_str(&mut url, "/scores");
    url
}

/// Where a new game of `mode` is asked for, of `seed` when one is given.
pub fn game_url(backend: &str, mode: &GameMode, seed: Option<&str>) -> (r: String)
    ensures
        r@ == match seed {
            Some(s) => backend@ + "/api/game?seed="@ + s@ + "&mode="@ + spec_mode_str(*mode),
            None => backend@ + "/api/game?mode="@ + spec_mode_str(*mode),
        },
{
    let mut url = owned(backend);
    match seed {
        Some(s) => {
            push_str(&mut url, "/api/game?seed=");
            push_str(&mut url, s);
            push_str(&mut url, "&mode=");
        },
        None => {
            push_str(&mut url, "/api/game?mode=");
        },
    }
    push_str(&mut url, mode_str(mode));
    url
}

/// Whether a character has Unicode's White_Space property: the controls from
/// tab to carriage return, space, next line, no-break space, Ogham space mark,
/// the spaces from en quad to hair space, the line and paragraph separators,
/// narrow no-break space, medium mathematical space and ideographic space.
pub open spec fn white_space(c: char) -> bool {
    ||| '\u{9}' <= c && c <= '\u{d}'
    ||| c == '\u{20}'
    ||| c == '\u{85}'
    ||| c == '\u{a0}'
    ||| c == '\u{1680}'
    ||| '\u{2000}' <= c && c <= '\u{200a}'
    ||| c == '\u{2028}'
    ||| c == '\u{2029}'
    ||| c == '\u{202f}'
    ||| c == '\u{205f}'
    ||| c == '\u{3000}'
}

/// Whether `c` has the White_Space property, as `char::is_whitespace` tells.
pub fn is_whitespace(c: char) -> (r: bool)
    ensures
        r == white_space(c),
{
    ('\u{9}' <= c && c <= '\u{d}') || c == '\u{20}' || c == '\u{85}' || c == '\u{a0}' || c == '\u{1680}'
        || ('\u{2000}' <= c && c <= '\u{200a}') || c == '\u{2028}' || c == '\u{2029}' || c == '\u{202f}'
        || c == '\u{205f}' || c == '\u{3000}'
}

/// Whether a text is empty once its whitespace is trimmed: all of its
/// characters are whitespace.
pub open spec fn blank(s: Seq<char>) -> bool {
    forall|i: int| 0 <= i < s.len() ==> white_space(#[trigger] s[i])
}

/// Whether `s` is made of whitespace only.
pub fn is_blank(s: &str) -> (r: bool)
    ensures
        r == blank(s@),
{
    let chars = chars_of(s);
    for i in 0..chars.len()
        invariant
            chars@ == s@,
            forall|k: int| 0 <= k < i ==> white_space(#[trigger] chars@[k]),
    {
        if !is_whitespace(chars[i]) {
            return false;
        }
    }
    true
}

/// The feedback of a player who wrote `message` and `email`, about the round
/// `context` when there is one; refused with a notice when the message is
/// blank. A blank address is left out.
pub fn prepare_feedback(message: &str, email: &str, context: &Option<RoundContext>) -> (r: Result<FeedbackPayload, String>)
    ensures
        match r {
            Ok(p) => {
                &&& !blank(message@)
                &&& p.message@ == message@
                &&& (if blank(email@) { p.email is None } else { p.email matches Some(e) && e@ == email@ })
                &&& p.game_id == match context { Some(c) => Some(c.game_id), None => None }
                &&& p.round_id == match context { Some(c) => Some(c.round_id), None => None }
                &&& p.language == match context { Some(c) => c.language, None => None }
                &&& p.article_url is None
            },
            Err(notice) => blank(message@) && notice@ == "Message is required."@,
        },
{
    if is_blank(message) {
        return Err(owned("Message is required."));
    }
    let email = if is_blank(email) { None } else { Some(owned(email)) };
    let (game_id, round_id, language) = match context {
        Some(c) => (Some(c.game_id), Some(c.round_id), match &c.language {
            Some(l) => Some(l.clone()),
            None => None,
        }),
        None => (None, None, None),
    };
    Ok(FeedbackPayload { message: owned(message), email, game_id, round_id, language, article_url: None })
}

/// The tooltip of the script axis.
pub fn script_tooltip_text() -> (r: &'static str)
    ensures
        r@ == "How similar was the script of your guess to the answer?"@,
{
    "How similar was the script of your guess to the answer?"
}

/// The tooltip of the family axis.
pub fn family_tooltip_text() -> (r: &'static str)
    ensures
        r@ == "How closely related was the language of your guess to the answer?"@,
{
    "How closely related was the language of your guess to the answer?"
}

/// The heading of a round's feedback.
pub fn feedback_header(response: &GuessResponse) -> (r: String)
    ensures
        r@ == if response.correct {
            "✓ Correct!"@
        } else {
            "✗ Wrong — it was "@ + response.correct_language.spec_label()
        },
{
    if response.correct {
        owned("✓ Correct!")
    } else {
        let mut header = owned("✗ Wrong — it was ");
        push_str(&mut header, response.correct_language.label());
        header
    }
}

} // verus!
