//! Player feedback, filed as an issue of the project's GitHub repository: the
//! issue's title and body, and where it is posted.
use vstd::arithmetic::power::pow;
use vstd::prelude::*;

use crate::text::{chars_of, owned, push_str};

verus! {

/// A player's report: a message, and optionally an address to answer to and
/// the game and round it is about (by their ids).
#[derive(Debug, Clone, PartialEq, Eq)]
pub struct FeedbackRequest {
    pub message: String,
    pub email: Option<String>,
    pub game_id: Option<u128>,
    pub round_id: Option<u128>,
}

/// Why an issue could not be filed.
#[derive(Debug, Clone, PartialEq, Eq)]
pub enum GitHubError {
    Http(String),
}

/// How many characters of the message an issue's title holds.
pub const TITLE_CHARS: usize = 60;

/// The title of the issue that files `message`: a tag and the message's first
/// sixty characters.
pub open spec fn title_text(message: Seq<char>) -> Seq<char> {
    "[Feedback] "@ + message.take(if message.len() < TITLE_CHARS { message.len() as int } else { TITLE_CHARS as int })
}

/// The title of the issue that files `message`.
pub fn format_title(message: &str) -> (r: String)
    ensures
        r@ == title_text(message@),
{
    let n = chars_of(message).len();
    let keep = if n < TITLE_CHARS { n } else { TITLE_CHARS };
    let mut title = owned("[Feedback] ");
    push_str(&mut title, message.substring_char(0, keep));
    title
}

/// An issue's title is the tag `[Feedback] ` followed by the beginning of the
/// message: its first sixty characters, or the whole message when it is no
/// longer.
pub proof fn law_title_is_tag_and_message_start(message: Seq<char>)
    ensures
        "[Feedback] "@.is_prefix_of(title_text(message)),
        title_text(message).len() == 11 + if message.len() < 60 { message.len() as int } else { 60 },
        title_text(message).skip(11).is_prefix_of(message),
        message.len() <= 60 ==> title_text(message).skip(11) == message,
{
    reveal_strlit("[Feedback] ");
    let t = title_text(message);
    assert(t.take(11) =~= "[Feedback] "@);
    let rest = t.skip(11);
    assert(rest =~= message.take(if message.len() < TITLE_CHARS { message.len() as int } else { TITLE_CHARS as int }));
    assert(rest =~= message.subrange(0, rest.len() as int));
    if message.len() <= 60 {
        assert(rest =~= message);
    }
}

/// A hexadecimal digit, in lower case.
pub open spec fn hex_digit(d: int) -> char {
    if d < 10 {
        (48 + d) as char
    } else {
        (87 + d) as char
    }
}

/// The `k`-th of the 32 hexadecimal digits of `id`, the most significant first.
pub open spec fn nibble(id: u128, k: int) -> int {
    (id as int / pow(16, (31 - k) as nat)) % 16
}

/// The hexadecimal digits of `id` from the `from`-th to before the `to`-th.
pub open spec fn hex_run(id: u128, from: int, to: int) -> Seq<char> {
    Seq::new((to - from) as nat, |i: int| hex_digit(nibble(id, from + i)))
}

/// An id written as a UUID: its 32 hexadecimal digits in lower case, in groups
/// of 8, 4, 4, 4 and 12 joined by hyphens.
pub open spec fn uuid_text(id: u128) -> Seq<char> {
    hex_run(id, 0, 8) + seq!['-'] + hex_run(id, 8, 12) + seq!['-'] + hex_run(id, 12, 16) + seq!['-']
        + hex_run(id, 16, 20) + seq!['-'] + hex_run(id, 20, 32)
}

/// Writes `id` with `uuid::Uuid::from_u128(id).to_string()`: uuid's `Display`
/// writes the hyphenated form in lower case, the big-endian digits of the
/// number first (so the crate documents `from_u128` and `LowerHex`).
#[verifier::external_body]
fn uuid_string(id: u128) -> (s: String)
    ensures
        s@ == uuid_text(id),
{
    uuid::Uuid::from_u128(id).to_string()
}

/// The body of the issue that files `req`: the message, then each optional
/// part that the request holds, after a blank line.
pub open spec fn body_text(req: FeedbackRequest) -> Seq<char> {
    req.message@ + match req.email {
        Some(e) => "\n\nEmail: "@ + e@,
        None => Seq::empty(),
    } + match req.game_id {
        Some(g) => "\n\nGame ID: "@ + uuid_text(g),
        None => Seq::empty(),
    } + match req.round_id {
        Some(r) => "\n\nRound ID: "@ + uuid_text(r),
        None => Seq::empty(),
    }
}

/// The body of the issue that files `req`.
pub fn format_body(req: &FeedbackRequest) -> (r: String)
    ensures
        r@ == body_text(*req),
{
    let mut body = owned(req.message.as_str());
    let ghost after_message = body@;
    match &req.email {
        Some(email) => {
            push_str(&mut body, "\n\nEmail: ");
            push_str(&mut body, email.as_str());
        },
        None => {},
    }
    let ghost after_email = body@;
    match req.game_id {
        Some(id) => {
            push_str(&mut body, "\n\nGame ID: ");
            let text = uuid_string(id);
            push_str(&mut body, text.as_str());
        },
        None => {},
    }
    let ghost after_game = body@;
    match req.round_id {
        Some(id) => {
            push_str(&mut body, "\n\nRound ID: ");
            let text = uuid_string(id);
            push_str(&mut body, text.as_str());
        },
        None => {},
    }
    assert(body@ =~= body_text(*req));
    body
}

/// Where issues of the project are created, on the GitHub API at `base_url`.
pub fn issues_url(base_url: &str) -> (r: String)
    ensures
        r@ == base_url@ + "/repos/elisedemarie/linguaguessr/issues"@,
{
    let mut url = owned(base_url);
    push_str(&mut url, "/repos/elisedemarie/linguaguessr/issues");
    url
}

} // verus!
