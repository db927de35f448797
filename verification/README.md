# LinguaGuessr

A game: read a short text taken from a random Wikipedia article and guess its
language. In Medium, Hard and Daily games a guess scores up to 1000 points,
half for how close its script is to the answer's and half for how closely the
two languages are related; an Easy round is all or nothing. A Daily game's
languages are drawn from its date and a shared game's from its seed, so that
everyone playing them gets the same languages.

## Layout

- `src/` — the game's logic, verified with Verus: the languages and their
  pools, the scoring table and the scores it gives, a game's rounds and the
  grading of a guess, the fetch-and-retry rule for article texts, shared-game
  links and seeds, the Daily result, feedback issues, and the small state
  machines of the guess box.
- `tests/` — tests of the library on concrete values.
- `app/` — the HTTP server (axum), the Wikipedia and GitHub clients, the
  reading of the scoring table from `data/languages.toml`, and the browser
  client (leptos). They hand plain values to the library and take its results.

The server reads its scoring table from the path in `LANGUAGES_TOML`
(default `data/languages.toml`), listens on `PORT` (default 3000), allows the
origin in `FRONTEND_URL` (any origin when unset) and files feedback with the
token in `GITHUB_FEEDBACK_TOKEN`.
