//! Shared games in the player's browser: the address that shares a game by
//! its seed and mode, reading the seed and mode back from an address, and the
//! characters of a seed.
use vstd::prelude::*;

use crate::mode::{mode_str, spec_mode_str};
use crate::text::{chars_between, chars_of, owned, push_char, push_str, same_chars, string_of};
use crate::types::GameMode;

verus! {

/// The text with every `c` at its start removed.
pub open spec fn trim_start(s: Seq<char>, c: char) -> Seq<char>
    decreases s.len(),
{
    if s.len() > 0 && s[0] == c {
        trim_start(s.drop_first(), c)
    } else {
        s
    }
}

/// The pieces of `s` between the separators `sep`, as `str::split` gives
/// them: one piece more than there are separators, empty pieces included.
pub open spec fn split_on(s: Seq<char>, sep: char) -> Seq<Seq<char>>
    decreases s.len(),
{
    if s.len() == 0 {
        seq![Seq::empty()]
    } else {
        let pieces = split_on(s.drop_last(), sep);
        if s.last() == sep {
            pieces.push(Seq::empty())
        } else {
            pieces.update(pieces.len() - 1, pieces.last().push(s.last()))
        }
    }
}

/// The index of the first `c` in `s`, or -1.
pub open spec fn first_index(s: Seq<char>, c: char) -> int
    decreases s.len(),
{
    if s.len() == 0 {
        -1
    } else if s[0] == c {
        0
    } else {
        let k = first_index(s.drop_first(), c);
        if k < 0 {
            -1
        } else {
            k + 1
        }
    }
}

/// What the query of an address has said so far: the seed, and the mode.
pub type SeedQuery = (Option<Seq<char>>, GameMode);

/// What a `key=value` pair of the query adds: a non-empty `seed` sets the
/// seed, `mode=easy` and `mode=hard` set the mode; anything else (a piece
/// without `=` too) changes nothing.
pub open spec fn apply_pair(state: SeedQuery, pair: Seq<char>) -> SeedQuery {
    let k = first_index(pair, '=');
    if k < 0 {
        state
    } else {
        let key = pair.take(k);
        let value = pair.skip(k + 1);
        if key == "seed"@ && value.len() > 0 {
            (Some(value), state.1)
        } else if key == "mode"@ && value == "easy"@ {
            (state.0, GameMode::Easy)
        } else if key == "mode"@ && value == "hard"@ {
            (state.0, GameMode::Hard)
        } else {
            state
        }
    }
}

/// `apply_pair` as a function.
pub open spec fn pair_step() -> spec_fn(SeedQuery, Seq<char>) -> SeedQuery {
    |state: SeedQuery, pair: Seq<char>| apply_pair(state, pair)
}

/// What the query of an address says: its leading `?`s removed, its pairs
/// (separated by `&`) read in order from no seed and Medium; a game when a
/// seed was given.
pub open spec fn parsed_seed(search: Seq<char>) -> Option<(Seq<char>, GameMode)> {
    let end = split_on(trim_start(search, '?'), '&').fold_left((None, GameMode::Medium), pair_step());
    match end.0 {
        Some(seed) => Some((seed, end.1)),
        None => None,
    }
}

proof fn lemma_split_on_nonempty(s: Seq<char>, sep: char)
    ensures
        split_on(s, sep).len() >= 1,
    decreases s.len(),
{
    if s.len() > 0 {
        lemma_split_on_nonempty(s.drop_last(), sep);
    }
}

/// The view of an optional character vector.
pub open spec fn opt_chars(o: Option<Vec<char>>) -> Option<Seq<char>> {
    match o {
        Some(v) => Some(v@),
        None => None,
    }
}

/// Reads one pair of the query into the seed and the mode.
fn read_pair(seed: &mut Option<Vec<char>>, mode: &mut GameMode, pair: &Vec<char>)
    ensures
        (opt_chars(*final(seed)), *final(mode)) == apply_pair((opt_chars(*old(seed)), *old(mode)), pair@),
{
    let mut k: usize = 0;
    while k < pair.len() && pair[k] != '='
        invariant
            k <= pair@.len(),
            forall|j: int| 0 <= j < k ==> pair@[j] != '=',
        decreases pair@.len() - k,
    {
        k = k + 1;
    }
    proof {
        lemma_first_index_scan(pair@, '=', k as int);
    }
    if k == pair.len() {
        return;
    }
    let key = chars_between(pair, 0, k);
    let value = chars_between(pair, k + 1, pair.len());
    assert(key@ =~= pair@.take(k as int));
    assert(value@ =~= pair@.skip(k + 1));
    let seed_key = chars_of("seed");
    let mode_key = chars_of("mode");
    let easy = chars_of("easy");
    let hard = chars_of("hard");
    if same_chars(&key, &seed_key) && value.len() > 0 {
        *seed = Some(value);
    } else if same_chars(&key, &mode_key) && same_chars(&value, &easy) {
        *mode = GameMode::Easy;
    } else if same_chars(&key, &mode_key) && same_chars(&value, &hard) {
        *mode = GameMode::Hard;
    }
}

/// Scanning to the first `c` finds `first_index`.
proof fn lemma_first_index_scan(s: Seq<char>, c: char, k: int)
    requires
        0 <= k <= s.len(),
        forall|j: int| 0 <= j < k ==> s[j] != c,
        k < s.len() ==> s[k] == c,
    ensures
        first_index(s, c) == if k == s.len() { -1 } else { k },
    decreases k,
{
    if k > 0 {
        lemma_first_index_scan(s.drop_first(), c, k - 1);
    }
}

/// The seed and mode of a shared game from the query of the page's address
/// (`?seed=...&mode=...`); none when it gives no seed.
pub fn parse_url_seed(search: &str) -> (r: Option<(String, GameMode)>)
    ensures
        match r {
            Some((seed, mode)) => parsed_seed(search@) == Some((seed@, mode)),
            None => parsed_seed(search@) is None,
        },
{
    let chars = chars_of(search);
    let mut start: usize = 0;
    assert(chars@.skip(0) =~= chars@);
    while start < chars.len() && chars[start] == '?'
        invariant
            start <= chars@.len(),
            chars@ == search@,
            trim_start(chars@.skip(start as int), '?') == trim_start(search@, '?'),
        decreases chars@.len() - start,
    {
        assert(chars@.skip(start as int).drop_first() =~= chars@.skip(start + 1));
        start = start + 1;
    }
    let ghost query = chars@.skip(start as int);
    assert(trim_start(query, '?') == query);
    let mut seed: Option<Vec<char>> = None;
    let mut mode = GameMode::Medium;
    let mut piece: Vec<char> = Vec::new();
    let mut i: usize = start;
    assert(chars@.subrange(start as int, start as int) =~= Seq::<char>::empty());
    while i < chars.len()
        invariant
            start <= i <= chars@.len(),
            query == chars@.skip(start as int),
            split_on(chars@.subrange(start as int, i as int), '&').len() >= 1,
            piece@ == split_on(chars@.subrange(start as int, i as int), '&').last(),
            (opt_chars(seed), mode) == split_on(chars@.subrange(start as int, i as int), '&').drop_last().fold_left(
                (None, GameMode::Medium),
                pair_step(),
            ),
        decreases chars@.len() - i,
    {
        let ghost before = chars@.subrange(start as int, i as int);
        let ghost pieces = split_on(before, '&');
        let c = chars[i];
        assert(chars@.subrange(start as int, i + 1) =~= before.push(c));
        assert(before.push(c).drop_last() =~= before);
        if c == '&' {
            read_pair(&mut seed, &mut mode, &piece);
            piece = Vec::new();
            assert(pieces.push(Seq::empty()).drop_last() =~= pieces);
        } else {
            piece.push(c);
            assert(pieces.update(pieces.len() - 1, pieces.last().push(c)).drop_last() =~= pieces.drop_last());
        }
        i = i + 1;
    }
    assert(chars@.subrange(start as int, chars@.len() as int) =~= query);
    read_pair(&mut seed, &mut mode, &piece);
    match seed {
        Some(v) => Some((string_of(&v), mode)),
        None => None,
    }
}

/// The address that shares a game of `seed` and `mode` from the site at `origin`.
pub open spec fn share_url(origin: Seq<char>, seed: Seq<char>, mode: GameMode) -> Seq<char> {
    origin + "/?seed="@ + seed + "&mode="@ + spec_mode_str(mode)
}

/// The address that shares a game of `seed` and `mode` from the site at `origin`.
pub fn build_share_url(origin: &str, seed: &str, mode: &GameMode) -> (r: String)
    ensures
        r@ == share_url(origin@, seed@, *mode),
{
    let mut url = owned(origin);
    push_str(&mut url, "/?seed=");
    push_str(&mut url, seed);
    push_str(&mut url, "&mode=");
    push_str(&mut url, mode_str(mode));
    url
}

/// The characters a seed is made of.
pub open spec fn seed_charset() -> Seq<char> {
    "ABCDEFGHIJKLMNOPQRSTUVWXYZ0123456789"@
}

/// How many characters a seed may be made of.
pub const CHARSET_LEN: usize = 36;

/// The seed made of the characters at `indices` in the charset, one each.
pub fn seed_from_indices(indices: &Vec<usize>) -> (r: String)
    requires
        forall|i: int| 0 <= i < indices@.len() ==> (#[trigger] indices@[i]) < CHARSET_LEN,
    ensures
        r@.len() == indices@.len(),
        forall|i: int| 0 <= i < indices@.len() ==> (#[trigger] r@[i]) == seed_charset()[indices@[i] as int],
{
    let charset = chars_of("ABCDEFGHIJKLMNOPQRSTUVWXYZ0123456789");
    proof {
        reveal_strlit("ABCDEFGHIJKLMNOPQRSTUVWXYZ0123456789");
    }
    let mut seed = String::new();
    for i in 0..indices.len()
        invariant
            charset@ == seed_charset(),
            charset@.len() == CHARSET_LEN,
            forall|k: int| 0 <= k < indices@.len() ==> (#[trigger] indices@[k]) < CHARSET_LEN,
            seed@.len() == i,
            forall|k: int| 0 <= k < i ==> (#[trigger] seed@[k]) == seed_charset()[indices@[k] as int],
    {
        push_char(&mut seed, charset[indices[i]]);
    }
    seed
}

/// A text without the separator is one piece.
proof fn lemma_split_on_without_sep(x: Seq<char>, sep: char)
    requires
        !x.contains(sep),
    ensures
        split_on(x, sep) == seq![x],
    decreases x.len(),
{
    if x.len() == 0 {
        assert(x =~= Seq::<char>::empty());
    } else {
        let y = x.drop_last();
        assert(!y.contains(sep)) by {
            if y.contains(sep) {
                let i = choose|i: int| 0 <= i < y.len() && y[i] == sep;
                assert(x[i] == sep);
            }
        }
        lemma_split_on_without_sep(y, sep);
        assert(x[x.len() - 1] != sep);
        assert(y.push(x.last()) =~= x);
        assert(seq![y].update(0, y.push(x.last())) =~= seq![x]);
    }
}

/// Splitting two texts joined by the separator gives the pieces of the first
/// and then those of the second.
proof fn lemma_split_on_join(a: Seq<char>, b: Seq<char>, sep: char)
    ensures
        split_on(a + seq![sep] + b, sep) == split_on(a, sep) + split_on(b, sep),
    decreases b.len(),
{
    let full = a + seq![sep] + b;
    if b.len() == 0 {
        assert(full.drop_last() =~= a);
        assert(split_on(b, sep) =~= seq![Seq::<char>::empty()]);
        assert(split_on(a, sep).push(Seq::empty()) =~= split_on(a, sep) + split_on(b, sep));
    } else {
        let b2 = b.drop_last();
        lemma_split_on_join(a, b2, sep);
        lemma_split_on_nonempty(b2, sep);
        lemma_split_on_nonempty(a, sep);
        assert(full.drop_last() =~= a + seq![sep] + b2);
        assert(full.last() == b.last());
        let x = split_on(a, sep);
        let y = split_on(b2, sep);
        if b.last() == sep {
            assert((x + y).push(Seq::empty()) =~= x + y.push(Seq::empty()));
        } else {
            assert((x + y).last() == y.last());
            assert((x + y).update((x + y).len() - 1, (x + y).last().push(b.last())) =~= x + y.update(
                y.len() - 1,
                y.last().push(b.last()),
            ));
        }
    }
}

/// A `key=value` pair whose key holds no `=` splits at the first `=`.
proof fn lemma_pair_parts(key: Seq<char>, value: Seq<char>)
    requires
        !key.contains('='),
    ensures
        first_index(key + seq!['='] + value, '=') == key.len(),
        (key + seq!['='] + value).take(key.len() as int) == key,
        (key + seq!['='] + value).skip(key.len() as int + 1) == value,
{
    let p = key + seq!['='] + value;
    assert forall|j: int| 0 <= j < key.len() implies p[j] != '=' by {
        assert(p[j] == key[j]);
    }
    lemma_first_index_scan(p, '=', key.len() as int);
    assert(p.take(key.len() as int) =~= key);
    assert(p.skip(key.len() as int + 1) =~= value);
}

/// Opening the address that shares a game plays that game: the query of the
/// shared address gives back its seed and its mode. This holds for any
/// non-empty seed without `&`, and for every mode but Daily, which the query
/// does not name (a Daily link opens as a Medium game).
pub proof fn law_share_url_round_trip(origin: Seq<char>, seed: Seq<char>, mode: GameMode)
    requires
        seed.len() > 0,
        !seed.contains('&'),
        mode != GameMode::Daily,
    ensures
        parsed_seed(share_url(origin, seed, mode).skip(origin.len() as int + 1)) == Some((seed, mode)),
{
    reveal_strlit("/?seed=");
    reveal_strlit("&mode=");
    reveal_strlit("seed");
    reveal_strlit("mode");
    reveal_strlit("easy");
    reveal_strlit("medium");
    reveal_strlit("hard");
    let ms = spec_mode_str(mode);
    let a = "seed"@ + seq!['='] + seed;
    let b = "mode"@ + seq!['='] + ms;
    let query = seq!['?'] + a + seq!['&'] + b;
    assert(share_url(origin, seed, mode).skip(origin.len() as int + 1) =~= query);
    let rest = a + seq!['&'] + b;
    assert(query.drop_first() =~= rest);
    assert(rest[0] == 's');
    assert(trim_start(rest, '?') == rest);
    assert(trim_start(query, '?') == rest);
    assert(!a.contains('&')) by {
        if a.contains('&') {
            let i = choose|i: int| 0 <= i < a.len() && a[i] == '&';
            if i >= 5 {
                assert(seed[i - 5] == '&');
            }
        }
    }
    assert(!b.contains('&')) by {
        if b.contains('&') {
            let i = choose|i: int| 0 <= i < b.len() && b[i] == '&';
            if i >= 5 {
                assert(ms[i - 5] == '&');
            }
        }
    }
    lemma_split_on_join(a, b, '&');
    lemma_split_on_without_sep(a, '&');
    lemma_split_on_without_sep(b, '&');
    let pieces = split_on(rest, '&');
    assert(pieces =~= seq![a, b]);
    assert(pieces.drop_last() =~= seq![a]);
    assert(seq![a].drop_last() =~= Seq::<Seq<char>>::empty());
    assert(!"seed"@.contains('=')) by {
        if "seed"@.contains('=') {
            let i = choose|i: int| 0 <= i < 4 && "seed"@[i] == '=';
        }
    }
    assert(!"mode"@.contains('=')) by {
        if "mode"@.contains('=') {
            let i = choose|i: int| 0 <= i < 4 && "mode"@[i] == '=';
        }
    }
    lemma_pair_parts("seed"@, seed);
    lemma_pair_parts("mode"@, ms);
    let init: SeedQuery = (None, GameMode::Medium);
    let after_a = apply_pair(init, a);
    assert(after_a == (Some(seed), GameMode::Medium));
    assert("mode"@ != "seed"@) by {
        assert("mode"@[0] != "seed"@[0]);
    }
    assert("medium"@ != "easy"@) by {
        assert("medium"@.len() != "easy"@.len());
    }
    assert("medium"@ != "hard"@) by {
        assert("medium"@.len() != "hard"@.len());
    }
    assert("hard"@ != "easy"@) by {
        assert("hard"@[0] != "easy"@[0]);
    }
    assert(apply_pair(after_a, b) == (Some(seed), mode));
    let f = pair_step();
    let one = seq![a];
    assert(one.drop_last().fold_left(init, f) == init);
    assert(one.last() == a);
    assert(one.fold_left(init, f) == f(init, a));
    assert(f(init, a) == after_a);
    assert(pieces.last() == b);
    assert(pieces.fold_left(init, f) == f(one.fold_left(init, f), b));
    assert(f(after_a, b) == apply_pair(after_a, b));
}

/// Where the FNV-1a hash of a seed starts.
pub const FNV_OFFSET: u64 = 0xcbf2_9ce4_8422_2325;

/// The FNV-1a multiplier.
pub const FNV_PRIME: u64 = 0x0100_0000_01b3;

/// One FNV-1a step: the character's code point is mixed in, then the hash is
/// multiplied by the prime, modulo 2^64.
pub open spec fn fnv_step(h: u64, c: char) -> u64 {
    (((h ^ ((c as u32) as u64)) as int * FNV_PRIME as int) % 0x1_0000_0000_0000_0000int) as u64
}

/// The FNV-1a hash of a seed, over the code points of its characters.
pub open spec fn fnv1a(s: Seq<char>) -> u64
    decreases s.len(),
{
    if s.len() == 0 {
        FNV_OFFSET
    } else {
        fnv_step(fnv1a(s.drop_last()), s.last())
    }
}

/// The number a shared game's seed stands for: its FNV-1a hash.
pub fn seed_number(seed: &str) -> (h: u64)
    ensures
        h == fnv1a(seed@),
{
    let chars = chars_of(seed);
    let mut h: u64 = FNV_OFFSET;
    assert(chars@.take(0) =~= Seq::<char>::empty());
    for i in 0..chars.len()
        invariant
            chars@ == seed@,
            h == fnv1a(chars@.take(i as int)),
    {
        let c = chars[i];
        let ghost before = h;
        let code: u64 = c as u32 as u64;
        let mixed: u64 = h ^ code;
        assert(mixed as int * FNV_PRIME as int <= 0xffff_ffff_ffff_ffff * 0x0100_0000_01b3) by (nonlinear_arith)
            requires
                mixed <= 0xffff_ffff_ffff_ffffu64,
        ;
        let product: u128 = mixed as u128 * FNV_PRIME as u128;
        h = (product % 0x1_0000_0000_0000_0000u128) as u64;
        assert(h == fnv_step(before, c));
        assert(chars@.take(i + 1).drop_last() =~= chars@.take(i as int));
        assert(chars@.take(i + 1).last() == c);
    }
    assert(chars@.take(chars@.len() as int) =~= chars@);
    h
}

} // verus!
