//! Scoring a guess against the answer on two axes, the script and the
//! language family, from a table that describes each language.
//!
//! A correct guess scores 500 on each axis. Otherwise two languages written in
//! the same script score by how many characters their alphabets share, and two
//! languages in different scripts, or on the family axis, by how many nodes of
//! their three-level classification they share (Jaccard similarity), scaled to
//! the axis's maximum and rounded to the nearest integer, halves up.
use vstd::prelude::*;

use crate::sets::{count_common, count_union, view_set};
use crate::text::{chars_of, owned, push_str};
use crate::types::{lemma_all_languages_index, Language};

verus! {

/// The points a guess earned on each axis, and their sum.
#[derive(Debug, Clone, Copy, PartialEq, Eq, Structural)]
pub struct ScoreBreakdown {
    pub script: u32,
    pub family: u32,
    pub total: u32,
}

/// Short texts that say how a guess relates to the answer on each axis.
#[derive(Debug, Clone, PartialEq, Eq)]
pub struct ScoreLabels {
    pub script: String,
    pub family: String,
}

/// What the scoring table says of one language: its script, placed in a
/// family and a branch of scripts, the characters of its alphabet when its
/// script is shared with other languages, and its family, branch and
/// sub-branch.
#[derive(Debug, PartialEq, Eq)]
pub struct LanguageEntry {
    pub script: String,
    pub script_family: String,
    pub script_branch: String,
    pub script_chars: Option<String>,
    pub family: String,
    pub branch: String,
    pub sub_branch: String,
    pub notes: Option<String>,
}

/// A copy of an optional string.
fn clone_text(s: &Option<String>) -> (r: Option<String>)
    ensures
        r == *s,
{
    match s {
        Some(t) => Some(t.clone()),
        None => None,
    }
}

impl Clone for LanguageEntry {
    fn clone(&self) -> (r: LanguageEntry)
        ensures
            r == *self,
    {
        LanguageEntry {
            script: self.script.clone(),
            script_family: self.script_family.clone(),
            script_branch: self.script_branch.clone(),
            script_chars: clone_text(&self.script_chars),
            family: self.family.clone(),
            branch: self.branch.clone(),
            sub_branch: self.sub_branch.clone(),
            notes: clone_text(&self.notes),
        }
    }
}

/// The largest score of each axis, and the score of unrelated languages.
#[derive(Debug, Clone, Copy, PartialEq, Eq, Structural)]
pub struct ScoringConfig {
    pub script_max: u32,
    pub family_max: u32,
    pub unrelated: u32,
}

/// Why a scoring table was refused.
#[derive(Debug, Clone, PartialEq, Eq)]
pub enum DataError {
    /// The table names a language that the game does not have.
    UnknownLanguage(String),
    /// The table describes the same language twice.
    DuplicateLanguage(Language),
}

/// Whether no language is described twice.
pub open spec fn distinct_languages(es: Seq<(Language, LanguageEntry)>) -> bool {
    forall|i: int, j: int| 0 <= i < j < es.len() ==> (#[trigger] es[i]).0 != (#[trigger] es[j]).0
}

/// Whether two names are names of one language.
pub open spec fn same_language_named(n1: Seq<char>, n2: Seq<char>) -> bool {
    exists|l: Language| #[trigger] l.spec_name() == n1 && l.spec_name() == n2
}

/// Whether some language has the name `n`.
pub open spec fn known_name(n: Seq<char>) -> bool {
    exists|l: Language| #[trigger] l.spec_name() == n
}

/// The scoring table: the configuration and one entry per described language.
pub struct ScoringData {
    config: ScoringConfig,
    entries: Vec<(Language, LanguageEntry)>,
}

/// `max * common / total`, rounded to the nearest integer with halves rounded up.
pub open spec fn rounded_share(max: nat, common: nat, total: nat) -> nat {
    (2 * max * common + total) / (2 * total)
}

/// The score of two alphabets on an axis worth `max`: the Jaccard similarity
/// of their sets of characters; two empty alphabets are alike.
pub open spec fn char_share(max: nat, a: Seq<char>, b: Seq<char>) -> nat {
    let sa = a.to_set();
    let sb = b.to_set();
    if sa.union(sb).len() == 0 {
        max
    } else {
        rounded_share(max, sa.intersect(sb).len(), sa.union(sb).len())
    }
}

/// The nodes of a three-level classification.
pub open spec fn nodes(top: Seq<char>, middle: Seq<char>, leaf: Seq<char>) -> Set<Seq<char>> {
    set![top, middle, leaf]
}

/// The score of two classifications on an axis worth `max`: the Jaccard
/// similarity of their sets of nodes.
pub open spec fn node_share(max: nat, g: Set<Seq<char>>, a: Set<Seq<char>>) -> nat {
    if g.union(a).len() == 0 {
        0
    } else {
        rounded_share(max, g.intersect(a).len(), g.union(a).len())
    }
}

impl ScoringData {
    #[verifier::type_invariant]
    spec fn inv(self) -> bool {
        distinct_languages(self.entries@)
    }

    /// The configuration of the table.
    pub closed spec fn config(self) -> ScoringConfig {
        self.config
    }

    /// The entries of the table, in the order they were given.
    pub closed spec fn entries(self) -> Seq<(Language, LanguageEntry)> {
        self.entries@
    }

    /// Whether the table describes `l`.
    pub open spec fn has_entry(self, l: Language) -> bool {
        exists|i: int| 0 <= i < self.entries().len() && (#[trigger] self.entries()[i]).0 == l
    }

    /// What the table says of `l`, when it describes it.
    pub open spec fn entry_of(self, l: Language) -> LanguageEntry {
        self.entries()[choose|i: int| 0 <= i < self.entries().len() && (#[trigger] self.entries()[i]).0 == l].1
    }

    /// Whether the table describes every language of the game.
    pub open spec fn complete(self) -> bool {
        forall|l: Language| #[trigger] self.has_entry(l)
    }

    /// The script score of guessing `g` when the answer is `a`.
    pub open spec fn script_score(self, g: Language, a: Language) -> nat {
        if g == a {
            500
        } else {
            let ge = self.entry_of(g);
            let ae = self.entry_of(a);
            let max = self.config().script_max as nat;
            if ge.script@ == ae.script@ {
                match (ge.script_chars, ae.script_chars) {
                    (Some(gc), Some(ac)) => char_share(max, gc@, ac@),
                    _ => max,
                }
            } else {
                node_share(
                    max,
                    nodes(ge.script_family@, ge.script_branch@, ge.script@),
                    nodes(ae.script_family@, ae.script_branch@, ae.script@),
                )
            }
        }
    }

    /// The family score of guessing `g` when the answer is `a`.
    pub open spec fn family_score(self, g: Language, a: Language) -> nat {
        if g == a {
            500
        } else {
            let ge = self.entry_of(g);
            let ae = self.entry_of(a);
            node_share(
                self.config().family_max as nat,
                nodes(ge.family@, ge.branch@, ge.sub_branch@),
                nodes(ae.family@, ae.branch@, ae.sub_branch@),
            )
        }
    }

    /// The script label of guessing `g` when the answer is `a`.
    pub open spec fn script_label(self, g: Language, a: Language) -> Seq<char> {
        let ge = self.entry_of(g);
        let ae = self.entry_of(a);
        if ge.script@ == ae.script@ {
            "Both "@ + ge.script@ + " script"@
        } else if ge.script_family@ == ae.script_family@ && ge.script_branch@ == ae.script_branch@ {
            "Both use "@ + ge.script_branch@ + " scripts"@
        } else if ge.script_family@ == ae.script_family@ {
            "Related "@ + ge.script_family@ + " scripts"@
        } else {
            "Different scripts"@
        }
    }

    /// The family label of guessing `g` when the answer is `a`.
    pub open spec fn family_label(self, g: Language, a: Language) -> Seq<char> {
        let ge = self.entry_of(g);
        let ae = self.entry_of(a);
        if ge.sub_branch@ == ae.sub_branch@ {
            "Both "@ + ge.sub_branch@
        } else if ge.branch@ == ae.branch@ {
            "Both "@ + ge.branch@ + " languages"@
        } else if ge.family@ == ae.family@ {
            "Both "@ + ge.family@ + " family"@
        } else {
            "Different language families"@
        }
    }

    /// A table of the given entries, refused when it describes a language twice.
    pub fn new(config: ScoringConfig, entries: Vec<(Language, LanguageEntry)>) -> (r: Result<ScoringData, DataError>)
        ensures
            match r {
                Ok(d) => d.config() == config && d.entries() == entries@ && distinct_languages(entries@),
                Err(DataError::DuplicateLanguage(l)) => exists|i: int, j: int|
                    0 <= i < j < entries@.len() && (#[trigger] entries@[i]).0 == l && (#[trigger] entries@[j]).0 == l,
                Err(DataError::UnknownLanguage(_)) => false,
            },
            r is Ok <==> distinct_languages(entries@),
    {
        let n = entries.len();
        for j in 0..n
            invariant
                n == entries@.len(),
                forall|a: int, b: int| 0 <= a < b < j ==> (#[trigger] entries@[a]).0 != (#[trigger] entries@[b]).0,
        {
            for i in 0..j
                invariant
                    j < n,
                    n == entries@.len(),
                    forall|a: int| 0 <= a < i ==> (#[trigger] entries@[a]).0 != entries@[j as int].0,
            {
                if entries[i].0 == entries[j].0 {
                    let l = entries[j].0;
                    return Err(DataError::DuplicateLanguage(l));
                }
            }
        }
        Ok(ScoringData { config, entries })
    }

    /// A table whose entries are given with the names of their languages, as a
    /// data file writes them; refused when a name is not a language's name, or
    /// when two names denote one language.
    pub fn from_named(config: ScoringConfig, named: Vec<(String, LanguageEntry)>) -> (r: Result<ScoringData, DataError>)
        ensures
            match r {
                Ok(d) => {
                    &&& d.config() == config
                    &&& d.entries().len() == named@.len()
                    &&& forall|i: int| 0 <= i < named@.len() ==> {
                        &&& (#[trigger] d.entries()[i]).0.spec_name() == named@[i].0@
                        &&& d.entries()[i].1 == named@[i].1
                    }
                },
                Err(DataError::UnknownLanguage(n)) => exists|i: int|
                    0 <= i < named@.len() && (#[trigger] named@[i]).0@ == n@ && !known_name(n@),
                Err(DataError::DuplicateLanguage(l)) => exists|i: int, j: int|
                    0 <= i < j < named@.len() && (#[trigger] named@[i]).0@ == l.spec_name()
                        && (#[trigger] named@[j]).0@ == l.spec_name(),
            },
            r is Ok <==> (forall|i: int| 0 <= i < named@.len() ==> known_name((#[trigger] named@[i]).0@))
                && (forall|i: int, j: int| 0 <= i < j < named@.len()
                    ==> !same_language_named((#[trigger] named@[i]).0@, (#[trigger] named@[j]).0@)),
    {
        let mut resolved: Vec<(Language, LanguageEntry)> = Vec::new();
        for i in 0..named.len()
            invariant
                resolved@.len() == i,
                forall|k: int| 0 <= k < i ==> {
                    &&& crate::types::first_named((#[trigger] resolved@[k]).0, named@[k].0@)
                    &&& resolved@[k].1 == named@[k].1
                },
        {
            match Language::from_name(named[i].0.as_str()) {
                Some(l) => {
                    resolved.push((l, named[i].1.clone()));
                },
                None => {
                    proof {
                        assert(!known_name(named@[i as int].0@));
                    }
                    return Err(DataError::UnknownLanguage(named[i].0.clone()));
                },
            }
        }
        proof {
            assert forall|i: int| 0 <= i < named@.len() implies known_name((#[trigger] named@[i]).0@) by {
                assert(resolved@[i].0.spec_name() == named@[i].0@);
            }
            assert forall|i: int, j: int| 0 <= i < j < named@.len() && same_language_named(
                (#[trigger] named@[i]).0@, (#[trigger] named@[j]).0@) implies !distinct_languages(resolved@) by {
                let l = choose|l: Language| #[trigger] l.spec_name() == named@[i].0@ && l.spec_name() == named@[j].0@;
                assert(named@[i].0@ == named@[j].0@);
                crate::types::lemma_first_named_unique(resolved@[i].0, resolved@[j].0, named@[i].0@);
                assert(resolved@[i].0 == resolved@[j].0);
            }
        }
        let r = Self::new(config, resolved);
        proof {
            if let Err(DataError::DuplicateLanguage(l)) = r {
                let (i, j) = choose|i: int, j: int| 0 <= i < j < resolved@.len() && (#[trigger] resolved@[i]).0 == l
                    && (#[trigger] resolved@[j]).0 == l;
                assert(crate::types::first_named(resolved@[i].0, named@[i].0@));
                assert(crate::types::first_named(resolved@[j].0, named@[j].0@));
                assert(named@[i].0@ == l.spec_name());
                assert(named@[j].0@ == l.spec_name());
                assert(same_language_named(named@[i].0@, named@[j].0@));
            }
        }
        r
    }

    /// The configuration of the table.
    pub fn scoring_config(&self) -> (c: ScoringConfig)
        ensures
            c == self.config(),
    {
        self.config
    }

    /// Whether the table describes `lang`.
    pub fn has_language(&self, lang: Language) -> (r: bool)
        ensures
            r == self.has_entry(lang),
    {
        for i in 0..self.entries.len()
            invariant
                forall|k: int| 0 <= k < i ==> (#[trigger] self.entries@[k]).0 != lang,
        {
            if self.entries[i].0 == lang {
                assert(self.entries()[i as int].0 == lang);
                return true;
            }
        }
        false
    }

    /// Whether the table describes every language of the game.
    pub fn is_complete(&self) -> (r: bool)
        ensures
            r == self.complete(),
    {
        let all = Language::all();
        for i in 0..all.len()
            invariant
                all@ == crate::types::all_languages(),
                forall|k: int| 0 <= k < i ==> self.has_entry(#[trigger] all@[k]),
        {
            if !self.has_language(all[i]) {
                return false;
            }
        }
        proof {
            assert forall|l: Language| #[trigger] self.has_entry(l) by {
                lemma_all_languages_index(l);
            }
        }
        true
    }

    /// The entry of `lang`.
    fn entry(&self, lang: Language) -> (e: &LanguageEntry)
        requires
            self.has_entry(lang),
        ensures
            *e == self.entry_of(lang),
    {
        proof {
            use_type_invariant(self);
        }
        let mut i: usize = 0;
        while i < self.entries.len()
            invariant
                forall|k: int| 0 <= k < i ==> (#[trigger] self.entries@[k]).0 != lang,
                self.has_entry(lang),
                distinct_languages(self.entries@),
            decreases self.entries.len() - i,
        {
            if self.entries[i].0 == lang {
                let ghost c = choose|k: int| 0 <= k < self.entries().len() && (#[trigger] self.entries()[k]).0 == lang;
                assert(c == i) by {
                    if c < i {
                    } else if c > i {
                        assert(distinct_languages(self.entries@));
                    }
                }
                return &self.entries[i].1;
            }
            i = i + 1;
        }
        proof {
            let c = choose|k: int| 0 <= k < self.entries().len() && (#[trigger] self.entries()[k]).0 == lang;
            assert(self.entries@[c].0 == lang);
        }
        &self.entries[0].1
    }
}

/// `rounded_share` of numbers that fit in machine integers; at most `max`.
fn rounded(max: u32, common: u128, total: u128) -> (r: u32)
    requires
        0 < total <= 2 * (usize::MAX as u128),
        common <= total,
    ensures
        r == rounded_share(max as nat, common as nat, total as nat),
        r <= max,
{
    proof {
        lemma_rounded_share_bound(max as nat, common as nat, total as nat);
        assert(max as u128 * common <= 0x1_0000_0000 * (2 * (usize::MAX as u128))) by (nonlinear_arith)
            requires
                max <= 0xffff_ffff,
                common <= 2 * (usize::MAX as u128),
        ;
    }
    let num: u128 = 2 * ((max as u128) * common) + total;
    let den: u128 = 2 * total;
    assert(num == 2 * (max as nat) * (common as nat) + total) by (nonlinear_arith)
        requires
            num == 2 * ((max as u128) * common) + total,
    ;
    (num / den) as u32
}

/// A rounded share of at most the whole is at most the maximum.
proof fn lemma_rounded_share_bound(max: nat, common: nat, total: nat)
    requires
        0 < total,
        common <= total,
    ensures
        rounded_share(max, common, total) <= max,
{
    assert(2 * max * common + total < (2 * total) * (max + 1)) by (nonlinear_arith)
        requires
            common <= total,
            0 < total,
    ;
    assert((2 * max * common + total) / (2 * total) <= max) by (nonlinear_arith)
        requires
            2 * max * common + total < (2 * total) * (max + 1),
            0 < total,
    ;
}

/// The view set of characters is their set.
proof fn lemma_char_view_set(s: Seq<char>)
    ensures
        view_set(s) == s.to_set(),
{
    let m = crate::sets::views(s);
    assert forall|i: int| 0 <= i < s.len() implies m[i] == s[i] by {
        assert(m[i] == s[i]@);
    }
    assert(m =~= s);
    assert(view_set(s) == m.to_set());
}

/// The view set of three strings is the set of their three views.
proof fn lemma_node_view_set(x: String, y: String, z: String)
    ensures
        view_set(seq![x, y, z]) == nodes(x@, y@, z@),
{
    let m = crate::sets::views(seq![x, y, z]);
    assert(m =~= seq![x@, y@, z@]);
    assert forall|v: Seq<char>| m.to_set().contains(v) <==> nodes(x@, y@, z@).contains(v) by {
        if v == x@ {
            assert(m[0] == v);
        }
        if v == y@ {
            assert(m[1] == v);
        }
        if v == z@ {
            assert(m[2] == v);
        }
    }
    assert(m.to_set() =~= nodes(x@, y@, z@));
}

/// The score of two alphabets on an axis worth `max`.
fn char_share_of(max: u32, a: &String, b: &String) -> (r: u32)
    ensures
        r == char_share(max as nat, a@, b@),
        r <= max,
{
    let ca = chars_of(a.as_str());
    let cb = chars_of(b.as_str());
    let total = count_union(&ca, &cb);
    let common = count_common(&ca, &cb);
    proof {
        lemma_char_view_set(ca@);
        lemma_char_view_set(cb@);
        crate::sets::lemma_view_set_finite(ca@);
        crate::sets::lemma_view_set_finite(cb@);
        vstd::set_lib::lemma_len_subset(ca@.to_set().intersect(cb@.to_set()), ca@.to_set().union(cb@.to_set()));
    }
    if total == 0 {
        max
    } else {
        rounded(max, common as u128, total)
    }
}

/// The score of two three-level classifications on an axis worth `max`.
fn node_share_of(
    max: u32,
    g: (&String, &String, &String),
    a: (&String, &String, &String),
) -> (r: u32)
    ensures
        r == node_share(max as nat, nodes(g.0@, g.1@, g.2@), nodes(a.0@, a.1@, a.2@)),
        r <= max,
{
    let gv: Vec<String> = vec![g.0.clone(), g.1.clone(), g.2.clone()];
    let av: Vec<String> = vec![a.0.clone(), a.1.clone(), a.2.clone()];
    let total = count_union(&gv, &av);
    let common = count_common(&gv, &av);
    proof {
        assert(gv@ =~= seq![gv@[0], gv@[1], gv@[2]]);
        assert(av@ =~= seq![av@[0], av@[1], av@[2]]);
        lemma_node_view_set(gv@[0], gv@[1], gv@[2]);
        lemma_node_view_set(av@[0], av@[1], av@[2]);
        let sg = nodes(g.0@, g.1@, g.2@);
        let sa = nodes(a.0@, a.1@, a.2@);
        crate::sets::lemma_view_set_finite(gv@);
        crate::sets::lemma_view_set_finite(av@);
        vstd::set_lib::lemma_len_subset(sg.intersect(sa), sg.union(sa));
    }
    if total == 0 {
        0
    } else {
        rounded(max, common as u128, total)
    }
}

/// The script score of guessing `g` when the answer is `a`.
fn compute_script_score(data: &ScoringData, g: Language, a: Language) -> (r: u32)
    requires
        g == a || (data.has_entry(g) && data.has_entry(a)),
    ensures
        r == data.script_score(g, a),
        g != a ==> r <= data.config().script_max,
{
    if g == a {
        return 500;
    }
    let ge = data.entry(g);
    let ae = data.entry(a);
    let max = data.config.script_max;
    if ge.script.eq(&ae.script) {
        match (&ge.script_chars, &ae.script_chars) {
            (Some(gc), Some(ac)) => char_share_of(max, gc, ac),
            _ => max,
        }
    } else {
        node_share_of(
            max,
            (&ge.script_family, &ge.script_branch, &ge.script),
            (&ae.script_family, &ae.script_branch, &ae.script),
        )
    }
}

/// The family score of guessing `g` when the answer is `a`.
fn compute_family_score(data: &ScoringData, g: Language, a: Language) -> (r: u32)
    requires
        g == a || (data.has_entry(g) && data.has_entry(a)),
    ensures
        r == data.family_score(g, a),
        g != a ==> r <= data.config().family_max,
{
    if g == a {
        return 500;
    }
    let ge = data.entry(g);
    let ae = data.entry(a);
    node_share_of(
        data.config.family_max,
        (&ge.family, &ge.branch, &ge.sub_branch),
        (&ae.family, &ae.branch, &ae.sub_branch),
    )
}

/// The score of an Easy round: everything for the right answer, nothing otherwise.
pub open spec fn easy_score(correct: bool) -> ScoreBreakdown {
    if correct {
        ScoreBreakdown { script: 500, family: 500, total: 1000 }
    } else {
        ScoreBreakdown { script: 0, family: 0, total: 0 }
    }
}

/// The score of an Easy round: everything for the right answer, nothing otherwise.
pub fn binary_score(correct: bool) -> (r: ScoreBreakdown)
    ensures
        r == easy_score(correct),
{
    if correct {
        ScoreBreakdown { script: 500, family: 500, total: 1000 }
    } else {
        ScoreBreakdown { script: 0, family: 0, total: 0 }
    }
}

/// The score of guessing `guess` when the answer is `answer`, on both axes.
pub fn partial_score(guess: &Language, answer: &Language, data: &ScoringData) -> (r: ScoreBreakdown)
    requires
        *guess == *answer || {
            &&& data.has_entry(*guess)
            &&& data.has_entry(*answer)
            &&& data.config().script_max + data.config().family_max <= u32::MAX
        },
    ensures
        r.script == data.script_score(*guess, *answer),
        r.family == data.family_score(*guess, *answer),
        r.total == r.script + r.family,
        *guess == *answer ==> r == (ScoreBreakdown { script: 500, family: 500, total: 1000 }),
{
    let script = compute_script_score(data, *guess, *answer);
    let family = compute_family_score(data, *guess, *answer);
    ScoreBreakdown { script, family, total: script + family }
}

/// The labels of guessing `guess` when the answer is `answer`.
pub fn score_labels(guess: &Language, answer: &Language, data: &ScoringData) -> (r: ScoreLabels)
    requires
        data.has_entry(*guess),
        data.has_entry(*answer),
    ensures
        r.script@ == data.script_label(*guess, *answer),
        r.family@ == data.family_label(*guess, *answer),
{
    let ge = data.entry(*guess);
    let ae = data.entry(*answer);

    let script = if ge.script.eq(&ae.script) {
        let mut s = owned("Both ");
        push_str(&mut s, ge.script.as_str());
        push_str(&mut s, " script");
        s
    } else if ge.script_family.eq(&ae.script_family) && ge.script_branch.eq(&ae.script_branch) {
        let mut s = owned("Both use ");
        push_str(&mut s, ge.script_branch.as_str());
        push_str(&mut s, " scripts");
        s
    } else if ge.script_family.eq(&ae.script_family) {
        let mut s = owned("Related ");
        push_str(&mut s, ge.script_family.as_str());
        push_str(&mut s, " scripts");
        s
    } else {
        owned("Different scripts")
    };

    let family = if ge.sub_branch.eq(&ae.sub_branch) {
        let mut s = owned("Both ");
        push_str(&mut s, ge.sub_branch.as_str());
        s
    } else if ge.branch.eq(&ae.branch) {
        let mut s = owned("Both ");
        push_str(&mut s, ge.branch.as_str());
        push_str(&mut s, " languages");
        s
    } else if ge.family.eq(&ae.family) {
        let mut s = owned("Both ");
        push_str(&mut s, ge.family.as_str());
        push_str(&mut s, " family");
        s
    } else {
        owned("Different language families")
    };

    ScoreLabels { script, family }
}

/// Scores do not depend on which of two languages was the guess: guessing
/// `b` when the answer is `a` scores what guessing `a` scores when it is `b`.
pub proof fn law_scores_symmetric(data: ScoringData, a: Language, b: Language)
    ensures
        data.script_score(a, b) == data.script_score(b, a),
        data.family_score(a, b) == data.family_score(b, a),
{
    let ea = data.entry_of(a);
    let eb = data.entry_of(b);
    let sa = nodes(ea.script_family@, ea.script_branch@, ea.script@);
    let sb = nodes(eb.script_family@, eb.script_branch@, eb.script@);
    assert(sa.union(sb) =~= sb.union(sa));
    assert(sa.intersect(sb) =~= sb.intersect(sa));
    let fa = nodes(ea.family@, ea.branch@, ea.sub_branch@);
    let fb = nodes(eb.family@, eb.branch@, eb.sub_branch@);
    assert(fa.union(fb) =~= fb.union(fa));
    assert(fa.intersect(fb) =~= fb.intersect(fa));
    if let (Some(ca), Some(cb)) = (ea.script_chars, eb.script_chars) {
        assert(ca@.to_set().union(cb@.to_set()) =~= cb@.to_set().union(ca@.to_set()));
        assert(ca@.to_set().intersect(cb@.to_set()) =~= cb@.to_set().intersect(ca@.to_set()));
    }
}

/// The labels do not depend on which of two languages was the guess.
pub proof fn law_labels_symmetric(data: ScoringData, a: Language, b: Language)
    ensures
        data.script_label(a, b) == data.script_label(b, a),
        data.family_label(a, b) == data.family_label(b, a),
{
}

/// A correct guess earns 500 on each axis, whatever the table.
pub proof fn law_correct_guess_scores_full(data: ScoringData, l: Language)
    ensures
        data.script_score(l, l) == 500,
        data.family_score(l, l) == 500,
{
}

/// A wrong guess earns no more on an axis than the axis's maximum.
pub proof fn law_wrong_guess_bounded(data: ScoringData, g: Language, a: Language)
    requires
        g != a,
    ensures
        data.script_score(g, a) <= data.config().script_max,
        data.family_score(g, a) <= data.config().family_max,
{
    let ge = data.entry_of(g);
    let ae = data.entry_of(a);
    let max = data.config().script_max as nat;
    if ge.script@ == ae.script@ {
        if let (Some(gc), Some(ac)) = (ge.script_chars, ae.script_chars) {
            let s1 = gc@.to_set();
            let s2 = ac@.to_set();
            vstd::seq_lib::seq_to_set_is_finite(gc@);
            vstd::seq_lib::seq_to_set_is_finite(ac@);
            if s1.union(s2).len() != 0 {
                vstd::set_lib::lemma_len_subset(s1.intersect(s2), s1.union(s2));
                lemma_rounded_share_bound(max, s1.intersect(s2).len(), s1.union(s2).len());
            }
        }
    } else {
        lemma_node_share_bound(
            max,
            nodes(ge.script_family@, ge.script_branch@, ge.script@),
            nodes(ae.script_family@, ae.script_branch@, ae.script@),
        );
    }
    lemma_node_share_bound(
        data.config().family_max as nat,
        nodes(ge.family@, ge.branch@, ge.sub_branch@),
        nodes(ae.family@, ae.branch@, ae.sub_branch@),
    );
}

proof fn lemma_node_share_bound(max: nat, g: Set<Seq<char>>, a: Set<Seq<char>>)
    requires
        g.finite(),
        a.finite(),
    ensures
        node_share(max, g, a) <= max,
{
    if g.union(a).len() != 0 {
        vstd::set_lib::lemma_len_subset(g.intersect(a), g.union(a));
        lemma_rounded_share_bound(max, g.intersect(a).len(), g.union(a).len());
    }
}

} // verus!
