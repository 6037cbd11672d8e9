//! Exclusion filtering with shell-style glob patterns.
//!
//! The patterns are compiled and matched by the `glob` crate. Its answers are
//! functions of the two texts alone, except where they turn on what the
//! platform takes for a path separator, which `glob` learns from
//! `std::path::is_separator`:
//!
//! - a run of two stars compiles only between separators or the ends of the
//!   pattern, and matches up to a separator;
//! - on Windows a separator in the pattern matches any separator in the name,
//!   so a slash matches a backslash.
//!
//! std documents the separators of Unix (`/`) and of Windows (`/` and `\`),
//! and of no other platform: what `is_separator` says of `/` elsewhere is not
//! stated anywhere, so what a pattern with two adjacent stars compiles to and
//! matches cannot be named as a function of the texts. The contracts here pin
//! the answers down on the texts that stay clear of both points, and say
//! what holds of every answer on the others.

use crate::options::exclude_texts;
use glob::Pattern;
use glob::PatternError;
use vstd::prelude::*;

verus! {

/// `glob::Pattern`, a compiled glob pattern. Nothing inside it is visible to proofs.
#[verifier::external_type_specification]
#[verifier::external_body]
pub struct ExPattern(glob::Pattern);

/// `glob::PatternError`, the reason a text is not a glob pattern.
#[verifier::external_type_specification]
#[verifier::external_body]
pub struct ExPatternError(glob::PatternError);

/// The text that a compiled pattern was made from, as `Pattern::as_str` returns it.
pub uninterp spec fn pattern_text(pattern: Pattern) -> Seq<char>;

/// Whether `Pattern::new` accepts `text`.
pub uninterp spec fn glob_compiles(text: Seq<char>) -> bool;

/// Whether the pattern made from `pattern` matches `name`, as `Pattern::matches` decides.
pub uninterp spec fn glob_matches(pattern: Seq<char>, name: Seq<char>) -> bool;

/// No backslash occurs in `text`.
pub open spec fn no_backslash(text: Seq<char>) -> bool {
    forall|i: int| 0 <= i < text.len() ==> text[i] != '\\'
}

/// No two stars stand side by side in `text`: `glob` compiles such a text
/// without asking the platform what a path separator is.
pub open spec fn single_stars(text: Seq<char>) -> bool {
    forall|i: int| 0 <= i < text.len() - 1 ==> !(#[trigger] text[i] == '*' && text[i + 1] == '*')
}

/// A pattern text that `glob` matches without regard to the platform's
/// separators, against a name without a backslash: it holds no backslash and
/// no two adjacent stars.
pub open spec fn stable_pattern(text: Seq<char>) -> bool {
    no_backslash(text) && single_stars(text)
}

/// A pattern and a name on which the answer of `glob` is the same on every platform.
pub open spec fn stable_pair(pattern: Seq<char>, name: Seq<char>) -> bool {
    stable_pattern(pattern) && no_backslash(name)
}

/// `Pattern::new` compiles a text. The pattern it returns remembers the text;
/// whether it returns one is, for a text without two adjacent stars, a
/// function of the text: only for a run of two stars does it ask the platform
/// about separators.
pub assume_specification[ glob::Pattern::new ](pattern: &str) -> (r: Result<Pattern, PatternError>)
    ensures
        r is Ok ==> pattern_text(r->Ok_0) == pattern@,
        single_stars(pattern@) ==> (r is Ok <==> glob_compiles(pattern@)),
;

/// `Pattern::matches` tests a name against a compiled pattern with the default
/// match options. For a stable pair the answer is a function of the two texts.
pub assume_specification[ glob::Pattern::matches ](pattern: &Pattern, str: &str) -> (r: bool)
    ensures
        stable_pair(pattern_text(*pattern), str@) ==> r == glob_matches(
            pattern_text(*pattern),
            str@,
        ),
;

/// `Pattern::as_str` gives back the text that the pattern was made from.
pub assume_specification<'a>[ glob::Pattern::as_str ](pattern: &'a Pattern) -> (r: &'a str)
    ensures
        r@ == pattern_text(*pattern),
;

/// `text` may have been compiled: it is not known to be rejected.
pub open spec fn may_keep(text: Seq<char>) -> bool {
    single_stars(text) ==> glob_compiles(text)
}

/// `text` may have been dropped: it is not known to be accepted.
pub open spec fn may_drop(text: Seq<char>) -> bool {
    single_stars(text) ==> !glob_compiles(text)
}

/// `kept` is what is left of `given` once the texts that do not compile are
/// dropped: the order stands, and of the texts without two adjacent stars
/// every one that compiles is kept and every one that does not is dropped.
pub open spec fn compiled_from(kept: Seq<Seq<char>>, given: Seq<Seq<char>>) -> bool
    decreases given.len(),
{
    if given.len() == 0 {
        kept.len() == 0
    } else {
        ||| (kept.len() > 0 && kept.last() == given.last() && may_keep(given.last())
            && compiled_from(kept.drop_last(), given.drop_last()))
        ||| (may_drop(given.last()) && compiled_from(kept, given.drop_last()))
    }
}

/// `verdict` is an answer that the patterns may give on `name`: `true` only if
/// some pattern is not known to miss the name, `false` only if no pattern is
/// known to match it.
pub open spec fn verdict_allowed(patterns: Seq<Seq<char>>, name: Seq<char>, verdict: bool) -> bool {
    if verdict {
        exists|i: int|
            0 <= i < patterns.len() && (stable_pair(#[trigger] patterns[i], name) ==> glob_matches(
                patterns[i],
                name,
            ))
    } else {
        forall|i: int|
            0 <= i < patterns.len() && stable_pair(#[trigger] patterns[i], name) ==> !glob_matches(
                patterns[i],
                name,
            )
    }
}

/// The texts of a list of compiled patterns.
pub open spec fn texts_of(patterns: Seq<Pattern>) -> Seq<Seq<char>> {
    Seq::new(patterns.len(), |i: int| pattern_text(patterns[i]))
}

/// The compiled exclusion patterns of one pack operation.
pub struct ExcludeSet {
    patterns: Vec<Pattern>,
}

impl View for ExcludeSet {
    type V = Seq<Seq<char>>;

    /// The texts of the patterns, in order.
    closed spec fn view(&self) -> Seq<Seq<char>> {
        texts_of(self.patterns@)
    }
}

impl ExcludeSet {
    /// Compiles the caller's patterns. A text that is no valid pattern is
    /// dropped without a report.
    pub fn compile(exclude: &Option<Vec<String>>) -> (r: ExcludeSet)
        ensures
            compiled_from(r@, exclude_texts(*exclude)),
    {
        let mut patterns: Vec<Pattern> = Vec::new();
        let ghost given = exclude_texts(*exclude);
        match exclude {
            None => {},
            Some(list) => {
                let mut i: usize = 0;
                assert(given.take(0) =~= Seq::<Seq<char>>::empty());
                while i < list.len()
                    invariant
                        i <= list.len(),
                        given == exclude_texts(*exclude),
                        *exclude == Some(*list),
                        compiled_from(texts_of(patterns@), given.take(i as int)),
                    decreases list.len() - i,
                {
                    let ghost before = texts_of(patterns@);
                    let ghost upto = given.take(i as int + 1);
                    assert(upto.drop_last() =~= given.take(i as int));
                    assert(upto.last() == list@[i as int]@);
                    match Pattern::new(list[i].as_str()) {
                        Ok(pattern) => {
                            patterns.push(pattern);
                            assert(texts_of(patterns@).drop_last() =~= before);
                        },
                        Err(_) => {},
                    }
                    i = i + 1;
                }
                assert(given.take(list.len() as int) =~= given);
            },
        }
        ExcludeSet { patterns }
    }

    /// Tests a name against every pattern.
    pub fn excludes(&self, name: &str) -> (r: bool)
        ensures
            verdict_allowed(self@, name@, r),
    {
        let mut i: usize = 0;
        while i < self.patterns.len()
            invariant
                i <= self.patterns.len(),
                forall|j: int|
                    0 <= j < i && stable_pair(#[trigger] self@[j], name@) ==> !glob_matches(
                        self@[j],
                        name@,
                    ),
            decreases self.patterns.len() - i,
        {
            if self.patterns[i].matches(name) {
                assert(stable_pair(self@[i as int], name@) ==> glob_matches(self@[i as int], name@));
                return true;
            }
            i = i + 1;
        }
        false
    }

    /// The texts of the compiled patterns, in order.
    pub fn texts(&self) -> (r: Vec<String>)
        ensures
            r@.len() == self@.len(),
            forall|i: int| 0 <= i < r@.len() ==> (#[trigger] r@[i])@ == self@[i],
    {
        let mut out: Vec<String> = Vec::new();
        let mut i: usize = 0;
        while i < self.patterns.len()
            invariant
                i <= self.patterns.len(),
                out@.len() == i,
                forall|j: int| 0 <= j < i ==> (#[trigger] out@[j])@ == self@[j],
            decreases self.patterns.len() - i,
        {
            out.push(self.patterns[i].as_str().to_owned());
            i = i + 1;
        }
        out
    }

    /// The number of compiled patterns.
    pub fn len(&self) -> (r: usize)
        ensures
            r == self@.len(),
    {
        self.patterns.len()
    }
}

/// Where no given text holds two adjacent stars, what is compiled is exactly
/// the texts that compile, in the order given.
pub proof fn plain_texts_compile_exactly(kept: Seq<Seq<char>>, given: Seq<Seq<char>>)
    requires
        compiled_from(kept, given),
        forall|i: int| 0 <= i < given.len() ==> single_stars(#[trigger] given[i]),
    ensures
        kept == given.filter(|text: Seq<char>| glob_compiles(text)),
    decreases given.len(),
{
    reveal(Seq::filter);
    if given.len() > 0 {
        let rest = given.drop_last();
        assert(single_stars(given.last()));
        assert forall|i: int| 0 <= i < rest.len() implies single_stars(#[trigger] rest[i]) by {
            assert(rest[i] == given[i]);
        }
        if glob_compiles(given.last()) {
            plain_texts_compile_exactly(kept.drop_last(), rest);
            assert(kept =~= kept.drop_last().push(given.last()));
        } else {
            plain_texts_compile_exactly(kept, rest);
        }
    } else {
        assert(kept =~= given);
    }
}

/// What is compiled is never more than what was given, and every compiled
/// text is one of the given texts.
pub proof fn compiled_texts_are_given(kept: Seq<Seq<char>>, given: Seq<Seq<char>>)
    requires
        compiled_from(kept, given),
    ensures
        kept.len() <= given.len(),
        forall|i: int| 0 <= i < kept.len() ==> given.contains(#[trigger] kept[i]),
    decreases given.len(),
{
    if given.len() > 0 {
        let rest = given.drop_last();
        if kept.len() > 0 && kept.last() == given.last() && may_keep(given.last())
            && compiled_from(kept.drop_last(), rest) {
            compiled_texts_are_given(kept.drop_last(), rest);
            assert forall|i: int| 0 <= i < kept.len() implies given.contains(#[trigger] kept[i]) by {
                if i < kept.len() - 1 {
                    assert(kept.drop_last()[i] == kept[i]);
                    let j = choose|j: int| 0 <= j < rest.len() && rest[j] == kept[i];
                    assert(given[j] == kept[i]);
                } else {
                    assert(given[given.len() - 1] == kept[i]);
                }
            }
        } else {
            compiled_texts_are_given(kept, rest);
            assert forall|i: int| 0 <= i < kept.len() implies given.contains(#[trigger] kept[i]) by {
                let j = choose|j: int| 0 <= j < rest.len() && rest[j] == kept[i];
                assert(given[j] == kept[i]);
            }
        }
    }
}

/// With no pattern nothing is excluded.
pub proof fn no_pattern_excludes_nothing(name: Seq<char>, verdict: bool)
    requires
        verdict_allowed(Seq::empty(), name, verdict),
    ensures
        !verdict,
{
}

/// On stable texts the verdict is that some pattern matches the name.
pub proof fn stable_verdict_is_exact(patterns: Seq<Seq<char>>, name: Seq<char>, verdict: bool)
    requires
        verdict_allowed(patterns, name, verdict),
        forall|i: int| 0 <= i < patterns.len() ==> stable_pattern(#[trigger] patterns[i]),
        no_backslash(name),
    ensures
        verdict == exists|i: int| 0 <= i < patterns.len() && glob_matches(#[trigger] patterns[i], name),
{
    if verdict {
        let i = choose|i: int|
            0 <= i < patterns.len() && (stable_pair(#[trigger] patterns[i], name) ==> glob_matches(
                patterns[i],
                name,
            ));
        assert(stable_pattern(patterns[i]));
        assert(glob_matches(patterns[i], name));
    } else {
        assert forall|i: int| 0 <= i < patterns.len() implies !glob_matches(
            #[trigger] patterns[i],
            name,
        ) by {
            assert(stable_pair(patterns[i], name));
        }
    }
}

} // verus!
