//! Counting the matches of a pattern in a text, with compiled patterns kept
//! in a cache keyed by the pattern string.
use vstd::prelude::*;
use crate::error::MonitorError;

verus! {

#[verifier::external_type_specification]
#[verifier::external_body]
pub struct ExRegex(regex::Regex);

#[verifier::external_type_specification]
#[verifier::external_body]
pub struct ExRegexError(regex::Error);

/// Whether `regex::Regex::new` accepts a pattern.
pub uninterp spec fn pattern_compiles(pattern: Seq<char>) -> bool;

/// The number of non-overlapping, left-to-right matches of `pattern` in `text`.
pub uninterp spec fn match_count(pattern: Seq<char>, text: Seq<char>) -> nat;

/// A pattern together with the regular expression compiled from it.
pub struct CompiledPattern {
    source: String,
    re: regex::Regex,
}

impl View for CompiledPattern {
    type V = Seq<char>;

    /// The pattern string the expression was compiled from.
    closed spec fn view(&self) -> Seq<char> {
        self.source@
    }
}

/// Relies on `regex::Regex::new`: `Ok` exactly when the pattern is a valid
/// regular expression; the compiled value is kept beside its pattern.
#[verifier::external_body]
fn compile(pattern: &str) -> (r: Result<CompiledPattern, regex::Error>)
    ensures
        r is Ok <==> pattern_compiles(pattern@),
        r is Ok ==> r->Ok_0@ == pattern@,
{
    match regex::Regex::new(pattern) {
        Ok(re) => Ok(CompiledPattern { source: pattern.to_string(), re }),
        Err(e) => Err(e),
    }
}

/// Relies on `regex::Regex::captures_iter`: it yields the successive
/// non-overlapping matches of the expression in `text`, left to right.
#[verifier::external_body]
fn count_compiled(c: &CompiledPattern, text: &str) -> (r: usize)
    ensures
        r as nat == match_count(c@, text@),
{
    c.re.captures_iter(text).count()
}

/// What counting `pattern` in `text` yields: the match count when the
/// pattern compiles, `InvalidPattern` otherwise.
pub open spec fn count_outcome(pattern: Seq<char>, text: Seq<char>, r: Result<usize, MonitorError>) -> bool {
    if pattern_compiles(pattern) {
        r is Ok && r->Ok_0 as nat == match_count(pattern, text)
    } else {
        r == Err::<usize, MonitorError>(MonitorError::InvalidPattern)
    }
}

/// Counts the matches of `pattern` in `text`, compiling the pattern afresh.
pub fn search(text: &str, pattern: &str) -> (r: Result<usize, MonitorError>)
    ensures
        count_outcome(pattern@, text@, r),
{
    match compile(pattern) {
        Ok(c) => Ok(count_compiled(&c, text)),
        Err(_) => Err(MonitorError::InvalidPattern),
    }
}

/// Compiled patterns, each stored once under its pattern string.
pub struct PatternCache {
    entries: Vec<CompiledPattern>,
}

impl PatternCache {
    /// The pattern strings held, in the order they were first compiled.
    pub closed spec fn patterns(&self) -> Seq<Seq<char>> {
        self.entries@.map_values(|c: CompiledPattern| c@)
    }

    /// Each pattern is stored once, and each stored pattern compiles.
    pub closed spec fn wf(&self) -> bool {
        &&& forall|i: int, j: int|
            0 <= i < j < self.patterns().len() ==> self.patterns()[i] != self.patterns()[j]
        &&& forall|i: int| 0 <= i < self.patterns().len() ==> pattern_compiles(#[trigger] self.patterns()[i])
    }

    /// An empty cache.
    pub fn new() -> (r: PatternCache)
        ensures
            r.wf(),
            r.patterns().len() == 0,
    {
        PatternCache { entries: Vec::new() }
    }

    /// Position of `pattern` in the cache, if it is there.
    fn position(&self, pattern: &str) -> (r: Option<usize>)
        requires
            self.wf(),
        ensures
            r is Some ==> r->Some_0 < self.patterns().len() && self.patterns()[r->Some_0 as int] == pattern@,
            r is None ==> !self.patterns().contains(pattern@),
    {
        let key = String::from_str(pattern);
        let mut i: usize = 0;
        while i < self.entries.len()
            invariant
                i <= self.entries.len(),
                key@ == pattern@,
                forall|k: int| 0 <= k < i ==> self.patterns()[k] != pattern@,
            decreases self.entries.len() - i,
        {
            assert(self.patterns()[i as int] == self.entries@[i as int].source@);
            if self.entries[i].source == key {
                return Some(i);
            }
            i = i + 1;
        }
        None
    }

    /// Counts the matches of `pattern` in `text`; a pattern is compiled on its
    /// first use and served from the cache after that.
    pub fn count_matches(&mut self, text: &str, pattern: &str) -> (r: Result<usize, MonitorError>)
        requires
            old(self).wf(),
        ensures
            final(self).wf(),
            count_outcome(pattern@, text@, r),
            old(self).patterns().contains(pattern@) ==> final(self).patterns() == old(self).patterns(),
            !old(self).patterns().contains(pattern@) && pattern_compiles(pattern@)
                ==> final(self).patterns() == old(self).patterns().push(pattern@),
            !pattern_compiles(pattern@) ==> final(self).patterns() == old(self).patterns(),
    {
        match self.position(pattern) {
            Some(i) => {
                proof {
                    assert(pattern_compiles(self.patterns()[i as int]));
                }
                Ok(count_compiled(&self.entries[i], text))
            },
            None => match compile(pattern) {
                Ok(c) => {
                    let n = count_compiled(&c, text);
                    let ghost before = self.patterns();
                    self.entries.push(c);
                    assert(self.patterns() =~= before.push(pattern@));
                    Ok(n)
                },
                Err(_) => Err(MonitorError::InvalidPattern),
            },
        }
    }
}

/// Counting one pattern in one text always gives one answer: a count from
/// the cache equals a count from a fresh compilation, and a pattern counted
/// twice gives the same result both times.
pub proof fn lemma_count_is_determined(
    pattern: Seq<char>,
    text: Seq<char>,
    first: Result<usize, MonitorError>,
    second: Result<usize, MonitorError>,
)
    requires
        count_outcome(pattern, text, first),
        count_outcome(pattern, text, second),
    ensures
        first == second,
{
}

} // verus!
