//! URIs that are never shipped to the collector.

use vstd::prelude::*;
use crate::error::TreblleError;
use crate::pattern::{regex_matches, regex_valid, KeyPattern};
use crate::text::views_of;

verus! {

/// Whether some pattern of `sources` matches somewhere in `uri`.
pub open spec fn blacklisted(sources: Seq<Seq<char>>, uri: Seq<char>) -> bool {
    exists|i: int| 0 <= i < sources.len() && regex_matches(sources[i], uri)
}

/// Whether every pattern of `sources` compiles.
pub open spec fn all_valid(sources: Seq<Seq<char>>) -> bool {
    forall|i: int| 0 <= i < sources.len() ==> regex_valid(sources[i])
}

/// The compiled route patterns.
pub struct RouteBlacklist {
    patterns: Vec<KeyPattern>,
}

impl RouteBlacklist {
    /// The source text of each pattern, in order.
    pub closed spec fn sources(&self) -> Seq<Seq<char>> {
        self.patterns@.map_values(|p: KeyPattern| p.source())
    }

    /// Compiles every pattern; fails on the first one that does not compile.
    pub fn try_new(blacklist: &[String]) -> (r: Result<RouteBlacklist, TreblleError>)
        ensures
            r is Ok <==> all_valid(views_of(blacklist@)),
            r matches Ok(b) ==> b.sources() == views_of(blacklist@),
            r matches Err(e) ==> e is Regex,
    {
        let mut patterns: Vec<KeyPattern> = Vec::new();
        let mut i: usize = 0;
        while i < blacklist.len()
            invariant
                i <= blacklist.len(),
                patterns.len() == i,
                forall|k: int| 0 <= k < i ==> patterns@[k].source() == blacklist@[k]@,
                forall|k: int| 0 <= k < i ==> regex_valid(blacklist@[k]@),
            decreases blacklist.len() - i,
        {
            match KeyPattern::new(blacklist[i].as_str()) {
                Ok(p) => patterns.push(p),
                Err(e) => {
                    assert(!regex_valid(views_of(blacklist@)[i as int]));
                    return Err(e);
                },
            }
            i = i + 1;
        }
        let r = RouteBlacklist { patterns };
        assert(r.sources() =~= views_of(blacklist@));
        Ok(r)
    }

    /// Compiles every pattern. Every pattern must compile: a pattern that
    /// does not is a deployment error.
    pub fn new(blacklist: &[String]) -> (r: RouteBlacklist)
        requires
            all_valid(views_of(blacklist@)),
        ensures
            r.sources() == views_of(blacklist@),
    {
        match Self::try_new(blacklist) {
            Ok(b) => b,
            Err(_) => RouteBlacklist { patterns: Vec::new() },
        }
    }

    /// Whether some pattern matches somewhere in `url`.
    pub fn is_blacklisted(&self, url: &str) -> (r: bool)
        ensures
            r == blacklisted(self.sources(), url@),
    {
        let mut i: usize = 0;
        while i < self.patterns.len()
            invariant
                i <= self.patterns.len(),
                forall|k: int| 0 <= k < i ==> !regex_matches(self.sources()[k], url@),
            decreases self.patterns.len() - i,
        {
            if self.patterns[i].is_match(url) {
                assert(regex_matches(self.sources()[i as int], url@));
                return true;
            }
            i = i + 1;
        }
        false
    }
}

} // verus!
