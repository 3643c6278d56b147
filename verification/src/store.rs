//! The version store: an in-memory model of the single marker file that
//! records the last successfully installed release tag.
//!
//! Reading trims surrounding whitespace; a missing or unreadable marker is
//! simply "absent". The store is mutated only by the installer, and only
//! after a download has fully succeeded and the marker has been persisted.

use vstd::prelude::*;
use vstd::string::*;

verus! {

/// The whitespace characters stripped from a marker's surroundings.
pub open spec fn is_blank(c: char) -> bool {
    c == ' ' || c == '\t' || c == '\n' || c == '\r'
}

/// `s` with its blank prefix removed.
pub open spec fn trim_front(s: Seq<char>) -> Seq<char>
    decreases s.len(),
{
    if s.len() > 0 && is_blank(s[0]) {
        trim_front(s.drop_first())
    } else {
        s
    }
}

/// `s` with its blank suffix removed.
pub open spec fn trim_back(s: Seq<char>) -> Seq<char>
    decreases s.len(),
{
    if s.len() > 0 && is_blank(s.last()) {
        trim_back(s.drop_last())
    } else {
        s
    }
}

/// `s` with blank characters removed from both ends.
pub open spec fn trimmed(s: Seq<char>) -> Seq<char> {
    trim_back(trim_front(s))
}

fn is_blank_char(c: char) -> (b: bool)
    ensures
        b == is_blank(c),
{
    c == ' ' || c == '\t' || c == '\n' || c == '\r'
}

proof fn lemma_trim_front_at(s: Seq<char>, i: int)
    requires
        0 <= i <= s.len(),
        forall |k: int| 0 <= k < i ==> is_blank(s[k]),
        i == s.len() || !is_blank(s[i]),
    ensures
        trim_front(s) == s.subrange(i, s.len() as int),
    decreases i,
{
    if i == 0 {
        assert(trim_front(s) =~= s.subrange(0, s.len() as int));
    } else {
        let t = s.drop_first();
        lemma_trim_front_at(t, i - 1);
        assert(t.subrange(i - 1, t.len() as int) =~= s.subrange(i, s.len() as int));
    }
}

proof fn lemma_trim_back_at(s: Seq<char>, j: int)
    requires
        0 <= j <= s.len(),
        forall |k: int| j <= k < s.len() ==> is_blank(s[k]),
        j == 0 || !is_blank(s[j - 1]),
    ensures
        trim_back(s) == s.subrange(0, j),
    decreases s.len(),
{
    if j == s.len() {
        assert(trim_back(s) =~= s.subrange(0, j));
    } else {
        let t = s.drop_last();
        lemma_trim_back_at(t, j);
        assert(t.subrange(0, j) =~= s.subrange(0, j));
    }
}

/// Strips blank characters from both ends of `s`.
pub fn trim_marker_text(s: &str) -> (r: String)
    ensures
        r@ == trimmed(s@),
{
    let n = s.unicode_len();
    let mut start: usize = 0;
    while start < n && is_blank_char(s.get_char(start))
        invariant
            start <= n,
            n == s@.len(),
            forall |k: int| 0 <= k < start ==> is_blank(s@[k]),
        decreases n - start,
    {
        start = start + 1;
    }
    if start == n {
        proof {
            lemma_trim_front_at(s@, n as int);
            lemma_trim_back_at(s@.subrange(n as int, n as int), 0);
            assert(trimmed(s@) =~= Seq::<char>::empty());
        }
        return String::new();
    }
    let mut end: usize = n;
    while end > start + 1 && is_blank_char(s.get_char(end - 1))
        invariant
            start < end <= n,
            n == s@.len(),
            forall |k: int| end <= k < n ==> is_blank(s@[k]),
        decreases end,
    {
        end = end - 1;
    }
    proof {
        lemma_trim_front_at(s@, start as int);
        let t = s@.subrange(start as int, n as int);
        lemma_trim_back_at(t, end - start);
        assert(t.subrange(0, end - start) =~= s@.subrange(start as int, end as int));
    }
    s.substring_char(start, end).to_owned()
}

/// The record of the currently installed release tag.
pub struct VersionStore {
    recorded: Option<String>,
}

impl VersionStore {
    /// The version tag the store holds, if any.
    pub closed spec fn spec_recorded(&self) -> Option<Seq<char>> {
        match self.recorded {
            Some(v) => Some(v@),
            None => None,
        }
    }

    /// A store with no recorded version: no successful install has happened,
    /// or the marker could not be read.
    pub fn absent() -> (s: Self)
        ensures
            s.spec_recorded() is None,
    {
        VersionStore { recorded: None }
    }

    /// A store loaded from the marker file's text, trimmed of surrounding
    /// whitespace.
    pub fn from_marker_text(contents: &str) -> (s: Self)
        ensures
            s.spec_recorded() == Some(trimmed(contents@)),
    {
        VersionStore { recorded: Some(trim_marker_text(contents)) }
    }

    /// The recorded version, or `None` when the store is absent.
    pub fn read(&self) -> (r: Option<&String>)
        ensures
            match r {
                Some(v) => self.spec_recorded() == Some(v@),
                None => self.spec_recorded() is None,
            },
    {
        match &self.recorded {
            Some(v) => Some(v),
            None => None,
        }
    }

    /// Whether the store records exactly `version`.
    pub fn matches_version(&self, version: &String) -> (r: bool)
        ensures
            r == (self.spec_recorded() == Some(version@)),
    {
        match &self.recorded {
            Some(v) => *v == *version,
            None => false,
        }
    }

    /// Records a freshly installed version. Reserved for the installer: the
    /// marker changes only when an install fully succeeds.
    pub(crate) fn record(&mut self, version: &String)
        ensures
            final(self).spec_recorded() == Some(version@),
    {
        self.recorded = Some(version.clone());
    }
}

} // verus!
