use vstd::prelude::*;
use vstd::string::StrSliceExecFns;

verus! {

/// One file as yielded by a metadata enumerator.
#[derive(Clone, Debug)]
pub struct FileRecord {
    pub path: String,
    pub size: u64,
    pub is_directory: bool,
    /// The modification time in its textual form; `None` when unknown.
    pub modified: Option<String>,
}

/// Which records are indexed at all (beyond "not a directory").
#[derive(Clone, Debug)]
pub struct CandidateFilter {
    /// Records larger than this many bytes are left out.
    pub max_size: Option<u64>,
    /// Only paths ending with this text are kept.
    pub required_suffix: Option<String>,
}

/// The text that stands for an absent modification time.
pub open spec fn absent_timestamp() -> Seq<char> {
    seq!['0']
}

/// The modification-time watermark that a record is compared and stored with.
pub open spec fn timestamp_of(modified: Option<String>) -> Seq<char> {
    match modified {
        Some(t) => t@,
        None => absent_timestamp(),
    }
}

pub open spec fn ends_with(s: Seq<char>, suffix: Seq<char>) -> bool {
    suffix.len() <= s.len() && s.subrange(s.len() - suffix.len(), s.len() as int) == suffix
}

/// A record is a candidate when it is a regular file that passes the filter.
pub open spec fn is_candidate_spec(r: FileRecord, f: CandidateFilter) -> bool {
    &&& !r.is_directory
    &&& match f.max_size {
        Some(m) => r.size <= m,
        None => true,
    }
    &&& match f.required_suffix {
        Some(suf) => ends_with(r.path@, suf@),
        None => true,
    }
}

impl FileRecord {
    /// The watermark of this record: its modification time, or "0" when absent.
    pub fn timestamp(&self) -> (r: String)
        ensures
            r@ == timestamp_of(self.modified),
    {
        match &self.modified {
            Some(t) => t.clone(),
            None => {
                proof {
                    reveal_strlit("0");
                }
                String::from_str("0")
            },
        }
    }
}

/// Whether `s` ends with `suffix`, compared character by character.
pub fn str_ends_with(s: &str, suffix: &str) -> (r: bool)
    ensures
        r == ends_with(s@, suffix@),
{
    let n = s.unicode_len();
    let m = suffix.unicode_len();
    if m > n {
        return false;
    }
    let start = n - m;
    let mut i: usize = 0;
    while i < m
        invariant
            i <= m,
            m <= n,
            start == n - m,
            n == s@.len(),
            m == suffix@.len(),
            forall|j: int| 0 <= j < i ==> s@[start + j] == suffix@[j],
        decreases m - i,
    {
        if s.get_char(start + i) != suffix.get_char(i) {
            assert(s@.subrange(start as int, n as int)[i as int] != suffix@[i as int]);
            return false;
        }
        i = i + 1;
    }
    assert(s@.subrange(start as int, n as int) =~= suffix@);
    true
}

impl CandidateFilter {
    /// A filter that keeps every regular file.
    pub fn any() -> (r: CandidateFilter)
        ensures
            r.max_size is None,
            r.required_suffix is None,
    {
        CandidateFilter { max_size: None, required_suffix: None }
    }

    /// Whether `r` is to be indexed: not a directory, within the size ceiling,
    /// and ending with the required suffix.
    pub fn is_candidate(&self, r: &FileRecord) -> (b: bool)
        ensures
            b == is_candidate_spec(*r, *self),
    {
        if r.is_directory {
            return false;
        }
        match self.max_size {
            Some(m) => {
                if r.size > m {
                    return false;
                }
            },
            None => {},
        }
        match &self.required_suffix {
            Some(suf) => str_ends_with(r.path.as_str(), suf.as_str()),
            None => true,
        }
    }
}

} // verus!
