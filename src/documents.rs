use vstd::prelude::*;

use crate::text::same_text;

verus! {

/// A note as it is listed: in the results of a query or among related notes.
#[derive(Debug, Clone, PartialEq, Eq)]
pub struct SearchResult {
    pub path: String,
    pub title: String,
    pub snippet: String,
}

/// A markdown file found by the scan.
#[derive(Debug, Clone, PartialEq, Eq)]
pub struct ScannedFile {
    pub local_path: String,
}

/// A note that the similarity service found close to the selected one, in the
/// order of its ranking (closest first).
#[derive(Debug, Clone, PartialEq, Eq)]
pub struct RelatedCandidate {
    /// Where the note lies on disk, when the service knows it.
    pub path: Option<String>,
    /// The line shown under the note (its similarity).
    pub snippet: String,
}

/// At most this many related notes are shown.
pub const RELATED_LIMIT: usize = 10;

/// How many close notes are asked of the similarity service.
pub const SIMILAR_CANDIDATES: usize = 20;

/// The name of a file without its directory and extension, as `Path::file_stem` gives it.
pub uninterp spec fn file_stem_of(path: Seq<char>) -> Seq<char>;

/// Relies on `std::path::Path::file_stem`: the stem depends on the path alone
/// (a path without a file name gives an empty stem).
#[verifier::external_body]
fn file_stem(path: &str) -> (r: String)
    ensures
        r@ == file_stem_of(path@),
{
    std::path::Path::new(path).file_stem().and_then(|s| s.to_str()).unwrap_or("").to_string()
}

/// The candidate names a note other than the one at `current`.
pub open spec fn keeps(current: Seq<char>, c: RelatedCandidate) -> bool {
    match c.path {
        Some(p) => p@ != current,
        None => false,
    }
}

/// The candidates that name a note other than `current`, in their order.
pub open spec fn kept_candidates(current: Seq<char>, cands: Seq<RelatedCandidate>) -> Seq<
    RelatedCandidate,
>
    decreases cands.len(),
{
    if cands.len() == 0 {
        seq![]
    } else {
        let prev = kept_candidates(current, cands.drop_last());
        if keeps(current, cands.last()) {
            prev.push(cands.last())
        } else {
            prev
        }
    }
}

/// `r` lists the note of candidate `c`: its path, the stem of that path as title,
/// and its snippet.
pub open spec fn lists_candidate(r: SearchResult, c: RelatedCandidate) -> bool {
    &&& c.path == Some(r.path)
    &&& r.title@ == file_stem_of(r.path@)
    &&& r.snippet == c.snippet
}

/// `v` lists the first `RELATED_LIMIT` of `kept`, in order.
pub open spec fn lists_leading(v: Seq<SearchResult>, kept: Seq<RelatedCandidate>) -> bool {
    &&& v.len() == if kept.len() < RELATED_LIMIT {
        kept.len()
    } else {
        RELATED_LIMIT as nat
    }
    &&& forall|j: int| 0 <= j < v.len() ==> lists_candidate(#[trigger] v[j], kept[j])
}

pub open spec fn no_similar_message() -> Seq<char> {
    "No similar documents found."@
}

pub open spec fn only_current_message() -> Seq<char> {
    "No related documents found (current document excluded)."@
}

/// Turns the ranked answer of the similarity service for the note at `current`
/// into the related notes to show: candidates without a path and the note itself
/// are left out, and the first `RELATED_LIMIT` of the others are kept in order.
/// An empty answer, or one that names only the note itself, is an error.
pub fn collect_related(current: &str, candidates: &Vec<RelatedCandidate>) -> (r: Result<
    Vec<SearchResult>,
    String,
>)
    ensures
        match r {
            Ok(v) => kept_candidates(current@, candidates@).len() > 0 && lists_leading(
                v@,
                kept_candidates(current@, candidates@),
            ),
            Err(e) => kept_candidates(current@, candidates@).len() == 0 && e@ == if candidates@.len()
                == 0 {
                no_similar_message()
            } else {
                only_current_message()
            },
        },
{
    if candidates.len() == 0 {
        return Err(String::from_str("No similar documents found."));
    }
    let mut results: Vec<SearchResult> = Vec::new();
    let mut any_kept = false;
    let mut i: usize = 0;
    while i < candidates.len()
        invariant
            i <= candidates@.len(),
            any_kept == (kept_candidates(current@, candidates@.subrange(0, i as int)).len() > 0),
            lists_leading(results@, kept_candidates(current@, candidates@.subrange(0, i as int))),
        decreases candidates@.len() - i,
    {
        let ghost before = candidates@.subrange(0, i as int);
        let c = &candidates[i];
        assert(candidates@.subrange(0, i + 1).drop_last() =~= before);
        match &c.path {
            Some(p) => {
                if !same_text(p.as_str(), current) {
                    if results.len() < RELATED_LIMIT {
                        let path = p.clone();
                        let title = file_stem(path.as_str());
                        results.push(SearchResult { path, title, snippet: c.snippet.clone() });
                    }
                    any_kept = true;
                }
            },
            None => {},
        }
        i += 1;
    }
    assert(candidates@.subrange(0, i as int) =~= candidates@);
    if !any_kept {
        return Err(String::from_str("No related documents found (current document excluded)."));
    }
    Ok(results)
}

} // verus!
