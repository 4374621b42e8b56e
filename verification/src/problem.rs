//! A normalized coding-problem record and the lookup from a problem
//! identifier to its title slug.

use vstd::prelude::*;
use vstd::string::StringExecFns;

verus! {

/// A coding problem in its normalized form.
pub struct LeetCodeProblem {
    pub title: String,
    pub description: String,
    pub difficulty: String,
    pub tags: Vec<String>,
    pub code_snippets: std::collections::HashMap<String, String>,
}

/// The failure the slug lookup reports for an identifier outside its
/// built-in mapping.
#[derive(Clone, Copy, PartialEq, Eq, Structural, Debug)]
pub enum ProblemError {
    UnknownProblemId,
}

impl ProblemError {
    /// A short description of the failure.
    pub fn describe(&self) -> (s: String)
        ensures
            s@ == "unknown problem id"@,
    {
        String::from_str("unknown problem id")
    }
}

/// The built-in mapping from problem identifier to title slug.
pub open spec fn slug_of_id_spec(id: Seq<char>) -> Option<Seq<char>> {
    if id == "1"@ {
        Some("two-sum"@)
    } else if id == "215"@ {
        Some("kth-largest-element-in-an-array"@)
    } else if id == "3"@ {
        Some("longest-substring-with-repeating-characters"@)
    } else {
        None
    }
}

/// Maps a problem identifier to its title slug: exactly the identifiers of
/// the built-in mapping succeed, and every other identifier is reported as
/// unknown.
pub fn id_to_slug(problem_id: &str) -> (r: Result<String, ProblemError>)
    ensures
        match r {
            Ok(s) => slug_of_id_spec(problem_id@) == Some(s@),
            Err(e) => slug_of_id_spec(problem_id@) is None && e == ProblemError::UnknownProblemId,
        },
{
    let id = problem_id.to_owned();
    if id == String::from_str("1") {
        Ok(String::from_str("two-sum"))
    } else if id == String::from_str("215") {
        Ok(String::from_str("kth-largest-element-in-an-array"))
    } else if id == String::from_str("3") {
        Ok(String::from_str("longest-substring-with-repeating-characters"))
    } else {
        Err(ProblemError::UnknownProblemId)
    }
}

} // verus!
