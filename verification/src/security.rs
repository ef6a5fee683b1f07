//! The watch for secrets in what is about to be committed.

use crate::pattern::{captures, regex_matches};
use vstd::prelude::*;

verus! {

/// The pattern of an API key of the kind that must never be staged.
pub const API_KEY_PATTERN: &'static str = "AIzaSy[A-Za-z0-9-_]{33}";

pub struct Security;

/// Whether a search found anything.
pub open spec fn found_any(found: Option<Seq<Seq<Option<Seq<char>>>>>) -> bool {
    match found {
        Some(list) => list.len() > 0,
        None => false,
    }
}

impl Security {
    /// Whether a staged change holds an API key.
    pub fn holds_api_key(diff: &str) -> (out: bool)
        ensures
            out == found_any(regex_matches(API_KEY_PATTERN@, diff@)),
    {
        match captures(API_KEY_PATTERN, diff) {
            Some(found) => found.len() > 0,
            None => false,
        }
    }
}

} // verus!
