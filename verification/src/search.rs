//! The web-search tool's data model and request construction.
//!
//! Search itself is a single outbound call to a third-party search API and
//! lives with the embedding application; this module fixes what that call
//! asks for (result count, which content fields) and the shape of what
//! comes back.

use vstd::prelude::*;

verus! {

/// How many results one search asks the provider for.
pub const NUM_RESULTS: u8 = 3;

/// A search invocation as the tool caller states it.
pub struct Input {
    /// The natural language query to search for.
    pub query: String,
    /// If given, results come only from these domains.
    pub include_domains: Option<Vec<String>>,
}

/// Which content fields the provider is asked to return.
pub struct Contents {
    pub text: bool,
    pub summary: bool,
}

/// The request body sent to the search provider.
pub struct Request {
    pub query: String,
    pub include_domains: Option<Vec<String>>,
    pub num_results: u8,
    pub contents: Contents,
}

/// One result as the provider returns it, consumed as-is.
pub struct SearchResult {
    pub title: String,
    pub url: String,
    pub summary: String,
}

/// Build the provider request for a query: exactly `NUM_RESULTS` results,
/// summaries requested, full text not.
pub fn build_request(input: Input) -> (r: Request)
    ensures
        r.query == input.query,
        r.include_domains == input.include_domains,
        r.num_results == NUM_RESULTS,
        r.contents.summary == true,
        r.contents.text == false,
{
    let Input { query, include_domains } = input;
    Request {
        query,
        include_domains,
        num_results: NUM_RESULTS,
        contents: Contents { summary: true, text: false },
    }
}

} // verus!
