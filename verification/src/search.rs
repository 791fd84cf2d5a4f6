//! Search enrichment: the address of a search, and the snippets read from its result page.

use vstd::prelude::*;
use vstd::string::StringExecFns;
use scraper::Html;
use scraper::Selector;
use crate::escape::{escaped_text, url_escape};
use crate::text::{join_lines, join_with_newlines, views_of};

verus! {

/// The address of the search engine's result page, up to the query value.
pub const SEARCH_ADDRESS: &'static str = "https://html.duckduckgo.com/html/?q=";

/// The CSS selector of the elements that hold a result's snippet.
pub const SNIPPET_SELECTOR: &'static str = ".result__snippet";

/// The largest number of snippets that one search contributes.
pub const MAX_SNIPPETS: usize = 5;

/// Why a search gave no result.
#[derive(Clone, Copy, Debug, PartialEq, Eq, Structural)]
pub enum SearchError {
    /// The result page could not be fetched.
    Transport,
    /// The result page could not be read.
    Parse,
}

/// The text content of each element of the HTML `document` that matches the CSS `selector`,
/// in the order in which `scraper` yields the elements; nothing where `selector` is not a
/// CSS selector.
pub uninterp spec fn selected_texts(
    document: Seq<char>,
    selector: Seq<char>,
) -> Option<Seq<Seq<char>>>;

/// The views of found texts.
pub open spec fn found_view(found: Option<Vec<String>>) -> Option<Seq<Seq<char>>> {
    match found {
        Some(texts) => Some(views_of(texts@)),
        None => None,
    }
}

/// The views of a search's results.
pub open spec fn results_view(
    results: Result<Vec<String>, SearchError>,
) -> Result<Seq<Seq<char>>, SearchError> {
    match results {
        Ok(snippets) => Ok(views_of(snippets@)),
        Err(e) => Err(e),
    }
}

/// The view of a fetched page.
pub open spec fn fetched_view(
    fetched: Result<String, SearchError>,
) -> Result<Seq<char>, SearchError> {
    match fetched {
        Ok(document) => Ok(document@),
        Err(e) => Err(e),
    }
}

/// Parses `selector` with `scraper::Selector::parse` and `document` with
/// `scraper::Html::parse_document`, walks `scraper::Html::select`, and collects the pieces of
/// `scraper::ElementRef::text` of each match into one string. The contract only names the
/// outcome: it is a function of the two texts.
#[verifier::external_body]
fn select_texts(document: &str, selector: &str) -> (found: Option<Vec<String>>)
    ensures
        found_view(found) == selected_texts(document@, selector@),
{
    let parsed = Selector::parse(selector).ok()?;
    let html = Html::parse_document(document);
    Some(html.select(&parsed).map(|element| element.text().collect::<String>()).collect())
}

/// The address to fetch for a search of `query`.
pub open spec fn search_address(query: Seq<char>) -> Seq<char> {
    SEARCH_ADDRESS@ + escaped_text(query)
}

/// The leading snippets that are kept out of all that were found.
pub open spec fn leading(found: Seq<Seq<char>>) -> Seq<Seq<char>> {
    if found.len() <= MAX_SNIPPETS {
        found
    } else {
        found.take(MAX_SNIPPETS as int)
    }
}

/// The leading texts of the elements of `document` that match `selector`; a parse failure
/// where `selector` cannot be read.
pub open spec fn snippets_matching(
    document: Seq<char>,
    selector: Seq<char>,
) -> Result<Seq<Seq<char>>, SearchError> {
    match selected_texts(document, selector) {
        Some(found) => Ok(leading(found)),
        None => Err(SearchError::Parse),
    }
}

/// The snippets of a result page.
pub open spec fn snippets_in(document: Seq<char>) -> Result<Seq<Seq<char>>, SearchError> {
    snippets_matching(document, SNIPPET_SELECTOR@)
}

/// The results of a search whose page was fetched, or was not.
pub open spec fn results_of(
    fetched: Result<Seq<char>, SearchError>,
) -> Result<Seq<Seq<char>>, SearchError> {
    match fetched {
        Ok(document) => snippets_in(document),
        Err(e) => Err(e),
    }
}

/// The text that a search contributes to the prompt: its snippets, one per line, or nothing
/// where the search failed.
pub open spec fn relevant_info(results: Result<Seq<Seq<char>>, SearchError>) -> Seq<char> {
    match results {
        Ok(snippets) => join_lines(snippets),
        Err(_) => Seq::empty(),
    }
}

/// The address to fetch for a search of `query`.
pub fn search_url(query: &str) -> (url: String)
    ensures
        url@ == search_address(query@),
{
    let mut url = String::from_str(SEARCH_ADDRESS);
    let escaped = url_escape(query);
    url.append(escaped.as_str());
    url
}

/// Keeps the first `MAX_SNIPPETS` of the texts found, in their order.
pub fn keep_leading(found: Vec<String>) -> (kept: Vec<String>)
    ensures
        views_of(kept@) == leading(views_of(found@)),
{
    let mut kept = found;
    kept.truncate(MAX_SNIPPETS);
    assert(views_of(kept@) =~= leading(views_of(found@)));
    kept
}

/// Reads out of `document` the leading texts of the elements that match `selector`.
pub fn select_snippets(
    document: &str,
    selector: &str,
) -> (results: Result<Vec<String>, SearchError>)
    ensures
        results_view(results) == snippets_matching(document@, selector@),
{
    match select_texts(document, selector) {
        Some(found) => Ok(keep_leading(found)),
        None => Err(SearchError::Parse),
    }
}

/// Reads the snippets out of a result page.
pub fn extract_snippets(document: &str) -> (results: Result<Vec<String>, SearchError>)
    ensures
        results_view(results) == snippets_in(document@),
{
    select_snippets(document, SNIPPET_SELECTOR)
}

/// The results of a search, given its fetched page or the reason why there is none.
pub fn search_results(
    fetched: Result<String, SearchError>,
) -> (results: Result<Vec<String>, SearchError>)
    ensures
        results_view(results) == results_of(fetched_view(fetched)),
{
    match fetched {
        Ok(document) => extract_snippets(document.as_str()),
        Err(e) => Err(e),
    }
}

/// The text that a search contributes to the prompt.
pub fn relevant_text(results: &Result<Vec<String>, SearchError>) -> (info: String)
    ensures
        info@ == relevant_info(results_view(*results)),
{
    match results {
        Ok(snippets) => join_with_newlines(snippets),
        Err(_) => String::new(),
    }
}

/// At most `MAX_SNIPPETS` snippets are kept, and they are the first ones found.
pub proof fn lemma_leading_is_bounded_prefix(found: Seq<Seq<char>>)
    ensures
        leading(found).len() <= MAX_SNIPPETS,
        leading(found).len() <= found.len(),
        leading(found) == found.take(leading(found).len() as int),
        found.len() <= MAX_SNIPPETS ==> leading(found) == found,
{
    assert(found.take(found.len() as int) =~= found);
}

/// A search never contributes more than `MAX_SNIPPETS` snippets.
pub proof fn lemma_results_are_bounded(fetched: Result<Seq<char>, SearchError>)
    ensures
        results_of(fetched) is Ok ==> results_of(fetched)->Ok_0.len() <= MAX_SNIPPETS,
        fetched is Err ==> results_of(fetched) == Err::<Seq<Seq<char>>, SearchError>(
            fetched->Err_0,
        ),
{
}

} // verus!
