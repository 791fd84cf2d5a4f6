use chat_gateway::search::{
    extract_snippets, keep_leading, relevant_text, search_results, search_url, select_snippets,
    SearchError, MAX_SNIPPETS, SEARCH_ADDRESS, SNIPPET_SELECTOR,
};

fn page(snippets: &[&str]) -> String {
    let mut html = String::from("<html><head><title>results</title></head><body>");
    for snippet in snippets {
        html.push_str("<div class=\"result\"><h2>title</h2><a class=\"result__snippet\" href=\"#\">");
        html.push_str(snippet);
        html.push_str("</a></div>");
    }
    html.push_str("</body></html>");
    html
}

fn strings(items: &[&str]) -> Vec<String> {
    items.iter().map(|s| s.to_string()).collect()
}

#[test]
fn constants_have_their_values() {
    assert_eq!(MAX_SNIPPETS, 5);
    assert_eq!(SNIPPET_SELECTOR, ".result__snippet");
    assert_eq!(SEARCH_ADDRESS, "https://html.duckduckgo.com/html/?q=");
}

#[test]
fn search_url_embeds_the_escaped_query() {
    assert_eq!(
        search_url("capital of France"),
        "https://html.duckduckgo.com/html/?q=capital%20of%20France"
    );
    assert_eq!(search_url(""), "https://html.duckduckgo.com/html/?q=");
    assert_eq!(
        search_url("a&q=b"),
        "https://html.duckduckgo.com/html/?q=a%26q%3Db"
    );
}

#[test]
fn keep_leading_keeps_at_most_five_in_order() {
    assert_eq!(keep_leading(Vec::new()), Vec::<String>::new());
    assert_eq!(keep_leading(strings(&["a", "b"])), strings(&["a", "b"]));
    assert_eq!(
        keep_leading(strings(&["1", "2", "3", "4", "5"])),
        strings(&["1", "2", "3", "4", "5"])
    );
    assert_eq!(
        keep_leading(strings(&["1", "2", "3", "4", "5", "6", "7"])),
        strings(&["1", "2", "3", "4", "5"])
    );
}

#[test]
fn extract_snippets_reads_matching_elements_in_order() {
    let html = page(&["Paris is the capital of France.", "France is in Europe."]);
    assert_eq!(
        extract_snippets(&html),
        Ok(strings(&["Paris is the capital of France.", "France is in Europe."]))
    );
}

#[test]
fn extract_snippets_flattens_nested_text() {
    let html = page(&["Paris is the <b>capital</b> of <i>France</i>.", "a &amp; b"]);
    assert_eq!(
        extract_snippets(&html),
        Ok(strings(&["Paris is the capital of France.", "a & b"]))
    );
}

#[test]
fn extract_snippets_stops_at_five() {
    let html = page(&["s1", "s2", "s3", "s4", "s5", "s6", "s7"]);
    assert_eq!(extract_snippets(&html), Ok(strings(&["s1", "s2", "s3", "s4", "s5"])));
}

#[test]
fn extract_snippets_is_empty_without_matches() {
    assert_eq!(extract_snippets("<html><body><p>nothing</p></body></html>"), Ok(Vec::new()));
    assert_eq!(extract_snippets(""), Ok(Vec::new()));
    assert_eq!(extract_snippets("this is not html at all"), Ok(Vec::new()));
    assert_eq!(
        extract_snippets("<p class=\"result__snippets\">near miss</p>"),
        Ok(Vec::new())
    );
}

#[test]
fn search_results_passes_a_failure_on() {
    assert_eq!(search_results(Err(SearchError::Transport)), Err(SearchError::Transport));
    assert_eq!(search_results(Err(SearchError::Parse)), Err(SearchError::Parse));
    assert_eq!(search_results(Ok(page(&["one"]))), Ok(strings(&["one"])));
}

#[test]
fn relevant_text_joins_or_is_empty() {
    assert_eq!(relevant_text(&Ok(strings(&["a", "b"]))), "a\nb");
    assert_eq!(relevant_text(&Ok(Vec::new())), "");
    assert_eq!(relevant_text(&Err(SearchError::Transport)), "");
    assert_eq!(relevant_text(&Err(SearchError::Parse)), "");
}

#[test]
fn select_snippets_reads_what_the_selector_matches() {
    let html = "<ul><li class=\"x\">one</li><li>two</li><li class=\"x y\">three</li></ul>";
    assert_eq!(select_snippets(html, ".x"), Ok(strings(&["one", "three"])));
    assert_eq!(select_snippets(html, "li"), Ok(strings(&["one", "two", "three"])));
    assert_eq!(select_snippets(html, "li.y, li:first-child"), Ok(strings(&["one", "three"])));
    assert_eq!(select_snippets(html, "p"), Ok(Vec::new()));
    assert_eq!(
        select_snippets(&page(&["a", "b"]), SNIPPET_SELECTOR),
        extract_snippets(&page(&["a", "b"]))
    );
}

#[test]
fn select_snippets_refuses_a_bad_selector() {
    assert_eq!(select_snippets("<p>text</p>", "##"), Err(SearchError::Parse));
    assert_eq!(select_snippets("<p>text</p>", ""), Err(SearchError::Parse));
    assert_eq!(select_snippets("", "p >"), Err(SearchError::Parse));
}
