use chat_gateway::escape::url_escape;
use chat_gateway::text::{chars_of, contains, join_with_newlines, text_eq};

#[test]
fn text_eq_compares_every_byte() {
    assert!(text_eq("secret", "secret"));
    assert!(text_eq("", ""));
    assert!(!text_eq("secret", "secreT"));
    assert!(!text_eq("secret", "secret "));
    assert!(!text_eq("", "x"));
    assert!(text_eq("clé-π", "clé-π"));
    assert!(!text_eq("clé", "cle"));
}

#[test]
fn chars_of_lists_the_characters() {
    assert_eq!(chars_of("aé🙂"), vec!['a', 'é', '🙂']);
    assert_eq!(chars_of(""), Vec::<char>::new());
}

#[test]
fn contains_finds_a_run_anywhere() {
    assert!(contains("gpt4_onlinellm", "_onlinellm"));
    assert!(contains("_onlinellm-gpt4", "_onlinellm"));
    assert!(contains("a_onlinellm_b", "_onlinellm"));
    assert!(contains("modèle_onlinellm", "_onlinellm"));
    assert!(!contains("gpt4", "_onlinellm"));
    assert!(!contains("gpt4_online", "_onlinellm"));
    assert!(!contains("_onlinell", "_onlinellm"));
    assert!(!contains("gpt4_OnlineLLM", "_onlinellm"));
}

#[test]
fn contains_handles_empty_and_long_needles() {
    assert!(contains("", ""));
    assert!(contains("abc", ""));
    assert!(!contains("", "a"));
    assert!(!contains("ab", "abc"));
    assert!(contains("abc", "abc"));
    assert!(contains("aab", "ab"));
}

#[test]
fn join_puts_one_line_feed_between_parts() {
    let parts = vec!["a".to_string(), "b".to_string(), "c".to_string()];
    assert_eq!(join_with_newlines(&parts), "a\nb\nc");
    assert_eq!(join_with_newlines(&Vec::new()), "");
    assert_eq!(join_with_newlines(&vec!["only".to_string()]), "only");
    assert_eq!(join_with_newlines(&vec![String::new(), String::new()]), "\n");
    assert_eq!(join_with_newlines(&vec!["x".to_string(), String::new()]), "x\n");
}

#[test]
fn url_escape_keeps_unreserved_characters() {
    assert_eq!(url_escape("AZaz09-._~"), "AZaz09-._~");
    assert_eq!(url_escape(""), "");
}

#[test]
fn url_escape_encodes_everything_else() {
    assert_eq!(url_escape("capital of France"), "capital%20of%20France");
    assert_eq!(url_escape("a&b=c#d+e/f?g"), "a%26b%3Dc%23d%2Be%2Ff%3Fg");
    assert_eq!(url_escape("100%"), "100%25");
    assert_eq!(url_escape("é"), "%C3%A9");
    assert_eq!(url_escape("🙂"), "%F0%9F%99%82");
    assert_eq!(url_escape("\n\u{7f}\0"), "%0A%7F%00");
    assert_eq!(url_escape("@[`{"), "%40%5B%60%7B");
    assert_eq!(url_escape("/:"), "%2F%3A");
}

#[test]
fn url_escape_yields_only_safe_characters() {
    let escaped = url_escape("who's there? <é> & \"co\" 100% /path;x=1");
    assert!(escaped
        .chars()
        .all(|c| c == '%' || c.is_ascii_alphanumeric() || "-._~".contains(c)));
}
