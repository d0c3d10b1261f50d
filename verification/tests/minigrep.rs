use rust_live::minigrep::{search, Config};

const POEM: &str = "Rust:\nsafe, fast, productive.\nPick three.\nDuct tape.\nTrust me.";

#[test]
fn exact_search_finds_one_line() {
    assert_eq!(search(POEM, "duct", true), vec!["safe, fast, productive."]);
}

#[test]
fn exact_search_respects_case() {
    assert_eq!(search(POEM, "Duct", true), vec!["Duct tape."]);
    assert!(search(POEM, "rUsT", true).is_empty());
}

#[test]
fn lowercase_search_ignores_case() {
    assert_eq!(search(POEM, "rUsT", false), vec!["Rust:", "Trust me."]);
}

#[test]
fn search_keeps_text_order_and_duplicates() {
    let text = "b\na\nb";
    assert_eq!(search(text, "b", true), vec!["b", "b"]);
}

#[test]
fn empty_query_keeps_every_line() {
    assert_eq!(search("one\ntwo\n", "", true), vec!["one", "two"]);
}

#[test]
fn empty_text_has_no_lines() {
    assert!(search("", "", true).is_empty());
}

#[test]
fn crlf_endings_are_removed() {
    assert_eq!(search("a\r\nb\r\n", "", true), vec!["a", "b"]);
}

#[test]
fn lone_carriage_return_at_end_is_kept() {
    assert_eq!(search("a\r", "", true), vec!["a\r"]);
}

#[test]
fn blank_lines_are_lines() {
    assert_eq!(search("\n\n", "", true), vec!["", ""]);
}

#[test]
fn query_spanning_lines_does_not_match() {
    assert!(search("ab\ncd", "b\nc", true).is_empty());
}

#[test]
fn lowercasing_applies_to_non_ascii() {
    assert_eq!(search("ÄPFEL\nBirne", "äpfel", false), vec!["ÄPFEL"]);
    assert!(search("ÄPFEL\nBirne", "äpfel", true).is_empty());
}

#[test]
fn config_needs_three_arguments() {
    let args = vec!["prog".to_string(), "query".to_string()];
    assert_eq!(Config::new(&args, true).err(), Some("invalid program params"));
    let none: Vec<String> = Vec::new();
    assert_eq!(Config::new(&none, false).err(), Some("invalid program params"));
}

#[test]
fn config_takes_query_then_file() {
    let args = vec![
        "prog".to_string(),
        "needle".to_string(),
        "poem.txt".to_string(),
        "extra".to_string(),
    ];
    let c = Config::new(&args, false).ok().unwrap();
    assert_eq!(c.query_str(), "needle");
    assert_eq!(c.filename(), "poem.txt");
    assert!(!c.case_insensitive());
}

#[test]
fn longer_exact_query_keeps_a_subsequence() {
    let text = "rust\ntrust me\nrusty\nbust";
    let short = search(text, "ust", true);
    let long = search(text, "rust", true);
    assert_eq!(short, vec!["rust", "trust me", "rusty", "bust"]);
    assert_eq!(long, vec!["rust", "trust me", "rusty"]);
    let filtered: Vec<&str> = short.into_iter().filter(|l| l.contains("rust")).collect();
    assert_eq!(long, filtered);
}

#[test]
fn lowercasing_search_ignores_ascii_query_case() {
    let q = "RuSt";
    let mixed = search(POEM, q, false);
    assert_eq!(mixed, search(POEM, &q.to_ascii_uppercase(), false));
    assert_eq!(mixed, search(POEM, &q.to_ascii_lowercase(), false));
    assert_eq!(mixed, vec!["Rust:", "Trust me."]);
}

#[test]
fn exact_search_lines_are_among_lowercasing_search_lines() {
    let text = "Rust\nrust\nRUST\nbust";
    let exact = search(text, "rust", true);
    let folded = search(text, "rust", false);
    assert_eq!(exact, vec!["rust"]);
    assert_eq!(folded, vec!["Rust", "rust", "RUST"]);
    let kept: Vec<&str> = folded.into_iter().filter(|l| l.contains("rust")).collect();
    assert_eq!(exact, kept);
}

#[test]
fn lowercasing_search_ignores_ascii_query_case_on_non_ascii_text() {
    let text = "Grüße RUST\nrust für alle\nÄPFEL";
    let q = "RuSt";
    let mixed = search(text, q, false);
    assert_eq!(mixed, vec!["Grüße RUST", "rust für alle"]);
    assert_eq!(mixed, search(text, &q.to_ascii_uppercase(), false));
    assert_eq!(mixed, search(text, &q.to_ascii_lowercase(), false));
}
