use mas_handlers::location::append_state;
use mas_handlers::location::contains_query;

#[test]
fn state_follows_a_question_mark() {
    let location = append_state("https://acme.example/bye", &Some("xyz".to_string()));
    assert_eq!(location, "https://acme.example/bye?state=xyz");
}

#[test]
fn state_follows_an_existing_query() {
    let location = append_state("https://acme.example/bye?lang=en", &Some("xyz".to_string()));
    assert_eq!(location, "https://acme.example/bye?lang=en&state=xyz");
}

#[test]
fn without_state_the_uri_is_unchanged() {
    assert_eq!(append_state("https://acme.example/bye", &None), "https://acme.example/bye");
    assert_eq!(append_state("", &None), "");
}

#[test]
fn state_is_appended_character_for_character() {
    let state = "a b&c=d%20é/?#".to_string();
    let location = append_state("https://acme.example/bye", &Some(state));
    assert_eq!(location, "https://acme.example/bye?state=a b&c=d%20é/?#");
    assert_eq!(
        append_state("https://acme.example/bye", &Some(String::new())),
        "https://acme.example/bye?state="
    );
}

#[test]
fn a_query_is_told_by_its_question_mark() {
    assert!(contains_query("https://acme.example/bye?"));
    assert!(contains_query("?"));
    assert!(contains_query("https://acme.example/a?b=c"));
    assert!(!contains_query("https://acme.example/a&b=c"));
    assert!(!contains_query(""));
    assert!(!contains_query("é¿"));
}
