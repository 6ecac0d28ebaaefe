use sharpi::endpoint::completion_endpoint;

#[test]
fn a_plain_base_gets_the_completions_path() {
    assert_eq!(
        completion_endpoint("https://api.x.com/v1"),
        "https://api.x.com/v1/chat/completions"
    );
}

#[test]
fn a_base_that_names_the_path_is_left_unchanged() {
    assert_eq!(
        completion_endpoint("https://api.x.com/v1/chat/completions/"),
        "https://api.x.com/v1/chat/completions/"
    );
    assert_eq!(completion_endpoint("chat/completions/"), "chat/completions/");
}

#[test]
fn a_base_with_a_separator_gets_no_second_one() {
    assert_eq!(
        completion_endpoint("https://api.x.com/v1/"),
        "https://api.x.com/v1/chat/completions"
    );
}

#[test]
fn repeated_separators_become_one() {
    assert_eq!(
        completion_endpoint("https://api.x.com/v1///"),
        "https://api.x.com/v1/chat/completions"
    );
    assert_eq!(
        completion_endpoint("https://api.x.com/v1/chat/completions//"),
        "https://api.x.com/v1/chat/completions/"
    );
}

#[test]
fn a_base_that_ends_with_the_path_gets_only_the_separator() {
    assert_eq!(
        completion_endpoint("https://api.x.com/v1/chat/completions"),
        "https://api.x.com/v1/chat/completions/"
    );
}

#[test]
fn normalizing_settles_after_the_second_time() {
    let once = completion_endpoint("https://api.x.com/v1");
    let twice = completion_endpoint(&once);
    let thrice = completion_endpoint(&twice);
    assert_eq!(twice, "https://api.x.com/v1/chat/completions/");
    assert_eq!(thrice, twice);
}

#[test]
fn an_empty_base_gives_the_rooted_path() {
    assert_eq!(completion_endpoint(""), "/chat/completions");
    assert_eq!(completion_endpoint("/"), "/chat/completions");
}

#[test]
fn a_base_outside_ascii_is_handled_by_characters() {
    assert_eq!(completion_endpoint("https://ä.example/ü/"), "https://ä.example/ü/chat/completions");
}
