use matrixmail::enroll::{
    default_display_name, normalize_homeserver, prompt_with_default, resolve_homeserver,
    strip_line_end, text_starts_with, Answers, Enrollment,
};

fn answers(homeserver: &str, device: &str, display: &str) -> Answers {
    Answers {
        homeserver: homeserver.to_string(),
        user: "alice".to_string(),
        password: "pw".to_string(),
        device_name: device.to_string(),
        display_name: display.to_string(),
    }
}

#[test]
fn empty_answers_take_every_default() {
    let e = Enrollment::from_answers(answers("", "", ""), Some("myhost".to_string()), "ann");
    assert_eq!(e.homeserver, "https://matrix.org");
    assert_eq!(e.device_name, "myhost");
    assert_eq!(e.display_name, "ann@myhost");
    assert_eq!(e.user, "alice");
    assert_eq!(e.password, "pw");
}

#[test]
fn homeserver_default_alone() {
    let e = Enrollment::from_answers(answers("", "laptop", "Me"), Some("myhost".to_string()), "ann");
    assert_eq!(e.homeserver, "https://matrix.org");
    assert_eq!(e.device_name, "laptop");
    assert_eq!(e.display_name, "Me");
}

#[test]
fn device_name_default_alone() {
    let e = Enrollment::from_answers(answers("example.org", "", "Me"), Some("box".to_string()), "ann");
    assert_eq!(e.homeserver, "https://example.org");
    assert_eq!(e.device_name, "box");
    assert_eq!(e.display_name, "Me");
}

#[test]
fn display_name_default_uses_chosen_device_name() {
    let e = Enrollment::from_answers(answers("https://h.example", "laptop", ""), Some("box".to_string()), "ann");
    assert_eq!(e.homeserver, "https://h.example");
    assert_eq!(e.device_name, "laptop");
    assert_eq!(e.display_name, "ann@laptop");
}

#[test]
fn missing_host_name_gives_empty_device_name() {
    let e = Enrollment::from_answers(answers("", "", ""), None, "ann");
    assert_eq!(e.device_name, "");
    assert_eq!(e.display_name, "ann@");
}

#[test]
fn homeserver_scheme_is_added_only_when_missing() {
    assert_eq!(normalize_homeserver("example.org".to_string()), "https://example.org");
    assert_eq!(normalize_homeserver("http://example.org".to_string()), "http://example.org");
    assert_eq!(normalize_homeserver("https://example.org".to_string()), "https://example.org");
    assert_eq!(normalize_homeserver("httpx.org".to_string()), "https://httpx.org");
    assert_eq!(resolve_homeserver(String::new()), "https://matrix.org");
}

#[test]
fn prefix_check() {
    assert!(text_starts_with("https://a", "https://"));
    assert!(!text_starts_with("http", "https://"));
    assert!(text_starts_with("abc", ""));
}

#[test]
fn line_end_is_stripped_once() {
    assert_eq!(strip_line_end("abc\n"), "abc");
    assert_eq!(strip_line_end("abc"), "abc");
    assert_eq!(strip_line_end("a\n\n"), "a\n");
    assert_eq!(strip_line_end(""), "");
}

#[test]
fn prompts_show_their_default() {
    assert_eq!(prompt_with_default("Homeserver", "matrix.org"), "Homeserver (default: matrix.org): ");
    assert_eq!(default_display_name("bob", "desk"), "bob@desk");
}
