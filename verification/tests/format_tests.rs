use odebug::render_entry;

const SEP: &str = "-----------------------------------------------------------";

#[test]
fn render_bare_entry_is_blank_line_content_newline() {
    let r = render_entry("X", None, None);
    assert_eq!(r, "\nX\n");
}

#[test]
fn render_header_only_frames_label_between_separators() {
    let r = render_entry("X", Some("H"), None);
    let expected = format!("\n{SEP}\n> H\n{SEP}\nX\n");
    assert_eq!(r, expected);
}

#[test]
fn render_context_only_uses_at_label() {
    let r = render_entry("X", None, Some("a.rs:10"));
    let expected = format!("\n{SEP}\n> [at a.rs:10]\n{SEP}\nX\n");
    assert_eq!(r, expected);
}

#[test]
fn render_header_and_context_parenthesizes_context() {
    let r = render_entry("Something happened", Some("INFO"), Some("main.rs:42"));
    let expected = format!("\n{SEP}\n> INFO (main.rs:42)\n{SEP}\nSomething happened\n");
    assert_eq!(r, expected);
}

#[test]
fn render_empty_content_still_terminates_with_newline() {
    let r = render_entry("", None, None);
    assert_eq!(r, "\n\n");
}
