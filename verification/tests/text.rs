use wezterm_gui::text::lines;

fn std_lines(s: &str) -> Vec<String> {
    s.lines().map(|l| l.to_string()).collect()
}

#[test]
fn lines_split_like_std() {
    for s in [
        "",
        "a",
        "a\n",
        "a\nb",
        "a\r\nb\r\n",
        "\n",
        "\n\n",
        "a\r",
        "a\rb\n",
        "\r\n",
        "x\r\r\ny",
        "héllo\nwörld",
    ] {
        assert_eq!(lines(s), std_lines(s), "input {:?}", s);
    }
}

#[test]
fn lines_of_empty_text_is_empty() {
    assert!(lines("").is_empty());
}

#[test]
fn trailing_newline_adds_no_empty_line() {
    assert_eq!(lines("one\ntwo\n"), vec!["one".to_string(), "two".to_string()]);
}

#[test]
fn lone_carriage_return_at_end_stays() {
    assert_eq!(lines("one\r"), vec!["one\r".to_string()]);
    assert_eq!(lines("one\r\n"), vec!["one".to_string()]);
}
