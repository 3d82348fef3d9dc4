use nodo_tui::envfile::{
    find, has_prefix, is_space_char, parse_env_lines, stripped, trimmed, DIVIDER, TITLE_MARK,
};

fn lines(list: &[&str]) -> Vec<String> {
    list.iter().map(|line| line.to_string()).collect()
}

fn chars(text: &str) -> Vec<char> {
    text.chars().collect()
}

fn fields(list: &[&str]) -> Vec<(String, String, String, String)> {
    parse_env_lines(&lines(list))
        .into_iter()
        .map(|env| (env.id, env.value, env.info, env.group))
        .collect()
}

fn entry(id: &str, value: &str, info: &str, group: &str) -> (String, String, String, String) {
    (id.to_string(), value.to_string(), info.to_string(), group.to_string())
}

#[test]
fn white_space_is_what_the_standard_library_calls_white_space() {
    let mut code: u32 = 0;
    while code <= 0x10FFFF {
        if let Some(ch) = char::from_u32(code) {
            assert_eq!(is_space_char(ch), ch.is_whitespace(), "U+{:04X}", code);
        }
        code += 1;
    }
}

#[test]
fn trimming_agrees_with_the_standard_library() {
    for text in ["", " ", "a", "  a b\t", "\u{3000}x\u{2003}", "\n\r\n", "no-space", " = # "] {
        assert_eq!(trimmed(&chars(text)), chars(text.trim()), "{:?}", text);
    }
}

#[test]
fn prefix_test_agrees_with_the_standard_library() {
    for (text, prefix) in
        [("# ----", "# ----"), ("# ---", "# ----"), ("# -----x", "# ----"), ("", ""), ("a", ""), ("", "a"), ("#x", "# ")]
    {
        assert_eq!(has_prefix(&chars(text), &chars(prefix)), text.starts_with(prefix));
    }
}

#[test]
fn find_gives_the_first_place_or_the_length() {
    assert_eq!(find(&chars("a=b=c"), '='), 1);
    assert_eq!(find(&chars("=x"), '='), 0);
    assert_eq!(find(&chars("abc"), '='), 3);
    assert_eq!(find(&chars(""), '='), 0);
}

#[test]
fn stripping_agrees_with_the_standard_library() {
    for (text, prefix) in [
        ("# Network", "# "),
        ("# # # x", "# "),
        ("#Network", "# "),
        (" # Network", "# "),
        ("# ", "# "),
        ("abc", ""),
        ("aaab", "a"),
    ] {
        assert_eq!(
            stripped(&chars(text), &chars(prefix)),
            chars(text.trim_start_matches(prefix)),
            "{:?} {:?}",
            text,
            prefix
        );
    }
}

#[test]
fn the_marks_of_the_file() {
    assert_eq!(DIVIDER, "# ----");
    assert_eq!(TITLE_MARK, "# ");
}

#[test]
fn plain_assignments() {
    assert_eq!(
        fields(&["PORT=8080", "HOST = localhost "]),
        vec![entry("PORT", "8080", "", ""), entry("HOST", "localhost", "", "")]
    );
}

#[test]
fn comment_behind_the_value_is_the_info() {
    assert_eq!(
        fields(&["TIMEOUT=30 # seconds to wait", "EMPTY= #nothing", "HASHES=a#b#c"]),
        vec![
            entry("TIMEOUT", "30", "seconds to wait", ""),
            entry("EMPTY", "", "nothing", ""),
            entry("HASHES", "a", "b#c", ""),
        ]
    );
}

#[test]
fn value_may_hold_equal_signs() {
    assert_eq!(fields(&["URL=http://x/?a=b"]), vec![entry("URL", "http://x/?a=b", "", "")]);
}

#[test]
fn blank_lines_comments_and_lines_without_equals_give_nothing() {
    assert_eq!(fields(&["", "   ", "# a comment", "  # indented", "just words", "#A=1"]), vec![]);
}

#[test]
fn divider_and_title_open_a_group() {
    assert_eq!(
        fields(&[
            "FIRST=1",
            "# ------------",
            "# Network",
            "# ------------",
            "",
            "PORT=8080 # listen",
            "HOST=0.0.0.0",
            "# ----",
            "# Storage",
            "PATH=/var/lib",
        ]),
        vec![
            entry("FIRST", "1", "", ""),
            entry("PORT", "8080", "listen", "Network"),
            entry("HOST", "0.0.0.0", "", "Network"),
            entry("PATH", "/var/lib", "", "Storage"),
        ]
    );
}

#[test]
fn closing_divider_takes_the_line_behind_it() {
    assert_eq!(
        fields(&["# ----", "# Group", "# ----", "SWALLOWED=1", "KEPT=2"]),
        vec![entry("KEPT", "2", "", "Group")]
    );
}

#[test]
fn line_behind_a_divider_that_is_no_title_keeps_the_group() {
    assert_eq!(
        fields(&["# ----", "# One", "A=1", "# ----", "B=2", "C=3", "# ----", "#Two", "D=4"]),
        vec![entry("A", "1", "", "One"), entry("C", "3", "", "One"), entry("D", "4", "", "One")]
    );
}

#[test]
fn title_is_stripped_of_every_mark_but_not_of_white_space() {
    assert_eq!(
        fields(&["# ----", "# # Deep  ", "A=1", "  # ----", "  # Indented", "B=2"]),
        vec![entry("A", "1", "", "Deep  "), entry("B", "2", "", "  # Indented")]
    );
}

#[test]
fn divider_as_last_line_ends_the_file() {
    assert_eq!(fields(&["A=1", "# ----"]), vec![entry("A", "1", "", "")]);
    assert_eq!(fields(&[]), vec![]);
}

#[test]
fn key_may_be_empty() {
    assert_eq!(fields(&["=value", " = "]), vec![entry("", "value", "", ""), entry("", "", "", "")]);
}
