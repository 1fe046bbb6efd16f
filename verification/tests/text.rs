use termview::text::{center, pad, split_lines, truncate};

fn strings(lines: &[&str]) -> Vec<String> {
    lines.iter().map(|line| line.to_string()).collect()
}

#[test]
fn split_lines_of_nothing_is_nothing() {
    assert_eq!(split_lines(""), Vec::<String>::new());
}

#[test]
fn split_lines_drops_the_final_line_feed() {
    assert_eq!(split_lines("a\nb\n"), strings(&["a", "b"]));
    assert_eq!(split_lines("a\nb"), strings(&["a", "b"]));
}

#[test]
fn split_lines_keeps_empty_lines() {
    assert_eq!(split_lines("\n"), strings(&[""]));
    assert_eq!(split_lines("a\n\nb\n\n"), strings(&["a", "", "b", ""]));
}

#[test]
fn split_lines_takes_a_carriage_return_with_a_line_feed_as_one_end() {
    assert_eq!(split_lines("a\r\nb\r\n"), strings(&["a", "b"]));
    assert_eq!(split_lines("\r\n"), strings(&[""]));
    assert_eq!(split_lines("a\r\n\r\nb"), strings(&["a", "", "b"]));
}

#[test]
fn split_lines_ends_a_line_at_a_carriage_return_alone() {
    assert_eq!(split_lines("a\rb"), strings(&["a", "b"]));
    assert_eq!(split_lines("a\rb\n"), strings(&["a", "b"]));
    assert_eq!(split_lines("a\r"), strings(&["a"]));
    assert_eq!(split_lines("\r"), strings(&[""]));
    assert_eq!(split_lines("\r\r"), strings(&["", ""]));
    assert_eq!(split_lines("a\r\r\nb"), strings(&["a", "", "b"]));
    assert_eq!(split_lines("a\n\rb"), strings(&["a", "", "b"]));
}

#[test]
fn split_lines_leaves_no_line_end_in_a_line() {
    let text = "one\rtwo\r\nthree\nfour\r\rfive\n\n\r\nsix";
    let lines = split_lines(text);
    assert_eq!(lines, strings(&["one", "two", "three", "four", "", "five", "", "", "six"]));
    for line in lines {
        assert!(!line.contains('\n') && !line.contains('\r'));
    }
}

#[test]
fn split_lines_agrees_with_the_standard_library_without_lone_carriage_returns() {
    let samples = [
        "",
        "\n",
        "\r\n",
        "one",
        "one\n",
        "one\r\ntwo\nthree\n\nfour",
        "\n\n\n",
        "h\u{e9}llo\nw\u{f6}rld\r\n\u{1f600}",
    ];
    for sample in samples {
        let expected: Vec<String> = sample.lines().map(|line| line.to_string()).collect();
        assert_eq!(split_lines(sample), expected);
    }
}

#[test]
fn truncate_cuts_to_the_width() {
    assert_eq!(truncate("hello", 3), "hel");
    assert_eq!(truncate("hello", 5), "hello");
    assert_eq!(truncate("hello", 9), "hello");
    assert_eq!(truncate("hello", 0), "");
    assert_eq!(truncate("", 4), "");
}

#[test]
fn truncate_counts_characters() {
    assert_eq!(truncate("h\u{e9}llo", 2), "h\u{e9}");
    assert_eq!(truncate("\u{1f600}\u{1f600}\u{1f600}", 1), "\u{1f600}");
}

#[test]
fn pad_appends_spaces() {
    let mut out = String::from("ab");
    pad(&mut out, 3);
    assert_eq!(out, "ab   ");
    pad(&mut out, 0);
    assert_eq!(out, "ab   ");
}

#[test]
fn center_puts_the_odd_space_behind() {
    assert_eq!(center("ab", 6), "  ab  ");
    assert_eq!(center("ab", 7), "  ab   ");
    assert_eq!(center("ab", 3), "ab ");
    assert_eq!(center("", 2), "  ");
}

#[test]
fn center_leaves_a_text_that_fills_the_width() {
    assert_eq!(center("abc", 3), "abc");
    assert_eq!(center("abc", 2), "abc");
    assert_eq!(center("abc", 0), "abc");
}

#[test]
fn center_agrees_with_the_standard_library() {
    for width in 0..12usize {
        assert_eq!(center("hello", width), format!("{:^1$}", "hello", width));
    }
}
