use foreign_function_finder::result_set::ResultSet;
use foreign_function_finder::shared_output::split_lines;

fn lines(text: &str) -> Vec<String> {
    split_lines(text)
}

#[test]
fn empty_text_has_no_lines() {
    assert_eq!(lines(""), Vec::<String>::new());
}

#[test]
fn lines_end_at_line_feeds() {
    assert_eq!(lines("open\nclose\nread"), vec!["open", "close", "read"]);
}

#[test]
fn a_final_line_feed_starts_no_line() {
    assert_eq!(lines("open\nclose\n"), vec!["open", "close"]);
    assert_eq!(lines("\n"), vec![""]);
    assert_eq!(lines("\n\n"), vec!["", ""]);
}

#[test]
fn a_carriage_return_before_a_line_feed_is_dropped() {
    assert_eq!(lines("open\r\nclose\r\n"), vec!["open", "close"]);
    assert_eq!(lines("open\r\r\nclose"), vec!["open\r", "close"]);
    assert_eq!(lines("\r\n"), vec![""]);
}

#[test]
fn a_bare_carriage_return_stays() {
    assert_eq!(lines("foo\nbar\n\r\nbaz\r"), vec!["foo", "bar", "", "baz\r"]);
    assert_eq!(lines("one\rtwo"), vec!["one\rtwo"]);
}

#[test]
fn lines_may_hold_any_characters() {
    assert_eq!(lines("größe\n名前\n🦀"), vec!["größe", "名前", "🦀"]);
}

#[test]
fn lines_agree_with_the_standard_library() {
    for text in [
        "",
        "a",
        "a\n",
        "\na",
        "a\r",
        "a\r\n",
        "\r",
        "\r\r\n\r",
        "a\n\nb",
        "a\n\n",
        "é\r\nü\n\n\rz\r",
    ] {
        let expected: Vec<String> = text.lines().map(|l| l.to_string()).collect();
        assert_eq!(lines(text), expected, "{text:?}");
    }
}

#[test]
fn from_text_records_each_line_once() {
    let set = ResultSet::from_text("open\nclose\nopen\nread\nclose");
    assert_eq!(set.names(), &vec!["open", "close", "read"]);
    assert_eq!(set.len(), 3);
}

#[test]
fn from_empty_text_is_the_empty_set() {
    let set = ResultSet::from_text("");
    assert_eq!(set.len(), 0);
    assert_eq!(set.to_text(), "");
}

#[test]
fn to_text_joins_by_line_feeds() {
    let mut set = ResultSet::new();
    assert_eq!(set.to_text(), "");
    set.insert("open".to_string());
    assert_eq!(set.to_text(), "open");
    set.insert("close".to_string());
    set.insert("read".to_string());
    assert_eq!(set.to_text(), "open\nclose\nread");
}

#[test]
fn text_written_is_read_back() {
    let mut set = ResultSet::new();
    for name in ["open", "close", "dlopen", "récv"] {
        set.insert(name.to_string());
    }
    let back = ResultSet::from_text(&set.to_text());
    assert_eq!(back.names(), set.names());
}

#[test]
fn a_final_empty_name_does_not_come_back() {
    let set = ResultSet::from_text("a\n\n");
    assert_eq!(set.names(), &vec!["a", ""]);
    assert_eq!(set.to_text(), "a\n");
    assert_eq!(ResultSet::from_text(&set.to_text()).names(), &vec!["a"]);
}
