use ddns_notify::change_log::{entry_line, last_entry, ChangeLog, NO_ENTRY};

#[test]
fn empty_log_has_the_sentinel_as_last_entry() {
    assert_eq!(NO_ENTRY, "0.0.0.0");
    assert_eq!(last_entry(""), "0.0.0.0");
    assert_eq!(ChangeLog::new().read_last_entry(), "0.0.0.0");
}

#[test]
fn last_entry_is_the_last_line() {
    assert_eq!(last_entry("198.51.100.1\n"), "198.51.100.1");
    assert_eq!(last_entry("198.51.100.1\n198.51.100.7\n"), "198.51.100.7");
    assert_eq!(last_entry("a\nb\nc\n"), "c");
}

#[test]
fn last_line_need_not_be_ended() {
    assert_eq!(last_entry("198.51.100.1"), "198.51.100.1");
    assert_eq!(last_entry("a\nb"), "b");
}

#[test]
fn an_empty_last_line_is_an_entry() {
    assert_eq!(last_entry("\n"), "");
    assert_eq!(last_entry("a\n\n"), "");
}

#[test]
fn carriage_return_before_the_line_feed_is_dropped() {
    assert_eq!(last_entry("a\r\nb\r\n"), "b");
    assert_eq!(last_entry("\r\n"), "");
    assert_eq!(last_entry("b\r\r\n"), "b\r");
}

#[test]
fn carriage_return_at_the_end_of_the_text_is_kept() {
    assert_eq!(last_entry("a\nb\r"), "b\r");
}

#[test]
fn last_entry_agrees_with_std_lines() {
    let samples = [
        "",
        "\n",
        "\r\n",
        "x",
        "x\n",
        "x\r\n",
        "x\r",
        "x\ny",
        "x\n\ny\r\n",
        "x\n\n",
        "1.1.1.1\n2.2.2.2\n3.3.3.3",
        "\u{e9}t\u{e9}\n\u{4e2d}\u{6587}\r\n",
    ];
    for sample in samples {
        let expected = match std::io::BufRead::lines(sample.as_bytes()).last() {
            Some(line) => line.unwrap(),
            None => String::from("0.0.0.0"),
        };
        assert_eq!(last_entry(sample), expected, "{:?}", sample);
    }
}

#[test]
fn entry_line_is_the_value_and_a_line_feed() {
    assert_eq!(entry_line("203.0.113.5"), "203.0.113.5\n");
    assert_eq!(entry_line(""), "\n");
}

#[test]
fn append_then_read_gives_the_value_back() {
    let mut log = ChangeLog::new();
    log.append_entry("203.0.113.5");
    assert_eq!(log.read_last_entry(), "203.0.113.5");
    assert_eq!(log.text, "203.0.113.5\n");
}

#[test]
fn append_adds_one_line_and_keeps_the_others() {
    let mut log = ChangeLog::from_text(String::from("198.51.100.1\n"));
    log.append_entry("198.51.100.7");
    assert_eq!(log.text, "198.51.100.1\n198.51.100.7\n");
    assert_eq!(log.read_last_entry(), "198.51.100.7");
    log.append_entry("203.0.113.5");
    assert_eq!(log.text, "198.51.100.1\n198.51.100.7\n203.0.113.5\n");
    assert_eq!(log.read_last_entry(), "203.0.113.5");
}

#[test]
fn append_to_a_log_whose_last_line_is_open_joins_the_two() {
    let mut log = ChangeLog::from_text(String::from("198.51.100.1"));
    log.append_entry("198.51.100.7");
    assert_eq!(log.read_last_entry(), "198.51.100.1198.51.100.7");
}

#[test]
fn from_text_keeps_the_text() {
    let log = ChangeLog::from_text(String::from("a\nb\n"));
    assert_eq!(log, ChangeLog { text: String::from("a\nb\n") });
    assert_eq!(log.read_last_entry(), "b");
}

#[test]
fn log_file_name() {
    assert_eq!(ddns_notify::change_log::LOG_FILE, "log.txt");
}
