use craft_cli::stamp::{apply_timestamp, log_line, log_line_with, stamp_text};

#[test]
fn the_epoch_is_written_in_utc() {
    assert_eq!(apply_timestamp("", 0), "1970-01-01 00:00:00.000 ");
}

#[test]
fn milliseconds_are_kept() {
    assert_eq!(apply_timestamp("x", 1_700_000_000_123), "2023-11-14 22:13:20.123 x");
    assert_eq!(apply_timestamp("x", 999), "1970-01-01 00:00:00.999 x");
    assert_eq!(apply_timestamp("x", -1), "1969-12-31 23:59:59.999 x");
}

#[test]
fn an_instant_beyond_the_calendar_has_no_timestamp() {
    assert_eq!(apply_timestamp("x", i64::MAX), "x");
    assert_eq!(apply_timestamp("x", i64::MIN), "x");
}

#[test]
fn a_stamp_stands_before_the_text() {
    assert_eq!(stamp_text("12:00", "go"), "12:00 go");
    assert_eq!(stamp_text("", ""), " ");
}

#[test]
fn text_is_stamped_with_its_instant() {
    assert_eq!(apply_timestamp("go", 0), "1970-01-01 00:00:00.000 go");
    assert_eq!(apply_timestamp("go", i64::MAX), "go");
}

#[test]
fn a_log_entry_is_stamp_trimmed_text_newline() {
    assert_eq!(log_line_with(Some("T"), "  build ok \n"), "T build ok\n");
    assert_eq!(log_line_with(None, "  build ok \n"), "build ok\n");
    assert_eq!(log_line_with(Some("T"), ""), "T \n");
}

#[test]
fn a_log_entry_carries_the_time_of_arrival() {
    assert_eq!(log_line("build ok", 1_700_000_000_123), "2023-11-14 22:13:20.123 build ok\n");
    assert_eq!(log_line(" x ", 0), "1970-01-01 00:00:00.000 x\n");
    assert_eq!(log_line(" x ", i64::MAX), "x\n");
}
