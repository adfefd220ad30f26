use simplog::{parse_log_level, Level, SimpleLogger, DEFAULT_LOG_LEVEL};

#[test]
fn lib_no_log_level_arg() {
    assert_eq!(parse_log_level(None), DEFAULT_LOG_LEVEL);
}

#[test]
fn lib_invalid_log_level_arg() {
    assert_eq!(parse_log_level(Some("garbage")), DEFAULT_LOG_LEVEL);
}

#[test]
fn lib_info_log_level_arg() {
    assert_eq!(parse_log_level(Some("INFO")), Level::Info);
}

#[test]
fn lib_error_log_level_arg() {
    assert_eq!(parse_log_level(Some("ERROR")), Level::Error);
}

#[test]
fn lib_parse_debug_log_level_arg() {
    assert_eq!(parse_log_level(Some("DEBUG")), Level::Debug);
    assert_eq!(parse_log_level(Some("debug")), Level::Debug);
}

#[test]
fn lib_init_legacy_no_levels() {
    SimpleLogger::init(None);
}

#[test]
fn lib_init_legacy_debug_level() {
    SimpleLogger::init(Some("DEBUG"));
}

#[test]
fn lib_init_no_level_no_prefix() {
    SimpleLogger::init_prefix(None, false);
}

#[test]
fn simplog_no_log_level_arg() {
    assert_eq!(parse_log_level(None), DEFAULT_LOG_LEVEL);
}

#[test]
fn simplog_invalid_log_level_arg() {
    assert_eq!(parse_log_level(Some("garbage")), DEFAULT_LOG_LEVEL);
}

#[test]
fn simplog_info_log_level_arg() {
    assert_eq!(parse_log_level(Some("INFO")), Level::Info);
}

#[test]
fn simplog_error_log_level_arg() {
    assert_eq!(parse_log_level(Some("ERROR")), Level::Error);
}

#[test]
fn simplog_parse_debug_log_level_arg() {
    assert_eq!(parse_log_level(Some("DEBUG")), Level::Debug);
    assert_eq!(parse_log_level(Some("debug")), Level::Debug);
}

#[test]
fn simplog_init_legacy_no_levels() {
    SimpleLogger::init(None);
}

#[test]
fn simplog_init_legacy_debug_level() {
    SimpleLogger::init(Some("DEBUG"));
}

#[test]
fn simplog_init_no_level_no_prefix() {
    SimpleLogger::init_prefix(None, false);
}

#[test]
fn the_default_level_is_error() {
    assert_eq!(DEFAULT_LOG_LEVEL, Level::Error);
}

#[test]
fn every_name_is_read_in_capitals() {
    assert_eq!(parse_log_level(Some("ERROR")), Level::Error);
    assert_eq!(parse_log_level(Some("WARN")), Level::Warn);
    assert_eq!(parse_log_level(Some("INFO")), Level::Info);
    assert_eq!(parse_log_level(Some("DEBUG")), Level::Debug);
    assert_eq!(parse_log_level(Some("TRACE")), Level::Trace);
}

#[test]
fn every_name_is_read_in_small_letters() {
    assert_eq!(parse_log_level(Some("error")), Level::Error);
    assert_eq!(parse_log_level(Some("warn")), Level::Warn);
    assert_eq!(parse_log_level(Some("info")), Level::Info);
    assert_eq!(parse_log_level(Some("debug")), Level::Debug);
    assert_eq!(parse_log_level(Some("trace")), Level::Trace);
}

#[test]
fn every_name_is_read_in_mixed_case() {
    assert_eq!(parse_log_level(Some("eRrOr")), Level::Error);
    assert_eq!(parse_log_level(Some("Warn")), Level::Warn);
    assert_eq!(parse_log_level(Some("iNFO")), Level::Info);
    assert_eq!(parse_log_level(Some("dEbUg")), Level::Debug);
    assert_eq!(parse_log_level(Some("TracE")), Level::Trace);
}

#[test]
fn the_empty_text_is_read_as_the_default() {
    assert_eq!(parse_log_level(Some("")), Level::Error);
}

#[test]
fn off_is_no_level() {
    assert_eq!(parse_log_level(Some("OFF")), Level::Error);
    assert_eq!(parse_log_level(Some("off")), Level::Error);
}

#[test]
fn a_name_with_more_or_less_around_it_is_no_level() {
    assert_eq!(parse_log_level(Some(" info")), Level::Error);
    assert_eq!(parse_log_level(Some("info ")), Level::Error);
    assert_eq!(parse_log_level(Some("inf")), Level::Error);
    assert_eq!(parse_log_level(Some("infos")), Level::Error);
    assert_eq!(parse_log_level(Some("warning")), Level::Error);
    assert_eq!(parse_log_level(Some("3")), Level::Error);
    assert_eq!(parse_log_level(Some("debug\n")), Level::Error);
}

#[test]
fn letters_outside_ascii_are_not_folded() {
    // U+0130 and U+0131 are the dotted capital and the dotless small i.
    assert_eq!(parse_log_level(Some("\u{130}NFO")), Level::Error);
    assert_eq!(parse_log_level(Some("\u{131}nfo")), Level::Error);
    // U+212A is the Kelvin sign, which Unicode folds to k.
    assert_eq!(parse_log_level(Some("DEBU\u{212a}")), Level::Error);
    // Full-width letters.
    assert_eq!(parse_log_level(Some("\u{ff29}\u{ff2e}\u{ff26}\u{ff2f}")), Level::Error);
}

#[test]
fn ordinals_follow_the_severity() {
    assert_eq!(Level::Error.ordinal(), 1);
    assert_eq!(Level::Warn.ordinal(), 2);
    assert_eq!(Level::Info.ordinal(), 3);
    assert_eq!(Level::Debug.ordinal(), 4);
    assert_eq!(Level::Trace.ordinal(), 5);
}

#[test]
fn levels_compare_by_severity() {
    let all = [Level::Error, Level::Warn, Level::Info, Level::Debug, Level::Trace];
    for (i, a) in all.iter().enumerate() {
        for (j, b) in all.iter().enumerate() {
            assert_eq!(a < b, i < j);
            assert_eq!(a <= b, i <= j);
            assert_eq!(a > b, i > j);
            assert_eq!(a >= b, i >= j);
            assert_eq!(a == b, i == j);
        }
    }
    assert!(Level::Error < Level::Warn);
    assert!(Level::Warn < Level::Info);
    assert!(Level::Info < Level::Debug);
    assert!(Level::Debug < Level::Trace);
}
