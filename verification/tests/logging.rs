use nautilus_common::enums::LogColor;
use nautilus_common::enums::LogLevel;
use nautilus_common::identifiers::TraderId;
use nautilus_common::logging::format_line;
use nautilus_common::logging::Logger;
use nautilus_common::sink::Sink;
use nautilus_common::uuid::UUID4;

fn memory_logger(level_stdout: LogLevel, is_bypassed: bool) -> Logger {
    Logger::with_sinks(
        TraderId::new("TRADER-001"),
        String::from("user-01"),
        UUID4::from_u128(0x1234_5678_9abc_def0),
        level_stdout,
        is_bypassed,
        Sink::memory(),
        Sink::memory(),
    )
}

#[test]
fn test_new_logger() {
    let logger = Logger::new(
        TraderId::new("TRADER-000"),
        String::from("user-01"),
        UUID4::from_u128(7),
        LogLevel::Debug,
        false,
    );

    assert_eq!(logger.trader_id, TraderId::new("TRADER-000"));
    assert_eq!(logger.level_stdout, LogLevel::Debug);
}

#[test]
fn test_logger_debug() {
    let mut logger = Logger::new(
        TraderId::new("TRADER-001"),
        String::from("user-01"),
        UUID4::from_u128(7),
        LogLevel::Info,
        false,
    );

    logger
        .info(
            1650000000000000,
            LogColor::Normal,
            "RiskEngine",
            "This is a test.",
        )
        .expect("Error while logging");
}

#[test]
fn test_info_at_threshold_normal_color_goes_to_stdout() {
    let mut logger = memory_logger(LogLevel::Info, false);
    logger
        .log(
            1_650_000_000_000_000_000,
            LogLevel::Info,
            LogColor::Normal,
            "RiskEngine",
            "This is a test.",
        )
        .expect("log failed");
    let expected =
        "\x1b[1m2022-04-15T05:20:00.000000000Z\x1b[0m [INF] TRADER-001.RiskEngine: This is a test.\x1b[0m\n";
    assert_eq!(logger.stdout_delivered_text().unwrap().as_str(), expected);
    assert_eq!(logger.stderr_delivered_text().unwrap().as_str(), "");
    assert_eq!(logger.stderr_pending_text().unwrap().as_str(), "");
}

#[test]
fn test_error_routed_to_stderr_regardless_of_threshold() {
    let mut logger = memory_logger(LogLevel::Critical, false);
    logger
        .log(
            1_650_000_000_000_000_000,
            LogLevel::Error,
            LogColor::Red,
            "RiskEngine",
            "bad",
        )
        .expect("log failed");
    let expected =
        "\x1b[1m2022-04-15T05:20:00.000000000Z\x1b[0m \x1b[31m[ERR] TRADER-001.RiskEngine: bad\x1b[0m\n";
    assert_eq!(logger.stdout_delivered_text().unwrap().as_str(), "");
    assert_eq!(logger.stdout_pending_text().unwrap().as_str(), "");
    assert_eq!(logger.stderr_delivered_text().unwrap().as_str(), expected);
}

#[test]
fn test_below_threshold_is_suppressed() {
    let mut logger = memory_logger(LogLevel::Warning, false);
    let r = logger.log(
        1_650_000_000_000_000_000,
        LogLevel::Debug,
        LogColor::Normal,
        "RiskEngine",
        "quiet",
    );
    assert!(r.is_ok());
    assert_eq!(logger.stdout_delivered_text().unwrap().as_str(), "");
    assert_eq!(logger.stdout_pending_text().unwrap().as_str(), "");
    assert_eq!(logger.stderr_delivered_text().unwrap().as_str(), "");
    assert_eq!(logger.stderr_pending_text().unwrap().as_str(), "");
}

#[test]
fn test_critical_always_emits_to_stderr() {
    let mut logger = memory_logger(LogLevel::Critical, false);
    logger
        .log(
            0,
            LogLevel::Critical,
            LogColor::Normal,
            "RiskEngine",
            "halt",
        )
        .expect("log failed");
    let text = logger.stderr_delivered_text().unwrap();
    assert!(text.contains("[CRT]"));
    assert!(text.ends_with('\n'));
    assert_eq!(text.matches('\n').count(), 1);
    assert_eq!(logger.stdout_delivered_text().unwrap().as_str(), "");
}

#[test]
fn test_bypass_flag_does_not_suppress() {
    let mut logger = memory_logger(LogLevel::Debug, true);
    assert!(logger.is_bypassed);
    logger
        .log(
            0,
            LogLevel::Info,
            LogColor::Normal,
            "RiskEngine",
            "still here",
        )
        .expect("log failed");
    let text = logger.stdout_delivered_text().unwrap();
    assert!(text.contains("[INF] TRADER-001.RiskEngine: still here"));
    assert_eq!(logger.stderr_delivered_text().unwrap().as_str(), "");
}

#[test]
fn test_emit_then_flush_keeps_line() {
    let mut logger = memory_logger(LogLevel::Info, false);
    logger
        .log(0, LogLevel::Info, LogColor::Normal, "RiskEngine", "kept")
        .expect("log failed");
    logger.flush().expect("flush failed");
    let text = logger.stdout_delivered_text().unwrap();
    assert!(text.contains("[INF] TRADER-001.RiskEngine: kept"));
    assert_eq!(logger.stdout_pending_text().unwrap().as_str(), "");
    assert_eq!(logger.stderr_pending_text().unwrap().as_str(), "");
}

#[test]
fn test_identity_fields_preserved() {
    let logger = memory_logger(LogLevel::Info, false);
    assert_eq!(logger.trader_id.value.as_str(), "TRADER-001");
    assert_eq!(logger.machine_id.as_str(), "user-01");
    assert_eq!(logger.instance_id.value, 0x1234_5678_9abc_def0u128);
}

#[test]
fn test_empty_message_line_shape() {
    let line = format_line(
        0,
        LogLevel::Info,
        LogColor::Normal,
        &TraderId::new("TRADER-001"),
        "RiskEngine",
        "",
    );
    assert!(line.ends_with(": \x1b[0m\n"));
}

#[test]
fn test_message_with_newline_written_verbatim() {
    let mut logger = memory_logger(LogLevel::Info, false);
    logger
        .log(
            0,
            LogLevel::Info,
            LogColor::Normal,
            "RiskEngine",
            "first\nsecond",
        )
        .expect("log failed");
    let text = logger.stdout_delivered_text().unwrap();
    assert!(text.contains("first\nsecond"));
    assert_eq!(text.matches('\n').count(), 2);
}

#[test]
fn test_line_format_structure() {
    let line = format_line(
        1_650_000_000_000_000_000,
        LogLevel::Warning,
        LogColor::Yellow,
        &TraderId::new("TRADER-001"),
        "Throttler",
        "rate limit",
    );
    assert!(line.starts_with("\x1b[1m"));
    assert!(line.contains("\x1b[0m \x1b[33m[WRN] "));
    assert!(line.ends_with("\x1b[0m\n"));
}

#[test]
fn test_line_round_trip() {
    let trader = TraderId::new("TRADER-001");
    let line = format_line(
        1_650_000_000_000_000_000,
        LogLevel::Info,
        LogColor::Green,
        &trader,
        "Portfolio",
        "opened position",
    );
    // Strip the three ANSI escape sequences and the trailing newline, then
    // take the line apart again.
    let stripped = line
        .replace("\x1b[1m", "")
        .replace("\x1b[32m", "")
        .replace("\x1b[0m", "");
    let stripped = stripped.strip_suffix('\n').expect("newline terminator");
    let (ts, rest) = stripped.split_once(' ').expect("timestamp separator");
    assert_eq!(ts, "2022-04-15T05:20:00.000000000Z");
    let rest = rest.strip_prefix("[INF] ").expect("level token");
    let (who, msg) = rest.split_once(": ").expect("message separator");
    assert_eq!(who, "TRADER-001.Portfolio");
    assert_eq!(msg, "opened position");
}

#[test]
fn test_convenience_levels_route_as_log_does() {
    let mut logger = memory_logger(LogLevel::Debug, false);
    logger
        .debug(0, LogColor::Normal, "C", "d")
        .expect("log failed");
    logger.info(0, LogColor::Normal, "C", "i").expect("log failed");
    logger.warn(0, LogColor::Normal, "C", "w").expect("log failed");
    logger.error(0, LogColor::Normal, "C", "e").expect("log failed");
    logger
        .critical(0, LogColor::Normal, "C", "c")
        .expect("log failed");
    let out = logger.stdout_delivered_text().unwrap();
    let err = logger.stderr_delivered_text().unwrap();
    assert!(out.contains("[DBG]") && out.contains("[INF]") && out.contains("[WRN]"));
    assert!(!out.contains("[ERR]") && !out.contains("[CRT]"));
    assert!(err.contains("[ERR]") && err.contains("[CRT]"));
    assert!(!err.contains("[DBG]") && !err.contains("[INF]") && !err.contains("[WRN]"));
    assert_eq!(out.matches('\n').count(), 3);
    assert_eq!(err.matches('\n').count(), 2);
}
