use nautilus_common::enums::LogColor;
use nautilus_common::enums::LogFormat;
use nautilus_common::enums::LogLevel;

#[test]
fn test_level_tokens() {
    assert_eq!(LogLevel::Debug.token_str(), "DBG");
    assert_eq!(LogLevel::Info.token_str(), "INF");
    assert_eq!(LogLevel::Warning.token_str(), "WRN");
    assert_eq!(LogLevel::Error.token_str(), "ERR");
    assert_eq!(LogLevel::Critical.token_str(), "CRT");
}

#[test]
fn test_level_order() {
    assert!(LogLevel::Info.ge(LogLevel::Debug));
    assert!(LogLevel::Warning.ge(LogLevel::Warning));
    assert!(!LogLevel::Info.ge(LogLevel::Warning));
    assert!(LogLevel::Critical.ge(LogLevel::Error));
    assert!(!LogLevel::Error.ge(LogLevel::Critical));
}

#[test]
fn test_color_codes() {
    assert_eq!(LogColor::Normal.ansi_str(), "");
    assert_eq!(LogColor::Red.ansi_str(), "\x1b[31m");
    assert_eq!(LogColor::Green.ansi_str(), "\x1b[32m");
    assert_eq!(LogColor::Yellow.ansi_str(), "\x1b[33m");
    assert_eq!(LogColor::Blue.ansi_str(), "\x1b[34m");
    assert_eq!(LogColor::Magenta.ansi_str(), "\x1b[35m");
    assert_eq!(LogColor::Cyan.ansi_str(), "\x1b[36m");
}

#[test]
fn test_format_codes() {
    assert_eq!(LogFormat::Bold.ansi_str(), "\x1b[1m");
    assert_eq!(LogFormat::Endc.ansi_str(), "\x1b[0m");
}
