use zedxa::logging::{
    file_log_config, file_log_config_for, init_logger, log_line, stdout_is_a_pty, stdout_log_line,
    LogLevel, LogSegment, LogStyle, LoggerEvent, LoggerSetup, LoggerStep, MAX_LOG_BYTES,
};

fn text(line: &[LogSegment]) -> String {
    line.iter().map(|segment| segment.text.as_str()).collect()
}

#[test]
fn limit_is_one_mebibyte() {
    assert_eq!(MAX_LOG_BYTES, 1_048_576);
}

#[test]
fn pty_needs_a_terminal_that_is_not_overridden() {
    assert!(stdout_is_a_pty(None, true));
    assert!(!stdout_is_a_pty(Some("1"), true));
    assert!(!stdout_is_a_pty(Some(""), true));
    assert!(!stdout_is_a_pty(None, false));
    assert!(!stdout_is_a_pty(Some(""), false));
}

#[test]
fn terminal_gets_the_log() {
    let event = LoggerEvent::Environment { force_cli_mode: None, terminal: true };
    assert_eq!(
        init_logger(LoggerSetup::Detecting, event),
        (LoggerSetup::Finished, LoggerStep::UseStdout(None))
    );
}

#[test]
fn without_a_terminal_the_file_is_measured() {
    let event = LoggerEvent::Environment { force_cli_mode: Some(String::new()), terminal: true };
    assert_eq!(
        init_logger(LoggerSetup::Detecting, event),
        (LoggerSetup::Measuring, LoggerStep::MeasureLogFile)
    );
}

#[test]
fn only_a_longer_file_is_rotated() {
    let open = (LoggerSetup::Opening, LoggerStep::OpenLogFile);
    assert_eq!(
        init_logger(LoggerSetup::Measuring, LoggerEvent::Measured(Some(1_048_577))),
        (LoggerSetup::Rotating, LoggerStep::RotateLogFile)
    );
    assert_eq!(
        init_logger(LoggerSetup::Measuring, LoggerEvent::Measured(Some(1_048_576))),
        open
    );
    assert_eq!(init_logger(LoggerSetup::Measuring, LoggerEvent::Measured(None)), open);
    assert_eq!(init_logger(LoggerSetup::Rotating, LoggerEvent::Rotated), open);
}

#[test]
fn opened_file_gets_the_log() {
    assert_eq!(
        init_logger(LoggerSetup::Opening, LoggerEvent::Opened(Ok(()))),
        (LoggerSetup::Finished, LoggerStep::UseLogFile)
    );
}

#[test]
fn unopened_file_is_reported_on_the_standard_output() {
    assert_eq!(
        init_logger(LoggerSetup::Opening, LoggerEvent::Opened(Err("denied".to_string()))),
        (
            LoggerSetup::Finished,
            LoggerStep::UseStdout(Some(
                "could not open log file, defaulting to stdout logging: denied".to_string()
            ))
        )
    );
}

#[test]
fn file_config_depends_on_the_machine() {
    let config = file_log_config_for(7200, true);
    assert_eq!(config.level, LogLevel::Info);
    assert!(config.rfc3339_time);
    assert_eq!(config.utc_offset, Some(7200));
    assert_eq!(
        config.ignored_modules,
        vec!["zbus", "blade_graphics::hal::resource", "naga::back::spv::writer"]
    );
    assert!(file_log_config_for(0, false).ignored_modules.is_empty());
}

#[test]
fn offsets_beyond_the_range_are_left_out() {
    assert_eq!(file_log_config_for(93_599, true).utc_offset, Some(93_599));
    assert_eq!(file_log_config_for(93_600, true).utc_offset, None);
    assert_eq!(file_log_config_for(-93_599, true).utc_offset, Some(-93_599));
    assert_eq!(file_log_config_for(-93_600, true).utc_offset, None);
    assert_eq!(file_log_config_for(-12_345, true).utc_offset, Some(-12_345));
    assert_eq!(file_log_config_for(i32::MIN, true).utc_offset, None);
}

#[test]
fn this_machine_has_a_usable_offset() {
    let offset = file_log_config(false).utc_offset.unwrap();
    assert!(-86_400 < offset && offset < 86_400);
}

#[test]
fn line_with_a_module() {
    let line = log_line("2024-09-01T10:20:30+02:00", LogLevel::Info, Some("zed::main"), "hello");
    assert_eq!(text(&line), "[2024-09-01T10:20:30+02:00 INFO  zed::main] hello\n");
    let styles: Vec<LogStyle> = line.iter().map(|segment| segment.style).collect();
    assert_eq!(
        styles,
        vec![
            LogStyle::Subtle,
            LogStyle::Plain,
            LogStyle::Level,
            LogStyle::Plain,
            LogStyle::Subtle,
            LogStyle::Plain
        ]
    );
    assert_eq!(line[0].text, "[");
    assert_eq!(line[2].text, "INFO ");
    assert_eq!(line[4].text, "]");
}

#[test]
fn line_without_a_module() {
    let line = log_line("T", LogLevel::Error, None, "x");
    assert_eq!(line.len(), 5);
    assert_eq!(text(&line), "[T ERROR] x\n");
}

#[test]
fn levels_are_five_wide() {
    for (level, expected) in [
        (LogLevel::Error, "ERROR"),
        (LogLevel::Warn, "WARN "),
        (LogLevel::Info, "INFO "),
        (LogLevel::Debug, "DEBUG"),
        (LogLevel::Trace, "TRACE"),
    ] {
        assert_eq!(log_line("", level, None, "")[2].text, expected);
    }
}

#[test]
fn line_of_this_moment_carries_a_timestamp() {
    let line = stdout_log_line(LogLevel::Warn, Some("m"), "careful");
    let time = line[1].text.strip_suffix(' ').unwrap();
    assert!(chrono::DateTime::parse_from_rfc3339(time).is_ok());
    assert_eq!(time.len(), 25);
    assert_eq!(line[2].text, "WARN ");
    assert_eq!(line[5].text, " careful\n");
}
