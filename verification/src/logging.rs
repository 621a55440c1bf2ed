//! Where the log goes, and what a line of it looks like.

use vstd::prelude::*;
use vstd::string::*;

verus! {

pub const KIB: u64 = 1024;

pub const MIB: u64 = 1024 * KIB;

/// A log file that is longer than this is moved away before it is opened.
pub const MAX_LOG_BYTES: u64 = MIB;

/// How important a message is.
#[derive(Clone, Copy, PartialEq, Eq, Structural, Debug)]
pub enum LogLevel {
    Error,
    Warn,
    Info,
    Debug,
    Trace,
}

/// How far the choice of a log has come.
#[derive(Clone, Copy, PartialEq, Eq, Structural, Debug)]
pub enum LoggerSetup {
    /// It is being found out whether there is a terminal to log to.
    Detecting,
    /// The length of the log file is being read.
    Measuring,
    /// The log file is being moved away.
    Rotating,
    /// The log file is being opened.
    Opening,
    Finished,
}

/// What came of the last step.
#[derive(Debug, PartialEq, Eq)]
pub enum LoggerEvent {
    /// The value of the environment variable that forces the mode without a
    /// terminal, if it is set to a text, and whether the standard output is a terminal.
    Environment { force_cli_mode: Option<String>, terminal: bool },
    /// The length of the log file, if it could be read.
    Measured(Option<u64>),
    /// The log file was moved away, or could not be.
    Rotated,
    /// The log file was opened, or could not be for the given reason.
    Opened(Result<(), String>),
}

/// What to do next.
#[derive(Debug, PartialEq, Eq)]
pub enum LoggerStep {
    MeasureLogFile,
    /// The log file takes the place of the old one. A failure is ignored.
    RotateLogFile,
    /// The log file is opened for appending, and made if it is not there.
    OpenLogFile,
    /// The log goes to the file, as [`file_log_config`] says.
    UseLogFile,
    /// The log goes to the standard output. The message, if any, is logged as an error.
    UseStdout(Option<String>),
}

pub enum LoggerEventView {
    Environment { force_cli_mode: Option<Seq<char>>, terminal: bool },
    Measured(Option<u64>),
    Rotated,
    Opened(Result<(), Seq<char>>),
}

pub enum LoggerStepView {
    MeasureLogFile,
    RotateLogFile,
    OpenLogFile,
    UseLogFile,
    UseStdout(Option<Seq<char>>),
}

impl View for LoggerEvent {
    type V = LoggerEventView;

    open spec fn view(&self) -> LoggerEventView {
        match self {
            LoggerEvent::Environment { force_cli_mode: None, terminal } => {
                LoggerEventView::Environment { force_cli_mode: None, terminal: *terminal }
            },
            LoggerEvent::Environment { force_cli_mode: Some(value), terminal } => {
                LoggerEventView::Environment { force_cli_mode: Some(value@), terminal: *terminal }
            },
            LoggerEvent::Measured(length) => LoggerEventView::Measured(*length),
            LoggerEvent::Rotated => LoggerEventView::Rotated,
            LoggerEvent::Opened(Ok(_)) => LoggerEventView::Opened(Ok(())),
            LoggerEvent::Opened(Err(error)) => LoggerEventView::Opened(Err(error@)),
        }
    }
}

impl View for LoggerStep {
    type V = LoggerStepView;

    open spec fn view(&self) -> LoggerStepView {
        match self {
            LoggerStep::MeasureLogFile => LoggerStepView::MeasureLogFile,
            LoggerStep::RotateLogFile => LoggerStepView::RotateLogFile,
            LoggerStep::OpenLogFile => LoggerStepView::OpenLogFile,
            LoggerStep::UseLogFile => LoggerStepView::UseLogFile,
            LoggerStep::UseStdout(None) => LoggerStepView::UseStdout(None),
            LoggerStep::UseStdout(Some(message)) => LoggerStepView::UseStdout(Some(message@)),
        }
    }
}

/// The standard output is taken for a terminal that a user looks at. The variable
/// that forces the other mode rules that out by being set, whatever its value.
pub open spec fn is_pty(force_cli_mode: Option<Seq<char>>, terminal: bool) -> bool {
    force_cli_mode is None && terminal
}

/// The log file has grown too long. One whose length is not known has not.
pub open spec fn is_too_long(length: Option<u64>) -> bool {
    length matches Some(length) && length > MAX_LOG_BYTES
}

/// What is logged where the log file could not be opened.
pub open spec fn open_failure(error: Seq<char>) -> Seq<char> {
    "could not open log file, defaulting to stdout logging: "@ + error
}

/// An event answers what the setup is waiting for.
pub open spec fn answers(setup: LoggerSetup, event: LoggerEventView) -> bool {
    match setup {
        LoggerSetup::Detecting => event is Environment,
        LoggerSetup::Measuring => event is Measured,
        LoggerSetup::Rotating => event is Rotated,
        LoggerSetup::Opening => event is Opened,
        LoggerSetup::Finished => false,
    }
}

/// The state and the step that follow `event`.
pub open spec fn next(setup: LoggerSetup, event: LoggerEventView) -> (LoggerSetup, LoggerStepView) {
    match event {
        LoggerEventView::Environment { force_cli_mode, terminal } => if is_pty(
            force_cli_mode,
            terminal,
        ) {
            (LoggerSetup::Finished, LoggerStepView::UseStdout(None))
        } else {
            (LoggerSetup::Measuring, LoggerStepView::MeasureLogFile)
        },
        LoggerEventView::Measured(length) => if is_too_long(length) {
            (LoggerSetup::Rotating, LoggerStepView::RotateLogFile)
        } else {
            (LoggerSetup::Opening, LoggerStepView::OpenLogFile)
        },
        LoggerEventView::Rotated => (LoggerSetup::Opening, LoggerStepView::OpenLogFile),
        LoggerEventView::Opened(Ok(_)) => (LoggerSetup::Finished, LoggerStepView::UseLogFile),
        LoggerEventView::Opened(Err(error)) => (
            LoggerSetup::Finished,
            LoggerStepView::UseStdout(Some(open_failure(error))),
        ),
    }
}

/// Whether the standard output is a terminal that a user looks at, given the value
/// of the environment variable that forces the mode without one, if it is set to a
/// text, and whether the standard output is a terminal at all.
pub fn stdout_is_a_pty(force_cli_mode: Option<&str>, terminal: bool) -> (pty: bool)
    ensures
        pty == is_pty(text_of(force_cli_mode), terminal),
        pty <==> force_cli_mode is None && terminal,
{
    force_cli_mode.is_none() && terminal
}

/// Takes what came of the last step and gives the next one. The first state is
/// [`LoggerSetup::Detecting`].
pub fn init_logger(setup: LoggerSetup, event: LoggerEvent) -> (stepped: (LoggerSetup, LoggerStep))
    requires
        answers(setup, event@),
    ensures
        (stepped.0, stepped.1@) == next(setup, event@),
{
    match event {
        LoggerEvent::Environment { force_cli_mode, terminal } => {
            let force_cli_mode = match &force_cli_mode {
                Some(value) => Some(value.as_str()),
                None => None,
            };
            if stdout_is_a_pty(force_cli_mode, terminal) {
                (LoggerSetup::Finished, LoggerStep::UseStdout(None))
            } else {
                (LoggerSetup::Measuring, LoggerStep::MeasureLogFile)
            }
        },
        LoggerEvent::Measured(Some(length)) if length > MAX_LOG_BYTES => {
            (LoggerSetup::Rotating, LoggerStep::RotateLogFile)
        },
        LoggerEvent::Measured(_) | LoggerEvent::Rotated => {
            (LoggerSetup::Opening, LoggerStep::OpenLogFile)
        },
        LoggerEvent::Opened(Ok(_)) => (LoggerSetup::Finished, LoggerStep::UseLogFile),
        LoggerEvent::Opened(Err(error)) => {
            let message = "could not open log file, defaulting to stdout logging: ".to_owned();
            let message = message.concat(error.as_str());
            (LoggerSetup::Finished, LoggerStep::UseStdout(Some(message)))
        },
    }
}

/// How the log file is written.
#[derive(Debug, PartialEq, Eq)]
pub struct FileLogConfig {
    /// Messages below this level are left out.
    pub level: LogLevel,
    /// Times are written as RFC 3339 has them.
    pub rfc3339_time: bool,
    /// The offset of the written times from UTC, in seconds; without one they are in UTC.
    pub utc_offset: Option<i32>,
    /// Modules whose messages are left out.
    pub ignored_modules: Vec<String>,
}

pub struct FileLogConfigView {
    pub level: LogLevel,
    pub rfc3339_time: bool,
    pub utc_offset: Option<i32>,
    pub ignored_modules: Seq<Seq<char>>,
}

impl View for FileLogConfig {
    type V = FileLogConfigView;

    open spec fn view(&self) -> FileLogConfigView {
        FileLogConfigView {
            level: self.level,
            rfc3339_time: self.rfc3339_time,
            utc_offset: self.utc_offset,
            ignored_modules: self.ignored_modules@.map_values(|module: String| module@),
        }
    }
}

/// The greatest distance from UTC that a time offset can have, in seconds: 25
/// hours, 59 minutes and 59 seconds.
pub const MAX_OFFSET_SECONDS: i32 = 93_599;

/// The offset that is used for a local time that is `seconds` ahead of UTC: none
/// if that is too far.
pub open spec fn usable_offset(seconds: i32) -> Option<i32> {
    if -MAX_OFFSET_SECONDS <= seconds <= MAX_OFFSET_SECONDS {
        Some(seconds)
    } else {
        None
    }
}

/// The modules of the windowing toolkit on Linux that say too much.
pub open spec fn noisy_modules(linux: bool) -> Seq<Seq<char>> {
    if linux {
        seq!["zbus"@, "blade_graphics::hal::resource"@, "naga::back::spv::writer"@]
    } else {
        Seq::empty()
    }
}

/// How the log file is written where local time is `local_offset` seconds ahead of UTC.
pub open spec fn config_for(local_offset: i32, linux: bool) -> FileLogConfigView {
    FileLogConfigView {
        level: LogLevel::Info,
        rfc3339_time: true,
        utc_offset: usable_offset(local_offset),
        ignored_modules: noisy_modules(linux),
    }
}

/// Calls `time::UtcOffset::from_whole_seconds` and gives the seconds of the offset
/// that it made by `UtcOffset::whole_seconds`. It makes an offset of just so many
/// seconds where they are no more than 25:59:59 in either direction, and an error,
/// here `None`, where they are more.
#[verifier::external_body]
fn whole_second_offset(seconds: i32) -> (offset: Option<i32>)
    ensures
        offset == usable_offset(seconds),
{
    match time::UtcOffset::from_whole_seconds(seconds) {
        Ok(offset) => Some(offset.whole_seconds()),
        Err(_) => None,
    }
}

/// Calls `chrono::Local::now` and gives the seconds that local time is ahead of
/// UTC, by `FixedOffset::local_minus_utc`. They depend on the time zone of the
/// machine and the time of the year; claimed is only that they are less than a
/// day in either direction, as those of a `FixedOffset` always are. `Local::now`
/// panics where the clock stands before 1970, and where the time zone of the
/// machine gives no usable offset.
#[verifier::external_body]
fn local_minus_utc() -> (seconds: i32)
    ensures
        -86_400 < seconds < 86_400,
{
    chrono::Offset::fix(chrono::Local::now().offset()).local_minus_utc()
}

/// Gives how the log file is written, from what was found out of the machine.
pub fn file_log_config_for(local_offset: i32, linux: bool) -> (config: FileLogConfig)
    ensures
        config@ == config_for(local_offset, linux),
        config.level == LogLevel::Info,
        config.rfc3339_time,
        !linux ==> config.ignored_modules@.len() == 0,
        config.utc_offset matches Some(seconds) ==> seconds == local_offset,
        -93_599 <= local_offset <= 93_599 ==> config.utc_offset is Some,
{
    let mut ignored_modules: Vec<String> = Vec::new();
    if linux {
        ignored_modules.push("zbus".to_owned());
        ignored_modules.push("blade_graphics::hal::resource".to_owned());
        ignored_modules.push("naga::back::spv::writer".to_owned());
    }
    assert(ignored_modules@.map_values(|module: String| module@) =~= noisy_modules(linux));
    FileLogConfig {
        level: LogLevel::Info,
        rfc3339_time: true,
        utc_offset: whole_second_offset(local_offset),
        ignored_modules,
    }
}

/// Gives how the log file is written on this machine. Its times always carry the
/// offset of local time, since no time zone is a whole day from UTC.
pub fn file_log_config(linux: bool) -> (config: FileLogConfig)
    ensures
        config.utc_offset matches Some(seconds) && -86_400 < seconds < 86_400 && config@
            == config_for(seconds, linux),
        config.level == LogLevel::Info,
        config.rfc3339_time,
{
    let local_offset: i32 = local_minus_utc();
    file_log_config_for(local_offset, linux)
}

/// How a part of a line on the terminal is shown.
#[derive(Clone, Copy, PartialEq, Eq, Structural, Debug)]
pub enum LogStyle {
    Plain,
    /// Bright black.
    Subtle,
    /// As the level of the message is shown.
    Level,
}

/// A part of a line on the terminal. What its style turns on ends with it.
#[derive(Debug, PartialEq, Eq)]
pub struct LogSegment {
    pub style: LogStyle,
    pub text: String,
}

impl View for LogSegment {
    type V = (LogStyle, Seq<char>);

    open spec fn view(&self) -> (LogStyle, Seq<char>) {
        (self.style, self.text@)
    }
}

pub open spec fn level_name(level: LogLevel) -> Seq<char> {
    match level {
        LogLevel::Error => "ERROR"@,
        LogLevel::Warn => "WARN"@,
        LogLevel::Info => "INFO"@,
        LogLevel::Debug => "DEBUG"@,
        LogLevel::Trace => "TRACE"@,
    }
}

/// A text filled up with spaces on the right to the given width.
pub open spec fn padded(text: Seq<char>, width: nat) -> Seq<char> {
    if text.len() < width {
        text + Seq::new((width - text.len()) as nat, |i: int| ' ')
    } else {
        text
    }
}

/// The view of a text that may be missing.
pub open spec fn text_of(text: Option<&str>) -> Option<Seq<char>> {
    match text {
        Some(text) => Some(text@),
        None => None,
    }
}

/// The module of a message as it stands in the line: nothing if there is none.
pub open spec fn origin_part(origin: Option<Seq<char>>) -> Seq<char> {
    match origin {
        Some(path) => " "@ + path,
        None => Seq::empty(),
    }
}

/// The parts of a line on the terminal.
pub open spec fn line_segments(
    timestamp: Seq<char>,
    level: LogLevel,
    origin: Option<Seq<char>>,
    message: Seq<char>,
) -> Seq<(LogStyle, Seq<char>)> {
    let module = match origin {
        Some(_) => seq![(LogStyle::Plain, origin_part(origin))],
        None => Seq::empty(),
    };
    seq![
        (LogStyle::Subtle, "["@),
        (LogStyle::Plain, timestamp + " "@),
        (LogStyle::Level, padded(level_name(level), 5)),
    ] + module + seq![(LogStyle::Subtle, "]"@), (LogStyle::Plain, " "@ + message + "\n"@)]
}

fn padded_level(level: LogLevel) -> (text: String)
    ensures
        text@ == padded(level_name(level), 5),
{
    proof {
        reveal_strlit("ERROR");
        reveal_strlit("WARN");
        reveal_strlit("WARN ");
        reveal_strlit("INFO");
        reveal_strlit("INFO ");
        reveal_strlit("DEBUG");
        reveal_strlit("TRACE");
        assert("WARN "@ =~= padded("WARN"@, 5));
        assert("INFO "@ =~= padded("INFO"@, 5));
    }
    match level {
        LogLevel::Error => "ERROR".to_owned(),
        LogLevel::Warn => "WARN ".to_owned(),
        LogLevel::Info => "INFO ".to_owned(),
        LogLevel::Debug => "DEBUG".to_owned(),
        LogLevel::Trace => "TRACE".to_owned(),
    }
}

/// Gives the parts of a line on the terminal.
pub fn log_line(timestamp: &str, level: LogLevel, origin: Option<&str>, message: &str) -> (line:
    Vec<LogSegment>)
    ensures
        line@.map_values(|segment: LogSegment| segment@) == line_segments(
            timestamp@,
            level,
            text_of(origin),
            message@,
        ),
{
    let mut line: Vec<LogSegment> = Vec::new();
    line.push(LogSegment { style: LogStyle::Subtle, text: "[".to_owned() });
    line.push(LogSegment { style: LogStyle::Plain, text: timestamp.to_owned().concat(" ") });
    line.push(LogSegment { style: LogStyle::Level, text: padded_level(level) });
    if let Some(path) = origin {
        line.push(LogSegment { style: LogStyle::Plain, text: " ".to_owned().concat(path) });
    }
    line.push(LogSegment { style: LogStyle::Subtle, text: "]".to_owned() });
    let text = " ".to_owned().concat(message).concat("\n");
    line.push(LogSegment { style: LogStyle::Plain, text });
    assert(line@.map_values(|segment: LogSegment| segment@) =~= line_segments(
        timestamp@,
        level,
        text_of(origin),
        message@,
    ));
    line
}

pub open spec fn is_digit(c: char) -> bool {
    '0' <= c && c <= '9'
}

/// At least four characters for the year, of which nothing more is said, then the
/// rest of a date and a time with its offset from UTC: `-MM-DDThh:mm:ss+hh:mm`, or
/// `-` in place of the `+`, where each letter but the `T` stands for a digit.
pub open spec fn is_timestamp(text: Seq<char>) -> bool {
    let rest = text.skip(text.len() - 21);
    &&& text.len() >= 25
    &&& rest[0] == '-' && rest[3] == '-' && rest[6] == 'T' && rest[9] == ':' && rest[12] == ':'
    &&& (rest[15] == '+' || rest[15] == '-') && rest[18] == ':'
    &&& forall|i: int|
        0 <= i < 21 && i % 3 != 0 ==> is_digit(#[trigger] rest[i])
}

/// Calls `chrono::Local::now` and gives the time as text by `DateTime::format` with
/// `%Y-%m-%dT%H:%M:%S%:z`. Which time it is, is up to the clock and the time zone
/// of the machine; claimed is only the form of the text. `Local::now` panics where
/// the clock stands before 1970, and where the time zone of the machine gives no
/// usable offset.
#[verifier::external_body]
fn local_timestamp() -> (text: String)
    ensures
        is_timestamp(text@),
{
    chrono::Local::now().format("%Y-%m-%dT%H:%M:%S%:z").to_string()
}

/// Gives the parts of a line on the terminal for a message of this moment.
pub fn stdout_log_line(level: LogLevel, origin: Option<&str>, message: &str) -> (line: Vec<
    LogSegment,
>)
    ensures
        exists|timestamp: Seq<char>|
            #[trigger] is_timestamp(timestamp) && line@.map_values(|segment: LogSegment| segment@)
                == line_segments(
                timestamp,
                level,
                text_of(origin),
                message@,
            ),
{
    let timestamp = local_timestamp();
    log_line(timestamp.as_str(), level, origin, message)
}

/// The text of a line, whatever the styles of its parts.
pub open spec fn plain_text(segments: Seq<(LogStyle, Seq<char>)>) -> Seq<char>
    decreases segments.len(),
{
    if segments.len() == 0 {
        Seq::empty()
    } else {
        plain_text(segments.drop_last()) + segments.last().1
    }
}

proof fn lemma_plain_text_push(segments: Seq<(LogStyle, Seq<char>)>, last: (LogStyle, Seq<char>))
    ensures
        plain_text(segments.push(last)) == plain_text(segments) + last.1,
{
    assert(segments.push(last).drop_last() =~= segments);
}

/// A line reads `[time LEVEL module] message`, with the level five characters
/// wide and the module left out if there is none.
pub proof fn law_line_reads_as_one(
    timestamp: Seq<char>,
    level: LogLevel,
    origin: Option<Seq<char>>,
    message: Seq<char>,
)
    ensures
        plain_text(line_segments(timestamp, level, origin, message)) == "["@ + timestamp + " "@
            + padded(level_name(level), 5) + origin_part(origin) + "]"@ + " "@ + message
            + "\n"@,
        padded(level_name(level), 5).len() == 5,
{
    reveal_strlit("ERROR");
    reveal_strlit("WARN");
    reveal_strlit("INFO");
    reveal_strlit("DEBUG");
    reveal_strlit("TRACE");
    let name = padded(level_name(level), 5);
    let s0 = Seq::<(LogStyle, Seq<char>)>::empty();
    let s1 = s0.push((LogStyle::Subtle, "["@));
    let s2 = s1.push((LogStyle::Plain, timestamp + " "@));
    let s3 = s2.push((LogStyle::Level, name));
    let s4 = match origin {
        Some(_) => s3.push((LogStyle::Plain, origin_part(origin))),
        None => s3,
    };
    let s5 = s4.push((LogStyle::Subtle, "]"@));
    let s6 = s5.push((LogStyle::Plain, " "@ + message + "\n"@));
    assert(line_segments(timestamp, level, origin, message) =~= s6);
    lemma_plain_text_push(s0, (LogStyle::Subtle, "["@));
    lemma_plain_text_push(s1, (LogStyle::Plain, timestamp + " "@));
    lemma_plain_text_push(s2, (LogStyle::Level, name));
    lemma_plain_text_push(s3, (LogStyle::Plain, origin_part(origin)));
    lemma_plain_text_push(s4, (LogStyle::Subtle, "]"@));
    lemma_plain_text_push(s5, (LogStyle::Plain, " "@ + message + "\n"@));
    assert(plain_text(s6) =~= "["@ + timestamp + " "@ + name + origin_part(origin) + "]"@
        + " "@ + message + "\n"@);
}

/// Everything that the choice of a log depends on.
pub struct Surroundings {
    pub force_cli_mode: Option<Seq<char>>,
    pub terminal: bool,
    pub length: Option<u64>,
    pub opened: Result<(), Seq<char>>,
}

/// What comes of the step that leads to a state.
pub open spec fn event_in(setup: LoggerSetup, around: Surroundings) -> LoggerEventView {
    match setup {
        LoggerSetup::Detecting => LoggerEventView::Environment {
            force_cli_mode: around.force_cli_mode,
            terminal: around.terminal,
        },
        LoggerSetup::Measuring => LoggerEventView::Measured(around.length),
        LoggerSetup::Rotating => LoggerEventView::Rotated,
        _ => LoggerEventView::Opened(around.opened),
    }
}

/// How many steps the setup can still take.
pub open spec fn steps_left(setup: LoggerSetup) -> nat {
    match setup {
        LoggerSetup::Detecting => 4,
        LoggerSetup::Measuring => 3,
        LoggerSetup::Rotating => 2,
        LoggerSetup::Opening => 1,
        LoggerSetup::Finished => 0,
    }
}

/// The steps of a setup from the given state to its end.
pub open spec fn steps_from(setup: LoggerSetup, around: Surroundings) -> Seq<LoggerStepView>
    decreases steps_left(setup),
{
    let (following, step) = next(setup, event_in(setup, around));
    if following == LoggerSetup::Finished || steps_left(following) >= steps_left(setup) {
        seq![step]
    } else {
        seq![step] + steps_from(following, around)
    }
}

/// A setup ends with the log going to the standard output if and only if that is
/// a terminal that a user looks at, or the log file cannot be opened; only then
/// is there something to report. The log file is moved away, before it is opened,
/// if and only if the log is meant for it and it is longer than the limit.
pub proof fn law_log_goes_where_it_can(around: Surroundings)
    ensures
        ({
            let steps = steps_from(LoggerSetup::Detecting, around);
            let pty = is_pty(around.force_cli_mode, around.terminal);
            &&& steps.last() == (if pty {
                LoggerStepView::UseStdout(None)
            } else {
                match around.opened {
                    Ok(_) => LoggerStepView::UseLogFile,
                    Err(error) => LoggerStepView::UseStdout(Some(open_failure(error))),
                }
            })
            &&& pty ==> steps.len() == 1
            &&& !pty ==> steps.drop_last() == (if is_too_long(around.length) {
                seq![
                    LoggerStepView::MeasureLogFile,
                    LoggerStepView::RotateLogFile,
                    LoggerStepView::OpenLogFile,
                ]
            } else {
                seq![LoggerStepView::MeasureLogFile, LoggerStepView::OpenLogFile]
            })
        }),
{
    reveal_with_fuel(steps_from, 4);
    let steps = steps_from(LoggerSetup::Detecting, around);
    if !is_pty(around.force_cli_mode, around.terminal) {
        if is_too_long(around.length) {
            assert(steps.drop_last() =~= seq![
                LoggerStepView::MeasureLogFile,
                LoggerStepView::RotateLogFile,
                LoggerStepView::OpenLogFile,
            ]);
        } else {
            assert(steps.drop_last() =~= seq![
                LoggerStepView::MeasureLogFile,
                LoggerStepView::OpenLogFile,
            ]);
        }
    }
}

/// On every machine the log file receives informational messages and all that are
/// more important, with times as RFC 3339 has them and, but for offsets that no
/// place has, in local time.
pub proof fn law_log_file_receives_the_same_everywhere(local_offset: i32, linux: bool)
    ensures
        ({
            let config = config_for(local_offset, linux);
            &&& config.level == LogLevel::Info
            &&& config.rfc3339_time
            &&& config.utc_offset is Some <==> -93_600 < local_offset < 93_600
            &&& config.utc_offset matches Some(seconds) ==> seconds == local_offset
        }),
{
}

/// Two machines write the log file alike but for the offset of their times, which
/// the place decides alone, and the modules that are left out, which the system
/// decides alone: none but on Linux, and three there.
pub proof fn law_only_linux_leaves_modules_out(here: i32, there: i32, linux: bool)
    ensures
        config_for(here, linux).ignored_modules == config_for(there, linux).ignored_modules,
        config_for(here, true).utc_offset == config_for(here, false).utc_offset,
        config_for(here, true).level == config_for(there, false).level,
        config_for(here, true).rfc3339_time == config_for(there, false).rfc3339_time,
        config_for(here, false).ignored_modules.len() == 0,
        ({
            let ignored = config_for(here, true).ignored_modules;
            &&& ignored.len() == 3
            &&& ignored.contains("zbus"@)
            &&& ignored.contains("blade_graphics::hal::resource"@)
            &&& ignored.contains("naga::back::spv::writer"@)
        }),
{
    let ignored = config_for(here, true).ignored_modules;
    assert(ignored[0] == "zbus"@);
    assert(ignored[1] == "blade_graphics::hal::resource"@);
    assert(ignored[2] == "naga::back::spv::writer"@);
}

/// A terminal is logged to unless the variable that forces the other mode is set,
/// to whatever text; and nothing but a terminal is.
pub proof fn law_variable_rules_out_the_terminal(value: &str, terminal: bool)
    ensures
        text_of(Some(value)) == Some(value@),
        text_of(None) is None,
        !is_pty(text_of(Some(value)), terminal),
        is_pty(text_of(None), terminal) <==> terminal,
{
}

/// A file is moved away before it is opened if and only if it is known to be longer
/// than one mebibyte; and what is logged where it could not be opened ends with
/// the reason.
pub proof fn law_only_long_files_are_rotated(length: u64, error: Seq<char>)
    ensures
        is_too_long(Some(length)) <==> length > 1_048_576,
        !is_too_long(None),
        next(LoggerSetup::Measuring, LoggerEventView::Measured(Some(length))).1 is RotateLogFile
            <==> length > 1_048_576,
        next(LoggerSetup::Measuring, LoggerEventView::Measured(None)).1 is OpenLogFile,
        next(LoggerSetup::Opening, LoggerEventView::Opened(Err(error))).1
            == LoggerStepView::UseStdout(
            Some("could not open log file, defaulting to stdout logging: "@ + error),
        ),
{
}

/// A setup waits for just one kind of event in each state.
pub proof fn law_setup_waits_for_one_kind_of_event(setup: LoggerSetup, event: LoggerEventView)
    ensures
        answers(setup, event) <==> {
            ||| setup == LoggerSetup::Detecting && event is Environment
            ||| setup == LoggerSetup::Measuring && event is Measured
            ||| setup == LoggerSetup::Rotating && event is Rotated
            ||| setup == LoggerSetup::Opening && event is Opened
        },
{
}

/// A line has its five or six parts in this order: a bracket, the time, the level in
/// five characters, the module if there is one, a bracket, and the message up to
/// the end of the line. The brackets are subtle and the level is shown as a level;
/// all else is plain.
pub proof fn law_parts_of_a_line(
    timestamp: &str,
    level: LogLevel,
    origin: Option<&str>,
    message: &str,
)
    ensures
        ({
            let line = line_segments(timestamp@, level, text_of(origin), message@);
            let last = line.len() - 1;
            &&& line.len() == (if origin is Some {
                6int
            } else {
                5int
            })
            &&& line[0] == (LogStyle::Subtle, "["@)
            &&& line[1] == (LogStyle::Plain, timestamp@ + " "@)
            &&& line[2].0 == LogStyle::Level && line[2].1.len() == 5
            &&& line[2].1 == (match level {
                LogLevel::Error => "ERROR"@,
                LogLevel::Warn => "WARN "@,
                LogLevel::Info => "INFO "@,
                LogLevel::Debug => "DEBUG"@,
                LogLevel::Trace => "TRACE"@,
            })
            &&& origin matches Some(path) ==> line[3] == (LogStyle::Plain, " "@ + path@)
            &&& line[last - 1] == (LogStyle::Subtle, "]"@)
            &&& line[last] == (LogStyle::Plain, " "@ + message@ + "\n"@)
        }),
{
    reveal_strlit("ERROR");
    reveal_strlit("WARN");
    reveal_strlit("WARN ");
    reveal_strlit("INFO");
    reveal_strlit("INFO ");
    reveal_strlit("DEBUG");
    reveal_strlit("TRACE");
    assert("WARN "@ =~= padded("WARN"@, 5));
    assert("INFO "@ =~= padded("INFO"@, 5));
}

/// What contracts see of these values is all that they hold.
pub proof fn law_logging_views_leave_nothing_out(
    text: String,
    terminal: bool,
    length: Option<u64>,
    config: FileLogConfig,
    segment: LogSegment,
)
    ensures
        (LoggerEvent::Environment { force_cli_mode: Some(text), terminal })@ == (
        LoggerEventView::Environment { force_cli_mode: Some(text@), terminal }),
        (LoggerEvent::Environment { force_cli_mode: None, terminal })@ == (
        LoggerEventView::Environment { force_cli_mode: None, terminal }),
        LoggerEvent::Measured(length)@ == LoggerEventView::Measured(length),
        (LoggerEvent::Rotated)@ == LoggerEventView::Rotated,
        LoggerEvent::Opened(Ok(()))@ == LoggerEventView::Opened(Ok(())),
        LoggerEvent::Opened(Err(text))@ == LoggerEventView::Opened(Err(text@)),
        (LoggerStep::MeasureLogFile)@ == LoggerStepView::MeasureLogFile,
        (LoggerStep::RotateLogFile)@ == LoggerStepView::RotateLogFile,
        (LoggerStep::OpenLogFile)@ == LoggerStepView::OpenLogFile,
        (LoggerStep::UseLogFile)@ == LoggerStepView::UseLogFile,
        LoggerStep::UseStdout(None)@ == LoggerStepView::UseStdout(None),
        LoggerStep::UseStdout(Some(text))@ == LoggerStepView::UseStdout(Some(text@)),
        config@.level == config.level,
        config@.rfc3339_time == config.rfc3339_time,
        config@.utc_offset == config.utc_offset,
        config@.ignored_modules.len() == config.ignored_modules@.len(),
        forall|i: int|
            0 <= i < config.ignored_modules@.len() ==> #[trigger] config@.ignored_modules[i]
                == config.ignored_modules@[i]@,
        segment@.0 == segment.style,
        segment@.1 == segment.text@,
{
}

} // verus!
