//! The logging facade, as far as it decides anything.
//!
//! A log record becomes one line, `[<level>] <message>`, which goes to the
//! screen if the console can be had at once and is mirrored on the serial
//! line. Neither write can fail the caller: logging must never itself bring
//! the kernel down.
//!
//! Bringing the facade up takes two steps of outside work, setting up the
//! serial port and installing the logger. [`init`] decides what is done
//! next and what the outcome is; the kernel binary does the work.

use vstd::prelude::*;
use vstd::utf8::encode_utf8;
use crate::console::Console;
use crate::error::{KernelError, KernelResult};
use crate::format::render;
use crate::serial::SerialLine;
use crate::shared::write_best_effort;

verus! {

/// `log::Level`, the severity of a record.
#[verifier::external_type_specification]
pub struct ExLevel(log::Level);

/// `log::SetLoggerError`, which `log::set_logger` returns when a logger is
/// already installed.
#[verifier::external_type_specification]
#[verifier::external_body]
pub struct ExSetLoggerError(log::SetLoggerError);

/// The name a level is printed under.
pub open spec fn level_name(level: log::Level) -> Seq<char> {
    match level {
        log::Level::Error => "ERROR"@,
        log::Level::Warn => "WARN"@,
        log::Level::Info => "INFO"@,
        log::Level::Debug => "DEBUG"@,
        log::Level::Trace => "TRACE"@,
    }
}

/// The place of a level in the order of verbosity, least verbose first.
pub open spec fn level_rank(level: log::Level) -> int {
    match level {
        log::Level::Error => 1,
        log::Level::Warn => 2,
        log::Level::Info => 3,
        log::Level::Debug => 4,
        log::Level::Trace => 5,
    }
}

/// `log::Level::as_str`: the upper-case name of the level, read from the
/// crate's table of level names at the level's own number.
pub assume_specification[ log::Level::as_str ](level: &log::Level) -> (name: &'static str)
    ensures
        name@ == level_name(*level),
;

/// `PartialOrd::le` of `log::Level`: levels are ordered as they are
/// declared, from `Error`, the least verbose, to `Trace`.
///
/// Trusted: the body is not verified.
#[verifier::external_body]
fn at_most(level: log::Level, ceiling: log::Level) -> (within: bool)
    ensures
        within == (level_rank(level) <= level_rank(ceiling)),
{
    level.le(&ceiling)
}

/// Whether a record of the given level passes a logger that lets through
/// everything up to `ceiling`.
pub fn passes(level: log::Level, ceiling: log::Level) -> (through: bool)
    ensures
        through == (level_rank(level) <= level_rank(ceiling)),
{
    at_most(level, ceiling)
}

/// Whether records of the given level are logged. The ceiling is `Trace`,
/// the most verbose level, so every record is.
pub fn enabled(level: log::Level) -> (on: bool)
    ensures
        on == (level_rank(level) <= level_rank(log::Level::Trace)),
        on,
{
    passes(level, log::Level::Trace)
}

/// The line a record is logged as: the level's name in square brackets, a
/// space, the message, and a line feed.
pub open spec fn record_line(level: log::Level, message: Seq<char>) -> Seq<u8> {
    seq![0x5bu8] + encode_utf8(level_name(level)) + seq![0x5du8, 0x20u8] + encode_utf8(message)
        + seq![0x0au8]
}

/// Formats a record as the line it is logged as.
pub fn format_record(level: log::Level, message: &str) -> (line: Vec<u8>)
    ensures
        line@ == record_line(level, message@),
{
    let mut line: Vec<u8> = Vec::new();
    line.push(0x5b);
    line.extend_from_slice(level.as_str().as_bytes());
    line.push(0x5d);
    line.push(0x20);
    line.extend_from_slice(message.as_bytes());
    line.push(0x0a);
    assert(line@ =~= record_line(level, message@));
    line
}

/// Logs a record whose message the caller's formatting machinery has
/// produced, or drops it if it produced none.
///
/// The line goes to the screen if the console's lock is free and the
/// console is ready, and is queued on the serial line if its port has been
/// set up. No failure is reported.
pub fn log_rendered(
    console: &spin::Mutex<Console<'_>>,
    serial: &mut SerialLine,
    level: log::Level,
    rendered: Result<String, core::fmt::Error>,
)
    ensures
        final(serial).is_open() == old(serial).is_open(),
        match rendered {
            Ok(text) => if old(serial).is_open() {
                final(serial)@ == old(serial)@ + record_line(level, text@)
            } else {
                final(serial)@ == old(serial)@
            },
            Err(_) => final(serial)@ == old(serial)@,
        },
{
    if enabled(level) {
        match rendered {
            Ok(text) => {
                let line = format_record(level, text.as_str());
                write_best_effort(console, line.as_slice());
                let _ = serial.send(line.as_slice());
            },
            Err(_) => {},
        }
    }
}

/// Logs a record: formats its message and hands the line to the screen and
/// to the serial line, as far as each will take it. No failure is reported.
pub fn log_record(
    console: &spin::Mutex<Console<'_>>,
    serial: &mut SerialLine,
    level: log::Level,
    message: core::fmt::Arguments<'_>,
)
    ensures
        final(serial).is_open() == old(serial).is_open(),
        final(serial)@ == old(serial)@ || (old(serial).is_open() && exists|text: Seq<char>|
            final(serial)@ == old(serial)@ + #[trigger] record_line(level, text)),
{
    let rendered = render(message);
    log_rendered(console, serial, level, rendered);
}

/// What has just happened while the logging facade is brought up.
pub enum InitEvent {
    /// Nothing yet: bring-up begins.
    Begin,
    /// The serial port has been set up, or could not be.
    SerialReady(KernelResult<()>),
    /// The logger has been handed to `log::set_logger`, which took it or
    /// refused it.
    LoggerInstalled(Result<(), log::SetLoggerError>),
}

/// What the kernel does next while the logging facade is brought up.
#[derive(Debug, Clone, Copy, PartialEq, Eq)]
pub enum InitAction {
    /// Set up the serial port, so that log lines have somewhere to go.
    SetUpSerial,
    /// Install the logger and let every level through.
    InstallLogger,
    /// Bring-up is over, with this outcome.
    Finish(KernelResult<()>),
}

/// The next step of bring-up after `event`.
pub open spec fn init_step(event: InitEvent) -> InitAction {
    match event {
        InitEvent::Begin => InitAction::SetUpSerial,
        InitEvent::SerialReady(Ok(())) => InitAction::InstallLogger,
        InitEvent::SerialReady(Err(e)) => InitAction::Finish(Err(e)),
        InitEvent::LoggerInstalled(Ok(())) => InitAction::Finish(Ok(())),
        InitEvent::LoggerInstalled(Err(_)) => InitAction::Finish(
            Err(KernelError::LoggerInitFailed),
        ),
    }
}

/// Brings up the logging facade, one step at a time.
///
/// The serial port comes first, because the logger writes to it. If the
/// port cannot be set up, bring-up ends with the port's error and no logger
/// is installed. If a logger is already installed, bring-up ends with
/// [`KernelError::LoggerInitFailed`].
pub fn init(event: InitEvent) -> (action: InitAction)
    ensures
        action == init_step(event),
{
    match event {
        InitEvent::Begin => InitAction::SetUpSerial,
        InitEvent::SerialReady(Ok(())) => InitAction::InstallLogger,
        InitEvent::SerialReady(Err(e)) => InitAction::Finish(Err(e)),
        InitEvent::LoggerInstalled(Ok(())) => InitAction::Finish(Ok(())),
        InitEvent::LoggerInstalled(Err(_)) => InitAction::Finish(Err(KernelError::LoggerInitFailed)),
    }
}

} // verus!
