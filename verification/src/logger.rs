use vstd::prelude::*;

verus! {

#[verifier::external_type_specification]
#[verifier::external_body]
pub struct ExSetLoggerError(log::SetLoggerError);

/// The severity of a log record, from the most to the least severe.
#[derive(Clone, Copy, Debug, PartialEq, Eq, Structural)]
pub enum LogLevel {
    Error,
    Warn,
    Info,
    Debug,
    Trace,
}

impl LogLevel {
    /// Position of the level in the order of the `log` crate, `Error` first.
    pub open spec fn rank(self) -> int {
        match self {
            LogLevel::Error => 1,
            LogLevel::Warn => 2,
            LogLevel::Info => 3,
            LogLevel::Debug => 4,
            LogLevel::Trace => 5,
        }
    }

    /// The name under which the `log` crate writes the level.
    pub open spec fn name(self) -> Seq<char> {
        match self {
            LogLevel::Error => "ERROR"@,
            LogLevel::Warn => "WARN"@,
            LogLevel::Info => "INFO"@,
            LogLevel::Debug => "DEBUG"@,
            LogLevel::Trace => "TRACE"@,
        }
    }
}

/// A ceiling on the levels that reach the logger; `Off` lets none through.
#[derive(Clone, Copy, Debug, PartialEq, Eq, Structural)]
pub enum LevelFilter {
    Off,
    Error,
    Warn,
    Info,
    Debug,
    Trace,
}

/// Why the logger could not be installed.
#[derive(Clone, Copy, Debug, PartialEq, Eq, Structural)]
pub enum InitError {
    /// A logger was installed before.
    AlreadyInitialized,
}

/// The name of `level` as given by `log::Level::as_str`.
///
/// Trusted: `as_str` reads the level's entry in the crate's table of names,
/// which the contract repeats.
#[verifier::external_body]
fn level_name(level: LogLevel) -> (name: &'static str)
    ensures
        name@ == level.name(),
{
    let level = match level {
        LogLevel::Error => log::Level::Error,
        LogLevel::Warn => log::Level::Warn,
        LogLevel::Info => log::Level::Info,
        LogLevel::Debug => log::Level::Debug,
        LogLevel::Trace => log::Level::Trace,
    };
    level.as_str()
}

/// Installs `logger` as the process-wide logger through `log::set_logger`.
///
/// Trusted: the outcome depends on whether a logger was installed before,
/// which is global state, so the contract states nothing of it.
#[verifier::external_body]
fn install_logger<L: log::Log + 'static>(logger: &'static L) -> (installed: Result<(), log::SetLoggerError>) {
    log::set_logger(logger)
}

/// Sets the process-wide ceiling on log levels through `log::set_max_level`.
///
/// Trusted: the effect is on global state, of which the contract states nothing.
#[verifier::external_body]
fn set_max_level(filter: LevelFilter) {
    let filter = match filter {
        LevelFilter::Off => log::LevelFilter::Off,
        LevelFilter::Error => log::LevelFilter::Error,
        LevelFilter::Warn => log::LevelFilter::Warn,
        LevelFilter::Info => log::LevelFilter::Info,
        LevelFilter::Debug => log::LevelFilter::Debug,
        LevelFilter::Trace => log::LevelFilter::Trace,
    };
    log::set_max_level(filter)
}

/// The line that the logger writes: `timestamp: LEVEL - message`.
pub open spec fn record_line(timestamp: Seq<char>, level: LogLevel, message: Seq<char>) -> Seq<char> {
    timestamp + ": "@ + level.name() + " - "@ + message
}

/// The simulation's logger: it lets records of level `Info` and more severe through.
#[derive(Clone, Copy, Debug)]
pub struct Logger;

impl Logger {
    /// Whether records of `level` are written: those at most as verbose as `Info`.
    pub fn enabled(&self, level: LogLevel) -> (on: bool)
        ensures
            on == (level.rank() <= LogLevel::Info.rank()),
    {
        match level {
            LogLevel::Error | LogLevel::Warn | LogLevel::Info => true,
            LogLevel::Debug | LogLevel::Trace => false,
        }
    }

    /// The line to write for a record of `level` with text `message`, taken at
    /// `timestamp`, or `None` where the level is not enabled.
    pub fn log(&self, timestamp: &str, level: LogLevel, message: &str) -> (line: Option<String>)
        ensures
            line is Some <==> level.rank() <= LogLevel::Info.rank(),
            line matches Some(l) ==> l@ == record_line(timestamp@, level, message@),
    {
        if self.enabled(level) {
            let mut line = String::from_str(timestamp);
            line.append(": ");
            line.append(level_name(level));
            line.append(" - ");
            line.append(message);
            Some(line)
        } else {
            None
        }
    }
}

/// The answer to a request to install the logger, given what `log::set_logger`
/// returned, and the ceiling on log levels to set: `Info` once installed.
pub fn install_outcome(installed: &Result<(), log::SetLoggerError>) -> (outcome: (Result<(), InitError>, Option<LevelFilter>))
    ensures
        installed is Ok ==> outcome == (Ok::<(), InitError>(()), Some(LevelFilter::Info)),
        installed is Err ==> outcome == (Err::<(), InitError>(InitError::AlreadyInitialized), None::<LevelFilter>),
{
    match installed {
        Ok(()) => (Ok(()), Some(LevelFilter::Info)),
        Err(_) => (Err(InitError::AlreadyInitialized), None),
    }
}

/// Installs `logger` as the process-wide logger and, once it is installed,
/// lets records up to `Info` through.
pub fn init<L: log::Log + 'static>(logger: &'static L) -> (result: Result<(), InitError>)
    ensures
        result is Err ==> result == Err::<(), InitError>(InitError::AlreadyInitialized),
{
    let installed = install_logger(logger);
    let (result, filter) = install_outcome(&installed);
    if let Some(filter) = filter {
        set_max_level(filter);
    }
    result
}

} // verus!
