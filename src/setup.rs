use vstd::prelude::*;
use vstd::string::*;

use crate::level::{LoggingLevel, Severity};
use crate::render::Logger;

verus! {

/// What the bootstrap settles before the logger is installed.
pub struct Setup {
    /// The logger to install.
    pub logger: Logger,
    /// The most verbose severity to let through at the source.
    pub max_level: Severity,
    /// Whether to report a failed installation.
    pub verbose: bool,
}

/// The setup for `level`: colors stay on only when standard output is a
/// terminal.
pub open spec fn setup_for(level: LoggingLevel, verbose: bool, stdout_is_tty: bool) -> Setup {
    Setup { logger: Logger { level, colors: stdout_is_tty }, max_level: level.ceiling(), verbose }
}

/// Settles the setup from what is known of standard output.
pub fn plan_setup(level: LoggingLevel, verbose: bool, stdout_is_tty: bool) -> (r: Setup)
    ensures
        r == setup_for(level, verbose, stdout_is_tty),
{
    Setup { logger: Logger::new(level, stdout_is_tty), max_level: level.max_log_level(), verbose }
}

/// Relies on `isatty::stdout_isatty`: whether standard output is a terminal.
/// That depends on the process's surroundings, so nothing is promised of it.
#[verifier::external_body]
fn stdout_is_tty() -> (r: bool) {
    isatty::stdout_isatty()
}

/// Relies on yansi's `Paint::enable_windows_ascii`: asks a Windows console to
/// read ANSI escape sequences, and elsewhere does nothing. Whether it worked
/// depends on the console, so nothing is promised of it.
#[verifier::external_body]
fn enable_windows_ascii() -> (r: bool) {
    yansi::Paint::enable_windows_ascii()
}

/// Asks the console to interpret ANSI escape sequences. Only a Windows
/// console needs this; elsewhere it reports success. Its result depends on
/// the console alone.
pub fn enable_ascii_colors() -> (r: bool) {
    enable_windows_ascii()
}

/// Settles the logger's setup: colors go off when standard output is not a
/// terminal; when it is, the console is asked for ANSI escape sequences, with
/// no heed to its answer.
pub fn try_init(level: LoggingLevel, verbose: bool) -> (r: Setup)
    ensures
        r.logger.level == level,
        r.max_level == level.ceiling(),
        r.verbose == verbose,
        exists|tty: bool| r == setup_for(level, verbose, tty),
{
    let tty = stdout_is_tty();
    if tty {
        enable_ascii_colors();
    }
    plan_setup(level, verbose, tty)
}

/// `try_init` that reports a failed installation.
pub fn init(level: LoggingLevel) -> (r: Setup)
    ensures
        r.logger.level == level,
        r.max_level == level.ceiling(),
        r.verbose,
        exists|tty: bool| r == setup_for(level, true, tty),
{
    try_init(level, true)
}

/// The line reporting a failed installation, with the installer's error.
pub open spec fn failure_line(err: Seq<char>) -> Seq<char> {
    "Logger failed to initialize: "@ + err + "\n"@
}

/// What to print when installing the logger failed with `err`: the report
/// line when the setup is verbose, nothing otherwise.
pub fn failure_report(setup: &Setup, err: &str) -> (r: Option<String>)
    ensures
        setup.verbose ==> r is Some && r->Some_0@ == failure_line(err@),
        !setup.verbose ==> r is None,
{
    if setup.verbose {
        let mut line = String::from_str("Logger failed to initialize: ");
        line.append(err);
        line.append("\n");
        Some(line)
    } else {
        None
    }
}

} // verus!
