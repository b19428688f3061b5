//! Application settings that the surrounding service reads at start-up.
//!
//! Only the parsed shape of the settings lives here; reading configuration
//! files and environment variables is the caller's business. The log settings
//! translate free-text severity names to a closed set of levels.

use crate::strutil::str_eq;
use vstd::prelude::*;

verus! {

/// Severity levels for log output.
#[derive(Clone, Copy, Debug, PartialEq, Eq, Structural)]
pub enum VerbosityLevel {
    /// Finest-grained output.
    Trace,
    /// Diagnostic output.
    Debug,
    /// Routine output.
    Info,
    /// Unexpected but tolerated situations; also the fallback level.
    Warn,
    /// Failures.
    Error,
}

/// The level a severity name translates to: `debug`/`dbg`, `info`,
/// `error`/`err` and `trace` name their levels; anything else is `Warn`.
pub open spec fn spec_verbosity(s: Seq<char>) -> VerbosityLevel {
    if s == "debug"@ || s == "dbg"@ {
        VerbosityLevel::Debug
    } else if s == "info"@ {
        VerbosityLevel::Info
    } else if s == "error"@ || s == "err"@ {
        VerbosityLevel::Error
    } else if s == "trace"@ {
        VerbosityLevel::Trace
    } else {
        VerbosityLevel::Warn
    }
}

/// Log-related settings.
pub struct LogSettings {
    /// Severity for the log file, as a name; see [`spec_verbosity`].
    pub tracing_level: String,
    /// Name of the output file that log messages are appended to.
    pub log_output_file: String,
    /// Whether log messages go to the console too.
    pub enable_console_log: Option<bool>,
    /// Severity for the console, as a name, when console log is enabled.
    pub console_tracing_level: Option<String>,
}

/// Mathematical image of a [`LogSettings`].
pub ghost struct LogSettingsView {
    pub tracing_level: Seq<char>,
    pub log_output_file: Seq<char>,
    pub enable_console_log: Option<bool>,
    pub console_tracing_level: Option<Seq<char>>,
}

impl View for LogSettings {
    type V = LogSettingsView;

    open spec fn view(&self) -> LogSettingsView {
        LogSettingsView {
            tracing_level: self.tracing_level@,
            log_output_file: self.log_output_file@,
            enable_console_log: self.enable_console_log,
            console_tracing_level: match self.console_tracing_level {
                Some(s) => Some(s@),
                None => None,
            },
        }
    }
}

impl LogSettings {
    /// The verbosity level chosen for the log file.
    pub fn get_verbosity_level(&self) -> (r: VerbosityLevel)
        ensures
            r == spec_verbosity(self@.tracing_level),
    {
        LogSettings::verbosity(self.tracing_level.as_str())
    }

    /// The verbosity level chosen for the console; `Warn` when none was set.
    pub fn get_console_tracing_level(&self) -> (r: VerbosityLevel)
        ensures
            match self@.console_tracing_level {
                Some(l) => r == spec_verbosity(l),
                None => r == VerbosityLevel::Warn,
            },
    {
        match &self.console_tracing_level {
            Some(level) => LogSettings::verbosity(level.as_str()),
            None => VerbosityLevel::Warn,
        }
    }

    /// Whether console log output was requested; unset counts as off.
    pub fn console_log_enabled(&self) -> (r: bool)
        ensures
            r == (self@.enable_console_log == Some(true)),
    {
        match self.enable_console_log {
            Some(b) => b,
            None => false,
        }
    }

    /// Translate a severity name into a [`VerbosityLevel`].
    fn verbosity(level: &str) -> (r: VerbosityLevel)
        ensures
            r == spec_verbosity(level@),
    {
        if str_eq(level, "debug") || str_eq(level, "dbg") {
            VerbosityLevel::Debug
        } else if str_eq(level, "info") {
            VerbosityLevel::Info
        } else if str_eq(level, "error") || str_eq(level, "err") {
            VerbosityLevel::Error
        } else if str_eq(level, "trace") {
            VerbosityLevel::Trace
        } else {
            VerbosityLevel::Warn
        }
    }
}

/// The application's own settings.
pub struct ApplicationSettings {
    /// Listening port for the application.
    pub port: u16,
    /// Host address for the application.
    pub host: String,
    /// Base URL for accessing the application through the network.
    pub base_url: String,
    /// Log settings.
    pub log_settings: LogSettings,
}

} // verus!
