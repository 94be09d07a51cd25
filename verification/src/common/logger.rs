use crate::common::settings::{bool_or, flag_or, string_or, text_or};
use vstd::prelude::*;

verus! {

/// How much is logged.
#[derive(Debug, Clone, Copy, PartialEq, Eq, Structural)]
pub enum LogLevel {
    Debug,
    Info,
}

/// Where the log goes.
#[derive(Debug, Clone, Copy, PartialEq, Eq, Structural)]
pub enum LogSink {
    /// To standard output.
    Stdout,
    /// To a file that is begun anew every day.
    DailyFile,
}

/// The settings of the log.
#[derive(Debug)]
pub struct LogConfig {
    pub level: LogLevel,
    /// The directory of the log files.
    pub path: String,
    /// The name that the log files begin with.
    pub filename: String,
    /// The process runs in development.
    pub is_dev: bool,
    /// The log is written as JSON.
    pub use_json: bool,
}

impl LogConfig {
    /// The settings that a configuration asks for: everything is logged
    /// where `app.debug` is on; the files go to `log.path` (`logs` where
    /// there is none) under the name `log.filename` (`tracing.log`); the
    /// process runs in development where `app.env` is `dev` or missing; and
    /// JSON is written unless `log.json` is off.
    pub fn from_config(cfg: &config::Config) -> (r: Self)
        ensures
            r.level == if flag_or(*cfg, "app.debug"@, false) {
                LogLevel::Debug
            } else {
                LogLevel::Info
            },
            r.path@ == text_or(*cfg, "log.path"@, "logs"@),
            r.filename@ == text_or(*cfg, "log.filename"@, "tracing.log"@),
            r.is_dev == (text_or(*cfg, "app.env"@, "dev"@) == "dev"@),
            r.use_json == flag_or(*cfg, "log.json"@, true),
    {
        LogConfig {
            level: if bool_or(cfg, "app.debug", false) {
                LogLevel::Debug
            } else {
                LogLevel::Info
            },
            path: string_or(cfg, "log.path", "logs"),
            filename: string_or(cfg, "log.filename", "tracing.log"),
            is_dev: string_or(cfg, "app.env", "dev") == "dev".to_owned(),
            use_json: bool_or(cfg, "log.json", true),
        }
    }

    /// The settings used where there is no configuration.
    pub fn default() -> (r: Self)
        ensures
            r.level == LogLevel::Debug,
            r.path@ == "logs"@,
            r.filename@ == "tracing.log"@,
            r.is_dev,
            r.use_json,
    {
        LogConfig {
            level: LogLevel::Debug,
            path: "logs".to_owned(),
            filename: "tracing.log".to_owned(),
            is_dev: true,
            use_json: true,
        }
    }

    /// Where the log goes: to standard output in development, to a daily
    /// file elsewhere.
    pub fn sink(&self) -> (r: LogSink)
        ensures
            r == if self.is_dev {
                LogSink::Stdout
            } else {
                LogSink::DailyFile
            },
    {
        if self.is_dev {
            LogSink::Stdout
        } else {
            LogSink::DailyFile
        }
    }
}

} // verus!
