//! Settings of the log, and the choice of the console output that they
//! stand for.
use crate::text::{names, text_eq};
use vstd::prelude::*;

verus! {

/// Everything the log is configured with.
#[derive(Debug, Clone, PartialEq, Eq)]
pub struct LoggingConfig {
    pub level: String,
    pub format: String,
    pub console: ConsoleConfig,
    pub file: FileConfig,
    pub rotation: RotationConfig,
    pub filters: FiltersConfig,
}

/// The console output.
#[derive(Debug, Clone, Copy, PartialEq, Eq, Structural)]
pub struct ConsoleConfig {
    pub enabled: bool,
    pub colored: bool,
}

/// The log file.
#[derive(Debug, Clone, PartialEq, Eq)]
pub struct FileConfig {
    pub enabled: bool,
    pub path: String,
    pub max_size: String,
    pub max_files: u32,
    pub append: bool,
}

/// When the log file is rotated.
#[derive(Debug, Clone, Copy, PartialEq, Eq, Structural)]
pub struct RotationConfig {
    pub daily: bool,
    pub hourly: bool,
}

/// What the request log leaves out.
#[derive(Debug, Clone, PartialEq, Eq)]
pub struct FiltersConfig {
    pub exclude_paths: Vec<String>,
    pub log_request_body: bool,
    pub log_response_body: bool,
}

/// The layout of the console output.
#[derive(Debug, Clone, Copy, PartialEq, Eq, Structural)]
pub enum LogFormat {
    /// One JSON object per event.
    Json,
    /// One short line per event.
    Compact,
    /// Several readable lines per event.
    Pretty,
    /// The plain default layout, used when the console is switched off.
    Plain,
}

/// How the log is to be set up.
#[derive(Debug, Clone, Copy, PartialEq, Eq, Structural)]
pub struct LogPlan {
    pub format: LogFormat,
    /// Whether colour codes are written.
    pub ansi: bool,
    /// Whether the output is bound to the standard output explicitly.
    pub to_stdout: bool,
}

impl ConsoleConfig {
    /// On, and coloured.
    pub open spec fn spec_default() -> ConsoleConfig {
        ConsoleConfig { enabled: true, colored: true }
    }
}

impl Default for ConsoleConfig {
    fn default() -> (r: ConsoleConfig)
        ensures
            r == ConsoleConfig::spec_default(),
    {
        ConsoleConfig { enabled: true, colored: true }
    }
}

impl FileConfig {
    /// `logs/spkmeeting.log`, appended to, five files of 10 MB.
    pub open spec fn is_default(&self) -> bool {
        &&& self.enabled
        &&& self.path@ == "logs/spkmeeting.log"@
        &&& self.max_size@ == "10MB"@
        &&& self.max_files == 5
        &&& self.append
    }
}

impl Default for FileConfig {
    fn default() -> (r: FileConfig)
        ensures
            r.is_default(),
    {
        FileConfig {
            enabled: true,
            path: "logs/spkmeeting.log".to_owned(),
            max_size: "10MB".to_owned(),
            max_files: 5,
            append: true,
        }
    }
}

impl RotationConfig {
    /// Once a day.
    pub open spec fn spec_default() -> RotationConfig {
        RotationConfig { daily: true, hourly: false }
    }
}

impl Default for RotationConfig {
    fn default() -> (r: RotationConfig)
        ensures
            r == RotationConfig::spec_default(),
    {
        RotationConfig { daily: true, hourly: false }
    }
}

impl FiltersConfig {
    /// The health and metrics paths are left out; bodies are not logged.
    pub open spec fn is_default(&self) -> bool {
        &&& names(self.exclude_paths@) == seq!["/health"@, "/metrics"@]
        &&& !self.log_request_body
        &&& !self.log_response_body
    }
}

impl Default for FiltersConfig {
    fn default() -> (r: FiltersConfig)
        ensures
            r.is_default(),
    {
        let mut exclude_paths: Vec<String> = Vec::new();
        exclude_paths.push("/health".to_owned());
        exclude_paths.push("/metrics".to_owned());
        let r = FiltersConfig { exclude_paths, log_request_body: false, log_response_body: false };
        assert(names(r.exclude_paths@) =~= seq!["/health"@, "/metrics"@]);
        r
    }
}

/// The layout that a format name stands for: `json`, `compact`, and
/// `pretty` for every other name.
pub open spec fn spec_format(name: Seq<char>) -> LogFormat {
    if name == "json"@ {
        LogFormat::Json
    } else if name == "compact"@ {
        LogFormat::Compact
    } else {
        LogFormat::Pretty
    }
}

impl LoggingConfig {
    /// Level `info`, pretty layout, and every part at its default.
    pub open spec fn is_default(&self) -> bool {
        &&& self.level@ == "info"@
        &&& self.format@ == "pretty"@
        &&& self.console == ConsoleConfig::spec_default()
        &&& self.file.is_default()
        &&& self.rotation == RotationConfig::spec_default()
        &&& self.filters.is_default()
    }

    /// The set-up that the settings stand for. With the console on, the
    /// layout is the one that `format` names, written to the standard output
    /// and coloured as `console.colored` says. With the console off, the
    /// plain layout without colour is used.
    pub open spec fn spec_plan(&self) -> LogPlan {
        if self.console.enabled {
            LogPlan { format: spec_format(self.format@), ansi: self.console.colored, to_stdout: true }
        } else {
            LogPlan { format: LogFormat::Plain, ansi: false, to_stdout: false }
        }
    }

    /// Decides how the log is to be set up. The level is not part of the
    /// plan: it is the filter to fall back on where the environment names
    /// none.
    pub fn plan(&self) -> (r: LogPlan)
        ensures
            r == self.spec_plan(),
    {
        if self.console.enabled {
            let format = if text_eq(self.format.as_str(), "json") {
                LogFormat::Json
            } else if text_eq(self.format.as_str(), "compact") {
                LogFormat::Compact
            } else {
                LogFormat::Pretty
            };
            LogPlan { format, ansi: self.console.colored, to_stdout: true }
        } else {
            LogPlan { format: LogFormat::Plain, ansi: false, to_stdout: false }
        }
    }
}

impl Default for LoggingConfig {
    fn default() -> (r: LoggingConfig)
        ensures
            r.is_default(),
    {
        LoggingConfig {
            level: "info".to_owned(),
            format: "pretty".to_owned(),
            console: ConsoleConfig::default(),
            file: FileConfig::default(),
            rotation: RotationConfig::default(),
            filters: FiltersConfig::default(),
        }
    }
}

} // verus!
