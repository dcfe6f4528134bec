//! Log-level selection for the native engine's logger.

use vstd::prelude::*;
use crate::error::Error;

verus! {

/// Wire value that disables native logging.
pub const RAW_LOG_DISABLE: i32 = -1;

/// Wire value of the error level.
pub const RAW_LOG_ERROR: i32 = 3;

/// Wire value of the warning level.
pub const RAW_LOG_WARN: i32 = 4;

/// Wire value of the notice level.
pub const RAW_LOG_NOTICE: i32 = 5;

/// Wire value of the informational level.
pub const RAW_LOG_INFO: i32 = 6;

/// Wire value of the debug level.
pub const RAW_LOG_DEBUG: i32 = 7;

/// Wire value of the simulation level.
pub const RAW_LOG_SIMULATE: i32 = 100;

/// Log level for the native engine's logger.
#[derive(Debug, Clone, Copy, PartialEq, Eq, Structural)]
pub enum LogLevel {
    /// Logging disabled.
    Disable,
    /// Errors only.
    Error,
    /// Warnings and errors.
    Warn,
    /// Notices and above.
    Notice,
    /// Informational messages and above.
    Info,
    /// Debug messages and above.
    Debug,
    /// Simulation output.
    Simulate,
}

impl LogLevel {
    /// The level's value in the native engine's numbering.
    pub open spec fn raw_value(self) -> i32 {
        match self {
            LogLevel::Disable => RAW_LOG_DISABLE,
            LogLevel::Error => RAW_LOG_ERROR,
            LogLevel::Warn => RAW_LOG_WARN,
            LogLevel::Notice => RAW_LOG_NOTICE,
            LogLevel::Info => RAW_LOG_INFO,
            LogLevel::Debug => RAW_LOG_DEBUG,
            LogLevel::Simulate => RAW_LOG_SIMULATE,
        }
    }

    /// Convert the level to the native engine's numbering.
    #[verifier::when_used_as_spec(raw_value)]
    pub fn to_raw(self) -> (r: i32)
        ensures
            r == self.raw_value(),
    {
        match self {
            LogLevel::Disable => RAW_LOG_DISABLE,
            LogLevel::Error => RAW_LOG_ERROR,
            LogLevel::Warn => RAW_LOG_WARN,
            LogLevel::Notice => RAW_LOG_NOTICE,
            LogLevel::Info => RAW_LOG_INFO,
            LogLevel::Debug => RAW_LOG_DEBUG,
            LogLevel::Simulate => RAW_LOG_SIMULATE,
        }
    }
}

impl Default for LogLevel {
    /// Warnings and errors are reported by default.
    fn default() -> (r: Self)
        ensures
            r is Warn,
    {
        LogLevel::Warn
    }
}

/// Select the global logging level.
///
/// Wiring a log callback into the native engine is the driver's part;
/// selecting a level never fails.
pub fn set_logging(_level: LogLevel) -> (r: Result<(), Error>)
    ensures
        r is Ok,
{
    Ok(())
}

} // verus!
