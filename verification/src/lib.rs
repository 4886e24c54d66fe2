//! A structured logging core built around an asynchronous delivery pipeline:
//! log records are built and enriched by calling code, attributed to a
//! configuration resolved from the current scope (or a global fallback), and
//! handed to a dispatcher that fans each record out to pluggable backends.

pub mod backend;
mod configuration;
mod log;
mod manager;
mod time;

pub use self::backend::{
    elevated_spec, fixed_width_level, fixed_width_level_spec, format_line, rendered_line,
    retained, sink_lines, Backend, BackendError, BackendKind, Memory, Os,
};
pub use self::configuration::{resolved, Configuration, Context};
pub use self::manager::Manager;
pub use self::log::{Level, Log, LogError, Payload, PayloadEntry};
pub use self::time::{rfc3339_of, Timestamp, MAX_TIMESTAMP_SECS, NANOS_PER_SEC};
