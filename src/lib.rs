//! Start-up configuration of process-wide logging for a command-line network service.
//!
//! The decisions (which verbosity and time display apply, which pattern the console sink
//! renders with, which loggers get which threshold) are plain functions with exact
//! contracts; installing the result goes through `log4rs`.
pub mod number;
pub mod settings;
pub mod plan;
pub mod laws;
pub mod install;

pub use install::{init_with_config, init_with_file, init_with_settings, InitError};
pub use plan::{LoggerBinding, LoggingPlan};
