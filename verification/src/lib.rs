//! The rules of a small command-runner service: the registry of configured
//! commands, the engine that runs one command as a child process, and the
//! replies that are made of the outcome. With them come the rules of the
//! service's front-end files and log, and those of a directory lister.

pub mod assets;
pub mod byte_order;
pub mod config;
pub mod dispatch;
pub mod engine;
pub mod listing;
pub mod logging;
pub mod name_order;
pub mod placeholder;
pub mod report;
pub mod table;
pub mod text;

pub use engine::{CommandError, CommandOutput};
