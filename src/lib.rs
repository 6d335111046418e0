//! Build, package and deploy programs for the PlayStation Vita.
//!
//! The library holds the decisions of the tool: title identifiers, package
//! configuration, the stages that turn an executable into an installable
//! package, the upload session and the remote control commands. Processes,
//! sockets and the file system are driven by the program around it.
pub mod artifact;
pub mod commands;
pub mod control;
pub mod coredump;
pub mod logs;
pub mod meta;
pub mod paths;
pub mod stages;
pub mod sync;
pub mod text;
pub mod title_id;
pub mod upload;

pub use title_id::{TitleId, TitleIdError};
