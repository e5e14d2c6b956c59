//! Decision logic of a bridge between a webview application and a platform
//! that hands out documents as opaque content references: picking a
//! reference, making its grant durable, reading its metadata, and relaying a
//! display name out of a callback that runs on the thread owning the
//! interface.
//!
//! The platform calls themselves are made by the caller. Each flow here is a
//! machine that says which call comes next and takes its outcome back.

pub mod bridge;
pub mod bridge_laws;
pub mod command;
pub mod command_laws;
pub mod error;
pub mod extract;
pub mod files;
pub mod files_laws;
pub mod reference;
