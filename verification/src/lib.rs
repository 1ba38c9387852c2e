//! Embedded print-job server core: configuration, the print-job state
//! machine with its bounded ledger, the server lifecycle model, printer
//! discovery parsing, and the submission pipeline that the HTTP layer
//! drives.

pub mod autostart;
pub mod config;
pub mod ids;
pub mod jobs;
pub mod lifecycle;
pub mod printers;
pub mod service;
pub mod text;
