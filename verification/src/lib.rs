//! Looks up file hashes listed in a CSV export against the VirusTotal files
//! endpoint.
//!
//! The library holds every decision of a run: which command lines are
//! accepted, which rows are read, how a row's ninth column is cut into hashes,
//! which request stands for a hash, and which line is shown for a reply. The
//! caller opens the file, sends the requests and prints the lines.

pub mod args;
pub mod error;
pub mod json;
pub mod lines;
pub mod plan;
pub mod records;
pub mod request;
pub mod session;
pub mod status;
pub mod tokens;
