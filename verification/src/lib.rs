//! Bootstrap subsystem for a command-line video downloader: decides, for each
//! required external tool, whether it is already usable, how to install it if
//! not, and how to make its directory visible to child processes spawned later
//! in the same run. All decisions are made here over plain values; the
//! surrounding program performs the actual process spawns, network fetches and
//! filesystem writes and reports their results back.

pub mod catalog;
pub mod download;
pub mod install;
pub mod paths;
pub mod probe;
pub mod search_path;
pub mod url;
