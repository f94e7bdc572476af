//! Thunderbird release tooling: the Mercurial command-server wire protocol,
//! command construction, and the release workflow decisions.
pub mod text;
pub mod error;
pub mod protocol;
pub mod connection;
pub mod args;
pub mod api;
pub mod mach;
pub mod pattern;
pub mod release;
pub mod release_cli;
