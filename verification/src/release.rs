//! Thunderbird release automation: the comm and mozilla repositories of a
//! channel, and the steps that cut a release in them.
pub mod channel;
pub mod error;
pub mod repo;
pub mod cli;
pub mod utils;
pub mod pin;
pub mod run;
pub mod commands;
pub mod stages;
pub mod gecko;
