//! The release tool as it stands in `release-cli`: the same steps, with the
//! graft of each uplift checked against the original patch.
pub mod utils;
pub mod commands;
