//! Verified core of the ruda deployment platform: identifiers, the data
//! model of applications, environments, machines and sources, the
//! dashboard's page-building and request decisions, the realtime routing
//! between dashboard and runners, and the runner's message handling.

pub mod ids;
mod vecs;
pub mod text;
pub mod time;
pub mod namegen;
pub mod dash;
pub mod runner;
pub mod config;
pub mod cli;
