//! The dashboard: its data model, the pages it builds and the decisions
//! its request handlers make, and the realtime link to the runners.

pub mod config;
pub mod data;
pub mod pages;
pub mod realtime;
pub mod util;
pub mod mock;
pub mod startup;
