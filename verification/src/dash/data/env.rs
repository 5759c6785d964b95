//! Environments of an application.

use vstd::prelude::*;
use crate::ids;
use crate::time::{self, Timestamp};

verus! {

/// The state of an environment's latest build and run.
#[derive(Debug)]
pub enum Status {
    Unitialized,
    Building,
    BuildFailed(String),
    RuntimeError(String),
    Running,
}

impl Status {
    /// The variant's name, as the derived `Display` writes it.
    pub open spec fn spec_name(&self) -> Seq<char> {
        match self {
            Status::Unitialized => "Unitialized"@,
            Status::Building => "Building"@,
            Status::BuildFailed(_) => "BuildFailed"@,
            Status::RuntimeError(_) => "RuntimeError"@,
            Status::Running => "Running"@,
        }
    }

    /// The variant's name (the text the status is shown with).
    pub fn to_text(&self) -> (text: String)
        ensures
            text@ == self.spec_name(),
    {
        match self {
            Status::Unitialized => "Unitialized".to_string(),
            Status::Building => "Building".to_string(),
            Status::BuildFailed(_) => "BuildFailed".to_string(),
            Status::RuntimeError(_) => "RuntimeError".to_string(),
            Status::Running => "Running".to_string(),
        }
    }
}

impl Default for Status {
    fn default() -> (s: Self)
        ensures
            s is Unitialized,
    {
        Status::Unitialized
    }
}

/// Environment defines a handle for a specific instance of an application
/// that serves a distinct purpose.
///
/// Environments are bound to specific machines, where they receive a share of
/// hardware resources. This means we can define an application with multiple
/// environments where each environment exists on a different hardware system.
pub struct Env {
    pub id: u128,
    pub app: u128,
    pub handle: String,
    pub name: String,
    pub branch: String,
    pub subdomain: Option<String>,
    /// Application environment can be accessed at this url.
    pub address: String,
    pub status: Status,
    pub logs: Vec<String>,
    pub creation_time: Timestamp,
    pub last_edition_time: Timestamp,
    pub last_build_time: Option<Timestamp>,
}

impl Env {
    /// The fields an environment has by default, the clock-dependent and
    /// random ones aside: handle `test`, name `Testing`, branch `master`, no
    /// subdomain, an empty address, no logs, never built, not yet
    /// initialized, belonging to no application.
    pub open spec fn has_default_fields(&self) -> bool {
        &&& self.app == ids::NIL
        &&& self.handle@ == "test"@
        &&& self.name@ == "Testing"@
        &&& self.branch@ == "master"@
        &&& self.subdomain is None
        &&& self.address@ == ""@
        &&& self.status is Unitialized
        &&& self.logs@.len() == 0
        &&& self.last_build_time is None
    }
}

impl Default for Env {
    fn default() -> (e: Self)
        ensures
            e.has_default_fields(),
            ids::is_random_v4(e.id),
    {
        Env {
            id: ids::new_v4(),
            app: ids::NIL,
            handle: "test".to_string(),
            name: "Testing".to_string(),
            branch: "master".to_string(),
            subdomain: None,
            address: "".to_string(),
            status: Status::default(),
            logs: Vec::new(),
            creation_time: time::now(),
            last_edition_time: time::now(),
            last_build_time: None,
        }
    }
}

} // verus!
