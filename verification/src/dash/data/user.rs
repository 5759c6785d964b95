//! Application-specific user data, deployments and code sources.

use vstd::prelude::*;
use crate::ids;
use crate::time::Timestamp;

verus! {

/// A user's verified GitHub link.
pub struct Github {
    /// Verified github handle
    pub handle: Option<String>,
}

impl Default for Github {
    /// No linked handle.
    fn default() -> (g: Self)
        ensures
            g.handle is None,
    {
        Github { handle: None }
    }
}

/// Application-specific user data. Uses the same user id as the base user
/// record.
///
/// Our application is not concerned with storing user settings per session.
/// Any additional settings are stored in the main db and accessed directly
/// when building responses on the server.
pub struct UserData {
    pub id: u128,
    pub current_project: u128,
    pub github: Github,
}

impl UserData {
    /// The name of the stored collection of user data.
    pub fn get_collection_name() -> (name: &'static str)
        ensures
            name@ == "user_data"@,
    {
        "user_data"
    }

    /// The user's identifier.
    pub fn get_id(&self) -> (id: u128)
        ensures
            id == self.id,
    {
        self.id
    }
}

impl Default for UserData {
    /// No user, no current project, no GitHub link.
    fn default() -> (d: Self)
        ensures
            d.id == ids::NIL,
            d.current_project == ids::NIL,
            d.github.handle is None,
    {
        UserData { id: ids::NIL, current_project: ids::NIL, github: Github::default() }
    }
}

/// A deployment of a program by a user.
pub struct Deployment {
    pub id: u128,
    pub owner: u128,
    pub program: String,
}

/// A code source: an installation of the GitHub app.
pub struct Source {
    pub id: u128,
    /// Owner of the source is the user that performed the installation of the
    /// github app. As far as we are concerned, this means they showed up with
    /// the proper installation id that also matched their github infomation.
    pub owner: u128,
    /// Since with github app installations we can't do single install per
    /// project, sources can be shared between multiple projects.
    pub projects: Vec<u128>,
    /// Id of the installation as provided by the user that installed the
    /// github app.
    pub installation_id: Option<u64>,
    pub installation_time: Timestamp,
}

impl Source {
    /// The name of the stored collection of sources.
    pub fn get_collection_name() -> (name: &'static str)
        ensures
            name@ == "source"@,
    {
        "source"
    }

    /// The source's identifier.
    pub fn get_id(&self) -> (id: u128)
        ensures
            id == self.id,
    {
        self.id
    }
}

} // verus!
