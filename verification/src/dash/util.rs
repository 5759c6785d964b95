//! Setting up the application's records for a user.

use vstd::prelude::*;
use crate::ids;
use crate::dash::data::{Project, UserData};
use crate::dash::data::project::{name_adjectives, name_nouns};
use crate::namegen::is_numbered_name;

verus! {

/// The records a new user starts with: a project of their own, with a
/// drawn name, and their data, with that project as the current one.
pub fn init_user(user_id: u128) -> (records: (Project, UserData))
    ensures
        ids::is_random_v4(records.0.id),
        records.0.owner == user_id,
        is_numbered_name(records.0.name@, name_adjectives(), name_nouns()),
        records.0.acl@.len() == 0,
        records.1.id == user_id,
        records.1.current_project == records.0.id,
        records.1.github.handle is None,
{
    let mut project = Project::default();
    project.owner = user_id;
    let mut user_data = UserData::default();
    user_data.id = user_id;
    user_data.current_project = project.id;
    (project, user_data)
}

} // verus!
