//! Sample records for a user, to populate a development database.

use vstd::prelude::*;
use crate::ids;
use crate::dash::data::{App, Machine, Project, Source, UserData};
use crate::dash::data::machine::{Kind, Status};
use crate::dash::data::{machine, project};
use crate::namegen::is_numbered_name;
use crate::time;

verus! {

/// The sample records of one user.
pub struct MockUser {
    /// Two projects of the user; the second is the current one.
    pub projects: (Project, Project),
    pub user_data: UserData,
    pub source: Source,
    pub app: App,
    pub machine: Machine,
}

/// A project of `owner` with a random identifier, a drawn name and an
/// empty access list.
pub open spec fn is_sample_project(p: Project, owner: u128) -> bool {
    &&& ids::is_random_v4(p.id)
    &&& p.owner == owner
    &&& is_numbered_name(p.name@, project::name_adjectives(), project::name_nouns())
    &&& p.acl@.len() == 0
}

fn sample_project(owner: u128) -> (p: Project)
    ensures
        is_sample_project(p, owner),
{
    let mut p = Project::default();
    p.id = ids::new_v4();
    p.owner = owner;
    p.acl = Vec::new();
    p
}

/// The sample records of the user `user_id`: two projects, the user's data
/// viewing the second, a source shared with it and not installed, an
/// application of it sourced from `github.com/app/source` with a random
/// avatar, and an unmanaged, disconnected machine of it at `localhost` with
/// a random secret.
pub fn user(user_id: u128) -> (m: MockUser)
    ensures
        is_sample_project(m.projects.0, user_id),
        is_sample_project(m.projects.1, user_id),
        m.user_data.id == user_id,
        m.user_data.current_project == m.projects.1.id,
        m.user_data.github.handle is None,
        ids::is_random_v4(m.source.id),
        m.source.owner == user_id,
        m.source.projects@ == seq![m.projects.1.id],
        m.source.installation_id is None,
        ids::is_random_v4(m.app.id),
        m.app.owner == user_id,
        m.app.project == m.projects.1.id,
        ids::is_random_v4(m.app.avatar),
        m.app.source_url@ == "github.com/app/source"@,
        m.app.has_default_settings(),
        ids::is_random_v4(m.machine.id),
        m.machine.owner == user_id,
        m.machine.project == m.projects.1.id,
        m.machine.kind == Kind::Unmanaged,
        m.machine.status == Status::Disconnected,
        ids::is_random_v4(m.machine.secret),
        m.machine.address@ == "localhost"@,
        is_numbered_name(m.machine.name@, machine::name_adjectives(), machine::name_nouns()),
{
    let first = sample_project(user_id);
    let second = sample_project(user_id);
    let mut user_data = UserData::default();
    user_data.id = user_id;
    user_data.current_project = second.id;
    let mut projects: Vec<u128> = Vec::new();
    projects.push(second.id);
    proof {
        assert(projects@ =~= seq![second.id]);
    }
    let source = Source {
        id: ids::new_v4(),
        owner: user_id,
        projects,
        installation_id: None,
        installation_time: time::now(),
    };
    let mut app = App::default();
    app.id = ids::new_v4();
    app.owner = user_id;
    app.project = second.id;
    app.avatar = ids::new_v4();
    app.source_url = "github.com/app/source".to_string();
    let mut machine = Machine::default();
    machine.id = ids::new_v4();
    machine.owner = user_id;
    machine.project = second.id;
    machine.kind = Kind::Unmanaged;
    machine.status = Status::Disconnected;
    machine.secret = ids::new_v4();
    machine.address = "localhost".to_string();
    MockUser { projects: (first, second), user_data, source, app, machine }
}

} // verus!
