//! The machines pages.

use vstd::prelude::*;
use crate::ids;
use crate::dash::data;
use crate::dash::data::machine::{Kind, Status};
use crate::vecs::filter_by_field;
use super::partial::{Frame, Head, frame, framed};
use crate::dash::data::{Project, UserData};

verus! {

/// A machine as the pages show it: with its status and its location as
/// text.
pub struct Machine {
    pub inner: data::Machine,
    pub status: String,
    pub location: String,
}

impl Machine {
    /// The machine `m` as shown: its status by name and its address as its
    /// location.
    pub fn from(m: data::Machine) -> (shown: Self)
        ensures
            shown.inner == m,
            shown.status@ == m.status.spec_name(),
            shown.location@ == m.address@,
    {
        Machine { status: m.status.to_text(), location: m.address.clone(), inner: m }
    }
}

/// Whether `shown` is `machines` as the pages show them, in order.
pub open spec fn shown_as(shown: Seq<Machine>, machines: Seq<data::Machine>) -> bool {
    &&& shown.len() == machines.len()
    &&& forall|i: int|
        0 <= i < machines.len() ==> {
            &&& (#[trigger] shown[i]).inner == machines[i]
            &&& shown[i].status@ == machines[i].status.spec_name()
            &&& shown[i].location@ == machines[i].address@
        }
}

fn project_of(m: &data::Machine) -> (p: u128)
    ensures
        p == m.project,
{
    m.project
}

fn machines_shown(machines: Vec<data::Machine>) -> (shown: Vec<Machine>)
    ensures
        shown_as(shown@, machines@),
{
    let ghost whole = machines@;
    let mut rest = machines;
    let mut shown: Vec<Machine> = Vec::new();
    proof {
        assert(whole.skip(0) =~= whole);
    }
    while rest.len() > 0
        invariant
            shown@.len() + rest@.len() == whole.len(),
            rest@ == whole.skip(shown@.len() as int),
            forall|i: int|
                0 <= i < shown@.len() ==> {
                    &&& (#[trigger] shown@[i]).inner == whole[i]
                    &&& shown@[i].status@ == whole[i].status.spec_name()
                    &&& shown@[i].location@ == whole[i].address@
                },
        decreases rest@.len(),
    {
        let k = Ghost(shown@.len() as int);
        let m = rest.remove(0);
        proof {
            assert(m == whole[k@]);
            assert(rest@ =~= whole.skip(k@ + 1));
        }
        shown.push(Machine::from(m));
    }
    shown
}

/// The machines page for the user `user_id` with the stored data `data`: titled
/// `Machines`, with the sidebar at its link, showing the machines of the
/// current project, in their stored order.
pub fn list(machines: Vec<data::Machine>, user_id: u128, projects: Vec<Project>, data: UserData) -> (page: (Frame, Vec<Machine>))
    ensures
        framed(page.0, "Machines"@, "Machines"@, user_id, projects@, data.current_project),
        shown_as(page.1@, machines@.filter(|m: data::Machine| m.project == data.current_project)),
{
    let current_project = data.current_project;
    let frame = frame("Machines".to_string(), "Machines", user_id, projects, data);
    let kept = filter_by_field(machines, project_of, current_project, Ghost(|m: data::Machine| m.project));
    proof {
        assert((|x: data::Machine| (|m: data::Machine| m.project)(x) == current_project) =~= (|m: data::Machine| m.project == current_project));
    }
    (frame, machines_shown(kept))
}

/// The page of a single machine, titled `Machine X`.
pub fn single(machine: data::Machine) -> (page: (Head, Machine))
    ensures
        page.0.title@ == "Machine X"@,
        page.0.og_site_name@ == "RUDA"@,
        page.1.inner == machine,
        page.1.status@ == machine.status.spec_name(),
        page.1.location@ == machine.address@,
{
    (Head::titled("Machine X".to_string()), Machine::from(machine))
}

/// The form that adds a machine.
pub struct NewForm {
    pub name: String,
}

/// The path of a machine's page.
pub open spec fn machine_path(id: u128) -> Seq<char> {
    "/machine/"@ + ids::hyphenated(id)
}

/// A new machine of `owner` in `project`, named as the form says, with a
/// fresh random secret, and the path of its page that the browser is sent
/// to.
pub fn new(owner: u128, project: u128, form: NewForm) -> (created: (data::Machine, String))
    ensures
        ids::is_random_v4(created.0.id),
        created.0.owner == owner,
        created.0.project == project,
        created.0.name == form.name,
        created.0.kind == Kind::Unmanaged,
        created.0.status == Status::Disconnected,
        ids::is_random_v4(created.0.secret),
        created.0.address@ == "localhost"@,
        created.1@ == machine_path(created.0.id),
{
    let mut machine = data::Machine::default();
    machine.owner = owner;
    machine.project = project;
    machine.name = form.name;
    let mut redir = "/machine/".to_string();
    let id = ids::to_text(machine.id);
    redir.append(id.as_str());
    (machine, redir)
}

} // verus!
