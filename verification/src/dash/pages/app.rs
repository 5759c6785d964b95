//! The applications pages: the list of a project's applications, a single
//! application, its update and the creation of a new one.

use vstd::prelude::*;
use crate::ids;
use crate::dash::data::App;
use crate::dash::data::app::is_default_env_named;
use crate::vecs::filter_by_field;
use super::Outcome;
use super::partial::{Frame, Head, frame, framed};
use crate::dash::data::{Project, UserData};

verus! {

/// An application as the pages show it, with its status.
pub struct Application {
    pub inner: App,
    pub status: String,
}

impl Application {
    /// The application `value` as shown; every application is shown as
    /// `operational`.
    pub fn from(value: App) -> (a: Self)
        ensures
            a.inner == value,
            a.status@ == "operational"@,
    {
        Application { inner: value, status: "operational".to_string() }
    }
}

/// Whether `shown` is `apps` as the pages show them, in order.
pub open spec fn shown_as(shown: Seq<Application>, apps: Seq<App>) -> bool {
    &&& shown.len() == apps.len()
    &&& forall|i: int|
        0 <= i < apps.len() ==> {
            &&& (#[trigger] shown[i]).inner == apps[i]
            &&& shown[i].status@ == "operational"@
        }
}

/// Whether the application `a` belongs to the project `project`.
pub open spec fn in_project(a: App, project: u128) -> bool {
    a.project == project
}

fn project_of(a: &App) -> (p: u128)
    ensures
        p == a.project,
{
    a.project
}

fn applications(apps: Vec<App>) -> (shown: Vec<Application>)
    ensures
        shown_as(shown@, apps@),
{
    let ghost whole = apps@;
    let mut rest = apps;
    let mut shown: Vec<Application> = Vec::new();
    proof {
        assert(whole.skip(0) =~= whole);
    }
    while rest.len() > 0
        invariant
            shown@.len() + rest@.len() == whole.len(),
            rest@ == whole.skip(shown@.len() as int),
            forall|i: int|
                0 <= i < shown@.len() ==> {
                    &&& (#[trigger] shown@[i]).inner == whole[i]
                    &&& shown@[i].status@ == "operational"@
                },
        decreases rest@.len(),
    {
        let k = Ghost(shown@.len() as int);
        let a = rest.remove(0);
        proof {
            assert(a == whole[k@]);
            assert(rest@ =~= whole.skip(k@ + 1));
        }
        shown.push(Application::from(a));
    }
    shown
}

/// The applications page for the user `user_id` with the stored data `data`: titled
/// `Applications`, with the sidebar at its link, showing the applications
/// of the current project, in their stored order.
pub fn list(apps: Vec<App>, user_id: u128, projects: Vec<Project>, data: UserData) -> (page: (Frame, Vec<Application>))
    ensures
        framed(page.0, "Applications"@, "Applications"@, user_id, projects@, data.current_project),
        shown_as(page.1@, apps@.filter(|a: App| in_project(a, data.current_project))),
{
    let current_project = data.current_project;
    let frame = frame("Applications".to_string(), "Applications", user_id, projects, data);
    let kept = filter_by_field(apps, project_of, current_project, Ghost(|a: App| a.project));
    proof {
        assert((|x: App| (|a: App| a.project)(x) == current_project) =~= (|a: App| in_project(a, current_project)));
    }
    (frame, applications(kept))
}

/// The page of the application `app`, titled with its name; an application
/// of another project than the one being viewed redirects to `/apps`.
pub fn single(app: App, current_project: u128) -> (page: Outcome<(Head, Application)>)
    ensures
        app.project != current_project ==> (page matches Outcome::Redirect(to) && to@ == "/apps"@),
        app.project == current_project ==> (page matches Outcome::Show((head, shown)) && {
            &&& head.title@ == app.name@
            &&& head.og_site_name@ == "RUDA"@
            &&& shown.inner == app
            &&& shown.status@ == "operational"@
        }),
{
    if current_project != app.project {
        return Outcome::Redirect("/apps".to_string());
    }
    let head = Head::titled(app.name.clone());
    Outcome::Show((head, Application::from(app)))
}

/// The form that updates an application.
pub struct UpdateForm {
    pub source_url: Option<String>,
}

/// Applies the update form to `app`: a given source URL replaces the
/// application's, and nothing else changes.
pub fn single_update(app: &mut App, update: UpdateForm)
    ensures
        *final(app) == (match update.source_url {
            Some(url) => App { source_url: url, ..*old(app) },
            None => *old(app),
        }),
{
    if let Some(source_url) = update.source_url {
        app.source_url = source_url;
    }
}

/// The form that creates an application.
pub struct NewForm {
    pub name: String,
    pub source_url: String,
    pub domain: String,
}

/// The path of an application's page.
pub open spec fn app_path(id: u128) -> Seq<char> {
    "/app/"@ + ids::hyphenated(id)
}

/// A new application of `owner` in `project`, named and sourced as the
/// form says, with the avatar image `avatar` (created by the caller), and
/// the path of its page that the browser is sent to. The form's domain is
/// not used: the application keeps the default one.
pub fn new(avatar: u128, owner: u128, project: u128, form: NewForm) -> (created: (App, String))
    ensures
        ids::is_random_v4(created.0.id),
        created.0.owner == owner,
        created.0.project == project,
        created.0.name == form.name,
        created.0.source_url == form.source_url,
        created.0.avatar == avatar,
        created.0.domain@ == "default.app"@,
        created.0.machine is None,
        created.0.envs@.len() == 2,
        is_default_env_named(created.0.envs@[0], "prod"@, "Production"@, "prod"@),
        is_default_env_named(created.0.envs@[1], "test"@, "Testing"@, "master"@),
        created.1@ == app_path(created.0.id),
{
    let mut app = App::new(avatar);
    app.owner = owner;
    app.project = project;
    app.name = form.name;
    app.source_url = form.source_url;
    let mut redir = "/app/".to_string();
    let id = ids::to_text(app.id);
    redir.append(id.as_str());
    (app, redir)
}

} // verus!
