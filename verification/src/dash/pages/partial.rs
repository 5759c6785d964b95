//! Parts shared by every page: the head, the sidebar and the footer.

use vstd::prelude::*;
use crate::ids;
use crate::dash::data::{Project, UserData};
use crate::dash::data::project;
use crate::dash::util::init_user;
use crate::namegen::is_numbered_name;
use crate::text::{signed_decimal, signed_decimal_text};
use crate::time;
use crate::vecs::filter_by_field;

verus! {

/// The year shown in the footer: the current year (by the machine's
/// clock), 1970 or later, as a decimal numeral.
pub fn year() -> (year: String)
    ensures
        exists|y: i32| 1970 <= y && year@ == signed_decimal(y as int),
{
    let y = time::current_year();
    signed_decimal_text(y as i64)
}

/// The page's title and site name.
pub struct Head {
    pub title: String,
    pub og_site_name: String,
}

impl Head {
    /// The head of a page titled `title`, with the default site name
    /// (`Head { title, ..Default::default() }`).
    pub fn titled(title: String) -> (h: Head)
        ensures
            h.title@ == title@,
            h.og_site_name@ == "RUDA"@,
    {
        let mut h = Head::default();
        h.title = title;
        h
    }
}

impl Default for Head {
    /// Title `Dashboard`, site name `RUDA`.
    fn default() -> (h: Self)
        ensures
            h.title@ == "Dashboard"@,
            h.og_site_name@ == "RUDA"@,
    {
        Head { title: "Dashboard".to_string(), og_site_name: "RUDA".to_string() }
    }
}

/// A link of the sidebar.
pub struct SidebarEntry {
    pub name: String,
    pub url: String,
    pub active: bool,
}

impl Default for SidebarEntry {
    /// An inactive link named `entry` to `/`.
    fn default() -> (e: Self)
        ensures
            e.name@ == "entry"@,
            e.url@ == "/"@,
            !e.active,
    {
        SidebarEntry { name: "entry".to_string(), url: "/".to_string(), active: false }
    }
}

/// The names of the sidebar's links, in order.
pub open spec fn entry_names() -> Seq<Seq<char>> {
    seq![
        "Summary"@,
        "Applications"@,
        "Machines"@,
        "Sources"@,
        "Storages"@,
        "Keys"@,
        "Integrations"@,
        "Notifications"@,
        "Account"@,
    ]
}

/// The targets of the sidebar's links, in order.
pub open spec fn entry_urls() -> Seq<Seq<char>> {
    seq![
        "/"@,
        "/apps"@,
        "/machines"@,
        "/sources"@,
        "/storages"@,
        "/keys"@,
        "/integrations"@,
        "/notifications"@,
        "/account"@,
    ]
}

/// The sidebar: its links, the user's projects and the project being
/// viewed.
pub struct Sidebar {
    pub entries: Vec<SidebarEntry>,
    pub projects: Vec<Project>,
    pub current_project_id: u128,
}

/// Whether `entries` are the sidebar's links, in order, and exactly those
/// whose name is `active` are marked active.
pub open spec fn entries_with_active(entries: Seq<SidebarEntry>, active: Seq<char>) -> bool {
    &&& entries.len() == 9
    &&& forall|i: int|
        0 <= i < 9 ==> {
            &&& (#[trigger] entries[i]).name@ == entry_names()[i]
            &&& entries[i].url@ == entry_urls()[i]
            &&& entries[i].active == (entry_names()[i] == active)
        }
}

/// Whether the project `p` is owned by `user`.
pub open spec fn owned_by(p: Project, user: u128) -> bool {
    p.owner == user
}

fn entry(name: &str, url: &str) -> (e: SidebarEntry)
    ensures
        e.name@ == name@,
        e.url@ == url@,
        !e.active,
{
    SidebarEntry { name: name.to_string(), url: url.to_string(), active: false }
}

impl Sidebar {
    /// The sidebar at the page named `name` for the user `user_id`: the
    /// links, with exactly the one(s) named `name` active; the user's own
    /// projects, in the order of `projects`; and the project being viewed.
    /// `projects` is the stored collection of projects and `user_data` the
    /// user's stored data, if any, both read by the caller. A user with
    /// stored data views its current project. A user without gets the
    /// records of a new user (see `init_user`), returned for the caller to
    /// store, and views their new project, which is not among the listed
    /// projects, read before it existed.
    pub fn at(name: &str, user_id: u128, projects: Vec<Project>, user_data: Option<UserData>)
        -> (r: (Self, Option<(Project, UserData)>))
        ensures
            entries_with_active(r.0.entries@, name@),
            r.0.projects@ == projects@.filter(|p: Project| owned_by(p, user_id)),
            match user_data {
                Some(d) => r.0.current_project_id == d.current_project && r.1 is None,
                None => r.1 matches Some((p, d)) && {
                    &&& ids::is_random_v4(p.id)
                    &&& p.owner == user_id
                    &&& is_numbered_name(p.name@, project::name_adjectives(), project::name_nouns())
                    &&& p.acl@.len() == 0
                    &&& d.id == user_id
                    &&& d.current_project == p.id
                    &&& d.github.handle is None
                    &&& r.0.current_project_id == p.id
                },
            },
    {
        let mut s = Self::default();
        let target = name.to_string();
        let mut i: usize = 0;
        while i < s.entries.len()
            invariant
                s.entries@.len() == 9,
                0 <= i <= 9,
                target@ == name@,
                forall|j: int|
                    0 <= j < 9 ==> {
                        &&& (#[trigger] s.entries@[j]).name@ == entry_names()[j]
                        &&& s.entries@[j].url@ == entry_urls()[j]
                        &&& s.entries@[j].active == (j < i && entry_names()[j] == name@)
                    },
            decreases 9 - i,
        {
            if s.entries[i].name == target {
                let e = SidebarEntry {
                    name: s.entries[i].name.clone(),
                    url: s.entries[i].url.clone(),
                    active: true,
                };
                s.entries.set(i, e);
            }
            i = i + 1;
        }
        s.projects = filter_by_field(projects, Project::get_owner, user_id, Ghost(|p: Project| p.owner));
        proof {
            assert((|x: Project| (|p: Project| p.owner)(x) == user_id) =~= (|p: Project| owned_by(p, user_id)));
        }
        let created = match user_data {
            Some(d) => {
                s.current_project_id = d.current_project;
                None
            },
            None => {
                let (p, d) = init_user(user_id);
                s.current_project_id = p.id;
                Some((p, d))
            },
        };
        (s, created)
    }
}

impl Default for Sidebar {
    /// The sidebar's links, none active (Summary `/`, Applications `/apps`,
    /// Machines `/machines`, Sources `/sources`, Storages `/storages`, Keys
    /// `/keys`, Integrations `/integrations`, Notifications
    /// `/notifications`, Account `/account`), no projects and a random
    /// current project id.
    fn default() -> (s: Self)
        ensures
            s.entries@.len() == 9,
            forall|i: int|
                0 <= i < 9 ==> {
                    &&& (#[trigger] s.entries@[i]).name@ == entry_names()[i]
                    &&& s.entries@[i].url@ == entry_urls()[i]
                    &&& !s.entries@[i].active
                },
            s.projects@.len() == 0,
            ids::is_random_v4(s.current_project_id),
    {
        let mut entries: Vec<SidebarEntry> = Vec::new();
        entries.push(entry("Summary", "/"));
        entries.push(entry("Applications", "/apps"));
        entries.push(entry("Machines", "/machines"));
        entries.push(entry("Sources", "/sources"));
        entries.push(entry("Storages", "/storages"));
        entries.push(entry("Keys", "/keys"));
        entries.push(entry("Integrations", "/integrations"));
        entries.push(entry("Notifications", "/notifications"));
        entries.push(entry("Account", "/account"));
        Sidebar { projects: Vec::new(), entries, current_project_id: ids::new_v4() }
    }
}

/// The parts every signed-in page has: its head and its sidebar.
pub struct Frame {
    pub head: Head,
    pub sidebar: Sidebar,
}

/// Whether `f` is the frame of a page titled `title` whose sidebar marks
/// the link `entry`, for the user `user_id` with the stored `projects`,
/// viewing `current`.
pub open spec fn framed(
    f: Frame,
    title: Seq<char>,
    entry: Seq<char>,
    user_id: u128,
    projects: Seq<Project>,
    current: u128,
) -> bool {
    &&& f.head.title@ == title
    &&& f.head.og_site_name@ == "RUDA"@
    &&& entries_with_active(f.sidebar.entries@, entry)
    &&& f.sidebar.projects@ == projects.filter(|p: Project| owned_by(p, user_id))
    &&& f.sidebar.current_project_id == current
}

/// The frame of a page titled `title` for the signed-in user `user_id`
/// with the stored data `data`: the sidebar at the link `entry` (see
/// `Sidebar::at`), listing the user's own projects among `projects`.
pub fn frame(title: String, entry: &str, user_id: u128, projects: Vec<Project>, data: UserData) -> (f: Frame)
    ensures
        framed(f, title@, entry@, user_id, projects@, data.current_project),
{
    let (sidebar, _) = Sidebar::at(entry, user_id, projects, Some(data));
    Frame { head: Head::titled(title), sidebar }
}

} // verus!
