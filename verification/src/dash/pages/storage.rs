//! The storages pages.

use vstd::prelude::*;
use crate::dash::data;
use crate::vecs::{filter_by_field, map_vec};
use super::partial::{Frame, Head, frame, framed};
use crate::dash::data::{Project, UserData};

verus! {

/// A storage as the pages show it.
pub struct Storage {
    pub inner: data::Storage,
}

impl Storage {
    /// The storage `s` as shown.
    pub fn from(s: data::Storage) -> (shown: Self)
        ensures
            shown.inner == s,
    {
        Storage { inner: s }
    }
}

impl Default for Storage {
    /// A new storage (see `data::Storage::default`).
    fn default() -> (shown: Self)
        ensures
            shown.inner.has_default_fields(),
    {
        Storage { inner: data::Storage::default() }
    }
}

fn project_of(s: &data::Storage) -> (p: u128)
    ensures
        p == s.project,
{
    s.project
}

/// The storages page for the user `user_id` with the stored data `data`: titled
/// `Storages`, with the sidebar at its link, showing the storages of the current
/// project, in their stored order.
pub fn list(storages: Vec<data::Storage>, user_id: u128, projects: Vec<Project>, data: UserData) -> (page: (Frame, Vec<Storage>))
    ensures
        framed(page.0, "Storages"@, "Storages"@, user_id, projects@, data.current_project),
        page.1@ == storages@.filter(|s: data::Storage| s.project == data.current_project).map_values(
            |s: data::Storage| Storage { inner: s },
        ),
{
    let current_project = data.current_project;
    let frame = frame("Storages".to_string(), "Storages", user_id, projects, data);
    let kept = filter_by_field(storages, project_of, current_project, Ghost(|s: data::Storage| s.project));
    proof {
        assert((|x: data::Storage| (|s: data::Storage| s.project)(x) == current_project) =~= (|s: data::Storage| s.project == current_project));
    }
    let shown = map_vec(kept, Storage::from, Ghost(|s: data::Storage| Storage { inner: s }));
    (frame, shown)
}

/// The page of a single storage: a new storage, titled `<name> | Storage`.
pub fn single() -> (page: (Head, Storage))
    ensures
        page.0.title@ == page.1.inner.name@ + " | Storage"@,
        page.0.og_site_name@ == "RUDA"@,
        page.1.inner.has_default_fields(),
{
    let storage = Storage::default();
    let mut title = storage.inner.name.clone();
    title.append(" | Storage");
    (Head::titled(title), storage)
}

} // verus!
