//! The access keys pages.

use vstd::prelude::*;
use crate::dash::data;
use crate::vecs::{filter_by_field, map_vec};
use super::partial::{Frame, Head, frame, framed};
use crate::dash::data::{Project, UserData};

verus! {

/// An access key as the pages show it.
pub struct Key {
    pub inner: data::Key,
}

impl Key {
    /// The key `s` as shown.
    pub fn from(s: data::Key) -> (k: Self)
        ensures
            k.inner == s,
    {
        Key { inner: s }
    }
}

impl Default for Key {
    /// A new key (see `data::Key::default`).
    fn default() -> (k: Self)
        ensures
            k.inner.has_default_fields(),
    {
        Key { inner: data::Key::default() }
    }
}

fn project_of(k: &data::Key) -> (p: u128)
    ensures
        p == k.project,
{
    k.project
}

/// The keys page for the user `user_id` with the stored data `data`: titled
/// `Keys`, with the sidebar at its link, showing the keys of the current project,
/// in their stored order.
pub fn list(keys: Vec<data::Key>, user_id: u128, projects: Vec<Project>, data: UserData) -> (page: (Frame, Vec<Key>))
    ensures
        framed(page.0, "Keys"@, "Keys"@, user_id, projects@, data.current_project),
        page.1@ == keys@.filter(|k: data::Key| k.project == data.current_project).map_values(
            |k: data::Key| Key { inner: k },
        ),
{
    let current_project = data.current_project;
    let frame = frame("Keys".to_string(), "Keys", user_id, projects, data);
    let kept = filter_by_field(keys, project_of, current_project, Ghost(|k: data::Key| k.project));
    proof {
        assert((|x: data::Key| (|k: data::Key| k.project)(x) == current_project) =~= (|k: data::Key| k.project == current_project));
    }
    let shown = map_vec(kept, Key::from, Ghost(|k: data::Key| Key { inner: k }));
    (frame, shown)
}

/// The page of a single key: a new key, titled `<name> | Key`.
pub fn single() -> (page: (Head, Key))
    ensures
        page.0.title@ == page.1.inner.name@ + " | Key"@,
        page.0.og_site_name@ == "RUDA"@,
        page.1.inner.has_default_fields(),
{
    let key = Key::default();
    let mut title = key.inner.name.clone();
    title.append(" | Key");
    (Head::titled(title), key)
}

} // verus!
