//! The code sources pages: a source as shown with its GitHub installation,
//! and the installation of the GitHub app.

use vstd::prelude::*;
use crate::ids;
use crate::dash::data;
use crate::text::{decimal, decimal_text};
use crate::time::{self, Timestamp, rfc2822_representable, rfc2822_text, valid_timestamp};
use super::Outcome;
use super::partial::{Frame, Head, frame, framed};
use crate::dash::data::{Project, UserData};

verus! {

/// A GitHub app installation, as the provider describes it: the fields the
/// pages read.
pub struct Installation {
    pub id: u64,
    pub account_login: String,
    pub account_type: String,
    pub account_avatar_url: String,
    pub html_url: Option<String>,
    pub created_at: Option<Timestamp>,
    pub updated_at: Option<Timestamp>,
    pub repository_selection: Option<String>,
}

/// A code source as the pages show it.
pub struct Source {
    pub id: u128,
    pub account_avatar_url: String,
    pub account_name: String,
    pub account_type: String,
    pub installation_id: String,
    pub installation_url: String,
    pub installation_created_at: String,
    pub installation_updated_at: String,
    pub repo_access: String,
}

impl Default for Source {
    /// The nil source with every text empty.
    fn default() -> (s: Self)
        ensures
            s.id == ids::NIL,
            s.account_avatar_url@ == Seq::<char>::empty(),
            s.account_name@ == Seq::<char>::empty(),
            s.account_type@ == Seq::<char>::empty(),
            s.installation_id@ == Seq::<char>::empty(),
            s.installation_url@ == Seq::<char>::empty(),
            s.installation_created_at@ == Seq::<char>::empty(),
            s.installation_updated_at@ == Seq::<char>::empty(),
            s.repo_access@ == Seq::<char>::empty(),
    {
        Source {
            id: ids::NIL,
            account_avatar_url: String::new(),
            account_name: String::new(),
            account_type: String::new(),
            installation_id: String::new(),
            installation_url: String::new(),
            installation_created_at: String::new(),
            installation_updated_at: String::new(),
            repo_access: String::new(),
        }
    }
}

/// Where the GitHub app is installed when the provider gives no address.
pub open spec fn default_installation_url() -> Seq<char> {
    "https://github.com/apps/ruda-app/installations/new"@
}

/// A time as shown: its RFC 2822 text, or `unknown`.
pub open spec fn shown_time(t: Option<Timestamp>) -> Seq<char> {
    match t {
        Some(t) => rfc2822_text(t.secs, t.nanos),
        None => "unknown"@,
    }
}

/// Whether a time, where there is one, is a valid time that can be written
/// in RFC 2822.
pub open spec fn writable_time(t: Option<Timestamp>) -> bool {
    t matches Some(t) ==> rfc2822_representable(t.secs) && valid_timestamp(t)
}

fn show_time(t: Option<Timestamp>) -> (text: String)
    requires
        writable_time(t),
    ensures
        text@ == shown_time(t),
{
    match t {
        Some(t) => time::rfc2822(t),
        None => "unknown".to_string(),
    }
}

/// Whether `s` is the stored source `source` shown with its installation
/// `install`: the installation's account, id, address (or the app's
/// installation page), creation and update times (or `unknown`), and
/// repository selection (or `none`).
pub open spec fn shown_with(s: Source, source: data::Source, install: Installation) -> bool {
    &&& s.id == source.id
    &&& s.account_name == install.account_login
    &&& s.account_type == install.account_type
    &&& s.account_avatar_url == install.account_avatar_url
    &&& s.installation_id@ == decimal(install.id as nat)
    &&& s.installation_url@ == (match install.html_url {
        Some(u) => u@,
        None => default_installation_url(),
    })
    &&& s.installation_created_at@ == shown_time(install.created_at)
    &&& s.installation_updated_at@ == shown_time(install.updated_at)
    &&& s.repo_access@ == (match install.repository_selection {
        Some(r) => r@,
        None => "none"@,
    })
}

impl Source {
    /// The stored source `source` as shown with its installation `install`:
    /// the installation's account, id, address (or the app's installation
    /// page), creation and update times (or `unknown`), and repository
    /// selection (or `none`). Times that are not valid or fall outside the
    /// years 0..=9999 cannot be written and are left out (`requires`).
    pub fn from_data_source(source: data::Source, install: Installation) -> (s: Self)
        requires
            writable_time(install.created_at),
            writable_time(install.updated_at),
        ensures
            shown_with(s, source, install),
    {
        let installation_url = match install.html_url {
            Some(u) => u,
            None => "https://github.com/apps/ruda-app/installations/new".to_string(),
        };
        let repo_access = match install.repository_selection {
            Some(r) => r,
            None => "none".to_string(),
        };
        Source {
            id: source.id,
            account_name: install.account_login,
            account_type: install.account_type,
            account_avatar_url: install.account_avatar_url,
            installation_id: decimal_text(install.id),
            installation_url,
            installation_created_at: show_time(install.created_at),
            installation_updated_at: show_time(install.updated_at),
            repo_access,
        }
    }
}

/// What the sources page does with a stored source.
pub enum Listing {
    /// Shows it.
    Show(Source),
    /// Removes the stored source with this identifier: the provider does
    /// not recognise its installation.
    Remove(u128),
    /// Leaves it out: it has no installation.
    Skip,
}

/// The sources page's treatment of the stored source `source`, given the
/// installation the provider returned for it (`found`, `None` where it did
/// not recognise it; not looked at for a source without an installation).
pub fn list_entry(source: data::Source, found: Option<Installation>) -> (l: Listing)
    requires
        found matches Some(i) ==> writable_time(i.created_at) && writable_time(i.updated_at),
    ensures
        source.installation_id is None ==> l is Skip,
        source.installation_id is Some && found is None ==> l == Listing::Remove(source.id),
        source.installation_id is Some && found is Some ==> (l matches Listing::Show(shown)
            && shown_with(shown, source, found->0)),
{
    if source.installation_id.is_none() {
        return Listing::Skip;
    }
    match found {
        Some(install) => Listing::Show(Source::from_data_source(source, install)),
        None => Listing::Remove(source.id),
    }
}

/// The stored sources the sources page shows, each with the installation
/// the provider returned for it, in order: those with an installation that
/// the provider recognised.
pub open spec fn shown_pairs(sources: Seq<data::Source>, found: Seq<Option<Installation>>) -> Seq<(data::Source, Installation)>
    decreases sources.len(),
{
    if sources.len() == 0 || found.len() == 0 {
        Seq::empty()
    } else {
        let rest = shown_pairs(sources.drop_last(), found.drop_last());
        let s = sources.last();
        if s.installation_id is Some && found.last() is Some {
            rest.push((s, found.last()->0))
        } else {
            rest
        }
    }
}

/// The identifiers of the stored sources the sources page removes, in
/// order: those with an installation the provider did not recognise.
pub open spec fn removed_ids(sources: Seq<data::Source>, found: Seq<Option<Installation>>) -> Seq<u128>
    decreases sources.len(),
{
    if sources.len() == 0 || found.len() == 0 {
        Seq::empty()
    } else {
        let rest = removed_ids(sources.drop_last(), found.drop_last());
        let s = sources.last();
        if s.installation_id is Some && found.last() is None {
            rest.push(s.id)
        } else {
            rest
        }
    }
}

/// The sources page removes only what the provider disowns: every removed
/// identifier is that of a stored source which has an installation the
/// provider did not recognise, and every such source is removed. A source
/// without an installation is never removed.
pub proof fn removed_exactly_the_unrecognised(sources: Seq<data::Source>, found: Seq<Option<Installation>>)
    requires
        sources.len() == found.len(),
    ensures
        forall|k: int|
            #![trigger removed_ids(sources, found)[k]]
            0 <= k < removed_ids(sources, found).len() ==> exists|i: int|
                #![trigger sources[i]]
                0 <= i < sources.len() && sources[i].id == removed_ids(sources, found)[k]
                    && sources[i].installation_id is Some && found[i] is None,
        forall|i: int|
            0 <= i < sources.len() && sources[i].installation_id is Some && found[i] is None
                ==> removed_ids(sources, found).contains(#[trigger] sources[i].id),
    decreases sources.len(),
{
    if sources.len() > 0 {
        let ps = sources.drop_last();
        let pf = found.drop_last();
        removed_exactly_the_unrecognised(ps, pf);
        let rest = removed_ids(ps, pf);
        let n = sources.len() - 1;
        assert forall|k: int|
            #![trigger removed_ids(sources, found)[k]]
            0 <= k < removed_ids(sources, found).len() implies exists|i: int|
            #![trigger sources[i]]
            0 <= i < sources.len() && sources[i].id == removed_ids(sources, found)[k]
                && sources[i].installation_id is Some && found[i] is None by {
            if k < rest.len() {
                let i = choose|i: int|
                    #![trigger ps[i]]
                    0 <= i < ps.len() && ps[i].id == rest[k] && ps[i].installation_id is Some && pf[i] is None;
                assert(sources[i] == ps[i]);
                assert(found[i] == pf[i]);
            } else {
                assert(sources[n] == sources.last());
            }
        }
        assert forall|i: int|
            0 <= i < sources.len() && sources[i].installation_id is Some && found[i] is None implies
            removed_ids(sources, found).contains(#[trigger] sources[i].id) by {
            if i < n {
                assert(ps[i] == sources[i]);
                assert(pf[i] == found[i]);
                assert(rest.contains(ps[i].id));
                let k = choose|k: int| 0 <= k < rest.len() && rest[k] == ps[i].id;
                assert(removed_ids(sources, found)[k] == rest[k]);
            } else {
                assert(removed_ids(sources, found) == rest.push(sources[i].id));
                assert(removed_ids(sources, found)[rest.len() as int] == sources[i].id);
            }
        }
    }
}

/// The sources page shows only recognised installations: each shown source
/// is a stored source, at some position, that has an installation, shown
/// with the installation the provider returned for it.
pub proof fn shown_only_recognised(sources: Seq<data::Source>, found: Seq<Option<Installation>>)
    requires
        sources.len() == found.len(),
    ensures
        forall|k: int|
            #![trigger shown_pairs(sources, found)[k]]
            0 <= k < shown_pairs(sources, found).len() ==> exists|i: int|
                #![trigger sources[i]]
                0 <= i < sources.len() && shown_pairs(sources, found)[k].0 == sources[i]
                    && sources[i].installation_id is Some
                    && found[i] == Some(shown_pairs(sources, found)[k].1),
    decreases sources.len(),
{
    if sources.len() > 0 {
        let ps = sources.drop_last();
        let pf = found.drop_last();
        shown_only_recognised(ps, pf);
        let rest = shown_pairs(ps, pf);
        let n = sources.len() - 1;
        assert forall|k: int|
            #![trigger shown_pairs(sources, found)[k]]
            0 <= k < shown_pairs(sources, found).len() implies exists|i: int|
            #![trigger sources[i]]
            0 <= i < sources.len() && shown_pairs(sources, found)[k].0 == sources[i]
                && sources[i].installation_id is Some
                && found[i] == Some(shown_pairs(sources, found)[k].1) by {
            if k < rest.len() {
                let i = choose|i: int|
                    #![trigger ps[i]]
                    0 <= i < ps.len() && rest[k].0 == ps[i] && ps[i].installation_id is Some
                        && pf[i] == Some(rest[k].1);
                assert(sources[i] == ps[i]);
                assert(found[i] == pf[i]);
            } else {
                assert(sources[n] == sources.last());
                assert(found[n] == found.last());
            }
        }
    }
}

/// Whether every installation found can be shown.
pub open spec fn all_writable(found: Seq<Option<Installation>>) -> bool {
    forall|i: int|
        0 <= i < found.len() ==> (#[trigger] found[i] matches Some(x) ==> writable_time(x.created_at)
            && writable_time(x.updated_at))
}

/// The sources page for the signed-in user `user_id` with the stored data
/// `data`: titled `Sources`, with the sidebar at its link; the stored
/// sources (all of them, whoever owns them) with an installation the
/// provider recognised, shown with it, in order; and the identifiers of
/// those whose installation it did not recognise, to be removed. `found`
/// holds, for each stored source in order, the installation the provider
/// returned for it (`None` where it did not recognise it; not looked at
/// for a source without an installation).
pub fn list(
    sources: Vec<data::Source>,
    found: Vec<Option<Installation>>,
    user_id: u128,
    projects: Vec<Project>,
    data: UserData,
) -> (page: (Frame, Vec<Source>, Vec<u128>))
    requires
        sources@.len() == found@.len(),
        all_writable(found@),
    ensures
        framed(page.0, "Sources"@, "Sources"@, user_id, projects@, data.current_project),
        page.1@.len() == shown_pairs(sources@, found@).len(),
        forall|i: int|
            0 <= i < page.1@.len() ==> shown_with(
                #[trigger] page.1@[i],
                shown_pairs(sources@, found@)[i].0,
                shown_pairs(sources@, found@)[i].1,
            ),
        page.2@ == removed_ids(sources@, found@),
{
    let frame = frame("Sources".to_string(), "Sources", user_id, projects, data);
    let ghost all_s = sources@;
    let ghost all_f = found@;
    let mut rest_s = sources;
    let mut rest_f = found;
    let mut shown: Vec<Source> = Vec::new();
    let mut removed: Vec<u128> = Vec::new();
    let mut k: usize = 0;
    let total = rest_s.len();
    proof {
        assert(all_s.skip(0) =~= all_s);
        assert(all_f.skip(0) =~= all_f);
        assert(all_s.take(0) =~= Seq::<data::Source>::empty());
        assert(all_f.take(0) =~= Seq::<Option<Installation>>::empty());
    }
    while k < total
        invariant
            total == all_s.len(),
            all_s.len() == all_f.len(),
            all_writable(all_f),
            k <= total,
            rest_s@ == all_s.skip(k as int),
            rest_f@ == all_f.skip(k as int),
            shown@.len() == shown_pairs(all_s.take(k as int), all_f.take(k as int)).len(),
            forall|i: int|
                0 <= i < shown@.len() ==> shown_with(
                    #[trigger] shown@[i],
                    shown_pairs(all_s.take(k as int), all_f.take(k as int))[i].0,
                    shown_pairs(all_s.take(k as int), all_f.take(k as int))[i].1,
                ),
            removed@ == removed_ids(all_s.take(k as int), all_f.take(k as int)),
        decreases total - k,
    {
        let s = rest_s.remove(0);
        let f = rest_f.remove(0);
        let ghost before = shown_pairs(all_s.take(k as int), all_f.take(k as int));
        let ghost shown_before = shown@;
        proof {
            assert(s == all_s[k as int]);
            assert(f == all_f[k as int]);
            assert(rest_s@ =~= all_s.skip(k + 1));
            assert(rest_f@ =~= all_f.skip(k + 1));
            assert(all_s.take(k + 1).drop_last() =~= all_s.take(k as int));
            assert(all_f.take(k + 1).drop_last() =~= all_f.take(k as int));
            assert(all_s.take(k + 1).last() == s);
            assert(all_f.take(k + 1).last() == f);
            assert(f matches Some(x) ==> writable_time(x.created_at) && writable_time(x.updated_at));
        }
        let ghost sv = s;
        let ghost fv = f;
        match list_entry(s, f) {
            Listing::Show(v) => {
                shown.push(v);
                proof {
                    let after = shown_pairs(all_s.take(k + 1), all_f.take(k + 1));
                    assert(after == before.push((sv, fv->0)));
                    assert forall|i: int| 0 <= i < shown@.len() implies shown_with(
                        #[trigger] shown@[i], after[i].0, after[i].1) by {
                        if i < shown_before.len() {
                            assert(shown@[i] == shown_before[i]);
                        }
                    }
                }
            },
            Listing::Remove(id) => {
                removed.push(id);
            },
            Listing::Skip => {},
        }
        k = k + 1;
    }
    proof {
        assert(all_s.take(k as int) =~= all_s);
        assert(all_f.take(k as int) =~= all_f);
    }
    (frame, shown, removed)
}

/// The page of a single source, titled `<account> | Source`: the source
/// with the installation the provider returned for it (`found`); a blank
/// source where it has no installation or the provider did not recognise
/// it, in which case the stored source is to be removed (the flag).
pub fn single(source: data::Source, found: Option<Installation>) -> (page: (Head, Source, bool))
    requires
        found matches Some(i) ==> writable_time(i.created_at) && writable_time(i.updated_at),
    ensures
        page.0.title@ == page.1.account_name@ + " | Source"@,
        page.0.og_site_name@ == "RUDA"@,
        page.2 == (source.installation_id is Some && found is None),
        (source.installation_id is Some && found is Some) ==> shown_with(page.1, source, found->0),
        !(source.installation_id is Some && found is Some) ==> (page.1.id == ids::NIL
            && page.1.account_name@ == Seq::<char>::empty()),
{
    let mut remove = false;
    let mut shown = Source::default();
    if source.installation_id.is_some() {
        match found {
            Some(install) => {
                shown = Source::from_data_source(source, install);
            },
            None => {
                remove = true;
            },
        }
    }
    let mut title = shown.account_name.clone();
    title.append(" | Source");
    (Head::titled(title), shown, remove)
}

/// The query of the GitHub app's installation callback.
pub struct InstallParams {
    pub installation_id: u64,
    pub setup_action: String,
}

/// Whether some stored source has the installation `id`.
pub open spec fn has_installation(sources: Seq<data::Source>, id: u64) -> bool {
    exists|i: int| 0 <= i < sources.len() && (#[trigger] sources[i]).installation_id == Some(id)
}

/// Handles the GitHub app's installation callback for the user `owner`
/// viewing `current_project`: an installation some stored source already
/// has redirects to `/sources`; a new one gives the source to store, owned
/// by the user, shared with the current project, installed now.
pub fn install(
    sources: &Vec<data::Source>,
    params: &InstallParams,
    owner: u128,
    current_project: u128,
) -> (r: Outcome<data::Source>)
    ensures
        has_installation(sources@, params.installation_id) ==> (r matches Outcome::Redirect(to)
            && to@ == "/sources"@),
        !has_installation(sources@, params.installation_id) ==> (r matches Outcome::Show(s) && {
            &&& ids::is_random_v4(s.id)
            &&& s.owner == owner
            &&& s.projects@ == seq![current_project]
            &&& s.installation_id == Some(params.installation_id)
        }),
{
    let mut i: usize = 0;
    while i < sources.len()
        invariant
            i <= sources@.len(),
            forall|j: int| 0 <= j < i ==> (#[trigger] sources@[j]).installation_id != Some(params.installation_id),
        decreases sources@.len() - i,
    {
        if sources[i].installation_id == Some(params.installation_id) {
            return Outcome::Redirect("/sources".to_string());
        }
        i = i + 1;
    }
    let mut projects: Vec<u128> = Vec::new();
    projects.push(current_project);
    proof {
        assert(projects@ =~= seq![current_project]);
    }
    Outcome::Show(data::Source {
        id: ids::new_v4(),
        owner,
        projects,
        installation_id: Some(params.installation_id),
        installation_time: time::now(),
    })
}

/// An installation is recognised wherever it is stored: if any stored source,
/// at any position, has the installation `id`, the installation callback
/// for `id` finds it (and redirects); and it finds it only then.
pub proof fn installation_found_at_any_position(sources: Seq<data::Source>, i: int, id: u64)
    requires
        0 <= i < sources.len(),
    ensures
        sources[i].installation_id == Some(id) ==> has_installation(sources, id),
        has_installation(sources, id) ==> exists|j: int|
            0 <= j < sources.len() && sources[j].installation_id == Some(id),
{
}

/// Installing the GitHub app twice is harmless: once the source an
/// installation gave is stored, the same installation is recognised and
/// redirects instead of adding a second source.
pub proof fn installation_is_recognised_once_stored(
    sources: Seq<data::Source>,
    added: data::Source,
    id: u64,
)
    requires
        added.installation_id == Some(id),
    ensures
        has_installation(sources.push(added), id),
{
    assert(sources.push(added)[sources.len() as int] == added);
}

/// The text listing the paths of a repository's contents, one per line.
pub open spec fn listing(paths: Seq<Seq<char>>) -> Seq<char>
    decreases paths.len(),
{
    if paths.len() == 0 {
        Seq::empty()
    } else {
        listing(paths.drop_last()) + paths.last() + "\n"@
    }
}

/// The answer to a new installation: the paths of the contents of the
/// app's repository, each followed by a newline.
pub fn content_listing(paths: &Vec<String>) -> (text: String)
    ensures
        text@ == listing(paths@.map_values(|p: String| p@)),
{
    let mut text = String::new();
    let mut i: usize = 0;
    proof {
        reveal_strlit("\n");
        assert(paths@.map_values(|p: String| p@).take(0) =~= Seq::<Seq<char>>::empty());
    }
    while i < paths.len()
        invariant
            i <= paths@.len(),
            text@ == listing(paths@.map_values(|p: String| p@).take(i as int)),
        decreases paths@.len() - i,
    {
        let ghost ps = paths@.map_values(|p: String| p@);
        proof {
            assert(ps.take(i + 1).drop_last() =~= ps.take(i as int));
            assert(ps.take(i + 1).last() == paths@[i as int]@);
        }
        text.append(paths[i].as_str());
        text.append("\n");
        i = i + 1;
    }
    proof {
        assert(paths@.map_values(|p: String| p@).take(i as int) =~= paths@.map_values(|p: String| p@));
    }
    text
}

} // verus!
