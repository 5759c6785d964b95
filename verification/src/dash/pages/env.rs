//! An application's environments: the environment page and the deployment
//! of an environment.

use vstd::prelude::*;
use crate::dash::data::{App, Env, Source};
use crate::dash::realtime::Request;
use crate::text::{split, split_from};
use super::partial::Head;

verus! {

/// What `url::Url::parse` makes of `text`, taken by the path of the parsed
/// URL (`Url::path`): `None` where the text is refused.
pub uninterp spec fn url_path(text: Seq<char>) -> Option<Seq<char>>;

/// Calls `url::Url::parse` on `text` and, where it succeeds, `Url::path` on
/// the result. The outcome is named `url_path`; what the URL parser accepts
/// and how it normalises a path is not stated.
#[verifier::external_body]
fn parsed_url_path(text: &str) -> (path: Option<String>)
    ensures
        match path {
            Some(p) => url_path(text@) == Some(p@),
            None => url_path(text@) is None,
        },
{
    match url::Url::parse(text) {
        Ok(u) => Some(u.path().to_string()),
        Err(_) => None,
    }
}

/// The segments of a URL path (`Url::path_segments`): the pieces between
/// the slashes after the leading one, or `None` where the path has no
/// leading slash.
pub open spec fn path_segments(path: Seq<char>) -> Option<Seq<Seq<char>>> {
    if path.len() > 0 && path[0] == '/' {
        Some(split(path.drop_first(), '/'))
    } else {
        None
    }
}

/// Whether a URL path names a repository: its first two segments are the
/// repository's owner and name.
pub open spec fn names_repo(path: Seq<char>) -> bool {
    &&& path_segments(path) is Some
    &&& path_segments(path)->0.len() >= 2
}

/// The owner and name of the repository a URL path names (its first two
/// segments).
pub fn repo_of_path(path: &str) -> (repo: (String, String))
    requires
        names_repo(path@),
    ensures
        repo.0@ == path_segments(path@)->0[0],
        repo.1@ == path_segments(path@)->0[1],
{
    proof {
        assert(path@.skip(1) =~= path@.drop_first());
    }
    let parts = split_from(path, '/', 1);
    proof {
        assert(parts@.map_values(|p: String| p@)[0] == parts@[0]@);
        assert(parts@.map_values(|p: String| p@)[1] == parts@[1]@);
    }
    let owner = parts[0].clone();
    let name = parts[1].clone();
    (owner, name)
}

/// Whether `i` is the first environment of `envs` with the handle `handle`.
pub open spec fn first_with_handle(envs: Seq<Env>, handle: Seq<char>, i: int) -> bool {
    &&& 0 <= i < envs.len()
    &&& envs[i].handle@ == handle
    &&& forall|j: int| 0 <= j < i ==> (#[trigger] envs[j]).handle@ != handle
}

/// Whether some environment of `envs` has the handle `handle`.
pub open spec fn has_handle(envs: Seq<Env>, handle: Seq<char>) -> bool {
    exists|i: int| 0 <= i < envs.len() && (#[trigger] envs[i]).handle@ == handle
}

/// The position of the first environment of `envs` with the handle
/// `handle`, or `None` where there is none.
pub fn find_env(envs: &Vec<Env>, handle: &str) -> (found: Option<usize>)
    ensures
        match found {
            Some(i) => first_with_handle(envs@, handle@, i as int),
            None => !has_handle(envs@, handle@),
        },
{
    let target = handle.to_string();
    let mut i: usize = 0;
    while i < envs.len()
        invariant
            i <= envs@.len(),
            target@ == handle@,
            forall|j: int| 0 <= j < i ==> (#[trigger] envs@[j]).handle@ != handle@,
        decreases envs@.len() - i,
    {
        if envs[i].handle == target {
            return Some(i);
        }
        i = i + 1;
    }
    None
}

/// Why an environment's page or deployment could not be made.
#[derive(Debug, PartialEq, Eq, Structural)]
pub enum EnvError {
    /// The application has no environment with the handle.
    EnvNotFound,
    /// The application's source URL is not a URL.
    BadSourceUrl,
}

/// The page of the environment `handle` of `app`: an application without
/// such an environment is answered with `EnvNotFound`. The page itself is
/// unfinished: once the environment is found its handler stops without an
/// answer, so those inputs are left out (`requires`).
pub fn env(app: &App, handle: &str) -> (page: Result<Head, EnvError>)
    requires
        !has_handle(app.envs@, handle@),
    ensures
        page == Err::<Head, EnvError>(EnvError::EnvNotFound),
{
    Err(EnvError::EnvNotFound)
}

/// What deploying an environment takes: the repository to fetch, the branch
/// to fetch, and the request for the application's runner.
pub struct DeployPlan {
    pub app: u128,
    pub branch: String,
    pub repo_owner: String,
    pub repo_name: String,
    pub request: Request,
}

/// Whether `p` plans the deployment of the environment `handle` of `app`
/// whose source URL has the path `path`: the repository its first two
/// segments name, fetched at the branch of the first environment with that
/// handle, and the runner of the application asked to deploy that
/// environment.
pub open spec fn plans_deploy(p: DeployPlan, app: App, handle: Seq<char>, path: Seq<char>) -> bool {
    &&& p.repo_owner@ == path_segments(path)->0[0]
    &&& p.repo_name@ == path_segments(path)->0[1]
    &&& p.app == app.id
    &&& exists|i: int| {
        &&& #[trigger] first_with_handle(app.envs@, handle, i)
        &&& p.branch@ == app.envs@[i].branch@
        &&& p.request matches Request::Deploy { env } && env@ == app.envs@[i].handle@
    }
}

/// Whether deploying the environment `handle` of `app` gets as far as the
/// repository's owner and name without failing: the environment exists and
/// the source URL's path, where the URL parses, names a repository.
pub open spec fn deploy_is_defined(app: App, handle: Seq<char>) -> bool {
    has_handle(app.envs@, handle) ==> (url_path(app.source_url@) matches Some(p) ==> names_repo(p))
}

/// Plans the deployment of the environment `handle` of `app`: the
/// environment must exist, and the application's source URL must parse;
/// the repository is the one its path names, fetched at the environment's
/// branch, and the runner is asked to deploy the environment. A source URL
/// that parses to a path naming no repository is left out (`requires`).
pub fn env_deploy(app: &App, handle: &str) -> (plan: Result<DeployPlan, EnvError>)
    requires
        deploy_is_defined(*app, handle@),
    ensures
        !has_handle(app.envs@, handle@) ==> plan == Err::<DeployPlan, EnvError>(EnvError::EnvNotFound),
        has_handle(app.envs@, handle@) && url_path(app.source_url@) is None
            ==> plan == Err::<DeployPlan, EnvError>(EnvError::BadSourceUrl),
        has_handle(app.envs@, handle@) && url_path(app.source_url@) is Some ==> (plan matches Ok(p)
            && plans_deploy(p, *app, handle@, url_path(app.source_url@)->0)),
{
    let i = match find_env(&app.envs, handle) {
        Some(i) => i,
        None => return Err(EnvError::EnvNotFound),
    };
    let path = match parsed_url_path(app.source_url.as_str()) {
        Some(p) => p,
        None => return Err(EnvError::BadSourceUrl),
    };
    let (repo_owner, repo_name) = repo_of_path(path.as_str());
    let env = &app.envs[i];
    proof {
        assert(first_with_handle(app.envs@, handle@, i as int));
    }
    Ok(DeployPlan {
        app: app.id,
        branch: env.branch.clone(),
        repo_owner,
        repo_name,
        request: Request::Deploy { env: env.handle.clone() },
    })
}

/// Plans the deployment as `env_deploy` does where that is defined; `None`
/// where the source URL parses to a path that names no repository, on which
/// the deployment cannot go on.
pub fn try_env_deploy(app: &App, handle: &str) -> (plan: Option<Result<DeployPlan, EnvError>>)
    ensures
        plan is None <==> !deploy_is_defined(*app, handle@),
        !has_handle(app.envs@, handle@) ==> plan == Some(Err::<DeployPlan, EnvError>(EnvError::EnvNotFound)),
        has_handle(app.envs@, handle@) && url_path(app.source_url@) is None
            ==> plan == Some(Err::<DeployPlan, EnvError>(EnvError::BadSourceUrl)),
        deploy_is_defined(*app, handle@) && has_handle(app.envs@, handle@) && url_path(app.source_url@) is Some
            ==> (plan matches Some(Ok(p)) && plans_deploy(p, *app, handle@, url_path(app.source_url@)->0)),
{
    if find_env(&app.envs, handle).is_some() {
        if let Some(path) = parsed_url_path(app.source_url.as_str()) {
            let segments_ok = path.unicode_len() > 0 && path.get_char(0) == '/' && {
                proof {
                    assert(path@.skip(1) =~= path@.drop_first());
                }
                let parts = split_from(path.as_str(), '/', 1);
                parts.len() >= 2
            };
            if !segments_ok {
                return None;
            }
        }
    }
    Some(env_deploy(app, handle))
}

/// The GitHub installations of the sources of `user`, in order: those
/// sources the user owns that have an installation.
pub open spec fn installations_of(sources: Seq<Source>, user: u128) -> Seq<u64>
    decreases sources.len(),
{
    if sources.len() == 0 {
        Seq::empty()
    } else {
        let rest = installations_of(sources.drop_last(), user);
        let s = sources.last();
        if s.owner == user && s.installation_id is Some {
            rest.push(s.installation_id->0)
        } else {
            rest
        }
    }
}

/// The installations through which the repository of a deployment is
/// looked for: those of the user's own sources, in order, skipping sources
/// without an installation.
pub fn installations(sources: &Vec<Source>, user: u128) -> (ids: Vec<u64>)
    ensures
        ids@ == installations_of(sources@, user),
{
    let mut ids: Vec<u64> = Vec::new();
    let mut i: usize = 0;
    while i < sources.len()
        invariant
            i <= sources@.len(),
            ids@ == installations_of(sources@.take(i as int), user),
        decreases sources@.len() - i,
    {
        proof {
            assert(sources@.take(i + 1).drop_last() =~= sources@.take(i as int));
        }
        let s = &sources[i];
        if s.owner == user {
            if let Some(id) = s.installation_id {
                ids.push(id);
            }
        }
        i = i + 1;
    }
    proof {
        assert(sources@.take(i as int) =~= sources@);
    }
    ids
}

} // verus!
