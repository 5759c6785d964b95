use ruda::dash::data::machine::{Kind as MachineKind, Status as MachineStatus};
use ruda::dash::data::{App, Key, Machine, Project, Source, Storage, UserData};
use ruda::dash::mock;
use ruda::dash::pages::account::{account_post, current_post, settings_post, AccountParams, AccountSettings};
use ruda::dash::pages::app::{self as app_page, Application, NewForm, UpdateForm};
use ruda::dash::pages::auth::{login, login_or_not_found, register, setup, Params, RegisterError, Setup1};
use ruda::dash::pages::env::{env_deploy, find_env, installations, try_env_deploy, EnvError};
use ruda::dash::pages::integrations::{integrations, LinkProvider};
use ruda::dash::pages::key as key_page;
use ruda::dash::pages::machine::{self as machine_page, NewForm as MachineForm};
use ruda::dash::pages::modal::{lists_repos_of, repos_page_path, NewAppModalSourceAccounts, NewAppModalSourceRepos, ReposQuery, REPOS_PER_PAGE};
use ruda::dash::pages::partial::{year, Head, Sidebar, SidebarEntry};
use ruda::dash::pages::source::{self as source_page, content_listing, install, list_entry, InstallParams, Installation, Listing};
use ruda::dash::pages::storage as storage_page;
use ruda::dash::pages::Outcome;
use ruda::dash::realtime::{self, handle_msg, introduce, route, Request, Response, Route};
use ruda::dash::util::init_user;
use ruda::runner::msg::Message;
use ruda::time::Timestamp;

fn is_hyphenated_uuid(s: &str) -> bool {
    s.len() == 36
        && s.chars().enumerate().all(|(i, c)| {
            if i == 8 || i == 13 || i == 18 || i == 23 {
                c == '-'
            } else {
                c.is_ascii_hexdigit() && !c.is_ascii_uppercase()
            }
        })
}

fn uuid_text(id: u128) -> String {
    let h = format!("{:032x}", id);
    format!("{}-{}-{}-{}-{}", &h[0..8], &h[8..12], &h[12..16], &h[16..20], &h[20..32])
}

fn is_numbered(name: &str, adjectives: &[&str], nouns: &[&str]) -> bool {
    let parts: Vec<&str> = name.split('-').collect();
    parts.len() == 3
        && adjectives.contains(&parts[0])
        && nouns.contains(&parts[1])
        && parts[2].len() == 4
        && parts[2].chars().all(|c| c.is_ascii_digit())
        && parts[2] != "0000"
}

fn viewer(id: u128, current_project: u128) -> UserData {
    let mut d = UserData::default();
    d.id = id;
    d.current_project = current_project;
    d
}

fn machine_with(secret: u128, name: &str) -> Machine {
    let mut m = Machine::default();
    m.secret = secret;
    m.name = name.to_string();
    m
}

#[test]
fn head_defaults() {
    let h = Head::default();
    assert_eq!(h.title, "Dashboard");
    assert_eq!(h.og_site_name, "RUDA");
    let t = Head::titled("Applications".to_string());
    assert_eq!(t.title, "Applications");
    assert_eq!(t.og_site_name, "RUDA");
    let e = SidebarEntry::default();
    assert_eq!(e.name, "entry");
    assert_eq!(e.url, "/");
    assert!(!e.active);
}

#[test]
fn footer_year_is_a_year() {
    let y = year();
    let n: i32 = y.parse().unwrap();
    assert!(n >= 2024);
    assert_eq!(y, n.to_string());
}

#[test]
fn sidebar_marks_the_named_entry_and_keeps_own_projects() {
    let mut mine = Project::default();
    mine.owner = 7;
    let mut theirs = Project::default();
    theirs.owner = 8;
    let mine_id = mine.id;
    let mut data = UserData::default();
    data.id = 7;
    data.current_project = 42;
    let (s, created) = Sidebar::at("Machines", 7, vec![theirs, mine], Some(data));
    assert!(created.is_none());
    let names: Vec<&str> = s.entries.iter().map(|e| e.name.as_str()).collect();
    assert_eq!(
        names,
        vec!["Summary", "Applications", "Machines", "Sources", "Storages", "Keys", "Integrations", "Notifications", "Account"]
    );
    let urls: Vec<&str> = s.entries.iter().map(|e| e.url.as_str()).collect();
    assert_eq!(
        urls,
        vec!["/", "/apps", "/machines", "/sources", "/storages", "/keys", "/integrations", "/notifications", "/account"]
    );
    let active: Vec<bool> = s.entries.iter().map(|e| e.active).collect();
    assert_eq!(active, vec![false, false, true, false, false, false, false, false, false]);
    assert_eq!(s.projects.len(), 1);
    assert_eq!(s.projects[0].id, mine_id);
    assert_eq!(s.current_project_id, 42);
}

#[test]
fn sidebar_with_unknown_page_has_nothing_active() {
    let (s, created) = Sidebar::at("Projects", 1, vec![], None);
    assert!(s.entries.iter().all(|e| !e.active));
    let (project, data) = created.unwrap();
    assert_eq!(project.owner, 1);
    assert_eq!(data.id, 1);
    assert_eq!(data.current_project, project.id);
    assert_eq!(s.current_project_id, project.id);
    assert!(s.projects.is_empty());
    let d = Sidebar::default();
    assert_eq!(d.entries.len(), 9);
    assert!(d.projects.is_empty());
    assert_ne!(d.current_project_id, 0);
}

#[test]
fn default_app_has_two_environments_and_a_drawn_name() {
    let a = App::default();
    assert_ne!(a.id, 0);
    assert_eq!((a.id >> 76) & 0xf, 4);
    assert_eq!((a.id >> 62) & 0x3, 2);
    assert_eq!(a.owner, 0);
    assert_eq!(a.domain, "default.app");
    assert!(a.machine.is_none());
    assert_eq!(a.source_url, "");
    assert_eq!(a.envs.len(), 2);
    assert_eq!(a.envs[0].handle, "prod");
    assert_eq!(a.envs[0].name, "Production");
    assert_eq!(a.envs[0].branch, "prod");
    assert_eq!(a.envs[1].handle, "test");
    assert_eq!(a.envs[1].name, "Testing");
    assert_eq!(a.envs[1].branch, "master");
    assert!(is_numbered(
        &a.name,
        &["clever", "sharp", "astute", "able", "perceptive", "apt", "acute", "bright"],
        &["implementation", "execution", "practice", "exercise", "effort", "labour", "program"],
    ));
    assert_eq!(App::get_collection_name(), "applications");
    assert_eq!(a.get_id(), a.id);
}

#[test]
fn new_app_takes_the_avatar() {
    let a = App::new(99);
    assert_eq!(a.avatar, 99);
    let mut b = App::default();
    b.load_image(5);
    assert_eq!(b.avatar, 5);
}

#[test]
fn other_records_defaults() {
    let m = Machine::default();
    assert_eq!(m.kind, MachineKind::Unmanaged);
    assert_eq!(m.status, MachineStatus::Disconnected);
    assert_eq!(m.address, "localhost");
    assert_ne!(m.secret, 0);
    assert_eq!(Machine::get_collection_name(), "machines");
    assert!(is_numbered(
        &m.name,
        &["busy", "dilligent", "energetic", "zealous", "nimble", "earnest", "resolute", "vigorous"],
        &["automaton", "widget", "engine", "instrument", "gadget", "robot", "workhorse", "mechanism", "thingamabob"],
    ));
    assert_eq!(MachineStatus::Connected.to_text(), "Connected");
    assert_eq!(MachineKind::Managed.to_text(), "Managed");
    let s = Storage::default();
    assert_eq!(s.name, "default-storage");
    assert_eq!(Storage::get_collection_name(), "storages");
    let k = Key::default();
    assert_eq!(Key::get_collection_name(), "keys");
    assert_eq!(k.owner, 0);
    let u = UserData::default();
    assert_eq!(u.id, 0);
    assert_eq!(u.current_project, 0);
    assert!(u.github.handle.is_none());
    assert_eq!(UserData::get_collection_name(), "user_data");
    assert_eq!(Source::get_collection_name(), "source");
    assert_eq!(Project::get_collection_name(), "projects");
}

#[test]
fn applications_list_shows_current_project_only() {
    let mut a = App::default();
    a.project = 1;
    a.name = "one".to_string();
    let mut b = App::default();
    b.project = 2;
    let mut c = App::default();
    c.project = 1;
    c.name = "three".to_string();
    let mut own = Project::default();
    own.owner = 70;
    let (frame, shown) = app_page::list(vec![a, b, c], 70, vec![own, Project::default()], viewer(70, 1));
    assert_eq!(frame.head.title, "Applications");
    assert_eq!(frame.sidebar.current_project_id, 1);
    assert_eq!(frame.sidebar.projects.len(), 1);
    let active: Vec<&str> = frame.sidebar.entries.iter().filter(|e| e.active).map(|e| e.name.as_str()).collect();
    assert_eq!(active, vec!["Applications"]);
    assert_eq!(shown.len(), 2);
    assert_eq!(shown[0].inner.name, "one");
    assert_eq!(shown[1].inner.name, "three");
    assert!(shown.iter().all(|s| s.status == "operational"));
    let one = Application::from(App::default());
    assert_eq!(one.status, "operational");
}

#[test]
fn single_application_redirects_outside_project() {
    let mut a = App::default();
    a.project = 5;
    a.name = "my-app".to_string();
    match app_page::single(a, 6) {
        Outcome::Redirect(to) => assert_eq!(to, "/apps"),
        Outcome::Show(_) => panic!("expected a redirect"),
    }
    let mut b = App::default();
    b.project = 5;
    b.name = "my-app".to_string();
    match app_page::single(b, 5) {
        Outcome::Show((head, shown)) => {
            assert_eq!(head.title, "my-app");
            assert_eq!(shown.inner.name, "my-app");
        }
        Outcome::Redirect(_) => panic!("expected the page"),
    }
}

#[test]
fn single_update_replaces_given_source_url() {
    let mut a = App::default();
    a.source_url = "old".to_string();
    app_page::single_update(&mut a, UpdateForm { source_url: None });
    assert_eq!(a.source_url, "old");
    app_page::single_update(&mut a, UpdateForm { source_url: Some("https://github.com/x/y".to_string()) });
    assert_eq!(a.source_url, "https://github.com/x/y");
}

#[test]
fn new_application_redirects_to_its_page() {
    let form = NewForm {
        name: "web".to_string(),
        source_url: "https://github.com/ruda-app/ruda".to_string(),
        domain: "ignored.example".to_string(),
    };
    let (app, redir) = app_page::new(3, 10, 20, form);
    assert_eq!(app.owner, 10);
    assert_eq!(app.project, 20);
    assert_eq!(app.name, "web");
    assert_eq!(app.source_url, "https://github.com/ruda-app/ruda");
    assert_eq!(app.domain, "default.app");
    assert_eq!(app.avatar, 3);
    assert_eq!(redir, format!("/app/{}", uuid_text(app.id)));
    assert!(is_hyphenated_uuid(&redir["/app/".len()..]));
}

#[test]
fn environment_page_and_lookup() {
    let mut a = App::default();
    a.name = "shop".to_string();
    assert_eq!(find_env(&a.envs, "test"), Some(1));
    assert_eq!(find_env(&a.envs, "prod"), Some(0));
    assert_eq!(find_env(&a.envs, "staging"), None);
    assert!(matches!(ruda::dash::pages::env::env(&a, "nope"), Err(EnvError::EnvNotFound)));
}

#[test]
fn deploy_reads_owner_and_name_from_source_url() {
    let mut a = App::default();
    a.source_url = "https://github.com/ruda-app/ruda".to_string();
    let plan = try_env_deploy(&a, "test").unwrap().unwrap();
    assert_eq!(plan.repo_owner, "ruda-app");
    assert_eq!(plan.repo_name, "ruda");
    assert_eq!(plan.branch, "master");
    assert_eq!(plan.app, a.id);
    match plan.request {
        Request::Deploy { env } => assert_eq!(env, "test"),
    }
    let plan = env_deploy(&a, "prod").unwrap();
    assert_eq!(plan.branch, "prod");
    a.source_url = "https://github.com/owner/repo/tree/main".to_string();
    let plan = env_deploy(&a, "prod").unwrap();
    assert_eq!(plan.repo_owner, "owner");
    assert_eq!(plan.repo_name, "repo");
}

#[test]
fn deploy_errors() {
    let mut a = App::default();
    a.source_url = "github.com/app/source".to_string();
    assert!(matches!(try_env_deploy(&a, "prod"), Some(Err(EnvError::BadSourceUrl))));
    assert!(matches!(try_env_deploy(&a, "staging"), Some(Err(EnvError::EnvNotFound))));
    a.source_url = "https://github.com/".to_string();
    assert!(try_env_deploy(&a, "prod").is_none());
    a.source_url = "https://github.com/only-owner".to_string();
    assert!(try_env_deploy(&a, "prod").is_none());
    assert!(matches!(try_env_deploy(&a, "staging"), Some(Err(EnvError::EnvNotFound))));
}

#[test]
fn installations_of_own_sources() {
    let s = |owner: u128, inst: Option<u64>| Source {
        id: 1,
        owner,
        projects: vec![],
        installation_id: inst,
        installation_time: Timestamp { secs: 0, nanos: 0 },
    };
    let sources = vec![s(1, Some(10)), s(2, Some(20)), s(1, None), s(1, Some(30))];
    assert_eq!(installations(&sources, 1), vec![10, 30]);
    assert_eq!(installations(&sources, 2), vec![20]);
    assert!(installations(&sources, 3).is_empty());
}

#[test]
fn machine_pages() {
    let mut m = machine_with(1, "alpha");
    m.project = 4;
    m.address = "10.0.0.1".to_string();
    let other = machine_with(2, "beta");
    let (frame, shown) = machine_page::list(vec![m, other], 1, vec![], viewer(1, 4));
    assert_eq!(frame.head.title, "Machines");
    assert!(frame.sidebar.entries.iter().any(|e| e.active && e.name == "Machines"));
    assert_eq!(shown.len(), 1);
    assert_eq!(shown[0].inner.name, "alpha");
    assert_eq!(shown[0].status, "Disconnected");
    assert_eq!(shown[0].location, "10.0.0.1");
    let (head, one) = machine_page::single(machine_with(3, "gamma"));
    assert_eq!(head.title, "Machine X");
    assert_eq!(one.location, "localhost");
    let (created, redir) = machine_page::new(1, 2, MachineForm { name: "box".to_string() });
    assert_eq!(created.name, "box");
    assert_eq!(created.owner, 1);
    assert_eq!(created.project, 2);
    assert_eq!(redir, format!("/machine/{}", uuid_text(created.id)));
}

#[test]
fn key_and_storage_pages() {
    let mut k = Key::default();
    k.project = 9;
    let (frame, keys) = key_page::list(vec![k, Key::default()], 1, vec![], viewer(1, 9));
    assert_eq!(frame.head.title, "Keys");
    assert!(frame.sidebar.entries.iter().any(|e| e.active && e.name == "Keys"));
    assert_eq!(keys.len(), 1);
    let (head, key) = key_page::single();
    assert_eq!(head.title, format!("{} | Key", key.inner.name));
    let mut s = Storage::default();
    s.project = 9;
    let (frame, storages) = storage_page::list(vec![Storage::default(), s], 1, vec![], viewer(1, 9));
    assert_eq!(frame.head.title, "Storages");
    assert!(frame.sidebar.entries.iter().any(|e| e.active && e.name == "Storages"));
    assert_eq!(storages.len(), 1);
    let (head, _) = storage_page::single();
    assert_eq!(head.title, "default-storage | Storage");
}

#[test]
fn source_shown_with_its_installation() {
    let stored = Source { id: 77, owner: 1, projects: vec![2], installation_id: Some(5), installation_time: Timestamp { secs: 0, nanos: 0 } };
    let install = Installation {
        id: 1234,
        account_login: "octo".to_string(),
        account_type: "User".to_string(),
        account_avatar_url: "https://avatars/1".to_string(),
        html_url: None,
        created_at: Some(Timestamp { secs: 1057056757, nanos: 0 }),
        updated_at: None,
        repository_selection: None,
    };
    let shown = source_page::Source::from_data_source(stored, install);
    assert_eq!(shown.id, 77);
    assert_eq!(shown.account_name, "octo");
    assert_eq!(shown.account_type, "User");
    assert_eq!(shown.installation_id, "1234");
    assert_eq!(shown.installation_url, "https://github.com/apps/ruda-app/installations/new");
    assert_eq!(shown.installation_created_at, "Tue, 1 Jul 2003 10:52:37 +0000");
    assert_eq!(shown.installation_updated_at, "unknown");
    assert_eq!(shown.repo_access, "none");
    let d = source_page::Source::default();
    assert_eq!(d.id, 0);
    assert_eq!(d.account_name, "");
}

#[test]
fn installing_twice_redirects_the_second_time() {
    let params = InstallParams { installation_id: 555, setup_action: "install".to_string() };
    let mut sources: Vec<Source> = vec![];
    let added = match install(&sources, &params, 1, 2) {
        Outcome::Show(s) => s,
        Outcome::Redirect(_) => panic!("expected a new source"),
    };
    assert_eq!(added.owner, 1);
    assert_eq!(added.projects, vec![2]);
    assert_eq!(added.installation_id, Some(555));
    sources.push(added);
    match install(&sources, &params, 1, 2) {
        Outcome::Redirect(to) => assert_eq!(to, "/sources"),
        Outcome::Show(_) => panic!("expected a redirect"),
    }
    let other = InstallParams { installation_id: 556, setup_action: "install".to_string() };
    assert!(matches!(install(&sources, &other, 1, 2), Outcome::Show(_)));
}

#[test]
fn content_listing_one_path_per_line() {
    assert_eq!(content_listing(&vec![]), "");
    assert_eq!(content_listing(&vec!["README.md".to_string(), "src".to_string()]), "README.md\nsrc\n");
}

#[test]
fn modal_accounts_and_repos() {
    let inst = |login: &str| Installation {
        id: 1,
        account_login: login.to_string(),
        account_type: "User".to_string(),
        account_avatar_url: format!("https://avatars/{login}"),
        html_url: None,
        created_at: None,
        updated_at: None,
        repository_selection: None,
    };
    let step = NewAppModalSourceAccounts::from_lookups(vec![Some(inst("a")), None, Some(inst("b"))]);
    assert_eq!(
        step.accounts,
        vec![
            ("https://avatars/a".to_string(), "a".to_string()),
            ("https://avatars/b".to_string(), "b".to_string())
        ]
    );
    let q = ReposQuery { account: "a".to_string() };
    assert!(lists_repos_of(&Some("a".to_string()), &q));
    assert!(!lists_repos_of(&Some("b".to_string()), &q));
    assert!(lists_repos_of(&None, &q));
    let mut repos = NewAppModalSourceRepos { repos: vec!["x".to_string()] };
    repos.extend(vec!["y".to_string(), "z".to_string()]);
    assert_eq!(repos.repos, vec!["x", "y", "z"]);
}

#[test]
fn auth_pages() {
    match login(Params { msg: Some("hi".to_string()) }, 0) {
        Outcome::Redirect(to) => assert_eq!(to, "/setup"),
        Outcome::Show(_) => panic!(),
    }
    match login(Params { msg: Some("hi".to_string()) }, 3) {
        Outcome::Show((head, msg)) => {
            assert_eq!(head.title, "Sign In | ruda");
            assert_eq!(msg.as_deref(), Some("hi"));
        }
        Outcome::Redirect(_) => panic!(),
    }
    assert!(matches!(register(false), Err(RegisterError::RegistrationClosed)));
    assert_eq!(register(true).unwrap().title, "Sign In | ruda");
    assert!(matches!(setup(0, false), Outcome::Show(ref s) if s.head.title == "Setup"));
    assert!(matches!(setup(1, false), Outcome::Redirect(ref to) if to == "/"));
    assert!(matches!(setup(0, true), Outcome::Redirect(ref to) if to == "/"));
    assert_eq!(Setup1::page().head.title, "Setup");
    assert!(matches!(login_or_not_found(true), Outcome::Show(ref h) if h.title == "404"));
    assert!(matches!(login_or_not_found(false), Outcome::Redirect(ref to) if to == "/login"));
}

#[test]
fn account_changes() {
    let mut acc = AccountSettings { email: "a@b.c".to_string(), dark_mode: false };
    let refresh = account_post(&mut acc, AccountParams { dark_mode: None, email: Some("x@y.z".to_string()) });
    assert!(!refresh);
    assert_eq!(acc.email, "x@y.z");
    assert!(!acc.dark_mode);
    let refresh = account_post(&mut acc, AccountParams { dark_mode: Some(true), email: None });
    assert!(refresh);
    assert!(acc.dark_mode);
    assert_eq!(acc.email, "x@y.z");
    settings_post(&mut acc, false);
    assert!(!acc.dark_mode);
    let mut data = UserData::default();
    data.id = 4;
    current_post(&mut data, 12);
    assert_eq!(data.current_project, 12);
    assert_eq!(data.id, 4);
}

#[test]
fn integrations_github_flag() {
    let (head, github) = integrations(&vec![LinkProvider::Other, LinkProvider::Github]);
    assert_eq!(head.title, "Integrations");
    assert!(github);
    assert!(!integrations(&vec![LinkProvider::Other]).1);
    assert!(!integrations(&vec![]).1);
}

#[test]
fn route_follows_the_assigned_machine() {
    let mut a = App::default();
    assert_eq!(route(&a), Route::Answer(Response::NoMachineAssigned));
    a.machine = Some(31);
    assert_eq!(route(&a), Route::Machine(31));
}

#[test]
fn introduction_connects_the_first_machine_with_the_secret() {
    let mut ms = vec![machine_with(1, "a"), machine_with(2, "b"), machine_with(2, "c")];
    assert!(introduce(&mut ms, 2));
    assert_eq!(ms[0].status, MachineStatus::Disconnected);
    assert_eq!(ms[1].status, MachineStatus::Connected);
    assert_eq!(ms[1].name, "b");
    assert_eq!(ms[2].status, MachineStatus::Disconnected);
    // a second introduction is acknowledged and changes nothing
    assert!(introduce(&mut ms, 2));
    assert_eq!(ms[1].status, MachineStatus::Connected);
    assert_eq!(ms[2].status, MachineStatus::Disconnected);
    assert!(!introduce(&mut ms, 3));
    assert_eq!(ms.len(), 3);
}

#[test]
fn dashboard_answers_introductions() {
    let mut ms = vec![machine_with(5, "a")];
    match handle_msg(Message::IntroductionRequest(5), &mut ms) {
        Message::IntroductionResponse(ok) => assert!(ok),
        other => panic!("unexpected {other:?}"),
    }
    assert_eq!(ms[0].status, MachineStatus::Connected);
    match realtime::handle_msg(Message::IntroductionRequest(6), &mut ms) {
        Message::IntroductionResponse(ok) => assert!(!ok),
        other => panic!("unexpected {other:?}"),
    }
}

#[test]
fn new_user_records() {
    let (project, data) = init_user(8);
    assert_eq!(project.owner, 8);
    assert_eq!(data.id, 8);
    assert_eq!(data.current_project, project.id);
    assert!(project.acl.is_empty());
}

#[test]
fn mock_user_records() {
    let m = mock::user(3);
    assert_eq!(m.projects.0.owner, 3);
    assert_eq!(m.projects.1.owner, 3);
    assert_eq!(m.user_data.current_project, m.projects.1.id);
    assert_eq!(m.source.projects, vec![m.projects.1.id]);
    assert!(m.source.installation_id.is_none());
    assert_eq!(m.app.project, m.projects.1.id);
    assert_eq!(m.app.source_url, "github.com/app/source");
    assert_eq!(m.machine.project, m.projects.1.id);
    assert_eq!(m.machine.address, "localhost");
    assert!(is_numbered(
        &m.machine.name,
        &["busy", "dilligent", "energetic", "zealous", "nimble", "earnest", "resolute", "vigorous"],
        &["automaton", "widget", "engine", "instrument", "gadget", "robot", "workhorse", "mechanism", "thingamabob"],
    ));
}

fn sample_installation(login: &str) -> Installation {
    Installation {
        id: 9,
        account_login: login.to_string(),
        account_type: "Organization".to_string(),
        account_avatar_url: "https://avatars/x".to_string(),
        html_url: Some("https://github.com/settings/installations/9".to_string()),
        created_at: None,
        updated_at: Some(Timestamp { secs: 0, nanos: 0 }),
        repository_selection: Some("all".to_string()),
    }
}

fn stored_source(id: u128, inst: Option<u64>) -> Source {
    Source { id, owner: 1, projects: vec![], installation_id: inst, installation_time: Timestamp { secs: 0, nanos: 0 } }
}

#[test]
fn sources_page_entries() {
    assert!(matches!(list_entry(stored_source(1, None), Some(sample_installation("a"))), Listing::Skip));
    assert!(matches!(list_entry(stored_source(2, Some(9)), None), Listing::Remove(2)));
    match list_entry(stored_source(3, Some(9)), Some(sample_installation("acme"))) {
        Listing::Show(s) => {
            assert_eq!(s.id, 3);
            assert_eq!(s.account_name, "acme");
            assert_eq!(s.installation_id, "9");
            assert_eq!(s.installation_url, "https://github.com/settings/installations/9");
            assert_eq!(s.installation_created_at, "unknown");
            assert_eq!(s.installation_updated_at, "Thu, 1 Jan 1970 00:00:00 +0000");
            assert_eq!(s.repo_access, "all");
        }
        _ => panic!("expected the source to be shown"),
    }
}

#[test]
fn single_source_page() {
    let (head, shown, remove) = source_page::single(stored_source(4, Some(9)), Some(sample_installation("acme")));
    assert_eq!(head.title, "acme | Source");
    assert_eq!(shown.id, 4);
    assert!(!remove);
    let (head, shown, remove) = source_page::single(stored_source(5, Some(9)), None);
    assert_eq!(head.title, " | Source");
    assert_eq!(shown.id, 0);
    assert!(remove);
    let (_, _, remove) = source_page::single(stored_source(6, None), None);
    assert!(!remove);
}

#[test]
fn leap_second_is_shown_as_second_sixty() {
    let stored = stored_source(8, Some(9));
    let mut inst = sample_installation("leap");
    inst.created_at = Some(Timestamp { secs: 1483228799, nanos: 1_500_000_000 });
    let shown = source_page::Source::from_data_source(stored, inst);
    assert_eq!(shown.installation_created_at, "Sat, 31 Dec 2016 23:59:60 +0000");
}

#[test]
fn repository_step_joins_pages_of_listed_installations() {
    let q = ReposQuery { account: "acme".to_string() };
    let names = |xs: &[&str]| xs.iter().map(|x| x.to_string()).collect::<Vec<String>>();
    let step = NewAppModalSourceRepos::from_pages(
        vec![Some("acme".to_string()), Some("other".to_string()), None],
        vec![names(&["a", "b"]), names(&["skipped"]), names(&["c"])],
        &q,
    );
    assert_eq!(step.repos, vec!["a", "b", "c"]);
    assert!(NewAppModalSourceRepos::from_pages(vec![], vec![], &q).repos.is_empty());
    assert_eq!(repos_page_path(REPOS_PER_PAGE, 1), "/installation/repositories?per_page=100&page=1");
}

#[test]
fn sources_page_shows_recognised_and_removes_unrecognised() {
    let sources = vec![stored_source(1, None), stored_source(2, Some(9)), stored_source(3, Some(10))];
    let found = vec![Some(sample_installation("x")), None, Some(sample_installation("acme"))];
    let (frame, shown, removed) = source_page::list(sources, found, 1, vec![], viewer(1, 5));
    assert_eq!(frame.head.title, "Sources");
    assert!(frame.sidebar.entries.iter().any(|e| e.active && e.name == "Sources"));
    assert_eq!(shown.len(), 1);
    assert_eq!(shown[0].id, 3);
    assert_eq!(shown[0].account_name, "acme");
    assert_eq!(removed, vec![2]);
}
