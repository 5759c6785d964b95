//! Applications.

use vstd::prelude::*;
use crate::ids;
use crate::namegen::{NameGenerator, is_numbered_name, words};
use crate::time::{self, Timestamp};
use super::env::Env;

verus! {

/// A deployable application of a project, with its environments.
pub struct App {
    pub id: u128,
    pub owner: u128,
    pub project: u128,
    pub name: String,
    pub avatar: u128,
    pub domain: String,
    pub machine: Option<u128>,
    pub source_url: String,
    pub envs: Vec<Env>,
    pub creation_time: Timestamp,
    pub last_edition_time: Timestamp,
}

/// The adjectives application names are drawn from.
pub open spec fn name_adjectives() -> Seq<Seq<char>> {
    seq![
        "clever"@,
        "sharp"@,
        "astute"@,
        "able"@,
        "perceptive"@,
        "apt"@,
        "acute"@,
        "bright"@,
    ]
}

/// The nouns application names are drawn from.
pub open spec fn name_nouns() -> Seq<Seq<char>> {
    seq![
        "implementation"@,
        "execution"@,
        "practice"@,
        "exercise"@,
        "effort"@,
        "labour"@,
        "program"@,
    ]
}

/// The generator of application names.
pub fn namegen() -> (g: NameGenerator)
    ensures
        g.well_formed(),
        words(g.adjectives@) == name_adjectives(),
        words(g.nouns@) == name_nouns(),
{
    let g = NameGenerator {
        adjectives: vec![
            "clever",
            "sharp",
            "astute",
            "able",
            "perceptive",
            "apt",
            "acute",
            "bright",
        ],
        nouns: vec![
            "implementation",
            "execution",
            "practice",
            "exercise",
            "effort",
            "labour",
            "program",
        ],
    };
    assert(words(g.adjectives@) =~= name_adjectives());
    assert(words(g.nouns@) =~= name_nouns());
    g
}

/// The environment `handle`/`name` on `branch`, with the other fields as a
/// default environment has them.
pub open spec fn is_default_env_named(
    e: Env,
    handle: Seq<char>,
    name: Seq<char>,
    branch: Seq<char>,
) -> bool {
    &&& e.app == ids::NIL
    &&& e.handle@ == handle
    &&& e.name@ == name
    &&& e.branch@ == branch
    &&& e.subdomain is None
    &&& e.address@ == ""@
    &&& e.status is Unitialized
    &&& e.logs@.len() == 0
    &&& e.last_build_time is None
}

impl App {
    /// The settings a new application has, whoever owns it: a name drawn
    /// from the application word lists, domain `default.app`, no machine,
    /// and two environments: `prod` (Production, branch `prod`) and `test`
    /// (Testing, branch `master`).
    pub open spec fn has_default_settings(&self) -> bool {
        &&& is_numbered_name(self.name@, name_adjectives(), name_nouns())
        &&& self.domain@ == "default.app"@
        &&& self.machine is None
        &&& self.envs@.len() == 2
        &&& is_default_env_named(self.envs@[0], "prod"@, "Production"@, "prod"@)
        &&& is_default_env_named(self.envs@[1], "test"@, "Testing"@, "master"@)
    }

    /// The fields a new application has, the clock-dependent and random
    /// ones aside: the default settings, and no owner, project, avatar or
    /// source yet.
    pub open spec fn has_default_fields(&self) -> bool {
        &&& self.owner == ids::NIL
        &&& self.project == ids::NIL
        &&& self.avatar == ids::NIL
        &&& self.source_url@ == ""@
        &&& self.has_default_settings()
    }

    /// A new application whose avatar is the image `avatar` (created by the
    /// caller in the image store).
    pub fn new(avatar: u128) -> (app: Self)
        ensures
            ids::is_random_v4(app.id),
            app.avatar == avatar,
            ({
                let a = App { avatar: ids::NIL, ..app };
                a.has_default_fields()
            }),
    {
        let mut app = Self::default();
        app.load_image(avatar);
        app
    }

    /// Sets the application's avatar to the image `avatar`.
    pub fn load_image(&mut self, avatar: u128)
        ensures
            *final(self) == (App { avatar, ..*old(self) }),
    {
        self.avatar = avatar;
    }

    /// The name of the stored collection of applications.
    pub fn get_collection_name() -> (name: &'static str)
        ensures
            name@ == "applications"@,
    {
        "applications"
    }

    /// The application's identifier.
    pub fn get_id(&self) -> (id: u128)
        ensures
            id == self.id,
    {
        self.id
    }
}

impl Default for App {
    fn default() -> (app: Self)
        ensures
            app.has_default_fields(),
            ids::is_random_v4(app.id),
    {
        let mut prod = Env::default();
        prod.handle = "prod".to_string();
        prod.name = "Production".to_string();
        prod.branch = "prod".to_string();
        prod.subdomain = None;
        let mut test = Env::default();
        test.handle = "test".to_string();
        test.name = "Testing".to_string();
        test.branch = "master".to_string();
        test.subdomain = None;
        let mut gen = namegen();
        let name = gen.next().unwrap();
        let mut envs: Vec<Env> = Vec::new();
        envs.push(prod);
        envs.push(test);
        App {
            id: ids::new_v4(),
            owner: ids::NIL,
            project: ids::NIL,
            name,
            avatar: ids::NIL,
            domain: "default.app".to_string(),
            machine: None,
            source_url: "".to_string(),
            envs,
            creation_time: time::now(),
            last_edition_time: time::now(),
        }
    }
}

} // verus!
