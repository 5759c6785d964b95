//! Projects, which group a user's applications, machines, keys and storages.

use vstd::prelude::*;
use crate::ids;
use crate::namegen::{NameGenerator, is_numbered_name, words};

verus! {

/// A project of a user.
pub struct Project {
    pub id: u128,
    pub owner: u128,
    pub name: String,
    pub acl: Vec<String>,
}

/// The adjectives project names are drawn from.
pub open spec fn name_adjectives() -> Seq<Seq<char>> {
    seq![
        "remarkable"@,
        "monumental"@,
        "great"@,
        "massive"@,
        "worthy"@,
        "huge"@,
        "laudable"@,
        "ambitious"@,
    ]
}

/// The nouns project names are drawn from.
pub open spec fn name_nouns() -> Seq<Seq<char>> {
    seq![
        "scheme"@,
        "undertaking"@,
        "plan"@,
        "outline"@,
        "design"@,
        "campaign"@,
        "operation"@,
        "endeavour"@,
        "effort"@,
    ]
}

/// The generator of project names.
pub fn namegen() -> (g: NameGenerator)
    ensures
        g.well_formed(),
        words(g.adjectives@) == name_adjectives(),
        words(g.nouns@) == name_nouns(),
{
    let g = NameGenerator {
        adjectives: vec![
            "remarkable",
            "monumental",
            "great",
            "massive",
            "worthy",
            "huge",
            "laudable",
            "ambitious",
        ],
        nouns: vec![
            "scheme",
            "undertaking",
            "plan",
            "outline",
            "design",
            "campaign",
            "operation",
            "endeavour",
            "effort",
        ],
    };
    assert(words(g.adjectives@) =~= name_adjectives());
    assert(words(g.nouns@) =~= name_nouns());
    g
}

impl Project {
    /// The name of the stored collection of projects.
    pub fn get_collection_name() -> (name: &'static str)
        ensures
            name@ == "projects"@,
    {
        "projects"
    }

    /// The project's owner.
    pub fn get_owner(&self) -> (owner: u128)
        ensures
            owner == self.owner,
    {
        self.owner
    }

    /// The project's identifier.
    pub fn get_id(&self) -> (id: u128)
        ensures
            id == self.id,
    {
        self.id
    }
}

impl Default for Project {
    /// A new project with a drawn name, of no owner and with an empty
    /// access list.
    fn default() -> (p: Self)
        ensures
            ids::is_random_v4(p.id),
            p.owner == ids::NIL,
            is_numbered_name(p.name@, name_adjectives(), name_nouns()),
            p.acl@.len() == 0,
    {
        let mut gen = namegen();
        let name = gen.next().unwrap();
        Project { id: ids::new_v4(), owner: ids::NIL, name, acl: Vec::new() }
    }
}

} // verus!
