//! Access keys of a project.

use vstd::prelude::*;
use crate::ids;
use crate::namegen::{NameGenerator, is_numbered_name, words};

verus! {

/// The service an access key is for.
#[derive(Clone, Copy, Debug, PartialEq, Eq, Structural)]
pub enum Kind {
    S3,
    StorageBox,
}

/// An access key of a project.
pub struct Key {
    pub id: u128,
    pub owner: u128,
    pub project: u128,
    pub name: String,
    pub kind: Kind,
}

/// The adjectives key names are drawn from.
pub open spec fn name_adjectives() -> Seq<Seq<char>> {
    seq!["unbreakable"@, "quantum"@, "vital"@]
}

/// The nouns key names are drawn from.
pub open spec fn name_nouns() -> Seq<Seq<char>> {
    seq!["safe"@, "key"@, "pass"@, "opener"@, "device"@]
}

/// The generator of key names.
pub fn namegen() -> (g: NameGenerator)
    ensures
        g.well_formed(),
        words(g.adjectives@) == name_adjectives(),
        words(g.nouns@) == name_nouns(),
{
    let g = NameGenerator {
        adjectives: vec!["unbreakable", "quantum", "vital"],
        nouns: vec!["safe", "key", "pass", "opener", "device"],
    };
    assert(words(g.adjectives@) =~= name_adjectives());
    assert(words(g.nouns@) =~= name_nouns());
    g
}

impl Key {
    /// The name of the stored collection of keys.
    pub fn get_collection_name() -> (name: &'static str)
        ensures
            name@ == "keys"@,
    {
        "keys"
    }

    /// The key's identifier.
    pub fn get_id(&self) -> (id: u128)
        ensures
            id == self.id,
    {
        self.id
    }
}

impl Key {
    /// The fields a new key has, the random identifier aside: an S3 key
    /// with a name drawn from the key word lists, of no owner and no project.
    pub open spec fn has_default_fields(&self) -> bool {
        &&& self.owner == ids::NIL
        &&& self.project == ids::NIL
        &&& is_numbered_name(self.name@, name_adjectives(), name_nouns())
        &&& self.kind == Kind::S3
    }
}

impl Default for Key {
    /// A new S3 key with a drawn name, of no owner and no project.
    fn default() -> (k: Self)
        ensures
            ids::is_random_v4(k.id),
            k.has_default_fields(),
    {
        let mut gen = namegen();
        let name = gen.next().unwrap();
        Key { id: ids::new_v4(), owner: ids::NIL, project: ids::NIL, name, kind: Kind::S3 }
    }
}

} // verus!
