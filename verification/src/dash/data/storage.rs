//! Storages of a project.

use vstd::prelude::*;
use crate::ids;

verus! {

/// The service a storage is kept at.
#[derive(Clone, Copy, Debug, PartialEq, Eq, Structural)]
pub enum Kind {
    S3,
    StorageBox,
}

/// A storage of a project.
pub struct Storage {
    pub id: u128,
    pub owner: u128,
    pub project: u128,
    pub name: String,
    pub kind: Kind,
}

impl Storage {
    /// The name of the stored collection of storages.
    pub fn get_collection_name() -> (name: &'static str)
        ensures
            name@ == "storages"@,
    {
        "storages"
    }

    /// The storage's identifier.
    pub fn get_id(&self) -> (id: u128)
        ensures
            id == self.id,
    {
        self.id
    }
}

impl Storage {
    /// The fields a new storage has, the random identifier aside: an S3
    /// storage named `default-storage`, of no owner and no project.
    pub open spec fn has_default_fields(&self) -> bool {
        &&& self.owner == ids::NIL
        &&& self.project == ids::NIL
        &&& self.name@ == "default-storage"@
        &&& self.kind == Kind::S3
    }
}

impl Default for Storage {
    /// A new S3 storage named `default-storage`, of no owner and no project.
    fn default() -> (s: Self)
        ensures
            ids::is_random_v4(s.id),
            s.has_default_fields(),
    {
        Storage {
            id: ids::new_v4(),
            owner: ids::NIL,
            project: ids::NIL,
            name: "default-storage".to_string(),
            kind: Kind::S3,
        }
    }
}

} // verus!
