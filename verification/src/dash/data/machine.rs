//! Machines that run applications.

use vstd::prelude::*;
use crate::ids;
use crate::namegen::{NameGenerator, is_numbered_name, words};

verus! {

/// Who manages a machine.
#[derive(Clone, Copy, Debug, PartialEq, Eq, Structural)]
pub enum Kind {
    /// Managed machine is one handled by the system, e.g. based on an
    /// integration with a third-party service. Using an external API this kind
    /// of machine will be automatically added/removed based on external
    /// context.
    Managed,
    /// Unmanaged machine is one solely handled by the user.
    Unmanaged,
}

/// Whether a machine's runner is connected to the dashboard.
#[derive(Clone, Copy, Debug, PartialEq, Eq, Structural)]
pub enum Status {
    Disconnected,
    Connected,
}

impl Kind {
    /// The variant's name.
    pub open spec fn spec_name(&self) -> Seq<char> {
        match self {
            Kind::Managed => "Managed"@,
            Kind::Unmanaged => "Unmanaged"@,
        }
    }

    /// The variant's name (the text the kind is shown with).
    pub fn to_text(&self) -> (text: String)
        ensures
            text@ == self.spec_name(),
    {
        match self {
            Kind::Managed => "Managed".to_string(),
            Kind::Unmanaged => "Unmanaged".to_string(),
        }
    }
}

impl Status {
    /// The variant's name.
    pub open spec fn spec_name(&self) -> Seq<char> {
        match self {
            Status::Disconnected => "Disconnected"@,
            Status::Connected => "Connected"@,
        }
    }

    /// The variant's name (the text the status is shown with).
    pub fn to_text(&self) -> (text: String)
        ensures
            text@ == self.spec_name(),
    {
        match self {
            Status::Disconnected => "Disconnected".to_string(),
            Status::Connected => "Connected".to_string(),
        }
    }
}

/// A machine of a project, on which a runner executes applications.
pub struct Machine {
    pub id: u128,
    pub owner: u128,
    pub project: u128,
    pub kind: Kind,
    pub name: String,
    pub status: Status,
    /// Unique code for authorizing incoming connections from machine
    pub secret: u128,
    pub address: String,
}

/// The adjectives machine names are drawn from.
pub open spec fn name_adjectives() -> Seq<Seq<char>> {
    seq![
        "busy"@,
        "dilligent"@,
        "energetic"@,
        "zealous"@,
        "nimble"@,
        "earnest"@,
        "resolute"@,
        "vigorous"@,
    ]
}

/// The nouns machine names are drawn from.
pub open spec fn name_nouns() -> Seq<Seq<char>> {
    seq![
        "automaton"@,
        "widget"@,
        "engine"@,
        "instrument"@,
        "gadget"@,
        "robot"@,
        "workhorse"@,
        "mechanism"@,
        "thingamabob"@,
    ]
}

/// The generator of machine names.
pub fn namegen() -> (g: NameGenerator)
    ensures
        g.well_formed(),
        words(g.adjectives@) == name_adjectives(),
        words(g.nouns@) == name_nouns(),
{
    let g = NameGenerator {
        adjectives: vec![
            "busy",
            "dilligent",
            "energetic",
            "zealous",
            "nimble",
            "earnest",
            "resolute",
            "vigorous",
        ],
        nouns: vec![
            "automaton",
            "widget",
            "engine",
            "instrument",
            "gadget",
            "robot",
            "workhorse",
            "mechanism",
            "thingamabob",
        ],
    };
    assert(words(g.adjectives@) =~= name_adjectives());
    assert(words(g.nouns@) =~= name_nouns());
    g
}

impl Machine {
    /// The name of the stored collection of machines.
    pub fn get_collection_name() -> (name: &'static str)
        ensures
            name@ == "machines"@,
    {
        "machines"
    }

    /// The machine's identifier.
    pub fn get_id(&self) -> (id: u128)
        ensures
            id == self.id,
    {
        self.id
    }
}

impl Default for Machine {
    /// A new unmanaged, disconnected machine at `localhost`, with a drawn
    /// name and a fresh random secret, of no owner and no project.
    fn default() -> (m: Self)
        ensures
            ids::is_random_v4(m.id),
            m.owner == ids::NIL,
            m.project == ids::NIL,
            m.kind == Kind::Unmanaged,
            is_numbered_name(m.name@, name_adjectives(), name_nouns()),
            m.status == Status::Disconnected,
            ids::is_random_v4(m.secret),
            m.address@ == "localhost"@,
    {
        let mut gen = namegen();
        let name = gen.next().unwrap();
        Machine {
            id: ids::new_v4(),
            owner: ids::NIL,
            project: ids::NIL,
            kind: Kind::Unmanaged,
            name,
            status: Status::Disconnected,
            secret: ids::new_v4(),
            address: "localhost".to_string(),
        }
    }
}

} // verus!
