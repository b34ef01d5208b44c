//! Ownership and object classification of placed objects.
use vstd::prelude::*;

verus! {

/// Who owns a placed object or a referenced structure.
#[derive(Clone, Copy, Debug, PartialEq, Eq, Structural)]
pub enum Ownership {
    /// A concrete team.
    Team(u8),
    /// Take the team of the enclosing structure; illegal at the top level.
    Inherit,
}

/// The gameplay role of a placed object.
#[derive(Clone, Copy, Debug, PartialEq, Eq, Structural)]
pub enum ObjectType {
    Building,
    Unit,
    Cosmetic,
    Resource,
    Terrain,
    Other,
}

/// Whether an object can be selected, and whether it currently is.
#[derive(Clone, Copy, Debug, PartialEq, Eq, Structural)]
pub struct Selectable {
    pub is_selected: bool,
}

impl Ownership {
    /// The ownership after inheriting `team_id`: an `Inherit` becomes
    /// `Team(team_id)`, a concrete team is kept.
    pub open spec fn inherited(self, team_id: u8) -> Ownership {
        match self {
            Ownership::Inherit => Ownership::Team(team_id),
            Ownership::Team(t) => Ownership::Team(t),
        }
    }

    pub fn inherit(&self, team_id: u8) -> (r: Ownership)
        ensures
            r == self.inherited(team_id),
    {
        match self {
            Ownership::Inherit => Ownership::Team(team_id),
            Ownership::Team(t) => Ownership::Team(*t),
        }
    }
}

} // verus!
