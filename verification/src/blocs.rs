//! Blocs: groupings of nations that share research or impose sanctions.

use vstd::prelude::*;
use crate::nation::Nation;

verus! {

/// Largest strength a bloc can have, in millionths (ten units).
pub const BLOC_STRENGTH_MAX: i64 = 10_000_000;

#[derive(Clone, Copy, Debug, PartialEq, Eq, Structural, Hash)]
pub enum BlocKind {
    ResearchPact,
    Sanction,
    DefenseTreaty,
}

/// A bloc: which nations belong to it (by `Nation::index`), who leads and how strong it is.
#[derive(Clone, Copy, Debug)]
pub struct Bloc {
    pub kind: BlocKind,
    pub members: [bool; 5],
    pub leader: Option<Nation>,
    pub strength: i64,
}

impl Bloc {
    pub open spec fn wf(&self) -> bool {
        0 <= self.strength <= BLOC_STRENGTH_MAX
    }

    pub open spec fn has_member(&self, nation: Nation) -> bool {
        self.members@[nation.index_of()]
    }

    pub fn contains(&self, nation: Nation) -> (r: bool)
        ensures
            r == self.has_member(nation),
    {
        self.members[nation.index()]
    }
}

/// The blocs of the world, one slot per kind.
#[derive(Clone, Copy, Debug)]
pub struct WorldBlocs {
    pub research_pact: Option<Bloc>,
    pub sanction: Option<Bloc>,
    pub defense_treaty: Option<Bloc>,
}

/// The strength with which a bloc acts on a nation: its strength for a member,
/// nothing otherwise.
pub open spec fn bloc_pull(bloc: Option<Bloc>, nation: Nation) -> int {
    match bloc {
        Some(b) => if b.has_member(nation) {
            b.strength as int
        } else {
            0
        },
        None => 0,
    }
}

pub fn bloc_strength_for(bloc: &Option<Bloc>, nation: Nation) -> (r: i64)
    requires
        bloc is Some ==> bloc->0.wf(),
    ensures
        r == bloc_pull(*bloc, nation),
        0 <= r <= BLOC_STRENGTH_MAX,
{
    match bloc {
        Some(b) => if b.contains(nation) {
            b.strength
        } else {
            0
        },
        None => 0,
    }
}

impl WorldBlocs {
    pub open spec fn wf(&self) -> bool {
        &&& self.research_pact is Some ==> self.research_pact->0.wf() && self.research_pact->0.kind
            == BlocKind::ResearchPact
        &&& self.sanction is Some ==> self.sanction->0.wf() && self.sanction->0.kind
            == BlocKind::Sanction
        &&& self.defense_treaty is Some ==> self.defense_treaty->0.wf()
            && self.defense_treaty->0.kind == BlocKind::DefenseTreaty
    }

    pub open spec fn of(&self, kind: BlocKind) -> Option<Bloc> {
        match kind {
            BlocKind::ResearchPact => self.research_pact,
            BlocKind::Sanction => self.sanction,
            BlocKind::DefenseTreaty => self.defense_treaty,
        }
    }

    pub fn get(&self, kind: BlocKind) -> (r: Option<Bloc>)
        ensures
            r == self.of(kind),
    {
        match kind {
            BlocKind::ResearchPact => self.research_pact,
            BlocKind::Sanction => self.sanction,
            BlocKind::DefenseTreaty => self.defense_treaty,
        }
    }
}

impl Default for WorldBlocs {
    fn default() -> (b: Self)
        ensures
            b.wf(),
            b.research_pact is None,
            b.sanction is None,
            b.defense_treaty is None,
    {
        Self { research_pact: None, sanction: None, defense_treaty: None }
    }
}

} // verus!
