//! The five nations that share the world.

use vstd::prelude::*;

verus! {

/// How many nations exist. The set is fixed for the lifetime of a world.
pub const NATION_COUNT: usize = 5;

#[derive(Clone, Copy, Debug, PartialEq, Eq, Structural, Hash)]
pub enum Nation {
    Tera,
    Sora,
    Aqua,
    Solar,
    Luna,
}

impl Nation {
    /// The display name, as a sequence of characters.
    pub open spec fn name_text(self) -> Seq<char> {
        match self {
            Nation::Tera => "Tera"@,
            Nation::Sora => "Sora"@,
            Nation::Aqua => "Aqua"@,
            Nation::Solar => "Solar"@,
            Nation::Luna => "Luna"@,
        }
    }

    /// Position of the nation in every per-nation table.
    pub open spec fn index_of(self) -> int {
        match self {
            Nation::Tera => 0,
            Nation::Sora => 1,
            Nation::Aqua => 2,
            Nation::Solar => 3,
            Nation::Luna => 4,
        }
    }

    /// The nation stored at a table position.
    pub open spec fn at(i: int) -> Nation {
        if i == 0 {
            Nation::Tera
        } else if i == 1 {
            Nation::Sora
        } else if i == 2 {
            Nation::Aqua
        } else if i == 3 {
            Nation::Solar
        } else {
            Nation::Luna
        }
    }

    pub fn name(&self) -> (r: &'static str)
        ensures
            r@ == self.name_text(),
    {
        match self {
            Nation::Tera => "Tera",
            Nation::Sora => "Sora",
            Nation::Aqua => "Aqua",
            Nation::Solar => "Solar",
            Nation::Luna => "Luna",
        }
    }

    pub fn index(&self) -> (i: usize)
        ensures
            i == self.index_of(),
            i < NATION_COUNT,
    {
        match self {
            Nation::Tera => 0,
            Nation::Sora => 1,
            Nation::Aqua => 2,
            Nation::Solar => 3,
            Nation::Luna => 4,
        }
    }

    pub fn from_index(i: usize) -> (n: Nation)
        requires
            i < NATION_COUNT,
        ensures
            n == Nation::at(i as int),
            n.index_of() == i,
    {
        if i == 0 {
            Nation::Tera
        } else if i == 1 {
            Nation::Sora
        } else if i == 2 {
            Nation::Aqua
        } else if i == 3 {
            Nation::Solar
        } else {
            Nation::Luna
        }
    }
}

/// Indices and nations correspond one to one.
pub proof fn lemma_nation_index_roundtrip(n: Nation)
    ensures
        0 <= n.index_of() < NATION_COUNT,
        Nation::at(n.index_of()) == n,
{
}

/// The pair `(a, b)` with the lower-indexed nation first.
pub open spec fn ordered_pair_of(a: Nation, b: Nation) -> (Nation, Nation) {
    if a.index_of() < b.index_of() {
        (a, b)
    } else {
        (b, a)
    }
}

pub fn ordered_pair(a: Nation, b: Nation) -> (p: (Nation, Nation))
    ensures
        p == ordered_pair_of(a, b),
{
    if a.index() < b.index() {
        (a, b)
    } else {
        (b, a)
    }
}

} // verus!
