//! Eras, weapon tiers and the linear technology ladder.

use vstd::prelude::*;
use crate::fixed::SCALE;

verus! {

#[derive(Clone, Copy, Debug, PartialEq, Eq, Structural, Hash)]
pub enum Era {
    Dawn,
    Ancient,
    Classical,
    Medieval,
    Industrial,
    Modern,
    Nuclear,
}

impl Era {
    pub open spec fn label_text(self) -> Seq<char> {
        match self {
            Era::Dawn => "Stone Age"@,
            Era::Ancient => "Bronze Age"@,
            Era::Classical => "Classical Era"@,
            Era::Medieval => "Medieval Era"@,
            Era::Industrial => "Industrial Era"@,
            Era::Modern => "Modern Era"@,
            Era::Nuclear => "Nuclear/Future"@,
        }
    }

    /// Position on the ladder, `0` for the first era.
    pub open spec fn rank(self) -> int {
        match self {
            Era::Dawn => 0,
            Era::Ancient => 1,
            Era::Classical => 2,
            Era::Medieval => 3,
            Era::Industrial => 4,
            Era::Modern => 5,
            Era::Nuclear => 6,
        }
    }

    /// The era that follows, if any.
    pub open spec fn successor(self) -> Option<Era> {
        match self {
            Era::Dawn => Some(Era::Ancient),
            Era::Ancient => Some(Era::Classical),
            Era::Classical => Some(Era::Medieval),
            Era::Medieval => Some(Era::Industrial),
            Era::Industrial => Some(Era::Modern),
            Era::Modern => Some(Era::Nuclear),
            Era::Nuclear => None,
        }
    }

    pub fn label(&self) -> (r: &'static str)
        ensures
            r@ == self.label_text(),
    {
        match self {
            Era::Dawn => "Stone Age",
            Era::Ancient => "Bronze Age",
            Era::Classical => "Classical Era",
            Era::Medieval => "Medieval Era",
            Era::Industrial => "Industrial Era",
            Era::Modern => "Modern Era",
            Era::Nuclear => "Nuclear/Future",
        }
    }

    pub fn next(&self) -> (r: Option<Era>)
        ensures
            r == self.successor(),
            r is Some ==> r->0.rank() == self.rank() + 1,
            r is None <==> *self == Era::Nuclear,
    {
        match self {
            Era::Dawn => Some(Era::Ancient),
            Era::Ancient => Some(Era::Classical),
            Era::Classical => Some(Era::Medieval),
            Era::Medieval => Some(Era::Industrial),
            Era::Industrial => Some(Era::Modern),
            Era::Modern => Some(Era::Nuclear),
            Era::Nuclear => None,
        }
    }
}

#[derive(Clone, Copy, Debug, PartialEq, Eq, Structural, Hash)]
pub enum WeaponTier {
    KnappedStone,
    PolishedStone,
    Bow,
    Crossbow,
    Gunpowder,
    SteelArmor,
    ModernArmor,
    NuclearArsenal,
}

impl WeaponTier {
    pub open spec fn label_text(self) -> Seq<char> {
        match self {
            WeaponTier::KnappedStone => "Knapped Stone"@,
            WeaponTier::PolishedStone => "Polished Stone"@,
            WeaponTier::Bow => "Bow"@,
            WeaponTier::Crossbow => "Crossbow"@,
            WeaponTier::Gunpowder => "Gunpowder"@,
            WeaponTier::SteelArmor => "Steel Armor"@,
            WeaponTier::ModernArmor => "Modern Tank"@,
            WeaponTier::NuclearArsenal => "Nuclear Arsenal"@,
        }
    }

    /// Factor applied to military strength in battle, in millionths.
    pub open spec fn multiplier(self) -> int {
        match self {
            WeaponTier::KnappedStone => 750_000,
            WeaponTier::PolishedStone => 900_000,
            WeaponTier::Bow => 1_000_000,
            WeaponTier::Crossbow => 1_100_000,
            WeaponTier::Gunpowder => 1_250_000,
            WeaponTier::SteelArmor => 1_350_000,
            WeaponTier::ModernArmor => 1_550_000,
            WeaponTier::NuclearArsenal => 1_800_000,
        }
    }

    /// Whether this is the top tier, the only one that can escalate a war.
    pub open spec fn is_top(self) -> bool {
        self == WeaponTier::NuclearArsenal
    }

    pub fn label(&self) -> (r: &'static str)
        ensures
            r@ == self.label_text(),
    {
        match self {
            WeaponTier::KnappedStone => "Knapped Stone",
            WeaponTier::PolishedStone => "Polished Stone",
            WeaponTier::Bow => "Bow",
            WeaponTier::Crossbow => "Crossbow",
            WeaponTier::Gunpowder => "Gunpowder",
            WeaponTier::SteelArmor => "Steel Armor",
            WeaponTier::ModernArmor => "Modern Tank",
            WeaponTier::NuclearArsenal => "Nuclear Arsenal",
        }
    }

    pub fn combat_multiplier(&self) -> (r: i64)
        ensures
            r == self.multiplier(),
            750_000 <= r <= 1_800_000,
    {
        match self {
            WeaponTier::KnappedStone => 750_000,
            WeaponTier::PolishedStone => 900_000,
            WeaponTier::Bow => 1_000_000,
            WeaponTier::Crossbow => 1_100_000,
            WeaponTier::Gunpowder => 1_250_000,
            WeaponTier::SteelArmor => 1_350_000,
            WeaponTier::ModernArmor => 1_550_000,
            WeaponTier::NuclearArsenal => 1_800_000,
        }
    }

    pub fn is_nuclear(&self) -> (r: bool)
        ensures
            r == self.is_top(),
    {
        match self {
            WeaponTier::NuclearArsenal => true,
            _ => false,
        }
    }
}

#[derive(Clone, Copy, Debug, PartialEq, Eq, Structural, Hash)]
pub enum Tech {
    Knapping,
    PolishedTools,
    Archery,
    Siegecraft,
    Metallurgy,
    GunpowderChemistry,
    Ballistics,
    NuclearPhysics,
}

impl Tech {
    pub open spec fn label_text(self) -> Seq<char> {
        match self {
            Tech::Knapping => "Knapping"@,
            Tech::PolishedTools => "Polished Tools"@,
            Tech::Archery => "Archery"@,
            Tech::Siegecraft => "Siegecraft"@,
            Tech::Metallurgy => "Metallurgy"@,
            Tech::GunpowderChemistry => "Gunpowder Chemistry"@,
            Tech::Ballistics => "Ballistics"@,
            Tech::NuclearPhysics => "Nuclear Physics"@,
        }
    }

    pub fn label(&self) -> (r: &'static str)
        ensures
            r@ == self.label_text(),
    {
        match self {
            Tech::Knapping => "Knapping",
            Tech::PolishedTools => "Polished Tools",
            Tech::Archery => "Archery",
            Tech::Siegecraft => "Siegecraft",
            Tech::Metallurgy => "Metallurgy",
            Tech::GunpowderChemistry => "Gunpowder Chemistry",
            Tech::Ballistics => "Ballistics",
            Tech::NuclearPhysics => "Nuclear Physics",
        }
    }
}

/// Largest gate a tier may demand, in millionths.
pub const GATE_MAX: i64 = 1_000_000_000_000;

/// What a nation must have accumulated to enter an era, and what it gains there.
#[derive(Debug)]
pub struct EraTechTier {
    pub era: Era,
    pub science_gate: i64,
    pub culture_gate: i64,
    pub military_gate: i64,
    pub weapon_tier: WeaponTier,
    pub unlocks: Vec<Tech>,
}

impl EraTechTier {
    pub open spec fn wf(&self) -> bool {
        &&& 0 <= self.science_gate <= GATE_MAX
        &&& 0 <= self.culture_gate <= GATE_MAX
        &&& 0 <= self.military_gate <= GATE_MAX
    }
}

#[derive(Debug)]
pub struct TechTree {
    pub tiers: Vec<EraTechTier>,
}

impl TechTree {
    pub open spec fn wf(&self) -> bool {
        forall|i: int| 0 <= i < self.tiers@.len() ==> (#[trigger] self.tiers@[i]).wf()
    }

    /// Index of the first tier for an era, or the number of tiers when there is none.
    pub open spec fn tier_index_from(tiers: Seq<EraTechTier>, era: Era, start: int) -> int
        decreases tiers.len() - start,
    {
        if start < 0 || start >= tiers.len() {
            tiers.len() as int
        } else if tiers[start].era == era {
            start
        } else {
            Self::tier_index_from(tiers, era, start + 1)
        }
    }

    pub open spec fn tier_index(&self, era: Era) -> int {
        Self::tier_index_from(self.tiers@, era, 0)
    }

    /// The first tier recorded for an era.
    pub open spec fn tier_of(&self, era: Era) -> Option<EraTechTier> {
        if self.tier_index(era) < self.tiers@.len() {
            Some(self.tiers@[self.tier_index(era)])
        } else {
            None
        }
    }

    /// The tier a nation in `era` would enter next.
    pub open spec fn next_tier_of(&self, era: Era) -> Option<EraTechTier> {
        match era.successor() {
            Some(next) => self.tier_of(next),
            None => None,
        }
    }

    pub proof fn lemma_tier_index_bounds(tiers: Seq<EraTechTier>, era: Era, start: int)
        requires
            0 <= start <= tiers.len(),
        ensures
            start <= Self::tier_index_from(tiers, era, start) <= tiers.len(),
            Self::tier_index_from(tiers, era, start) < tiers.len() ==> tiers[Self::tier_index_from(
                tiers,
                era,
                start,
            )].era == era,
            forall|j: int|
                start <= j < Self::tier_index_from(tiers, era, start) ==> (#[trigger] tiers[j]).era
                    != era,
        decreases tiers.len() - start,
    {
        if start < tiers.len() && tiers[start].era != era {
            Self::lemma_tier_index_bounds(tiers, era, start + 1);
        }
    }

    pub fn tier(&self, era: Era) -> (r: Option<&EraTechTier>)
        ensures
            r is Some <==> self.tier_of(era) is Some,
            r is Some ==> *r->0 == self.tier_of(era)->0 && r->0.era == era,
            r is Some && self.wf() ==> r->0.wf(),
    {
        let mut i: usize = 0;
        proof {
            Self::lemma_tier_index_bounds(self.tiers@, era, 0);
        }
        while i < self.tiers.len()
            invariant
                0 <= i <= self.tiers@.len(),
                Self::tier_index_from(self.tiers@, era, i as int) == self.tier_index(era),
            decreases self.tiers@.len() - i,
        {
            if self.tiers[i].era == era {
                return Some(&self.tiers[i]);
            }
            i += 1;
        }
        None
    }

    pub fn next_tier(&self, era: Era) -> (r: Option<&EraTechTier>)
        ensures
            r is Some <==> self.next_tier_of(era) is Some,
            r is Some ==> *r->0 == self.next_tier_of(era)->0 && era.successor() == Some(r->0.era),
            r is Some && self.wf() ==> r->0.wf(),
    {
        match era.next() {
            Some(next) => self.tier(next),
            None => None,
        }
    }

    /// The gates of the standard ladder, in whole units.
    pub open spec fn standard_gates(era: Era) -> (int, int, int) {
        match era {
            Era::Dawn => (0, 0, 0),
            Era::Ancient => (35, 20, 10),
            Era::Classical => (50, 30, 18),
            Era::Medieval => (65, 40, 25),
            Era::Industrial => (75, 55, 35),
            Era::Modern => (85, 65, 50),
            Era::Nuclear => (95, 75, 70),
        }
    }

    /// The weapon tier the standard ladder grants on entering an era.
    pub open spec fn standard_weapon(era: Era) -> WeaponTier {
        match era {
            Era::Dawn => WeaponTier::KnappedStone,
            Era::Ancient => WeaponTier::PolishedStone,
            Era::Classical => WeaponTier::Bow,
            Era::Medieval => WeaponTier::Crossbow,
            Era::Industrial => WeaponTier::Gunpowder,
            Era::Modern => WeaponTier::ModernArmor,
            Era::Nuclear => WeaponTier::NuclearArsenal,
        }
    }

    /// The techs the standard ladder unlocks on entering an era.
    pub open spec fn standard_unlocks(era: Era) -> Seq<Tech> {
        match era {
            Era::Dawn => seq![Tech::Knapping],
            Era::Ancient => seq![Tech::PolishedTools],
            Era::Classical => seq![Tech::Archery],
            Era::Medieval => seq![Tech::Siegecraft],
            Era::Industrial => seq![Tech::Metallurgy, Tech::GunpowderChemistry],
            Era::Modern => seq![Tech::Ballistics],
            Era::Nuclear => seq![Tech::NuclearPhysics],
        }
    }

    /// Whether `tier` is the standard ladder's entry for `era`.
    pub open spec fn is_standard_tier(tier: EraTechTier, era: Era) -> bool {
        &&& tier.era == era
        &&& tier.science_gate == Self::standard_gates(era).0 * SCALE
        &&& tier.culture_gate == Self::standard_gates(era).1 * SCALE
        &&& tier.military_gate == Self::standard_gates(era).2 * SCALE
        &&& tier.weapon_tier == Self::standard_weapon(era)
        &&& tier.unlocks@ =~= Self::standard_unlocks(era)
    }

    /// Whether this tree is the standard seven-step ladder.
    pub open spec fn is_standard(&self) -> bool {
        &&& self.tiers@.len() == 7
        &&& Self::is_standard_tier(self.tiers@[0], Era::Dawn)
        &&& Self::is_standard_tier(self.tiers@[1], Era::Ancient)
        &&& Self::is_standard_tier(self.tiers@[2], Era::Classical)
        &&& Self::is_standard_tier(self.tiers@[3], Era::Medieval)
        &&& Self::is_standard_tier(self.tiers@[4], Era::Industrial)
        &&& Self::is_standard_tier(self.tiers@[5], Era::Modern)
        &&& Self::is_standard_tier(self.tiers@[6], Era::Nuclear)
    }

    fn standard_tier(
        era: Era,
        science: i64,
        culture: i64,
        military: i64,
        weapon_tier: WeaponTier,
        unlocks: Vec<Tech>,
    ) -> (t: EraTechTier)
        requires
            0 <= science <= 1000,
            0 <= culture <= 1000,
            0 <= military <= 1000,
        ensures
            t.era == era,
            t.science_gate == science * SCALE,
            t.culture_gate == culture * SCALE,
            t.military_gate == military * SCALE,
            t.weapon_tier == weapon_tier,
            t.unlocks == unlocks,
            t.wf(),
    {
        EraTechTier {
            era,
            science_gate: science * SCALE,
            culture_gate: culture * SCALE,
            military_gate: military * SCALE,
            weapon_tier,
            unlocks,
        }
    }

    /// The standard ladder from the Stone Age to the nuclear era.
    pub fn standard() -> (t: TechTree)
        ensures
            t.is_standard(),
            t.wf(),
    {
        let mut tiers: Vec<EraTechTier> = Vec::new();
        tiers.push(
            Self::standard_tier(Era::Dawn, 0, 0, 0, WeaponTier::KnappedStone, vec![Tech::Knapping]),
        );
        tiers.push(
            Self::standard_tier(
                Era::Ancient,
                35,
                20,
                10,
                WeaponTier::PolishedStone,
                vec![Tech::PolishedTools],
            ),
        );
        tiers.push(
            Self::standard_tier(Era::Classical, 50, 30, 18, WeaponTier::Bow, vec![Tech::Archery]),
        );
        tiers.push(
            Self::standard_tier(
                Era::Medieval,
                65,
                40,
                25,
                WeaponTier::Crossbow,
                vec![Tech::Siegecraft],
            ),
        );
        tiers.push(
            Self::standard_tier(
                Era::Industrial,
                75,
                55,
                35,
                WeaponTier::Gunpowder,
                vec![Tech::Metallurgy, Tech::GunpowderChemistry],
            ),
        );
        tiers.push(
            Self::standard_tier(
                Era::Modern,
                85,
                65,
                50,
                WeaponTier::ModernArmor,
                vec![Tech::Ballistics],
            ),
        );
        tiers.push(
            Self::standard_tier(
                Era::Nuclear,
                95,
                75,
                70,
                WeaponTier::NuclearArsenal,
                vec![Tech::NuclearPhysics],
            ),
        );
        TechTree { tiers }
    }
}

impl Default for TechTree {
    fn default() -> (t: Self)
        ensures
            t.is_standard(),
            t.wf(),
    {
        TechTree::standard()
    }
}

} // verus!
