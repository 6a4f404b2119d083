//! A loot simulator that procedurally generates game artifacts, reproducing
//! the published drop tables for slot, set, main stat and sub-stats, with the
//! structural invariants of a legal artifact proved for every result.

use vstd::prelude::*;

mod sampling;
pub mod values;

use rand::rngs::StdRng;

verus! {

/// The two artifact sets a domain can drop; both are equally likely.
#[derive(Debug, Clone, Copy, PartialEq, Eq, Structural)]
pub enum Sets {
    Emblem,
    Shimenawa,
}

/// The five equipment positions an artifact can occupy; the slot determines
/// the legal main-stat pool.
#[derive(Debug, Clone, Copy, PartialEq, Eq, Structural)]
pub enum Types {
    Flower,
    Plume,
    Sand,
    Goblet,
    Circlet,
}

/// The attribute kinds a stat can carry.
#[derive(Debug, Clone, Copy, PartialEq, Eq, Structural)]
pub enum Stats {
    Atk,
    Hp,
    Def,
    AtkPct,
    HpPct,
    DefPct,
    EM,
    ER,
    ElementalDMG,
    PhysicalDMG,
    OtherDMG,
    CR,
    CD,
    HB,
}

/// A scored attribute: its kind and its value. The value is held in
/// thousandths of a stat point, so every table value and every 90/80/70
/// percent tier is exact.
#[derive(Debug, Clone, Copy, PartialEq, Eq, Structural)]
pub struct Stat {
    pub stat: Stats,
    pub value: u64,
}

impl Stat {
    /// Builds a stat from a kind and a value in thousandths of a point.
    pub fn from(stat: Stats, value: u64) -> (r: Self)
        ensures
            r == (Stat { stat, value }),
    {
        Stat { stat, value }
    }

    /// The kind of this stat.
    pub fn stat(&self) -> (r: &Stats)
        ensures
            *r == self.stat,
    {
        &self.stat
    }

    /// The value of this stat, in thousandths of a point.
    pub fn value(&self) -> (r: u64)
        ensures
            r == self.value,
    {
        self.value
    }
}

/// A generated equipment item: one main stat, up to four sub-stats in draw
/// order, and a fixed budget of upgrades that this generator never spends.
#[derive(Debug, PartialEq)]
pub struct Artifact {
    pub set: Sets,
    pub slot: Types,
    pub main_stat: Stat,
    pub sub_stats: [Option<Stat>; 4],
    pub upgrades_remaining: u8,
}

impl Artifact {
    /// The invariants of a generated artifact: the main stat is legal for the
    /// slot and carries its table value; three or four sub-stats are filled in
    /// draw order with distinct kinds, none equal to the main stat, each value
    /// on a legal tier; and the upgrade budget is untouched.
    pub open spec fn wf(self) -> bool {
        &&& values::is_legal_main(self.slot, self.main_stat.stat)
        &&& values::main_value_of(self.slot, self.main_stat.stat) == Some(self.main_stat.value)
        &&& (exists|n: int| #[trigger] values::subs_wf(self.sub_stats@, n, self.main_stat.stat))
        &&& self.upgrades_remaining == 5
    }

    /// Assembles an artifact from the given parts, as they are.
    pub fn from(
        set: Sets,
        slot: Types,
        main_stat: Stat,
        sub_stats: [Option<Stat>; 4],
        upgrades_remaining: u8,
    ) -> (r: Self)
        ensures
            r == (Artifact { set, slot, main_stat, sub_stats, upgrades_remaining }),
    {
        Artifact { set, slot, main_stat, sub_stats, upgrades_remaining }
    }

    /// Generates a random artifact from a caller-supplied generator, so a
    /// seeded generator reproduces the same artifact.
    pub fn custom_rng(rng: &mut StdRng, strongbox: bool) -> (r: Artifact)
        ensures
            r.wf(),
    {
        let set = random_set(rng);
        let slot = random_slot(rng);

        let main = values::main_stat(rng, &slot);
        let sub = values::sub_stats(rng, &main.stat, strongbox);

        let r = Artifact::from(set, slot, main, sub, 5);
        proof {
            let n = choose|n: int| values::subs_wf(sub@, n, main.stat);
            assert(values::subs_wf(r.sub_stats@, n, r.main_stat.stat));
        }
        r
    }

    /// Generates a random artifact from a fresh entropy-seeded generator,
    /// drawing the strongbox flag at random as well.
    pub fn random() -> (r: Artifact)
        ensures
            r.wf(),
    {
        let mut rng = sampling::rng_from_entropy();
        let strongbox = sampling::coin_flip(&mut rng);
        Artifact::custom_rng(&mut rng, strongbox)
    }

    /// The slot this artifact occupies.
    pub fn slot(&self) -> (r: &Types)
        ensures
            *r == self.slot,
    {
        &self.slot
    }

    /// The set this artifact belongs to.
    pub fn set(&self) -> (r: &Sets)
        ensures
            *r == self.set,
    {
        &self.set
    }

    /// The main stat.
    pub fn main_stat(&self) -> (r: &Stat)
        ensures
            *r == self.main_stat,
    {
        &self.main_stat
    }

    /// The sub-stat slots, in draw order; empty slots are `None`.
    pub fn sub_stats(&self) -> (r: &[Option<Stat>; 4])
        ensures
            *r == self.sub_stats,
    {
        &self.sub_stats
    }

    /// How many upgrades are left; always the initial five.
    pub fn upgrades_remaining(&self) -> (r: u8)
        ensures
            r == self.upgrades_remaining,
    {
        self.upgrades_remaining
    }
}

/// Law: every generated artifact starts with exactly three or four sub-stats.
pub proof fn lemma_sub_stat_count(a: Artifact)
    requires
        a.wf(),
    ensures
        values::filled_count(a.sub_stats@) == 3 || values::filled_count(a.sub_stats@) == 4,
{
    let n = choose|n: int| values::subs_wf(a.sub_stats@, n, a.main_stat.stat);
}

/// Law: no two filled sub-stat slots share a kind, and no sub-stat has the
/// kind of the main stat.
pub proof fn lemma_sub_stats_distinct(a: Artifact, i: int, j: int)
    requires
        a.wf(),
        0 <= i < 4,
        0 <= j < 4,
        i != j,
        a.sub_stats@[i] is Some,
        a.sub_stats@[j] is Some,
    ensures
        a.sub_stats@[i]->Some_0.stat != a.sub_stats@[j]->Some_0.stat,
        a.sub_stats@[i]->Some_0.stat != a.main_stat.stat,
{
    let n = choose|n: int| values::subs_wf(a.sub_stats@, n, a.main_stat.stat);
}

/// Law: the main stat's kind is in the slot's legal pool, and its value is
/// the fixed table value for that (slot, kind) pair.
pub proof fn lemma_main_stat_legal(a: Artifact)
    requires
        a.wf(),
    ensures
        values::is_legal_main(a.slot, a.main_stat.stat),
        values::main_value_of(a.slot, a.main_stat.stat) == Some(a.main_stat.value),
{
}

/// Law: every filled sub-stat has a sub-stat-eligible kind and a value equal
/// to that kind's base at 100, 90, 80 or 70 percent.
pub proof fn lemma_sub_stat_tier(a: Artifact, i: int)
    requires
        a.wf(),
        0 <= i < 4,
        a.sub_stats@[i] is Some,
    ensures
        values::is_sub_eligible(a.sub_stats@[i]->Some_0.stat),
        values::is_sub_tier_value(a.sub_stats@[i]->Some_0.stat, a.sub_stats@[i]->Some_0.value),
{
    let n = choose|n: int| values::subs_wf(a.sub_stats@, n, a.main_stat.stat);
}

/// Law: a flower's main stat is always flat HP at 4780 points, and a plume's
/// is always flat ATK at 311 points.
pub proof fn lemma_fixed_slots(a: Artifact)
    requires
        a.wf(),
    ensures
        a.slot == Types::Flower ==> a.main_stat.stat == Stats::Hp && a.main_stat.value
            == 4780000,
        a.slot == Types::Plume ==> a.main_stat.stat == Stats::Atk && a.main_stat.value == 311000,
{
}

/// Draws the set: a fair coin between the two.
fn random_set(rng: &mut StdRng) -> Sets {
    if sampling::coin_flip(rng) {
        Sets::Emblem
    } else {
        Sets::Shimenawa
    }
}

/// Draws the slot: uniform over the five positions.
fn random_slot(rng: &mut StdRng) -> Types {
    match sampling::gen_index(rng, 5) {
        0 => Types::Circlet,
        1 => Types::Flower,
        2 => Types::Goblet,
        3 => Types::Plume,
        _ => Types::Sand,
    }
}

} // verus!
