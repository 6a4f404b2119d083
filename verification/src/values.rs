//! The published stat tables and the weighted draws over them: the main-stat
//! pool of each slot, the global sub-stat pool, and the tiered initial values.
//!
//! Stat values are held in thousandths of a stat point, so every table entry
//! and every 90/80/70 percent tier is an exact integer.

use vstd::prelude::*;

use rand::rngs::StdRng;

use crate::sampling;
use crate::{Stat, Stats, Types};

verus! {

/// The fixed main-stat table: `Some` of the value (in thousandths) exactly
/// for the (slot, kind) pairs the slot's pool allows.
pub open spec fn main_value_of(slot: Types, s: Stats) -> Option<u64> {
    match slot {
        Types::Flower => if s == Stats::Hp {
            Some(4780000u64)
        } else {
            None
        },
        Types::Plume => if s == Stats::Atk {
            Some(311000u64)
        } else {
            None
        },
        Types::Sand => match s {
            Stats::HpPct => Some(46600u64),
            Stats::AtkPct => Some(46600u64),
            Stats::DefPct => Some(58300u64),
            Stats::ER => Some(51800u64),
            Stats::EM => Some(186500u64),
            _ => None,
        },
        Types::Goblet => match s {
            Stats::HpPct => Some(46600u64),
            Stats::AtkPct => Some(46600u64),
            Stats::DefPct => Some(58300u64),
            Stats::EM => Some(186500u64),
            Stats::ElementalDMG => Some(46600u64),
            Stats::OtherDMG => Some(46600u64),
            Stats::PhysicalDMG => Some(58300u64),
            _ => None,
        },
        Types::Circlet => match s {
            Stats::HpPct => Some(46600u64),
            Stats::AtkPct => Some(46600u64),
            Stats::DefPct => Some(58300u64),
            Stats::EM => Some(186500u64),
            Stats::CR => Some(31100u64),
            Stats::CD => Some(62200u64),
            Stats::HB => Some(35900u64),
            _ => None,
        },
    }
}

/// A kind may be a slot's main stat exactly when the table has a value for it.
pub open spec fn is_legal_main(slot: Types, s: Stats) -> bool {
    main_value_of(slot, s) is Some
}

/// The full-roll base value (in thousandths) of each sub-stat-eligible kind.
pub open spec fn sub_base_of(s: Stats) -> Option<u64> {
    match s {
        Stats::Hp => Some(298750u64),
        Stats::Atk => Some(19450u64),
        Stats::Def => Some(23150u64),
        Stats::HpPct => Some(5830u64),
        Stats::AtkPct => Some(5830u64),
        Stats::DefPct => Some(7290u64),
        Stats::EM => Some(23310u64),
        Stats::ER => Some(6480u64),
        Stats::CR => Some(3890u64),
        Stats::CD => Some(7770u64),
        _ => None,
    }
}

/// A kind may appear as a sub-stat exactly when it has a base value.
pub open spec fn is_sub_eligible(s: Stats) -> bool {
    sub_base_of(s) is Some
}

/// An initial sub-stat value is its kind's base at 100, 90, 80 or 70 percent.
pub open spec fn is_sub_tier_value(s: Stats, v: u64) -> bool {
    match sub_base_of(s) {
        Some(b) => v == b || v == b * 9 / 10 || v == b * 8 / 10 || v == b * 7 / 10,
        None => false,
    }
}

/// A generated sub-stat block: the first `n` of the four slots are filled in
/// draw order and the rest are empty; the kinds are sub-stat-eligible,
/// pairwise distinct and different from the main stat; every value lies on a
/// legal tier.
pub open spec fn subs_wf(subs: Seq<Option<Stat>>, n: int, main: Stats) -> bool {
    &&& subs.len() == 4
    &&& 3 <= n <= 4
    &&& (forall|i: int| 0 <= i < subs.len() ==> ((#[trigger] subs[i]) is Some <==> i < n))
    &&& (forall|i: int| 0 <= i < n ==> is_sub_eligible((#[trigger] subs[i])->Some_0.stat))
    &&& (forall|i: int| 0 <= i < n ==> (#[trigger] subs[i])->Some_0.stat != main)
    &&& (forall|i: int, j: int|
        0 <= i < j < n ==> (#[trigger] subs[i])->Some_0.stat != (#[trigger] subs[j])->Some_0.stat)
    &&& (forall|i: int|
        0 <= i < n ==> is_sub_tier_value(
            (#[trigger] subs[i])->Some_0.stat,
            subs[i]->Some_0.value,
        ))
}

/// One for a filled sub-stat slot, zero for an empty one.
pub open spec fn count_one(o: Option<Stat>) -> int {
    if o is Some {
        1
    } else {
        0
    }
}

/// How many of the four sub-stat slots are filled.
pub open spec fn filled_count(subs: Seq<Option<Stat>>) -> int
    recommends
        subs.len() == 4,
{
    count_one(subs[0]) + count_one(subs[1]) + count_one(subs[2]) + count_one(subs[3])
}

/// The total of a weight list.
pub open spec fn weight_sum(s: Seq<u32>) -> int
    decreases s.len(),
{
    if s.len() == 0 {
        0
    } else {
        weight_sum(s.drop_last()) + s.last()
    }
}

/// A weight list whose entries are bounded has a bounded total.
pub proof fn lemma_weight_sum_bound(s: Seq<u32>, b: u32)
    requires
        forall|i: int| 0 <= i < s.len() ==> s[i] <= b,
    ensures
        weight_sum(s) <= s.len() * b,
    decreases s.len(),
{
    if s.len() > 0 {
        lemma_weight_sum_bound(s.drop_last(), b);
        assert((s.len() - 1) * b + b == s.len() * b) by (nonlinear_arith);
    }
}

/// A candidate stat kind paired with its relative draw weight.
#[derive(Debug, Clone, Copy, PartialEq, Eq, Structural)]
pub struct WeightedStat {
    pub stat: Stats,
    pub weight: u32,
}

impl WeightedStat {
    /// Pairs a stat kind with its draw weight.
    pub fn new(stat: Stats, weight: u32) -> (r: Self)
        ensures
            r == (WeightedStat { stat, weight }),
    {
        WeightedStat { stat, weight }
    }
}

/// Draws the main stat for `slot` from its weighted pool and attaches the
/// fixed table value of the drawn kind.
pub fn main_stat(rng: &mut StdRng, slot: &Types) -> (r: Stat)
    ensures
        is_legal_main(*slot, r.stat),
        main_value_of(*slot, r.stat) == Some(r.value),
{
    let stat = get_main_stat(rng, slot);
    let value = match get_main_value(slot, &stat) {
        Some(v) => v,
        None => vstd::pervasive::unreached(),
    };
    Stat::from(stat, value)
}

/// Draws one kind from the slot's weighted main-stat pool; a slot with a
/// single candidate returns it without consuming randomness.
#[verifier::loop_isolation(false)]
fn get_main_stat(rng: &mut StdRng, slot: &Types) -> (r: Stats)
    ensures
        is_legal_main(*slot, r),
{
    let mut stats_weights: Vec<WeightedStat> = Vec::new();
    match slot {
        Types::Flower => {
            stats_weights.push(WeightedStat::new(Stats::Hp, 1));
        },
        Types::Plume => {
            stats_weights.push(WeightedStat::new(Stats::Atk, 1));
        },
        Types::Sand => {
            stats_weights.push(WeightedStat::new(Stats::HpPct, 8));
            stats_weights.push(WeightedStat::new(Stats::AtkPct, 8));
            stats_weights.push(WeightedStat::new(Stats::DefPct, 8));
            stats_weights.push(WeightedStat::new(Stats::EM, 3));
            stats_weights.push(WeightedStat::new(Stats::ER, 3));
        },
        Types::Goblet => {
            stats_weights.push(WeightedStat::new(Stats::HpPct, 77));
            stats_weights.push(WeightedStat::new(Stats::AtkPct, 77));
            stats_weights.push(WeightedStat::new(Stats::DefPct, 76));
            stats_weights.push(WeightedStat::new(Stats::ElementalDMG, 20));
            stats_weights.push(WeightedStat::new(Stats::PhysicalDMG, 20));
            stats_weights.push(WeightedStat::new(Stats::OtherDMG, 120));
            stats_weights.push(WeightedStat::new(Stats::EM, 10));
        },
        Types::Circlet => {
            stats_weights.push(WeightedStat::new(Stats::HpPct, 11));
            stats_weights.push(WeightedStat::new(Stats::AtkPct, 11));
            stats_weights.push(WeightedStat::new(Stats::DefPct, 11));
            stats_weights.push(WeightedStat::new(Stats::CD, 5));
            stats_weights.push(WeightedStat::new(Stats::CR, 5));
            stats_weights.push(WeightedStat::new(Stats::HB, 5));
            stats_weights.push(WeightedStat::new(Stats::EM, 2));
        },
    }

    if stats_weights.len() == 1 {
        return stats_weights[0].stat;
    }

    let mut weights: Vec<u32> = Vec::new();
    let mut j: usize = 0;
    while j < stats_weights.len()
        invariant
            j <= stats_weights@.len(),
            weights@.len() == j,
            forall|m: int| 0 <= m < j ==> weights@[m] == stats_weights@[m].weight,
        decreases stats_weights@.len() - j,
    {
        weights.push(stats_weights[j].weight);
        j += 1;
    }

    proof {
        lemma_weight_sum_bound(weights@, 120);
    }
    let dist = match sampling::weighted_index_new(&weights) {
        Ok(d) => d,
        Err(_) => vstd::pervasive::unreached(),
    };
    let index = sampling::weighted_index_sample(&dist, rng);
    stats_weights[index].stat
}

/// Looks the (slot, kind) pair up in the fixed main-stat value table.
fn get_main_value(slot: &Types, main_stat: &Stats) -> (r: Option<u64>)
    ensures
        r == main_value_of(*slot, *main_stat),
{
    match slot {
        Types::Flower => match main_stat {
            Stats::Hp => Some(4780000),
            _ => None,
        },
        Types::Plume => match main_stat {
            Stats::Atk => Some(311000),
            _ => None,
        },
        Types::Sand => match main_stat {
            Stats::HpPct => Some(46600),
            Stats::AtkPct => Some(46600),
            Stats::DefPct => Some(58300),
            Stats::ER => Some(51800),
            Stats::EM => Some(186500),
            _ => None,
        },
        Types::Goblet => match main_stat {
            Stats::HpPct => Some(46600),
            Stats::AtkPct => Some(46600),
            Stats::DefPct => Some(58300),
            Stats::EM => Some(186500),
            Stats::ElementalDMG => Some(46600),
            Stats::OtherDMG => Some(46600),
            Stats::PhysicalDMG => Some(58300),
            _ => None,
        },
        Types::Circlet => match main_stat {
            Stats::HpPct => Some(46600),
            Stats::AtkPct => Some(46600),
            Stats::DefPct => Some(58300),
            Stats::EM => Some(186500),
            Stats::CR => Some(31100),
            Stats::CD => Some(62200),
            Stats::HB => Some(35900),
            _ => None,
        },
    }
}

/// Draws three or four distinct sub-stats for an artifact whose main stat has
/// the given kind, without replacement from the global weighted pool.
#[verifier::loop_isolation(false)]
pub fn sub_stats(rng: &mut StdRng, main_stat: &Stats, strongbox: bool) -> (r: [Option<Stat>; 4])
    ensures
        exists|n: int| #[trigger] subs_wf(r@, n, *main_stat),
{
    let mut available: Vec<WeightedStat> = Vec::new();
    available.push(WeightedStat::new(Stats::Hp, 6));
    available.push(WeightedStat::new(Stats::Atk, 6));
    available.push(WeightedStat::new(Stats::Def, 6));
    available.push(WeightedStat::new(Stats::HpPct, 4));
    available.push(WeightedStat::new(Stats::AtkPct, 4));
    available.push(WeightedStat::new(Stats::DefPct, 4));
    available.push(WeightedStat::new(Stats::ER, 4));
    available.push(WeightedStat::new(Stats::EM, 4));
    available.push(WeightedStat::new(Stats::CR, 3));
    available.push(WeightedStat::new(Stats::CD, 3));
    remove_kind(&mut available, main_stat);

    let substats_amount = get_substats_amount(rng, strongbox);

    let mut drawn: Vec<Stat> = Vec::new();
    let mut i: usize = 0;
    while i < substats_amount as usize
        invariant
            i <= substats_amount as usize,
            drawn@.len() == i,
            available@.len() + i >= 9,
            available@.len() <= 10,
            forall|m: int|
                0 <= m < available@.len() ==> {
                    &&& 1 <= (#[trigger] available@[m]).weight <= 6
                    &&& is_sub_eligible(available@[m].stat)
                    &&& available@[m].stat != *main_stat
                },
            forall|m: int, p: int|
                0 <= m < p < available@.len() ==> (#[trigger] available@[m]).stat != (
                #[trigger] available@[p]).stat,
            forall|m: int|
                0 <= m < i ==> {
                    &&& is_sub_eligible((#[trigger] drawn@[m]).stat)
                    &&& drawn@[m].stat != *main_stat
                    &&& is_sub_tier_value(drawn@[m].stat, drawn@[m].value)
                },
            forall|m: int, p: int|
                0 <= m < p < i ==> (#[trigger] drawn@[m]).stat != (#[trigger] drawn@[p]).stat,
            forall|m: int, p: int|
                0 <= m < i && 0 <= p < available@.len() ==> (#[trigger] drawn@[m]).stat != (
                #[trigger] available@[p]).stat,
        decreases substats_amount as int - i,
    {
        let sub_stat = generate_substat(rng, &mut available);
        drawn.push(sub_stat);
        i += 1;
    }

    let first = drawn[0];
    let second = drawn[1];
    let third = drawn[2];
    let fourth = if drawn.len() > 3 {
        Some(drawn[3])
    } else {
        None
    };
    let result = [Some(first), Some(second), Some(third), fourth];
    proof {
        assert(subs_wf(result@, substats_amount as int, *main_stat));
    }
    result
}

/// Removes the (at most one) pool entry whose kind equals `kind`; every other
/// entry stays.
#[verifier::loop_isolation(false)]
fn remove_kind(stats: &mut Vec<WeightedStat>, kind: &Stats)
    requires
        forall|m: int, p: int|
            0 <= m < p < old(stats)@.len() ==> (#[trigger] old(stats)@[m]).stat != (
            #[trigger] old(stats)@[p]).stat,
    ensures
        final(stats)@.len() >= old(stats)@.len() - 1,
        final(stats)@.len() <= old(stats)@.len(),
        forall|m: int| 0 <= m < final(stats)@.len() ==> (#[trigger] final(stats)@[m]).stat != *kind,
        forall|m: int, p: int|
            0 <= m < p < final(stats)@.len() ==> (#[trigger] final(stats)@[m]).stat != (
            #[trigger] final(stats)@[p]).stat,
        forall|m: int|
            0 <= m < final(stats)@.len() ==> old(stats)@.contains(#[trigger] final(stats)@[m]),
{
    let mut j: usize = 0;
    while j < stats.len()
        invariant
            j <= stats@.len(),
            stats@ == old(stats)@,
            forall|m: int| 0 <= m < j ==> (#[trigger] stats@[m]).stat != *kind,
        decreases stats@.len() - j,
    {
        if stats[j].stat == *kind {
            let ghost prev = stats@;
            stats.remove(j);
            proof {
                prev.remove_ensures(j as int);
                assert(forall|m: int|
                    0 <= m < stats@.len() ==> prev.contains(#[trigger] stats@[m])) by {
                    assert(forall|m: int|
                        0 <= m < stats@.len() ==> stats@[m] == if m < j as int {
                            prev[m]
                        } else {
                            prev[m + 1]
                        });
                }
            }
            return ;
        }
        j += 1;
    }
}

/// Draws one sub-stat from the remaining pool and removes its kind from the
/// pool, so later draws cannot repeat it.
#[verifier::loop_isolation(false)]
fn generate_substat(rng: &mut StdRng, available_stats: &mut Vec<WeightedStat>) -> (r: Stat)
    requires
        1 <= old(available_stats)@.len() <= 10,
        forall|m: int|
            0 <= m < old(available_stats)@.len() ==> 1 <= (#[trigger] old(
                available_stats,
            )@[m]).weight <= 6,
        forall|m: int|
            0 <= m < old(available_stats)@.len() ==> is_sub_eligible(
                (#[trigger] old(available_stats)@[m]).stat,
            ),
        forall|m: int, p: int|
            0 <= m < p < old(available_stats)@.len() ==> (#[trigger] old(
                available_stats,
            )@[m]).stat != (#[trigger] old(available_stats)@[p]).stat,
    ensures
        is_sub_eligible(r.stat),
        is_sub_tier_value(r.stat, r.value),
        final(available_stats)@.len() == old(available_stats)@.len() - 1,
        forall|m: int|
            0 <= m < final(available_stats)@.len() ==> old(available_stats)@.contains(
                #[trigger] final(available_stats)@[m],
            ),
        forall|m: int, p: int|
            0 <= m < p < final(available_stats)@.len() ==> (#[trigger] final(available_stats)@[m]).stat
                != (#[trigger] final(available_stats)@[p]).stat,
        forall|m: int|
            0 <= m < final(available_stats)@.len() ==> (#[trigger] final(available_stats)@[m]).stat
                != r.stat,
        exists|k: int|
            0 <= k < old(available_stats)@.len() && (#[trigger] old(
                available_stats,
            )@[k]).stat == r.stat,
{
    let mut weights: Vec<u32> = Vec::new();
    let mut j: usize = 0;
    while j < available_stats.len()
        invariant
            j <= available_stats@.len(),
            weights@.len() == j,
            forall|m: int| 0 <= m < j ==> weights@[m] == available_stats@[m].weight,
        decreases available_stats@.len() - j,
    {
        weights.push(available_stats[j].weight);
        j += 1;
    }

    proof {
        lemma_weight_sum_bound(weights@, 6);
    }
    let dist = match sampling::weighted_index_new(&weights) {
        Ok(d) => d,
        Err(_) => vstd::pervasive::unreached(),
    };
    let index = sampling::weighted_index_sample(&dist, rng);

    let stat = available_stats[index].stat;
    let value = get_substat_value(rng, &stat);
    let ghost prev = available_stats@;
    available_stats.remove(index);
    proof {
        prev.remove_ensures(index as int);
        assert(forall|m: int|
            0 <= m < available_stats@.len() ==> prev.contains(#[trigger] available_stats@[m]))
            by {
            assert(forall|m: int|
                0 <= m < available_stats@.len() ==> available_stats@[m] == if m < index as int {
                    prev[m]
                } else {
                    prev[m + 1]
                });
        }
    }

    Stat::from(stat, value)
}

/// Draws the initial value of a sub-stat of the given kind: its base at 100,
/// 90, 80 or 70 percent, each tier equally likely.
fn get_substat_value(rng: &mut StdRng, stat: &Stats) -> (r: u64)
    requires
        is_sub_eligible(*stat),
    ensures
        is_sub_tier_value(*stat, r),
{
    let value: u64 = match stat {
        Stats::Hp => 298750,
        Stats::Atk => 19450,
        Stats::Def => 23150,
        Stats::HpPct => 5830,
        Stats::AtkPct => 5830,
        Stats::DefPct => 7290,
        Stats::EM => 23310,
        Stats::ER => 6480,
        Stats::CR => 3890,
        Stats::CD => 7770,
        _ => vstd::pervasive::unreached(),
    };
    let tenth = value / 10;
    let mut tiers: Vec<u64> = Vec::new();
    tiers.push(value);
    tiers.push(tenth * 9);
    tiers.push(tenth * 8);
    tiers.push(tenth * 7);
    match sampling::choose_value(rng, &tiers) {
        Some(v) => v,
        None => vstd::pervasive::unreached(),
    }
}

/// Draws how many sub-stats the artifact starts with: three or four, with
/// weights (4, 1), or (2, 1) when the strongbox flag is set.
fn get_substats_amount(rng: &mut StdRng, strongbox: bool) -> (r: u8)
    ensures
        r == 3 || r == 4,
{
    let mut weights: Vec<u32> = Vec::new();
    if strongbox {
        weights.push(2);
        weights.push(1);
    } else {
        weights.push(4);
        weights.push(1);
    }

    proof {
        lemma_weight_sum_bound(weights@, 4);
    }
    let dist = match sampling::weighted_index_new(&weights) {
        Ok(d) => d,
        Err(_) => vstd::pervasive::unreached(),
    };
    let index = sampling::weighted_index_sample(&dist, rng);

    if index == 0 {
        3
    } else {
        4
    }
}

} // verus!
