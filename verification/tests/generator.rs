use rand::rngs::StdRng;
use rand::SeedableRng;

use ras::values;
use ras::values::WeightedStat;
use ras::{Artifact, Sets, Stat, Stats, Types};

fn legal_main_pool(slot: &Types) -> Vec<Stats> {
    match slot {
        Types::Flower => vec![Stats::Hp],
        Types::Plume => vec![Stats::Atk],
        Types::Sand => vec![Stats::HpPct, Stats::AtkPct, Stats::DefPct, Stats::EM, Stats::ER],
        Types::Goblet => vec![
            Stats::HpPct,
            Stats::AtkPct,
            Stats::DefPct,
            Stats::ElementalDMG,
            Stats::PhysicalDMG,
            Stats::OtherDMG,
            Stats::EM,
        ],
        Types::Circlet => vec![
            Stats::HpPct,
            Stats::AtkPct,
            Stats::DefPct,
            Stats::CD,
            Stats::CR,
            Stats::HB,
            Stats::EM,
        ],
    }
}

fn sub_base(stat: &Stats) -> Option<u64> {
    match stat {
        Stats::Hp => Some(298_750),
        Stats::Atk => Some(19_450),
        Stats::Def => Some(23_150),
        Stats::HpPct => Some(5_830),
        Stats::AtkPct => Some(5_830),
        Stats::DefPct => Some(7_290),
        Stats::EM => Some(23_310),
        Stats::ER => Some(6_480),
        Stats::CR => Some(3_890),
        Stats::CD => Some(7_770),
        _ => None,
    }
}

fn filled_subs(artifact: &Artifact) -> Vec<Stat> {
    artifact.sub_stats().iter().flatten().copied().collect()
}

#[test]
fn test_artifact() {
    let mut rng = StdRng::seed_from_u64(24);
    let artifact = Artifact::custom_rng(&mut rng, false);
    println!("{artifact:?}");
}

#[test]
fn test_flower_main_stat_fixed() {
    let mut rng = StdRng::seed_from_u64(7);
    for _ in 0..50 {
        let main = values::main_stat(&mut rng, &Types::Flower);
        assert_eq!(*main.stat(), Stats::Hp);
        assert_eq!(main.value(), 4_780_000);
    }
}

#[test]
fn test_plume_main_stat_fixed() {
    let mut rng = StdRng::seed_from_u64(7);
    for _ in 0..50 {
        let main = values::main_stat(&mut rng, &Types::Plume);
        assert_eq!(*main.stat(), Stats::Atk);
        assert_eq!(main.value(), 311_000);
    }
}

#[test]
fn test_main_stat_values_match_table() {
    let mut rng = StdRng::seed_from_u64(99);
    for _ in 0..500 {
        let main = values::main_stat(&mut rng, &Types::Sand);
        let expected = match main.stat() {
            Stats::HpPct => 46_600,
            Stats::AtkPct => 46_600,
            Stats::DefPct => 58_300,
            Stats::ER => 51_800,
            Stats::EM => 186_500,
            other => panic!("illegal sand main stat {other:?}"),
        };
        assert_eq!(main.value(), expected);
    }
}

#[test]
fn test_sub_stat_count_three_or_four() {
    let mut rng = StdRng::seed_from_u64(1);
    for i in 0..2000 {
        let artifact = Artifact::custom_rng(&mut rng, i % 2 == 0);
        let n = filled_subs(&artifact).len();
        assert!(n == 3 || n == 4, "sub-stat count {n} out of range");
        // the filled slots come first, in draw order
        let slots = artifact.sub_stats();
        for (j, slot) in slots.iter().enumerate() {
            assert_eq!(slot.is_some(), j < n);
        }
    }
}

#[test]
fn test_sub_stats_distinct_and_not_main() {
    let mut rng = StdRng::seed_from_u64(2);
    for i in 0..2000 {
        let artifact = Artifact::custom_rng(&mut rng, i % 2 == 1);
        let subs = filled_subs(&artifact);
        for (a, sub_a) in subs.iter().enumerate() {
            assert_ne!(sub_a.stat(), artifact.main_stat().stat());
            assert!(sub_base(sub_a.stat()).is_some(), "ineligible sub-stat kind");
            for sub_b in subs.iter().skip(a + 1) {
                assert_ne!(sub_a.stat(), sub_b.stat());
            }
        }
    }
}

#[test]
fn test_main_stat_legal_for_slot() {
    let mut rng = StdRng::seed_from_u64(3);
    for _ in 0..2000 {
        let artifact = Artifact::custom_rng(&mut rng, false);
        let pool = legal_main_pool(artifact.slot());
        assert!(
            pool.contains(artifact.main_stat().stat()),
            "main stat {:?} illegal for slot {:?}",
            artifact.main_stat().stat(),
            artifact.slot()
        );
    }
}

#[test]
fn test_sub_stat_values_on_tiers() {
    let mut rng = StdRng::seed_from_u64(4);
    for _ in 0..2000 {
        let artifact = Artifact::custom_rng(&mut rng, false);
        for sub in filled_subs(&artifact) {
            let base = sub_base(sub.stat()).expect("ineligible sub-stat kind");
            let tiers = [base, base / 10 * 9, base / 10 * 8, base / 10 * 7];
            assert!(
                tiers.contains(&sub.value()),
                "sub-stat value {} of {:?} not on a tier",
                sub.value(),
                sub.stat()
            );
        }
    }
}

#[test]
fn test_sub_stats_exclude_given_main() {
    let mut rng = StdRng::seed_from_u64(5);
    for _ in 0..500 {
        let subs = values::sub_stats(&mut rng, &Stats::AtkPct, false);
        for sub in subs.iter().flatten() {
            assert_ne!(*sub.stat(), Stats::AtkPct);
        }
    }
}

#[test]
fn test_sub_stats_with_ineligible_main() {
    // A healing-bonus main stat is not in the sub-stat pool at all, so the
    // draw simply works over the full ten-kind pool.
    let mut rng = StdRng::seed_from_u64(6);
    for _ in 0..500 {
        let subs = values::sub_stats(&mut rng, &Stats::HB, true);
        let n = subs.iter().flatten().count();
        assert!(n == 3 || n == 4);
    }
}

#[test]
fn test_seeded_reproducible() {
    let mut rng_a = StdRng::seed_from_u64(123_456);
    let mut rng_b = StdRng::seed_from_u64(123_456);
    for i in 0..100 {
        let a = Artifact::custom_rng(&mut rng_a, i % 3 == 0);
        let b = Artifact::custom_rng(&mut rng_b, i % 3 == 0);
        assert_eq!(a, b);
    }
}

#[test]
fn test_upgrades_remaining_initialized() {
    let mut rng = StdRng::seed_from_u64(8);
    let artifact = Artifact::custom_rng(&mut rng, false);
    assert_eq!(artifact.upgrades_remaining(), 5);
}

#[test]
fn test_constructors_and_accessors() {
    let stat = Stat::from(Stats::CR, 31_100);
    assert_eq!(*stat.stat(), Stats::CR);
    assert_eq!(stat.value(), 31_100);

    let weighted = WeightedStat::new(Stats::Hp, 20);
    assert_eq!(weighted.stat, Stats::Hp);
    assert_eq!(weighted.weight, 20);

    let artifact = Artifact::from(
        Sets::Emblem,
        Types::Flower,
        Stat::from(Stats::Hp, 4_780_000),
        [None, None, None, None],
        5,
    );
    assert_eq!(*artifact.set(), Sets::Emblem);
    assert_eq!(*artifact.slot(), Types::Flower);
    assert_eq!(*artifact.main_stat().stat(), Stats::Hp);
    assert_eq!(artifact.main_stat().value(), 4_780_000);
    assert!(artifact.sub_stats().iter().all(|s| s.is_none()));
    assert_eq!(artifact.upgrades_remaining(), 5);
}

#[test]
fn test_random_artifact_well_formed() {
    for _ in 0..50 {
        let artifact = Artifact::random();
        let n = filled_subs(&artifact).len();
        assert!(n == 3 || n == 4);
        assert!(legal_main_pool(artifact.slot()).contains(artifact.main_stat().stat()));
    }
}
