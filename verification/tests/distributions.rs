use rand::rngs::StdRng;
use rand::SeedableRng;

use ras::{Artifact, Sets, Stats, Types};

const DRAWS: usize = 100_000;

fn sub_count(artifact: &Artifact) -> usize {
    artifact.sub_stats().iter().flatten().count()
}

#[test]
fn test_count_distribution_standard() {
    let mut rng = StdRng::seed_from_u64(1001);
    let mut threes: usize = 0;
    for _ in 0..DRAWS {
        if sub_count(&Artifact::custom_rng(&mut rng, false)) == 3 {
            threes += 1;
        }
    }
    let share = threes as f64 / DRAWS as f64;
    assert!(
        (share - 0.8).abs() < 0.01,
        "share of three-sub-stat draws was {share}, expected about 0.8"
    );
}

#[test]
fn test_count_distribution_strongbox() {
    let mut rng = StdRng::seed_from_u64(1002);
    let mut threes: usize = 0;
    for _ in 0..DRAWS {
        if sub_count(&Artifact::custom_rng(&mut rng, true)) == 3 {
            threes += 1;
        }
    }
    let share = threes as f64 / DRAWS as f64;
    let expected = 2.0 / 3.0;
    assert!(
        (share - expected).abs() < 0.01,
        "share of three-sub-stat draws was {share}, expected about {expected}"
    );
}

#[test]
fn test_slot_and_set_distribution_uniform() {
    let mut rng = StdRng::seed_from_u64(1003);
    let mut slot_counts = [0usize; 5];
    let mut emblem: usize = 0;
    for _ in 0..DRAWS {
        let artifact = Artifact::custom_rng(&mut rng, false);
        let slot_index = match artifact.slot() {
            Types::Flower => 0,
            Types::Plume => 1,
            Types::Sand => 2,
            Types::Goblet => 3,
            Types::Circlet => 4,
        };
        slot_counts[slot_index] += 1;
        if *artifact.set() == Sets::Emblem {
            emblem += 1;
        }
    }
    for (i, count) in slot_counts.iter().enumerate() {
        let p = *count as f64 / DRAWS as f64;
        assert!((p - 0.2).abs() < 0.01, "share of slot {i} was {p}, expected about 0.2");
    }
    let p_emblem = emblem as f64 / DRAWS as f64;
    assert!(
        (p_emblem - 0.5).abs() < 0.01,
        "share of the first set was {p_emblem}, expected about 0.5"
    );
}

#[test]
fn test_all_four_tiers_occur() {
    // Over a large sample every tier of the flat-HP sub-stat shows up, so the
    // tier draw really varies with the random source.
    let mut rng = StdRng::seed_from_u64(1004);
    let mut seen: Vec<u64> = Vec::new();
    for _ in 0..5_000 {
        let artifact = Artifact::custom_rng(&mut rng, false);
        for sub in artifact.sub_stats().iter().flatten() {
            if *sub.stat() == Stats::Hp && !seen.contains(&sub.value()) {
                seen.push(sub.value());
            }
        }
    }
    seen.sort_unstable();
    assert_eq!(seen, vec![209_125, 239_000, 268_875, 298_750]);
}

#[test]
fn test_main_stat_weights_respected() {
    // The sand pool draws HP%, ATK%, DEF% with weight 8 each and EM, ER with
    // weight 3 each, so percent mains appear with probability 24/30.
    let mut rng = StdRng::seed_from_u64(1005);
    let mut pct: usize = 0;
    for _ in 0..DRAWS {
        let main = ras::values::main_stat(&mut rng, &Types::Sand);
        match main.stat() {
            Stats::HpPct | Stats::AtkPct | Stats::DefPct => pct += 1,
            _ => {}
        }
    }
    let p = pct as f64 / DRAWS as f64;
    assert!((p - 0.8).abs() < 0.01, "share of percent mains was {p}, expected about 0.8");
}
