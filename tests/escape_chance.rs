use escape_chance::math::{binomial_pmf, power_u128, Probability};
use escape_chance::settings::HookEscapeChanceSettings;
use escape_chance::tier::{decrement_tier, increment_tier, Tier};

fn as_f64(p: Probability) -> f64 {
    p.numerator as f64 / p.denominator as f64
}

#[test]
fn default_escape_chance() {
    let chance = as_f64(HookEscapeChanceSettings::new().calculate());
    assert!((chance - 0.115264).abs() < 0.000001)
}

#[test]
fn tier_3_slippery_meat() {
    let mut settings = HookEscapeChanceSettings::new();
    settings.slippery_meat = Some(Tier::III);
    let chance = as_f64(settings.calculate());
    assert!((chance - 0.39364499865).abs() < 0.00000000001)
}

#[test]
fn tier_3_slippery_meat_up_the_ante() {
    let mut settings = HookEscapeChanceSettings::new();
    settings.slippery_meat = Some(Tier::III);
    settings.up_the_ante[0] = Some(Tier::III);
    let chance = as_f64(settings.calculate());
    assert!((chance - 0.673059626631).abs() < 0.00000000001)
}

#[test]
fn salty_lips() {
    let mut settings = HookEscapeChanceSettings::new();
    settings.num_salty_lips = 4;
    let chance = as_f64(settings.calculate());
    assert!((chance - 0.407296).abs() < 0.00000000001)
}

#[test]
fn default_escape_probability_is_exact() {
    let p = HookEscapeChanceSettings::new().calculate();
    assert_eq!(p, Probability { numerator: 115_264, denominator: 1_000_000 });
}

#[test]
fn slippery_meat_probability_is_exact() {
    let mut settings = HookEscapeChanceSettings::new();
    settings.slippery_meat = Some(Tier::III);
    assert_eq!(settings.escape_chance(), 8);
    assert_eq!(settings.num_tries(), 6);
    let p = settings.calculate();
    assert_eq!(p.denominator, 1_000_000_000_000);
    assert_eq!(p.numerator, 393_644_998_656);
}

#[test]
fn every_bonus_at_its_largest() {
    let mut settings = HookEscapeChanceSettings::new();
    settings.slippery_meat = Some(Tier::III);
    settings.up_the_ante = [Some(Tier::III); 4];
    settings.num_salty_lips = 4;
    assert_eq!(settings.escape_chance(), 56);
    let p = settings.calculate();
    assert_eq!(p.numerator, 1_000_000_000_000 - 7_256_313_856);
}

#[test]
fn up_the_ante_scales_with_survivors_alive() {
    let mut settings = HookEscapeChanceSettings::new();
    settings.up_the_ante = [Some(Tier::I), Some(Tier::II), None, Some(Tier::III)];
    assert_eq!(settings.escape_chance(), 4 + 6 * 3);
    settings.set_num_alive_survivors(2);
    assert_eq!(settings.escape_chance(), 4 + 6);
    settings.set_num_alive_survivors(1);
    assert_eq!(settings.escape_chance(), 4);
}

#[test]
fn survivor_multiplier_is_clamped() {
    let mut settings = HookEscapeChanceSettings::new();
    assert_eq!(settings.survivor_multiplier(), 3);
    settings.num_alive_survivors = 0;
    assert_eq!(settings.survivor_multiplier(), 0);
    settings.num_alive_survivors = 9;
    assert_eq!(settings.survivor_multiplier(), 3);
    settings.num_alive_survivors = 2;
    assert_eq!(settings.survivor_multiplier(), 1);
}

#[test]
fn salty_lips_count_is_clamped() {
    let mut settings = HookEscapeChanceSettings::new();
    settings.num_salty_lips = 200;
    assert_eq!(settings.escape_chance(), 4 + 12);
}

#[test]
fn setters_ignore_values_out_of_range() {
    let mut settings = HookEscapeChanceSettings::new();
    settings.set_num_salty_lips(3);
    assert_eq!(settings.num_salty_lips, 3);
    settings.set_num_salty_lips(5);
    assert_eq!(settings.num_salty_lips, 3);
    settings.set_num_salty_lips(0);
    assert_eq!(settings.num_salty_lips, 0);
    settings.set_num_alive_survivors(2);
    assert_eq!(settings.num_alive_survivors, 2);
    settings.set_num_alive_survivors(0);
    assert_eq!(settings.num_alive_survivors, 2);
    settings.set_num_alive_survivors(5);
    assert_eq!(settings.num_alive_survivors, 2);
    settings.set_num_alive_survivors(4);
    assert_eq!(settings.num_alive_survivors, 4);
}

#[test]
fn slippery_meat_round_trip() {
    for k in 0..6 {
        let mut settings = HookEscapeChanceSettings::new();
        for _ in 0..k {
            settings.increment_slippery_meat_tier();
        }
        for _ in 0..k {
            settings.decrement_slippery_meat_tier();
        }
        assert_eq!(settings.slippery_meat, None);
    }
}

#[test]
fn slippery_meat_steps() {
    let mut settings = HookEscapeChanceSettings::new();
    settings.decrement_slippery_meat_tier();
    assert_eq!(settings.slippery_meat, None);
    settings.increment_slippery_meat_tier();
    assert_eq!(settings.slippery_meat, Some(Tier::I));
    settings.increment_slippery_meat_tier();
    settings.increment_slippery_meat_tier();
    settings.increment_slippery_meat_tier();
    assert_eq!(settings.slippery_meat, Some(Tier::III));
    settings.decrement_slippery_meat_tier();
    assert_eq!(settings.slippery_meat, Some(Tier::II));
}

#[test]
fn up_the_ante_saturates_in_every_slot() {
    for index in 0..4u8 {
        let mut settings = HookEscapeChanceSettings::new();
        for _ in 0..4 {
            settings.increment_up_the_ante_tier(index);
        }
        assert_eq!(settings.up_the_ante[index as usize], Some(Tier::III));
        settings.increment_up_the_ante_tier(index);
        assert_eq!(settings.up_the_ante[index as usize], Some(Tier::III));
        for other in 0..4usize {
            if other != index as usize {
                assert_eq!(settings.up_the_ante[other], None);
            }
        }
    }
}

#[test]
fn up_the_ante_index_out_of_range_is_ignored() {
    let mut settings = HookEscapeChanceSettings::new();
    settings.increment_up_the_ante_tier(4);
    settings.increment_up_the_ante_tier(255);
    assert_eq!(settings.up_the_ante, [None; 4]);
    settings.up_the_ante[3] = Some(Tier::I);
    settings.decrement_up_the_ante_tier(7);
    assert_eq!(settings.up_the_ante[3], Some(Tier::I));
    settings.decrement_up_the_ante_tier(3);
    assert_eq!(settings.up_the_ante[3], None);
}

#[test]
fn tier_table() {
    assert_eq!(increment_tier(None), Some(Tier::I));
    assert_eq!(increment_tier(Some(Tier::II)), Some(Tier::III));
    assert_eq!(increment_tier(Some(Tier::III)), Some(Tier::III));
    assert_eq!(decrement_tier(Some(Tier::I)), None);
    assert_eq!(decrement_tier(Some(Tier::III)), Some(Tier::II));
    assert_eq!(decrement_tier(None), None);
}

#[test]
fn default_matches_new() {
    let settings = HookEscapeChanceSettings::default();
    assert_eq!(settings.slippery_meat, None);
    assert_eq!(settings.up_the_ante, [None; 4]);
    assert_eq!(settings.num_salty_lips, 0);
    assert_eq!(settings.num_alive_survivors, 4);
}

#[test]
fn binomial_pmf_values() {
    assert_eq!(binomial_pmf(6, 2, 10), 15 * 100 * 65_610_000);
    assert_eq!(binomial_pmf(3, 0, 4), 884_736);
    assert_eq!(binomial_pmf(3, 3, 50), 125_000);
    assert_eq!(binomial_pmf(3, 4, 50), 0);
    assert_eq!(binomial_pmf(10, 5, 100), 0);
    assert_eq!(binomial_pmf(10, 10, 100), 100_000_000_000_000_000_000);
}

#[test]
fn binomial_pmf_sums_to_one() {
    let total: u128 = (0..=6).map(|k| binomial_pmf(6, k, 37)).sum();
    assert_eq!(total, power_u128(100, 6));
}

#[test]
fn power_values() {
    assert_eq!(power_u128(7, 0), 1);
    assert_eq!(power_u128(0, 3), 0);
    assert_eq!(power_u128(92, 6), 606_355_001_344);
}
