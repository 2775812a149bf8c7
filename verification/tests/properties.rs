//! Unit tests of the geometry, the ledger, the damage math, and the
//! condition-modifier pass, pinning exact values.

use hexcombat::apply_area_effects::{
    apply_effect_to_character, apply_modify_gained_conditions, net_damage,
};
use hexcombat::data_model::{
    Character, Condition, ConditionEffect, Conditions, EffectOnCharacter, ModifyGainedConditions,
};
use hexcombat::hex_grid::{distance, pos_in_area, Area, DistanceRange, PosAxial};
use hexcombat::play::{begin_turn, end_turn, play_card_unchecked};
use hexcombat::turn_stats::{TurnStat, TurnStats};

#[test]
fn test_pos_in_area() {
    assert!(pos_in_area(
        &PosAxial::default(),
        &Area::default(),
        &PosAxial::default()
    ));
    assert!(pos_in_area(
        &PosAxial::new(0, 1),
        &Area::Disk(DistanceRange { from: 1, to: 2 }),
        &PosAxial::new(0, 0)
    ));
}

#[test]
fn test_apply_modify_gained_conditions() {
    assert_eq!(
        apply_modify_gained_conditions(
            &ModifyGainedConditions {
                applies_only_to: Some(Condition::Poison),
                transform_into: Some(Condition::Regen),
                additive_factor: 0,
                multiplicative_num: 1,
                multiplicative_den: 1,
            },
            ConditionEffect {
                condition_type: Condition::Poison,
                value: 3
            }
        ),
        ConditionEffect {
            condition_type: Condition::Regen,
            value: 3
        }
    )
}

#[test]
fn test_modify_rounds_ties_away_from_zero() {
    let scale_and_shift = ModifyGainedConditions {
        applies_only_to: None,
        transform_into: None,
        additive_factor: 1,
        multiplicative_num: 3,
        multiplicative_den: 2,
    };
    // 3 * 3/2 = 4.5 rounds to 5; plus 1 gives 6.
    assert_eq!(
        apply_modify_gained_conditions(
            &scale_and_shift,
            ConditionEffect {
                condition_type: Condition::Poison,
                value: 3
            }
        )
        .value,
        6
    );
    // -3 * 3/2 = -4.5 rounds to -5; plus 1 gives -4.
    assert_eq!(
        apply_modify_gained_conditions(
            &scale_and_shift,
            ConditionEffect {
                condition_type: Condition::Poison,
                value: -3
            }
        )
        .value,
        -4
    );
    let restricted = ModifyGainedConditions {
        applies_only_to: Some(Condition::Regen),
        transform_into: Some(Condition::Poison),
        additive_factor: 7,
        multiplicative_num: 1,
        multiplicative_den: 1,
    };
    // A passive restricted to another condition kind leaves the grant alone.
    assert_eq!(
        apply_modify_gained_conditions(
            &restricted,
            ConditionEffect {
                condition_type: Condition::Fragile,
                value: 2
            }
        ),
        ConditionEffect {
            condition_type: Condition::Fragile,
            value: 2
        }
    );
}

#[test]
fn test_distance_values() {
    // The example pair from the geometry contract.
    assert_eq!(distance(&PosAxial::new(0, 0), &PosAxial::new(0, 1)), 1);
    // Symmetry on a concrete pair.
    let a = PosAxial::new(2, -3);
    let b = PosAxial::new(-1, 4);
    assert_eq!(distance(&a, &b), distance(&b, &a));
    // A triangle instance.
    let c = PosAxial::new(5, 5);
    assert!(distance(&a, &c) <= distance(&a, &b) + distance(&b, &c));
    // A diagonal neighbour shares the `s` axis.
    assert_eq!(distance(&PosAxial::new(1, 0), &PosAxial::new(0, 1)), 1);
}

#[test]
fn test_distance_saturates_on_extreme_positions() {
    let far_low = PosAxial::new(isize::MIN, isize::MIN);
    let far_high = PosAxial::new(isize::MAX, isize::MAX);
    assert_eq!(distance(&far_low, &far_high), usize::MAX);
    // Even an everything-disk excludes what lies at an unrepresentable
    // distance, because the range's upper bound is exclusive.
    assert!(!pos_in_area(
        &far_low,
        &Area::Disk(DistanceRange {
            from: 0,
            to: usize::MAX
        }),
        &far_high
    ));
}

#[test]
fn test_unit_disk_contains_only_target() {
    let target = PosAxial::new(3, -2);
    let area = Area::Disk(DistanceRange { from: 0, to: 1 });
    assert!(pos_in_area(&target, &area, &target));
    assert!(!pos_in_area(&PosAxial::new(3, -1), &area, &target));
    assert!(!pos_in_area(&PosAxial::new(2, -2), &area, &target));
}

#[test]
fn test_ledger_round_trip() {
    let start = Conditions::default().with_incremented(Condition::Strong, 7);
    let round_trip = start
        .with_incremented(Condition::Strong, 5)
        .with_incremented(Condition::Strong, -5);
    assert_eq!(round_trip.get(&Condition::Strong), 7);
}

#[test]
fn test_ledger_saturates_at_floor() {
    // 3 - 5 saturates at 0; adding 5 back then overshoots the original.
    let m = Conditions::default()
        .with_incremented(Condition::Weak, 3)
        .with_incremented(Condition::Weak, -5);
    assert_eq!(m.get(&Condition::Weak), 0);
    assert_eq!(m.with_incremented(Condition::Weak, 5).get(&Condition::Weak), 5);
}

#[test]
fn test_ledger_saturates_at_ceiling() {
    // Two `isize::MAX` increments and two more reach the ceiling exactly;
    // beyond it the count stays pinned, so the round trip undershoots.
    let m = Conditions::default()
        .with_incremented(Condition::Fast, isize::MAX)
        .with_incremented(Condition::Fast, isize::MAX)
        .with_incremented(Condition::Fast, 2);
    assert_eq!(m.get(&Condition::Fast), usize::MAX);
    let pinned = m.with_incremented(Condition::Fast, 5);
    assert_eq!(pinned.get(&Condition::Fast), usize::MAX);
    assert_eq!(
        pinned
            .with_incremented(Condition::Fast, -5)
            .get(&Condition::Fast),
        usize::MAX - 5
    );
}

#[test]
fn test_decay_is_idempotent_at_zero() {
    let mut conditions = Conditions::default().with_incremented(Condition::Poison, 1);
    conditions.decrement_all();
    assert_eq!(conditions.get(&Condition::Poison), 0);
    conditions.decrement_all();
    assert_eq!(conditions.get(&Condition::Poison), 0);
    let mut empty = Conditions::default();
    empty.decrement_all();
    assert_eq!(empty.get(&Condition::Regen), 0);
}

#[test]
fn test_net_damage_formula() {
    // Gross 5, source Strong=2 and Empowered, target Fortified=1:
    // floor((5 + 2) * 2) - 1 = 13.
    let source = Character {
        conditions: Conditions::default()
            .with_incremented(Condition::Strong, 2)
            .with_incremented(Condition::Empowered, 1),
        ..Default::default()
    };
    let target = Character {
        conditions: Conditions::default().with_incremented(Condition::Fortified, 1),
        ..Default::default()
    };
    assert_eq!(net_damage(5, &target, &source), 13);

    // Gross 5, Enfeebled active, nothing else: floor(5 * 0.5) = 2.
    let enfeebled = Character {
        conditions: Conditions::default().with_incremented(Condition::Enfeebled, 1),
        ..Default::default()
    };
    let undefended = Character {
        ..Default::default()
    };
    assert_eq!(net_damage(5, &undefended, &enfeebled), 2);
}

#[test]
fn test_retaliate_hits_source_even_at_zero_net_damage() {
    // The target's Fortified reduces the net damage to 0, yet the attacking
    // source still loses exactly the target's Retaliate counter.
    let mut target = Character {
        health_current: 10,
        health_max: 10,
        conditions: Conditions::default()
            .with_incremented(Condition::Retaliate, 3)
            .with_incremented(Condition::Fortified, 100),
        ..Default::default()
    };
    let mut source = Character {
        health_current: 10,
        health_max: 10,
        ..Default::default()
    };
    apply_effect_to_character(&EffectOnCharacter::Damage(5), &mut target, &mut source);
    assert_eq!(target.health_current, 10);
    assert_eq!(source.health_current, 7);
}

#[test]
fn test_playing_unaffordable_card_succeeds() {
    // Stamina affordability is deliberately not validated by the engine:
    // playing a card that costs more than is available still succeeds, the
    // cost saturating at zero.
    let mut character = Character {
        stamina_current: 1,
        stamina_max: 10,
        ..Default::default()
    };
    let data = hexcombat::cards::Card::LargeStrike.data();
    assert!(data.stamina_cost > character.stamina_current);
    let gained = play_card_unchecked(&mut character, data);
    assert_eq!(gained, 1);
    assert_eq!(character.stamina_current, 0);
    assert_eq!(character.remaining_abilities.len(), 1);
}

#[test]
fn test_turn_end_poison_tick_then_decay() {
    let mut character = Character {
        health_current: 10,
        health_max: 10,
        conditions: Conditions::default().with_incremented(Condition::Poison, 3),
        ..Default::default()
    };
    end_turn(&mut character);
    assert_eq!(character.health_current, 7);
    assert_eq!(character.conditions.get(&Condition::Poison), 3);
    begin_turn(&mut character);
    assert_eq!(character.conditions.get(&Condition::Poison), 2);
}

#[test]
fn test_regen_tick_caps_at_max() {
    let mut character = Character {
        health_current: 9,
        health_max: 10,
        conditions: Conditions::default().with_incremented(Condition::Regen, 5),
        ..Default::default()
    };
    end_turn(&mut character);
    assert_eq!(character.health_current, 10);
}

#[test]
fn test_turn_stats_history() {
    let mut stats = TurnStats::default();
    assert_eq!(stats.get(0, &TurnStat::SpacesMoved), 0);
    stats.add_to_current(TurnStat::SpacesMoved, 4);
    assert_eq!(stats.get(0, &TurnStat::SpacesMoved), 4);
    stats.end_turn();
    assert_eq!(stats.get(0, &TurnStat::SpacesMoved), 0);
    assert_eq!(stats.get(1, &TurnStat::SpacesMoved), 4);
    // A lookup further back than the history reaches is 0.
    assert_eq!(stats.get(7, &TurnStat::SpacesMoved), 0);
}
