//! End-to-end tests of cards, items, and the ability pipeline, driven
//! through the public resolution functions.

use hexcombat::apply_area_effects::{apply_area_effect, apply_condition_effect};
use hexcombat::cards::Card;
use hexcombat::character_filter::CharacterFilter;
use hexcombat::data_model::{
    Ability, Action, AreaEffect, Character, CharacterTeam, Condition, ConditionEffect, Conditions,
    EffectOnCharacter,
};
use hexcombat::hex_grid::{Area, DistanceRange, PosAxial};
use hexcombat::items::Item;
use hexcombat::play::{begin_turn, end_turn, play_card_unchecked};
use hexcombat::pop_ability::{pop_ability, PopAbilityResult};
use hexcombat::resolve_action::{
    resolve_action_movement, resolve_action_on_self, resolve_action_targeted, ActionInputMovement,
    ActionInputTargeted,
};
use hexcombat::turn_stats::TurnStat;

#[derive(Debug, Clone)]
enum ActionInput {
    Targeted(ActionInputTargeted),
    Movement(ActionInputMovement),
}

fn single_targeted_input(target: PosAxial) -> Vec<ActionInput> {
    vec![ActionInput::Targeted(ActionInputTargeted { target })]
}

fn single_movement_input(path: Vec<PosAxial>) -> Vec<ActionInput> {
    vec![ActionInput::Movement(ActionInputMovement { path })]
}

fn resolve_abilities(
    character: &mut Character,
    characters: &mut Vec<Character>,
    inputs: &[ActionInput],
    ability_limit: usize,
) -> Result<(), String> {
    let mut next_input = 0usize;
    let mut count = 0usize;
    while count < ability_limit {
        count += 1;
        match pop_ability(character, characters) {
            PopAbilityResult::NoRemainingAbilities => break,
            PopAbilityResult::NextAbilityDoesNotSatisfyPrecondition => {}
            PopAbilityResult::Actions { actions } => {
                for action in actions {
                    match action {
                        Action::OnSelf(on_self) => {
                            resolve_action_on_self(&on_self, character, characters);
                        }
                        Action::Targeted(targeted) => {
                            let input = match inputs.get(next_input) {
                                Some(ActionInput::Targeted(input)) => input.clone(),
                                Some(_) => return Err("wrong input kind".to_string()),
                                None => return Err("missing input".to_string()),
                            };
                            next_input += 1;
                            resolve_action_targeted(&targeted, &input, character, characters);
                        }
                        Action::Movement(movement) => {
                            let input = match inputs.get(next_input) {
                                Some(ActionInput::Movement(input)) => input.clone(),
                                Some(_) => return Err("wrong input kind".to_string()),
                                None => return Err("missing input".to_string()),
                            };
                            next_input += 1;
                            resolve_action_movement(&movement, &input, character);
                        }
                    }
                }
            }
        }
    }
    Ok(())
}

fn resolve_remaining_abilities(
    character: &mut Character,
    characters: &mut Vec<Character>,
    inputs: &[ActionInput],
) -> Result<(), String> {
    resolve_abilities(character, characters, inputs, usize::MAX)
}

fn play_card_with_inputs(
    card: Card,
    character: &mut Character,
    characters: &mut Vec<Character>,
    inputs: &[ActionInput],
) -> Result<(), String> {
    if !character.remaining_abilities.is_empty() {
        return Err("played card with remaining abilities".to_string());
    }
    let abilities_to_resolve = play_card_unchecked(character, card.data());
    resolve_abilities(character, characters, inputs, abilities_to_resolve)
}

fn end_and_begin_turn(character: &mut Character) {
    end_turn(character);
    begin_turn(character);
}

#[test]
fn test_apply_condition_effect() {
    let mut character = Character {
        ..Default::default()
    };
    apply_condition_effect(
        &ConditionEffect {
            condition_type: Condition::Disarmed,
            value: 1,
        },
        &mut character,
    );
    assert_eq!(character.conditions.get(&Condition::Disarmed), 1);
}

#[test]
fn test_apply_area_effect_condition() {
    let mut character = Character {
        ..Default::default()
    };
    apply_area_effect(
        &AreaEffect {
            effects: vec![EffectOnCharacter::Condition(ConditionEffect {
                condition_type: Condition::Disarmed,
                value: 1,
            })],
            ..Default::default()
        },
        &PosAxial::default(),
        &mut character,
        &mut Vec::new(),
    );
    assert_eq!(character.conditions.get(&Condition::Disarmed), 1);
}

#[test]
fn test_card_preparation_test_item_shroud_of_the_poison_feeder() {
    let not_invisible = &mut Character {
        stamina_current: 10,
        conditions: Conditions::default(),
        ..Default::default()
    };
    let invisible = &mut Character {
        stamina_current: 10,
        conditions: Conditions::default().with_incremented(Condition::Invisible, 1),
        ..Default::default()
    };

    play_card_with_inputs(
        Card::Preparation,
        not_invisible,
        &mut Vec::new(),
        &single_targeted_input(PosAxial::new(1, 0)),
    )
    .unwrap();

    play_card_with_inputs(
        Card::Preparation,
        invisible,
        &mut Vec::new(),
        &single_targeted_input(PosAxial::new(1, 0)),
    )
    .unwrap();

    assert_eq!(not_invisible.conditions.get(&Condition::Empowered), 0);
    assert_eq!(invisible.conditions.get(&Condition::Empowered), 1);
}

#[test]
fn test_card_rain_of_arrows_test_item_shroud_of_the_poison_feeder() {
    let health_starting = 10;

    let character = &mut Character {
        health_current: health_starting,
        stamina_current: 10,
        ..Default::default()
    };
    let mut characters: Vec<_> = [
        (-2, 0),
        (-2, 1),
        (-2, 2),
        (-1, -1),
        (-1, 0),
        (-1, 1),
        (-1, 2),
        (0, -2),
        (0, -1),
        (0, 0),
        (0, 1),
        (0, 2),
        (1, -2),
        (1, -1),
        (1, 0),
        (1, 1),
        (2, -2),
        (2, -1),
        (2, 0),
    ]
    .iter()
    .map(|(r, q)| Character {
        pos: PosAxial::new(*r, *q),
        health_current: health_starting,
        ..Default::default()
    })
    .collect();

    play_card_with_inputs(
        Card::RainOfArrows,
        character,
        &mut characters,
        &single_targeted_input(PosAxial::default()),
    )
    .unwrap();

    assert!(characters[0].health_current == health_starting);
    assert!(characters[1].health_current == health_starting);
    assert!(characters[2].health_current == health_starting);

    assert!(characters[3].health_current == health_starting);
    assert!(characters[4].health_current < health_starting);
    assert!(characters[5].health_current < health_starting);
    assert!(characters[6].health_current == health_starting);

    assert!(characters[7].health_current == health_starting);
    assert!(characters[8].health_current < health_starting);
    assert!(characters[9].health_current < health_starting);
    assert!(characters[10].health_current < health_starting);
    assert!(characters[11].health_current == health_starting);

    assert!(characters[12].health_current == health_starting);
    assert!(characters[13].health_current < health_starting);
    assert!(characters[14].health_current < health_starting);
    assert!(characters[15].health_current == health_starting);

    assert!(characters[16].health_current == health_starting);
    assert!(characters[17].health_current == health_starting);
    assert!(characters[18].health_current == health_starting);
}

#[test]
fn test_engine_turn_stat_attack_actions() {
    let character = &mut Character {
        stamina_current: 10,
        ..Default::default()
    };
    let target_pos = PosAxial { r: 0, q: 1 };
    let other_characters = &mut vec![Character {
        pos: target_pos.clone(),
        ..Default::default()
    }];

    assert_eq!(character.turn_stats.get(0, &TurnStat::AttackActions), 0);

    play_card_with_inputs(
        Card::Cut,
        character,
        other_characters,
        &single_targeted_input(target_pos.clone()),
    )
    .unwrap();

    assert_eq!(character.turn_stats.get(0, &TurnStat::AttackActions), 1);

    play_card_with_inputs(
        Card::Cut,
        character,
        other_characters,
        &single_targeted_input(target_pos.clone()),
    )
    .unwrap();

    assert_eq!(character.turn_stats.get(0, &TurnStat::AttackActions), 2);

    end_turn(character);

    assert_eq!(character.turn_stats.get(0, &TurnStat::AttackActions), 0);
    assert_eq!(character.turn_stats.get(1, &TurnStat::AttackActions), 2);
}

#[test]
fn test_engine_turn_stat_moved_tiles() {
    let character = &mut Character {
        stamina_current: 10,
        ..Default::default()
    };

    assert_eq!(character.turn_stats.get(0, &TurnStat::SpacesMoved), 0);

    play_card_with_inputs(
        Card::Step,
        character,
        &mut Vec::new(),
        &single_movement_input(vec![]),
    )
    .unwrap();

    assert_eq!(character.turn_stats.get(0, &TurnStat::SpacesMoved), 0);

    play_card_with_inputs(
        Card::Step,
        character,
        &mut Vec::new(),
        &single_movement_input(vec![PosAxial::new(0, 1), PosAxial::new(1, 0)]),
    )
    .unwrap();

    assert_eq!(character.turn_stats.get(0, &TurnStat::SpacesMoved), 2);

    end_turn(character);

    assert_eq!(character.turn_stats.get(0, &TurnStat::SpacesMoved), 0);
    assert_eq!(character.turn_stats.get(1, &TurnStat::SpacesMoved), 2);
}

#[test]
fn test_item_chestplate_of_the_enraged_test_item_cloak_of_invisibility() {
    let mut source = Character {
        stamina_current: 10,
        equipped_items: vec![],
        ..Default::default()
    };

    let without_item_damaged = Character {
        equipped_items: vec![],
        ..Default::default()
    };

    let with_item_damaged = Character {
        equipped_items: vec![Item::ChestplateOfTheEnraged],
        ..Default::default()
    };

    let mut with_item_not_damaged = Character {
        equipped_items: vec![Item::ChestplateOfTheEnraged],
        ..Default::default()
    };
    with_item_not_damaged
        .conditions
        .increment(Condition::Fortified, 1);

    let mut others = vec![without_item_damaged, with_item_damaged, with_item_not_damaged];

    play_card_with_inputs(Card::Whirlwind, &mut source, &mut others, &[]).unwrap();

    resolve_remaining_abilities(&mut others[0], &mut Vec::new(), &[]).unwrap();
    resolve_remaining_abilities(&mut others[1], &mut Vec::new(), &[]).unwrap();
    resolve_remaining_abilities(&mut others[2], &mut Vec::new(), &[]).unwrap();

    assert_eq!(others[0].conditions.get(&Condition::Strong), 0);
    assert_eq!(others[1].conditions.get(&Condition::Strong), 1);
    assert_eq!(others[2].conditions.get(&Condition::Strong), 0);
}

#[test]
fn test_item_cloak_of_invisibility_test_item_cloak_of_invisibility() {
    let without_item_alone = &mut Character {
        pos: PosAxial::new(-2, 0),
        team: CharacterTeam::Player,
        stamina_current: 10,
        equipped_items: vec![],
        ..Default::default()
    };

    let with_item_alone = &mut Character {
        pos: PosAxial::new(-4, 0),
        team: CharacterTeam::Player,
        stamina_current: 10,
        equipped_items: vec![Item::CloakOfInvisibility],
        ..Default::default()
    };

    let with_item_not_alone = &mut Character {
        pos: PosAxial::new(0, 0),
        team: CharacterTeam::Player,
        stamina_current: 10,
        equipped_items: vec![Item::CloakOfInvisibility],
        ..Default::default()
    };

    let enemy_pos = PosAxial::new(1, 0);
    let enemy = &mut vec![Character {
        team: CharacterTeam::Monster,
        pos: enemy_pos.clone(),
        equipped_items: vec![],
        ..Default::default()
    }];

    let input = single_targeted_input(enemy_pos);
    play_card_with_inputs(Card::SteadyShot, without_item_alone, enemy, &input).unwrap();
    play_card_with_inputs(Card::SteadyShot, with_item_alone, enemy, &input).unwrap();
    play_card_with_inputs(Card::SteadyShot, with_item_not_alone, enemy, &input).unwrap();

    resolve_remaining_abilities(without_item_alone, enemy, &[]).unwrap();
    resolve_remaining_abilities(with_item_alone, enemy, &[]).unwrap();
    resolve_remaining_abilities(with_item_not_alone, enemy, &[]).unwrap();

    assert_eq!(without_item_alone.conditions.get(&Condition::Fragile), 0);
    assert_eq!(with_item_alone.conditions.get(&Condition::Fragile), 1);
    assert_eq!(with_item_not_alone.conditions.get(&Condition::Fragile), 1);

    end_and_begin_turn(without_item_alone);
    end_and_begin_turn(with_item_alone);
    end_and_begin_turn(with_item_not_alone);

    resolve_remaining_abilities(without_item_alone, enemy, &[]).unwrap();
    resolve_remaining_abilities(with_item_alone, enemy, &[]).unwrap();
    resolve_remaining_abilities(with_item_not_alone, enemy, &[]).unwrap();

    assert_eq!(without_item_alone.conditions.get(&Condition::Invisible), 0);
    assert_eq!(with_item_alone.conditions.get(&Condition::Invisible), 1);
    assert_eq!(with_item_not_alone.conditions.get(&Condition::Invisible), 0);
}

#[test]
fn test_item_monks_robe() {
    let pos_character = PosAxial::new(0, 0);
    let pos_other = PosAxial::new(0, 2);
    let pos_next_to_other = PosAxial::new(0, 1);

    let character = &mut Character {
        stamina_current: 10,
        pos: pos_character,
        equipped_items: vec![Item::MonksRobe],
        ..Default::default()
    };
    let other_characters = &mut vec![Character {
        pos: pos_other.clone(),
        ..Default::default()
    }];

    play_card_with_inputs(
        Card::Step,
        character,
        other_characters,
        &single_movement_input(vec![pos_next_to_other]),
    )
    .unwrap();

    resolve_remaining_abilities(character, other_characters, &single_targeted_input(pos_other))
        .unwrap();

    assert_eq!(character.conditions.get(&Condition::Disarmed), 1);
    assert_eq!(other_characters[0].conditions.get(&Condition::Stunned), 1);
}

#[test]
fn test_item_shroud_of_the_poison_feeder_test_item_shroud_of_the_poison_feeder() {
    let character = &mut Character {
        stamina_current: 10,
        health_current: 1,
        health_max: 10,
        equipped_items: vec![Item::ShroudOfThePoisonFeeder],
        ..Default::default()
    };
    play_card_with_inputs(
        Card::PoisonCloud,
        character,
        &mut Vec::new(),
        &single_targeted_input(PosAxial::default()),
    )
    .unwrap();

    // Both of the item's transforms apply within one grant: Poison first
    // becomes Regen, which the second transform maps back into Poison. A
    // resolution order that avoids the double transform is deliberately left
    // unspecified; this pins down what the raw modifier pass produces.
    assert_eq!(character.conditions.get(&Condition::Poison), 3);
    assert_eq!(character.conditions.get(&Condition::Regen), 0);
}

#[test]
fn test_item_stillroot_plate() {
    let character_with_item_moving = &mut Character {
        stamina_current: 10,
        stamina_max: 20,
        equipped_items: vec![Item::StillrootLegs],
        ..Default::default()
    };

    let character_with_item_still = &mut Character {
        stamina_current: 10,
        stamina_max: 20,
        equipped_items: vec![Item::StillrootLegs],
        ..Default::default()
    };

    let character_without_item_still = &mut Character {
        stamina_current: 10,
        stamina_max: 20,
        equipped_items: vec![],
        ..Default::default()
    };

    play_card_with_inputs(
        Card::Step,
        character_with_item_moving,
        &mut Vec::new(),
        &single_movement_input(vec![PosAxial::new(0, 1)]),
    )
    .unwrap();

    play_card_with_inputs(
        Card::Step,
        character_with_item_still,
        &mut Vec::new(),
        &single_movement_input(vec![]),
    )
    .unwrap();

    play_card_with_inputs(
        Card::Step,
        character_without_item_still,
        &mut Vec::new(),
        &single_movement_input(vec![]),
    )
    .unwrap();

    end_and_begin_turn(character_with_item_moving);
    end_and_begin_turn(character_with_item_still);
    end_and_begin_turn(character_without_item_still);

    resolve_remaining_abilities(character_with_item_moving, &mut Vec::new(), &[]).unwrap();
    resolve_remaining_abilities(character_with_item_still, &mut Vec::new(), &[]).unwrap();
    resolve_remaining_abilities(character_without_item_still, &mut Vec::new(), &[]).unwrap();

    assert_eq!(
        character_with_item_moving.stamina_current,
        character_without_item_still.stamina_current
    );

    assert_eq!(
        character_with_item_moving.stamina_current + 1,
        character_with_item_still.stamina_current
    );
}

#[test]
fn test_item_thorngrown_vest() {
    let item_attack = &mut Character {
        equipped_items: vec![Item::ThorngrownVest],
        stamina_current: 10,
        ..Default::default()
    };
    let item_no_attack = &mut Character {
        equipped_items: vec![Item::ThorngrownVest],
        stamina_current: 10,
        ..Default::default()
    };
    let no_item_no_attack = &mut Character {
        equipped_items: vec![],
        stamina_current: 10,
        ..Default::default()
    };
    let target_pos = PosAxial { r: 0, q: 1 };
    let other_characters = &mut vec![Character {
        pos: target_pos.clone(),
        ..Default::default()
    }];

    play_card_with_inputs(
        Card::Cut,
        item_attack,
        other_characters,
        &single_targeted_input(target_pos.clone()),
    )
    .unwrap();

    end_turn(item_attack);
    end_turn(item_no_attack);
    end_turn(no_item_no_attack);

    resolve_remaining_abilities(item_attack, other_characters, &[]).unwrap();
    resolve_remaining_abilities(item_no_attack, other_characters, &[]).unwrap();
    resolve_remaining_abilities(no_item_no_attack, other_characters, &[]).unwrap();

    assert_eq!(item_attack.conditions.get(&Condition::Retaliate), 0);
    assert_eq!(item_no_attack.conditions.get(&Condition::Retaliate), 2);
    assert_eq!(no_item_no_attack.conditions.get(&Condition::Retaliate), 0);
}

#[test]
fn test_fury() {
    const STARTING_HP: usize = 8;
    const EXPECTED_HP_AFTER_DAMAGE: usize = 0;
    let character = &mut Character {
        health_current: STARTING_HP,
        stamina_current: 20,
        ..Default::default()
    };
    let other_characters = &mut [
        (1, 0),
        (0, 1),
        (-1, 0),
        (0, -1),
        (1, -1),
        (-1, 1),
        // Below characters are out of range.
        (1, 1),
        (3, 1),
        (-100, 0),
    ]
    .iter()
    .map(|(r, q)| Character {
        pos: PosAxial::new(*r, *q),
        health_current: STARTING_HP,
        ..Default::default()
    })
    .collect::<Vec<_>>();

    play_card_with_inputs(Card::Fury, character, other_characters, &[]).unwrap();

    play_card_with_inputs(Card::LargeStrike, character, other_characters, &[]).unwrap();

    assert_eq!(other_characters[0].health_current, EXPECTED_HP_AFTER_DAMAGE);
    assert_eq!(other_characters[1].health_current, EXPECTED_HP_AFTER_DAMAGE);
    assert_eq!(other_characters[2].health_current, EXPECTED_HP_AFTER_DAMAGE);
    assert_eq!(other_characters[3].health_current, EXPECTED_HP_AFTER_DAMAGE);
    assert_eq!(other_characters[4].health_current, EXPECTED_HP_AFTER_DAMAGE);
    assert_eq!(other_characters[5].health_current, EXPECTED_HP_AFTER_DAMAGE);
    // Below characters were out of range or area, so should be at STARTING_HP.
    assert_eq!(other_characters[6].health_current, STARTING_HP);
    assert_eq!(other_characters[7].health_current, STARTING_HP);
    assert_eq!(other_characters[8].health_current, STARTING_HP);
    assert_eq!(character.health_current, STARTING_HP);
}

#[test]
fn test_ability_queue_is_lifo() {
    // A newly granted ability resolves before older pending ones: the queue
    // is last-in-first-out.
    let mut character = Character {
        ..Default::default()
    };
    let first = Ability {
        precondition: None,
        actions: vec![],
    };
    let second = Ability {
        precondition: None,
        actions: vec![Action::Movement(hexcombat::data_model::ActionMovement {
            spaces: 1,
            jump: false,
        })],
    };
    character.remaining_abilities.push(first);
    character.remaining_abilities.push(second);
    match pop_ability(&mut character, &Vec::new()) {
        PopAbilityResult::Actions { actions } => assert_eq!(actions.len(), 1),
        _ => panic!("expected the most recently queued ability"),
    }
    match pop_ability(&mut character, &Vec::new()) {
        PopAbilityResult::Actions { actions } => assert_eq!(actions.len(), 0),
        _ => panic!("expected the older ability next"),
    }
}

#[test]
fn test_filter_character_without_condition() {
    let stunned = Character {
        conditions: Conditions::default().with_incremented(Condition::Stunned, 1),
        ..Default::default()
    };
    let sound = Character {
        ..Default::default()
    };
    let source = Character {
        ..Default::default()
    };
    let filter = CharacterFilter::WithoutCondition(Condition::Stunned);
    assert!(!hexcombat::character_filter::filter_character(
        &stunned, &filter, &source
    ));
    assert!(hexcombat::character_filter::filter_character(
        &sound, &filter, &source
    ));
}

#[test]
fn test_area_annulus_membership() {
    // An annulus `[1, 2)` around the actor covers exactly the six adjacent
    // hexes: not the actor's own hex and nothing at distance 2 or more.
    let area = Area::Disk(DistanceRange { from: 1, to: 2 });
    let center = PosAxial::new(0, 0);
    assert!(!hexcombat::hex_grid::pos_in_area(&center, &area, &center));
    assert!(hexcombat::hex_grid::pos_in_area(
        &PosAxial::new(0, 1),
        &area,
        &center
    ));
    assert!(hexcombat::hex_grid::pos_in_area(
        &PosAxial::new(1, -1),
        &area,
        &center
    ));
    assert!(!hexcombat::hex_grid::pos_in_area(
        &PosAxial::new(0, 2),
        &area,
        &center
    ));
    assert!(!hexcombat::hex_grid::pos_in_area(
        &PosAxial::new(1, 1),
        &area,
        &center
    ));
}
