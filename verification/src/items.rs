//! The item catalogue: static equipment data providing passive modifiers and
//! event-triggered abilities.

use crate::character_filter::{filter_model, CharacterFilter, FilterS};
use crate::data_model::{
    self_ability, spec_self_ability, Ability, AbilityS, Action, ActionOnSelf, ActionTargeted,
    AreaEffect, Comparison, Condition, ConditionEffect, EffectOnCharacter, ItemData, ItemDataS,
    ModifyGainedConditions, Passives, PassivesS, Reach, TriggeredAbilities, TriggeredAbilitiesS,
};
use crate::hex_grid::DistanceRange;
use crate::precondition::{Precondition, PreconditionS};
use crate::turn_stats::TurnStat;
use vstd::prelude::*;

verus! {

/// An equippable item. Items are static data: the engine only reads the
/// [`ItemData`] they expand to.
#[derive(Debug, Clone, Copy, PartialEq, Eq, Structural, PartialOrd, Ord, Hash)]
pub enum Item {
    /// Applied Poison is converted to Regen, and applied Regen to Poison.
    ShroudOfThePoisonFeeder,
    /// At the end of your turn, if no enemy is adjacent, gain Invisible(1);
    /// after every attack action, gain Fragile(1).
    CloakOfInvisibility,
    /// Every time damage is taken, gain Strong(1).
    ChestplateOfTheEnraged,
    /// After every movement action, gain Disarmed(1) and apply Stunned(1) to
    /// an adjacent target.
    MonksRobe,
    /// At the end of your turn, if you did not attack, gain Retaliate(2).
    ThorngrownVest,
    /// Your actions consume health instead of stamina.
    BoodboundHarness,
    /// At the start of your turn, if you did not move last turn, gain one
    /// stamina.
    StillrootLegs,
}

/// No passives.
pub open spec fn empty_passives() -> PassivesS {
    PassivesS { actions_consume_health_instead_of_mana: false, modify_gained_conditions: Seq::empty() }
}

/// No triggered abilities on any hook.
pub open spec fn empty_triggered() -> TriggeredAbilitiesS {
    TriggeredAbilitiesS {
        damage_taken: Seq::empty(),
        attack_action: Seq::empty(),
        movement_action: Seq::empty(),
        beginning_of_turn: Seq::empty(),
        end_of_turn: Seq::empty(),
    }
}

/// A passive that turns every grant of `from` into an equal grant of `into`.
pub open spec fn spec_convert_condition(from: Condition, into: Condition) -> ModifyGainedConditions {
    ModifyGainedConditions {
        applies_only_to: Option::Some(from),
        transform_into: Option::Some(into),
        additive_factor: 0,
        multiplicative_num: 1,
        multiplicative_den: 1,
    }
}

/// A single condition grant as an effect list.
pub open spec fn spec_condition_effects(condition: Condition, value: isize) -> Seq<
    EffectOnCharacter,
> {
    seq![EffectOnCharacter::Condition(ConditionEffect { condition_type: condition, value })]
}

/// "No adjacent enemy": the count of enemies at distance exactly 1 is zero.
pub open spec fn spec_no_adjacent_enemy() -> PreconditionS {
    PreconditionS::FilteredCount {
        filter: FilterS::And(
            seq![
                FilterS::IsEnemy,
                FilterS::WithinDistance(DistanceRange { from: 1, to: 2 })
            ],
        ),
        comparison: Comparison::Equal,
        value: 0,
    }
}

/// "The statistic `stat` was zero, `turns_ago` turns back."
pub open spec fn spec_stat_was_zero(turns_ago: usize, stat: TurnStat) -> PreconditionS {
    PreconditionS::TurnStat {
        turn_index_relative: turns_ago,
        stat,
        comparison: Comparison::Equal,
        value: 0,
    }
}

/// The static data of each item.
pub open spec fn spec_item_data(item: Item) -> ItemDataS {
    match item {
        Item::ShroudOfThePoisonFeeder => ItemDataS {
            passives: PassivesS {
                actions_consume_health_instead_of_mana: false,
                modify_gained_conditions: seq![
                    spec_convert_condition(Condition::Poison, Condition::Regen),
                    spec_convert_condition(Condition::Regen, Condition::Poison)
                ],
            },
            triggered_abilities: empty_triggered(),
        },
        Item::CloakOfInvisibility => ItemDataS {
            passives: empty_passives(),
            triggered_abilities: TriggeredAbilitiesS {
                end_of_turn: seq![
                    spec_self_ability(
                        Option::Some(spec_no_adjacent_enemy()),
                        spec_condition_effects(Condition::Invisible, 1),
                    )
                ],
                attack_action: seq![
                    spec_self_ability(
                        Option::None,
                        spec_condition_effects(Condition::Fragile, 1),
                    )
                ],
                ..empty_triggered()
            },
        },
        Item::ChestplateOfTheEnraged => ItemDataS {
            passives: empty_passives(),
            triggered_abilities: TriggeredAbilitiesS {
                damage_taken: seq![
                    spec_self_ability(
                        Option::None,
                        spec_condition_effects(Condition::Strong, 1),
                    )
                ],
                ..empty_triggered()
            },
        },
        Item::MonksRobe => ItemDataS {
            passives: empty_passives(),
            triggered_abilities: TriggeredAbilitiesS {
                movement_action: seq![
                    spec_monks_robe_ability(),
                    AbilityS { precondition: Option::None, actions: Seq::empty() }
                ],
                ..empty_triggered()
            },
        },
        Item::ThorngrownVest => ItemDataS {
            passives: empty_passives(),
            triggered_abilities: TriggeredAbilitiesS {
                end_of_turn: seq![
                    spec_self_ability(
                        Option::Some(spec_stat_was_zero(1, TurnStat::AttackActions)),
                        spec_condition_effects(Condition::Retaliate, 2),
                    )
                ],
                ..empty_triggered()
            },
        },
        Item::BoodboundHarness => ItemDataS {
            passives: PassivesS {
                actions_consume_health_instead_of_mana: true,
                modify_gained_conditions: Seq::empty(),
            },
            triggered_abilities: empty_triggered(),
        },
        Item::StillrootLegs => ItemDataS {
            passives: empty_passives(),
            triggered_abilities: TriggeredAbilitiesS {
                beginning_of_turn: seq![
                    spec_self_ability(
                        Option::Some(spec_stat_was_zero(1, TurnStat::SpacesMoved)),
                        seq![EffectOnCharacter::GainStamina(1)],
                    )
                ],
                ..empty_triggered()
            },
        },
    }
}

/// Gain Disarmed(1), then apply Stunned(1) to a melee target.
pub open spec fn spec_monks_robe_ability() -> AbilityS {
    AbilityS {
        precondition: Option::None,
        actions: seq![
            spec_self_ability(
                Option::None,
                spec_condition_effects(Condition::Disarmed, 1),
            ).actions[0],
            crate::data_model::spec_targeted_ability(
                Reach::Melee,
                spec_condition_effects(Condition::Stunned, 1),
            ).actions[0]
        ],
    }
}

/// A one-element condition-grant effect list.
fn condition_effects(condition: Condition, value: isize) -> (r: Vec<EffectOnCharacter>)
    ensures
        r@ == spec_condition_effects(condition, value),
{
    let mut r: Vec<EffectOnCharacter> = Vec::new();
    r.push(EffectOnCharacter::Condition(ConditionEffect { condition_type: condition, value }));
    proof {
        assert(r@ =~= spec_condition_effects(condition, value));
    }
    r
}

/// No triggered abilities.
fn no_triggered_abilities() -> (r: TriggeredAbilities)
    ensures
        r@ == empty_triggered(),
{
    TriggeredAbilities::default()
}

/// No passives.
fn no_passives() -> (r: Passives)
    ensures
        r@ == empty_passives(),
{
    Passives::default()
}

impl Item {
    /// The static data of this item.
    pub fn data(self) -> (r: ItemData)
        ensures
            r@ == spec_item_data(self),
    {
        match self {
            Item::ShroudOfThePoisonFeeder => {
                let mut mods: Vec<ModifyGainedConditions> = Vec::new();
                mods.push(ModifyGainedConditions {
                    applies_only_to: Option::Some(Condition::Poison),
                    transform_into: Option::Some(Condition::Regen),
                    additive_factor: 0,
                    multiplicative_num: 1,
                    multiplicative_den: 1,
                });
                mods.push(ModifyGainedConditions {
                    applies_only_to: Option::Some(Condition::Regen),
                    transform_into: Option::Some(Condition::Poison),
                    additive_factor: 0,
                    multiplicative_num: 1,
                    multiplicative_den: 1,
                });
                let r = ItemData {
                    description: "Applied Poison is converted to Regen. Applied Regen is converted to Poison.",
                    passives: Passives {
                        actions_consume_health_instead_of_mana: false,
                        modify_gained_conditions: mods,
                    },
                    triggered_abilities: no_triggered_abilities(),
                };
                proof {
                    assert(r@ =~~= spec_item_data(self));
                }
                r
            },
            Item::CloakOfInvisibility => {
                let mut filters: Vec<CharacterFilter> = Vec::new();
                filters.push(CharacterFilter::IsEnemy);
                filters.push(
                    CharacterFilter::WithinDistance(DistanceRange { from: 1, to: 2 }),
                );
                let and_filter = CharacterFilter::And(filters);
                proof {
                    reveal_with_fuel(filter_model, 2);
                    assert(filter_model(and_filter)->And_0 =~= seq![
                        FilterS::IsEnemy,
                        FilterS::WithinDistance(DistanceRange { from: 1, to: 2 }),
                    ]);
                }
                let precondition = Precondition::FilteredCount {
                    filter: and_filter,
                    comparison: Comparison::Equal,
                    value: 0,
                };
                proof {
                    assert(precondition@ =~~= spec_no_adjacent_enemy());
                }
                let end_of_turn_ability = self_ability(
                    Option::Some(precondition),
                    condition_effects(Condition::Invisible, 1),
                );
                let attack_ability = self_ability(
                    Option::None,
                    condition_effects(Condition::Fragile, 1),
                );
                let mut end_of_turn: Vec<Ability> = Vec::new();
                end_of_turn.push(end_of_turn_ability);
                let mut attack_action: Vec<Ability> = Vec::new();
                attack_action.push(attack_ability);
                let r = ItemData {
                    description: "At the end of your turn, if you are not adjacent to an enemy, gain Invisible(1). After every attack action, gain Fragile(1).",
                    passives: no_passives(),
                    triggered_abilities: TriggeredAbilities {
                        end_of_turn,
                        attack_action,
                        ..TriggeredAbilities::default()
                    },
                };
                proof {
                    assert(r@ =~~= spec_item_data(self));
                }
                r
            },
            Item::ChestplateOfTheEnraged => {
                let ability = self_ability(
                    Option::None,
                    condition_effects(Condition::Strong, 1),
                );
                let mut damage_taken: Vec<Ability> = Vec::new();
                damage_taken.push(ability);
                let r = ItemData {
                    description: "Every time damage is taken, gain Strong(1).",
                    passives: no_passives(),
                    triggered_abilities: TriggeredAbilities {
                        damage_taken,
                        ..TriggeredAbilities::default()
                    },
                };
                proof {
                    assert(r@ =~~= spec_item_data(self));
                }
                r
            },
            Item::MonksRobe => {
                let disarm = crate::data_model::unit_area_effect(
                    condition_effects(Condition::Disarmed, 1),
                );
                let stun = crate::data_model::unit_area_effect(
                    condition_effects(Condition::Stunned, 1),
                );
                let mut disarm_effects: Vec<AreaEffect> = Vec::new();
                disarm_effects.push(disarm);
                let mut stun_effects: Vec<AreaEffect> = Vec::new();
                stun_effects.push(stun);
                let mut actions: Vec<Action> = Vec::new();
                actions.push(Action::OnSelf(ActionOnSelf { effects: disarm_effects }));
                actions.push(
                    Action::Targeted(ActionTargeted { reach: Reach::Melee, effects: stun_effects }),
                );
                let first = Ability { precondition: Option::None, actions };
                let second = Ability { precondition: Option::None, actions: Vec::new() };
                let mut movement_action: Vec<Ability> = Vec::new();
                movement_action.push(first);
                movement_action.push(second);
                let r = ItemData {
                    description: "After every movement action, you may gain Disarmed(1) to apply Stunned(1) to an adjacent enemy.",
                    passives: no_passives(),
                    triggered_abilities: TriggeredAbilities {
                        movement_action,
                        ..TriggeredAbilities::default()
                    },
                };
                proof {
                    assert(r@ =~~= spec_item_data(self));
                }
                r
            },
            Item::ThorngrownVest => {
                let precondition = Precondition::TurnStat {
                    turn_index_relative: 1,
                    stat: TurnStat::AttackActions,
                    comparison: Comparison::Equal,
                    value: 0,
                };
                let ability = self_ability(
                    Option::Some(precondition),
                    condition_effects(Condition::Retaliate, 2),
                );
                let mut end_of_turn: Vec<Ability> = Vec::new();
                end_of_turn.push(ability);
                let r = ItemData {
                    description: "At the end of your turn, if you didn't attack, gain Retaliate(2).",
                    passives: no_passives(),
                    triggered_abilities: TriggeredAbilities {
                        end_of_turn,
                        ..TriggeredAbilities::default()
                    },
                };
                proof {
                    assert(r@ =~~= spec_item_data(self));
                }
                r
            },
            Item::BoodboundHarness => {
                let r = ItemData {
                    description: "Your actions consume Health instead of Stamina.",
                    passives: Passives {
                        actions_consume_health_instead_of_mana: true,
                        modify_gained_conditions: Vec::new(),
                    },
                    triggered_abilities: no_triggered_abilities(),
                };
                proof {
                    assert(r@ =~~= spec_item_data(self));
                }
                r
            },
            Item::StillrootLegs => {
                let precondition = Precondition::TurnStat {
                    turn_index_relative: 1,
                    stat: TurnStat::SpacesMoved,
                    comparison: Comparison::Equal,
                    value: 0,
                };
                let mut gain: Vec<EffectOnCharacter> = Vec::new();
                gain.push(EffectOnCharacter::GainStamina(1));
                let ability = self_ability(Option::Some(precondition), gain);
                let mut beginning_of_turn: Vec<Ability> = Vec::new();
                beginning_of_turn.push(ability);
                let r = ItemData {
                    description: "At the start of you turn, if you didn't move last turn, gain one Stamina.",
                    passives: no_passives(),
                    triggered_abilities: TriggeredAbilities {
                        beginning_of_turn,
                        ..TriggeredAbilities::default()
                    },
                };
                proof {
                    assert(r@ =~~= spec_item_data(self));
                }
                r
            },
        }
    }
}

/// Every condition-modifying passive of every item scales by a ratio with a
/// positive denominator.
pub proof fn lemma_item_modifier_dens(item: Item)
    ensures
        forall|j: int|
            0 <= j < spec_item_data(item).passives.modify_gained_conditions.len() ==> (
            #[trigger] spec_item_data(item).passives.modify_gained_conditions[j]).multiplicative_den
                > 0,
{
}

} // verus!
