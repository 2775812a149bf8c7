//! The card catalogue: static declarative data expanded into abilities when
//! a card is played.

use crate::character_filter::{filter_model, CharacterFilter, FilterS};
use crate::data_model::{
    self_ability, spec_self_ability, spec_targeted_ability, targeted_ability, unit_area_effect,
    Ability, AbilityS, Action, ActionMovement, ActionOnSelf, ActionS, AreaEffect, AreaEffectS,
    CardData, CardDataS, Comparison, Condition, ConditionEffect, EffectOnCharacter, Reach,
};
use crate::hex_grid::{Area, DistanceRange};
use crate::precondition::{Precondition, PreconditionS};
use vstd::prelude::*;

verus! {

/// A playable card. Cards are static data: playing one queues the abilities
/// its [`CardData`] lists.
#[derive(Debug, Clone, Copy, PartialEq, Eq, Structural, PartialOrd, Ord, Hash)]
pub enum Card {
    /// Move 2.
    Step,
    /// Move 4.
    Dash,
    /// Move 6.
    Sprint,
    /// Deal 2 damage (melee).
    Cut,
    /// Deal 5 damage (melee).
    Strike,
    /// Deal 8 damage (melee).
    LargeStrike,
    /// Deal 5 damage (range 3).
    SteadyShot,
    /// Deal 2 damage (range 3), also hitting characters adjacent to the
    /// target.
    RainOfArrows,
    /// Deal 3 damage (range 3) and restore health equal to the damage done.
    DrainLife,
    /// Apply Poison(3) to the target, Poison(2) at distance 1 and Poison(1)
    /// at distance 2 around it (range 1).
    PoisonCloud,
    /// If you are Invisible, gain Empowered(1).
    Preparation,
    /// Move 1, then gain Invisible(1).
    ShadowStep,
    /// Move 2, deal 2 melee damage, move 2.
    Backstab,
    /// Deal 1 damage to all characters.
    Whirlwind,
    /// Deal 5 damage to all characters with Stunned.
    Sting,
    /// Reach towards enemies within 2 hexes, then apply Weak(1) to all
    /// adjacent characters.
    Brawl,
    /// Gain Fortified(3) and Immobilized(2).
    Calm,
    /// Restore 3 health, gain Strong(2) and Fragile(2).
    Adrenaline,
    /// All melee attacks this turn target all adjacent characters.
    Fury,
}

/// A single movement ability of `spaces` steps.
pub open spec fn spec_move_ability(spaces: usize) -> AbilityS {
    AbilityS {
        precondition: Option::None,
        actions: seq![ActionS::Movement(ActionMovement { spaces, jump: false })],
    }
}

/// An unconditioned ability with one self-centered action carrying one area
/// effect.
pub open spec fn spec_area_self_ability(
    area: Area,
    filter: Option<FilterS>,
    effects: Seq<EffectOnCharacter>,
) -> AbilityS {
    AbilityS {
        precondition: Option::None,
        actions: seq![ActionS::OnSelf(seq![AreaEffectS { area, filter, effects }])],
    }
}

/// A movement card: one ability that moves `spaces` steps.
pub open spec fn spec_basic_move(stamina_cost: usize, spaces: usize) -> CardDataS {
    CardDataS { stamina_cost, abilities: seq![spec_move_ability(spaces)] }
}

/// A melee attack card: one targeted ability dealing `damage` on the target
/// hex.
pub open spec fn spec_basic_melee_attack(stamina_cost: usize, damage: usize) -> CardDataS {
    CardDataS {
        stamina_cost,
        abilities: seq![
            spec_targeted_ability(Reach::Melee, seq![EffectOnCharacter::Damage(damage)])
        ],
    }
}

/// A ranged attack card: one targeted ability dealing `damage` on the
/// target hex within `range`.
pub open spec fn spec_basic_ranged_attack(stamina_cost: usize, range: usize, damage: usize) -> CardDataS {
    CardDataS {
        stamina_cost,
        abilities: seq![
            spec_targeted_ability(
                Reach::Ranged { range },
                seq![EffectOnCharacter::Damage(damage)],
            )
        ],
    }
}

/// "You are Invisible": the count of roster members that are the source
/// itself and carry Invisible is positive.
pub open spec fn spec_self_invisible() -> PreconditionS {
    PreconditionS::FilteredCount {
        filter: FilterS::And(
            seq![FilterS::IsSelf, FilterS::WithCondition(Condition::Invisible)],
        ),
        comparison: Comparison::Greater,
        value: 0,
    }
}

/// The static data of each card.
pub open spec fn spec_card_data(card: Card) -> CardDataS {
    match card {
        Card::Step => spec_basic_move(1, 2),
        Card::Dash => spec_basic_move(2, 4),
        Card::Sprint => spec_basic_move(3, 6),
        Card::Cut => spec_basic_melee_attack(1, 2),
        Card::Strike => spec_basic_melee_attack(5, 5),
        Card::LargeStrike => spec_basic_melee_attack(10, 8),
        Card::SteadyShot => spec_basic_ranged_attack(3, 3, 5),
        Card::RainOfArrows => CardDataS {
            stamina_cost: 8,
            abilities: seq![
                AbilityS {
                    precondition: Option::None,
                    actions: seq![
                        ActionS::Targeted(
                            crate::data_model::ActionTargetedS {
                                reach: Reach::Ranged { range: 3 },
                                effects: seq![
                                    AreaEffectS {
                                        area: Area::Disk(DistanceRange { from: 0, to: 2 }),
                                        filter: Option::None,
                                        effects: seq![EffectOnCharacter::Damage(2)],
                                    }
                                ],
                            },
                        )
                    ],
                }
            ],
        },
        Card::DrainLife => CardDataS {
            stamina_cost: 3,
            abilities: seq![
                spec_targeted_ability(
                    Reach::Ranged { range: 3 },
                    seq![EffectOnCharacter::DamageWithLifesteal(3)],
                )
            ],
        },
        Card::PoisonCloud => CardDataS {
            stamina_cost: 8,
            abilities: seq![
                AbilityS {
                    precondition: Option::None,
                    actions: seq![
                        ActionS::Targeted(
                            crate::data_model::ActionTargetedS {
                                reach: Reach::Ranged { range: 1 },
                                effects: seq![
                                    poison_area(0, 1, 3),
                                    poison_area(1, 2, 2),
                                    poison_area(2, 3, 1)
                                ],
                            },
                        )
                    ],
                }
            ],
        },
        Card::Preparation => CardDataS {
            stamina_cost: 2,
            abilities: seq![
                AbilityS {
                    precondition: Option::Some(spec_self_invisible()),
                    actions: spec_self_ability(
                        Option::None,
                        grant(Condition::Empowered, 1),
                    ).actions,
                }
            ],
        },
        Card::ShadowStep => CardDataS {
            stamina_cost: 7,
            abilities: seq![
                spec_move_ability(1),
                spec_self_ability(Option::None, grant(Condition::Invisible, 1))
            ],
        },
        Card::Backstab => CardDataS {
            stamina_cost: 3,
            abilities: seq![
                spec_move_ability(2),
                spec_targeted_ability(Reach::Melee, seq![EffectOnCharacter::Damage(2)]),
                spec_move_ability(2)
            ],
        },
        Card::Whirlwind => CardDataS {
            stamina_cost: 3,
            abilities: seq![
                spec_area_self_ability(
                    Area::Disk(DistanceRange { from: 0, to: usize::MAX }),
                    Option::None,
                    seq![EffectOnCharacter::Damage(1)],
                )
            ],
        },
        Card::Sting => CardDataS {
            stamina_cost: 6,
            abilities: seq![
                spec_area_self_ability(
                    Area::Disk(DistanceRange { from: 0, to: usize::MAX }),
                    Option::Some(FilterS::WithCondition(Condition::Stunned)),
                    seq![EffectOnCharacter::Damage(5)],
                )
            ],
        },
        Card::Brawl => CardDataS {
            stamina_cost: 3,
            abilities: seq![
                spec_area_self_ability(
                    Area::Disk(DistanceRange { from: 2, to: 3 }),
                    Option::None,
                    Seq::empty(),
                ),
                spec_area_self_ability(
                    Area::Disk(DistanceRange { from: 1, to: 2 }),
                    Option::None,
                    grant(Condition::Weak, 1),
                )
            ],
        },
        Card::Calm => CardDataS {
            stamina_cost: 5,
            abilities: seq![
                spec_self_ability(
                    Option::None,
                    grant(Condition::Fortified, 3) + grant(Condition::Immobilized, 2),
                )
            ],
        },
        Card::Adrenaline => CardDataS {
            stamina_cost: 3,
            abilities: seq![
                spec_self_ability(
                    Option::None,
                    seq![EffectOnCharacter::Heal(3)] + grant(Condition::Strong, 2) + grant(
                        Condition::Fragile,
                        2,
                    ),
                )
            ],
        },
        Card::Fury => CardDataS {
            stamina_cost: 5,
            abilities: seq![spec_self_ability(Option::None, grant(Condition::Fury, 1))],
        },
    }
}

/// A one-element effect list granting a condition.
pub open spec fn grant(condition: Condition, value: isize) -> Seq<EffectOnCharacter> {
    seq![EffectOnCharacter::Condition(ConditionEffect { condition_type: condition, value })]
}

/// A Poison grant over the annulus `[from, to)`.
pub open spec fn poison_area(from: usize, to: usize, value: isize) -> AreaEffectS {
    AreaEffectS {
        area: Area::Disk(DistanceRange { from, to }),
        filter: Option::None,
        effects: grant(Condition::Poison, value),
    }
}

/// A movement ability of `spaces` steps.
fn move_ability(spaces: usize) -> (r: Ability)
    ensures
        r@ == spec_move_ability(spaces),
{
    let mut actions: Vec<Action> = Vec::new();
    actions.push(Action::Movement(ActionMovement { spaces, jump: false }));
    let r = Ability { precondition: Option::None, actions };
    proof {
        assert(r@ =~~= spec_move_ability(spaces));
    }
    r
}

/// An unconditioned ability with one self-centered action carrying one area
/// effect.
fn area_self_ability(
    area: Area,
    filter: Option<CharacterFilter>,
    effects: Vec<EffectOnCharacter>,
) -> (r: Ability)
    ensures
        r@ == spec_area_self_ability(
            area,
            crate::character_filter::option_filter_model(filter),
            effects@,
        ),
{
    let ghost effects_view = effects@;
    let ghost filter_view = crate::character_filter::option_filter_model(filter);
    let area_effect = AreaEffect { area, filter, effects };
    let mut area_effects: Vec<AreaEffect> = Vec::new();
    area_effects.push(area_effect);
    let mut actions: Vec<Action> = Vec::new();
    actions.push(Action::OnSelf(ActionOnSelf { effects: area_effects }));
    let r = Ability { precondition: Option::None, actions };
    proof {
        assert(r@ =~~= spec_area_self_ability(area, filter_view, effects_view));
    }
    r
}

/// A one-element effect list granting a condition.
fn grant_effects(condition: Condition, value: isize) -> (r: Vec<EffectOnCharacter>)
    ensures
        r@ == grant(condition, value),
{
    let mut r: Vec<EffectOnCharacter> = Vec::new();
    r.push(EffectOnCharacter::Condition(ConditionEffect { condition_type: condition, value }));
    proof {
        assert(r@ =~= grant(condition, value));
    }
    r
}

/// A movement card.
fn basic_move(stamina_cost: usize, spaces: usize, description: &'static str) -> (r: CardData)
    ensures
        r@ == spec_basic_move(stamina_cost, spaces),
{
    let mut abilities: Vec<Ability> = Vec::new();
    abilities.push(move_ability(spaces));
    let r = CardData { description, stamina_cost, abilities };
    proof {
        assert(r@ =~~= spec_basic_move(stamina_cost, spaces));
    }
    r
}

/// A melee attack card.
fn basic_melee_attack(stamina_cost: usize, damage: usize, description: &'static str) -> (r:
    CardData)
    ensures
        r@ == spec_basic_melee_attack(stamina_cost, damage),
{
    let mut damage_effects: Vec<EffectOnCharacter> = Vec::new();
    damage_effects.push(EffectOnCharacter::Damage(damage));
    let mut abilities: Vec<Ability> = Vec::new();
    abilities.push(targeted_ability(Reach::Melee, damage_effects));
    let r = CardData { description, stamina_cost, abilities };
    proof {
        assert(r@ =~~= spec_basic_melee_attack(stamina_cost, damage));
    }
    r
}

/// A ranged attack card.
fn basic_ranged_attack(
    stamina_cost: usize,
    range: usize,
    damage: usize,
    description: &'static str,
) -> (r: CardData)
    ensures
        r@ == spec_basic_ranged_attack(stamina_cost, range, damage),
{
    let mut damage_effects: Vec<EffectOnCharacter> = Vec::new();
    damage_effects.push(EffectOnCharacter::Damage(damage));
    let mut abilities: Vec<Ability> = Vec::new();
    abilities.push(targeted_ability(Reach::Ranged { range }, damage_effects));
    let r = CardData { description, stamina_cost, abilities };
    proof {
        assert(r@ =~~= spec_basic_ranged_attack(stamina_cost, range, damage));
    }
    r
}

impl Card {
    /// The static data of this card.
    pub fn data(self) -> (r: CardData)
        ensures
            r@ == spec_card_data(self),
    {
        match self {
            Card::Step => basic_move(1, 2, "Move 2"),
            Card::Dash => basic_move(2, 4, "Move 4"),
            Card::Sprint => basic_move(3, 6, "Move 6"),
            Card::Cut => basic_melee_attack(1, 2, "Deal 2 damage (Melee)"),
            Card::Strike => basic_melee_attack(5, 5, "Deal 5 damage (Melee)"),
            Card::LargeStrike => basic_melee_attack(10, 8, "Deal 8 damage (Melee)"),
            Card::SteadyShot => basic_ranged_attack(3, 3, 5, "Deal 5 damage (Range 3)"),
            Card::RainOfArrows => {
                let mut damage_effects: Vec<EffectOnCharacter> = Vec::new();
                damage_effects.push(EffectOnCharacter::Damage(2));
                let splash = AreaEffect {
                    area: Area::Disk(DistanceRange { from: 0, to: 2 }),
                    filter: Option::None,
                    effects: damage_effects,
                };
                let mut area_effects: Vec<AreaEffect> = Vec::new();
                area_effects.push(splash);
                let mut actions: Vec<Action> = Vec::new();
                actions.push(
                    Action::Targeted(
                        crate::data_model::ActionTargeted {
                            reach: Reach::Ranged { range: 3 },
                            effects: area_effects,
                        },
                    ),
                );
                let mut abilities: Vec<Ability> = Vec::new();
                abilities.push(Ability { precondition: Option::None, actions });
                let r = CardData {
                    description: "Deal 2 damage (Range 3). Also affects enemies adjacent to the target",
                    stamina_cost: 8,
                    abilities,
                };
                proof {
                    assert(r@ =~~= spec_card_data(self));
                }
                r
            },
            Card::DrainLife => {
                let mut drain_effects: Vec<EffectOnCharacter> = Vec::new();
                drain_effects.push(EffectOnCharacter::DamageWithLifesteal(3));
                let mut abilities: Vec<Ability> = Vec::new();
                abilities.push(targeted_ability(Reach::Ranged { range: 3 }, drain_effects));
                let r = CardData {
                    description: "Deal 3 damage (Range 3). Restore health equal to the damage done.",
                    stamina_cost: 3,
                    abilities,
                };
                proof {
                    assert(r@ =~~= spec_card_data(self));
                }
                r
            },
            Card::PoisonCloud => {
                let mut area_effects: Vec<AreaEffect> = Vec::new();
                area_effects.push(AreaEffect {
                    area: Area::Disk(DistanceRange { from: 0, to: 1 }),
                    filter: Option::None,
                    effects: grant_effects(Condition::Poison, 3),
                });
                area_effects.push(AreaEffect {
                    area: Area::Disk(DistanceRange { from: 1, to: 2 }),
                    filter: Option::None,
                    effects: grant_effects(Condition::Poison, 2),
                });
                area_effects.push(AreaEffect {
                    area: Area::Disk(DistanceRange { from: 2, to: 3 }),
                    filter: Option::None,
                    effects: grant_effects(Condition::Poison, 1),
                });
                let mut actions: Vec<Action> = Vec::new();
                actions.push(
                    Action::Targeted(
                        crate::data_model::ActionTargeted {
                            reach: Reach::Ranged { range: 1 },
                            effects: area_effects,
                        },
                    ),
                );
                let mut abilities: Vec<Ability> = Vec::new();
                abilities.push(Ability { precondition: Option::None, actions });
                let r = CardData {
                    description: "Range 1. Apply Poison(3) to the target. Apply Poison(2) to all characters in range exactly 1 of the target. Apply Poison(1) to all characters in range exactly 2 of the target",
                    stamina_cost: 8,
                    abilities,
                };
                proof {
                    assert(r@ =~~= spec_card_data(self));
                }
                r
            },
            Card::Preparation => {
                let mut filters: Vec<CharacterFilter> = Vec::new();
                filters.push(CharacterFilter::IsSelf);
                filters.push(CharacterFilter::WithCondition(Condition::Invisible));
                let and_filter = CharacterFilter::And(filters);
                proof {
                    reveal_with_fuel(filter_model, 2);
                    assert(filter_model(and_filter)->And_0 =~= seq![
                        FilterS::IsSelf,
                        FilterS::WithCondition(Condition::Invisible),
                    ]);
                }
                let precondition = Precondition::FilteredCount {
                    filter: and_filter,
                    comparison: Comparison::Greater,
                    value: 0,
                };
                let ability = self_ability(
                    Option::Some(precondition),
                    grant_effects(Condition::Empowered, 1),
                );
                let mut abilities: Vec<Ability> = Vec::new();
                abilities.push(ability);
                let r = CardData {
                    description: "If you are Invisible, gain Empowered(1)",
                    stamina_cost: 2,
                    abilities,
                };
                proof {
                    assert(r@ =~~= spec_card_data(self));
                }
                r
            },
            Card::ShadowStep => {
                let mut abilities: Vec<Ability> = Vec::new();
                abilities.push(move_ability(1));
                abilities.push(
                    self_ability(Option::None, grant_effects(Condition::Invisible, 1)),
                );
                let r = CardData {
                    description: "Move 1.\nGain Invisible(1)",
                    stamina_cost: 7,
                    abilities,
                };
                proof {
                    assert(r@ =~~= spec_card_data(self));
                }
                r
            },
            Card::Backstab => {
                let mut damage_effects: Vec<EffectOnCharacter> = Vec::new();
                damage_effects.push(EffectOnCharacter::Damage(2));
                let mut abilities: Vec<Ability> = Vec::new();
                abilities.push(move_ability(2));
                abilities.push(targeted_ability(Reach::Melee, damage_effects));
                abilities.push(move_ability(2));
                let r = CardData {
                    description: "Move 2.\nMelee. Deal 2 damage.\nMove 2.",
                    stamina_cost: 3,
                    abilities,
                };
                proof {
                    assert(r@ =~~= spec_card_data(self));
                }
                r
            },
            Card::Whirlwind => {
                let mut damage_effects: Vec<EffectOnCharacter> = Vec::new();
                damage_effects.push(EffectOnCharacter::Damage(1));
                let mut abilities: Vec<Ability> = Vec::new();
                abilities.push(
                    area_self_ability(
                        Area::Disk(DistanceRange { from: 0, to: usize::MAX }),
                        Option::None,
                        damage_effects,
                    ),
                );
                let r = CardData {
                    description: "Deal 1 damage to all characters",
                    stamina_cost: 3,
                    abilities,
                };
                proof {
                    assert(r@ =~~= spec_card_data(self));
                }
                r
            },
            Card::Sting => {
                let mut damage_effects: Vec<EffectOnCharacter> = Vec::new();
                damage_effects.push(EffectOnCharacter::Damage(5));
                let mut abilities: Vec<Ability> = Vec::new();
                abilities.push(
                    area_self_ability(
                        Area::Disk(DistanceRange { from: 0, to: usize::MAX }),
                        Option::Some(CharacterFilter::WithCondition(Condition::Stunned)),
                        damage_effects,
                    ),
                );
                let r = CardData {
                    description: "Deal 5 damage to all characters with Stunned",
                    stamina_cost: 6,
                    abilities,
                };
                proof {
                    assert(r@ =~~= spec_card_data(self));
                }
                r
            },
            Card::Brawl => {
                let mut abilities: Vec<Ability> = Vec::new();
                abilities.push(
                    area_self_ability(
                        Area::Disk(DistanceRange { from: 2, to: 3 }),
                        Option::None,
                        Vec::new(),
                    ),
                );
                abilities.push(
                    area_self_ability(
                        Area::Disk(DistanceRange { from: 1, to: 2 }),
                        Option::None,
                        grant_effects(Condition::Weak, 1),
                    ),
                );
                let r = CardData {
                    description: "Pull all enemies in within 2 hexes towards you.\nApply Weak(1) to all adjacent enemies.",
                    stamina_cost: 3,
                    abilities,
                };
                proof {
                    assert(r@ =~~= spec_card_data(self));
                }
                r
            },
            Card::Calm => {
                let mut condition_effects: Vec<EffectOnCharacter> = Vec::new();
                condition_effects.push(
                    EffectOnCharacter::Condition(
                        ConditionEffect { condition_type: Condition::Fortified, value: 3 },
                    ),
                );
                condition_effects.push(
                    EffectOnCharacter::Condition(
                        ConditionEffect { condition_type: Condition::Immobilized, value: 2 },
                    ),
                );
                let mut abilities: Vec<Ability> = Vec::new();
                abilities.push(self_ability(Option::None, condition_effects));
                let r = CardData {
                    description: "Gain Fortified(3).\nGain Immobilized(2).",
                    stamina_cost: 5,
                    abilities,
                };
                proof {
                    assert(r@ =~~= spec_card_data(self));
                }
                r
            },
            Card::Adrenaline => {
                let mut combined_effects: Vec<EffectOnCharacter> = Vec::new();
                combined_effects.push(EffectOnCharacter::Heal(3));
                combined_effects.push(
                    EffectOnCharacter::Condition(
                        ConditionEffect { condition_type: Condition::Strong, value: 2 },
                    ),
                );
                combined_effects.push(
                    EffectOnCharacter::Condition(
                        ConditionEffect { condition_type: Condition::Fragile, value: 2 },
                    ),
                );
                let mut abilities: Vec<Ability> = Vec::new();
                abilities.push(self_ability(Option::None, combined_effects));
                let r = CardData {
                    description: "Restore 3 health.\nGain Strong(2).\nGain Fragile(2).",
                    stamina_cost: 3,
                    abilities,
                };
                proof {
                    assert(r@ =~~= spec_card_data(self));
                }
                r
            },
            Card::Fury => {
                let mut abilities: Vec<Ability> = Vec::new();
                abilities.push(self_ability(Option::None, grant_effects(Condition::Fury, 1)));
                let r = CardData {
                    description: "All melee attacks this turn targets all adjacent enemies",
                    stamina_cost: 5,
                    abilities,
                };
                proof {
                    assert(r@ =~~= spec_card_data(self));
                }
                r
            },
        }
    }
}

} // verus!
