//! Popping the next pending ability off a character: the queue is
//! last-in-first-out, an ability whose precondition fails is discarded, and
//! each action of an eligible ability is remapped under the character's
//! active modifiers (the Fury remap) before it is returned.

use crate::data_model::{
    actions_model, roster_model, Ability, Action, ActionOnSelf, ActionS, ActionTargeted,
    AreaEffect, AreaEffectS, Character, CharacterS, Condition, Reach,
};
use crate::hex_grid::{Area, DistanceRange};
use crate::precondition::{optional_precondition_is_met, spec_optional_precondition_is_met};
use vstd::prelude::*;

verus! {

/// The outcome of popping one pending ability.
#[derive(Debug)]
pub enum PopAbilityResult {
    /// The queue was empty.
    NoRemainingAbilities,
    /// The popped ability's precondition failed; it was discarded.
    NextAbilityDoesNotSatisfyPrecondition,
    /// The popped ability's actions, remapped under active modifiers.
    Actions { actions: Vec<Action> },
}

/// The mathematical form of a [`PopAbilityResult`].
#[verifier::ext_equal]
pub ghost enum PopResultS {
    NoRemaining,
    Unsatisfied,
    Actions(Seq<ActionS>),
}

impl View for PopAbilityResult {
    type V = PopResultS;

    open spec fn view(&self) -> PopResultS {
        match self {
            PopAbilityResult::NoRemainingAbilities => PopResultS::NoRemaining,
            PopAbilityResult::NextAbilityDoesNotSatisfyPrecondition => PopResultS::Unsatisfied,
            PopAbilityResult::Actions { actions } => PopResultS::Actions(actions_model(actions@)),
        }
    }
}

/// The Fury remap of one action: a melee-targeted action whose area effects
/// all cover the target hex alone becomes a self-centered action whose
/// areas are the one-hex ring around the actor, keeping each effect's
/// filter and effect list; any other action is left alone.
pub open spec fn spec_fury_remap(a: ActionS) -> Option<ActionS> {
    match a {
        ActionS::Targeted(t) => {
            if t.reach == Reach::Melee && (forall|i: int|
                0 <= i < t.effects.len() ==> (#[trigger] t.effects[i]).area
                    == crate::data_model::unit_area()) {
                Option::Some(
                    ActionS::OnSelf(
                        t.effects.map_values(
                            |e: AreaEffectS| AreaEffectS {
                                area: Area::Disk(DistanceRange { from: 1, to: 2 }),
                                filter: e.filter,
                                effects: e.effects,
                            },
                        ),
                    ),
                )
            } else {
                Option::None
            }
        },
        _ => Option::None,
    }
}

/// An action remapped under the character's active modifiers: with the
/// engine-internal `Fury` condition, melee attacks are rewritten to strike
/// every adjacent character.
pub open spec fn spec_map_action(c: CharacterS, a: ActionS) -> ActionS {
    if c.conditions[Condition::Fury] > 0 {
        match spec_fury_remap(a) {
            Option::Some(mapped) => mapped,
            Option::None => a,
        }
    } else {
        a
    }
}

/// The mathematical form of an optional action.
pub open spec fn option_action_model(o: Option<Action>) -> Option<ActionS> {
    match o {
        Option::Some(a) => Option::Some(a@),
        Option::None => Option::None,
    }
}

/// The Fury remap of one action, or nothing for actions it leaves alone.
pub fn filter_map_action_for_fury(action: &Action) -> (r: Option<Action>)
    ensures
        option_action_model(r) == spec_fury_remap(action@),
{
    match action {
        Action::OnSelf(_) => Option::None,
        Action::Movement(_) => Option::None,
        Action::Targeted(targeted) => {
            match targeted.reach {
                Reach::Ranged { .. } => Option::None,
                Reach::Melee => {
                    let ghost effects_view = crate::data_model::area_effects_model(
                        targeted.effects@,
                    );
                    let n = targeted.effects.len();
                    let mut all_unit = true;
                    for i in 0..n
                        invariant
                            n == targeted.effects@.len(),
                            effects_view == crate::data_model::area_effects_model(
                                targeted.effects@,
                            ),
                            all_unit == (forall|j: int|
                                0 <= j < i ==> (#[trigger] effects_view[j]).area
                                    == crate::data_model::unit_area()),
                    {
                        proof {
                            assert(effects_view[i as int] == targeted.effects@[i as int]@);
                        }
                        if !(targeted.effects[i].area == Area::default()) {
                            all_unit = false;
                        }
                    }
                    if all_unit {
                        let mut new_effects: Vec<AreaEffect> = Vec::new();
                        for i in 0..n
                            invariant
                                n == targeted.effects@.len(),
                                effects_view == crate::data_model::area_effects_model(
                                    targeted.effects@,
                                ),
                                new_effects@.len() == i,
                                forall|j: int|
                                    0 <= j < i ==> (#[trigger] new_effects@[j])@ == (AreaEffectS {
                                        area: Area::Disk(DistanceRange { from: 1, to: 2 }),
                                        filter: effects_view[j].filter,
                                        effects: effects_view[j].effects,
                                    }),
                        {
                            let mut ring_effect = targeted.effects[i].clone();
                            ring_effect.area = Area::Disk(DistanceRange { from: 1, to: 2 });
                            new_effects.push(ring_effect);
                        }
                        let r = Option::Some(
                            Action::OnSelf(ActionOnSelf { effects: new_effects }),
                        );
                        proof {
                            assert(crate::data_model::area_effects_model(new_effects@)
                                =~= effects_view.map_values(
                                |e: AreaEffectS| AreaEffectS {
                                    area: Area::Disk(DistanceRange { from: 1, to: 2 }),
                                    filter: e.filter,
                                    effects: e.effects,
                                },
                            ));
                        }
                        r
                    } else {
                        Option::None
                    }
                },
            }
        },
    }
}

/// The action remapped under `character`'s active modifiers.
pub fn map_action(character: &Character, action: Action) -> (r: Action)
    ensures
        r@ == spec_map_action(character@, action@),
{
    if character.conditions.has(&Condition::Fury) {
        match filter_map_action_for_fury(&action) {
            Option::Some(mapped_action) => mapped_action,
            Option::None => action,
        }
    } else {
        action
    }
}

/// A character and the outcome of popping its most recently queued ability:
/// nothing is pending, or the ability's precondition (judged against the
/// rest of the roster, with the ability already off the queue) failed and
/// the ability is discarded without replacement, or its actions — remapped
/// under the character's active modifiers — are handed out.
pub open spec fn spec_pop_ability(src: CharacterS, others: Seq<CharacterS>) -> (
    CharacterS,
    PopResultS,
) {
    if src.remaining_abilities.len() == 0 {
        (src, PopResultS::NoRemaining)
    } else {
        let ability = src.remaining_abilities.last();
        let src1 = CharacterS { remaining_abilities: src.remaining_abilities.drop_last(), ..src };
        if spec_optional_precondition_is_met(ability.precondition, others, src1) {
            (
                src1,
                PopResultS::Actions(
                    ability.actions.map_values(|a: ActionS| spec_map_action(src1, a)),
                ),
            )
        } else {
            (src1, PopResultS::Unsatisfied)
        }
    }
}

/// Pops the most recently queued ability off `source_character`, judging
/// its precondition against the rest of the roster.
pub fn pop_ability(source_character: &mut Character, characters: &Vec<Character>) -> (r:
    PopAbilityResult)
    requires
        characters@.len() < usize::MAX,
    ensures
        ({
            let p = spec_pop_ability(old(source_character)@, roster_model(characters@));
            final(source_character)@ == p.0 && r@ == p.1
        }),
{
    match source_character.remaining_abilities.pop() {
        Option::None => PopAbilityResult::NoRemainingAbilities,
        Option::Some(ability) => {
            proof {
                assert(crate::data_model::abilities_model(source_character.remaining_abilities@)
                    =~= old(source_character)@.remaining_abilities.drop_last());
                assert(ability@ == old(source_character)@.remaining_abilities.last());
                assert(source_character@ =~= (CharacterS {
                    remaining_abilities: old(source_character)@.remaining_abilities.drop_last(),
                    ..old(source_character)@
                }));
            }
            let met = optional_precondition_is_met(
                ability.precondition.as_ref(),
                characters,
                source_character,
            );
            if met {
                let Ability { precondition: _, actions } = ability;
                let ghost original_actions = actions_model(actions@);
                let ghost src1 = source_character@;
                let mut actions = actions;
                let mut mapped: Vec<Action> = Vec::new();
                let n = actions.len();
                proof {
                    assert(actions_model(actions@) =~= original_actions.skip(0));
                }
                for idx in 0..n
                    invariant
                        n == original_actions.len(),
                        src1 == source_character@,
                        actions@.len() == n - idx,
                        actions_model(actions@) == original_actions.skip(idx as int),
                        mapped@.len() == idx,
                        forall|j: int|
                            0 <= j < idx ==> (#[trigger] mapped@[j])@ == spec_map_action(
                                src1,
                                original_actions[j],
                            ),
                {
                    let ghost pre = actions@;
                    let action = actions.remove(0);
                    proof {
                        assert(action == pre[0]);
                        assert(action@ == actions_model(pre)[0]);
                        assert(action@ == original_actions[idx as int]);
                        assert(actions_model(actions@) =~= actions_model(pre).skip(1));
                        assert(actions_model(pre).skip(1) =~= original_actions.skip(idx + 1));
                        assert(actions_model(actions@) == original_actions.skip(idx + 1));
                    }
                    mapped.push(map_action(source_character, action));
                }
                let r = PopAbilityResult::Actions { actions: mapped };
                proof {
                    assert(actions_model(mapped@) =~= old(
                        source_character,
                    )@.remaining_abilities.last().actions.map_values(
                        |a: ActionS| spec_map_action(src1, a),
                    ));
                }
                r
            } else {
                PopAbilityResult::NextAbilityDoesNotSatisfyPrecondition
            }
        },
    }
}

/// A character and the actions of its next eligible pending ability:
/// abilities whose preconditions fail are popped and discarded until one
/// passes (its remapped actions are returned) or the queue empties.
pub open spec fn spec_pop_ability_ignore_unsatisfied(src: CharacterS, others: Seq<CharacterS>) -> (
    CharacterS,
    Option<Seq<ActionS>>,
)
    decreases src.remaining_abilities.len(),
{
    let p = spec_pop_ability(src, others);
    match p.1 {
        PopResultS::NoRemaining => (p.0, Option::None),
        PopResultS::Actions(actions) => (p.0, Option::Some(actions)),
        PopResultS::Unsatisfied => spec_pop_ability_ignore_unsatisfied(p.0, others),
    }
}

/// Pops pending abilities off `source_character` until one is eligible
/// (returning its remapped actions) or the queue empties (returning
/// nothing); ineligible abilities are discarded.
pub fn pop_ability_ignore_unsatisfied(
    source_character: &mut Character,
    characters: &Vec<Character>,
) -> (r: Option<Vec<Action>>)
    requires
        characters@.len() < usize::MAX,
    ensures
        ({
            let p = spec_pop_ability_ignore_unsatisfied(
                old(source_character)@,
                roster_model(characters@),
            );
            final(source_character)@ == p.0 && (match r {
                Option::Some(actions) => p.1 == Option::Some(actions_model(actions@)),
                Option::None => p.1 is None,
            })
        }),
{
    let ghost others = roster_model(characters@);
    let ghost goal = spec_pop_ability_ignore_unsatisfied(old(source_character)@, others);
    loop
        invariant
            characters@.len() < usize::MAX,
            others == roster_model(characters@),
            goal == spec_pop_ability_ignore_unsatisfied(
                old(source_character)@,
                roster_model(characters@),
            ),
            spec_pop_ability_ignore_unsatisfied(source_character@, others) == goal,
        decreases source_character.remaining_abilities@.len(),
    {
        let ghost pre = source_character@;
        let popped = pop_ability(source_character, characters);
        proof {
            assert(spec_pop_ability_ignore_unsatisfied(pre, others) == goal);
        }
        match popped {
            PopAbilityResult::NoRemainingAbilities => {
                proof {
                    assert(goal == (source_character@, Option::<Seq<ActionS>>::None));
                }
                return Option::None;
            },
            PopAbilityResult::NextAbilityDoesNotSatisfyPrecondition => {},
            PopAbilityResult::Actions { actions } => {
                proof {
                    assert(goal == (
                        source_character@,
                        Option::Some(actions_model(actions@)),
                    ));
                }
                return Option::Some(actions);
            },
        }
    }
}

} // verus!
