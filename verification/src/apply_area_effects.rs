//! The effect application engine: damage and condition math, triggered-
//! ability hooks, and the application of an area effect to the acting source
//! character and to every qualifying member of the rest of the roster.

use crate::character_filter::{filter_character, spec_optional_filter_character};
use crate::data_model::{
    abilities_model, area_effects_model, hook_list, roster_model, AreaEffect, AreaEffectS,
    Character, CharacterS, Condition, ConditionEffect, EffectOnCharacter, Hook,
    ModifyGainedConditions,
};
use crate::enum_map::{clamp_usize, ledger_shift};
use crate::hex_grid::{pos_in_area, spec_pos_in_area, PosAxial};
use crate::items::{lemma_item_modifier_dens, spec_item_data, Item};
use vstd::prelude::*;

verus! {

/// A sum of two counters, saturating at `usize::MAX`.
pub open spec fn sat_add_usize(a: usize, b: usize) -> usize {
    if a + b > usize::MAX {
        usize::MAX as usize
    } else {
        (a + b) as usize
    }
}

/// A difference of two counters, saturating at 0.
pub open spec fn sat_sub_usize(a: usize, b: usize) -> usize {
    if a < b {
        0
    } else {
        (a - b) as usize
    }
}

/// A mathematical value clamped into the `isize` range.
pub open spec fn clamp_isize(x: int) -> isize {
    if x < isize::MIN {
        isize::MIN as isize
    } else if x > isize::MAX {
        isize::MAX as isize
    } else {
        x as isize
    }
}

/// The net damage of a gross damage value: offense modifiers of the source
/// (`Strong` and `Weak` add and subtract, `Empowered` doubles, `Enfeebled`
/// halves rounding down), then defense modifiers of the target (`Fragile`
/// adds, `Fortified` subtracts), clamped to the representable range (in
/// particular, never below 0).
pub open spec fn spec_net_damage(gross: usize, target: CharacterS, source: CharacterS) -> usize {
    let base = gross + source.conditions[Condition::Strong] - source.conditions[Condition::Weak];
    let base0: int = if base < 0 {
        0
    } else {
        base
    };
    let doubled: int = if source.conditions[Condition::Empowered] > 0 {
        2 * base0
    } else {
        base0
    };
    let halved: int = if source.conditions[Condition::Enfeebled] > 0 {
        doubled / 2
    } else {
        doubled
    };
    clamp_usize(
        halved + target.conditions[Condition::Fragile] - target.conditions[Condition::Fortified],
    )
}

/// The triggered abilities contributed on hook `h` by `items`, in equip
/// order.
pub open spec fn concat_hooks(items: Seq<Item>, h: Hook) -> Seq<crate::data_model::AbilityS>
    decreases items.len(),
{
    if items.len() == 0 {
        Seq::empty()
    } else {
        concat_hooks(items.drop_last(), h) + hook_list(
            spec_item_data(items.last()).triggered_abilities,
            h,
        )
    }
}

/// A character after queueing the triggered abilities of all equipped items
/// for hook `h` onto the pending-ability queue.
pub open spec fn spec_push_triggered(c: CharacterS, h: Hook) -> CharacterS {
    CharacterS { remaining_abilities: c.remaining_abilities + concat_hooks(c.equipped_items, h), ..c }
}

/// A character after taking `dmg` net damage: health drops (floored at 0)
/// and, for positive damage, the "damage taken" hook fires.
pub open spec fn spec_deal_damage(dmg: usize, c: CharacterS) -> CharacterS {
    let c1 = CharacterS { health_current: sat_sub_usize(c.health_current, dmg), ..c };
    if dmg > 0 {
        spec_push_triggered(c1, Hook::DamageTaken)
    } else {
        c1
    }
}

/// A character after restoring `health`, capped at the health maximum.
pub open spec fn spec_restore_health(health: usize, c: CharacterS) -> CharacterS {
    let raised = sat_add_usize(c.health_current, health);
    CharacterS {
        health_current: if raised > c.health_max {
            c.health_max
        } else {
            raised
        },
        ..c
    }
}

/// A character after gaining `stamina`, capped at the stamina maximum.
pub open spec fn spec_gain_stamina(stamina: usize, c: CharacterS) -> CharacterS {
    let raised = sat_add_usize(c.stamina_current, stamina);
    CharacterS {
        stamina_current: if raised > c.stamina_max {
            c.stamina_max
        } else {
            raised
        },
        ..c
    }
}

/// `value * num / den`, rounded to the nearest integer with ties away from
/// zero (meaningful for `den > 0`).
pub open spec fn spec_round_scaled(value: int, num: int, den: int) -> int {
    let p = value * num;
    let ap = if p >= 0 {
        p
    } else {
        -p
    };
    let q = ap / den;
    let r = ap % den;
    let rounded = if 2 * r >= den {
        q + 1
    } else {
        q
    };
    if p >= 0 {
        rounded
    } else {
        -rounded
    }
}

/// A condition grant after one item passive: left unchanged if the passive
/// is restricted to a different condition kind; otherwise the kind is
/// optionally substituted and the value is scaled by the passive's ratio
/// (rounded, ties away from zero) and shifted by its additive term,
/// saturating at the representable bounds.
pub open spec fn spec_apply_modify(
    m: ModifyGainedConditions,
    ce: ConditionEffect,
) -> ConditionEffect {
    if m.applies_only_to is Some && m.applies_only_to->0 != ce.condition_type {
        ce
    } else {
        ConditionEffect {
            condition_type: match m.transform_into {
                Option::Some(k) => k,
                Option::None => ce.condition_type,
            },
            value: clamp_isize(
                spec_round_scaled(
                    ce.value as int,
                    m.multiplicative_num as int,
                    m.multiplicative_den as int,
                ) + m.additive_factor,
            ),
        }
    }
}

/// The condition-modifying passives of `items`, in equip order.
pub open spec fn concat_modifiers(items: Seq<Item>) -> Seq<ModifyGainedConditions>
    decreases items.len(),
{
    if items.len() == 0 {
        Seq::empty()
    } else {
        concat_modifiers(items.drop_last()) + spec_item_data(
            items.last(),
        ).passives.modify_gained_conditions
    }
}

/// A condition grant run through a list of item passives, in order.
pub open spec fn fold_modifiers(mods: Seq<ModifyGainedConditions>, ce: ConditionEffect) -> ConditionEffect
    decreases mods.len(),
{
    if mods.len() == 0 {
        ce
    } else {
        fold_modifiers(mods.drop_first(), spec_apply_modify(mods.first(), ce))
    }
}

/// A character after being granted a condition: the grant is first run
/// through every equipped item's condition-modifying passives in equip
/// order, then added to the condition ledger with saturation.
pub open spec fn spec_apply_condition_effect(ce: ConditionEffect, c: CharacterS) -> CharacterS {
    let final_ce = fold_modifiers(concat_modifiers(c.equipped_items), ce);
    CharacterS {
        conditions: ledger_shift(c.conditions, final_ce.condition_type, final_ce.value as int),
        ..c
    }
}

/// A target and a source character after one effect is applied to the
/// target, inflicted by the (distinct) source. Damage effects additionally
/// inflict the target's `Retaliate` counter back onto the source,
/// unconditionally; lifesteal then restores the source by the net damage.
pub open spec fn spec_apply_effect_to_character(
    e: EffectOnCharacter,
    target: CharacterS,
    source: CharacterS,
) -> (CharacterS, CharacterS) {
    match e {
        EffectOnCharacter::Damage(d) => {
            let nd = spec_net_damage(d, target, source);
            let t1 = spec_deal_damage(nd, target);
            let s1 = spec_deal_damage(t1.conditions[Condition::Retaliate], source);
            (t1, s1)
        },
        EffectOnCharacter::DamageWithLifesteal(d) => {
            let nd = spec_net_damage(d, target, source);
            let t1 = spec_deal_damage(nd, target);
            let s1 = spec_deal_damage(t1.conditions[Condition::Retaliate], source);
            let s2 = spec_restore_health(nd, s1);
            (t1, s2)
        },
        EffectOnCharacter::Heal(h) => (spec_restore_health(h, target), source),
        EffectOnCharacter::Condition(ce) => (spec_apply_condition_effect(ce, target), source),
        EffectOnCharacter::GainStamina(s) => (spec_gain_stamina(s, target), source),
    }
}

/// A character after one effect is applied with "self-inflicted" semantics:
/// the character is both the target and the source of the damage math.
pub open spec fn spec_apply_effect_self(e: EffectOnCharacter, c: CharacterS) -> CharacterS {
    match e {
        EffectOnCharacter::Damage(d) => {
            let nd = spec_net_damage(d, c, c);
            let c1 = spec_deal_damage(nd, c);
            spec_deal_damage(c1.conditions[Condition::Retaliate], c1)
        },
        EffectOnCharacter::DamageWithLifesteal(d) => {
            let nd = spec_net_damage(d, c, c);
            let c1 = spec_deal_damage(nd, c);
            let c2 = spec_deal_damage(c1.conditions[Condition::Retaliate], c1);
            spec_restore_health(nd, c2)
        },
        EffectOnCharacter::Heal(h) => spec_restore_health(h, c),
        EffectOnCharacter::Condition(ce) => spec_apply_condition_effect(ce, c),
        EffectOnCharacter::GainStamina(s) => spec_gain_stamina(s, c),
    }
}

/// A character after an ordered effect list is applied with self-inflicted
/// semantics.
pub open spec fn spec_apply_effects_self(effects: Seq<EffectOnCharacter>, c: CharacterS) -> CharacterS
    decreases effects.len(),
{
    if effects.len() == 0 {
        c
    } else {
        spec_apply_effects_self(effects.drop_first(), spec_apply_effect_self(effects.first(), c))
    }
}

/// A target and a source after an ordered effect list is applied to the
/// target, inflicted by the source.
pub open spec fn spec_apply_effects_pair(
    effects: Seq<EffectOnCharacter>,
    target: CharacterS,
    source: CharacterS,
) -> (CharacterS, CharacterS)
    decreases effects.len(),
{
    if effects.len() == 0 {
        (target, source)
    } else {
        let p = spec_apply_effect_to_character(effects.first(), target, source);
        spec_apply_effects_pair(effects.drop_first(), p.0, p.1)
    }
}

/// The source and the other roster members after `ae` is applied to the
/// members with index at least `i`, in roster order: each member inside the
/// area that passes the filter (both judged at the moment it is reached)
/// receives the whole effect list, inflicted by the current source state.
pub open spec fn spec_apply_area_to_others(
    ae: AreaEffectS,
    target: PosAxial,
    i: int,
    source: CharacterS,
    others: Seq<CharacterS>,
) -> (CharacterS, Seq<CharacterS>)
    decreases others.len() - i,
{
    if i < 0 || i >= others.len() {
        (source, others)
    } else {
        let c = others[i];
        if spec_pos_in_area(c.pos, ae.area, target) && spec_optional_filter_character(
            c,
            ae.filter,
            source,
        ) {
            let p = spec_apply_effects_pair(ae.effects, c, source);
            spec_apply_area_to_others(ae, target, i + 1, p.1, others.update(i, p.0))
        } else {
            spec_apply_area_to_others(ae, target, i + 1, source, others)
        }
    }
}

/// The source and the other roster members after one area effect, centered
/// on `target`: first the source itself (if it lies in the area and passes
/// its own filter, judged self-relative) receives the effect list with
/// self-inflicted semantics; then every qualifying other member receives it,
/// inflicted by the source.
pub open spec fn spec_apply_area_effect(
    ae: AreaEffectS,
    target: PosAxial,
    source: CharacterS,
    others: Seq<CharacterS>,
) -> (CharacterS, Seq<CharacterS>) {
    let source1 = if spec_pos_in_area(source.pos, ae.area, target) && spec_optional_filter_character(
        source,
        ae.filter,
        source,
    ) {
        spec_apply_effects_self(ae.effects, source)
    } else {
        source
    };
    spec_apply_area_to_others(ae, target, 0, source1, others)
}

/// The source and the other roster members after an ordered list of area
/// effects, applied one after the other.
pub open spec fn spec_apply_area_effects(
    effects: Seq<AreaEffectS>,
    target: PosAxial,
    source: CharacterS,
    others: Seq<CharacterS>,
) -> (CharacterS, Seq<CharacterS>)
    decreases effects.len(),
{
    if effects.len() == 0 {
        (source, others)
    } else {
        let p = spec_apply_area_effect(effects.first(), target, source, others);
        spec_apply_area_effects(effects.drop_first(), target, p.0, p.1)
    }
}

/// Retaliation always strikes the attacker back: after a damage effect
/// inflicted on a target, the source has lost exactly the target's
/// `Retaliate` counter from its health (floored at 0) — also when the net
/// damage to the target was reduced all the way to 0 by its defenses.
pub proof fn lemma_retaliation_strikes_source(d: usize, target: CharacterS, source: CharacterS)
    ensures
        spec_apply_effect_to_character(
            EffectOnCharacter::Damage(d),
            target,
            source,
        ).1.health_current == sat_sub_usize(
            source.health_current,
            target.conditions[Condition::Retaliate],
        ),
{
    let nd = spec_net_damage(d, target, source);
    let t1 = spec_deal_damage(nd, target);
    assert(t1.conditions == target.conditions);
    let s1 = spec_deal_damage(t1.conditions[Condition::Retaliate], source);
    assert(s1.health_current == sat_sub_usize(
        source.health_current,
        target.conditions[Condition::Retaliate],
    ));
}

/// The net damage of `gross_damage` dealt to `character` by
/// `source_character` under both characters' current condition ledgers.
pub fn net_damage(gross_damage: usize, character: &Character, source_character: &Character) -> (d:
    usize)
    ensures
        d == spec_net_damage(gross_damage, character@, source_character@),
{
    let strong = source_character.conditions.get(&Condition::Strong);
    let weak = source_character.conditions.get(&Condition::Weak);
    let fragile = character.conditions.get(&Condition::Fragile);
    let fortified = character.conditions.get(&Condition::Fortified);
    let base: i128 = gross_damage as i128 + strong as i128 - weak as i128;
    let base0: u128 = if base < 0 {
        0
    } else {
        base as u128
    };
    let doubled: u128 = if source_character.conditions.has(&Condition::Empowered) {
        2 * base0
    } else {
        base0
    };
    let halved: u128 = if source_character.conditions.has(&Condition::Enfeebled) {
        doubled / 2
    } else {
        doubled
    };
    let total: i128 = halved as i128 + fragile as i128 - fortified as i128;
    if total < 0 {
        0
    } else if total > usize::MAX as i128 {
        usize::MAX
    } else {
        total as usize
    }
}

/// Queues the triggered abilities of every equipped item for hook `hook`
/// onto the character's pending-ability queue, in equip order.
pub fn push_triggered_abilities(character: &mut Character, hook: Hook)
    ensures
        final(character)@ == spec_push_triggered(old(character)@, hook),
{
    let ghost items = character.equipped_items@;
    let n = character.equipped_items.len();
    for i in 0..n
        invariant
            n == character.equipped_items@.len(),
            items == character.equipped_items@,
            character@ == (CharacterS {
                remaining_abilities: character@.remaining_abilities,
                ..old(character)@
            }),
            character@.remaining_abilities == old(character)@.remaining_abilities + concat_hooks(
                items.take(i as int),
                hook,
            ),
    {
        let item = character.equipped_items[i];
        let data = item.data();
        let triggered = data.triggered_abilities;
        let ghost triggered_view = triggered@;
        let mut list: Vec<crate::data_model::Ability> = match hook {
            Hook::DamageTaken => triggered.damage_taken,
            Hook::AttackAction => triggered.attack_action,
            Hook::MovementAction => triggered.movement_action,
            Hook::BeginningOfTurn => triggered.beginning_of_turn,
            Hook::EndOfTurn => triggered.end_of_turn,
        };
        proof {
            assert(abilities_model(list@) == hook_list(triggered_view, hook));
        }
        let ghost before = character.remaining_abilities@;
        character.remaining_abilities.append(&mut list);
        proof {
            assert(abilities_model(character.remaining_abilities@) =~= abilities_model(before)
                + hook_list(triggered_view, hook));
            assert(items.take(i + 1).drop_last() =~= items.take(i as int));
            assert(items.take(i + 1).last() == items[i as int]);
        }
    }
    proof {
        assert(items.take(n as int) =~= items);
        assert(final(character)@ =~= spec_push_triggered(old(character)@, hook));
    }
}

/// Deals `net_damage` to the character: health drops (floored at 0) and,
/// for positive damage, the "damage taken" hook fires.
pub fn deal_damage(net_damage: usize, character: &mut Character)
    ensures
        final(character)@ == spec_deal_damage(net_damage, old(character)@),
{
    character.health_current = character.health_current.saturating_sub(net_damage);
    if net_damage > 0 {
        push_triggered_abilities(character, Hook::DamageTaken);
    }
}

/// Restores `health` to the character, capped at the health maximum.
pub fn restore_health(health: usize, character: &mut Character)
    ensures
        final(character)@ == spec_restore_health(health, old(character)@),
{
    let raised = character.health_current.saturating_add(health);
    character.health_current = if raised > character.health_max {
        character.health_max
    } else {
        raised
    };
}

/// A condition grant after one item passive.
pub fn apply_modify_gained_conditions(
    modify_gained_conditions: &ModifyGainedConditions,
    condition_effect: ConditionEffect,
) -> (r: ConditionEffect)
    requires
        modify_gained_conditions.multiplicative_den > 0,
    ensures
        r == spec_apply_modify(*modify_gained_conditions, condition_effect),
{
    let restricted_elsewhere = match modify_gained_conditions.applies_only_to {
        Option::Some(k) => k != condition_effect.condition_type,
        Option::None => false,
    };
    if restricted_elsewhere {
        condition_effect
    } else {
        let value = condition_effect.value;
        let num = modify_gained_conditions.multiplicative_num;
        proof {
            assert((value as int) * (num as int)
                <= 0x4000_0000_0000_0000_0000_0000_0000_0000int && (value as int) * (num as int)
                >= -0x4000_0000_0000_0000_0000_0000_0000_0000int) by (nonlinear_arith)
                requires
                    -0x8000_0000_0000_0000 <= value as int <= 0x7fff_ffff_ffff_ffff,
                    -0x8000_0000_0000_0000 <= num as int <= 0x7fff_ffff_ffff_ffff,
            ;
        }
        let p: i128 = value as i128 * num as i128;
        let den: u128 = modify_gained_conditions.multiplicative_den as u128;
        let ap: u128 = if p >= 0 {
            p as u128
        } else {
            (-p) as u128
        };
        let q: u128 = ap / den;
        let rem: u128 = ap % den;
        proof {
            vstd::arithmetic::div_mod::lemma_div_basics_5(ap as int, den as int);
        }
        let rounded_magnitude: u128 = if 2 * rem >= den {
            q + 1
        } else {
            q
        };
        let rounded: i128 = if p >= 0 {
            rounded_magnitude as i128
        } else {
            -(rounded_magnitude as i128)
        };
        let total: i128 = rounded + modify_gained_conditions.additive_factor as i128;
        let value: isize = if total < isize::MIN as i128 {
            isize::MIN
        } else if total > isize::MAX as i128 {
            isize::MAX
        } else {
            total as isize
        };
        let condition_type = match modify_gained_conditions.transform_into {
            Option::Some(k) => k,
            Option::None => condition_effect.condition_type,
        };
        ConditionEffect { condition_type, value }
    }
}

/// Grants a condition to the character: the grant is first run through every
/// equipped item's condition-modifying passives in equip order, then added
/// to the condition ledger with saturation.
pub fn apply_condition_effect(condition_effect: &ConditionEffect, character: &mut Character)
    ensures
        final(character)@ == spec_apply_condition_effect(*condition_effect, old(character)@),
{
    let ghost items = character.equipped_items@;
    let mut mods: Vec<ModifyGainedConditions> = Vec::new();
    let n = character.equipped_items.len();
    proof {
        assert(mods@ =~= concat_modifiers(items.take(0)));
    }
    for i in 0..n
        invariant
            n == character.equipped_items@.len(),
            items == character.equipped_items@,
            mods@ == concat_modifiers(items.take(i as int)),
            forall|k: int| 0 <= k < mods@.len() ==> (#[trigger] mods@[k]).multiplicative_den > 0,
    {
        let item = character.equipped_items[i];
        let data = item.data();
        let mut list = data.passives.modify_gained_conditions;
        proof {
            lemma_item_modifier_dens(items[i as int]);
        }
        mods.append(&mut list);
        proof {
            assert(items.take(i + 1).drop_last() =~= items.take(i as int));
            assert(items.take(i + 1).last() == items[i as int]);
            assert(mods@ =~= concat_modifiers(items.take(i + 1)));
        }
    }
    proof {
        assert(items.take(n as int) =~= items);
    }
    let ghost all_mods = mods@;
    let ghost ce0 = *condition_effect;
    let mut ce = *condition_effect;
    let m = mods.len();
    proof {
        assert(all_mods.skip(0) =~= all_mods);
    }
    for j in 0..m
        invariant
            m == mods@.len(),
            all_mods == mods@,
            forall|k: int| 0 <= k < mods@.len() ==> (#[trigger] mods@[k]).multiplicative_den > 0,
            fold_modifiers(all_mods.skip(j as int), ce) == fold_modifiers(all_mods, ce0),
    {
        proof {
            assert(all_mods.skip(j as int).first() == all_mods[j as int]);
            assert(all_mods.skip(j as int).drop_first() =~= all_mods.skip(j + 1));
        }
        ce = apply_modify_gained_conditions(&mods[j], ce);
    }
    proof {
        assert(all_mods.skip(m as int) =~= Seq::<ModifyGainedConditions>::empty());
        assert(ce == fold_modifiers(concat_modifiers(character@.equipped_items), ce0));
    }
    character.conditions.increment(ce.condition_type, ce.value);
}

/// Applies one effect to `character`, inflicted by the distinct
/// `source_character`: damage effects inflict the target's `Retaliate`
/// counter back onto the source, and lifesteal restores the source by the
/// net damage dealt.
pub fn apply_effect_to_character(
    effect: &EffectOnCharacter,
    character: &mut Character,
    source_character: &mut Character,
) -> (unit: ())
    ensures
        ({
            let p = spec_apply_effect_to_character(
                *effect,
                old(character)@,
                old(source_character)@,
            );
            final(character)@ == p.0 && final(source_character)@ == p.1
        }),
{
    match effect {
        EffectOnCharacter::Damage(damage) => {
            let nd = net_damage(*damage, character, source_character);
            deal_damage(nd, character);
            let retaliation = character.conditions.get(&Condition::Retaliate);
            deal_damage(retaliation, source_character);
        },
        EffectOnCharacter::DamageWithLifesteal(damage) => {
            let nd = net_damage(*damage, character, source_character);
            deal_damage(nd, character);
            let retaliation = character.conditions.get(&Condition::Retaliate);
            deal_damage(retaliation, source_character);
            restore_health(nd, source_character);
        },
        EffectOnCharacter::Heal(health) => {
            restore_health(*health, character);
        },
        EffectOnCharacter::Condition(condition) => {
            apply_condition_effect(condition, character);
        },
        EffectOnCharacter::GainStamina(stamina) => {
            let raised = character.stamina_current.saturating_add(*stamina);
            character.stamina_current = if raised > character.stamina_max {
                character.stamina_max
            } else {
                raised
            };
        },
    }
}

/// Applies one effect to `character` with self-inflicted semantics: the
/// character is both the target and the source of the damage math, and any
/// retaliation comes back onto itself.
pub fn apply_effect_to_character_with_same_source_character(
    effect: &EffectOnCharacter,
    character: &mut Character,
)
    ensures
        final(character)@ == spec_apply_effect_self(*effect, old(character)@),
{
    match effect {
        EffectOnCharacter::Damage(damage) => {
            let nd = net_damage(*damage, character, character);
            deal_damage(nd, character);
            let retaliation = character.conditions.get(&Condition::Retaliate);
            deal_damage(retaliation, character);
        },
        EffectOnCharacter::DamageWithLifesteal(damage) => {
            let nd = net_damage(*damage, character, character);
            deal_damage(nd, character);
            let retaliation = character.conditions.get(&Condition::Retaliate);
            deal_damage(retaliation, character);
            restore_health(nd, character);
        },
        EffectOnCharacter::Heal(health) => {
            restore_health(*health, character);
        },
        EffectOnCharacter::Condition(condition) => {
            apply_condition_effect(condition, character);
        },
        EffectOnCharacter::GainStamina(stamina) => {
            let raised = character.stamina_current.saturating_add(*stamina);
            character.stamina_current = if raised > character.stamina_max {
                character.stamina_max
            } else {
                raised
            };
        },
    }
}

/// Applies one area effect centered on `target`: first to the source itself
/// (if it qualifies, self-relative), then to every other qualifying roster
/// member in roster order, inflicted by the source.
pub fn apply_area_effect(
    area_effect: &AreaEffect,
    target: &PosAxial,
    source_character: &mut Character,
    other_characters: &mut Vec<Character>,
)
    ensures
        ({
            let p = spec_apply_area_effect(
                area_effect@,
                *target,
                old(source_character)@,
                roster_model(old(other_characters)@),
            );
            final(source_character)@ == p.0 && roster_model(final(other_characters)@) == p.1
        }),
        final(other_characters)@.len() == old(other_characters)@.len(),
{
    let ghost ae = area_effect@;
    let self_in_area = pos_in_area(&source_character.pos, &area_effect.area, target);
    let self_passes = match &area_effect.filter {
        Option::Some(filter) => filter_character(source_character, filter, source_character),
        Option::None => true,
    };
    if self_in_area && self_passes {
        let ghost effects_view = area_effect.effects@;
        let ghost source0 = source_character@;
        let k = area_effect.effects.len();
        proof {
            assert(effects_view.skip(0) =~= effects_view);
        }
        for j in 0..k
            invariant
                k == area_effect.effects@.len(),
                effects_view == area_effect.effects@,
                spec_apply_effects_self(effects_view.skip(j as int), source_character@)
                    == spec_apply_effects_self(effects_view, source0),
        {
            proof {
                assert(effects_view.skip(j as int).first() == effects_view[j as int]);
                assert(effects_view.skip(j as int).drop_first() =~= effects_view.skip(j + 1));
            }
            apply_effect_to_character_with_same_source_character(
                &area_effect.effects[j],
                source_character,
            );
        }
        proof {
            assert(effects_view.skip(k as int) =~= Seq::<EffectOnCharacter>::empty());
        }
    }
    let ghost source1 = source_character@;
    let ghost others0 = roster_model(other_characters@);
    let n = other_characters.len();
    for i in 0..n
        invariant
            n == other_characters@.len(),
            ae == area_effect@,
            spec_apply_area_to_others(
                ae,
                *target,
                i as int,
                source_character@,
                roster_model(other_characters@),
            ) == spec_apply_area_to_others(ae, *target, 0, source1, others0),
    {
        let in_area = pos_in_area(&other_characters[i].pos, &area_effect.area, target);
        let passes = match &area_effect.filter {
            Option::Some(filter) => filter_character(
                &other_characters[i],
                filter,
                source_character,
            ),
            Option::None => true,
        };
        if in_area && passes {
            let ghost roster_before = roster_model(other_characters@);
            let ghost source_before = source_character@;
            let mut c = other_characters.remove(i);
            let ghost effects_view = area_effect.effects@;
            let k = area_effect.effects.len();
            proof {
                assert(c@ == roster_before[i as int]);
                assert(effects_view.skip(0) =~= effects_view);
            }
            for j in 0..k
                invariant
                    k == area_effect.effects@.len(),
                    effects_view == area_effect.effects@,
                    spec_apply_effects_pair(
                        effects_view.skip(j as int),
                        c@,
                        source_character@,
                    ) == spec_apply_effects_pair(effects_view, roster_before[i as int], source_before),
            {
                proof {
                    assert(effects_view.skip(j as int).first() == effects_view[j as int]);
                    assert(effects_view.skip(j as int).drop_first() =~= effects_view.skip(j + 1));
                }
                apply_effect_to_character(&area_effect.effects[j], &mut c, source_character);
            }
            proof {
                assert(effects_view.skip(k as int) =~= Seq::<EffectOnCharacter>::empty());
            }
            other_characters.insert(i, c);
            proof {
                assert(roster_model(other_characters@) =~= roster_before.update(i as int, c@));
            }
        }
        proof {
            assert(roster_model(other_characters@).len() == n);
        }
    }
    proof {
        assert(spec_apply_area_to_others(
            ae,
            *target,
            n as int,
            source_character@,
            roster_model(other_characters@),
        ) == (source_character@, roster_model(other_characters@)));
    }
}

/// Applies an ordered list of area effects centered on `target`, one after
/// the other, each to the source and then to the rest of the roster.
pub fn apply_area_effects(
    effects: &Vec<AreaEffect>,
    target: &PosAxial,
    characters: &mut Vec<Character>,
    source_character: &mut Character,
)
    ensures
        ({
            let p = spec_apply_area_effects(
                area_effects_model(effects@),
                *target,
                old(source_character)@,
                roster_model(old(characters)@),
            );
            final(source_character)@ == p.0 && roster_model(final(characters)@) == p.1
        }),
        final(characters)@.len() == old(characters)@.len(),
{
    let ghost effects_view = area_effects_model(effects@);
    let ghost source0 = source_character@;
    let ghost others0 = roster_model(characters@);
    let n = effects.len();
    proof {
        assert(effects_view.skip(0) =~= effects_view);
    }
    for i in 0..n
        invariant
            n == effects@.len(),
            characters@.len() == old(characters)@.len(),
            effects_view == area_effects_model(effects@),
            spec_apply_area_effects(
                effects_view.skip(i as int),
                *target,
                source_character@,
                roster_model(characters@),
            ) == spec_apply_area_effects(effects_view, *target, source0, others0),
    {
        proof {
            assert(effects_view.skip(i as int).first() == effects_view[i as int]);
            assert(effects_view.skip(i as int).drop_first() =~= effects_view.skip(i + 1));
        }
        apply_area_effect(&effects[i], target, source_character, characters);
    }
    proof {
        assert(effects_view.skip(n as int) =~= Seq::<AreaEffectS>::empty());
    }
}

} // verus!
