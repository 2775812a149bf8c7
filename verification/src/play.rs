//! Playing a card and the turn-boundary bookkeeping: turn-end damage and
//! heal ticks, statistic rollover, and turn-start condition decay, each with
//! its triggered-ability hook.

use crate::apply_area_effects::{
    deal_damage, push_triggered_abilities, restore_health, sat_sub_usize, spec_deal_damage,
    spec_push_triggered, spec_restore_health,
};
use crate::data_model::{CardData, CardDataS, Character, CharacterS, Condition, Hook};
use crate::enum_map::{ledger_decay, ledger_empty};
use vstd::prelude::*;

verus! {

/// A character after playing a card: the stamina cost is deducted (floored
/// at 0 — affordability is deliberately not validated here, it is the
/// caller's responsibility) and the card's abilities are queued.
pub open spec fn spec_play_card(c: CharacterS, card: CardDataS) -> CharacterS {
    CharacterS {
        stamina_current: sat_sub_usize(c.stamina_current, card.stamina_cost),
        remaining_abilities: c.remaining_abilities + card.abilities,
        ..c
    }
}

/// A character at the end of its turn: Poison ticks as damage, Regen ticks
/// as healing, the per-turn statistics roll over to a fresh entry, and the
/// end-of-turn hook fires.
pub open spec fn spec_end_turn(c: CharacterS) -> CharacterS {
    let c1 = spec_deal_damage(c.conditions[Condition::Poison], c);
    let c2 = spec_restore_health(c1.conditions[Condition::Regen], c1);
    let c3 = CharacterS { turn_stats: c2.turn_stats.push(ledger_empty()), ..c2 };
    spec_push_triggered(c3, Hook::EndOfTurn)
}

/// A character at the beginning of its turn: every condition decays by 1
/// (floored at 0), then the beginning-of-turn hook fires.
pub open spec fn spec_begin_turn(c: CharacterS) -> CharacterS {
    spec_push_triggered(
        CharacterS { conditions: ledger_decay(c.conditions), ..c },
        Hook::BeginningOfTurn,
    )
}

/// Plays a card: deducts its stamina cost (floored at 0; affordability is
/// deliberately not validated by the engine) and pushes the card's abilities
/// onto the character's pending queue. Returns how many abilities were
/// gained.
pub fn play_card_unchecked(character: &mut Character, card_data: CardData) -> (n: usize)
    ensures
        final(character)@ == spec_play_card(old(character)@, card_data@),
        n == card_data@.abilities.len(),
{
    character.stamina_current = character.stamina_current.saturating_sub(card_data.stamina_cost);
    let mut abilities = card_data.abilities;
    let number_of_abilities_gained = abilities.len();
    let ghost before = character.remaining_abilities@;
    let ghost gained = abilities@;
    character.remaining_abilities.append(&mut abilities);
    proof {
        assert(crate::data_model::abilities_model(character.remaining_abilities@)
            =~= crate::data_model::abilities_model(before) + crate::data_model::abilities_model(
            gained,
        ));
    }
    number_of_abilities_gained
}

/// Applies the turn-end ticks to the character: Poison damage, Regen
/// healing, statistic rollover, and the end-of-turn hook.
pub fn end_turn(character: &mut Character)
    ensures
        final(character)@ == spec_end_turn(old(character)@),
{
    let poison = character.conditions.get(&Condition::Poison);
    deal_damage(poison, character);
    let regen = character.conditions.get(&Condition::Regen);
    restore_health(regen, character);
    character.turn_stats.end_turn();
    push_triggered_abilities(character, Hook::EndOfTurn);
}

/// Applies the turn-start bookkeeping to the character: every condition
/// decays by 1, then the beginning-of-turn hook fires.
pub fn begin_turn(character: &mut Character)
    ensures
        final(character)@ == spec_begin_turn(old(character)@),
{
    character.conditions.decrement_all();
    push_triggered_abilities(character, Hook::BeginningOfTurn);
}

} // verus!
