//! Resolving one atomic action against its externally supplied input: a
//! self action centers its effects on the actor, a targeted action centers
//! them on the supplied target point (counting an attack and firing the
//! attack hook), and a movement action walks the supplied path.

use crate::apply_area_effects::{
    apply_area_effects, push_triggered_abilities, spec_apply_area_effects, spec_push_triggered,
};
use crate::data_model::{
    roster_model, ActionMovement, ActionOnSelf, ActionTargeted, ActionTargetedS, AreaEffectS,
    Character, CharacterS, Hook,
};
use crate::hex_grid::PosAxial;
use crate::movement::{perform_movement_unchecked, spec_perform_movement};
use crate::turn_stats::{stats_bump, TurnStat};
use vstd::prelude::*;

verus! {

/// The input a self action needs: a bare confirmation.
#[derive(Debug, Clone, Copy)]
pub struct ActionInputOnSelf {}

/// The input a targeted action needs: the target point.
#[derive(Debug, Clone, Copy)]
pub struct ActionInputTargeted {
    pub target: PosAxial,
}

/// The input a movement action needs: a path of unit steps.
#[derive(Debug)]
pub struct ActionInputMovement {
    pub path: Vec<PosAxial>,
}

impl Clone for ActionInputMovement {
    /// An identical copy of the path.
    fn clone(&self) -> (r: Self)
        ensures
            r.path@ == self.path@,
    {
        let mut path: Vec<PosAxial> = Vec::new();
        let n = self.path.len();
        for i in 0..n
            invariant
                n == self.path@.len(),
                path@ == self.path@.take(i as int),
        {
            path.push(self.path[i]);
            proof {
                assert(path@ =~= self.path@.take(i + 1));
            }
        }
        proof {
            assert(self.path@.take(n as int) =~= self.path@);
        }
        ActionInputMovement { path }
    }
}

/// The source and the other roster members after a self action: its area
/// effects are applied centered on the actor's own position.
pub open spec fn spec_resolve_action_on_self(
    effects: Seq<AreaEffectS>,
    src: CharacterS,
    others: Seq<CharacterS>,
) -> (CharacterS, Seq<CharacterS>) {
    spec_apply_area_effects(effects, src.pos, src, others)
}

/// The source and the other roster members after a targeted action: its
/// area effects are applied centered on the target point, then the actor's
/// attack-actions statistic grows by one and the attack hook fires.
pub open spec fn spec_resolve_action_targeted(
    action: ActionTargetedS,
    target: PosAxial,
    src: CharacterS,
    others: Seq<CharacterS>,
) -> (CharacterS, Seq<CharacterS>) {
    let p = spec_apply_area_effects(action.effects, target, src, others);
    let counted = CharacterS {
        turn_stats: stats_bump(p.0.turn_stats, TurnStat::AttackActions, 1),
        ..p.0
    };
    (spec_push_triggered(counted, Hook::AttackAction), p.1)
}

/// Resolves a movement action: walks the supplied path (unit steps only)
/// and fires the movement hook.
pub fn resolve_action_movement(
    action: &ActionMovement,
    input: &ActionInputMovement,
    character: &mut Character,
)
    ensures
        final(character)@ == spec_perform_movement(old(character)@, input.path@),
{
    let _ = action;
    perform_movement_unchecked(character, &input.path);
}

/// Resolves a targeted action against the supplied target point.
pub fn resolve_action_targeted(
    action: &ActionTargeted,
    input: &ActionInputTargeted,
    character: &mut Character,
    characters: &mut Vec<Character>,
)
    ensures
        ({
            let p = spec_resolve_action_targeted(
                action@,
                input.target,
                old(character)@,
                roster_model(old(characters)@),
            );
            final(character)@ == p.0 && roster_model(final(characters)@) == p.1
        }),
        final(characters)@.len() == old(characters)@.len(),
{
    apply_area_effects(&action.effects, &input.target, characters, character);
    character.turn_stats.add_to_current(TurnStat::AttackActions, 1);
    push_triggered_abilities(character, Hook::AttackAction);
}

/// Resolves a self action: applies its area effects centered on the actor's
/// own position.
pub fn resolve_action_on_self(
    action: &ActionOnSelf,
    character: &mut Character,
    characters: &mut Vec<Character>,
)
    ensures
        ({
            let p = spec_resolve_action_on_self(
                action@,
                old(character)@,
                roster_model(old(characters)@),
            );
            final(character)@ == p.0 && roster_model(final(characters)@) == p.1
        }),
        final(characters)@.len() == old(characters)@.len(),
{
    let target = character.pos;
    apply_area_effects(&action.effects, &target, characters, character);
}

} // verus!
