//! Movement resolution: a path of unit steps moves the character hex by
//! hex, counts moved spaces, and fires the movement hook once at the end.

use crate::apply_area_effects::{push_triggered_abilities, spec_push_triggered};
use crate::data_model::{Character, CharacterS, Hook};
use crate::hex_grid::{distance, spec_distance, PosAxial};
use crate::turn_stats::{stats_bump, TurnStat};
use vstd::prelude::*;

verus! {

/// A character after one path step: if the step is exactly hex-adjacent to
/// the current position, the character moves there and the moved-spaces
/// statistic of the current turn grows by one; any other step is ignored
/// (callers are responsible for supplying paths of unit steps).
pub open spec fn spec_apply_step(c: CharacterS, step: PosAxial) -> CharacterS {
    if spec_distance(c.pos, step) == 1 {
        CharacterS { pos: step, turn_stats: stats_bump(c.turn_stats, TurnStat::SpacesMoved, 1), ..c }
    } else {
        c
    }
}

/// A character after a whole path of steps, applied in order.
pub open spec fn spec_apply_path(c: CharacterS, path: Seq<PosAxial>) -> CharacterS
    decreases path.len(),
{
    if path.len() == 0 {
        c
    } else {
        spec_apply_path(spec_apply_step(c, path.first()), path.drop_first())
    }
}

/// A character after performing a movement: the path is applied step by
/// step, then the movement hook fires once (also for an empty path).
pub open spec fn spec_perform_movement(c: CharacterS, path: Seq<PosAxial>) -> CharacterS {
    spec_push_triggered(spec_apply_path(c, path), Hook::MovementAction)
}

/// Moves the character along `path`, applying each step only if it is
/// exactly hex-adjacent to the current position (callers are responsible
/// for supplying valid paths), then fires the movement hook once.
pub fn perform_movement_unchecked(character: &mut Character, path: &Vec<PosAxial>)
    ensures
        final(character)@ == spec_perform_movement(old(character)@, path@),
{
    let ghost path_view = path@;
    let ghost c0 = old(character)@;
    let n = path.len();
    proof {
        assert(path_view.skip(0) =~= path_view);
    }
    for i in 0..n
        invariant
            n == path@.len(),
            path_view == path@,
            spec_apply_path(character@, path_view.skip(i as int)) == spec_apply_path(
                c0,
                path_view,
            ),
    {
        proof {
            assert(path_view.skip(i as int).first() == path_view[i as int]);
            assert(path_view.skip(i as int).drop_first() =~= path_view.skip(i + 1));
        }
        let step = path[i];
        if distance(&character.pos, &step) == 1 {
            character.pos = step;
            character.turn_stats.add_to_current(TurnStat::SpacesMoved, 1);
        }
    }
    proof {
        assert(path_view.skip(n as int) =~= Seq::<PosAxial>::empty());
    }
    push_triggered_abilities(character, Hook::MovementAction);
}

} // verus!
