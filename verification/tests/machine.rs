//! Tests of the turn-order state machine: action resolution against a
//! scripted input source, cancellation discipline, and turn handover.

use hexcombat::cards::Card;
use hexcombat::data_model::{
    Ability, Action, ActionMovement, ActionOnSelf, ActionTargeted, Character, Condition,
    ConditionEffect, Conditions, EffectOnCharacter,
};
use hexcombat::hex_grid::PosAxial;
use hexcombat::play_state::{
    step_play_state, Cancelable, Input, PendingInput, PlayCardOrEndTurn, PlayState,
};
use hexcombat::resolve_action::{ActionInputMovement, ActionInputOnSelf, ActionInputTargeted};

/// A scripted input source: self actions are cancelled while `cancel` is
/// set and confirmed otherwise; targeted and movement actions get fixed
/// inputs; the turn holder's decision is scripted per call.
struct ScriptedInput {
    cancel: bool,
    cancelable_polls: usize,
    target: PosAxial,
    decisions: Vec<Option<PlayCardOrEndTurn>>,
}

impl Input for ScriptedInput {
    fn poll_action_input_on_self(&mut self, _action: &ActionOnSelf) -> PendingInput<ActionInputOnSelf> {
        PendingInput::Ready(ActionInputOnSelf {})
    }
    fn poll_action_input_targeted(
        &mut self,
        _action: &ActionTargeted,
    ) -> PendingInput<ActionInputTargeted> {
        PendingInput::Ready(ActionInputTargeted {
            target: self.target,
        })
    }
    fn poll_action_input_movement(
        &mut self,
        _action: &ActionMovement,
    ) -> PendingInput<ActionInputMovement> {
        PendingInput::Ready(ActionInputMovement { path: Vec::new() })
    }
    fn poll_action_input_on_self_cancelable(
        &mut self,
        _action: &ActionOnSelf,
    ) -> PendingInput<Cancelable<ActionInputOnSelf>> {
        self.cancelable_polls += 1;
        if self.cancel {
            PendingInput::Ready(Cancelable::Canceled)
        } else {
            PendingInput::Ready(Cancelable::Confirmed(ActionInputOnSelf {}))
        }
    }
    fn poll_action_input_targeted_cancelable(
        &mut self,
        _action: &ActionTargeted,
    ) -> PendingInput<Cancelable<ActionInputTargeted>> {
        self.cancelable_polls += 1;
        if self.cancel {
            PendingInput::Ready(Cancelable::Canceled)
        } else {
            PendingInput::Ready(Cancelable::Confirmed(ActionInputTargeted {
                target: self.target,
            }))
        }
    }
    fn poll_action_input_movement_cancelable(
        &mut self,
        _action: &ActionMovement,
    ) -> PendingInput<Cancelable<ActionInputMovement>> {
        self.cancelable_polls += 1;
        if self.cancel {
            PendingInput::Ready(Cancelable::Canceled)
        } else {
            PendingInput::Ready(Cancelable::Confirmed(ActionInputMovement {
                path: Vec::new(),
            }))
        }
    }
    fn poll_play_card_or_end_turn(&mut self) -> PendingInput<PlayCardOrEndTurn> {
        match self.decisions.pop() {
            Some(Some(decision)) => PendingInput::Ready(decision),
            _ => PendingInput::Pending,
        }
    }
}

fn scripted(cancel: bool) -> ScriptedInput {
    ScriptedInput {
        cancel,
        cancelable_polls: 0,
        target: PosAxial::new(0, 0),
        decisions: Vec::new(),
    }
}

fn grant_self_action(condition: Condition) -> Action {
    Action::OnSelf(ActionOnSelf {
        effects: vec![hexcombat::data_model::AreaEffect {
            effects: vec![EffectOnCharacter::Condition(ConditionEffect {
                condition_type: condition,
                value: 1,
            })],
            ..Default::default()
        }],
    })
}

fn three_action_ability() -> Ability {
    Ability {
        precondition: None,
        actions: vec![
            grant_self_action(Condition::Strong),
            grant_self_action(Condition::Fast),
            grant_self_action(Condition::Fortified),
        ],
    }
}

#[test]
fn test_cancel_before_first_action_clears_ability() {
    let mut roster = vec![Character {
        remaining_abilities: vec![three_action_ability()],
        ..Default::default()
    }];
    let mut state = PlayState::default();
    let mut input = scripted(true);

    // The first step loads the ability; the second polls the (cancelable)
    // first action and is told to cancel, which clears the whole queue.
    step_play_state(&mut state, &mut input, &mut roster);
    step_play_state(&mut state, &mut input, &mut roster);

    assert_eq!(input.cancelable_polls, 1);
    assert_eq!(roster[0].conditions.get(&Condition::Strong), 0);
    assert_eq!(roster[0].conditions.get(&Condition::Fast), 0);
    assert_eq!(roster[0].conditions.get(&Condition::Fortified), 0);
    assert!(state.remaining_actions.is_empty());
}

#[test]
fn test_no_cancel_after_first_action_resolved() {
    let mut roster = vec![Character {
        remaining_abilities: vec![three_action_ability()],
        ..Default::default()
    }];
    let mut state = PlayState::default();
    let mut input = scripted(false);

    // Load the ability, then confirm the first action.
    step_play_state(&mut state, &mut input, &mut roster);
    step_play_state(&mut state, &mut input, &mut roster);
    assert_eq!(input.cancelable_polls, 1);
    assert_eq!(roster[0].conditions.get(&Condition::Strong), 1);

    // From now on the input source would cancel if it were asked — but the
    // remaining actions of the ability are no longer cancelable, so the
    // engine never asks and resolves them all.
    input.cancel = true;
    step_play_state(&mut state, &mut input, &mut roster);
    step_play_state(&mut state, &mut input, &mut roster);

    assert_eq!(input.cancelable_polls, 1);
    assert_eq!(roster[0].conditions.get(&Condition::Fast), 1);
    assert_eq!(roster[0].conditions.get(&Condition::Fortified), 1);
    assert!(state.remaining_actions.is_empty());
}

#[test]
fn test_empowered_strong_melee_deals_fourteen() {
    // End to end through the state machine: Empowered with Strong(2), a
    // 5-damage melee attack against an undefended adjacent target:
    // (5 + 2) * 2 = 14.
    let attacker = Character {
        stamina_current: 10,
        conditions: Conditions::default()
            .with_incremented(Condition::Strong, 2)
            .with_incremented(Condition::Empowered, 1),
        ..Default::default()
    };
    let target_pos = PosAxial::new(0, 1);
    let target = Character {
        pos: target_pos,
        health_current: 20,
        health_max: 20,
        ..Default::default()
    };
    let mut roster = vec![attacker, target];
    let mut state = PlayState::default();
    let mut input = ScriptedInput {
        cancel: false,
        cancelable_polls: 0,
        target: target_pos,
        decisions: vec![Some(PlayCardOrEndTurn::PlayCard(Card::Strike.data()))],
    };

    // First step: nothing queued anywhere, the turn holder plays Strike.
    step_play_state(&mut state, &mut input, &mut roster);
    // Second step: the search finds the queued attack ability.
    step_play_state(&mut state, &mut input, &mut roster);
    // Third step: the (cancelable) targeted action is confirmed with the
    // target point and resolves.
    step_play_state(&mut state, &mut input, &mut roster);

    assert_eq!(roster[1].health_current, 20 - 14);
    assert_eq!(roster[0].health_current, 0);
}

#[test]
fn test_end_turn_hands_over_and_decays() {
    // Ending the turn ticks Poison on the holder, rolls its statistics, and
    // decays the next holder's conditions at its turn start.
    let first = Character {
        health_current: 10,
        health_max: 10,
        conditions: Conditions::default().with_incremented(Condition::Poison, 3),
        ..Default::default()
    };
    let second = Character {
        pos: PosAxial::new(5, 5),
        conditions: Conditions::default().with_incremented(Condition::Fortified, 2),
        ..Default::default()
    };
    let mut roster = vec![first, second];
    let mut state = PlayState::default();
    let mut input = ScriptedInput {
        cancel: false,
        cancelable_polls: 0,
        target: PosAxial::new(0, 0),
        decisions: vec![Some(PlayCardOrEndTurn::EndTurn)],
    };

    step_play_state(&mut state, &mut input, &mut roster);

    assert_eq!(roster[0].health_current, 7);
    assert_eq!(roster[0].conditions.get(&Condition::Poison), 3);
    assert_eq!(roster[1].conditions.get(&Condition::Fortified), 1);
    assert_eq!(state.has_turn, 1);
}

#[test]
fn test_pending_decision_changes_nothing() {
    let mut roster = vec![Character {
        health_current: 5,
        ..Default::default()
    }];
    let mut state = PlayState::default();
    let mut input = scripted(false);

    step_play_state(&mut state, &mut input, &mut roster);

    assert_eq!(roster[0].health_current, 5);
    assert!(state.remaining_actions.is_empty());
    assert_eq!(state.has_turn, 0);
}
