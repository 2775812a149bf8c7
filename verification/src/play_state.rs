//! The turn-order state machine: one step either resolves the next queued
//! action against polled input, searches the roster round-robin for the next
//! eligible queued ability, or lets the turn holder play a card or end the
//! turn. Polling never blocks: a "pending" poll leaves the state unchanged.
//!
//! What the external input source returns cannot be known in advance, so the
//! contract of [`step_play_state`] is relational: the new state is exactly
//! [`spec_step`] of the old state under *some* admissible event
//! ([`event_fits`]).

use crate::data_model::{
    actions_model, roster_model, Action, ActionMovement, ActionOnSelf, ActionS, ActionTargeted,
    CardData, CardDataS, Character, CharacterS,
};
use crate::hex_grid::PosAxial;
use crate::play::{
    begin_turn, end_turn, play_card_unchecked, spec_begin_turn, spec_end_turn, spec_play_card,
};
use crate::pop_ability::{pop_ability_ignore_unsatisfied, spec_pop_ability_ignore_unsatisfied};
use crate::resolve_action::{
    resolve_action_movement, resolve_action_on_self, resolve_action_targeted, ActionInputMovement,
    ActionInputOnSelf, ActionInputTargeted,
};
use vstd::prelude::*;

verus! {

/// The turn holder's explicit choice: play a card or end the turn.
pub enum PlayCardOrEndTurn {
    PlayCard(CardData),
    EndTurn,
}

/// A polled value that the user may still cancel.
pub enum Cancelable<T> {
    Confirmed(T),
    Canceled,
}

/// A polled value that may not be available yet.
pub enum PendingInput<T> {
    Ready(T),
    Pending,
}

/// The external input source. It is polled, never blocking, and nothing is
/// assumed about what it returns: the engine's contract holds for every
/// implementation.
pub trait Input {
    /// The confirmation for a self action.
    fn poll_action_input_on_self(&mut self, action: &ActionOnSelf) -> PendingInput<
        ActionInputOnSelf,
    >;

    /// The target point for a targeted action.
    fn poll_action_input_targeted(&mut self, action: &ActionTargeted) -> PendingInput<
        ActionInputTargeted,
    >;

    /// The path for a movement action.
    fn poll_action_input_movement(&mut self, action: &ActionMovement) -> PendingInput<
        ActionInputMovement,
    >;

    /// The confirmation for a still-cancelable self action.
    fn poll_action_input_on_self_cancelable(&mut self, action: &ActionOnSelf) -> PendingInput<
        Cancelable<ActionInputOnSelf>,
    >;

    /// The target point for a still-cancelable targeted action.
    fn poll_action_input_targeted_cancelable(&mut self, action: &ActionTargeted) -> PendingInput<
        Cancelable<ActionInputTargeted>,
    >;

    /// The path for a still-cancelable movement action.
    fn poll_action_input_movement_cancelable(&mut self, action: &ActionMovement) -> PendingInput<
        Cancelable<ActionInputMovement>,
    >;

    /// The turn holder's choice between playing a card and ending the turn.
    fn poll_play_card_or_end_turn(&mut self) -> PendingInput<PlayCardOrEndTurn>;
}

/// The driver state of the turn-order machine.
#[derive(Debug)]
pub struct PlayState {
    /// The roster index of the currently acting character.
    pub active: usize,
    /// The roster index of the character holding the turn.
    pub has_turn: usize,
    /// The actions of the current activation still waiting to resolve, in
    /// order.
    pub remaining_actions: Vec<Action>,
    /// Whether the next queued action may still be cancelled: true only
    /// until the first action of the current ability has resolved.
    pub cancelable: bool,
}

/// The mathematical form of a [`PlayState`].
#[verifier::ext_equal]
pub ghost struct PlayStateS {
    pub active: usize,
    pub has_turn: usize,
    pub remaining_actions: Seq<ActionS>,
    pub cancelable: bool,
}

impl View for PlayState {
    type V = PlayStateS;

    open spec fn view(&self) -> PlayStateS {
        PlayStateS {
            active: self.active,
            has_turn: self.has_turn,
            remaining_actions: actions_model(self.remaining_actions@),
            cancelable: self.cancelable,
        }
    }
}

impl Default for PlayState {
    /// The machine before the first step: the first roster member acts and
    /// holds the turn, nothing is queued.
    fn default() -> (r: Self)
        ensures
            r@ == (PlayStateS {
                active: 0,
                has_turn: 0,
                remaining_actions: Seq::empty(),
                cancelable: false,
            }),
    {
        let r = PlayState {
            active: 0,
            has_turn: 0,
            remaining_actions: Vec::new(),
            cancelable: false,
        };
        proof {
            assert(r@.remaining_actions =~= Seq::<ActionS>::empty());
        }
        r
    }
}

/// One admissible interaction of a step with the outside: what the input
/// source answered, or that no input was needed.
#[verifier::ext_equal]
pub ghost enum StepEventS {
    /// A non-cancelable self action resolves without polling.
    ResolveImmediateSelf,
    /// A cancelable self action was confirmed.
    SelfConfirmed,
    /// A cancelable self action was cancelled.
    SelfCanceled,
    /// The poll for a cancelable self action is still pending.
    SelfPending,
    /// A target point was supplied for the queued targeted action.
    TargetSupplied(PosAxial),
    /// A cancelable targeted action was cancelled.
    TargetCanceled,
    /// The poll for a targeted action is still pending.
    TargetPending,
    /// A path was supplied for the queued movement action.
    MoveSupplied(Seq<PosAxial>),
    /// A cancelable movement action was cancelled.
    MoveCanceled,
    /// The poll for a movement action is still pending.
    MovePending,
    /// The round-robin search found an eligible ability; no input was
    /// polled.
    Advanced,
    /// The turn holder played a card.
    CardPlayed(CardDataS),
    /// The turn holder ended the turn.
    TurnEnded,
    /// The poll for the turn holder's decision is still pending.
    DecisionPending,
}

/// The roster and the found activation after the round-robin search steps
/// through at most `remaining` more members, starting after index `idx`:
/// each visited member has its pending abilities popped (discarding
/// ineligible ones) until one is eligible — its remapped actions and its
/// index are the find — or its queue empties and the search moves on.
pub open spec fn spec_advance_from(roster: Seq<CharacterS>, idx: int, remaining: nat) -> (
    Seq<CharacterS>,
    Option<(int, Seq<ActionS>)>,
)
    decreases remaining,
{
    if remaining == 0 || roster.len() == 0 {
        (roster, Option::None)
    } else {
        let idx1 = if idx + 1 >= roster.len() {
            0
        } else {
            idx + 1
        };
        let p = spec_pop_ability_ignore_unsatisfied(roster[idx1], roster.remove(idx1));
        let roster1 = roster.update(idx1, p.0);
        match p.1 {
            Option::Some(actions) => (roster1, Option::Some((idx1, actions))),
            Option::None => spec_advance_from(roster1, idx1, (remaining - 1) as nat),
        }
    }
}

/// Whether the round-robin search starting after `active` finds an eligible
/// ability somewhere in the roster.
pub open spec fn spec_advance_finds(roster: Seq<CharacterS>, active: usize) -> bool {
    spec_advance_from(roster, active as int, roster.len()).1 is Some
}

/// Whether `ev` is an interaction the machine can have in state `ps` over
/// `roster`: the event kind must match the queued action's kind and the
/// polling discipline, and a cancellation is admissible only while the
/// cancelable flag is still set.
pub open spec fn event_fits(ps: PlayStateS, roster: Seq<CharacterS>, ev: StepEventS) -> bool {
    if ps.remaining_actions.len() > 0 {
        match ps.remaining_actions.first() {
            ActionS::OnSelf(_) => if ps.cancelable {
                ev is SelfConfirmed || ev is SelfCanceled || ev is SelfPending
            } else {
                ev is ResolveImmediateSelf
            },
            ActionS::Targeted(_) => ev is TargetSupplied || ev is TargetPending || (ps.cancelable
                && ev is TargetCanceled),
            ActionS::Movement(_) => ev is MoveSupplied || ev is MovePending || (ps.cancelable
                && ev is MoveCanceled),
        }
    } else {
        if spec_advance_finds(roster, ps.active) {
            ev is Advanced
        } else {
            ev is CardPlayed || ev is TurnEnded || ev is DecisionPending
        }
    }
}

/// The state and roster after one step under event `ev`.
///
/// With actions queued: a pending poll changes nothing; a cancellation
/// (admissible only while the cancelable flag is set) clears the whole
/// queue; a concrete input resolves the head action against the active
/// character, pops it, and clears the cancelable flag. With an empty queue:
/// the round-robin search discards ineligible abilities and either loads the
/// found activation (cancelable again) or hands the decision to the turn
/// holder — who may play a card (queued for a later search; affordability
/// deliberately unchecked), end the turn (turn-end ticks, statistics
/// rollover, turn handover, and the new holder's decay and turn-start hook),
/// or still be thinking.
pub open spec fn spec_step(ps: PlayStateS, roster: Seq<CharacterS>, ev: StepEventS) -> (
    PlayStateS,
    Seq<CharacterS>,
) {
    let active = ps.active as int;
    let src = roster[active];
    let others = roster.remove(active);
    match ev {
        StepEventS::ResolveImmediateSelf | StepEventS::SelfConfirmed => {
            let effects = ps.remaining_actions.first()->OnSelf_0;
            let p = crate::resolve_action::spec_resolve_action_on_self(effects, src, others);
            (
                PlayStateS {
                    remaining_actions: ps.remaining_actions.drop_first(),
                    cancelable: false,
                    ..ps
                },
                p.1.insert(active, p.0),
            )
        },
        StepEventS::TargetSupplied(target) => {
            let action = ps.remaining_actions.first()->Targeted_0;
            let p = crate::resolve_action::spec_resolve_action_targeted(
                action,
                target,
                src,
                others,
            );
            (
                PlayStateS {
                    remaining_actions: ps.remaining_actions.drop_first(),
                    cancelable: false,
                    ..ps
                },
                p.1.insert(active, p.0),
            )
        },
        StepEventS::MoveSupplied(path) => {
            let moved = crate::movement::spec_perform_movement(src, path);
            (
                PlayStateS {
                    remaining_actions: ps.remaining_actions.drop_first(),
                    cancelable: false,
                    ..ps
                },
                roster.update(active, moved),
            )
        },
        StepEventS::SelfCanceled | StepEventS::TargetCanceled | StepEventS::MoveCanceled => (
            PlayStateS { remaining_actions: Seq::empty(), ..ps },
            roster,
        ),
        StepEventS::SelfPending | StepEventS::TargetPending | StepEventS::MovePending => (
            ps,
            roster,
        ),
        StepEventS::Advanced => {
            let p = spec_advance_from(roster, active, roster.len());
            match p.1 {
                Option::Some(found) => (
                    PlayStateS {
                        active: found.0 as usize,
                        remaining_actions: found.1,
                        cancelable: true,
                        ..ps
                    },
                    p.0,
                ),
                Option::None => (ps, roster),
            }
        },
        StepEventS::CardPlayed(card) => {
            let searched = spec_advance_from(roster, active, roster.len()).0;
            let ht = ps.has_turn as int;
            (
                PlayStateS { active: ps.has_turn, ..ps },
                searched.update(ht, spec_play_card(searched[ht], card)),
            )
        },
        StepEventS::TurnEnded => {
            let searched = spec_advance_from(roster, active, roster.len()).0;
            let ht = ps.has_turn as int;
            let ended = searched.update(ht, spec_end_turn(searched[ht]));
            let ht1 = if ht + 1 >= roster.len() {
                0
            } else {
                ht + 1
            };
            let begun = ended.update(ht1, spec_begin_turn(ended[ht1]));
            (
                PlayStateS { active: ps.has_turn, has_turn: ht1 as usize, ..ps },
                begun,
            )
        },
        StepEventS::DecisionPending => {
            let searched = spec_advance_from(roster, active, roster.len()).0;
            (PlayStateS { active: ps.has_turn, ..ps }, searched)
        },
    }
}

/// One step while actions are queued (the Resolving state).
#[verifier::rlimit(100)]
fn step_resolving<I: Input>(
    play_state: &mut PlayState,
    input: &mut I,
    all_characters: &mut Vec<Character>,
)
    requires
        old(all_characters)@.len() > 0,
        old(all_characters)@.len() < usize::MAX,
        old(play_state).active < old(all_characters)@.len(),
        old(play_state).has_turn < old(all_characters)@.len(),
        old(play_state)@.remaining_actions.len() > 0,
    ensures
        exists|ev: StepEventS|
            #[trigger] event_fits(old(play_state)@, roster_model(old(all_characters)@), ev)
                && final(play_state)@ == spec_step(
                old(play_state)@,
                roster_model(old(all_characters)@),
                ev,
            ).0 && roster_model(final(all_characters)@) == spec_step(
                old(play_state)@,
                roster_model(old(all_characters)@),
                ev,
            ).1,
{
    let ghost ps0 = old(play_state)@;
    let ghost roster0 = roster_model(old(all_characters)@);
    let len = all_characters.len();
    let action = play_state.remaining_actions.remove(0);
    proof {
        assert(action@ == ps0.remaining_actions.first());
        assert(actions_model(play_state.remaining_actions@)
            =~= ps0.remaining_actions.drop_first());
    }
    let active = play_state.active;
    match &action {
        Action::OnSelf(on_self) => {
            let confirmed: bool;
            let mut canceled = false;
            if !play_state.cancelable {
                confirmed = true;
            } else {
                match input.poll_action_input_on_self_cancelable(on_self) {
                    PendingInput::Ready(Cancelable::Confirmed(_)) => {
                        confirmed = true;
                    },
                    PendingInput::Ready(Cancelable::Canceled) => {
                        confirmed = false;
                        canceled = true;
                    },
                    PendingInput::Pending => {
                        confirmed = false;
                    },
                }
            }
            if confirmed {
                let ghost ev = if ps0.cancelable {
                    StepEventS::SelfConfirmed
                } else {
                    StepEventS::ResolveImmediateSelf
                };
                let mut src = all_characters.remove(active);
                proof {
                    assert(roster_model(all_characters@) =~= roster0.remove(active as int));
                    assert(src@ == roster0[active as int]);
                }
                resolve_action_on_self(on_self, &mut src, all_characters);
                let ghost others_after = roster_model(all_characters@);
                let ghost src_after = src@;
                all_characters.insert(active, src);
                play_state.cancelable = false;
                proof {
                    assert(roster_model(all_characters@) =~= others_after.insert(
                        active as int,
                        src_after,
                    ));
                    assert(event_fits(ps0, roster0, ev));
                    assert(play_state@ =~~= spec_step(ps0, roster0, ev).0);
                    assert(roster_model(all_characters@) =~~= spec_step(ps0, roster0, ev).1);
                }
            } else if canceled {
                play_state.remaining_actions.clear();
                proof {
                    let ev = StepEventS::SelfCanceled;
                    assert(actions_model(play_state.remaining_actions@) =~= Seq::<
                        ActionS,
                    >::empty());
                    assert(event_fits(ps0, roster0, ev));
                    assert(play_state@ =~~= spec_step(ps0, roster0, ev).0);
                    assert(roster_model(all_characters@) =~~= spec_step(ps0, roster0, ev).1);
                }
            } else {
                play_state.remaining_actions.insert(0, action);
                proof {
                    let ev = StepEventS::SelfPending;
                    assert(actions_model(play_state.remaining_actions@)
                        =~= ps0.remaining_actions);
                    assert(play_state@ =~~= ps0);
                    assert(event_fits(ps0, roster0, ev));
                    assert(play_state@ =~~= spec_step(ps0, roster0, ev).0);
                    assert(roster_model(all_characters@) =~~= spec_step(ps0, roster0, ev).1);
                }
            }
        },
        Action::Targeted(targeted) => {
            let mut supplied: Option<ActionInputTargeted> = Option::None;
            let mut canceled = false;
            if !play_state.cancelable {
                match input.poll_action_input_targeted(targeted) {
                    PendingInput::Ready(targeted_input) => {
                        supplied = Option::Some(targeted_input);
                    },
                    PendingInput::Pending => {},
                }
            } else {
                match input.poll_action_input_targeted_cancelable(targeted) {
                    PendingInput::Ready(Cancelable::Confirmed(targeted_input)) => {
                        supplied = Option::Some(targeted_input);
                    },
                    PendingInput::Ready(Cancelable::Canceled) => {
                        canceled = true;
                    },
                    PendingInput::Pending => {},
                }
            }
            match supplied {
                Option::Some(targeted_input) => {
                    let ghost ev = StepEventS::TargetSupplied(targeted_input.target);
                    let mut src = all_characters.remove(active);
                    proof {
                        assert(roster_model(all_characters@) =~= roster0.remove(active as int));
                        assert(src@ == roster0[active as int]);
                    }
                    resolve_action_targeted(
                        targeted,
                        &targeted_input,
                        &mut src,
                        all_characters,
                    );
                    let ghost others_after = roster_model(all_characters@);
                    let ghost src_after = src@;
                    all_characters.insert(active, src);
                    play_state.cancelable = false;
                    proof {
                        assert(roster_model(all_characters@) =~= others_after.insert(
                            active as int,
                            src_after,
                        ));
                        assert(event_fits(ps0, roster0, ev));
                    assert(play_state@ =~~= spec_step(ps0, roster0, ev).0);
                    assert(roster_model(all_characters@) =~~= spec_step(ps0, roster0, ev).1);
                    }
                },
                Option::None => {
                    if canceled {
                        play_state.remaining_actions.clear();
                        proof {
                            let ev = StepEventS::TargetCanceled;
                            assert(actions_model(play_state.remaining_actions@) =~= Seq::<
                                ActionS,
                            >::empty());
                            assert(event_fits(ps0, roster0, ev));
                    assert(play_state@ =~~= spec_step(ps0, roster0, ev).0);
                    assert(roster_model(all_characters@) =~~= spec_step(ps0, roster0, ev).1);
                        }
                    } else {
                        play_state.remaining_actions.insert(0, action);
                        proof {
                            let ev = StepEventS::TargetPending;
                            assert(actions_model(play_state.remaining_actions@)
                                =~= ps0.remaining_actions);
                            assert(play_state@ =~~= ps0);
                            assert(event_fits(ps0, roster0, ev));
                    assert(play_state@ =~~= spec_step(ps0, roster0, ev).0);
                    assert(roster_model(all_characters@) =~~= spec_step(ps0, roster0, ev).1);
                        }
                    }
                },
            }
        },
        Action::Movement(movement) => {
            let mut supplied: Option<ActionInputMovement> = Option::None;
            let mut canceled = false;
            if !play_state.cancelable {
                match input.poll_action_input_movement(movement) {
                    PendingInput::Ready(movement_input) => {
                        supplied = Option::Some(movement_input);
                    },
                    PendingInput::Pending => {},
                }
            } else {
                match input.poll_action_input_movement_cancelable(movement) {
                    PendingInput::Ready(Cancelable::Confirmed(movement_input)) => {
                        supplied = Option::Some(movement_input);
                    },
                    PendingInput::Ready(Cancelable::Canceled) => {
                        canceled = true;
                    },
                    PendingInput::Pending => {},
                }
            }
            match supplied {
                Option::Some(movement_input) => {
                    let ghost ev = StepEventS::MoveSupplied(movement_input.path@);
                    let mut src = all_characters.remove(active);
                    proof {
                        assert(roster_model(all_characters@) =~= roster0.remove(active as int));
                        assert(src@ == roster0[active as int]);
                    }
                    resolve_action_movement(movement, &movement_input, &mut src);
                    let ghost src_after = src@;
                    all_characters.insert(active, src);
                    play_state.cancelable = false;
                    proof {
                        assert(roster_model(all_characters@) =~= roster0.remove(
                            active as int,
                        ).insert(active as int, src_after));
                        assert(roster_model(all_characters@) =~= roster0.update(
                            active as int,
                            src_after,
                        ));
                        assert(event_fits(ps0, roster0, ev));
                    assert(play_state@ =~~= spec_step(ps0, roster0, ev).0);
                    assert(roster_model(all_characters@) =~~= spec_step(ps0, roster0, ev).1);
                    }
                },
                Option::None => {
                    if canceled {
                        play_state.remaining_actions.clear();
                        proof {
                            let ev = StepEventS::MoveCanceled;
                            assert(actions_model(play_state.remaining_actions@) =~= Seq::<
                                ActionS,
                            >::empty());
                            assert(event_fits(ps0, roster0, ev));
                    assert(play_state@ =~~= spec_step(ps0, roster0, ev).0);
                    assert(roster_model(all_characters@) =~~= spec_step(ps0, roster0, ev).1);
                        }
                    } else {
                        play_state.remaining_actions.insert(0, action);
                        proof {
                            let ev = StepEventS::MovePending;
                            assert(actions_model(play_state.remaining_actions@)
                                =~= ps0.remaining_actions);
                            assert(play_state@ =~~= ps0);
                            assert(event_fits(ps0, roster0, ev));
                    assert(play_state@ =~~= spec_step(ps0, roster0, ev).0);
                    assert(roster_model(all_characters@) =~~= spec_step(ps0, roster0, ev).1);
                        }
                    }
                },
            }
        },
    }
}

/// One step with an empty action queue (the Advancing search and,
/// failing that, the turn holder's decision).
#[verifier::rlimit(100)]
fn step_advancing<I: Input>(
    play_state: &mut PlayState,
    input: &mut I,
    all_characters: &mut Vec<Character>,
)
    requires
        old(all_characters)@.len() > 0,
        old(all_characters)@.len() < usize::MAX,
        old(play_state).active < old(all_characters)@.len(),
        old(play_state).has_turn < old(all_characters)@.len(),
        old(play_state)@.remaining_actions.len() == 0,
    ensures
        exists|ev: StepEventS|
            #[trigger] event_fits(old(play_state)@, roster_model(old(all_characters)@), ev)
                && final(play_state)@ == spec_step(
                old(play_state)@,
                roster_model(old(all_characters)@),
                ev,
            ).0 && roster_model(final(all_characters)@) == spec_step(
                old(play_state)@,
                roster_model(old(all_characters)@),
                ev,
            ).1,
{
    let ghost ps0 = old(play_state)@;
    let ghost roster0 = roster_model(old(all_characters)@);
    let len = all_characters.len();
    // Advancing: search the roster round-robin, starting after the
    // acting index, for the next eligible queued ability.
    let start = play_state.active;
    let mut idx = start;
    let mut i: usize = 0;
    while i < len
        invariant
            len == all_characters@.len(),
            len == roster0.len(),
            0 < len < usize::MAX,
            i <= len,
            idx < len,
            ps0 == old(play_state)@,
            roster0 == roster_model(old(all_characters)@),
            ps0 == play_state@,
            ps0.remaining_actions.len() == 0,
            start == ps0.active,
            spec_advance_from(
                roster_model(all_characters@),
                idx as int,
                (len - i) as nat,
            ) == spec_advance_from(roster0, start as int, len as nat),
        decreases len - i,
    {
        let ghost roster_pre = roster_model(all_characters@);
        let ghost idx_pre = idx as int;
        let ghost rem_pre = (len - i) as nat;
        idx = if idx + 1 >= len {
            0
        } else {
            idx + 1
        };
        let mut candidate = all_characters.remove(idx);
        proof {
            assert(roster_model(all_characters@) =~= roster_pre.remove(idx as int));
            assert(candidate@ == roster_pre[idx as int]);
        }
        let found = pop_ability_ignore_unsatisfied(&mut candidate, all_characters);
        all_characters.insert(idx, candidate);
        proof {
            assert(roster_model(all_characters@) =~= roster_pre.remove(idx as int).insert(
                idx as int,
                candidate@,
            ));
            assert(roster_model(all_characters@) =~= roster_pre.update(idx as int, candidate@));
            let p = spec_pop_ability_ignore_unsatisfied(
                roster_pre[idx as int],
                roster_pre.remove(idx as int),
            );
            assert(candidate@ == p.0);
            assert(spec_advance_from(roster_pre, idx_pre, rem_pre) == (match p.1 {
                Option::<Seq<ActionS>>::Some(found_actions) => (
                    roster_pre.update(idx as int, p.0),
                    Option::Some((idx as int, found_actions)),
                ),
                Option::<Seq<ActionS>>::None => spec_advance_from(
                    roster_pre.update(idx as int, p.0),
                    idx as int,
                    (rem_pre - 1) as nat,
                ),
            }));
        }
        match found {
            Option::Some(actions) => {
                play_state.remaining_actions = actions;
                play_state.cancelable = true;
                play_state.active = idx;
                proof {
                    let ev = StepEventS::Advanced;
                    assert(spec_advance_from(roster0, start as int, len as nat).1
                        == Option::Some((idx as int, actions_model(actions@))));
                    assert(event_fits(ps0, roster0, ev));
                    assert(play_state@ =~~= spec_step(ps0, roster0, ev).0);
                    assert(roster_model(all_characters@) =~~= spec_step(ps0, roster0, ev).1);
                }
                return ;
            },
            Option::None => {},
        }
        i = i + 1;
    }
    proof {
        assert(spec_advance_from(roster_model(all_characters@), idx as int, 0nat)
            == spec_advance_from(roster0, start as int, len as nat));
        assert(!spec_advance_finds(roster0, ps0.active));
    }
    // Awaiting the turn holder's decision.
    play_state.active = play_state.has_turn;
    let ghost searched = roster_model(all_characters@);
    match input.poll_play_card_or_end_turn() {
        PendingInput::Ready(PlayCardOrEndTurn::PlayCard(card_data)) => {
            let ghost card = card_data@;
            let ht = play_state.has_turn;
            let mut holder = all_characters.remove(ht);
            play_card_unchecked(&mut holder, card_data);
            all_characters.insert(ht, holder);
            proof {
                let ev = StepEventS::CardPlayed(card);
                assert(roster_model(all_characters@) =~= searched.update(
                    ht as int,
                    holder@,
                ));
                assert(event_fits(ps0, roster0, ev));
                    assert(play_state@ =~~= spec_step(ps0, roster0, ev).0);
                    assert(roster_model(all_characters@) =~~= spec_step(ps0, roster0, ev).1);
            }
        },
        PendingInput::Ready(PlayCardOrEndTurn::EndTurn) => {
            let ht = play_state.has_turn;
            let mut holder = all_characters.remove(ht);
            end_turn(&mut holder);
            all_characters.insert(ht, holder);
            proof {
                assert(roster_model(all_characters@) =~= searched.update(ht as int, holder@));
            }
            let ghost ended = roster_model(all_characters@);
            let next_holder = if ht + 1 >= len {
                0
            } else {
                ht + 1
            };
            play_state.has_turn = next_holder;
            let mut beginning = all_characters.remove(next_holder);
            begin_turn(&mut beginning);
            all_characters.insert(next_holder, beginning);
            proof {
                let ev = StepEventS::TurnEnded;
                assert(roster_model(all_characters@) =~= ended.update(
                    next_holder as int,
                    beginning@,
                ));
                assert(event_fits(ps0, roster0, ev));
                    assert(play_state@ =~~= spec_step(ps0, roster0, ev).0);
                    assert(roster_model(all_characters@) =~~= spec_step(ps0, roster0, ev).1);
            }
        },
        PendingInput::Pending => {
            proof {
                let ev = StepEventS::DecisionPending;
                assert(event_fits(ps0, roster0, ev));
                    assert(play_state@ =~~= spec_step(ps0, roster0, ev).0);
                    assert(roster_model(all_characters@) =~~= spec_step(ps0, roster0, ev).1);
            }
        },
    }
}

/// Advances the turn-order machine by one step: resolves the next queued
/// action against polled input, or searches for the next eligible queued
/// ability, or lets the turn holder act. Never blocks; a pending poll
/// leaves everything as it was. The new state is exactly [`spec_step`] of
/// the old state under some admissible event.
pub fn step_play_state<I: Input>(
    play_state: &mut PlayState,
    input: &mut I,
    all_characters: &mut Vec<Character>,
)
    requires
        old(all_characters)@.len() > 0,
        old(all_characters)@.len() < usize::MAX,
        old(play_state).active < old(all_characters)@.len(),
        old(play_state).has_turn < old(all_characters)@.len(),
    ensures
        exists|ev: StepEventS|
            #[trigger] event_fits(old(play_state)@, roster_model(old(all_characters)@), ev)
                && final(play_state)@ == spec_step(
                old(play_state)@,
                roster_model(old(all_characters)@),
                ev,
            ).0 && roster_model(final(all_characters)@) == spec_step(
                old(play_state)@,
                roster_model(old(all_characters)@),
                ev,
            ).1,
{
    if play_state.remaining_actions.len() > 0 {
        step_resolving(play_state, input, all_characters);
    } else {
        step_advancing(play_state, input, all_characters);
    }
}

/// An ability's remaining actions cannot be cancelled once its first action
/// has resolved: in any state whose cancelable flag is cleared and whose
/// action queue is non-empty, no admissible event is a cancellation, and
/// every admissible step either leaves the queue unchanged (a pending poll)
/// or resolves and removes exactly the head action — the queue is never
/// cleared.
pub proof fn lemma_no_cancel_after_first_resolution(
    ps: PlayStateS,
    roster: Seq<CharacterS>,
    ev: StepEventS,
)
    requires
        !ps.cancelable,
        ps.remaining_actions.len() > 0,
        event_fits(ps, roster, ev),
    ensures
        !(ev is SelfCanceled || ev is TargetCanceled || ev is MoveCanceled),
        spec_step(ps, roster, ev).0.remaining_actions == ps.remaining_actions
            || spec_step(ps, roster, ev).0.remaining_actions == ps.remaining_actions.drop_first(),
{
}

/// Resolving an action locks the rest of its ability in: after a step that
/// consumed the head action, the cancelable flag is cleared, so by
/// [`lemma_no_cancel_after_first_resolution`] no later step of this
/// activation can cancel.
pub proof fn lemma_resolution_clears_cancelable(
    ps: PlayStateS,
    roster: Seq<CharacterS>,
    ev: StepEventS,
)
    requires
        ps.remaining_actions.len() > 0,
        event_fits(ps, roster, ev),
        spec_step(ps, roster, ev).0.remaining_actions == ps.remaining_actions.drop_first(),
        ps.remaining_actions.drop_first() != ps.remaining_actions,
        ps.remaining_actions.drop_first() != Seq::<ActionS>::empty(),
    ensures
        !spec_step(ps, roster, ev).0.cancelable,
{
    assert(ps.remaining_actions.drop_first().len() == ps.remaining_actions.len() - 1);
}

} // verus!
