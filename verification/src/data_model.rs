//! The engine's data model: conditions, effects, actions, abilities, cards,
//! items' static data, and the combatant state itself, together with the
//! mathematical (ghost) form of each compound type.

use crate::character_filter::{option_filter_model, CharacterFilter, FilterS};
use crate::enum_map::{ledger_empty, EnumMap, LedgerKey};
use crate::hex_grid::{Area, DistanceRange, PosAxial};
use crate::items::Item;
use crate::precondition::{option_precondition_model, Precondition, PreconditionS};
use crate::turn_stats::{TurnStat, TurnStats};
use vstd::prelude::*;

verus! {

/// A named, stacking, non-negative counter on a character. All conditions
/// decay by exactly 1 at the start of the owner's turn, floored at 0.
#[derive(Debug, Clone, Copy, PartialEq, Eq, Structural, PartialOrd, Ord, Hash)]
pub enum Condition {
    /// At the end of your turn, take X damage.
    Poison,
    /// At the end of your turn, heal X damage.
    Regen,
    /// Your attacks do X less damage.
    Weak,
    /// Your attacks do X more damage.
    Strong,
    /// Your attacks deal double damage.
    Empowered,
    /// Your attacks deal half damage.
    Enfeebled,
    /// Attacks against you deal X additional damage.
    Fragile,
    /// Attacks against you deal X less damage.
    Fortified,
    /// -X to all movement actions.
    Slow,
    /// +X to all movement actions.
    Fast,
    /// You can't perform any actions.
    Stunned,
    /// You can't perform any attack actions.
    Disarmed,
    /// You can't perform any movement actions.
    Immobilized,
    /// Attackers take X damage.
    Retaliate,
    /// You can't be targeted.
    Invisible,
    /// Engine-internal: melee attacks target all adjacent characters.
    Fury,
}

impl LedgerKey for Condition {
    fn same(&self, other: &Self) -> (r: bool)
        ensures
            r == (self == other),
    {
        self == other
    }
}

/// A character's condition ledger.
pub type Conditions = EnumMap<Condition>;

/// A grant (or removal) of a condition: the kind and a signed stack delta.
#[derive(Debug, Clone, Copy, PartialEq, Eq, Structural)]
pub struct ConditionEffect {
    pub condition_type: Condition,
    pub value: isize,
}

/// One atomic per-character effect of an area effect.
#[derive(Debug, Clone, Copy, PartialEq, Eq, Structural)]
pub enum EffectOnCharacter {
    /// Deal the gross damage, subject to damage math.
    Damage(usize),
    /// Deal the gross damage and restore the source by the net damage dealt.
    DamageWithLifesteal(usize),
    /// Restore health, capped at the maximum.
    Heal(usize),
    /// Grant a condition, subject to the target's item passives.
    Condition(ConditionEffect),
    /// Increase current stamina, capped at the maximum.
    GainStamina(usize),
}

/// How far a targeted action reaches.
#[derive(Debug, Clone, Copy, PartialEq, Eq, Structural)]
pub enum Reach {
    Melee,
    Ranged { range: usize },
}

/// An area specification, an optional character filter, and an ordered list
/// of per-character effects, applied in order to every qualifying character.
#[derive(Debug)]
pub struct AreaEffect {
    pub area: Area,
    pub filter: Option<CharacterFilter>,
    pub effects: Vec<EffectOnCharacter>,
}

/// The mathematical form of an [`AreaEffect`].
#[verifier::ext_equal]
pub ghost struct AreaEffectS {
    pub area: Area,
    pub filter: Option<FilterS>,
    pub effects: Seq<EffectOnCharacter>,
}

impl View for AreaEffect {
    type V = AreaEffectS;

    open spec fn view(&self) -> AreaEffectS {
        AreaEffectS { area: self.area, filter: option_filter_model(self.filter), effects: self.effects@ }
    }
}

/// The mathematical form of a list of area effects.
pub open spec fn area_effects_model(s: Seq<AreaEffect>) -> Seq<AreaEffectS> {
    s.map_values(|e: AreaEffect| e@)
}

impl Clone for AreaEffect {
    /// A structurally identical copy.
    fn clone(&self) -> (r: Self)
        ensures
            r@ == self@,
    {
        AreaEffect {
            area: self.area,
            filter: match &self.filter {
                Option::Some(f) => Option::Some(f.clone()),
                Option::None => Option::None,
            },
            effects: copy_effects(&self.effects),
        }
    }
}

impl Default for AreaEffect {
    /// An effect on the target hex alone, unfiltered, with no per-character
    /// effects.
    fn default() -> (r: Self)
        ensures
            r@ == (AreaEffectS {
                area: Area::Disk(DistanceRange { from: 0, to: 1 }),
                filter: Option::None,
                effects: Seq::empty(),
            }),
    {
        let r = AreaEffect { area: Area::default(), filter: Option::None, effects: Vec::new() };
        proof {
            assert(r@.effects =~= Seq::<EffectOnCharacter>::empty());
        }
        r
    }
}

/// A copy of a list of per-character effects.
fn copy_effects(v: &Vec<EffectOnCharacter>) -> (r: Vec<EffectOnCharacter>)
    ensures
        r@ == v@,
{
    let mut out: Vec<EffectOnCharacter> = Vec::new();
    let n = v.len();
    for i in 0..n
        invariant
            n == v@.len(),
            out@ == v@.take(i as int),
    {
        out.push(v[i]);
        proof {
            assert(out@ =~= v@.take(i + 1));
        }
    }
    proof {
        assert(v@.take(n as int) =~= v@);
    }
    out
}

/// An action applying area effects centered on the actor's own position.
#[derive(Debug)]
pub struct ActionOnSelf {
    pub effects: Vec<AreaEffect>,
}

/// An action applying area effects centered on an externally supplied target
/// point, limited by reach.
#[derive(Debug)]
pub struct ActionTargeted {
    pub reach: Reach,
    pub effects: Vec<AreaEffect>,
}

/// A movement action along an externally supplied path of unit steps.
#[derive(Debug, Clone, Copy, PartialEq, Eq, Structural)]
pub struct ActionMovement {
    pub spaces: usize,
    pub jump: bool,
}

/// The mathematical form of an [`ActionTargeted`].
#[verifier::ext_equal]
pub ghost struct ActionTargetedS {
    pub reach: Reach,
    pub effects: Seq<AreaEffectS>,
}

impl View for ActionOnSelf {
    type V = Seq<AreaEffectS>;

    open spec fn view(&self) -> Seq<AreaEffectS> {
        area_effects_model(self.effects@)
    }
}

impl View for ActionTargeted {
    type V = ActionTargetedS;

    open spec fn view(&self) -> ActionTargetedS {
        ActionTargetedS { reach: self.reach, effects: area_effects_model(self.effects@) }
    }
}

/// One atomic step of an ability.
#[derive(Debug)]
pub enum Action {
    OnSelf(ActionOnSelf),
    Targeted(ActionTargeted),
    Movement(ActionMovement),
}

/// The mathematical form of an [`Action`].
#[verifier::ext_equal]
pub ghost enum ActionS {
    OnSelf(Seq<AreaEffectS>),
    Targeted(ActionTargetedS),
    Movement(ActionMovement),
}

impl View for Action {
    type V = ActionS;

    open spec fn view(&self) -> ActionS {
        match self {
            Action::OnSelf(a) => ActionS::OnSelf(a@),
            Action::Targeted(a) => ActionS::Targeted(a@),
            Action::Movement(a) => ActionS::Movement(*a),
        }
    }
}

/// The mathematical form of a list of actions.
pub open spec fn actions_model(s: Seq<Action>) -> Seq<ActionS> {
    s.map_values(|a: Action| a@)
}

/// An optional precondition plus an ordered sequence of actions. Once the
/// first action of an ability begins resolving, the remaining actions must
/// all be resolved; only the first action may be cancelled.
#[derive(Debug)]
pub struct Ability {
    pub precondition: Option<Precondition>,
    pub actions: Vec<Action>,
}

/// The mathematical form of an [`Ability`].
#[verifier::ext_equal]
pub ghost struct AbilityS {
    pub precondition: Option<PreconditionS>,
    pub actions: Seq<ActionS>,
}

impl View for Ability {
    type V = AbilityS;

    open spec fn view(&self) -> AbilityS {
        AbilityS {
            precondition: option_precondition_model(self.precondition),
            actions: actions_model(self.actions@),
        }
    }
}

/// The mathematical form of a list of abilities.
pub open spec fn abilities_model(s: Seq<Ability>) -> Seq<AbilityS> {
    s.map_values(|a: Ability| a@)
}

/// A card's static data: a human-readable description, a stamina cost, and
/// the abilities queued when the card is played.
#[derive(Debug)]
pub struct CardData {
    pub description: &'static str,
    pub stamina_cost: usize,
    pub abilities: Vec<Ability>,
}

/// The mathematical form of a [`CardData`] (the description carries no
/// engine semantics and is not modelled).
#[verifier::ext_equal]
pub ghost struct CardDataS {
    pub stamina_cost: usize,
    pub abilities: Seq<AbilityS>,
}

impl View for CardData {
    type V = CardDataS;

    open spec fn view(&self) -> CardDataS {
        CardDataS { stamina_cost: self.stamina_cost, abilities: abilities_model(self.abilities@) }
    }
}

/// A comparison operator for precondition thresholds.
#[derive(Debug, Clone, Copy, PartialEq, Eq, Structural)]
pub enum Comparison {
    Equal,
    Less,
    Greater,
    LessOrEqual,
    GreaterOrEqual,
}

/// The relation a [`Comparison`] denotes.
pub open spec fn spec_compare(c: Comparison, lhs: int, rhs: int) -> bool {
    match c {
        Comparison::Equal => lhs == rhs,
        Comparison::Less => lhs < rhs,
        Comparison::Greater => lhs > rhs,
        Comparison::LessOrEqual => lhs <= rhs,
        Comparison::GreaterOrEqual => lhs >= rhs,
    }
}

impl Comparison {
    /// Compares two counters with this operator.
    pub fn compare(&self, lhs: &usize, rhs: &usize) -> (r: bool)
        ensures
            r == spec_compare(*self, *lhs as int, *rhs as int),
    {
        match self {
            Comparison::Equal => *lhs == *rhs,
            Comparison::Less => *lhs < *rhs,
            Comparison::Greater => *lhs > *rhs,
            Comparison::LessOrEqual => *lhs <= *rhs,
            Comparison::GreaterOrEqual => *lhs >= *rhs,
        }
    }
}

/// A team affiliation.
#[derive(Debug, Clone, Copy, PartialEq, Eq, Structural, PartialOrd, Ord, Hash)]
pub enum CharacterTeam {
    Player,
    Monster,
}

impl Default for CharacterTeam {
    fn default() -> (r: Self)
        ensures
            r == CharacterTeam::Monster,
    {
        CharacterTeam::Monster
    }
}

/// An event hook on which items contribute triggered abilities.
#[derive(Debug, Clone, Copy, PartialEq, Eq, Structural)]
pub enum Hook {
    DamageTaken,
    AttackAction,
    MovementAction,
    BeginningOfTurn,
    EndOfTurn,
}

/// A passive transform applied by an equipped item to incoming condition
/// grants: optionally restricted to one condition kind, optionally
/// substituting the kind, and applying the affine transform
/// `round(value * multiplicative_num / multiplicative_den) + additive_factor`.
#[derive(Debug, Clone, Copy)]
pub struct ModifyGainedConditions {
    pub applies_only_to: Option<Condition>,
    pub transform_into: Option<Condition>,
    pub additive_factor: isize,
    pub multiplicative_num: isize,
    pub multiplicative_den: isize,
}

/// An item's passive modifiers.
#[derive(Debug)]
pub struct Passives {
    pub actions_consume_health_instead_of_mana: bool,
    pub modify_gained_conditions: Vec<ModifyGainedConditions>,
}

/// The mathematical form of [`Passives`].
#[verifier::ext_equal]
pub ghost struct PassivesS {
    pub actions_consume_health_instead_of_mana: bool,
    pub modify_gained_conditions: Seq<ModifyGainedConditions>,
}

impl View for Passives {
    type V = PassivesS;

    open spec fn view(&self) -> PassivesS {
        PassivesS {
            actions_consume_health_instead_of_mana: self.actions_consume_health_instead_of_mana,
            modify_gained_conditions: self.modify_gained_conditions@,
        }
    }
}

impl Default for Passives {
    /// No passives.
    fn default() -> (r: Self)
        ensures
            r@ == (PassivesS {
                actions_consume_health_instead_of_mana: false,
                modify_gained_conditions: Seq::empty(),
            }),
    {
        let r = Passives {
            actions_consume_health_instead_of_mana: false,
            modify_gained_conditions: Vec::new(),
        };
        proof {
            assert(r@.modify_gained_conditions =~= Seq::<ModifyGainedConditions>::empty());
        }
        r
    }
}

/// An item's triggered-ability lists, one per event hook.
#[derive(Debug)]
pub struct TriggeredAbilities {
    pub damage_taken: Vec<Ability>,
    pub attack_action: Vec<Ability>,
    pub movement_action: Vec<Ability>,
    pub beginning_of_turn: Vec<Ability>,
    pub end_of_turn: Vec<Ability>,
}

/// The mathematical form of [`TriggeredAbilities`].
#[verifier::ext_equal]
pub ghost struct TriggeredAbilitiesS {
    pub damage_taken: Seq<AbilityS>,
    pub attack_action: Seq<AbilityS>,
    pub movement_action: Seq<AbilityS>,
    pub beginning_of_turn: Seq<AbilityS>,
    pub end_of_turn: Seq<AbilityS>,
}

impl View for TriggeredAbilities {
    type V = TriggeredAbilitiesS;

    open spec fn view(&self) -> TriggeredAbilitiesS {
        TriggeredAbilitiesS {
            damage_taken: abilities_model(self.damage_taken@),
            attack_action: abilities_model(self.attack_action@),
            movement_action: abilities_model(self.movement_action@),
            beginning_of_turn: abilities_model(self.beginning_of_turn@),
            end_of_turn: abilities_model(self.end_of_turn@),
        }
    }
}

/// The triggered-ability list an item contributes on a given hook.
pub open spec fn hook_list(t: TriggeredAbilitiesS, h: Hook) -> Seq<AbilityS> {
    match h {
        Hook::DamageTaken => t.damage_taken,
        Hook::AttackAction => t.attack_action,
        Hook::MovementAction => t.movement_action,
        Hook::BeginningOfTurn => t.beginning_of_turn,
        Hook::EndOfTurn => t.end_of_turn,
    }
}

impl Default for TriggeredAbilities {
    /// No triggered abilities on any hook.
    fn default() -> (r: Self)
        ensures
            r@ == (TriggeredAbilitiesS {
                damage_taken: Seq::empty(),
                attack_action: Seq::empty(),
                movement_action: Seq::empty(),
                beginning_of_turn: Seq::empty(),
                end_of_turn: Seq::empty(),
            }),
    {
        let r = TriggeredAbilities {
            damage_taken: Vec::new(),
            attack_action: Vec::new(),
            movement_action: Vec::new(),
            beginning_of_turn: Vec::new(),
            end_of_turn: Vec::new(),
        };
        proof {
            assert(abilities_model(Seq::<Ability>::empty()) =~= Seq::<AbilityS>::empty());
        }
        r
    }
}

/// An item's static data: passives and triggered-ability lists. Items never
/// mutate at runtime; the engine only reads this data.
#[derive(Debug)]
pub struct ItemData {
    pub description: &'static str,
    pub passives: Passives,
    pub triggered_abilities: TriggeredAbilities,
}

/// The mathematical form of an [`ItemData`] (the description carries no
/// engine semantics and is not modelled).
#[verifier::ext_equal]
pub ghost struct ItemDataS {
    pub passives: PassivesS,
    pub triggered_abilities: TriggeredAbilitiesS,
}

impl View for ItemData {
    type V = ItemDataS;

    open spec fn view(&self) -> ItemDataS {
        ItemDataS { passives: self.passives@, triggered_abilities: self.triggered_abilities@ }
    }
}

/// A combatant's full state.
#[derive(Debug)]
pub struct Character {
    pub pos: PosAxial,
    pub team: CharacterTeam,
    pub health_current: usize,
    pub health_max: usize,
    pub stamina_current: usize,
    pub stamina_max: usize,
    pub equipped_items: Vec<Item>,
    pub conditions: Conditions,
    pub turn_stats: TurnStats,
    pub remaining_abilities: Vec<Ability>,
}

/// The mathematical form of a [`Character`].
#[verifier::ext_equal]
pub ghost struct CharacterS {
    pub pos: PosAxial,
    pub team: CharacterTeam,
    pub health_current: usize,
    pub health_max: usize,
    pub stamina_current: usize,
    pub stamina_max: usize,
    pub equipped_items: Seq<Item>,
    pub conditions: Map<Condition, usize>,
    pub turn_stats: Seq<Map<TurnStat, usize>>,
    pub remaining_abilities: Seq<AbilityS>,
}

impl View for Character {
    type V = CharacterS;

    open spec fn view(&self) -> CharacterS {
        CharacterS {
            pos: self.pos,
            team: self.team,
            health_current: self.health_current,
            health_max: self.health_max,
            stamina_current: self.stamina_current,
            stamina_max: self.stamina_max,
            equipped_items: self.equipped_items@,
            conditions: self.conditions@,
            turn_stats: self.turn_stats@,
            remaining_abilities: abilities_model(self.remaining_abilities@),
        }
    }
}

/// The mathematical form of a roster of characters.
pub open spec fn roster_model(s: Seq<Character>) -> Seq<CharacterS> {
    s.map_values(|c: Character| c@)
}

/// The mathematical form of the default character.
pub open spec fn character_default_s() -> CharacterS {
    CharacterS {
        pos: PosAxial { r: 0, q: 0 },
        team: CharacterTeam::Monster,
        health_current: 0,
        health_max: 0,
        stamina_current: 0,
        stamina_max: 0,
        equipped_items: Seq::empty(),
        conditions: ledger_empty(),
        turn_stats: Seq::empty(),
        remaining_abilities: Seq::empty(),
    }
}

impl Default for Character {
    /// A blank monster at the origin with nothing equipped or pending.
    fn default() -> (r: Self)
        ensures
            r@ == character_default_s(),
    {
        let r = Character {
            pos: PosAxial::default(),
            team: CharacterTeam::default(),
            health_current: 0,
            health_max: 0,
            stamina_current: 0,
            stamina_max: 0,
            equipped_items: Vec::new(),
            conditions: Conditions::default(),
            turn_stats: TurnStats::default(),
            remaining_abilities: Vec::new(),
        };
        proof {
            assert(r@.equipped_items =~= Seq::<Item>::empty());
            assert(r@.remaining_abilities =~= Seq::<AbilityS>::empty());
            assert(r@ =~= character_default_s());
        }
        r
    }
}

/// A player: a combatant plus out-of-engine bookkeeping (a hand of cards and
/// a personal stamina pool).
#[derive(Debug)]
pub struct Player {
    pub character: Character,
    pub stamina_current: usize,
    pub stamina_max: usize,
    pub hand: Vec<CardData>,
}

/// The default area: the target hex alone.
pub open spec fn unit_area() -> Area {
    Area::Disk(DistanceRange { from: 0, to: 1 })
}

/// The mathematical form of an ability with one self-centered action whose
/// single area effect covers the actor's hex alone.
pub open spec fn spec_self_ability(
    p: Option<PreconditionS>,
    effects: Seq<EffectOnCharacter>,
) -> AbilityS {
    AbilityS {
        precondition: p,
        actions: seq![
            ActionS::OnSelf(
                seq![AreaEffectS { area: unit_area(), filter: Option::None, effects }],
            )
        ],
    }
}

/// The mathematical form of a single-action targeted ability whose single
/// area effect covers the target hex alone.
pub open spec fn spec_targeted_ability(reach: Reach, effects: Seq<EffectOnCharacter>) -> AbilityS {
    AbilityS {
        precondition: Option::None,
        actions: seq![
            ActionS::Targeted(
                ActionTargetedS {
                    reach,
                    effects: seq![
                        AreaEffectS { area: unit_area(), filter: Option::None, effects }
                    ],
                },
            )
        ],
    }
}

/// An area effect on the target hex alone, without a filter.
pub fn unit_area_effect(effects: Vec<EffectOnCharacter>) -> (r: AreaEffect)
    ensures
        r@ == (AreaEffectS { area: unit_area(), filter: Option::None, effects: effects@ }),
{
    AreaEffect { area: Area::default(), filter: Option::None, effects }
}

/// An ability with one self-centered action on the actor's hex alone.
pub fn self_ability(precondition: Option<Precondition>, effects: Vec<EffectOnCharacter>) -> (r:
    Ability)
    ensures
        r@ == spec_self_ability(option_precondition_model(precondition), effects@),
{
    let ghost effects_view = effects@;
    let area_effect = unit_area_effect(effects);
    let mut area_effects: Vec<AreaEffect> = Vec::new();
    area_effects.push(area_effect);
    let action = Action::OnSelf(ActionOnSelf { effects: area_effects });
    let mut actions: Vec<Action> = Vec::new();
    actions.push(action);
    let r = Ability { precondition, actions };
    proof {
        assert(r@.actions =~~= spec_self_ability(
            option_precondition_model(precondition),
            effects_view,
        ).actions);
        assert(r@ =~~= spec_self_ability(option_precondition_model(precondition), effects_view));
    }
    r
}

/// A single-action targeted ability on the target hex alone, without a
/// precondition.
pub fn targeted_ability(reach: Reach, effects: Vec<EffectOnCharacter>) -> (r: Ability)
    ensures
        r@ == spec_targeted_ability(reach, effects@),
{
    let ghost effects_view = effects@;
    let area_effect = unit_area_effect(effects);
    let mut area_effects: Vec<AreaEffect> = Vec::new();
    area_effects.push(area_effect);
    let action = Action::Targeted(ActionTargeted { reach, effects: area_effects });
    let mut actions: Vec<Action> = Vec::new();
    actions.push(action);
    let r = Ability { precondition: Option::None, actions };
    proof {
        assert(r@.actions =~~= spec_targeted_ability(reach, effects_view).actions);
        assert(r@ =~~= spec_targeted_ability(reach, effects_view));
    }
    r
}

/// Whether two effect lists are equal.
fn eq_effects(a: &Vec<EffectOnCharacter>, b: &Vec<EffectOnCharacter>) -> (r: bool)
    ensures
        r == (a@ == b@),
{
    if a.len() != b.len() {
        proof {
            assert(a@.len() != b@.len());
        }
        return false;
    }
    let n = a.len();
    for i in 0..n
        invariant
            n == a@.len(),
            n == b@.len(),
            forall|j: int| 0 <= j < i ==> a@[j] == b@[j],
    {
        if a[i] != b[i] {
            return false;
        }
    }
    proof {
        assert(a@ =~= b@);
    }
    true
}

/// Whether two area effects have the same mathematical form.
fn eq_area_effect(a: &AreaEffect, b: &AreaEffect) -> (r: bool)
    ensures
        r == (a@ == b@),
{
    let areas_eq = a.area == b.area;
    let filters_eq = match (&a.filter, &b.filter) {
        (Option::None, Option::None) => true,
        (Option::Some(fa), Option::Some(fb)) => crate::character_filter::eq_filter(fa, fb),
        _ => false,
    };
    areas_eq && filters_eq && eq_effects(&a.effects, &b.effects)
}

/// Whether two area-effect lists have the same mathematical form.
fn eq_area_effect_vec(a: &Vec<AreaEffect>, b: &Vec<AreaEffect>) -> (r: bool)
    ensures
        r == (area_effects_model(a@) == area_effects_model(b@)),
{
    let ghost sa = area_effects_model(a@);
    let ghost sb = area_effects_model(b@);
    if a.len() != b.len() {
        proof {
            assert(sa.len() != sb.len());
        }
        return false;
    }
    let n = a.len();
    for i in 0..n
        invariant
            n == a@.len(),
            n == b@.len(),
            sa == area_effects_model(a@),
            sb == area_effects_model(b@),
            forall|j: int| 0 <= j < i ==> sa[j] == sb[j],
    {
        if !eq_area_effect(&a[i], &b[i]) {
            proof {
                assert(sa[i as int] != sb[i as int]);
            }
            return false;
        }
    }
    proof {
        assert(sa =~= sb);
    }
    true
}

/// Whether two actions have the same mathematical form.
fn eq_action(a: &Action, b: &Action) -> (r: bool)
    ensures
        r == (a@ == b@),
{
    match (a, b) {
        (Action::OnSelf(aa), Action::OnSelf(ab)) => eq_area_effect_vec(&aa.effects, &ab.effects),
        (Action::Targeted(aa), Action::Targeted(ab)) => aa.reach == ab.reach && eq_area_effect_vec(
            &aa.effects,
            &ab.effects,
        ),
        (Action::Movement(aa), Action::Movement(ab)) => aa == ab,
        _ => false,
    }
}

/// Whether two abilities have the same mathematical form.
fn eq_ability(a: &Ability, b: &Ability) -> (r: bool)
    ensures
        r == (a@ == b@),
{
    let pre_eq = match (&a.precondition, &b.precondition) {
        (Option::None, Option::None) => true,
        (Option::Some(pa), Option::Some(pb)) => crate::precondition::eq_precondition(pa, pb),
        _ => false,
    };
    if !pre_eq {
        return false;
    }
    let ghost sa = actions_model(a.actions@);
    let ghost sb = actions_model(b.actions@);
    if a.actions.len() != b.actions.len() {
        proof {
            assert(sa.len() != sb.len());
        }
        return false;
    }
    let n = a.actions.len();
    for i in 0..n
        invariant
            n == a.actions@.len(),
            n == b.actions@.len(),
            sa == actions_model(a.actions@),
            sb == actions_model(b.actions@),
            forall|j: int| 0 <= j < i ==> sa[j] == sb[j],
    {
        if !eq_action(&a.actions[i], &b.actions[i]) {
            proof {
                assert(sa[i as int] != sb[i as int]);
            }
            return false;
        }
    }
    proof {
        assert(sa =~= sb);
    }
    true
}

/// Whether two ability lists have the same mathematical form.
fn eq_ability_vec(a: &Vec<Ability>, b: &Vec<Ability>) -> (r: bool)
    ensures
        r == (abilities_model(a@) == abilities_model(b@)),
{
    let ghost sa = abilities_model(a@);
    let ghost sb = abilities_model(b@);
    if a.len() != b.len() {
        proof {
            assert(sa.len() != sb.len());
        }
        return false;
    }
    let n = a.len();
    for i in 0..n
        invariant
            n == a@.len(),
            n == b@.len(),
            sa == abilities_model(a@),
            sb == abilities_model(b@),
            forall|j: int| 0 <= j < i ==> sa[j] == sb[j],
    {
        if !eq_ability(&a[i], &b[i]) {
            proof {
                assert(sa[i as int] != sb[i as int]);
            }
            return false;
        }
    }
    proof {
        assert(sa =~= sb);
    }
    true
}

/// Whether two item lists are equal.
fn eq_items(a: &Vec<Item>, b: &Vec<Item>) -> (r: bool)
    ensures
        r == (a@ == b@),
{
    if a.len() != b.len() {
        proof {
            assert(a@.len() != b@.len());
        }
        return false;
    }
    let n = a.len();
    for i in 0..n
        invariant
            n == a@.len(),
            n == b@.len(),
            forall|j: int| 0 <= j < i ==> a@[j] == b@[j],
    {
        if a[i] != b[i] {
            return false;
        }
    }
    proof {
        assert(a@ =~= b@);
    }
    true
}

/// Whether two characters have the same mathematical state. This is the
/// meaning of the `IsSelf` filter: it identifies the source by state, not by
/// storage location.
pub fn character_eq(a: &Character, b: &Character) -> (r: bool)
    ensures
        r == (a@ == b@),
{
    let r = a.pos == b.pos && a.team == b.team && a.health_current == b.health_current
        && a.health_max == b.health_max && a.stamina_current == b.stamina_current
        && a.stamina_max == b.stamina_max && eq_items(&a.equipped_items, &b.equipped_items)
        && a.conditions.ledger_eq(&b.conditions) && a.turn_stats.stats_eq(&b.turn_stats)
        && eq_ability_vec(&a.remaining_abilities, &b.remaining_abilities);
    proof {
        if r {
            assert(a@ =~= b@);
        }
    }
    r
}

} // verus!
