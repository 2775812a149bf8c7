//! Character filters: small boolean expression trees over a candidate
//! character and the acting source character, used to gate abilities and
//! target selection. Evaluation is a pure, total function.

use crate::data_model::{CharacterS, Character, Condition};
use crate::hex_grid::{spec_distance_within_range, DistanceRange};
use vstd::pervasive::arbitrary;
use vstd::prelude::*;

verus! {

/// A boolean predicate over a candidate character, relative to the acting
/// source character.
#[derive(Debug)]
pub enum CharacterFilter {
    /// The candidate is on a different team than the source.
    IsEnemy,
    /// The candidate is the source itself.
    IsSelf,
    /// The candidate's hex distance to the source lies in the range.
    WithinDistance(DistanceRange),
    /// The candidate has a positive count of the condition.
    WithCondition(Condition),
    /// The candidate lacks the condition.
    WithoutCondition(Condition),
    /// Every sub-filter holds (vacuously true for an empty list).
    And(Vec<CharacterFilter>),
    /// Some sub-filter holds (vacuously false for an empty list).
    Or(Vec<CharacterFilter>),
}

/// The mathematical form of a [`CharacterFilter`].
#[verifier::ext_equal]
pub ghost enum FilterS {
    IsEnemy,
    IsSelf,
    WithinDistance(DistanceRange),
    WithCondition(Condition),
    WithoutCondition(Condition),
    And(Seq<FilterS>),
    Or(Seq<FilterS>),
}

/// The mathematical form of a filter expression tree.
pub open spec fn filter_model(f: CharacterFilter) -> FilterS
    decreases f,
{
    match f {
        CharacterFilter::IsEnemy => FilterS::IsEnemy,
        CharacterFilter::IsSelf => FilterS::IsSelf,
        CharacterFilter::WithinDistance(range) => FilterS::WithinDistance(range),
        CharacterFilter::WithCondition(c) => FilterS::WithCondition(c),
        CharacterFilter::WithoutCondition(c) => FilterS::WithoutCondition(c),
        CharacterFilter::And(subs) => FilterS::And(filter_vec_model(subs)),
        CharacterFilter::Or(subs) => FilterS::Or(filter_vec_model(subs)),
    }
}

/// The mathematical form of a list of filter trees.
pub open spec fn filter_vec_model(v: Vec<CharacterFilter>) -> Seq<FilterS>
    decreases v,
{
    Seq::new(
        v.len() as nat,
        |i: int|
            if 0 <= i < v.len() {
                filter_model(v[i])
            } else {
                arbitrary()
            },
    )
}

impl View for CharacterFilter {
    type V = FilterS;

    open spec fn view(&self) -> FilterS {
        filter_model(*self)
    }
}

/// The mathematical form of an optional filter.
pub open spec fn option_filter_model(o: Option<CharacterFilter>) -> Option<FilterS> {
    match o {
        Option::Some(f) => Option::Some(filter_model(f)),
        Option::None => Option::None,
    }
}

/// Whether `c` satisfies `f`, evaluated relative to the source `src`.
pub open spec fn spec_filter_character(c: CharacterS, f: FilterS, src: CharacterS) -> bool
    decreases f,
{
    match f {
        FilterS::IsEnemy => c.team != src.team,
        FilterS::IsSelf => c == src,
        FilterS::WithinDistance(range) => spec_distance_within_range(c.pos, src.pos, range),
        FilterS::WithCondition(k) => c.conditions[k] > 0,
        FilterS::WithoutCondition(k) => !(c.conditions[k] > 0),
        FilterS::And(subs) => spec_all_filters(c, subs, src),
        FilterS::Or(subs) => spec_any_filter(c, subs, src),
    }
}

/// Whether `c` satisfies every filter of `subs` (vacuously true when empty).
pub open spec fn spec_all_filters(c: CharacterS, subs: Seq<FilterS>, src: CharacterS) -> bool
    decreases subs,
{
    if subs.len() == 0 {
        true
    } else {
        spec_all_filters(c, subs.drop_last(), src) && spec_filter_character(c, subs.last(), src)
    }
}

/// Whether `c` satisfies some filter of `subs` (vacuously false when empty).
pub open spec fn spec_any_filter(c: CharacterS, subs: Seq<FilterS>, src: CharacterS) -> bool
    decreases subs,
{
    if subs.len() == 0 {
        false
    } else {
        spec_any_filter(c, subs.drop_last(), src) || spec_filter_character(c, subs.last(), src)
    }
}

/// A conjunction over a filter list holds exactly when every element holds.
pub proof fn lemma_all_filters_iff(c: CharacterS, subs: Seq<FilterS>, src: CharacterS)
    ensures
        spec_all_filters(c, subs, src) == (forall|i: int|
            0 <= i < subs.len() ==> spec_filter_character(c, #[trigger] subs[i], src)),
    decreases subs.len(),
{
    if subs.len() > 0 {
        lemma_all_filters_iff(c, subs.drop_last(), src);
        if spec_all_filters(c, subs, src) {
            assert forall|i: int| 0 <= i < subs.len() implies spec_filter_character(
                c,
                #[trigger] subs[i],
                src,
            ) by {
                if i < subs.len() - 1 {
                    assert(subs.drop_last()[i] == subs[i]);
                }
            }
        } else {
            if !spec_all_filters(c, subs.drop_last(), src) {
                let i = choose|i: int|
                    0 <= i < subs.drop_last().len() && !spec_filter_character(
                        c,
                        #[trigger] subs.drop_last()[i],
                        src,
                    );
                assert(subs.drop_last()[i] == subs[i]);
                assert(!spec_filter_character(c, subs[i], src));
            }
        }
    }
}

/// A disjunction over a filter list holds exactly when some element holds.
pub proof fn lemma_any_filter_iff(c: CharacterS, subs: Seq<FilterS>, src: CharacterS)
    ensures
        spec_any_filter(c, subs, src) == (exists|i: int|
            0 <= i < subs.len() && spec_filter_character(c, #[trigger] subs[i], src)),
    decreases subs.len(),
{
    if subs.len() > 0 {
        lemma_any_filter_iff(c, subs.drop_last(), src);
        if spec_any_filter(c, subs, src) {
            if spec_any_filter(c, subs.drop_last(), src) {
                let i = choose|i: int|
                    0 <= i < subs.drop_last().len() && spec_filter_character(
                        c,
                        #[trigger] subs.drop_last()[i],
                        src,
                    );
                assert(subs.drop_last()[i] == subs[i]);
                assert(spec_filter_character(c, subs[i], src));
            } else {
                assert(spec_filter_character(c, subs[subs.len() - 1], src));
            }
        } else {
            assert forall|i: int|
                0 <= i < subs.len() implies !spec_filter_character(
                c,
                #[trigger] subs[i],
                src,
            ) by {
                if i < subs.len() - 1 {
                    assert(subs.drop_last()[i] == subs[i]);
                }
            }
        }
    }
}

/// Whether an optional filter admits `c` (no filter admits everyone).
pub open spec fn spec_optional_filter_character(
    c: CharacterS,
    f: Option<FilterS>,
    src: CharacterS,
) -> bool {
    match f {
        Option::Some(f) => spec_filter_character(c, f, src),
        Option::None => true,
    }
}

/// Whether two filter trees have the same mathematical form.
pub fn eq_filter(a: &CharacterFilter, b: &CharacterFilter) -> (r: bool)
    ensures
        r == (a@ == b@),
    decreases *a,
{
    match (a, b) {
        (CharacterFilter::IsEnemy, CharacterFilter::IsEnemy) => true,
        (CharacterFilter::IsSelf, CharacterFilter::IsSelf) => true,
        (CharacterFilter::WithinDistance(ra), CharacterFilter::WithinDistance(rb)) => ra == rb,
        (CharacterFilter::WithCondition(ca), CharacterFilter::WithCondition(cb)) => ca == cb,
        (CharacterFilter::WithoutCondition(ca), CharacterFilter::WithoutCondition(cb)) => ca == cb,
        (CharacterFilter::And(sa), CharacterFilter::And(sb)) => eq_filter_vec(sa, sb),
        (CharacterFilter::Or(sa), CharacterFilter::Or(sb)) => eq_filter_vec(sa, sb),
        _ => false,
    }
}

/// Whether two filter lists have the same mathematical form, element by
/// element.
fn eq_filter_vec(a: &Vec<CharacterFilter>, b: &Vec<CharacterFilter>) -> (r: bool)
    ensures
        r == (filter_vec_model(*a) == filter_vec_model(*b)),
    decreases *a,
{
    let ghost sa = filter_vec_model(*a);
    let ghost sb = filter_vec_model(*b);
    if a.len() != b.len() {
        proof {
            assert(sa.len() != sb.len());
        }
        return false;
    }
    let n = a.len();
    for i in 0..n
        invariant
            n == a@.len(),
            n == b@.len(),
            sa == filter_vec_model(*a),
            sb == filter_vec_model(*b),
            forall|j: int| 0 <= j < i ==> sa[j] == sb[j],
    {
        if !eq_filter(&a[i], &b[i]) {
            proof {
                assert(sa[i as int] != sb[i as int]);
            }
            return false;
        }
    }
    proof {
        assert(sa =~= sb);
    }
    true
}

/// A structurally identical copy of the filter tree.
impl Clone for CharacterFilter {
    fn clone(&self) -> (r: Self)
        ensures
            r@ == self@,
        decreases *self,
    {
        match self {
            CharacterFilter::IsEnemy => CharacterFilter::IsEnemy,
            CharacterFilter::IsSelf => CharacterFilter::IsSelf,
            CharacterFilter::WithinDistance(range) => CharacterFilter::WithinDistance(*range),
            CharacterFilter::WithCondition(c) => CharacterFilter::WithCondition(*c),
            CharacterFilter::WithoutCondition(c) => CharacterFilter::WithoutCondition(*c),
            CharacterFilter::And(subs) => CharacterFilter::And(clone_filter_vec(subs)),
            CharacterFilter::Or(subs) => CharacterFilter::Or(clone_filter_vec(subs)),
        }
    }
}

/// A structurally identical copy of a filter list.
fn clone_filter_vec(v: &Vec<CharacterFilter>) -> (r: Vec<CharacterFilter>)
    ensures
        filter_vec_model(r) == filter_vec_model(*v),
    decreases *v,
{
    let mut out: Vec<CharacterFilter> = Vec::new();
    let n = v.len();
    for i in 0..n
        invariant
            n == v@.len(),
            out@.len() == i,
            forall|j: int| 0 <= j < i ==> filter_model(out@[j]) == filter_model(v@[j]),
    {
        out.push(v[i].clone());
    }
    proof {
        assert(filter_vec_model(out) =~= filter_vec_model(*v));
    }
    out
}

/// Whether `character` satisfies `filter`, evaluated relative to
/// `source_character`. Pure and total: it never fails.
pub fn filter_character(
    character: &Character,
    filter: &CharacterFilter,
    source_character: &Character,
) -> (r: bool)
    ensures
        r == spec_filter_character(character@, filter@, source_character@),
    decreases *filter,
{
    match filter {
        CharacterFilter::IsEnemy => character.team != source_character.team,
        CharacterFilter::IsSelf => crate::data_model::character_eq(character, source_character),
        CharacterFilter::WithinDistance(distance_range) => crate::hex_grid::distance_within_range(
            &character.pos,
            &source_character.pos,
            distance_range,
        ),
        CharacterFilter::WithCondition(condition) => character.conditions.has(condition),
        CharacterFilter::WithoutCondition(condition) => !character.conditions.has(condition),
        CharacterFilter::And(sub_filters) => filter_all(character, sub_filters, source_character),
        CharacterFilter::Or(sub_filters) => filter_any(character, sub_filters, source_character),
    }
}

/// An `And` filter holds exactly when every sub-filter holds.
pub proof fn lemma_filter_and_unfold(c: CharacterS, subs: Seq<FilterS>, src: CharacterS)
    ensures
        spec_filter_character(c, FilterS::And(subs), src) == (forall|i: int|
            0 <= i < subs.len() ==> spec_filter_character(c, #[trigger] subs[i], src)),
{
    lemma_all_filters_iff(c, subs, src);
}

/// An `Or` filter holds exactly when some sub-filter holds.
pub proof fn lemma_filter_or_unfold(c: CharacterS, subs: Seq<FilterS>, src: CharacterS)
    ensures
        spec_filter_character(c, FilterS::Or(subs), src) == (exists|i: int|
            0 <= i < subs.len() && spec_filter_character(c, #[trigger] subs[i], src)),
{
    lemma_any_filter_iff(c, subs, src);
}

/// Whether every filter of the list admits `character`.
fn filter_all(
    character: &Character,
    sub_filters: &Vec<CharacterFilter>,
    source_character: &Character,
) -> (r: bool)
    ensures
        r == spec_filter_character(
            character@,
            FilterS::And(filter_vec_model(*sub_filters)),
            source_character@,
        ),
    decreases *sub_filters,
{
    let ghost subs = filter_vec_model(*sub_filters);
    let n = sub_filters.len();
    for i in 0..n
        invariant
            n == sub_filters@.len(),
            subs == filter_vec_model(*sub_filters),
            forall|j: int|
                0 <= j < i ==> spec_filter_character(
                    character@,
                    #[trigger] subs[j],
                    source_character@,
                ),
    {
        if !filter_character(character, &sub_filters[i], source_character) {
            proof {
                lemma_filter_and_unfold(character@, subs, source_character@);
                assert(subs[i as int] == filter_model(sub_filters@[i as int]));
                assert(!spec_filter_character(character@, subs[i as int], source_character@));
            }
            return false;
        }
        proof {
            assert(subs[i as int] == filter_model(sub_filters@[i as int]));
        }
    }
    proof {
        lemma_filter_and_unfold(character@, subs, source_character@);
    }
    true
}

/// Whether some filter of the list admits `character`.
fn filter_any(
    character: &Character,
    sub_filters: &Vec<CharacterFilter>,
    source_character: &Character,
) -> (r: bool)
    ensures
        r == spec_filter_character(
            character@,
            FilterS::Or(filter_vec_model(*sub_filters)),
            source_character@,
        ),
    decreases *sub_filters,
{
    let ghost subs = filter_vec_model(*sub_filters);
    let n = sub_filters.len();
    for i in 0..n
        invariant
            n == sub_filters@.len(),
            subs == filter_vec_model(*sub_filters),
            forall|j: int|
                0 <= j < i ==> !spec_filter_character(
                    character@,
                    #[trigger] subs[j],
                    source_character@,
                ),
    {
        if filter_character(character, &sub_filters[i], source_character) {
            proof {
                lemma_filter_or_unfold(character@, subs, source_character@);
                assert(subs[i as int] == filter_model(sub_filters@[i as int]));
                assert(spec_filter_character(character@, subs[i as int], source_character@));
            }
            return true;
        }
        proof {
            assert(subs[i as int] == filter_model(sub_filters@[i as int]));
        }
    }
    proof {
        lemma_filter_or_unfold(character@, subs, source_character@);
    }
    false
}

} // verus!
