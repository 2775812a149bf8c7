//! Ability preconditions: boolean gates based on roster filter counts or on
//! historical per-turn statistics.

use crate::character_filter::{
    eq_filter, filter_character, filter_model, spec_filter_character, CharacterFilter, FilterS,
};
use crate::data_model::{spec_compare, CharacterS, Character, Comparison};
use crate::turn_stats::{stats_lookup, TurnStat};
use vstd::prelude::*;

verus! {

/// A boolean gate on an ability.
#[derive(Debug)]
pub enum Precondition {
    /// How many roster members (the source included) satisfy the filter,
    /// compared against a threshold.
    FilteredCount { filter: CharacterFilter, comparison: Comparison, value: usize },
    /// The source's per-turn statistic, looked up `turn_index_relative` turns
    /// back (0 if the history does not reach that far), compared against a
    /// threshold.
    TurnStat { turn_index_relative: usize, stat: TurnStat, comparison: Comparison, value: usize },
}

/// The mathematical form of a [`Precondition`].
#[verifier::ext_equal]
pub ghost enum PreconditionS {
    FilteredCount { filter: FilterS, comparison: Comparison, value: usize },
    TurnStat { turn_index_relative: usize, stat: TurnStat, comparison: Comparison, value: usize },
}

impl View for Precondition {
    type V = PreconditionS;

    open spec fn view(&self) -> PreconditionS {
        match self {
            Precondition::FilteredCount { filter, comparison, value } => {
                PreconditionS::FilteredCount {
                    filter: filter_model(*filter),
                    comparison: *comparison,
                    value: *value,
                }
            },
            Precondition::TurnStat { turn_index_relative, stat, comparison, value } => {
                PreconditionS::TurnStat {
                    turn_index_relative: *turn_index_relative,
                    stat: *stat,
                    comparison: *comparison,
                    value: *value,
                }
            },
        }
    }
}

/// The mathematical form of an optional precondition.
pub open spec fn option_precondition_model(o: Option<Precondition>) -> Option<PreconditionS> {
    match o {
        Option::Some(p) => Option::Some(p@),
        Option::None => Option::None,
    }
}

/// How many characters of `others` satisfy `f` relative to `src`.
pub open spec fn spec_match_count(others: Seq<CharacterS>, f: FilterS, src: CharacterS) -> int
    decreases others.len(),
{
    if others.len() == 0 {
        0
    } else {
        spec_match_count(others.drop_last(), f, src) + if spec_filter_character(
            others.last(),
            f,
            src,
        ) {
            1int
        } else {
            0int
        }
    }
}

/// How many characters of `others`, plus the source itself, satisfy `f`
/// relative to `src`.
pub open spec fn spec_filtered_count(others: Seq<CharacterS>, f: FilterS, src: CharacterS) -> int {
    spec_match_count(others, f, src) + if spec_filter_character(src, f, src) {
        1int
    } else {
        0int
    }
}

/// Whether `p` holds for the source `src` against the rest of the roster.
pub open spec fn spec_precondition_is_met(
    p: PreconditionS,
    others: Seq<CharacterS>,
    src: CharacterS,
) -> bool {
    match p {
        PreconditionS::FilteredCount { filter, comparison, value } => spec_compare(
            comparison,
            spec_filtered_count(others, filter, src),
            value as int,
        ),
        PreconditionS::TurnStat { turn_index_relative, stat, comparison, value } => spec_compare(
            comparison,
            stats_lookup(src.turn_stats, turn_index_relative as int, stat) as int,
            value as int,
        ),
    }
}

/// Whether an optional precondition holds (no precondition always holds).
pub open spec fn spec_optional_precondition_is_met(
    p: Option<PreconditionS>,
    others: Seq<CharacterS>,
    src: CharacterS,
) -> bool {
    match p {
        Option::Some(p) => spec_precondition_is_met(p, others, src),
        Option::None => true,
    }
}

/// Whether `precondition` holds for `source_character` against the rest of
/// the roster (`characters` excludes the source; a filtered count includes
/// the source itself).
pub fn precondition_is_met(
    precondition: &Precondition,
    characters: &Vec<Character>,
    source_character: &Character,
) -> (r: bool)
    requires
        characters@.len() < usize::MAX,
    ensures
        r == spec_precondition_is_met(
            precondition@,
            characters@.map_values(|c: Character| c@),
            source_character@,
        ),
{
    let ghost roster = characters@.map_values(|c: Character| c@);
    match precondition {
        Precondition::FilteredCount { filter, comparison, value } => {
            let ghost f = filter_model(*filter);
            let mut count: usize = 0;
            let n = characters.len();
            for i in 0..n
                invariant
                    n == characters@.len(),
                    n < usize::MAX,
                    roster == characters@.map_values(|c: Character| c@),
                    f == filter@,
                    count == spec_match_count(roster.take(i as int), f, source_character@),
                    count <= i,
            {
                proof {
                    reveal_with_fuel(spec_match_count, 2);
                    let prev = roster.take(i as int);
                    let cur = roster.take(i + 1);
                    assert(cur.drop_last() =~= prev);
                    assert(cur.last() == characters@[i as int]@);
                    assert(spec_match_count(cur, f, source_character@) == spec_match_count(
                        prev,
                        f,
                        source_character@,
                    ) + if spec_filter_character(characters@[i as int]@, f, source_character@) {
                        1int
                    } else {
                        0int
                    });
                }
                let ghost count0 = count;
                let cond = filter_character(&characters[i], filter, source_character);
                proof {
                    assert(count0 == spec_match_count(roster.take(i as int), f, source_character@));
                    assert(cond == spec_filter_character(
                        characters@[i as int]@,
                        f,
                        source_character@,
                    ));
                }
                if cond {
                    count += 1;
                }
                proof {
                    assert(count == count0 + if cond {
                        1int
                    } else {
                        0int
                    });
                    assert(count == spec_match_count(roster.take(i + 1), f, source_character@));
                }
            }
            proof {
                assert(roster.take(n as int) =~= roster);
            }
            let total = if filter_character(source_character, filter, source_character) {
                count + 1
            } else {
                count
            };
            comparison.compare(&total, value)
        },
        Precondition::TurnStat { turn_index_relative, stat, comparison, value } => {
            let stat_value = source_character.turn_stats.get(*turn_index_relative, stat);
            comparison.compare(&stat_value, value)
        },
    }
}

/// Whether two preconditions have the same mathematical form.
pub fn eq_precondition(a: &Precondition, b: &Precondition) -> (r: bool)
    ensures
        r == (a@ == b@),
{
    match (a, b) {
        (
            Precondition::FilteredCount { filter: fa, comparison: ca, value: va },
            Precondition::FilteredCount { filter: fb, comparison: cb, value: vb },
        ) => eq_filter(fa, fb) && ca == cb && va == vb,
        (
            Precondition::TurnStat { turn_index_relative: ia, stat: sa, comparison: ca, value: va },
            Precondition::TurnStat { turn_index_relative: ib, stat: sb, comparison: cb, value: vb },
        ) => ia == ib && sa == sb && ca == cb && va == vb,
        _ => false,
    }
}

/// Whether an optional precondition holds (no precondition always holds).
pub fn optional_precondition_is_met(
    precondition: Option<&Precondition>,
    characters: &Vec<Character>,
    source_character: &Character,
) -> (r: bool)
    requires
        characters@.len() < usize::MAX,
    ensures
        r == spec_optional_precondition_is_met(
            match precondition {
                Option::Some(p) => Option::Some(p@),
                Option::None => Option::None,
            },
            characters@.map_values(|c: Character| c@),
            source_character@,
        ),
{
    match precondition {
        Option::Some(p) => precondition_is_met(p, characters, source_character),
        Option::None => true,
    }
}

} // verus!
