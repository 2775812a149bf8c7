//! Per-turn statistic counters: an append-only history of counter snapshots,
//! one per finished turn, with the current turn always the last entry.

use crate::enum_map::{ledger_empty, ledger_shift, EnumMap, LedgerKey};
use vstd::prelude::*;

verus! {

/// A per-turn statistic kind.
#[derive(Debug, Clone, Copy, PartialEq, Eq, Structural, PartialOrd, Ord, Hash)]
pub enum TurnStat {
    SpacesMoved,
    AttackActions,
}

impl LedgerKey for TurnStat {
    fn same(&self, other: &Self) -> (r: bool)
        ensures
            r == (self == other),
    {
        self == other
    }
}

/// An append-only sequence of per-turn counter snapshots. The last entry is
/// the current turn (created lazily on first write).
#[derive(Debug)]
pub struct TurnStats(Vec<EnumMap<TurnStat>>);

impl View for TurnStats {
    type V = Seq<Map<TurnStat, usize>>;

    closed spec fn view(&self) -> Seq<Map<TurnStat, usize>> {
        self.0@.map_values(|m: EnumMap<TurnStat>| m@)
    }
}

/// The counter recorded `turns_ago` turns before the latest entry; 0 if the
/// history does not reach that far back.
pub open spec fn stats_lookup(h: Seq<Map<TurnStat, usize>>, turns_ago: int, stat: TurnStat) -> usize {
    if 0 <= turns_ago < h.len() {
        h[h.len() - 1 - turns_ago][stat]
    } else {
        0
    }
}

/// The history after adding `amount` to a counter of the current turn: a
/// fresh entry is created first if the history is empty.
pub open spec fn stats_bump(h: Seq<Map<TurnStat, usize>>, stat: TurnStat, amount: int) -> Seq<
    Map<TurnStat, usize>,
> {
    let h1 = if h.len() == 0 {
        h.push(ledger_empty())
    } else {
        h
    };
    h1.update(h1.len() - 1, ledger_shift(h1.last(), stat, amount))
}

impl TurnStats {
    /// The counter recorded `turn_index_relative` turns before the latest
    /// entry; 0 if the history does not reach that far back.
    pub fn get(&self, turn_index_relative: usize, stat: &TurnStat) -> (c: usize)
        ensures
            c == stats_lookup(self@, turn_index_relative as int, *stat),
    {
        if turn_index_relative < self.0.len() {
            let idx = self.0.len() - 1 - turn_index_relative;
            self.0[idx].get(stat)
        } else {
            0
        }
    }

    /// Closes the current turn by appending a fresh zeroed entry.
    pub fn end_turn(&mut self)
        ensures
            final(self)@ == old(self)@.push(ledger_empty()),
    {
        self.0.push(EnumMap::default());
        proof {
            assert(self@ =~= old(self)@.push(ledger_empty()));
        }
    }

    /// Adds `amount` to the given counter of the current turn, creating the
    /// first history entry if none exists yet; saturates at `usize::MAX`.
    pub fn add_to_current(&mut self, stat: TurnStat, amount: usize)
        requires
            amount <= isize::MAX,
        ensures
            final(self)@ == stats_bump(old(self)@, stat, amount as int),
    {
        if self.0.len() == 0 {
            self.0.push(EnumMap::default());
        }
        let i = self.0.len() - 1;
        let m = self.0.pop().unwrap();
        let m1 = m.with_incremented(stat, amount as isize);
        self.0.push(m1);
        proof {
            assert(self@ =~= stats_bump(old(self)@, stat, amount as int));
        }
    }

    /// Whether this history records the same counters as `other`.
    pub fn stats_eq(&self, other: &Self) -> (r: bool)
        ensures
            r == (self@ == other@),
    {
        if self.0.len() != other.0.len() {
            proof {
                assert(self@.len() != other@.len());
            }
            return false;
        }
        let n = self.0.len();
        for i in 0..n
            invariant
                n == self.0@.len(),
                n == other.0@.len(),
                forall|j: int| 0 <= j < i ==> self@[j] == other@[j],
        {
            if !self.0[i].ledger_eq(&other.0[i]) {
                proof {
                    assert(self@[i as int] != other@[i as int]);
                }
                return false;
            }
        }
        proof {
            assert(self@ =~= other@);
        }
        true
    }
}

impl Default for TurnStats {
    /// An empty history.
    fn default() -> (r: Self)
        ensures
            r@ == Seq::<Map<TurnStat, usize>>::empty(),
    {
        let r = TurnStats(Vec::new());
        proof {
            assert(r@ =~= Seq::<Map<TurnStat, usize>>::empty());
        }
        r
    }
}

} // verus!
