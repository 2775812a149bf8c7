//! Hexagonal-grid geometry: axial positions, hex distance, and membership of
//! a position in a disk/annulus area around a target point.

use vstd::prelude::*;

verus! {

/// A position on a hexagonal grid using axial coordinates, with the derived
/// third cube coordinate `s = -q - r`.
#[derive(Debug, Clone, Copy, PartialEq, Eq, Structural, PartialOrd, Ord, Hash)]
pub struct PosAxial {
    pub r: isize,
    pub q: isize,
}

/// A position in offset ("odd-q") coordinates, convertible to axial.
#[derive(Debug, Clone, Copy, PartialEq, Eq, Structural, Hash)]
pub struct PosOddQHex {
    pub q: isize,
    pub r: isize,
}

/// A relative offset between two axial positions.
#[derive(Debug, Clone, Copy, PartialEq, Eq, Structural, PartialOrd, Ord, Hash)]
pub struct PosDelta {
    pub r: isize,
    pub q: isize,
}

/// A half-open range of hex distances: `from` is inclusive, `to` is exclusive.
#[derive(Debug, Clone, Copy, PartialEq, Eq, Structural)]
pub struct DistanceRange {
    pub from: usize,
    pub to: usize,
}

/// An area around a target point, given as a set of admissible hex distances.
#[derive(Debug, Clone, Copy, PartialEq, Eq, Structural)]
pub enum Area {
    Disk(DistanceRange),
}

impl Default for PosAxial {
    /// The origin position.
    fn default() -> (p: Self)
        ensures
            p == (PosAxial { r: 0, q: 0 }),
    {
        PosAxial { r: 0, q: 0 }
    }
}

impl Default for PosOddQHex {
    /// The origin position.
    fn default() -> (p: Self)
        ensures
            p == (PosOddQHex { q: 0, r: 0 }),
    {
        PosOddQHex { q: 0, r: 0 }
    }
}

impl Default for Area {
    /// The default area covers exactly the target hex itself.
    fn default() -> (a: Self)
        ensures
            a == Area::Disk(DistanceRange { from: 0, to: 1 }),
    {
        Area::Disk(DistanceRange { from: 0, to: 1 })
    }
}

/// The derived cube coordinate `s = -q - r` of an axial position.
pub open spec fn spec_s(p: PosAxial) -> int {
    -(p.q as int) - (p.r as int)
}

/// The absolute difference of two mathematical integers.
pub open spec fn abs_diff_int(a: int, b: int) -> int {
    if a >= b {
        a - b
    } else {
        b - a
    }
}

/// The hex (cube) distance between two axial positions:
/// `(|dq| + |dr| + |ds|) / 2`, which is always a whole number of hexes.
pub open spec fn spec_distance(a: PosAxial, b: PosAxial) -> int {
    (abs_diff_int(a.q as int, b.q as int) + abs_diff_int(a.r as int, b.r as int)
        + abs_diff_int(spec_s(a), spec_s(b))) / 2
}

/// A mathematical value clamped into the `usize` range from above.
pub open spec fn cap_usize(x: int) -> usize {
    if x > usize::MAX {
        usize::MAX as usize
    } else {
        x as usize
    }
}

/// Whether the hex distance between `a` and `b` lies in the half-open range.
pub open spec fn spec_distance_within_range(a: PosAxial, b: PosAxial, range: DistanceRange) -> bool {
    range.from <= spec_distance(a, b) && spec_distance(a, b) < range.to
}

/// Whether `pos` lies inside `area` centered on `target`.
pub open spec fn spec_pos_in_area(pos: PosAxial, area: Area, target: PosAxial) -> bool {
    match area {
        Area::Disk(range) => spec_distance_within_range(pos, target, range),
    }
}

impl PosAxial {
    pub fn new(r: isize, q: isize) -> (p: Self)
        ensures
            p == (PosAxial { r, q }),
    {
        PosAxial { r, q }
    }

    /// The derived cube coordinate, where it is representable.
    pub fn s(&self) -> (s: isize)
        requires
            isize::MIN <= spec_s(*self) <= isize::MAX,
        ensures
            s == spec_s(*self),
    {
        let wide: i128 = -(self.q as i128) - (self.r as i128);
        wide as isize
    }
}

impl PosOddQHex {
    pub fn new(r: isize, q: isize) -> (p: Self)
        ensures
            p == (PosOddQHex { q, r }),
    {
        PosOddQHex { r, q }
    }

    /// The axial position of this offset position: `q` is kept and the row is
    /// shifted by half the column, rounding towards the odd column.
    pub fn to_axial(&self) -> (p: PosAxial)
        requires
            isize::MIN <= spec_odd_q_to_axial_r(*self) <= isize::MAX,
        ensures
            p.q == self.q,
            p.r == spec_odd_q_to_axial_r(*self),
    {
        let q = self.q as i128;
        let parity: i128 = if self.q % 2 == 0 {
            0
        } else {
            1
        };
        let r = (self.r as i128) - (q - parity) / 2;
        PosAxial { r: r as isize, q: self.q }
    }
}

/// The axial row coordinate corresponding to an odd-q offset position.
pub open spec fn spec_odd_q_to_axial_r(p: PosOddQHex) -> int {
    let q = p.q as int;
    let parity: int = if q % 2 == 0 {
        0
    } else {
        1
    };
    (p.r as int) - (q - parity) / 2
}

/// The hex distance between two axial positions, clamped to `usize::MAX` for
/// positions so far apart that the distance is not representable.
pub fn distance(a: &PosAxial, b: &PosAxial) -> (d: usize)
    ensures
        d == cap_usize(spec_distance(*a, *b)),
{
    let aq = a.q as i128;
    let ar = a.r as i128;
    let bq = b.q as i128;
    let br = b.r as i128;
    let sa = -aq - ar;
    let sb = -bq - br;
    let dq: u128 = if aq >= bq {
        (aq - bq) as u128
    } else {
        (bq - aq) as u128
    };
    let dr: u128 = if ar >= br {
        (ar - br) as u128
    } else {
        (br - ar) as u128
    };
    let ds: u128 = if sa >= sb {
        (sa - sb) as u128
    } else {
        (sb - sa) as u128
    };
    let half: u128 = (dq + dr + ds) / 2;
    if half > usize::MAX as u128 {
        usize::MAX
    } else {
        half as usize
    }
}

/// Whether the hex distance between `a` and `b` lies within `distance_range`.
pub fn distance_within_range(a: &PosAxial, b: &PosAxial, distance_range: &DistanceRange) -> (r:
    bool)
    ensures
        r == spec_distance_within_range(*a, *b, *distance_range),
{
    let d = distance(a, b);
    proof {
        lemma_cap_usize_range(spec_distance(*a, *b), *distance_range);
    }
    distance_range.from <= d && d < distance_range.to
}

/// Whether `pos` lies inside `area` centered on `target`.
pub fn pos_in_area(pos: &PosAxial, area: &Area, target: &PosAxial) -> (r: bool)
    ensures
        r == spec_pos_in_area(*pos, *area, *target),
{
    match area {
        Area::Disk(distance_range) => distance_within_range(pos, target, distance_range),
    }
}

/// Clamping the distance to `usize::MAX` does not change whether it lies in a
/// `usize`-bounded half-open range.
proof fn lemma_cap_usize_range(d: int, range: DistanceRange)
    requires
        d >= 0,
    ensures
        (range.from <= cap_usize(d) && cap_usize(d) < range.to) <==> (range.from <= d && d
            < range.to),
{
}

/// Twice the hex distance equals the sum of the three coordinate differences:
/// the sum is always even, so the halving in `spec_distance` is exact.
pub proof fn lemma_distance_double(a: PosAxial, b: PosAxial)
    ensures
        2 * spec_distance(a, b) == abs_diff_int(a.q as int, b.q as int) + abs_diff_int(
            a.r as int,
            b.r as int,
        ) + abs_diff_int(spec_s(a), spec_s(b)),
{
    let x = (a.q as int) - (b.q as int);
    let y = (a.r as int) - (b.r as int);
    let sum = abs_diff_int(a.q as int, b.q as int) + abs_diff_int(a.r as int, b.r as int)
        + abs_diff_int(spec_s(a), spec_s(b));
    assert(abs_diff_int(spec_s(a), spec_s(b)) == if x + y >= 0 {
        x + y
    } else {
        -(x + y)
    });
    assert(sum % 2 == 0) by {
        if x >= 0 && y >= 0 {
            assert(sum == 2 * (x + y));
        } else if x >= 0 && y < 0 && x + y >= 0 {
            assert(sum == 2 * x);
        } else if x >= 0 && y < 0 {
            assert(sum == -2 * y);
        } else if x < 0 && y >= 0 && x + y >= 0 {
            assert(sum == 2 * y);
        } else if x < 0 && y >= 0 {
            assert(sum == -2 * x);
        } else {
            assert(sum == -2 * (x + y));
        }
    }
}

/// Hex distance is non-negative.
pub proof fn lemma_distance_nonneg(a: PosAxial, b: PosAxial)
    ensures
        spec_distance(a, b) >= 0,
{
}

/// Hex distance is symmetric in its two arguments.
pub proof fn lemma_distance_symmetric(a: PosAxial, b: PosAxial)
    ensures
        spec_distance(a, b) == spec_distance(b, a),
{
}

/// Hex distance satisfies the triangle inequality.
pub proof fn lemma_distance_triangle(a: PosAxial, b: PosAxial, c: PosAxial)
    ensures
        spec_distance(a, c) <= spec_distance(a, b) + spec_distance(b, c),
{
    lemma_distance_double(a, b);
    lemma_distance_double(b, c);
    lemma_distance_double(a, c);
}

/// Hex distance is zero exactly between a position and itself.
pub proof fn lemma_distance_zero(a: PosAxial, b: PosAxial)
    ensures
        spec_distance(a, b) == 0 <==> a == b,
{
    lemma_distance_double(a, b);
}

/// The degenerate disk `[0, 1)` around a target contains exactly the target
/// hex itself.
pub proof fn lemma_unit_disk_is_target(pos: PosAxial, target: PosAxial)
    ensures
        spec_pos_in_area(pos, Area::Disk(DistanceRange { from: 0, to: 1 }), target) <==> pos
            == target,
{
    lemma_distance_nonneg(pos, target);
    lemma_distance_zero(pos, target);
}

} // verus!
